//! Parts of an object that the operator hands on without reading them.

use vstd::prelude::*;

verus! {

/// Scheduling preferences of a pod.
pub type PodAffinity = k8s_openapi::api::core::v1::Affinity;

/// A toleration of a pod.
pub type PodToleration = k8s_openapi::api::core::v1::Toleration;

/// A source of environment variables.
pub type EnvSource = k8s_openapi::api::core::v1::EnvFromSource;

/// A status condition.
pub type StatusCondition = k8s_openapi::apimachinery::pkg::apis::meta::v1::Condition;

/// Scheduling preferences of a pod, handed on as they are.
#[verifier::external_type_specification]
#[verifier::external_body]
pub struct ExAffinity(k8s_openapi::api::core::v1::Affinity);

/// A toleration of a pod, handed on as it is.
#[verifier::external_type_specification]
#[verifier::external_body]
pub struct ExToleration(k8s_openapi::api::core::v1::Toleration);

/// A source of environment variables, handed on as it is.
#[verifier::external_type_specification]
#[verifier::external_body]
pub struct ExEnvFromSource(k8s_openapi::api::core::v1::EnvFromSource);

/// A status condition, handed on as it is.
#[verifier::external_type_specification]
#[verifier::external_body]
pub struct ExCondition(k8s_openapi::apimachinery::pkg::apis::meta::v1::Condition);

/// A JSON document.
#[verifier::external_type_specification]
#[verifier::external_body]
pub struct ExValue(serde_json::Value);

/// The derived `Clone` of `Affinity` copies every field: the copy is equal to
/// what was copied.
pub assume_specification[ <k8s_openapi::api::core::v1::Affinity as Clone>::clone ](
    a: &k8s_openapi::api::core::v1::Affinity,
) -> (r: k8s_openapi::api::core::v1::Affinity)
    ensures
        r == *a,
;

/// The derived `Clone` of `Toleration` copies every field: the copy is equal to
/// what was copied.
pub assume_specification[ <k8s_openapi::api::core::v1::Toleration as Clone>::clone ](
    a: &k8s_openapi::api::core::v1::Toleration,
) -> (r: k8s_openapi::api::core::v1::Toleration)
    ensures
        r == *a,
;

/// The derived `Clone` of `EnvFromSource` copies every field: the copy is equal
/// to what was copied.
pub assume_specification[ <k8s_openapi::api::core::v1::EnvFromSource as Clone>::clone ](
    a: &k8s_openapi::api::core::v1::EnvFromSource,
) -> (r: k8s_openapi::api::core::v1::EnvFromSource)
    ensures
        r == *a,
;

/// Copies a list of tolerations.
pub fn copy_tolerations(
    v: &Vec<PodToleration>,
) -> (r: Vec<PodToleration>)
    ensures
        r@ == v@,
{
    let r = v.clone();
    assert(r@ =~= v@);
    r
}

} // verus!
