//! Scaling Deployments and retiring the cron Deployment.

use vstd::prelude::*;

use crate::controller::helpers::cron_depl_name;
use crate::crd::odoo_instance::{OdooInstance, OdooInstanceView};
use crate::error::{Error, ErrorView};
use crate::k8s::apps::{Deployment, DeploymentView};
use crate::k8s::meta::{OwnerReference, OwnerReferenceView};
use crate::text::same;

verus! {

// ── Ownership ───────────────────────────────────────────────────────────────
/// Whether an owner is the given one, as the managing controller.
pub open spec fn is_controller(owner: OwnerReferenceView, oref: OwnerReferenceView) -> bool {
    &&& owner.controller == Some(true)
    &&& owner.api_version == oref.api_version
    &&& owner.kind == oref.kind
    &&& owner.name == oref.name
    &&& owner.uid == oref.uid
}

/// Whether a Deployment has the given owner as its managing controller.
pub open spec fn controlled_by(deployment: DeploymentView, oref: OwnerReferenceView) -> bool {
    match deployment.metadata.owner_references {
        Some(owners) => exists|i: int|
            0 <= i < owners.len() && is_controller(#[trigger] owners[i], oref),
        None => false,
    }
}

/// Tests whether a Deployment has the given owner as its managing controller.
pub fn deployment_controlled_by(deployment: &Deployment, oref: &OwnerReference) -> (r: bool)
    ensures
        r == controlled_by(deployment.deep_view(), oref.deep_view()),
{
    let owners = match &deployment.metadata.owner_references {
        Some(owners) => owners,
        None => {
            return false;
        },
    };
    let mut i: usize = 0;
    while i < owners.len()
        invariant
            i <= owners.len(),
            deployment.deep_view().metadata.owner_references == Some(owners.deep_view()),
            forall|j: int|
                0 <= j < i ==> !is_controller(
                    #[trigger] owners.deep_view()[j],
                    oref.deep_view(),
                ),
        decreases owners.len() - i,
    {
        let owner = &owners[i];
        let controller = match owner.controller {
            Some(controller) => controller,
            None => false,
        };
        assert(owners.deep_view()[i as int] == owner.deep_view());
        if controller && same(owner.api_version.as_str(), oref.api_version.as_str()) && same(
            owner.kind.as_str(),
            oref.kind.as_str(),
        ) && same(owner.name.as_str(), oref.name.as_str()) && same(
            owner.uid.as_str(),
            oref.uid.as_str(),
        ) {
            proof {
                let seen = deployment.deep_view().metadata.owner_references->0;
                assert(0 <= i < seen.len() && is_controller(seen[i as int], oref.deep_view()));
            }
            return true;
        }
        i += 1;
    }
    false
}

// ── Scaling ─────────────────────────────────────────────────────────────────
/// A merge patch of the number of pods of a Deployment, bound to the Deployment
/// that was read.
#[derive(Debug, PartialEq)]
pub struct ScalePatch {
    pub name: String,
    pub uid: String,
    pub resource_version: String,
    pub replicas: i32,
}

/// What [`ScalePatch`] holds.
#[verifier::ext_equal]
pub struct ScalePatchView {
    pub name: Seq<char>,
    pub uid: Seq<char>,
    pub resource_version: Seq<char>,
    pub replicas: i32,
}

impl DeepView for ScalePatch {
    type V = ScalePatchView;

    open spec fn deep_view(&self) -> ScalePatchView {
        ScalePatchView {
            name: self.name@,
            uid: self.uid@,
            resource_version: self.resource_version@,
            replicas: self.replicas,
        }
    }
}

/// The text `<ns>/<name>`.
pub open spec fn qualified(ns: Seq<char>, name: Seq<char>) -> Seq<char> {
    ns + "/"@ + name
}

/// The patch that scales a Deployment as it was read, or what it lacks for that.
pub open spec fn scale_patch_of(
    ns: Seq<char>,
    deployment: DeploymentView,
    replicas: i32,
) -> Result<ScalePatchView, ErrorView> {
    match deployment.metadata.name {
        None => Err(
            ErrorView::Config("Deployment in namespace "@ + ns + " has no metadata.name"@),
        ),
        Some(name) => match deployment.metadata.uid {
            None => Err(
                ErrorView::Config("Deployment "@ + qualified(ns, name) + " has no metadata.uid"@),
            ),
            Some(uid) => match deployment.metadata.resource_version {
                None => Err(
                    ErrorView::Config(
                        "Deployment "@ + qualified(ns, name) + " has no metadata.resourceVersion"@,
                    ),
                ),
                Some(resource_version) => Ok(
                    ScalePatchView { name, uid, resource_version, replicas },
                ),
            },
        },
    }
}

fn deployment_lacks(ns: &str, name: &str, what: &str) -> (r: Error)
    ensures
        r.deep_view() == ErrorView::Config("Deployment "@ + qualified(ns@, name@) + what@),
{
    let place = ns.to_string().concat("/").concat(name);
    Error::config("Deployment ".to_string().concat(place.as_str()).concat(what))
}

/// The merge patch that scales a Deployment as it was read. It carries the
/// identity and the version that were read, so that the server refuses it once
/// the Deployment has been replaced or changed.
pub fn scale_deployment_if_current(ns: &str, deployment: &Deployment, replicas: i32) -> (r: Result<
    ScalePatch,
    Error,
>)
    ensures
        crate::error::result_view(r) == scale_patch_of(ns@, deployment.deep_view(), replicas),
{
    let name = match &deployment.metadata.name {
        Some(name) => name,
        None => {
            return Err(
                Error::config(
                    "Deployment in namespace ".to_string().concat(ns).concat(
                        " has no metadata.name",
                    ),
                ),
            );
        },
    };
    let uid = match &deployment.metadata.uid {
        Some(uid) => uid,
        None => {
            return Err(deployment_lacks(ns, name.as_str(), " has no metadata.uid"));
        },
    };
    let resource_version = match &deployment.metadata.resource_version {
        Some(resource_version) => resource_version,
        None => {
            return Err(deployment_lacks(ns, name.as_str(), " has no metadata.resourceVersion"));
        },
    };
    Ok(
        ScalePatch {
            name: name.clone(),
            uid: uid.clone(),
            resource_version: resource_version.clone(),
            replicas,
        },
    )
}

// ── Retiring cron ───────────────────────────────────────────────────────────
/// The next step of retiring the cron Deployment.
#[derive(Debug)]
pub enum RetirementStep {
    /// Scale it to zero by this patch, then delete what the patch returns; see
    /// [`retirement_deletion`]. It is not retired yet.
    ScaleThenDelete(ScalePatch),
    /// It is being deleted. It is not retired yet.
    AwaitDeletion,
    /// It is gone: retired once no pod is left that this selector finds.
    CheckPods(String),
}

/// What [`RetirementStep`] holds.
pub enum RetirementStepView {
    ScaleThenDelete(ScalePatchView),
    AwaitDeletion,
    CheckPods(Seq<char>),
}

impl DeepView for RetirementStep {
    type V = RetirementStepView;

    open spec fn deep_view(&self) -> RetirementStepView {
        match self {
            RetirementStep::ScaleThenDelete(patch) => RetirementStepView::ScaleThenDelete(
                patch.deep_view(),
            ),
            RetirementStep::AwaitDeletion => RetirementStepView::AwaitDeletion,
            RetirementStep::CheckPods(selector) => RetirementStepView::CheckPods(selector@),
        }
    }
}

/// The next step of retiring the cron Deployment, or why it is refused.
pub open spec fn retirement_of(
    ns: Seq<char>,
    instance: OdooInstanceView,
    oref: OwnerReferenceView,
    current: Option<DeploymentView>,
) -> Result<RetirementStepView, ErrorView> {
    let name = instance.name() + "-cron"@;
    match current {
        None => Ok(RetirementStepView::CheckPods("app="@ + name)),
        Some(deployment) => if !controlled_by(deployment, oref) {
            Err(
                ErrorView::Config(
                    "refusing to retire Deployment "@ + qualified(ns, name)
                        + ": it is not controlled by this OdooInstance"@,
                ),
            )
        } else if deployment.metadata.deletion_timestamp is Some {
            Ok(RetirementStepView::AwaitDeletion)
        } else if deployment.metadata.uid is None {
            Err(ErrorView::Config("Deployment "@ + qualified(ns, name) + " has no metadata.uid"@))
        } else {
            match scale_patch_of(ns, deployment, 0) {
                Ok(patch) => Ok(RetirementStepView::ScaleThenDelete(patch)),
                Err(e) => Err(e),
            }
        },
    }
}

/// The next step of retiring the cron Deployment of an instance that runs cron
/// in its web pods, given the Deployment that is there. A Deployment that the
/// instance does not control is refused.
pub fn retirement_step(
    ns: &str,
    instance: &OdooInstance,
    oref: &OwnerReference,
    current: Option<&Deployment>,
) -> (r: Result<RetirementStep, Error>)
    ensures
        crate::error::result_view(r) == retirement_of(
            ns@,
            instance.deep_view(),
            oref.deep_view(),
            current.deep_view(),
        ),
{
    let name = cron_depl_name(instance);
    let deployment = match current {
        Some(deployment) => deployment,
        None => {
            return Ok(RetirementStep::CheckPods("app=".to_string().concat(name.as_str())));
        },
    };
    if !deployment_controlled_by(deployment, oref) {
        let place = ns.to_string().concat("/").concat(name.as_str());
        return Err(
            Error::config(
                "refusing to retire Deployment ".to_string().concat(place.as_str()).concat(
                    ": it is not controlled by this OdooInstance",
                ),
            ),
        );
    }
    if deployment.metadata.deletion_timestamp.is_some() {
        return Ok(RetirementStep::AwaitDeletion);
    }
    if deployment.metadata.uid.is_none() {
        return Err(deployment_lacks(ns, name.as_str(), " has no metadata.uid"));
    }
    match scale_deployment_if_current(ns, deployment, 0) {
        Ok(patch) => Ok(RetirementStep::ScaleThenDelete(patch)),
        Err(e) => Err(e),
    }
}

/// How what belongs to an object is deleted with it.
#[derive(Clone, Copy, Debug, PartialEq, Eq, Structural)]
pub enum PropagationPolicy {
    /// What belongs to the object is left alone.
    Orphan,
    /// The object goes at once, and what belongs to it after that.
    Background,
    /// What belongs to the object goes first.
    Foreground,
}

/// A deletion of the cron Deployment, with its preconditions.
#[derive(Debug, PartialEq)]
pub struct RetirementDeletion {
    pub name: String,
    pub propagation_policy: PropagationPolicy,
    pub uid: String,
    pub resource_version: String,
}

/// What [`RetirementDeletion`] holds.
#[verifier::ext_equal]
pub struct RetirementDeletionView {
    pub name: Seq<char>,
    pub propagation_policy: PropagationPolicy,
    pub uid: Seq<char>,
    pub resource_version: Seq<char>,
}

impl DeepView for RetirementDeletion {
    type V = RetirementDeletionView;

    open spec fn deep_view(&self) -> RetirementDeletionView {
        RetirementDeletionView {
            name: self.name@,
            propagation_policy: self.propagation_policy,
            uid: self.uid@,
            resource_version: self.resource_version@,
        }
    }
}

/// The deletion that follows the scaling, or what the patched Deployment lacks.
pub open spec fn deletion_of(
    ns: Seq<char>,
    instance: OdooInstanceView,
    patch: ScalePatchView,
    patched: DeploymentView,
) -> Result<RetirementDeletionView, ErrorView> {
    let name = instance.name() + "-cron"@;
    match patched.metadata.resource_version {
        Some(resource_version) => Ok(
            RetirementDeletionView {
                name,
                propagation_policy: PropagationPolicy::Foreground,
                uid: patch.uid,
                resource_version,
            },
        ),
        None => Err(
            ErrorView::Config(
                "patched Deployment "@ + qualified(ns, name) + " has no metadata.resourceVersion"@,
            ),
        ),
    }
}

/// The deletion that follows the scaling, in the foreground. Its preconditions
/// are the identity that was read and the version that the patch returned, so
/// that a Deployment that took its place meanwhile is not deleted.
pub fn retirement_deletion(
    ns: &str,
    instance: &OdooInstance,
    patch: &ScalePatch,
    patched: &Deployment,
) -> (r: Result<RetirementDeletion, Error>)
    ensures
        crate::error::result_view(r) == deletion_of(
            ns@,
            instance.deep_view(),
            patch.deep_view(),
            patched.deep_view(),
        ),
{
    let name = cron_depl_name(instance);
    match &patched.metadata.resource_version {
        Some(resource_version) => Ok(
            RetirementDeletion {
                name,
                propagation_policy: PropagationPolicy::Foreground,
                uid: patch.uid.clone(),
                resource_version: resource_version.clone(),
            },
        ),
        None => {
            let place = ns.to_string().concat("/").concat(name.as_str());
            Err(
                Error::config(
                    "patched Deployment ".to_string().concat(place.as_str()).concat(
                        " has no metadata.resourceVersion",
                    ),
                ),
            )
        },
    }
}

/// Whether cron is retired, once its Deployment is gone: when none of its pods
/// is left.
pub fn retirement_complete(pods_left: usize) -> (r: bool)
    ensures
        r == (pods_left == 0),
{
    pods_left == 0
}

// ── Laws ────────────────────────────────────────────────────────────────────
/// A Deployment that the instance does not control is never touched.
pub proof fn foreign_deployment_is_refused(
    ns: Seq<char>,
    instance: OdooInstanceView,
    oref: OwnerReferenceView,
    deployment: DeploymentView,
)
    requires
        !controlled_by(deployment, oref),
    ensures
        retirement_of(ns, instance, oref, Some(deployment)) is Err,
{
}

/// Retirement comes to the pods only once the Deployment is gone, and until then
/// every write is bound to the Deployment that was read: scaling to zero by its
/// identity and version, deletion by its identity and the version of the scaling.
/// The deletion waits for what belongs to the Deployment.
pub proof fn retirement_is_bound_to_what_was_read(
    ns: Seq<char>,
    instance: OdooInstanceView,
    oref: OwnerReferenceView,
    current: Option<DeploymentView>,
    patched: DeploymentView,
)
    ensures
        retirement_of(ns, instance, oref, current) matches Ok(step) ==> match step {
            RetirementStepView::CheckPods(_) => current is None,
            RetirementStepView::AwaitDeletion => current is Some,
            RetirementStepView::ScaleThenDelete(patch) => {
                &&& current matches Some(deployment) && {
                    &&& Some(patch.uid) == deployment.metadata.uid
                    &&& Some(patch.resource_version) == deployment.metadata.resource_version
                    &&& patch.replicas == 0
                    &&& deletion_of(ns, instance, patch, patched) matches Ok(deletion) ==> Some(
                        deletion.uid,
                    ) == deployment.metadata.uid && Some(deletion.resource_version)
                        == patched.metadata.resource_version && deletion.propagation_policy
                        == PropagationPolicy::Foreground
                }
            },
        },
{
}

/// The Deployments that the operator builds for an instance are controlled by
/// that instance.
pub proof fn own_deployments_are_controlled(
    ns: Seq<char>,
    depl_name: Seq<char>,
    instance: OdooInstanceView,
    replicas: i32,
    conf_hash: Seq<char>,
    pod: crate::k8s::pods::PodSpecView,
)
    ensures
        ({
            let oref = crate::controller::helpers::owner_reference(
                "bemade.org/v1alpha1"@,
                "OdooInstance"@,
                instance.metadata,
            );
            controlled_by(
                crate::controller::child_resources::deployments::workload(
                    ns,
                    depl_name,
                    instance,
                    oref,
                    replicas,
                    conf_hash,
                    pod,
                ),
                oref,
            )
        }),
{
    let oref = crate::controller::helpers::owner_reference(
        "bemade.org/v1alpha1"@,
        "OdooInstance"@,
        instance.metadata,
    );
    let deployment = crate::controller::child_resources::deployments::workload(
        ns,
        depl_name,
        instance,
        oref,
        replicas,
        conf_hash,
        pod,
    );
    let owners = deployment.metadata.owner_references->0;
    assert(owners.len() == 1 && is_controller(owners[0], oref));
}

/// A Deployment is the instance's own exactly where one of its owners is marked as its
/// controller and is the very object, by kind, name and identity.
pub proof fn controllers_match_in_every_part(
    deployment: DeploymentView,
    oref: OwnerReferenceView,
)
    ensures
        controlled_by(deployment, oref) <==> (
        deployment.metadata.owner_references matches Some(owners) && exists|i: int|
            0 <= i < owners.len() && (#[trigger] owners[i]).controller == Some(true)
                && owners[i].api_version == oref.api_version && owners[i].kind == oref.kind
                && owners[i].name == oref.name && owners[i].uid == oref.uid),
{
}

/// Scaling is bound to the Deployment that was read, by its name, its identity and its
/// version, and asks for the number of pods that was asked for. A Deployment that lacks
/// one of these is not scaled, and the error says which, and of what.
pub proof fn scaling_is_bound_to_what_was_read(
    ns: Seq<char>,
    deployment: DeploymentView,
    replicas: i32,
)
    ensures
        ({
            let patch = scale_patch_of(ns, deployment, replicas);
            let meta = deployment.metadata;
            &&& patch is Ok <==> meta.name is Some && meta.uid is Some && meta.resource_version
                is Some
            &&& patch matches Ok(patch) ==> {
                &&& Some(patch.name) == meta.name
                &&& Some(patch.uid) == meta.uid
                &&& Some(patch.resource_version) == meta.resource_version
                &&& patch.replicas == replicas
            }
            &&& meta.name is None ==> patch->Err_0 == ErrorView::Config(
                "Deployment in namespace "@ + ns + " has no metadata.name"@,
            )
            &&& meta.name is Some && meta.uid is None ==> patch->Err_0 == ErrorView::Config(
                "Deployment "@ + (ns + "/"@ + meta.name->0) + " has no metadata.uid"@,
            )
            &&& meta.name is Some && meta.uid is Some && meta.resource_version is None
                ==> patch->Err_0 == ErrorView::Config(
                "Deployment "@ + (ns + "/"@ + meta.name->0) + " has no metadata.resourceVersion"@,
            )
        }),
{
}

/// Retiring cron goes by what is there: nothing left but pods to look for, by the cron
/// Deployment's name; a Deployment that is going already, to wait for; one that is not
/// the instance's own, to refuse; and otherwise one to scale to zero and then delete,
/// which takes its name, identity and version.
pub proof fn retirement_goes_by_what_is_there(
    ns: Seq<char>,
    instance: OdooInstanceView,
    oref: OwnerReferenceView,
    deployment: DeploymentView,
)
    ensures
        ({
            let name = instance.metadata.name_any() + "-cron"@;
            let meta = deployment.metadata;
            let own = controlled_by(deployment, oref);
            let step = retirement_of(ns, instance, oref, Some(deployment));
            &&& retirement_of(ns, instance, oref, None) == Ok::<RetirementStepView, ErrorView>(
                RetirementStepView::CheckPods("app="@ + name),
            )
            &&& !own ==> step == Err::<RetirementStepView, ErrorView>(
                ErrorView::Config(
                    "refusing to retire Deployment "@ + (ns + "/"@ + name)
                        + ": it is not controlled by this OdooInstance"@,
                ),
            )
            &&& own && meta.deletion_timestamp is Some ==> step == Ok::<
                RetirementStepView,
                ErrorView,
            >(RetirementStepView::AwaitDeletion)
            &&& own && meta.deletion_timestamp is None && meta.uid is None ==> step == Err::<
                RetirementStepView,
                ErrorView,
            >(ErrorView::Config("Deployment "@ + (ns + "/"@ + name) + " has no metadata.uid"@))
            &&& own && meta.deletion_timestamp is None && meta.uid is Some && meta.name is Some
                && meta.resource_version is Some ==> step == Ok::<RetirementStepView, ErrorView>(
                RetirementStepView::ScaleThenDelete(
                    ScalePatchView {
                        name: meta.name->0,
                        uid: meta.uid->0,
                        resource_version: meta.resource_version->0,
                        replicas: 0,
                    },
                ),
            )
            &&& own && meta.deletion_timestamp is None && (meta.uid is None || meta.name is None
                || meta.resource_version is None) ==> step is Err
        }),
{
}

/// The deletion that follows names the cron Deployment, waits for its pods, and is
/// bound to the identity that was scaled and to the version that the scaling returned;
/// without that version there is none. Cron is retired when not one pod is left.
pub proof fn deletion_is_bound_to_the_scaling(
    ns: Seq<char>,
    instance: OdooInstanceView,
    patch: ScalePatchView,
    patched: DeploymentView,
    pods_left: usize,
    complete: bool,
)
    requires
        call_ensures(retirement_complete, (pods_left,), complete),
    ensures
        ({
            let name = instance.metadata.name_any() + "-cron"@;
            let deletion = deletion_of(ns, instance, patch, patched);
            &&& complete <==> pods_left == 0
            &&& patched.metadata.resource_version matches Some(version) ==> deletion is Ok
                && deletion->Ok_0.name == name && deletion->Ok_0.uid == patch.uid
                && deletion->Ok_0.resource_version == version
                && deletion->Ok_0.propagation_policy == PropagationPolicy::Foreground
            &&& patched.metadata.resource_version is None ==> deletion == Err::<
                RetirementDeletionView,
                ErrorView,
            >(
                ErrorView::Config(
                    "patched Deployment "@ + (ns + "/"@ + name)
                        + " has no metadata.resourceVersion"@,
                ),
            )
        }),
{
}

/// A Deployment is asked for exactly the number of pods that is asked for.
pub proof fn deployments_are_scaled_as_asked(
    ns: &str,
    deployment: Deployment,
    replicas: i32,
    scaled: Result<ScalePatch, Error>,
    owned: bool,
    oref: OwnerReference,
)
    requires
        call_ensures(scale_deployment_if_current, (ns, &deployment, replicas), scaled),
        call_ensures(deployment_controlled_by, (&deployment, &oref), owned),
    ensures
        scaled is Ok <==> deployment.metadata.name is Some && deployment.metadata.uid is Some
            && deployment.metadata.resource_version is Some,
        scaled matches Ok(patch) ==> patch.replicas == replicas && patch.name@
            == deployment.metadata.name->0@ && patch.uid@ == deployment.metadata.uid->0@
            && patch.resource_version@ == deployment.metadata.resource_version->0@,
        deployment.metadata.owner_references is None ==> !owned,
        owned <==> controlled_by(deployment.deep_view(), oref.deep_view()),
{
    let seen = deployment.deep_view().metadata;
    assert(seen.name == deployment.metadata.name.deep_view());
    assert(seen.uid == deployment.metadata.uid.deep_view());
    assert(seen.resource_version == deployment.metadata.resource_version.deep_view());
}

/// A step of retirement is decided on the Deployment that was found, and its deletion on
/// what the scaling returned.
pub proof fn retirement_steps_go_by_what_was_found(
    ns: &str,
    instance: OdooInstance,
    oref: OwnerReference,
    current: Option<&Deployment>,
    step: Result<RetirementStep, Error>,
    patch: ScalePatch,
    patched: Deployment,
    deletion: Result<RetirementDeletion, Error>,
)
    requires
        call_ensures(retirement_step, (ns, &instance, &oref, current), step),
        call_ensures(retirement_deletion, (ns, &instance, &patch, &patched), deletion),
    ensures
        current is None ==> step is Ok && step->Ok_0.deep_view() == RetirementStepView::CheckPods(
            "app="@ + (instance.deep_view().metadata.name_any() + "-cron"@),
        ),
        current matches Some(found) && !controlled_by(found.deep_view(), oref.deep_view())
            ==> step is Err,
        current is Some && current->0.metadata.deletion_timestamp is None && step is Ok ==> (step->Ok_0.deep_view() matches RetirementStepView::ScaleThenDelete(scaling)
            && scaling.replicas == 0 && Some(scaling.uid) == current->0.deep_view().metadata.uid),
        deletion is Ok <==> patched.metadata.resource_version is Some,
        deletion matches Ok(deletion) ==> deletion.uid@ == patch.uid@ && deletion.resource_version@
            == patched.metadata.resource_version->0@ && deletion.name@
            == instance.deep_view().metadata.name_any() + "-cron"@
            && deletion.propagation_policy == PropagationPolicy::Foreground,
{
    assert(patched.deep_view().metadata.resource_version
        == patched.metadata.resource_version.deep_view());
    if let Some(found) = current {
        assert(current.deep_view() == Some(found.deep_view()));
        assert(found.deep_view().metadata.deletion_timestamp
            == found.metadata.deletion_timestamp.deep_view());
    }
}

} // verus!
