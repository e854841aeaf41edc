//! Pods and their containers.

use vstd::prelude::*;

use crate::k8s::env::{EnvVar, EnvVarView};
use crate::k8s::meta::{ObjectMeta, ObjectMetaView};
use crate::k8s::opaque::{EnvSource, PodAffinity, PodToleration};
use crate::k8s::volumes::{Volume, VolumeMount, VolumeMountView, VolumeView};
use crate::string_map::StringMap;
use crate::text::copy_opt;

verus! {

/// A number or a text, as some Kubernetes fields take.
#[derive(Debug, PartialEq)]
pub enum IntOrString {
    Int(i32),
    Text(String),
}

/// What [`IntOrString`] holds.
pub enum IntOrStringView {
    Int(i32),
    Text(Seq<char>),
}

impl DeepView for IntOrString {
    type V = IntOrStringView;

    open spec fn deep_view(&self) -> IntOrStringView {
        match self {
            IntOrString::Int(n) => IntOrStringView::Int(*n),
            IntOrString::Text(s) => IntOrStringView::Text(s@),
        }
    }
}

impl IntOrStringView {
    /// The number zero.
    pub open spec fn blank() -> IntOrStringView {
        IntOrStringView::Int(0)
    }
}

impl Default for IntOrString {
    fn default() -> (r: IntOrString)
        ensures
            r.deep_view() == IntOrStringView::blank(),
    {
        IntOrString::Int(0)
    }
}

/// A claim on a dynamically allocated resource.
#[derive(Debug, PartialEq)]
pub struct ResourceClaim {
    pub name: String,
    pub request: Option<String>,
}

/// What [`ResourceClaim`] holds.
#[verifier::ext_equal]
pub struct ResourceClaimView {
    pub name: Seq<char>,
    pub request: Option<Seq<char>>,
}

impl DeepView for ResourceClaim {
    type V = ResourceClaimView;

    open spec fn deep_view(&self) -> ResourceClaimView {
        ResourceClaimView {
            name: self.name@,
            request: self.request.deep_view(),
        }
    }
}

impl ResourceClaimView {
    /// Every field empty or absent.
    pub open spec fn blank() -> ResourceClaimView {
        ResourceClaimView {
            name: Seq::empty(),
            request: None,
        }
    }
}

impl Default for ResourceClaim {
    fn default() -> (r: ResourceClaim)
        ensures
            r.deep_view() == ResourceClaimView::blank(),
    {
        ResourceClaim {
            name: String::new(),
            request: None,
        }
    }
}

impl Clone for ResourceClaim {
    fn clone(&self) -> (r: ResourceClaim)
        ensures
            r.deep_view() == self.deep_view(),
    {
        ResourceClaim {
            name: self.name.clone(),
            request: copy_opt(&self.request),
        }
    }
}

/// Copies a list of [`ResourceClaim`].
pub fn copy_resource_claims(v: &Vec<ResourceClaim>) -> (r: Vec<ResourceClaim>)
    ensures
        r.deep_view() == v.deep_view(),
{
    let mut out: Vec<ResourceClaim> = Vec::new();
    let mut i: usize = 0;
    while i < v.len()
        invariant
            i <= v.len(),
            out.len() == i,
            forall|j: int| 0 <= j < i ==> (#[trigger] out@[j]).deep_view() == v@[j].deep_view(),
        decreases v.len() - i,
    {
        out.push(v[i].clone());
        i += 1;
    }
    assert(out.deep_view() =~= v.deep_view());
    out
}

/// The resources that a container asks for and may use, as quantities.
#[derive(Debug, PartialEq)]
pub struct ResourceRequirements {
    pub claims: Option<Vec<ResourceClaim>>,
    pub limits: Option<StringMap>,
    pub requests: Option<StringMap>,
}

/// What [`ResourceRequirements`] holds.
#[verifier::ext_equal]
pub struct ResourceRequirementsView {
    pub claims: Option<Seq<ResourceClaimView>>,
    pub limits: Option<Map<Seq<char>, Seq<char>>>,
    pub requests: Option<Map<Seq<char>, Seq<char>>>,
}

impl DeepView for ResourceRequirements {
    type V = ResourceRequirementsView;

    open spec fn deep_view(&self) -> ResourceRequirementsView {
        ResourceRequirementsView {
            claims: self.claims.deep_view(),
            limits: self.limits.deep_view(),
            requests: self.requests.deep_view(),
        }
    }
}

impl ResourceRequirementsView {
    /// Every field empty or absent.
    pub open spec fn blank() -> ResourceRequirementsView {
        ResourceRequirementsView {
            claims: None,
            limits: None,
            requests: None,
        }
    }
}

impl Default for ResourceRequirements {
    fn default() -> (r: ResourceRequirements)
        ensures
            r.deep_view() == ResourceRequirementsView::blank(),
    {
        ResourceRequirements {
            claims: None,
            limits: None,
            requests: None,
        }
    }
}

impl Clone for ResourceRequirements {
    fn clone(&self) -> (r: ResourceRequirements)
        ensures
            r.deep_view() == self.deep_view(),
    {
        ResourceRequirements {
            claims: match &self.claims {
                Some(x) => Some(copy_resource_claims(x)),
                None => None,
            },
            limits: match &self.limits {
                Some(x) => Some(x.clone()),
                None => None,
            },
            requests: match &self.requests {
                Some(x) => Some(x.clone()),
                None => None,
            },
        }
    }
}

/// A port that a container listens on.
#[derive(Debug, PartialEq)]
pub struct ContainerPort {
    pub name: Option<String>,
    pub container_port: i32,
}

/// What [`ContainerPort`] holds.
#[verifier::ext_equal]
pub struct ContainerPortView {
    pub name: Option<Seq<char>>,
    pub container_port: i32,
}

impl DeepView for ContainerPort {
    type V = ContainerPortView;

    open spec fn deep_view(&self) -> ContainerPortView {
        ContainerPortView {
            name: self.name.deep_view(),
            container_port: self.container_port,
        }
    }
}

impl ContainerPortView {
    /// Every field empty or absent.
    pub open spec fn blank() -> ContainerPortView {
        ContainerPortView {
            name: None,
            container_port: 0,
        }
    }
}

impl Default for ContainerPort {
    fn default() -> (r: ContainerPort)
        ensures
            r.deep_view() == ContainerPortView::blank(),
    {
        ContainerPort {
            name: None,
            container_port: 0,
        }
    }
}

/// A probe by an HTTP request.
#[derive(Debug, PartialEq)]
pub struct HTTPGetAction {
    pub path: Option<String>,
    pub port: IntOrString,
}

/// What [`HTTPGetAction`] holds.
#[verifier::ext_equal]
pub struct HTTPGetActionView {
    pub path: Option<Seq<char>>,
    pub port: IntOrStringView,
}

impl DeepView for HTTPGetAction {
    type V = HTTPGetActionView;

    open spec fn deep_view(&self) -> HTTPGetActionView {
        HTTPGetActionView {
            path: self.path.deep_view(),
            port: self.port.deep_view(),
        }
    }
}

impl HTTPGetActionView {
    /// Every field empty or absent.
    pub open spec fn blank() -> HTTPGetActionView {
        HTTPGetActionView {
            path: None,
            port: IntOrStringView::blank(),
        }
    }
}

impl Default for HTTPGetAction {
    fn default() -> (r: HTTPGetAction)
        ensures
            r.deep_view() == HTTPGetActionView::blank(),
    {
        HTTPGetAction {
            path: None,
            port: IntOrString::default(),
        }
    }
}

/// A probe by a command.
#[derive(Debug, PartialEq)]
pub struct ExecAction {
    pub command: Option<Vec<String>>,
}

/// What [`ExecAction`] holds.
#[verifier::ext_equal]
pub struct ExecActionView {
    pub command: Option<Seq<Seq<char>>>,
}

impl DeepView for ExecAction {
    type V = ExecActionView;

    open spec fn deep_view(&self) -> ExecActionView {
        ExecActionView {
            command: self.command.deep_view(),
        }
    }
}

impl ExecActionView {
    /// Every field empty or absent.
    pub open spec fn blank() -> ExecActionView {
        ExecActionView {
            command: None,
        }
    }
}

impl Default for ExecAction {
    fn default() -> (r: ExecAction)
        ensures
            r.deep_view() == ExecActionView::blank(),
    {
        ExecAction {
            command: None,
        }
    }
}

/// A health check of a container.
#[derive(Debug, PartialEq)]
pub struct Probe {
    pub http_get: Option<HTTPGetAction>,
    pub exec_action: Option<ExecAction>,
    pub initial_delay_seconds: Option<i32>,
    pub period_seconds: Option<i32>,
    pub timeout_seconds: Option<i32>,
    pub failure_threshold: Option<i32>,
}

/// What [`Probe`] holds.
#[verifier::ext_equal]
pub struct ProbeView {
    pub http_get: Option<HTTPGetActionView>,
    pub exec_action: Option<ExecActionView>,
    pub initial_delay_seconds: Option<i32>,
    pub period_seconds: Option<i32>,
    pub timeout_seconds: Option<i32>,
    pub failure_threshold: Option<i32>,
}

impl DeepView for Probe {
    type V = ProbeView;

    open spec fn deep_view(&self) -> ProbeView {
        ProbeView {
            http_get: self.http_get.deep_view(),
            exec_action: self.exec_action.deep_view(),
            initial_delay_seconds: self.initial_delay_seconds,
            period_seconds: self.period_seconds,
            timeout_seconds: self.timeout_seconds,
            failure_threshold: self.failure_threshold,
        }
    }
}

impl ProbeView {
    /// Every field empty or absent.
    pub open spec fn blank() -> ProbeView {
        ProbeView {
            http_get: None,
            exec_action: None,
            initial_delay_seconds: None,
            period_seconds: None,
            timeout_seconds: None,
            failure_threshold: None,
        }
    }
}

impl Default for Probe {
    fn default() -> (r: Probe)
        ensures
            r.deep_view() == ProbeView::blank(),
    {
        Probe {
            http_get: None,
            exec_action: None,
            initial_delay_seconds: None,
            period_seconds: None,
            timeout_seconds: None,
            failure_threshold: None,
        }
    }
}

/// The capabilities that a container gives up.
#[derive(Debug, PartialEq)]
pub struct Capabilities {
    pub drop: Option<Vec<String>>,
}

/// What [`Capabilities`] holds.
#[verifier::ext_equal]
pub struct CapabilitiesView {
    pub drop: Option<Seq<Seq<char>>>,
}

impl DeepView for Capabilities {
    type V = CapabilitiesView;

    open spec fn deep_view(&self) -> CapabilitiesView {
        CapabilitiesView {
            drop: self.drop.deep_view(),
        }
    }
}

impl CapabilitiesView {
    /// Every field empty or absent.
    pub open spec fn blank() -> CapabilitiesView {
        CapabilitiesView {
            drop: None,
        }
    }
}

impl Default for Capabilities {
    fn default() -> (r: Capabilities)
        ensures
            r.deep_view() == CapabilitiesView::blank(),
    {
        Capabilities {
            drop: None,
        }
    }
}

/// The privileges of a container.
#[derive(Debug, PartialEq)]
pub struct SecurityContext {
    pub allow_privilege_escalation: Option<bool>,
    pub read_only_root_filesystem: Option<bool>,
    pub run_as_non_root: Option<bool>,
    pub capabilities: Option<Capabilities>,
}

/// What [`SecurityContext`] holds.
#[verifier::ext_equal]
pub struct SecurityContextView {
    pub allow_privilege_escalation: Option<bool>,
    pub read_only_root_filesystem: Option<bool>,
    pub run_as_non_root: Option<bool>,
    pub capabilities: Option<CapabilitiesView>,
}

impl DeepView for SecurityContext {
    type V = SecurityContextView;

    open spec fn deep_view(&self) -> SecurityContextView {
        SecurityContextView {
            allow_privilege_escalation: self.allow_privilege_escalation,
            read_only_root_filesystem: self.read_only_root_filesystem,
            run_as_non_root: self.run_as_non_root,
            capabilities: self.capabilities.deep_view(),
        }
    }
}

impl SecurityContextView {
    /// Every field empty or absent.
    pub open spec fn blank() -> SecurityContextView {
        SecurityContextView {
            allow_privilege_escalation: None,
            read_only_root_filesystem: None,
            run_as_non_root: None,
            capabilities: None,
        }
    }
}

impl Default for SecurityContext {
    fn default() -> (r: SecurityContext)
        ensures
            r.deep_view() == SecurityContextView::blank(),
    {
        SecurityContext {
            allow_privilege_escalation: None,
            read_only_root_filesystem: None,
            run_as_non_root: None,
            capabilities: None,
        }
    }
}

/// A container of a pod.
#[derive(Debug, PartialEq)]
pub struct Container {
    pub name: String,
    pub image: Option<String>,
    pub image_pull_policy: Option<String>,
    pub command: Option<Vec<String>>,
    pub args: Option<Vec<String>>,
    pub env: Option<Vec<EnvVar>>,
    pub env_from: Option<Vec<EnvSource>>,
    pub ports: Option<Vec<ContainerPort>>,
    pub volume_mounts: Option<Vec<VolumeMount>>,
    pub resources: Option<ResourceRequirements>,
    pub startup_probe: Option<Probe>,
    pub liveness_probe: Option<Probe>,
    pub readiness_probe: Option<Probe>,
    pub security_context: Option<SecurityContext>,
}

/// What [`Container`] holds.
#[verifier::ext_equal]
pub struct ContainerView {
    pub name: Seq<char>,
    pub image: Option<Seq<char>>,
    pub image_pull_policy: Option<Seq<char>>,
    pub command: Option<Seq<Seq<char>>>,
    pub args: Option<Seq<Seq<char>>>,
    pub env: Option<Seq<EnvVarView>>,
    pub env_from: Option<Seq<EnvSource>>,
    pub ports: Option<Seq<ContainerPortView>>,
    pub volume_mounts: Option<Seq<VolumeMountView>>,
    pub resources: Option<ResourceRequirementsView>,
    pub startup_probe: Option<ProbeView>,
    pub liveness_probe: Option<ProbeView>,
    pub readiness_probe: Option<ProbeView>,
    pub security_context: Option<SecurityContextView>,
}

impl DeepView for Container {
    type V = ContainerView;

    open spec fn deep_view(&self) -> ContainerView {
        ContainerView {
            name: self.name@,
            image: self.image.deep_view(),
            image_pull_policy: self.image_pull_policy.deep_view(),
            command: self.command.deep_view(),
            args: self.args.deep_view(),
            env: self.env.deep_view(),
            env_from: match self.env_from {
                Some(v) => Some(v@),
                None => None,
            },
            ports: self.ports.deep_view(),
            volume_mounts: self.volume_mounts.deep_view(),
            resources: self.resources.deep_view(),
            startup_probe: self.startup_probe.deep_view(),
            liveness_probe: self.liveness_probe.deep_view(),
            readiness_probe: self.readiness_probe.deep_view(),
            security_context: self.security_context.deep_view(),
        }
    }
}

impl ContainerView {
    /// Every field empty or absent.
    pub open spec fn blank() -> ContainerView {
        ContainerView {
            name: Seq::empty(),
            image: None,
            image_pull_policy: None,
            command: None,
            args: None,
            env: None,
            env_from: None,
            ports: None,
            volume_mounts: None,
            resources: None,
            startup_probe: None,
            liveness_probe: None,
            readiness_probe: None,
            security_context: None,
        }
    }
}

impl Default for Container {
    fn default() -> (r: Container)
        ensures
            r.deep_view() == ContainerView::blank(),
    {
        Container {
            name: String::new(),
            image: None,
            image_pull_policy: None,
            command: None,
            args: None,
            env: None,
            env_from: None,
            ports: None,
            volume_mounts: None,
            resources: None,
            startup_probe: None,
            liveness_probe: None,
            readiness_probe: None,
            security_context: None,
        }
    }
}

/// An object of the same namespace.
#[derive(Debug, PartialEq)]
pub struct LocalObjectReference {
    pub name: String,
}

/// What [`LocalObjectReference`] holds.
#[verifier::ext_equal]
pub struct LocalObjectReferenceView {
    pub name: Seq<char>,
}

impl DeepView for LocalObjectReference {
    type V = LocalObjectReferenceView;

    open spec fn deep_view(&self) -> LocalObjectReferenceView {
        LocalObjectReferenceView {
            name: self.name@,
        }
    }
}

impl LocalObjectReferenceView {
    /// Every field empty or absent.
    pub open spec fn blank() -> LocalObjectReferenceView {
        LocalObjectReferenceView {
            name: Seq::empty(),
        }
    }
}

impl Default for LocalObjectReference {
    fn default() -> (r: LocalObjectReference)
        ensures
            r.deep_view() == LocalObjectReferenceView::blank(),
    {
        LocalObjectReference {
            name: String::new(),
        }
    }
}

/// The identity that a pod runs as.
#[derive(Debug, PartialEq)]
pub struct PodSecurityContext {
    pub run_as_user: Option<i64>,
    pub run_as_group: Option<i64>,
    pub fs_group: Option<i64>,
}

/// What [`PodSecurityContext`] holds.
#[verifier::ext_equal]
pub struct PodSecurityContextView {
    pub run_as_user: Option<i64>,
    pub run_as_group: Option<i64>,
    pub fs_group: Option<i64>,
}

impl DeepView for PodSecurityContext {
    type V = PodSecurityContextView;

    open spec fn deep_view(&self) -> PodSecurityContextView {
        PodSecurityContextView {
            run_as_user: self.run_as_user,
            run_as_group: self.run_as_group,
            fs_group: self.fs_group,
        }
    }
}

impl PodSecurityContextView {
    /// Every field empty or absent.
    pub open spec fn blank() -> PodSecurityContextView {
        PodSecurityContextView {
            run_as_user: None,
            run_as_group: None,
            fs_group: None,
        }
    }
}

impl Default for PodSecurityContext {
    fn default() -> (r: PodSecurityContext)
        ensures
            r.deep_view() == PodSecurityContextView::blank(),
    {
        PodSecurityContext {
            run_as_user: None,
            run_as_group: None,
            fs_group: None,
        }
    }
}

/// What a pod is to be.
#[derive(Debug, PartialEq)]
pub struct PodSpec {
    pub restart_policy: Option<String>,
    pub image_pull_secrets: Option<Vec<LocalObjectReference>>,
    pub affinity: Option<PodAffinity>,
    pub tolerations: Option<Vec<PodToleration>>,
    pub security_context: Option<PodSecurityContext>,
    pub volumes: Option<Vec<Volume>>,
    pub init_containers: Option<Vec<Container>>,
    pub containers: Vec<Container>,
}

/// What [`PodSpec`] holds.
#[verifier::ext_equal]
pub struct PodSpecView {
    pub restart_policy: Option<Seq<char>>,
    pub image_pull_secrets: Option<Seq<LocalObjectReferenceView>>,
    pub affinity: Option<PodAffinity>,
    pub tolerations: Option<Seq<PodToleration>>,
    pub security_context: Option<PodSecurityContextView>,
    pub volumes: Option<Seq<VolumeView>>,
    pub init_containers: Option<Seq<ContainerView>>,
    pub containers: Seq<ContainerView>,
}

impl DeepView for PodSpec {
    type V = PodSpecView;

    open spec fn deep_view(&self) -> PodSpecView {
        PodSpecView {
            restart_policy: self.restart_policy.deep_view(),
            image_pull_secrets: self.image_pull_secrets.deep_view(),
            affinity: self.affinity,
            tolerations: match self.tolerations {
                Some(v) => Some(v@),
                None => None,
            },
            security_context: self.security_context.deep_view(),
            volumes: self.volumes.deep_view(),
            init_containers: self.init_containers.deep_view(),
            containers: self.containers.deep_view(),
        }
    }
}

impl PodSpecView {
    /// Every field empty or absent.
    pub open spec fn blank() -> PodSpecView {
        PodSpecView {
            restart_policy: None,
            image_pull_secrets: None,
            affinity: None,
            tolerations: None,
            security_context: None,
            volumes: None,
            init_containers: None,
            containers: Seq::empty(),
        }
    }
}

impl Default for PodSpec {
    fn default() -> (r: PodSpec)
        ensures
            r.deep_view() == PodSpecView::blank(),
    {
        PodSpec {
            restart_policy: None,
            image_pull_secrets: None,
            affinity: None,
            tolerations: None,
            security_context: None,
            volumes: None,
            init_containers: None,
            containers: Vec::new(),
        }
    }
}

/// The pods that a workload makes.
#[derive(Debug, PartialEq)]
pub struct PodTemplateSpec {
    pub metadata: Option<ObjectMeta>,
    pub spec: Option<PodSpec>,
}

/// What [`PodTemplateSpec`] holds.
#[verifier::ext_equal]
pub struct PodTemplateSpecView {
    pub metadata: Option<ObjectMetaView>,
    pub spec: Option<PodSpecView>,
}

impl DeepView for PodTemplateSpec {
    type V = PodTemplateSpecView;

    open spec fn deep_view(&self) -> PodTemplateSpecView {
        PodTemplateSpecView {
            metadata: self.metadata.deep_view(),
            spec: self.spec.deep_view(),
        }
    }
}

impl PodTemplateSpecView {
    /// Every field empty or absent.
    pub open spec fn blank() -> PodTemplateSpecView {
        PodTemplateSpecView {
            metadata: None,
            spec: None,
        }
    }
}

impl Default for PodTemplateSpec {
    fn default() -> (r: PodTemplateSpec)
        ensures
            r.deep_view() == PodTemplateSpecView::blank(),
    {
        PodTemplateSpec {
            metadata: None,
            spec: None,
        }
    }
}

/// One condition of a pod.
#[derive(Debug, PartialEq)]
pub struct PodCondition {
    pub type_: String,
    pub status: String,
}

/// What [`PodCondition`] holds.
#[verifier::ext_equal]
pub struct PodConditionView {
    pub type_: Seq<char>,
    pub status: Seq<char>,
}

impl DeepView for PodCondition {
    type V = PodConditionView;

    open spec fn deep_view(&self) -> PodConditionView {
        PodConditionView {
            type_: self.type_@,
            status: self.status@,
        }
    }
}

impl PodConditionView {
    /// Every field empty or absent.
    pub open spec fn blank() -> PodConditionView {
        PodConditionView {
            type_: Seq::empty(),
            status: Seq::empty(),
        }
    }
}

impl Default for PodCondition {
    fn default() -> (r: PodCondition)
        ensures
            r.deep_view() == PodConditionView::blank(),
    {
        PodCondition {
            type_: String::new(),
            status: String::new(),
        }
    }
}

/// What a pod is.
#[derive(Debug, PartialEq)]
pub struct PodStatus {
    pub conditions: Option<Vec<PodCondition>>,
}

/// What [`PodStatus`] holds.
#[verifier::ext_equal]
pub struct PodStatusView {
    pub conditions: Option<Seq<PodConditionView>>,
}

impl DeepView for PodStatus {
    type V = PodStatusView;

    open spec fn deep_view(&self) -> PodStatusView {
        PodStatusView {
            conditions: self.conditions.deep_view(),
        }
    }
}

impl PodStatusView {
    /// Every field empty or absent.
    pub open spec fn blank() -> PodStatusView {
        PodStatusView {
            conditions: None,
        }
    }
}

impl Default for PodStatus {
    fn default() -> (r: PodStatus)
        ensures
            r.deep_view() == PodStatusView::blank(),
    {
        PodStatus {
            conditions: None,
        }
    }
}

/// A pod, as far as its readiness goes.
#[derive(Debug, PartialEq)]
pub struct Pod {
    pub metadata: ObjectMeta,
    pub status: Option<PodStatus>,
}

/// What [`Pod`] holds.
#[verifier::ext_equal]
pub struct PodView {
    pub metadata: ObjectMetaView,
    pub status: Option<PodStatusView>,
}

impl DeepView for Pod {
    type V = PodView;

    open spec fn deep_view(&self) -> PodView {
        PodView {
            metadata: self.metadata.deep_view(),
            status: self.status.deep_view(),
        }
    }
}

impl PodView {
    /// Every field empty or absent.
    pub open spec fn blank() -> PodView {
        PodView {
            metadata: ObjectMetaView::blank(),
            status: None,
        }
    }
}

impl Default for Pod {
    fn default() -> (r: Pod)
        ensures
            r.deep_view() == PodView::blank(),
    {
        Pod {
            metadata: ObjectMeta::default(),
            status: None,
        }
    }
}

} // verus!
