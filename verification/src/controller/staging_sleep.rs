//! Opt-in staging sleep, before the main reconciler makes any PostgreSQL calls.
//!
//! The scaler owns `spec.replicas`. This guard only drains serving Deployments and
//! toggles CNPG's native hibernation annotation; it never deletes database pods.
//!
//! The guard decides; its caller talks to the cluster. [`step`] takes what the
//! cluster answered and says what to ask or do next, until it says
//! [`Command::Finish`].

use vstd::prelude::*;

use crate::controller::child_resources::scaling::{deployment_controlled_by, scale_deployment_if_current, ScalePatch, ScalePatchView};
use crate::controller::helpers::{controller_owner_ref, cron_depl_name, is_empty};
use crate::crd::odoo_instance::{OdooInstance, OdooInstancePhase, OdooInstanceView, StagingSleepMode, WorkloadLayout};
use crate::error::{Error, ErrorView};
use crate::k8s::apps::{Deployment, DeploymentView};
use crate::k8s::cnpg::{ClusterConditionView, CnpgCluster, CnpgClusterView};
use crate::k8s::pods::{Pod, PodView};
use crate::text::{copy_opt, same, same_opt};

pub mod decisions;
pub mod laws;

verus! {

/// The annotation by which the platform holds the database awake.
pub const MAINTENANCE_ANNOTATION: &'static str = "droggol.sh/staging-maintenance";

/// CNPG's hibernation annotation, and the condition that confirms it.
pub const HIBERNATION: &'static str = "cnpg.io/hibernation";

/// After how many seconds a held instance is looked at again.
pub const POLL_SECONDS: u64 = 2;

/// The label with the identity of the server.
pub const SERVER_ID_LABEL: &'static str = "droggol.sh/server-id";

/// The label with the identity of the instance.
pub const INSTANCE_ID_LABEL: &'static str = "droggol.sh/instance-id";

// ── What is asked of an instance ────────────────────────────────────────────
/// Whether a phase is one of normal runtime. Only such an instance sleeps.
pub open spec fn may_sleep_in(phase: Option<OdooInstancePhase>) -> bool {
    phase == Some(OdooInstancePhase::Running) || phase == Some(OdooInstancePhase::Starting)
        || phase == Some(OdooInstancePhase::Degraded) || phase == Some(OdooInstancePhase::Stopped)
}

/// Whether an instance asks to sleep: scaled to zero, not being deleted, not
/// under maintenance, and an initialized instance in normal runtime.
pub open spec fn wants_sleep(instance: OdooInstanceView) -> bool {
    &&& instance.spec.replicas == 0
    &&& instance.metadata.deletion_timestamp is None
    &&& !instance.metadata.annotations_or_empty().contains_key(MAINTENANCE_ANNOTATION@)
    &&& instance.status matches Some(status) && status.db_initialized && may_sleep_in(status.phase)
}

/// Tests whether an instance asks to sleep.
pub fn sleep_requested(instance: &OdooInstance) -> (r: bool)
    ensures
        r == wants_sleep(instance.deep_view()),
{
    let runtime = match &instance.status {
        Some(status) => {
            let phase = match status.phase {
                Some(phase) => phase == OdooInstancePhase::Running || phase
                    == OdooInstancePhase::Starting || phase == OdooInstancePhase::Degraded || phase
                    == OdooInstancePhase::Stopped,
                None => false,
            };
            status.db_initialized && phase
        },
        None => false,
    };
    instance.spec.replicas == 0 && instance.metadata.deletion_timestamp.is_none()
        && instance.metadata.annotation(MAINTENANCE_ANNOTATION).is_none() && runtime
}

/// Why the opt-in of an instance is refused, if it is.
pub open spec fn spec_violation(instance: OdooInstanceView) -> Option<Seq<char>> {
    match instance.spec.staging_sleep {
        None => None,
        Some(sleep) => {
            let cluster = match instance.spec.database {
                Some(database) => database.cluster,
                None => None,
            };
            if instance.metadata.labels_or_empty().get("droggol.sh/instance-kind"@) != Some(
                "staging"@,
            ) || sleep.database_cluster.len() == 0 || cluster != Some(sleep.database_cluster) {
                Some(
                    "stagingSleep requires droggol.sh/instance-kind=staging and the same explicit database.cluster"@,
                )
            } else if sleep.mode == StagingSleepMode::Warm && instance.spec.workload_layout
                != WorkloadLayout::Separate {
                Some("stagingSleep mode warm requires workloadLayout separate"@)
            } else {
                None
            }
        },
    }
}

/// Checks the opt-in of an instance. It takes the platform's staging identity,
/// whatever `spec.environment` says, and the cluster that the instance uses; warm
/// mode takes the separate layout.
///
/// Also checked at runtime: the webhook may not yet have been upgraded.
pub fn validate_spec(instance: &OdooInstance) -> (r: Result<(), Error>)
    ensures
        match spec_violation(instance.deep_view()) {
            None => r is Ok,
            Some(message) => r matches Err(e) && e.deep_view() == ErrorView::Config(message),
        },
{
    let sleep = match &instance.spec.staging_sleep {
        Some(sleep) => sleep,
        None => {
            return Ok(());
        },
    };
    let staging = match instance.metadata.label("droggol.sh/instance-kind") {
        Some(kind) => same(kind.as_str(), "staging"),
        None => false,
    };
    let same_cluster = match &instance.spec.database {
        Some(database) => match &database.cluster {
            Some(cluster) => same(cluster.as_str(), sleep.database_cluster.as_str()),
            None => false,
        },
        None => false,
    };
    if !staging || is_empty(sleep.database_cluster.as_str()) || !same_cluster {
        return Err(
            Error::config(
                "stagingSleep requires droggol.sh/instance-kind=staging and the same explicit database.cluster".to_string(),
            ),
        );
    }
    if sleep.mode == StagingSleepMode::Warm && instance.spec.workload_layout
        != WorkloadLayout::Separate {
        return Err(
            Error::config("stagingSleep mode warm requires workloadLayout separate".to_string()),
        );
    }
    Ok(())
}

// ── What is asked of the cluster ────────────────────────────────────────────
/// Whether both carry the same nonempty identity under a label.
pub open spec fn same_identity(
    instance: OdooInstanceView,
    cluster: CnpgClusterView,
    key: Seq<char>,
) -> bool {
    match instance.metadata.labels_or_empty().get(key) {
        Some(id) => id.len() != 0 && cluster.metadata.labels_or_empty().get(key) == Some(id),
        None => false,
    }
}

/// Why a cluster is refused, if it is.
pub open spec fn cluster_violation(
    instance: OdooInstanceView,
    cluster: CnpgClusterView,
) -> Option<Seq<char>> {
    if cluster.instances != Some(1i64) || cluster.replica_enabled == Some(true) {
        Some("stagingSleep requires a single-primary CNPG cluster"@)
    } else if !same_identity(instance, cluster, SERVER_ID_LABEL@) {
        Some("stagingSleep CNPG identity mismatch: "@ + SERVER_ID_LABEL@)
    } else if !same_identity(instance, cluster, INSTANCE_ID_LABEL@) {
        Some("stagingSleep CNPG identity mismatch: "@ + INSTANCE_ID_LABEL@)
    } else if cluster.metadata.deletion_timestamp is Some {
        Some("stagingSleep CNPG cluster is being deleted"@)
    } else {
        None
    }
}

fn identity_matches(instance: &OdooInstance, cluster: &CnpgCluster, key: &str) -> (r: bool)
    ensures
        r == same_identity(instance.deep_view(), cluster.deep_view(), key@),
{
    match instance.metadata.label(key) {
        Some(id) => !is_empty(id.as_str()) && same_opt(cluster.metadata.label(key), Some(id)),
        None => false,
    }
}

/// Checks the cluster of an instance: a single primary, of the same identity,
/// and not being deleted.
pub fn validate_cluster(instance: &OdooInstance, cluster: &CnpgCluster) -> (r: Result<(), Error>)
    ensures
        match cluster_violation(instance.deep_view(), cluster.deep_view()) {
            None => r is Ok,
            Some(message) => r matches Err(e) && e.deep_view() == ErrorView::Config(message),
        },
{
    let single = match cluster.instances {
        Some(instances) => instances == 1,
        None => false,
    };
    let replica = match cluster.replica_enabled {
        Some(enabled) => enabled,
        None => false,
    };
    if !single || replica {
        return Err(
            Error::config("stagingSleep requires a single-primary CNPG cluster".to_string()),
        );
    }
    if !identity_matches(instance, cluster, SERVER_ID_LABEL) {
        return Err(
            Error::config(
                "stagingSleep CNPG identity mismatch: ".to_string().concat(SERVER_ID_LABEL),
            ),
        );
    }
    if !identity_matches(instance, cluster, INSTANCE_ID_LABEL) {
        return Err(
            Error::config(
                "stagingSleep CNPG identity mismatch: ".to_string().concat(INSTANCE_ID_LABEL),
            ),
        );
    }
    if cluster.metadata.deletion_timestamp.is_some() {
        return Err(Error::config("stagingSleep CNPG cluster is being deleted".to_string()));
    }
    Ok(())
}

/// Whether a status condition is of a type and `True`.
pub open spec fn condition_holds(condition: ClusterConditionView, kind: Seq<char>) -> bool {
    condition.type_ == Some(kind) && condition.status == Some("True"@)
}

/// Whether some status condition of a cluster is of a type and `True`.
pub open spec fn has_condition(cluster: CnpgClusterView, kind: Seq<char>) -> bool {
    cluster.conditions matches Some(conditions) && exists|i: int|
        0 <= i < conditions.len() && condition_holds(#[trigger] conditions[i], kind)
}

fn is_text(found: &Option<String>, text: &str) -> (r: bool)
    ensures
        r == (found.deep_view() == Some(text@)),
{
    match found {
        Some(found) => same(found.as_str(), text),
        None => false,
    }
}

fn find_condition(cluster: &CnpgCluster, kind: &str) -> (r: bool)
    ensures
        r == has_condition(cluster.deep_view(), kind@),
{
    let conditions = match &cluster.conditions {
        Some(conditions) => conditions,
        None => {
            return false;
        },
    };
    let ghost seen = cluster.deep_view().conditions->0;
    assert(seen =~= conditions.deep_view());
    let mut i: usize = 0;
    while i < conditions.len()
        invariant
            i <= conditions.len(),
            seen == conditions.deep_view(),
            cluster.deep_view().conditions == Some(seen),
            forall|j: int| 0 <= j < i ==> !condition_holds(#[trigger] seen[j], kind@),
        decreases conditions.len() - i,
    {
        assert(seen[i as int] == conditions@[i as int].deep_view());
        if is_text(&conditions[i].type_, kind) && is_text(&conditions[i].status, "True") {
            proof {
                let found = cluster.deep_view().conditions->0;
                assert(0 <= i < found.len() && condition_holds(found[i as int], kind@));
            }
            return true;
        }
        i += 1;
    }
    false
}

/// Whether CNPG reports its one instance ready, and not hibernated.
pub open spec fn is_cnpg_ready(cluster: CnpgClusterView) -> bool {
    &&& cluster.ready_instances == Some(1i64)
    &&& has_condition(cluster, "Ready"@)
    &&& !has_condition(cluster, HIBERNATION@)
}

/// Tests whether CNPG reports its one instance ready, and not hibernated.
pub fn cnpg_ready(cluster: &CnpgCluster) -> (r: bool)
    ensures
        r == is_cnpg_ready(cluster.deep_view()),
{
    let ready = match cluster.ready_instances {
        Some(instances) => instances == 1,
        None => false,
    };
    ready && find_condition(cluster, "Ready") && !find_condition(cluster, HIBERNATION)
}

/// Whether a cluster is asked to hibernate.
pub open spec fn is_hibernating(cluster: CnpgClusterView) -> bool {
    cluster.metadata.annotations_or_empty().get(HIBERNATION@) == Some("on"@)
}

fn hibernating(cluster: &CnpgCluster) -> (r: bool)
    ensures
        r == is_hibernating(cluster.deep_view()),
{
    match cluster.metadata.annotation(HIBERNATION) {
        Some(value) => same(value.as_str(), "on"),
        None => false,
    }
}

/// Whether a pod is the live, ready pod of a cluster.
pub open spec fn is_ready_primary(cluster: CnpgClusterView, pod: PodView) -> bool {
    &&& pod.metadata.deletion_timestamp is None
    &&& pod.metadata.owner_references matches Some(owners) && exists|i: int|
        0 <= i < owners.len() && (#[trigger] owners[i]).uid == cluster.metadata.uid_or_empty()
            && owners[i].controller == Some(true)
    &&& pod.status matches Some(status) && status.conditions matches Some(conditions) && exists|
        i: int,
    |
        0 <= i < conditions.len() && (#[trigger] conditions[i]).type_ == "Ready"@
            && conditions[i].status == "True"@
}

fn owned_by_cluster(cluster: &CnpgCluster, pod: &Pod) -> (r: bool)
    ensures
        r == (pod.deep_view().metadata.owner_references matches Some(owners) && exists|i: int|
            0 <= i < owners.len() && (#[trigger] owners[i]).uid
                == cluster.deep_view().metadata.uid_or_empty() && owners[i].controller == Some(
                true,
            )),
{
    let owners = match &pod.metadata.owner_references {
        Some(owners) => owners,
        None => {
            return false;
        },
    };
    let uid = cluster.metadata.uid_or_empty();
    let ghost seen = pod.deep_view().metadata.owner_references->0;
    assert(seen =~= owners.deep_view());
    let mut i: usize = 0;
    while i < owners.len()
        invariant
            i <= owners.len(),
            seen == owners.deep_view(),
            pod.deep_view().metadata.owner_references == Some(seen),
            uid@ == cluster.deep_view().metadata.uid_or_empty(),
            forall|j: int|
                0 <= j < i ==> !((#[trigger] seen[j]).uid == uid@ && seen[j].controller == Some(
                    true,
                )),
        decreases owners.len() - i,
    {
        assert(seen[i as int] == owners@[i as int].deep_view());
        let controller = match owners[i].controller {
            Some(controller) => controller,
            None => false,
        };
        if controller && same(owners[i].uid.as_str(), uid.as_str()) {
            assert(seen[i as int].uid == uid@ && seen[i as int].controller == Some(true));
            return true;
        }
        i += 1;
    }
    false
}

fn reports_ready(pod: &Pod) -> (r: bool)
    ensures
        r == (pod.deep_view().status matches Some(status) && status.conditions matches Some(
            conditions,
        ) && exists|i: int|
            0 <= i < conditions.len() && (#[trigger] conditions[i]).type_ == "Ready"@
                && conditions[i].status == "True"@),
{
    let status = match &pod.status {
        Some(status) => status,
        None => {
            return false;
        },
    };
    let conditions = match &status.conditions {
        Some(conditions) => conditions,
        None => {
            return false;
        },
    };
    let ghost seen = pod.deep_view().status->0.conditions->0;
    assert(seen =~= conditions.deep_view());
    let mut i: usize = 0;
    while i < conditions.len()
        invariant
            i <= conditions.len(),
            seen == conditions.deep_view(),
            pod.deep_view().status matches Some(status) && status.conditions == Some(seen),
            forall|j: int|
                0 <= j < i ==> !((#[trigger] seen[j]).type_ == "Ready"@ && seen[j].status
                    == "True"@),
        decreases conditions.len() - i,
    {
        assert(seen[i as int] == conditions@[i as int].deep_view());
        if same(conditions[i].type_.as_str(), "Ready") && same(
            conditions[i].status.as_str(),
            "True",
        ) {
            proof {
                let found = pod.deep_view().status->0.conditions->0;
                assert(0 <= i < found.len() && found[i as int].type_ == "Ready"@
                    && found[i as int].status == "True"@);
            }
            return true;
        }
        i += 1;
    }
    false
}

/// Tests whether a pod is the live, ready pod of a cluster.
pub fn ready_primary(cluster: &CnpgCluster, pod: &Pod) -> (r: bool)
    ensures
        r == is_ready_primary(cluster.deep_view(), pod.deep_view()),
{
    pod.metadata.deletion_timestamp.is_none() && owned_by_cluster(cluster, pod) && reports_ready(
        pod,
    )
}

// ── The fence ───────────────────────────────────────────────────────────────
/// Whether an instance that was read again still says what the guard acts on: the
/// generation fences the spec, the labels fence the identity, and the maintenance
/// annotation fences the platform's attempts.
pub open spec fn is_current(original: OdooInstanceView, fresh: OdooInstanceView) -> bool {
    &&& fresh.metadata.uid == original.metadata.uid
    &&& fresh.metadata.generation == original.metadata.generation
    &&& fresh.metadata.labels_or_empty() == original.metadata.labels_or_empty()
    &&& fresh.metadata.annotations_or_empty().get(MAINTENANCE_ANNOTATION@)
        == original.metadata.annotations_or_empty().get(MAINTENANCE_ANNOTATION@)
    &&& wants_sleep(fresh) == wants_sleep(original)
    &&& fresh.metadata.deletion_timestamp == original.metadata.deletion_timestamp
}

/// Tests an instance that was read again across awaited work.
pub fn current(original: &OdooInstance, fresh: &OdooInstance) -> (r: bool)
    ensures
        r == is_current(original.deep_view(), fresh.deep_view()),
{
    let generation = match (fresh.metadata.generation, original.metadata.generation) {
        (Some(a), Some(b)) => a == b,
        (None, None) => true,
        _ => false,
    };
    same_opt(fresh.metadata.uid.as_ref(), original.metadata.uid.as_ref()) && generation
        && fresh.metadata.same_labels(&original.metadata) && same_opt(
        fresh.metadata.annotation(MAINTENANCE_ANNOTATION),
        original.metadata.annotation(MAINTENANCE_ANNOTATION),
    ) && sleep_requested(fresh) == sleep_requested(original) && same_opt(
        fresh.metadata.deletion_timestamp.as_ref(),
        original.metadata.deletion_timestamp.as_ref(),
    )
}

// ── What the guard writes ────────────────────────────────────────────────────
/// A merge patch of the hibernation annotation of a cluster, to `on` or `off`, bound
/// to the cluster that was read.
#[derive(Debug, PartialEq)]
pub struct HibernationPatch {
    pub name: String,
    pub uid: String,
    pub resource_version: String,
    pub on: bool,
}

/// What [`HibernationPatch`] holds.
#[verifier::ext_equal]
pub struct HibernationPatchView {
    pub name: Seq<char>,
    pub uid: Seq<char>,
    pub resource_version: Seq<char>,
    pub on: bool,
}

impl DeepView for HibernationPatch {
    type V = HibernationPatchView;

    open spec fn deep_view(&self) -> HibernationPatchView {
        HibernationPatchView {
            name: self.name@,
            uid: self.uid@,
            resource_version: self.resource_version@,
            on: self.on,
        }
    }
}

/// The patch that sets the hibernation annotation of a cluster as it was read, or
/// what the cluster lacks for that.
pub open spec fn hibernation_patch(cluster: CnpgClusterView, on: bool) -> Result<
    HibernationPatchView,
    ErrorView,
> {
    match cluster.metadata.uid {
        None => Err(ErrorView::Config("CNPG cluster has no UID"@)),
        Some(uid) => match cluster.metadata.resource_version {
            None => Err(ErrorView::Config("CNPG cluster has no resourceVersion"@)),
            Some(resource_version) => Ok(
                HibernationPatchView {
                    name: cluster.metadata.name_any(),
                    uid,
                    resource_version,
                    on,
                },
            ),
        },
    }
}

/// The merge patch that sets the hibernation annotation of a cluster as it was
/// read. It carries the identity and the version that were read, so that the
/// server refuses it once the cluster has been replaced or changed.
pub fn set_hibernation(cluster: &CnpgCluster, on: bool) -> (r: Result<HibernationPatch, Error>)
    ensures
        crate::error::result_view(r) == hibernation_patch(cluster.deep_view(), on),
{
    let uid = match &cluster.metadata.uid {
        Some(uid) => uid.clone(),
        None => {
            return Err(Error::config("CNPG cluster has no UID".to_string()));
        },
    };
    let resource_version = match &cluster.metadata.resource_version {
        Some(resource_version) => resource_version.clone(),
        None => {
            return Err(Error::config("CNPG cluster has no resourceVersion".to_string()));
        },
    };
    Ok(HibernationPatch { name: cluster.metadata.name_any(), uid, resource_version, on })
}

/// A merge patch of the status of an instance, bound to the instance that was read.
/// The conditions follow from the phase and the generation.
#[derive(Debug, PartialEq)]
pub struct StatusPatch {
    pub uid: Option<String>,
    pub resource_version: Option<String>,
    pub phase: OdooInstancePhase,
    pub ready: bool,
    pub ready_replicas: i32,
    pub target_replicas: i32,
    pub observed_generation: i64,
}

/// What [`StatusPatch`] holds.
#[verifier::ext_equal]
pub struct StatusPatchView {
    pub uid: Option<Seq<char>>,
    pub resource_version: Option<Seq<char>>,
    pub phase: OdooInstancePhase,
    pub ready: bool,
    pub ready_replicas: i32,
    pub target_replicas: i32,
    pub observed_generation: i64,
}

impl DeepView for StatusPatch {
    type V = StatusPatchView;

    open spec fn deep_view(&self) -> StatusPatchView {
        StatusPatchView {
            uid: self.uid.deep_view(),
            resource_version: self.resource_version.deep_view(),
            phase: self.phase,
            ready: self.ready,
            ready_replicas: self.ready_replicas,
            target_replicas: self.target_replicas,
            observed_generation: self.observed_generation,
        }
    }
}

/// The status of a sleeping instance, where it is not that already.
pub open spec fn stopped_status(fresh: OdooInstanceView) -> Option<StatusPatchView> {
    match fresh.status {
        Some(status) => if status.phase != Some(OdooInstancePhase::Stopped) || status.ready
            || status.ready_replicas != 0 {
            Some(
                StatusPatchView {
                    uid: fresh.metadata.uid,
                    resource_version: fresh.metadata.resource_version,
                    phase: OdooInstancePhase::Stopped,
                    ready: false,
                    ready_replicas: 0,
                    target_replicas: 0,
                    observed_generation: fresh.metadata.generation.unwrap_or(0),
                },
            )
        } else {
            None
        },
        None => None,
    }
}

fn make_stopped_status(fresh: &OdooInstance) -> (r: Option<StatusPatch>)
    ensures
        r.deep_view() == stopped_status(fresh.deep_view()),
{
    let status = match &fresh.status {
        Some(status) => status,
        None => {
            return None;
        },
    };
    let stopped = match status.phase {
        Some(phase) => phase == OdooInstancePhase::Stopped,
        None => false,
    };
    if stopped && !status.ready && status.ready_replicas == 0 {
        return None;
    }
    Some(
        StatusPatch {
            uid: copy_opt(&fresh.metadata.uid),
            resource_version: copy_opt(&fresh.metadata.resource_version),
            phase: OdooInstancePhase::Stopped,
            ready: false,
            ready_replicas: 0,
            target_replicas: 0,
            observed_generation: match fresh.metadata.generation {
                Some(generation) => generation,
                None => 0,
            },
        },
    )
}

// ── Draining ────────────────────────────────────────────────────────────────
/// The native work that was found for an instance. A job counts unless it is
/// absent: a pending one wakes a stopped instance too.
#[derive(Clone, Copy, Debug, Default, PartialEq, Eq, Structural)]
pub struct PendingWork {
    pub init_job: bool,
    pub restore_job: bool,
    pub upgrade_job: bool,
    pub backup_job: bool,
    pub refresh_job: bool,
    /// The filestore waits for a migration.
    pub storage_class_mismatch: bool,
    /// The database waits for a migration.
    pub cluster_mismatch: bool,
}

/// Whether no native work needs the database.
pub open spec fn is_idle(work: PendingWork) -> bool {
    !work.init_job && !work.restore_job && !work.upgrade_job && !work.backup_job
        && !work.refresh_job && !work.storage_class_mismatch && !work.cluster_mismatch
}

fn idle(work: &PendingWork) -> (r: bool)
    ensures
        r == is_idle(*work),
{
    !work.init_job && !work.restore_job && !work.upgrade_job && !work.backup_job
        && !work.refresh_job && !work.storage_class_mismatch && !work.cluster_mismatch
}

/// Whether a Deployment asks for no pods.
pub open spec fn asks_for_none(deployment: DeploymentView) -> bool {
    deployment.spec matches Some(spec) && spec.replicas == Some(0i32)
}

/// Whether the Deployment controller has seen that a Deployment is to have no
/// pods, and it has none. Until then an empty pod list may predate the scaling.
pub open spec fn observed_none(deployment: DeploymentView) -> bool {
    &&& deployment.status matches Some(status) && {
        &&& status.observed_generation matches Some(observed) && observed
            >= deployment.metadata.generation.unwrap_or(i64::MAX)
        &&& status.replicas.unwrap_or(0) == 0
        &&& status.ready_replicas.unwrap_or(0) == 0
    }
}

fn scaled_to_none(deployment: &Deployment) -> (r: bool)
    ensures
        r == asks_for_none(deployment.deep_view()),
{
    match &deployment.spec {
        Some(spec) => match spec.replicas {
            Some(replicas) => replicas == 0,
            None => false,
        },
        None => false,
    }
}

fn observed_zero(deployment: &Deployment) -> (r: bool)
    ensures
        r == observed_none(deployment.deep_view()),
{
    let status = match &deployment.status {
        Some(status) => status,
        None => {
            return false;
        },
    };
    let generation: i64 = match deployment.metadata.generation {
        Some(generation) => generation,
        None => i64::MAX,
    };
    let observed = match status.observed_generation {
        Some(observed) => observed >= generation,
        None => false,
    };
    let replicas: i32 = match status.replicas {
        Some(replicas) => replicas,
        None => 0,
    };
    let ready: i32 = match status.ready_replicas {
        Some(ready) => ready,
        None => 0,
    };
    observed && replicas == 0 && ready == 0
}

/// Whether what was found of a serving Deployment cannot have a live client of
/// the database: it is not there, or it is the instance's own, asks for no pods,
/// and its controller has seen that.
pub open spec fn is_drained(instance: OdooInstanceView, found: Option<DeploymentView>) -> bool {
    match found {
        None => true,
        Some(deployment) => {
            &&& crate::controller::child_resources::scaling::controlled_by(
                deployment,
                owner_of(instance),
            )
            &&& asks_for_none(deployment)
            &&& observed_none(deployment)
        },
    }
}

/// The owner reference of the instance's Deployments.
pub open spec fn owner_of(instance: OdooInstanceView) -> crate::k8s::meta::OwnerReferenceView {
    crate::controller::helpers::owner_reference(
        "bemade.org/v1alpha1"@,
        "OdooInstance"@,
        instance.metadata,
    )
}

/// The name of a serving Deployment of an instance.
pub open spec fn serving_name(instance: OdooInstanceView, cron: bool) -> Seq<char> {
    if cron {
        instance.name() + "-cron"@
    } else {
        instance.name()
    }
}

fn serving_deployment(instance: &OdooInstance, cron: bool) -> (r: String)
    ensures
        r@ == serving_name(instance.deep_view(), cron),
{
    if cron {
        cron_depl_name(instance)
    } else {
        instance.name_any()
    }
}

/// The selector of every serving pod of an instance, terminating ones among
/// them. It is broad: a foreign pod that it finds blocks sleep.
pub open spec fn serving_selector(instance: OdooInstanceView) -> Seq<char> {
    "app in ("@ + instance.name() + ","@ + (instance.name() + "-cron"@) + ")"@
}

fn serving_pods(instance: &OdooInstance) -> (r: String)
    ensures
        r@ == serving_selector(instance.deep_view()),
{
    "app in (".to_string().concat(instance.name_any().as_str()).concat(",").concat(
        cron_depl_name(instance).as_str(),
    ).concat(")")
}

// ── The guard ────────────────────────────────────────────────────────────────
/// How the guard ends.
#[derive(Debug, PartialEq, Eq)]
pub enum Outcome {
    /// Normal runtime may go on.
    Proceed,
    /// Hold the instance, and look again after [`POLL_SECONDS`].
    Requeue,
    /// Hold the instance until something changes.
    AwaitChange,
    /// Hold the instance: something is wrong.
    Fail(Error),
}

/// What [`Outcome`] holds.
pub enum OutcomeView {
    Proceed,
    Requeue,
    AwaitChange,
    Fail(ErrorView),
}

impl DeepView for Outcome {
    type V = OutcomeView;

    open spec fn deep_view(&self) -> OutcomeView {
        match self {
            Outcome::Proceed => OutcomeView::Proceed,
            Outcome::Requeue => OutcomeView::Requeue,
            Outcome::AwaitChange => OutcomeView::AwaitChange,
            Outcome::Fail(e) => OutcomeView::Fail(e.deep_view()),
        }
    }
}

/// What the guard asks of its caller. A call that fails ends the guard with that
/// failure.
#[derive(Debug)]
pub enum Command {
    /// Read this CNPG cluster.
    GetCluster(String),
    /// Read the instance again.
    ReadInstance,
    /// Look for native work that needs this cluster.
    GatherWork(String),
    /// Read this pod, if it is there.
    GetPod(String),
    /// Read this Deployment, if it is there.
    GetDeployment(String),
    /// Scale a Deployment.
    Scale(ScalePatch),
    /// Count the pods that this selector finds.
    CountPods(String),
    /// Set the hibernation annotation of the cluster.
    Hibernate(HibernationPatch),
    /// Patch the status of the instance.
    PatchStatus(StatusPatch),
    /// Stop here.
    Finish(Outcome),
}

/// What [`Command`] holds.
pub enum CommandView {
    GetCluster(Seq<char>),
    ReadInstance,
    GatherWork(Seq<char>),
    GetPod(Seq<char>),
    GetDeployment(Seq<char>),
    Scale(ScalePatchView),
    CountPods(Seq<char>),
    Hibernate(HibernationPatchView),
    PatchStatus(StatusPatchView),
    Finish(OutcomeView),
}

impl DeepView for Command {
    type V = CommandView;

    open spec fn deep_view(&self) -> CommandView {
        match self {
            Command::GetCluster(name) => CommandView::GetCluster(name@),
            Command::ReadInstance => CommandView::ReadInstance,
            Command::GatherWork(cluster) => CommandView::GatherWork(cluster@),
            Command::GetPod(name) => CommandView::GetPod(name@),
            Command::GetDeployment(name) => CommandView::GetDeployment(name@),
            Command::Scale(patch) => CommandView::Scale(patch.deep_view()),
            Command::CountPods(selector) => CommandView::CountPods(selector@),
            Command::Hibernate(patch) => CommandView::Hibernate(patch.deep_view()),
            Command::PatchStatus(patch) => CommandView::PatchStatus(patch.deep_view()),
            Command::Finish(outcome) => CommandView::Finish(outcome.deep_view()),
        }
    }
}

/// What the caller hands back.
#[derive(Debug)]
pub enum Event {
    /// The guard begins.
    Start,
    /// The cluster that was read.
    Cluster(CnpgCluster),
    /// The instance that was read again.
    Instance(OdooInstance),
    /// The native work that was found.
    Work(PendingWork),
    /// The pod that was read.
    Pod(Option<Pod>),
    /// The Deployment that was read.
    Deployment(Option<Deployment>),
    /// The Deployment was scaled.
    Scaled,
    /// The number of pods that were found.
    PodCount(usize),
    /// The cluster, as the patch returned it.
    ClusterPatched(CnpgCluster),
    /// The status was patched.
    StatusPatched,
}

/// What [`Event`] holds.
pub enum EventView {
    Start,
    Cluster(CnpgClusterView),
    Instance(OdooInstanceView),
    Work(PendingWork),
    Pod(Option<PodView>),
    Deployment(Option<DeploymentView>),
    Scaled,
    PodCount(usize),
    ClusterPatched(CnpgClusterView),
    StatusPatched,
}

impl DeepView for Event {
    type V = EventView;

    open spec fn deep_view(&self) -> EventView {
        match self {
            Event::Start => EventView::Start,
            Event::Cluster(cluster) => EventView::Cluster(cluster.deep_view()),
            Event::Instance(instance) => EventView::Instance(instance.deep_view()),
            Event::Work(work) => EventView::Work(*work),
            Event::Pod(pod) => EventView::Pod(pod.deep_view()),
            Event::Deployment(deployment) => EventView::Deployment(deployment.deep_view()),
            Event::Scaled => EventView::Scaled,
            Event::PodCount(n) => EventView::PodCount(*n),
            Event::ClusterPatched(cluster) => EventView::ClusterPatched(cluster.deep_view()),
            Event::StatusPatched => EventView::StatusPatched,
        }
    }
}

/// What the guard waits for.
#[derive(Debug)]
pub enum GuardState {
    /// To begin.
    Start,
    /// The cluster.
    Cluster,
    /// The first fence, behind the validation of the cluster.
    Fence(CnpgCluster),
    /// The native work.
    Work(CnpgCluster),
    /// The fence before a wake patch.
    WakeFence(CnpgCluster),
    /// A wake patch. Readiness from before it is not trusted.
    Woken,
    /// The primary pod.
    Primary(CnpgCluster),
    /// The fence before normal runtime.
    ReadyFence,
    /// A serving Deployment: the cron one or the web one. `draining` says that an
    /// earlier one has not drained yet.
    Serving { cluster: CnpgCluster, cron: bool, draining: bool },
    /// The fence before scaling a serving Deployment.
    ScaleFence { cluster: CnpgCluster, cron: bool, deployment: Deployment },
    /// The scaling of a serving Deployment.
    Scaled { cluster: CnpgCluster, cron: bool },
    /// The serving pods.
    Pods(CnpgCluster),
    /// The fence before hibernation.
    SleepFence(CnpgCluster),
    /// The hibernation patch, and the status to patch after it.
    Hibernated(Option<StatusPatch>),
    /// The fence after hibernation, and the status to patch after it.
    HibernatedFence { cluster: CnpgCluster, status: Option<StatusPatch> },
    /// The status patch.
    Status(CnpgCluster),
    /// Nothing more.
    Done,
}

/// What [`GuardState`] holds.
pub enum GuardStateView {
    Start,
    Cluster,
    Fence(CnpgClusterView),
    Work(CnpgClusterView),
    WakeFence(CnpgClusterView),
    Woken,
    Primary(CnpgClusterView),
    ReadyFence,
    Serving { cluster: CnpgClusterView, cron: bool, draining: bool },
    ScaleFence { cluster: CnpgClusterView, cron: bool, deployment: DeploymentView },
    Scaled { cluster: CnpgClusterView, cron: bool },
    Pods(CnpgClusterView),
    SleepFence(CnpgClusterView),
    Hibernated(Option<StatusPatchView>),
    HibernatedFence { cluster: CnpgClusterView, status: Option<StatusPatchView> },
    Status(CnpgClusterView),
    Done,
}

impl DeepView for GuardState {
    type V = GuardStateView;

    open spec fn deep_view(&self) -> GuardStateView {
        match self {
            GuardState::Start => GuardStateView::Start,
            GuardState::Cluster => GuardStateView::Cluster,
            GuardState::Fence(cluster) => GuardStateView::Fence(cluster.deep_view()),
            GuardState::Work(cluster) => GuardStateView::Work(cluster.deep_view()),
            GuardState::WakeFence(cluster) => GuardStateView::WakeFence(cluster.deep_view()),
            GuardState::Woken => GuardStateView::Woken,
            GuardState::Primary(cluster) => GuardStateView::Primary(cluster.deep_view()),
            GuardState::ReadyFence => GuardStateView::ReadyFence,
            GuardState::Serving { cluster, cron, draining } => GuardStateView::Serving {
                cluster: cluster.deep_view(),
                cron: *cron,
                draining: *draining,
            },
            GuardState::ScaleFence { cluster, cron, deployment } => GuardStateView::ScaleFence {
                cluster: cluster.deep_view(),
                cron: *cron,
                deployment: deployment.deep_view(),
            },
            GuardState::Scaled { cluster, cron } => GuardStateView::Scaled {
                cluster: cluster.deep_view(),
                cron: *cron,
            },
            GuardState::Pods(cluster) => GuardStateView::Pods(cluster.deep_view()),
            GuardState::SleepFence(cluster) => GuardStateView::SleepFence(cluster.deep_view()),
            GuardState::Hibernated(status) => GuardStateView::Hibernated(status.deep_view()),
            GuardState::HibernatedFence { cluster, status } => GuardStateView::HibernatedFence {
                cluster: cluster.deep_view(),
                status: status.deep_view(),
            },
            GuardState::Status(cluster) => GuardStateView::Status(cluster.deep_view()),
            GuardState::Done => GuardStateView::Done,
        }
    }
}

/// The guard ends here.
pub open spec fn finish(outcome: OutcomeView) -> (GuardStateView, CommandView) {
    (GuardStateView::Done, CommandView::Finish(outcome))
}

/// The guard ends here, with a configuration error.
pub open spec fn refuse(message: Seq<char>) -> (GuardStateView, CommandView) {
    finish(OutcomeView::Fail(ErrorView::Config(message)))
}

/// The wake path: undo hibernation, else wait for a ready cluster and its ready
/// primary. CNPG's conditions can lag, so the pod itself is looked at.
pub open spec fn wake(cluster: CnpgClusterView) -> (GuardStateView, CommandView) {
    if is_hibernating(cluster) {
        (GuardStateView::WakeFence(cluster), CommandView::ReadInstance)
    } else if !is_cnpg_ready(cluster) {
        finish(OutcomeView::Requeue)
    } else {
        match cluster.current_primary {
            Some(primary) => (GuardStateView::Primary(cluster), CommandView::GetPod(primary)),
            None => finish(OutcomeView::Requeue),
        }
    }
}

/// The next serving Deployment, or the pods once both are drained. The cron one
/// is looked at in either layout: one may be left from another layout.
pub open spec fn drain_next(
    instance: OdooInstanceView,
    cluster: CnpgClusterView,
    cron: bool,
    draining: bool,
) -> (GuardStateView, CommandView) {
    if !cron {
        (
            GuardStateView::Serving { cluster, cron: true, draining },
            CommandView::GetDeployment(serving_name(instance, true)),
        )
    } else if draining {
        finish(OutcomeView::Requeue)
    } else {
        (GuardStateView::Pods(cluster), CommandView::CountPods(serving_selector(instance)))
    }
}

/// What follows the look at a serving Deployment.
pub open spec fn drain(
    instance: OdooInstanceView,
    cluster: CnpgClusterView,
    cron: bool,
    draining: bool,
    found: Option<DeploymentView>,
) -> (GuardStateView, CommandView) {
    match found {
        None => drain_next(instance, cluster, cron, draining),
        Some(deployment) => if !crate::controller::child_resources::scaling::controlled_by(
            deployment,
            owner_of(instance),
        ) {
            refuse(
                "refusing to sleep foreign Deployment "@
                    + crate::controller::child_resources::scaling::qualified(
                    instance.metadata.namespace_or_empty(),
                    serving_name(instance, cron),
                ),
            )
        } else if !asks_for_none(deployment) {
            (
                GuardStateView::ScaleFence { cluster, cron, deployment },
                CommandView::ReadInstance,
            )
        } else {
            drain_next(instance, cluster, cron, draining || !observed_none(deployment))
        },
    }
}

/// A hibernation patch, and the state behind it.
pub open spec fn hibernate(
    cluster: CnpgClusterView,
    on: bool,
    behind: GuardStateView,
) -> (GuardStateView, CommandView) {
    match hibernation_patch(cluster, on) {
        Ok(patch) => (behind, CommandView::Hibernate(patch)),
        Err(e) => finish(OutcomeView::Fail(e)),
    }
}

/// The end of the sleep path: polled only until CNPG confirms hibernation.
pub open spec fn asleep(cluster: CnpgClusterView) -> (GuardStateView, CommandView) {
    if has_condition(cluster, HIBERNATION@) {
        finish(OutcomeView::AwaitChange)
    } else {
        finish(OutcomeView::Requeue)
    }
}

/// What the guard does with an answer to a fence: it holds where the instance has
/// changed.
pub open spec fn fenced(
    instance: OdooInstanceView,
    fresh: OdooInstanceView,
    go_on: (GuardStateView, CommandView),
) -> (GuardStateView, CommandView) {
    if is_current(instance, fresh) {
        go_on
    } else {
        finish(OutcomeView::Requeue)
    }
}

/// One step of the guard.
pub open spec fn next(
    instance: OdooInstanceView,
    state: GuardStateView,
    event: EventView,
) -> (GuardStateView, CommandView) {
    match (state, event) {
        (GuardStateView::Start, EventView::Start) => match instance.spec.staging_sleep {
            None => finish(OutcomeView::Proceed),
            Some(sleep) => match spec_violation(instance) {
                Some(message) => refuse(message),
                None => (GuardStateView::Cluster, CommandView::GetCluster(sleep.database_cluster)),
            },
        },
        (GuardStateView::Cluster, EventView::Cluster(cluster)) => match cluster_violation(
            instance,
            cluster,
        ) {
            Some(message) => refuse(message),
            None => (GuardStateView::Fence(cluster), CommandView::ReadInstance),
        },
        (GuardStateView::Fence(cluster), EventView::Instance(fresh)) => fenced(
            instance,
            fresh,
            if !wants_sleep(instance) {
                wake(cluster)
            } else {
                match instance.spec.staging_sleep {
                    Some(sleep) => (
                        GuardStateView::Work(cluster),
                        CommandView::GatherWork(sleep.database_cluster),
                    ),
                    None => finish(OutcomeView::Proceed),
                }
            },
        ),
        (GuardStateView::Work(cluster), EventView::Work(work)) => if is_idle(work) {
            (
                GuardStateView::Serving { cluster, cron: false, draining: false },
                CommandView::GetDeployment(serving_name(instance, false)),
            )
        } else {
            wake(cluster)
        },
        (GuardStateView::WakeFence(cluster), EventView::Instance(fresh)) => fenced(
            instance,
            fresh,
            hibernate(cluster, false, GuardStateView::Woken),
        ),
        (GuardStateView::Woken, EventView::ClusterPatched(_)) => finish(OutcomeView::Requeue),
        (GuardStateView::Primary(cluster), EventView::Pod(pod)) => if pod matches Some(pod)
            && is_ready_primary(cluster, pod) {
            (GuardStateView::ReadyFence, CommandView::ReadInstance)
        } else {
            finish(OutcomeView::Requeue)
        },
        (GuardStateView::ReadyFence, EventView::Instance(fresh)) => fenced(
            instance,
            fresh,
            finish(OutcomeView::Proceed),
        ),
        (
            GuardStateView::Serving { cluster, cron, draining },
            EventView::Deployment(found),
        ) => drain(instance, cluster, cron, draining, found),
        (
            GuardStateView::ScaleFence { cluster, cron, deployment },
            EventView::Instance(fresh),
        ) => fenced(
            instance,
            fresh,
            match crate::controller::child_resources::scaling::scale_patch_of(
                instance.metadata.namespace_or_empty(),
                deployment,
                0,
            ) {
                Ok(patch) => (GuardStateView::Scaled { cluster, cron }, CommandView::Scale(patch)),
                Err(e) => finish(OutcomeView::Fail(e)),
            },
        ),
        (GuardStateView::Scaled { cluster, cron }, EventView::Scaled) => drain_next(
            instance,
            cluster,
            cron,
            true,
        ),
        (GuardStateView::Pods(cluster), EventView::PodCount(n)) => if n != 0 {
            finish(OutcomeView::Requeue)
        } else {
            (GuardStateView::SleepFence(cluster), CommandView::ReadInstance)
        },
        (GuardStateView::SleepFence(cluster), EventView::Instance(fresh)) => fenced(
            instance,
            fresh,
            if is_hibernating(cluster) {
                (
                    GuardStateView::HibernatedFence { cluster, status: stopped_status(fresh) },
                    CommandView::ReadInstance,
                )
            } else {
                hibernate(cluster, true, GuardStateView::Hibernated(stopped_status(fresh)))
            },
        ),
        (GuardStateView::Hibernated(status), EventView::ClusterPatched(cluster)) => (
            GuardStateView::HibernatedFence { cluster, status },
            CommandView::ReadInstance,
        ),
        (
            GuardStateView::HibernatedFence { cluster, status },
            EventView::Instance(fresh),
        ) => if !is_current(instance, fresh) {
            hibernate(cluster, false, GuardStateView::Woken)
        } else {
            match status {
                Some(patch) => (GuardStateView::Status(cluster), CommandView::PatchStatus(patch)),
                None => asleep(cluster),
            }
        },
        (GuardStateView::Status(cluster), EventView::StatusPatched) => asleep(cluster),
        _ => refuse("stagingSleep got an answer that it did not ask for"@),
    }
}

fn finished(outcome: Outcome) -> (r: (GuardState, Command))
    ensures
        (r.0.deep_view(), r.1.deep_view()) == finish(outcome.deep_view()),
{
    (GuardState::Done, Command::Finish(outcome))
}

fn wake_up(cluster: CnpgCluster) -> (r: (GuardState, Command))
    ensures
        (r.0.deep_view(), r.1.deep_view()) == wake(cluster.deep_view()),
{
    if hibernating(&cluster) {
        return (GuardState::WakeFence(cluster), Command::ReadInstance);
    }
    if !cnpg_ready(&cluster) {
        return finished(Outcome::Requeue);
    }
    match copy_opt(&cluster.current_primary) {
        Some(primary) => (GuardState::Primary(cluster), Command::GetPod(primary)),
        None => finished(Outcome::Requeue),
    }
}

fn go_on_draining(
    instance: &OdooInstance,
    cluster: CnpgCluster,
    cron: bool,
    draining: bool,
) -> (r: (GuardState, Command))
    ensures
        (r.0.deep_view(), r.1.deep_view()) == drain_next(
            instance.deep_view(),
            cluster.deep_view(),
            cron,
            draining,
        ),
{
    if !cron {
        (
            GuardState::Serving { cluster, cron: true, draining },
            Command::GetDeployment(serving_deployment(instance, true)),
        )
    } else if draining {
        finished(Outcome::Requeue)
    } else {
        (GuardState::Pods(cluster), Command::CountPods(serving_pods(instance)))
    }
}

fn look_at_serving(
    instance: &OdooInstance,
    cluster: CnpgCluster,
    cron: bool,
    draining: bool,
    found: Option<Deployment>,
) -> (r: (GuardState, Command))
    ensures
        (r.0.deep_view(), r.1.deep_view()) == drain(
            instance.deep_view(),
            cluster.deep_view(),
            cron,
            draining,
            found.deep_view(),
        ),
{
    let deployment = match found {
        Some(deployment) => deployment,
        None => {
            return go_on_draining(instance, cluster, cron, draining);
        },
    };
    let owner = controller_owner_ref(instance);
    if !deployment_controlled_by(&deployment, &owner) {
        let place = instance.metadata.namespace_or_empty().concat("/").concat(
            serving_deployment(instance, cron).as_str(),
        );
        let message = "refusing to sleep foreign Deployment ".to_string().concat(place.as_str());
        return finished(Outcome::Fail(Error::config(message)));
    }
    if !scaled_to_none(&deployment) {
        return (GuardState::ScaleFence { cluster, cron, deployment }, Command::ReadInstance);
    }
    let unseen = !observed_zero(&deployment);
    go_on_draining(instance, cluster, cron, draining || unseen)
}

fn toggle_hibernation(cluster: &CnpgCluster, on: bool, behind: GuardState) -> (r: (
    GuardState,
    Command,
))
    ensures
        (r.0.deep_view(), r.1.deep_view()) == hibernate(
            cluster.deep_view(),
            on,
            behind.deep_view(),
        ),
{
    match set_hibernation(cluster, on) {
        Ok(patch) => (behind, Command::Hibernate(patch)),
        Err(e) => finished(Outcome::Fail(e)),
    }
}

fn end_asleep(cluster: &CnpgCluster) -> (r: (GuardState, Command))
    ensures
        (r.0.deep_view(), r.1.deep_view()) == asleep(cluster.deep_view()),
{
    if find_condition(cluster, HIBERNATION) {
        finished(Outcome::AwaitChange)
    } else {
        finished(Outcome::Requeue)
    }
}

/// One step of the guard: takes what the cluster answered and says what to do
/// next. Begins with [`GuardState::Start`] and [`Event::Start`].
///
/// `Finish(Proceed)` permits normal runtime; any other end holds the instance at
/// this guard. Instances without the opt-in proceed at once.
pub fn step(instance: &OdooInstance, state: GuardState, event: Event) -> (r: (GuardState, Command))
    ensures
        (r.0.deep_view(), r.1.deep_view()) == next(
            instance.deep_view(),
            state.deep_view(),
            event.deep_view(),
        ),
{
    match (state, event) {
        (GuardState::Start, Event::Start) => {
            let sleep = match &instance.spec.staging_sleep {
                Some(sleep) => sleep,
                None => {
                    return finished(Outcome::Proceed);
                },
            };
            match validate_spec(instance) {
                Ok(()) => (
                    GuardState::Cluster,
                    Command::GetCluster(sleep.database_cluster.clone()),
                ),
                Err(e) => finished(Outcome::Fail(e)),
            }
        },
        (GuardState::Cluster, Event::Cluster(cluster)) => match validate_cluster(
            instance,
            &cluster,
        ) {
            Ok(()) => (GuardState::Fence(cluster), Command::ReadInstance),
            Err(e) => finished(Outcome::Fail(e)),
        },
        (GuardState::Fence(cluster), Event::Instance(fresh)) => {
            if !current(instance, &fresh) {
                return finished(Outcome::Requeue);
            }
            if !sleep_requested(instance) {
                return wake_up(cluster);
            }
            match &instance.spec.staging_sleep {
                Some(sleep) => (
                    GuardState::Work(cluster),
                    Command::GatherWork(sleep.database_cluster.clone()),
                ),
                None => finished(Outcome::Proceed),
            }
        },
        (GuardState::Work(cluster), Event::Work(work)) => if idle(&work) {
            (
                GuardState::Serving { cluster, cron: false, draining: false },
                Command::GetDeployment(serving_deployment(instance, false)),
            )
        } else {
            wake_up(cluster)
        },
        (GuardState::WakeFence(cluster), Event::Instance(fresh)) => if current(instance, &fresh) {
            toggle_hibernation(&cluster, false, GuardState::Woken)
        } else {
            finished(Outcome::Requeue)
        },
        (GuardState::Woken, Event::ClusterPatched(_)) => finished(Outcome::Requeue),
        (GuardState::Primary(cluster), Event::Pod(pod)) => {
            let ready = match &pod {
                Some(pod) => ready_primary(&cluster, pod),
                None => false,
            };
            if ready {
                (GuardState::ReadyFence, Command::ReadInstance)
            } else {
                finished(Outcome::Requeue)
            }
        },
        (GuardState::ReadyFence, Event::Instance(fresh)) => if current(instance, &fresh) {
            finished(Outcome::Proceed)
        } else {
            finished(Outcome::Requeue)
        },
        (
            GuardState::Serving { cluster, cron, draining },
            Event::Deployment(found),
        ) => look_at_serving(instance, cluster, cron, draining, found),
        (
            GuardState::ScaleFence { cluster, cron, deployment },
            Event::Instance(fresh),
        ) => {
            if !current(instance, &fresh) {
                return finished(Outcome::Requeue);
            }
            let ns = instance.metadata.namespace_or_empty();
            match scale_deployment_if_current(ns.as_str(), &deployment, 0) {
                Ok(patch) => (GuardState::Scaled { cluster, cron }, Command::Scale(patch)),
                Err(e) => finished(Outcome::Fail(e)),
            }
        },
        (GuardState::Scaled { cluster, cron }, Event::Scaled) => go_on_draining(
            instance,
            cluster,
            cron,
            true,
        ),
        (GuardState::Pods(cluster), Event::PodCount(n)) => if n != 0 {
            finished(Outcome::Requeue)
        } else {
            (GuardState::SleepFence(cluster), Command::ReadInstance)
        },
        (GuardState::SleepFence(cluster), Event::Instance(fresh)) => {
            if !current(instance, &fresh) {
                return finished(Outcome::Requeue);
            }
            let status = make_stopped_status(&fresh);
            if hibernating(&cluster) {
                (GuardState::HibernatedFence { cluster, status }, Command::ReadInstance)
            } else {
                toggle_hibernation(&cluster, true, GuardState::Hibernated(status))
            }
        },
        (GuardState::Hibernated(status), Event::ClusterPatched(cluster)) => (
            GuardState::HibernatedFence { cluster, status },
            Command::ReadInstance,
        ),
        (
            GuardState::HibernatedFence { cluster, status },
            Event::Instance(fresh),
        ) => {
            if !current(instance, &fresh) {
                return toggle_hibernation(&cluster, false, GuardState::Woken);
            }
            match status {
                Some(patch) => (GuardState::Status(cluster), Command::PatchStatus(patch)),
                None => end_asleep(&cluster),
            }
        },
        (GuardState::Status(cluster), Event::StatusPatched) => end_asleep(&cluster),
        _ => finished(
            Outcome::Fail(
                Error::config("stagingSleep got an answer that it did not ask for".to_string()),
            ),
        ),
    }
}

} // verus!
