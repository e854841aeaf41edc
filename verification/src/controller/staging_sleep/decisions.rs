//! What the staging sleep guard decides, answer by answer, read off what the answer
//! says.

use vstd::prelude::*;

use crate::controller::child_resources::scaling::ScalePatchView;
use crate::controller::staging_sleep::laws;
use crate::controller::staging_sleep::{Command, CommandView, Event, EventView, GuardState, GuardStateView, HibernationPatchView, OutcomeView, PendingWork, StatusPatchView};
use crate::crd::odoo_instance::{OdooInstance, OdooInstancePhase, OdooInstanceView, StagingSleepMode, WorkloadLayout};
use crate::error::ErrorView;
use crate::k8s::apps::DeploymentView;
use crate::k8s::cnpg::{CnpgCluster, CnpgClusterView};
use crate::k8s::pods::PodView;

verus! {

// ── What is asked of the instance and its cluster ───────────────────────────
/// An opted-in instance gets as far as reading its cluster exactly where it carries
/// the platform's staging label, names the cluster that its own database uses, and
/// does not ask for warm mode in the combined layout. Otherwise the guard ends with
/// an error that says which of these is wrong.
pub proof fn opting_in_takes_staging_and_its_own_cluster(instance: OdooInstanceView)
    requires
        instance.spec.staging_sleep is Some,
    ensures
        ({
            let sleep = instance.spec.staging_sleep->0;
            let begun = super::next(instance, GuardStateView::Start, EventView::Start);
            let staging = instance.metadata.labels matches Some(labels) && labels.contains_key(
                "droggol.sh/instance-kind"@,
            ) && labels["droggol.sh/instance-kind"@] == "staging"@;
            let own_cluster = sleep.database_cluster.len() != 0 && (
            instance.spec.database matches Some(database) && database.cluster == Some(
                sleep.database_cluster,
            ));
            let warm_and_combined = sleep.mode == StagingSleepMode::Warm
                && instance.spec.workload_layout == WorkloadLayout::Combined;
            &&& staging && own_cluster && !warm_and_combined ==> begun == (
                GuardStateView::Cluster,
                CommandView::GetCluster(sleep.database_cluster),
            )
            &&& !(staging && own_cluster) ==> begun == (
                GuardStateView::Done,
                CommandView::Finish(
                    OutcomeView::Fail(
                        ErrorView::Config(
                            "stagingSleep requires droggol.sh/instance-kind=staging and the same explicit database.cluster"@,
                        ),
                    ),
                ),
            )
            &&& staging && own_cluster && warm_and_combined ==> begun == (
                GuardStateView::Done,
                CommandView::Finish(
                    OutcomeView::Fail(
                        ErrorView::Config(
                            "stagingSleep mode warm requires workloadLayout separate"@,
                        ),
                    ),
                ),
            )
        }),
{
}

/// A cluster is accepted exactly where it has one instance, is no replica, carries
/// the instance's server and instance identities, both nonempty, and is not being
/// deleted. Otherwise the guard ends with an error.
pub proof fn clusters_are_accepted_by_identity(instance: OdooInstanceView, cluster: CnpgClusterView)
    ensures
        ({
            let read = super::next(instance, GuardStateView::Cluster, EventView::Cluster(cluster));
            let single = cluster.instances == Some(1i64) && cluster.replica_enabled != Some(true);
            let server = instance.metadata.labels matches Some(ours) && ours.contains_key(
                "droggol.sh/server-id"@,
            ) && ours["droggol.sh/server-id"@].len() != 0 && (
            cluster.metadata.labels matches Some(theirs) && theirs.contains_key(
                "droggol.sh/server-id"@,
            ) && theirs["droggol.sh/server-id"@] == ours["droggol.sh/server-id"@]);
            let own = instance.metadata.labels matches Some(ours) && ours.contains_key(
                "droggol.sh/instance-id"@,
            ) && ours["droggol.sh/instance-id"@].len() != 0 && (
            cluster.metadata.labels matches Some(theirs) && theirs.contains_key(
                "droggol.sh/instance-id"@,
            ) && theirs["droggol.sh/instance-id"@] == ours["droggol.sh/instance-id"@]);
            let live = cluster.metadata.deletion_timestamp is None;
            &&& single && server && own && live ==> read == (
                GuardStateView::Fence(cluster),
                CommandView::ReadInstance,
            )
            &&& !single ==> read.1 == CommandView::Finish(
                OutcomeView::Fail(
                    ErrorView::Config("stagingSleep requires a single-primary CNPG cluster"@),
                ),
            )
            &&& single && !server ==> read.1 == CommandView::Finish(
                OutcomeView::Fail(
                    ErrorView::Config(
                        "stagingSleep CNPG identity mismatch: "@ + "droggol.sh/server-id"@,
                    ),
                ),
            )
            &&& single && server && !own ==> read.1 == CommandView::Finish(
                OutcomeView::Fail(
                    ErrorView::Config(
                        "stagingSleep CNPG identity mismatch: "@ + "droggol.sh/instance-id"@,
                    ),
                ),
            )
            &&& single && server && own && !live ==> read.1 == CommandView::Finish(
                OutcomeView::Fail(ErrorView::Config("stagingSleep CNPG cluster is being deleted"@)),
            )
        }),
{
}

// ── Fences ──────────────────────────────────────────────────────────────────
/// The last fence lets normal runtime go on exactly where the instance still has
/// the identity, the generation, the labels, the maintenance annotation and the
/// deletion mark that it had, and still asks to sleep or still does not. Any other
/// answer holds the instance.
pub proof fn fences_look_for_any_change(instance: OdooInstanceView, fresh: OdooInstanceView)
    ensures
        ({
            let same = fresh.metadata.uid == instance.metadata.uid && fresh.metadata.generation
                == instance.metadata.generation && fresh.metadata.deletion_timestamp
                == instance.metadata.deletion_timestamp && fresh.metadata.labels_or_empty()
                == instance.metadata.labels_or_empty()
                && fresh.metadata.annotations_or_empty().get("droggol.sh/staging-maintenance"@)
                == instance.metadata.annotations_or_empty().get("droggol.sh/staging-maintenance"@);
            let asked = instance.spec.replicas == 0 && instance.metadata.deletion_timestamp is None
                && !instance.metadata.annotations_or_empty().contains_key(
                "droggol.sh/staging-maintenance"@,
            ) && (instance.status matches Some(status) && status.db_initialized && (status.phase
                == Some(OdooInstancePhase::Running) || status.phase == Some(
                OdooInstancePhase::Starting,
            ) || status.phase == Some(OdooInstancePhase::Degraded) || status.phase == Some(
                OdooInstancePhase::Stopped,
            )));
            let asks = fresh.spec.replicas == 0 && fresh.metadata.deletion_timestamp is None
                && !fresh.metadata.annotations_or_empty().contains_key(
                "droggol.sh/staging-maintenance"@,
            ) && (fresh.status matches Some(status) && status.db_initialized && (status.phase
                == Some(OdooInstancePhase::Running) || status.phase == Some(
                OdooInstancePhase::Starting,
            ) || status.phase == Some(OdooInstancePhase::Degraded) || status.phase == Some(
                OdooInstancePhase::Stopped,
            )));
            super::next(instance, GuardStateView::ReadyFence, EventView::Instance(fresh)) == (
                GuardStateView::Done,
                CommandView::Finish(
                    if same && asked == asks {
                        OutcomeView::Proceed
                    } else {
                        OutcomeView::Requeue
                    },
                ),
            )
        }),
{
}

/// Every fence before a decision holds the instance on the very changes on which
/// the last fence does.
pub proof fn every_fence_holds_on_a_change(
    instance: OdooInstanceView,
    fresh: OdooInstanceView,
    cluster: CnpgClusterView,
    cron: bool,
    deployment: DeploymentView,
)
    requires
        super::next(instance, GuardStateView::ReadyFence, EventView::Instance(fresh)).1
            != CommandView::Finish(OutcomeView::Proceed),
    ensures
        super::next(instance, GuardStateView::Fence(cluster), EventView::Instance(fresh)).1
            == CommandView::Finish(OutcomeView::Requeue),
        super::next(instance, GuardStateView::WakeFence(cluster), EventView::Instance(fresh)).1
            == CommandView::Finish(OutcomeView::Requeue),
        super::next(
            instance,
            GuardStateView::ScaleFence { cluster, cron, deployment },
            EventView::Instance(fresh),
        ).1 == CommandView::Finish(OutcomeView::Requeue),
        super::next(instance, GuardStateView::SleepFence(cluster), EventView::Instance(fresh)).1
            == CommandView::Finish(OutcomeView::Requeue),
{
}

/// Behind the first fence the guard looks for native work exactly where the
/// instance is scaled to zero, initialized, in one of the four phases of normal
/// runtime, not under maintenance and not being deleted. Otherwise it wakes the
/// database, as it does for any native work.
pub proof fn only_idle_runtime_may_sleep(
    instance: OdooInstanceView,
    fresh: OdooInstanceView,
    cluster: CnpgClusterView,
    work: PendingWork,
)
    requires
        instance.spec.staging_sleep is Some,
        super::next(instance, GuardStateView::ReadyFence, EventView::Instance(fresh)).1
            == CommandView::Finish(OutcomeView::Proceed),
        work.init_job || work.restore_job || work.upgrade_job || work.backup_job
            || work.refresh_job || work.storage_class_mismatch || work.cluster_mismatch,
    ensures
        ({
            let step = super::next(
                instance,
                GuardStateView::Fence(cluster),
                EventView::Instance(fresh),
            );
            let may_sleep = instance.spec.replicas == 0 && instance.metadata.deletion_timestamp
                is None && !instance.metadata.annotations_or_empty().contains_key(
                "droggol.sh/staging-maintenance"@,
            ) && (instance.status matches Some(status) && status.db_initialized && (status.phase
                == Some(OdooInstancePhase::Running) || status.phase == Some(
                OdooInstancePhase::Starting,
            ) || status.phase == Some(OdooInstancePhase::Degraded) || status.phase == Some(
                OdooInstancePhase::Stopped,
            )));
            &&& may_sleep ==> step == (
                GuardStateView::Work(cluster),
                CommandView::GatherWork(instance.spec.staging_sleep->0.database_cluster),
            )
            &&& !may_sleep ==> step == super::next(
                instance,
                GuardStateView::Work(cluster),
                EventView::Work(work),
            )
        }),
{
}

// ── Waking ──────────────────────────────────────────────────────────────────
/// Any native work wakes the database: a job of any of the five kinds, a storage
/// class that differs, or a cluster that differs. A cluster that is asked to
/// hibernate is to be woken; one that is not is waited for until it reports its one
/// instance ready and no hibernation, and its primary pod is looked at then.
pub proof fn pending_work_wakes_the_database(
    instance: OdooInstanceView,
    cluster: CnpgClusterView,
    work: PendingWork,
)
    requires
        work.init_job || work.restore_job || work.upgrade_job || work.backup_job
            || work.refresh_job || work.storage_class_mismatch || work.cluster_mismatch,
    ensures
        ({
            let step = super::next(
                instance,
                GuardStateView::Work(cluster),
                EventView::Work(work),
            );
            let hibernating = cluster.metadata.annotations matches Some(annotations)
                && annotations.contains_key("cnpg.io/hibernation"@)
                && annotations["cnpg.io/hibernation"@] == "on"@;
            let ready = cluster.ready_instances == Some(1i64) && (
            cluster.conditions matches Some(conditions) && (exists|i: int|
                0 <= i < conditions.len() && (#[trigger] conditions[i]).type_ == Some("Ready"@)
                    && conditions[i].status == Some("True"@)) && !(exists|i: int|
                0 <= i < conditions.len() && (#[trigger] conditions[i]).type_ == Some(
                    "cnpg.io/hibernation"@,
                ) && conditions[i].status == Some("True"@)));
            &&& hibernating ==> step == (
                GuardStateView::WakeFence(cluster),
                CommandView::ReadInstance,
            )
            &&& !hibernating && ready && cluster.current_primary is Some ==> step == (
                GuardStateView::Primary(cluster),
                CommandView::GetPod(cluster.current_primary->0),
            )
            &&& !hibernating && !(ready && cluster.current_primary is Some) ==> step == (
                GuardStateView::Done,
                CommandView::Finish(OutcomeView::Requeue),
            )
        }),
{
}

/// Without any of the seven kinds of native work the guard goes on to the web
/// Deployment of the instance.
pub proof fn idle_instances_are_drained(
    instance: OdooInstanceView,
    cluster: CnpgClusterView,
    work: PendingWork,
)
    requires
        !work.init_job,
        !work.restore_job,
        !work.upgrade_job,
        !work.backup_job,
        !work.refresh_job,
        !work.storage_class_mismatch,
        !work.cluster_mismatch,
    ensures
        super::next(instance, GuardStateView::Work(cluster), EventView::Work(work)) == (
            GuardStateView::Serving { cluster, cron: false, draining: false },
            CommandView::GetDeployment(instance.metadata.name_any()),
        ),
{
}

/// A wake patch behind an unchanged fence turns hibernation off on the cluster that
/// was read, and on no other: it carries its identity and its version.
pub proof fn wake_patches_name_the_cluster_that_was_read(
    instance: OdooInstanceView,
    fresh: OdooInstanceView,
    cluster: CnpgClusterView,
)
    requires
        super::next(instance, GuardStateView::ReadyFence, EventView::Instance(fresh)).1
            == CommandView::Finish(OutcomeView::Proceed),
    ensures
        ({
            let step = super::next(
                instance,
                GuardStateView::WakeFence(cluster),
                EventView::Instance(fresh),
            );
            &&& cluster.metadata.uid is Some && cluster.metadata.resource_version is Some
                ==> step == (
                GuardStateView::Woken,
                CommandView::Hibernate(
                    HibernationPatchView {
                        name: cluster.metadata.name_any(),
                        uid: cluster.metadata.uid->0,
                        resource_version: cluster.metadata.resource_version->0,
                        on: false,
                    },
                ),
            )
            &&& cluster.metadata.uid is None ==> step.1 == CommandView::Finish(
                OutcomeView::Fail(ErrorView::Config("CNPG cluster has no UID"@)),
            )
            &&& cluster.metadata.uid is Some && cluster.metadata.resource_version is None
                ==> step.1 == CommandView::Finish(
                OutcomeView::Fail(ErrorView::Config("CNPG cluster has no resourceVersion"@)),
            )
        }),
{
}

/// The guard goes on to the last fence exactly where the primary pod is there, is
/// not being deleted, is controlled by the cluster and reports itself ready.
pub proof fn primaries_are_live_owned_and_ready(
    instance: OdooInstanceView,
    cluster: CnpgClusterView,
    pod: Option<PodView>,
)
    ensures
        ({
            let live = pod matches Some(pod) && pod.metadata.deletion_timestamp is None;
            let owned = pod matches Some(pod) && (
            pod.metadata.owner_references matches Some(owners) && exists|i: int|
                0 <= i < owners.len() && (#[trigger] owners[i]).uid
                    == cluster.metadata.uid_or_empty() && owners[i].controller == Some(true));
            let ready = pod matches Some(pod) && (pod.status matches Some(status) && (
            status.conditions matches Some(conditions) && exists|i: int|
                0 <= i < conditions.len() && (#[trigger] conditions[i]).type_ == "Ready"@
                    && conditions[i].status == "True"@));
            super::next(instance, GuardStateView::Primary(cluster), EventView::Pod(pod)) == if live
                && owned && ready {
                (GuardStateView::ReadyFence, CommandView::ReadInstance)
            } else {
                (GuardStateView::Done, CommandView::Finish(OutcomeView::Requeue))
            }
        }),
{
}

/// Whether a state is one of the wake path, or the end.
spec fn on_the_wake_path(state: GuardStateView) -> bool {
    state is WakeFence || state is Woken || state is Primary || state is ReadyFence || state
        is Done
}

/// A run that was told of native work stays on the wake path.
proof fn work_leads_to_the_wake_path(
    instance: OdooInstanceView,
    events: Seq<EventView>,
    k: int,
    work: PendingWork,
)
    requires
        0 <= k < events.len(),
        events[k] == EventView::Work(work),
        work.init_job || work.restore_job || work.upgrade_job || work.backup_job
            || work.refresh_job || work.storage_class_mismatch || work.cluster_mismatch,
    ensures
        on_the_wake_path(laws::state_after(instance, events)),
    decreases events.len(),
{
    if k < events.len() - 1 {
        work_leads_to_the_wake_path(instance, events.drop_last(), k, work);
    }
}

/// A run that was told of native work, of any of the seven kinds, never scales
/// anything from then on, never puts the database to sleep and never marks the
/// instance stopped.
pub proof fn pending_work_is_never_put_to_sleep(
    instance: OdooInstanceView,
    events: Seq<EventView>,
    k: int,
    work: PendingWork,
)
    requires
        0 <= k < events.len(),
        events[k] == EventView::Work(work),
        work.init_job || work.restore_job || work.upgrade_job || work.backup_job
            || work.refresh_job || work.storage_class_mismatch || work.cluster_mismatch,
    ensures
        !(laws::command_after(instance, events) is Scale),
        !(laws::command_after(instance, events) is PatchStatus),
        laws::command_after(instance, events) matches CommandView::Hibernate(patch) ==> !patch.on,
{
    if k < events.len() - 1 {
        work_leads_to_the_wake_path(instance, events.drop_last(), k, work);
    }
}

/// The database is put to sleep only by a run that was never told of native work.
pub proof fn hibernating_runs_saw_no_work(instance: OdooInstanceView, events: Seq<EventView>)
    requires
        events.len() > 0,
        (laws::command_after(instance, events) matches CommandView::Hibernate(patch) && patch.on)
            || laws::command_after(instance, events) is PatchStatus,
    ensures
        forall|k: int|
            0 <= k < events.len() ==> (#[trigger] events[k] matches EventView::Work(work)
                ==> !work.init_job && !work.restore_job && !work.upgrade_job && !work.backup_job
                && !work.refresh_job && !work.storage_class_mismatch && !work.cluster_mismatch),
{
    assert forall|k: int| 0 <= k < events.len() implies (
    #[trigger] events[k] matches EventView::Work(work) ==> !work.init_job && !work.restore_job
        && !work.upgrade_job && !work.backup_job && !work.refresh_job
        && !work.storage_class_mismatch && !work.cluster_mismatch) by {
        if let EventView::Work(work) = events[k] {
            if work.init_job || work.restore_job || work.upgrade_job || work.backup_job
                || work.refresh_job || work.storage_class_mismatch || work.cluster_mismatch {
                pending_work_is_never_put_to_sleep(instance, events, k, work);
            }
        }
    }
}

/// Demand, deletion, maintenance, an instance that is not initialized, and any phase
/// but the four of normal runtime: the guard then never scales anything, never puts
/// the database to sleep and never marks the instance stopped.
pub proof fn only_runtime_phases_sleep(instance: OdooInstanceView, events: Seq<EventView>)
    requires
        events.len() > 0,
        laws::command_after(instance, events) is Scale || laws::command_after(instance, events)
            is PatchStatus || (laws::command_after(instance, events) matches CommandView::Hibernate(
            patch,
        ) && patch.on),
    ensures
        instance.spec.replicas == 0,
        instance.metadata.deletion_timestamp is None,
        !instance.metadata.annotations_or_empty().contains_key("droggol.sh/staging-maintenance"@),
        instance.status matches Some(status) && status.db_initialized && (status.phase == Some(
            OdooInstancePhase::Running,
        ) || status.phase == Some(OdooInstancePhase::Starting) || status.phase == Some(
            OdooInstancePhase::Degraded,
        ) || status.phase == Some(OdooInstancePhase::Stopped)),
{
    if !super::wants_sleep(instance) {
        laws::demand_is_never_put_to_sleep(instance, events);
    }
}

// ── Draining ────────────────────────────────────────────────────────────────
/// A serving Deployment that is not there is passed over: the cron one follows the
/// web one, and the pods of both follow once neither is still draining.
pub proof fn absent_deployments_are_passed_over(
    instance: OdooInstanceView,
    cluster: CnpgClusterView,
    draining: bool,
)
    ensures
        super::next(
            instance,
            GuardStateView::Serving { cluster, cron: false, draining },
            EventView::Deployment(None),
        ) == (
            GuardStateView::Serving { cluster, cron: true, draining },
            CommandView::GetDeployment(instance.metadata.name_any() + "-cron"@),
        ),
        super::next(
            instance,
            GuardStateView::Serving { cluster, cron: true, draining: true },
            EventView::Deployment(None),
        ).1 == CommandView::Finish(OutcomeView::Requeue),
        super::next(
            instance,
            GuardStateView::Serving { cluster, cron: true, draining: false },
            EventView::Deployment(None),
        ) == (
            GuardStateView::Pods(cluster),
            CommandView::CountPods(
                "app in ("@ + instance.metadata.name_any() + ","@ + (instance.metadata.name_any()
                    + "-cron"@) + ")"@,
            ),
        ),
{
}

/// A serving Deployment that is there ends the guard where the instance is not its
/// managing controller, is to be scaled where it asks for anything but zero pods,
/// and is passed over otherwise; it counts as draining until its controller has
/// observed this generation and counts neither pods nor ready pods.
pub proof fn serving_deployments_are_drained(
    instance: OdooInstanceView,
    cluster: CnpgClusterView,
    cron: bool,
    draining: bool,
    deployment: DeploymentView,
)
    ensures
        ({
            let step = super::next(
                instance,
                GuardStateView::Serving { cluster, cron, draining },
                EventView::Deployment(Some(deployment)),
            );
            let own = deployment.metadata.owner_references matches Some(owners) && exists|i: int|
                0 <= i < owners.len() && (#[trigger] owners[i]).controller == Some(true)
                    && owners[i].api_version == "bemade.org/v1alpha1"@ && owners[i].kind
                    == "OdooInstance"@ && owners[i].name == instance.metadata.name_any()
                    && owners[i].uid == instance.metadata.uid_or_empty();
            let zero = deployment.spec matches Some(spec) && spec.replicas == Some(0i32);
            let settled = deployment.status matches Some(status) && (
            status.observed_generation matches Some(observed) && (match deployment.metadata.generation {
                Some(generation) => observed >= generation,
                None => observed == i64::MAX,
            })) && (status.replicas is None || status.replicas == Some(0i32)) && (
            status.ready_replicas is None || status.ready_replicas == Some(0i32));
            &&& !own ==> step.1 == CommandView::Finish(
                OutcomeView::Fail(
                    ErrorView::Config(
                        "refusing to sleep foreign Deployment "@ + (
                        instance.metadata.namespace_or_empty() + "/"@ + (if cron {
                            instance.metadata.name_any() + "-cron"@
                        } else {
                            instance.metadata.name_any()
                        })),
                    ),
                ),
            )
            &&& own && !zero ==> step == (
                GuardStateView::ScaleFence { cluster, cron, deployment },
                CommandView::ReadInstance,
            )
            &&& own && zero ==> step == super::next(
                instance,
                GuardStateView::Serving { cluster, cron, draining: draining || !settled },
                EventView::Deployment(None),
            )
        }),
{
}

/// A serving Deployment is scaled to zero, bound to the name, the identity and the
/// version that were read. One that lacks any of these ends the guard. Behind the
/// scaling the guard goes on as behind one that is still draining.
pub proof fn scaling_names_the_deployment_that_was_read(
    instance: OdooInstanceView,
    fresh: OdooInstanceView,
    cluster: CnpgClusterView,
    cron: bool,
    deployment: DeploymentView,
)
    requires
        super::next(instance, GuardStateView::ReadyFence, EventView::Instance(fresh)).1
            == CommandView::Finish(OutcomeView::Proceed),
    ensures
        ({
            let step = super::next(
                instance,
                GuardStateView::ScaleFence { cluster, cron, deployment },
                EventView::Instance(fresh),
            );
            &&& deployment.metadata.name is Some && deployment.metadata.uid is Some
                && deployment.metadata.resource_version is Some ==> step == (
                GuardStateView::Scaled { cluster, cron },
                CommandView::Scale(
                    ScalePatchView {
                        name: deployment.metadata.name->0,
                        uid: deployment.metadata.uid->0,
                        resource_version: deployment.metadata.resource_version->0,
                        replicas: 0,
                    },
                ),
            )
            &&& deployment.metadata.name is None || deployment.metadata.uid is None
                || deployment.metadata.resource_version is None
                ==> (step.1 matches CommandView::Finish(OutcomeView::Fail(_)))
            &&& crate::controller::child_resources::scaling::scale_patch_of(
                instance.metadata.namespace_or_empty(),
                deployment,
                0,
            ) matches Err(e) ==> step == (
                GuardStateView::Done,
                CommandView::Finish(OutcomeView::Fail(e)),
            )
        }),
        super::next(instance, GuardStateView::Scaled { cluster, cron }, EventView::Scaled)
            == super::next(
            instance,
            GuardStateView::Serving { cluster, cron, draining: true },
            EventView::Deployment(None),
        ),
{
}

/// The fence before sleep is reached exactly where no serving pod was found.
pub proof fn any_pod_blocks_sleep(instance: OdooInstanceView, cluster: CnpgClusterView, n: usize)
    ensures
        super::next(instance, GuardStateView::Pods(cluster), EventView::PodCount(n)) == if n == 0 {
            (GuardStateView::SleepFence(cluster), CommandView::ReadInstance)
        } else {
            (GuardStateView::Done, CommandView::Finish(OutcomeView::Requeue))
        },
{
}

// ── Sleeping ────────────────────────────────────────────────────────────────
/// Behind the fence before sleep, the cluster that was read is asked to hibernate
/// where it is not yet. Either way the status to write marks the instance as
/// stopped, not ready and without pods, bound to the instance that the fence read;
/// there is none where the instance has no status, or that one already.
pub proof fn sleep_stops_the_instance(
    instance: OdooInstanceView,
    fresh: OdooInstanceView,
    cluster: CnpgClusterView,
)
    requires
        super::next(instance, GuardStateView::ReadyFence, EventView::Instance(fresh)).1
            == CommandView::Finish(OutcomeView::Proceed),
        cluster.metadata.uid is Some,
        cluster.metadata.resource_version is Some,
    ensures
        ({
            let step = super::next(
                instance,
                GuardStateView::SleepFence(cluster),
                EventView::Instance(fresh),
            );
            let hibernating = cluster.metadata.annotations matches Some(annotations)
                && annotations.contains_key("cnpg.io/hibernation"@)
                && annotations["cnpg.io/hibernation"@] == "on"@;
            let status = match step.0 {
                GuardStateView::Hibernated(status) => status,
                GuardStateView::HibernatedFence { cluster, status } => status,
                _ => None,
            };
            &&& hibernating ==> step.0 == (GuardStateView::HibernatedFence { cluster, status })
                && step.1 == CommandView::ReadInstance
            &&& !hibernating ==> step.0 == GuardStateView::Hibernated(status) && step.1
                == CommandView::Hibernate(
                HibernationPatchView {
                    name: cluster.metadata.name_any(),
                    uid: cluster.metadata.uid->0,
                    resource_version: cluster.metadata.resource_version->0,
                    on: true,
                },
            )
            &&& status is None <==> fresh.status is None || (fresh.status->0.phase == Some(
                OdooInstancePhase::Stopped,
            ) && !fresh.status->0.ready && fresh.status->0.ready_replicas == 0)
            &&& status matches Some(patch) ==> {
                &&& patch.uid == fresh.metadata.uid
                &&& patch.resource_version == fresh.metadata.resource_version
                &&& patch.phase == OdooInstancePhase::Stopped
                &&& !patch.ready
                &&& patch.ready_replicas == 0
                &&& patch.target_replicas == 0
                &&& (fresh.metadata.generation matches Some(generation)
                    ==> patch.observed_generation == generation)
                &&& (fresh.metadata.generation is None ==> patch.observed_generation == 0)
            }
        }),
{
}

/// A cluster without an identity or a version is never asked to hibernate: the guard
/// ends with the error that it ends with when such a one is to be woken.
pub proof fn unbound_clusters_are_not_put_to_sleep(
    instance: OdooInstanceView,
    fresh: OdooInstanceView,
    cluster: CnpgClusterView,
)
    requires
        cluster.metadata.uid is None || cluster.metadata.resource_version is None,
    ensures
        ({
            let step = super::next(
                instance,
                GuardStateView::SleepFence(cluster),
                EventView::Instance(fresh),
            );
            let hibernating = cluster.metadata.annotations matches Some(annotations)
                && annotations.contains_key("cnpg.io/hibernation"@)
                && annotations["cnpg.io/hibernation"@] == "on"@;
            &&& !(step.1 is Hibernate)
            &&& !hibernating ==> step == super::next(
                instance,
                GuardStateView::WakeFence(cluster),
                EventView::Instance(fresh),
            )
        }),
{
}

/// Behind the hibernation patch the guard reads the instance once more. Where it is
/// unchanged, the status is written, if there is one to write; the guard then waits
/// for a change where the cluster confirms that it hibernates, and looks again
/// otherwise. Where it has changed, the cluster is woken.
pub proof fn sleep_ends_with_the_confirmation(
    instance: OdooInstanceView,
    fresh: OdooInstanceView,
    cluster: CnpgClusterView,
    status: Option<StatusPatchView>,
)
    ensures
        ({
            let patched = super::next(
                instance,
                GuardStateView::Hibernated(status),
                EventView::ClusterPatched(cluster),
            );
            let step = super::next(instance, patched.0, EventView::Instance(fresh));
            let end = super::next(
                instance,
                GuardStateView::Status(cluster),
                EventView::StatusPatched,
            );
            let unchanged = super::next(
                instance,
                GuardStateView::ReadyFence,
                EventView::Instance(fresh),
            ).1 == CommandView::Finish(OutcomeView::Proceed);
            let confirmed = cluster.conditions matches Some(conditions) && exists|i: int|
                0 <= i < conditions.len() && (#[trigger] conditions[i]).type_ == Some(
                    "cnpg.io/hibernation"@,
                ) && conditions[i].status == Some("True"@);
            &&& patched == (
                GuardStateView::HibernatedFence { cluster, status },
                CommandView::ReadInstance,
            )
            &&& unchanged && status is Some ==> step == (
                GuardStateView::Status(cluster),
                CommandView::PatchStatus(status->0),
            )
            &&& unchanged && status is None ==> step == end
            &&& !unchanged && (cluster.metadata.uid is None || cluster.metadata.resource_version
                is None) ==> (step.1 matches CommandView::Finish(OutcomeView::Fail(_)))
            &&& !unchanged && cluster.metadata.uid is Some && cluster.metadata.resource_version
                is Some ==> step == (
                GuardStateView::Woken,
                CommandView::Hibernate(
                    HibernationPatchView {
                        name: cluster.metadata.name_any(),
                        uid: cluster.metadata.uid->0,
                        resource_version: cluster.metadata.resource_version->0,
                        on: false,
                    },
                ),
            )
            &&& end == (
                GuardStateView::Done,
                CommandView::Finish(
                    if confirmed {
                        OutcomeView::AwaitChange
                    } else {
                        OutcomeView::Requeue
                    },
                ),
            )
        }),
{
}

/// An answer that the guard did not ask for ends it with an error, whatever it
/// waits for.
pub proof fn unasked_answers_end_the_guard(
    instance: OdooInstanceView,
    state: GuardStateView,
    event: EventView,
)
    requires
        match state {
            GuardStateView::Start => !(event is Start),
            GuardStateView::Cluster => !(event is Cluster),
            GuardStateView::Work(_) => !(event is Work),
            GuardStateView::Woken | GuardStateView::Hibernated(_) => !(event is ClusterPatched),
            GuardStateView::Primary(_) => !(event is Pod),
            GuardStateView::Serving { .. } => !(event is Deployment),
            GuardStateView::Scaled { .. } => !(event is Scaled),
            GuardStateView::Pods(_) => !(event is PodCount),
            GuardStateView::Status(_) => !(event is StatusPatched),
            GuardStateView::Done => true,
            _ => !(event is Instance),
        },
    ensures
        super::next(instance, state, event) == (
            GuardStateView::Done,
            CommandView::Finish(
                OutcomeView::Fail(
                    ErrorView::Config("stagingSleep got an answer that it did not ask for"@),
                ),
            ),
        ),
{
}

/// A step that is handed native work of any kind neither scales, nor hibernates, nor
/// marks the instance stopped, and does not go on to the serving Deployments.
pub proof fn steps_with_work_lead_to_waking(
    instance: OdooInstance,
    cluster: CnpgCluster,
    work: PendingWork,
    stepped: (GuardState, Command),
)
    requires
        call_ensures(
            super::step,
            (&instance, GuardState::Work(cluster), Event::Work(work)),
            stepped,
        ),
        work.init_job || work.restore_job || work.upgrade_job || work.backup_job
            || work.refresh_job || work.storage_class_mismatch || work.cluster_mismatch,
    ensures
        stepped.1 is ReadInstance || stepped.1 is GetPod || stepped.1 is Finish,
        stepped.0 is WakeFence || stepped.0 is Primary || stepped.0 is Done,
{
    pending_work_wakes_the_database(instance.deep_view(), cluster.deep_view(), work);
}

/// A held instance is looked at again every two seconds.
pub proof fn held_instances_are_polled()
    ensures
        super::POLL_SECONDS == 2,
{
}

} // verus!
