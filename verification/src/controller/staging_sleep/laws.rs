//! What holds of every run of the staging sleep guard, whatever the cluster
//! answers.

use vstd::prelude::*;

use crate::controller::staging_sleep::{Command, CommandView, Event, EventView, GuardState, GuardStateView, HibernationPatchView, OutcomeView, PendingWork};
use crate::crd::odoo_instance::{OdooInstance, OdooInstanceView};
use crate::k8s::apps::DeploymentView;
use crate::k8s::cnpg::CnpgClusterView;
use crate::k8s::pods::PodView;

verus! {

// ── Runs ────────────────────────────────────────────────────────────────────
/// What the guard waits for after some answers.
pub open spec fn state_after(instance: OdooInstanceView, events: Seq<EventView>) -> GuardStateView
    decreases events.len(),
{
    if events.len() == 0 {
        GuardStateView::Start
    } else {
        crate::controller::staging_sleep::next(
            instance,
            state_after(instance, events.drop_last()),
            events.last(),
        ).0
    }
}

/// What the guard asks for after some answers.
pub open spec fn command_after(instance: OdooInstanceView, events: Seq<EventView>) -> CommandView
    recommends
        events.len() > 0,
{
    crate::controller::staging_sleep::next(
        instance,
        state_after(instance, events.drop_last()),
        events.last(),
    ).1
}

/// Whether an answer of a run is the answer to a command.
pub open spec fn answer_at(
    instance: OdooInstanceView,
    events: Seq<EventView>,
    k: int,
    command: CommandView,
    answer: EventView,
) -> bool {
    &&& 1 <= k < events.len()
    &&& command_after(instance, events.take(k)) == command
    &&& events[k] == answer
}

/// Whether a run saw a serving Deployment drained, the web one or the cron one.
#[verifier::opaque]
pub open spec fn saw_drained(
    instance: OdooInstanceView,
    events: Seq<EventView>,
    cron: bool,
) -> bool {
    exists|k: int, found: Option<DeploymentView>|
        #![trigger answer_at(instance, events, k, CommandView::GetDeployment(crate::controller::staging_sleep::serving_name(instance, cron)), EventView::Deployment(found))]
        answer_at(
            instance,
            events,
            k,
            CommandView::GetDeployment(
                crate::controller::staging_sleep::serving_name(instance, cron),
            ),
            EventView::Deployment(found),
        ) && crate::controller::staging_sleep::is_drained(instance, found)
}

/// Whether a run saw that no native work needs the database.
#[verifier::opaque]
pub open spec fn saw_idle(instance: OdooInstanceView, events: Seq<EventView>) -> bool {
    exists|k: int, work: PendingWork|
        #![trigger answer_at(instance, events, k, CommandView::GatherWork(instance.spec.staging_sleep->0.database_cluster), EventView::Work(work))]
        answer_at(
            instance,
            events,
            k,
            CommandView::GatherWork(instance.spec.staging_sleep->0.database_cluster),
            EventView::Work(work),
        ) && crate::controller::staging_sleep::is_idle(work)
}

/// Whether a run saw that no serving pod is left.
#[verifier::opaque]
pub open spec fn saw_no_pods(instance: OdooInstanceView, events: Seq<EventView>) -> bool {
    exists|k: int| #[trigger]
        answer_at(
            instance,
            events,
            k,
            CommandView::CountPods(crate::controller::staging_sleep::serving_selector(instance)),
            EventView::PodCount(0),
        )
}

/// Whether a run read this cluster for the instance, and accepted it.
#[verifier::opaque]
pub open spec fn accepted_cluster(
    instance: OdooInstanceView,
    events: Seq<EventView>,
    cluster: CnpgClusterView,
) -> bool {
    &&& instance.spec.staging_sleep is Some
    &&& crate::controller::staging_sleep::spec_violation(instance) is None
    &&& crate::controller::staging_sleep::cluster_violation(instance, cluster) is None
    &&& exists|k: int| #[trigger]
        answer_at(
            instance,
            events,
            k,
            CommandView::GetCluster(instance.spec.staging_sleep->0.database_cluster),
            EventView::Cluster(cluster),
        )
}

/// Whether a run saw a cluster, as it was read or as a patch returned it.
#[verifier::opaque]
pub open spec fn saw_cluster(events: Seq<EventView>, cluster: CnpgClusterView) -> bool {
    exists|k: int|
        0 <= k < events.len() && (#[trigger] events[k] == EventView::Cluster(cluster) || events[k]
            == EventView::ClusterPatched(cluster))
}

/// Whether a run saw the ready primary pod of a ready cluster that nobody asked
/// to hibernate.
#[verifier::opaque]
pub open spec fn saw_ready_database(
    instance: OdooInstanceView,
    events: Seq<EventView>,
    cluster: CnpgClusterView,
) -> bool {
    &&& accepted_cluster(instance, events, cluster)
    &&& !crate::controller::staging_sleep::is_hibernating(cluster)
    &&& crate::controller::staging_sleep::is_cnpg_ready(cluster)
    &&& exists|k: int, pod: PodView|
        #![trigger answer_at(instance, events, k, CommandView::GetPod(primary_of(cluster)), EventView::Pod(Some(pod)))]
        answer_at(
            instance,
            events,
            k,
            CommandView::GetPod(primary_of(cluster)),
            EventView::Pod(Some(pod)),
        ) && crate::controller::staging_sleep::is_ready_primary(cluster, pod)
}

/// The name of the primary pod of a cluster.
pub open spec fn primary_of(cluster: CnpgClusterView) -> Seq<char> {
    cluster.current_primary->0
}

/// Whether a run has come to the sleep path with a cluster.
spec fn sleeping(
    instance: OdooInstanceView,
    events: Seq<EventView>,
    cluster: CnpgClusterView,
) -> bool {
    &&& accepted_cluster(instance, events, cluster)
    &&& saw_cluster(events, cluster)
    &&& crate::controller::staging_sleep::wants_sleep(instance)
    &&& saw_idle(instance, events)
}

/// Whether a run has seen everything that hibernation waits for.
pub open spec fn quiet(instance: OdooInstanceView, events: Seq<EventView>) -> bool {
    &&& crate::controller::staging_sleep::wants_sleep(instance)
    &&& saw_idle(instance, events)
    &&& saw_drained(instance, events, false)
    &&& saw_drained(instance, events, true)
    &&& saw_no_pods(instance, events)
}

// ── The invariant ───────────────────────────────────────────────────────────
/// What a run has seen once the guard waits for something.
spec fn seen_at(
    instance: OdooInstanceView,
    events: Seq<EventView>,
    state: GuardStateView,
) -> bool {
    match state {
        GuardStateView::Start => true,
        GuardStateView::Cluster => instance.spec.staging_sleep is Some
            && crate::controller::staging_sleep::spec_violation(instance) is None,
        GuardStateView::Fence(cluster) | GuardStateView::WakeFence(cluster) => accepted_cluster(
            instance,
            events,
            cluster,
        ) && saw_cluster(events, cluster),
        GuardStateView::Work(cluster) => accepted_cluster(instance, events, cluster) && saw_cluster(
            events,
            cluster,
        ) && crate::controller::staging_sleep::wants_sleep(instance),
        GuardStateView::Woken => true,
        GuardStateView::Primary(cluster) => {
            &&& accepted_cluster(instance, events, cluster)
            &&& !crate::controller::staging_sleep::is_hibernating(cluster)
            &&& crate::controller::staging_sleep::is_cnpg_ready(cluster)
        },
        GuardStateView::ReadyFence => exists|cluster: CnpgClusterView| #[trigger]
            saw_ready_database(instance, events, cluster),
        GuardStateView::Serving { cluster, cron, draining } => {
            &&& sleeping(instance, events, cluster)
            &&& cron && !draining ==> saw_drained(instance, events, false)
        },
        GuardStateView::ScaleFence { cluster, cron, deployment } => {
            &&& sleeping(instance, events, cluster)
            &&& crate::controller::child_resources::scaling::controlled_by(
                deployment,
                crate::controller::staging_sleep::owner_of(instance),
            )
            &&& events.len() > 0
            &&& events.last() == EventView::Deployment(Some(deployment))
        },
        GuardStateView::Scaled { cluster, cron } => sleeping(instance, events, cluster),
        GuardStateView::Pods(cluster) => {
            &&& sleeping(instance, events, cluster)
            &&& saw_drained(instance, events, false)
            &&& saw_drained(instance, events, true)
        },
        GuardStateView::SleepFence(cluster) => sleeping(instance, events, cluster) && quiet(
            instance,
            events,
        ),
        GuardStateView::Hibernated(_) => quiet(instance, events),
        GuardStateView::HibernatedFence { cluster, status } => quiet(instance, events)
            && saw_cluster(events, cluster),
        GuardStateView::Status(_) => quiet(instance, events),
        GuardStateView::Done => true,
    }
}

/// What the guard has asked for while it waits for something.
spec fn asked_for(
    instance: OdooInstanceView,
    state: GuardStateView,
    command: CommandView,
) -> bool {
    match state {
        GuardStateView::Start => false,
        GuardStateView::Cluster => command == CommandView::GetCluster(
            instance.spec.staging_sleep->0.database_cluster,
        ),
        GuardStateView::Fence(_)
        | GuardStateView::WakeFence(_)
        | GuardStateView::ReadyFence
        | GuardStateView::ScaleFence { .. }
        | GuardStateView::SleepFence(_)
        | GuardStateView::HibernatedFence { .. } => command is ReadInstance,
        GuardStateView::Work(_) => command == CommandView::GatherWork(
            instance.spec.staging_sleep->0.database_cluster,
        ),
        GuardStateView::Woken => command matches CommandView::Hibernate(patch) && !patch.on,
        GuardStateView::Primary(cluster) => command == CommandView::GetPod(primary_of(cluster)),
        GuardStateView::Serving { cluster, cron, draining } => command
            == CommandView::GetDeployment(
            crate::controller::staging_sleep::serving_name(instance, cron),
        ),
        GuardStateView::Scaled { .. } => command is Scale,
        GuardStateView::Pods(_) => command == CommandView::CountPods(
            crate::controller::staging_sleep::serving_selector(instance),
        ),
        GuardStateView::Hibernated(_) => command matches CommandView::Hibernate(patch) && patch.on,
        GuardStateView::Status(_) => command is PatchStatus,
        GuardStateView::Done => command is Finish,
    }
}

/// The guard waits for what it has asked for.
proof fn guard_waits_for_what_it_asks(
    instance: OdooInstanceView,
    state: GuardStateView,
    event: EventView,
)
    ensures
        ({
            let (after, command) = crate::controller::staging_sleep::next(instance, state, event);
            asked_for(instance, after, command)
        }),
{
}

/// An answer of the beginning of a run is an answer of the run.
proof fn answers_stay(
    instance: OdooInstanceView,
    events: Seq<EventView>,
    k: int,
    command: CommandView,
    answer: EventView,
)
    requires
        events.len() > 0,
        answer_at(instance, events.drop_last(), k, command, answer),
    ensures
        answer_at(instance, events, k, command, answer),
{
    assert(events.drop_last().take(k) =~= events.take(k));
}

proof fn accepted_stays(
    instance: OdooInstanceView,
    events: Seq<EventView>,
    cluster: CnpgClusterView,
)
    requires
        events.len() > 0,
        accepted_cluster(instance, events.drop_last(), cluster),
    ensures
        accepted_cluster(instance, events, cluster),
{
    reveal(accepted_cluster);
    let asked = CommandView::GetCluster(instance.spec.staging_sleep->0.database_cluster);
    let answer = EventView::Cluster(cluster);
    let k = choose|k: int| #[trigger] answer_at(instance, events.drop_last(), k, asked, answer);
    answers_stay(instance, events, k, asked, answer);
}

proof fn cluster_stays(events: Seq<EventView>, cluster: CnpgClusterView)
    requires
        events.len() > 0,
        saw_cluster(events.drop_last(), cluster),
    ensures
        saw_cluster(events, cluster),
{
    reveal(saw_cluster);
    let before = events.drop_last();
    let j = choose|j: int|
        0 <= j < before.len() && (#[trigger] before[j] == EventView::Cluster(cluster) || before[j]
            == EventView::ClusterPatched(cluster));
    assert(events[j] == before[j]);
}

proof fn idle_stays(instance: OdooInstanceView, events: Seq<EventView>)
    requires
        events.len() > 0,
        saw_idle(instance, events.drop_last()),
    ensures
        saw_idle(instance, events),
{
    reveal(saw_idle);
    let asked = CommandView::GatherWork(instance.spec.staging_sleep->0.database_cluster);
    let (k, work) = choose|k: int, work: PendingWork|
        #![trigger answer_at(instance, events.drop_last(), k, asked, EventView::Work(work))]
        answer_at(instance, events.drop_last(), k, asked, EventView::Work(work))
            && crate::controller::staging_sleep::is_idle(work);
    answers_stay(instance, events, k, asked, EventView::Work(work));
}

proof fn drained_stays(instance: OdooInstanceView, events: Seq<EventView>, cron: bool)
    requires
        events.len() > 0,
        saw_drained(instance, events.drop_last(), cron),
    ensures
        saw_drained(instance, events, cron),
{
    reveal(saw_drained);
    let asked = CommandView::GetDeployment(
        crate::controller::staging_sleep::serving_name(instance, cron),
    );
    let (k, found) = choose|k: int, found: Option<DeploymentView>|
        #![trigger answer_at(instance, events.drop_last(), k, asked, EventView::Deployment(found))]
        answer_at(instance, events.drop_last(), k, asked, EventView::Deployment(found))
            && crate::controller::staging_sleep::is_drained(instance, found);
    answers_stay(instance, events, k, asked, EventView::Deployment(found));
}

proof fn no_pods_stays(instance: OdooInstanceView, events: Seq<EventView>)
    requires
        events.len() > 0,
        saw_no_pods(instance, events.drop_last()),
    ensures
        saw_no_pods(instance, events),
{
    reveal(saw_no_pods);
    let asked = CommandView::CountPods(
        crate::controller::staging_sleep::serving_selector(instance),
    );
    let answer = EventView::PodCount(0);
    let k = choose|k: int| #[trigger] answer_at(instance, events.drop_last(), k, asked, answer);
    answers_stay(instance, events, k, asked, answer);
}

proof fn ready_stays(
    instance: OdooInstanceView,
    events: Seq<EventView>,
    cluster: CnpgClusterView,
)
    requires
        events.len() > 0,
        saw_ready_database(instance, events.drop_last(), cluster),
    ensures
        saw_ready_database(instance, events, cluster),
{
    reveal(saw_ready_database);
    accepted_stays(instance, events, cluster);
    let asked = CommandView::GetPod(primary_of(cluster));
    let (k, pod) = choose|k: int, pod: PodView|
        #![trigger answer_at(instance, events.drop_last(), k, asked, EventView::Pod(Some(pod)))]
        answer_at(instance, events.drop_last(), k, asked, EventView::Pod(Some(pod)))
            && crate::controller::staging_sleep::is_ready_primary(cluster, pod);
    answers_stay(instance, events, k, asked, EventView::Pod(Some(pod)));
}

/// What a run has come to in the sleep path stays so.
proof fn sleeping_stays(
    instance: OdooInstanceView,
    events: Seq<EventView>,
    cluster: CnpgClusterView,
)
    requires
        events.len() > 0,
        sleeping(instance, events.drop_last(), cluster),
    ensures
        sleeping(instance, events, cluster),
{
    accepted_stays(instance, events, cluster);
    cluster_stays(events, cluster);
    idle_stays(instance, events);
}

/// What a run has seen before hibernation stays seen.
proof fn quiet_stays(instance: OdooInstanceView, events: Seq<EventView>)
    requires
        events.len() > 0,
        quiet(instance, events.drop_last()),
    ensures
        quiet(instance, events),
{
    idle_stays(instance, events);
    drained_stays(instance, events, false);
    drained_stays(instance, events, true);
    no_pods_stays(instance, events);
}

/// The last answer of a run is the answer to what the guard had asked for.
proof fn last_answer(instance: OdooInstanceView, events: Seq<EventView>)
    requires
        events.len() > 1,
    ensures
        answer_at(
            instance,
            events,
            events.len() - 1,
            command_after(instance, events.drop_last()),
            events.last(),
        ),
{
    assert(events.take(events.len() - 1) =~= events.drop_last());
}

/// What holds along every run.
proof fn guard_invariant(instance: OdooInstanceView, events: Seq<EventView>)
    ensures
        seen_at(instance, events, state_after(instance, events)),
        events.len() > 0 ==> asked_for(
            instance,
            state_after(instance, events),
            command_after(instance, events),
        ),
    decreases events.len(),
{
    if events.len() > 0 {
        let before = events.drop_last();
        guard_invariant(instance, before);
        guard_waits_for_what_it_asks(instance, state_after(instance, before), events.last());
        match state_after(instance, before) {
            GuardStateView::Start | GuardStateView::Woken | GuardStateView::Done => {},
            GuardStateView::Serving { .. }
            | GuardStateView::ScaleFence { .. }
            | GuardStateView::Scaled { .. }
            | GuardStateView::Pods(_) => {
                invariant_while_draining(instance, events);
            },
            GuardStateView::SleepFence(_)
            | GuardStateView::Hibernated(_)
            | GuardStateView::HibernatedFence { .. }
            | GuardStateView::Status(_) => {
                invariant_while_sleeping(instance, events);
            },
            _ => {
                invariant_while_looking(instance, events);
            },
        }
    }
}

/// The invariant goes on while the guard looks at the instance and the cluster.
proof fn invariant_while_looking(instance: OdooInstanceView, events: Seq<EventView>)
    requires
        events.len() > 1,
        seen_at(instance, events.drop_last(), state_after(instance, events.drop_last())),
        asked_for(
            instance,
            state_after(instance, events.drop_last()),
            command_after(instance, events.drop_last()),
        ),
        ({
            let state = state_after(instance, events.drop_last());
            state is Cluster || state is Fence || state is Work || state is WakeFence || state
                is Primary || state is ReadyFence
        }),
    ensures
        seen_at(instance, events, state_after(instance, events)),
{
    last_answer(instance, events);
    let k = events.len() - 1;
    let pending = command_after(instance, events.drop_last());
    match (state_after(instance, events.drop_last()), events.last()) {
        (GuardStateView::Cluster, EventView::Cluster(cluster)) => {
            reveal(accepted_cluster);
            reveal(saw_cluster);
            assert(events[k] == EventView::Cluster(cluster));
            assert(answer_at(instance, events, k, pending, EventView::Cluster(cluster)));
        },
        (GuardStateView::Fence(cluster), _) => {
            accepted_stays(instance, events, cluster);
            cluster_stays(events, cluster);
        },
        (GuardStateView::WakeFence(cluster), _) => {
            accepted_stays(instance, events, cluster);
            cluster_stays(events, cluster);
        },
        (GuardStateView::Work(cluster), EventView::Work(work)) => {
            accepted_stays(instance, events, cluster);
            cluster_stays(events, cluster);
            reveal(saw_idle);
            assert(answer_at(instance, events, k, pending, EventView::Work(work)));
        },
        (GuardStateView::Primary(cluster), EventView::Pod(Some(pod))) => {
            accepted_stays(instance, events, cluster);
            if crate::controller::staging_sleep::is_ready_primary(cluster, pod) {
                reveal(saw_ready_database);
                assert(answer_at(instance, events, k, pending, EventView::Pod(Some(pod))));
                assert(saw_ready_database(instance, events, cluster));
            }
        },
        _ => {},
    }
}

/// The invariant goes on while the guard drains the serving Deployments.
proof fn invariant_while_draining(instance: OdooInstanceView, events: Seq<EventView>)
    requires
        events.len() > 1,
        seen_at(instance, events.drop_last(), state_after(instance, events.drop_last())),
        asked_for(
            instance,
            state_after(instance, events.drop_last()),
            command_after(instance, events.drop_last()),
        ),
        ({
            let state = state_after(instance, events.drop_last());
            state is Serving || state is ScaleFence || state is Scaled || state is Pods
        }),
    ensures
        seen_at(instance, events, state_after(instance, events)),
{
    last_answer(instance, events);
    let before = events.drop_last();
    let k = events.len() - 1;
    let pending = command_after(instance, before);
    if saw_drained(instance, before, false) {
        drained_stays(instance, events, false);
    }
    if saw_drained(instance, before, true) {
        drained_stays(instance, events, true);
    }
    match (state_after(instance, before), events.last()) {
        (GuardStateView::Serving { cluster, cron, draining }, EventView::Deployment(found)) => {
            sleeping_stays(instance, events, cluster);
            if crate::controller::staging_sleep::is_drained(instance, found) {
                reveal(saw_drained);
                assert(answer_at(instance, events, k, pending, EventView::Deployment(found)));
                assert(saw_drained(instance, events, cron));
            }
        },
        (GuardStateView::ScaleFence { cluster, .. }, _) => {
            sleeping_stays(instance, events, cluster);
        },
        (GuardStateView::Scaled { cluster, .. }, _) => {
            sleeping_stays(instance, events, cluster);
        },
        (GuardStateView::Pods(cluster), EventView::PodCount(n)) => {
            sleeping_stays(instance, events, cluster);
            if n == 0 {
                reveal(saw_no_pods);
                assert(answer_at(instance, events, k, pending, EventView::PodCount(0)));
            }
        },
        _ => {},
    }
}

/// The invariant goes on while the guard puts the database to sleep.
proof fn invariant_while_sleeping(instance: OdooInstanceView, events: Seq<EventView>)
    requires
        events.len() > 1,
        seen_at(instance, events.drop_last(), state_after(instance, events.drop_last())),
        ({
            let state = state_after(instance, events.drop_last());
            state is SleepFence || state is Hibernated || state is HibernatedFence || state
                is Status
        }),
    ensures
        seen_at(instance, events, state_after(instance, events)),
{
    quiet_stays(instance, events);
    match (state_after(instance, events.drop_last()), events.last()) {
        (GuardStateView::SleepFence(cluster), _) => {
            sleeping_stays(instance, events, cluster);
        },
        (GuardStateView::Hibernated(_), EventView::ClusterPatched(cluster)) => {
            reveal(saw_cluster);
            assert(events[events.len() - 1] == EventView::ClusterPatched(cluster));
        },
        _ => {},
    }
}

// ── Laws ────────────────────────────────────────────────────────────────────
/// An instance without the opt-in goes on at once, without a single call.
pub proof fn opting_out_makes_no_calls(instance: OdooInstanceView)
    requires
        instance.spec.staging_sleep is None,
    ensures
        command_after(instance, seq![EventView::Start]) == CommandView::Finish(
            OutcomeView::Proceed,
        ),
{
    let events = seq![EventView::Start];
    assert(events.drop_last() =~= Seq::empty());
}

/// The database is put to sleep only after the run has seen that the instance
/// asks for it, that no native work needs the database, that both serving
/// Deployments are absent or the instance's own and observed at zero, and that no
/// serving pod is left, not even a terminating one; and only right behind a fence
/// that found the instance unchanged.
pub proof fn hibernation_waits_for_quiet(instance: OdooInstanceView, events: Seq<EventView>)
    requires
        events.len() > 0,
        command_after(instance, events) matches CommandView::Hibernate(patch) && patch.on,
    ensures
        quiet(instance, events),
        events.last() matches EventView::Instance(fresh)
            && crate::controller::staging_sleep::is_current(instance, fresh),
{
    guard_invariant(instance, events);
    guard_invariant(instance, events.drop_last());
}

/// Normal runtime goes on only with a database that is awake: an opted-in
/// instance proceeds only after the run has seen a ready cluster of its own that
/// nobody asked to hibernate and that cluster's live, ready primary pod, and right
/// behind a fence that found the instance unchanged.
pub proof fn proceeding_needs_ready_database(instance: OdooInstanceView, events: Seq<EventView>)
    requires
        instance.spec.staging_sleep is Some,
        events.len() > 0,
        command_after(instance, events) == CommandView::Finish(OutcomeView::Proceed),
    ensures
        exists|cluster: CnpgClusterView| #[trigger]
            saw_ready_database(instance, events, cluster),
        events.last() matches EventView::Instance(fresh)
            && crate::controller::staging_sleep::is_current(instance, fresh),
{
    let before = events.drop_last();
    guard_invariant(instance, before);
    let cluster = choose|cluster: CnpgClusterView| #[trigger]
        saw_ready_database(instance, before, cluster);
    ready_stays(instance, events, cluster);
}

/// Demand, maintenance, deletion, and any phase but normal runtime keep the
/// instance awake: the guard then never scales anything, never hibernates the
/// database and never marks the instance stopped.
pub proof fn demand_is_never_put_to_sleep(instance: OdooInstanceView, events: Seq<EventView>)
    requires
        instance.spec.replicas != 0 || instance.metadata.deletion_timestamp is Some
            || instance.metadata.annotations_or_empty().contains_key(
            crate::controller::staging_sleep::MAINTENANCE_ANNOTATION@,
        ) || instance.status is None || !instance.status->0.db_initialized
            || !crate::controller::staging_sleep::may_sleep_in(instance.phase()),
        events.len() > 0,
    ensures
        !(command_after(instance, events) is Scale),
        !(command_after(instance, events) is PatchStatus),
        command_after(instance, events) matches CommandView::Hibernate(patch) ==> !patch.on,
{
    assert(!crate::controller::staging_sleep::wants_sleep(instance));
    guard_invariant(instance, events);
}

/// Every write is right behind a fence. Scaling, hibernation and the status are
/// written only where that fence found the instance unchanged; so is a wake,
/// except the one that undoes hibernation because the fence found a change.
pub proof fn writes_are_fenced(instance: OdooInstanceView, events: Seq<EventView>)
    requires
        events.len() > 0,
        command_after(instance, events) is Scale || command_after(instance, events) is Hibernate
            || command_after(instance, events) is PatchStatus,
    ensures
        events.last() matches EventView::Instance(fresh) && (
        crate::controller::staging_sleep::is_current(instance, fresh) || (command_after(
            instance,
            events,
        ) matches CommandView::Hibernate(patch) && !patch.on && state_after(
            instance,
            events.drop_last(),
        ) is HibernatedFence)),
{
}

/// Nothing foreign is ever scaled: a Deployment that the guard scales is one that
/// it has just read and that the instance controls, and it is scaled to zero, bound
/// to the identity and the version that were read.
pub proof fn only_own_deployments_are_scaled(instance: OdooInstanceView, events: Seq<EventView>)
    requires
        events.len() > 0,
        command_after(instance, events) is Scale,
    ensures
        events.len() >= 2,
        events[events.len() - 2] matches EventView::Deployment(Some(deployment)) && {
            &&& crate::controller::child_resources::scaling::controlled_by(
                deployment,
                crate::controller::staging_sleep::owner_of(instance),
            )
            &&& crate::controller::child_resources::scaling::scale_patch_of(
                instance.metadata.namespace_or_empty(),
                deployment,
                0,
            ) == Ok::<
                crate::controller::child_resources::scaling::ScalePatchView,
                crate::error::ErrorView,
            >(command_after(instance, events)->Scale_0)
        },
{
    guard_invariant(instance, events.drop_last());
}

/// Whether a run has scaled nothing so far.
#[verifier::opaque]
pub open spec fn scaled_nothing(instance: OdooInstanceView, events: Seq<EventView>) -> bool {
    forall|k: int|
        1 <= k <= events.len() ==> !(#[trigger] command_after(instance, events.take(k)) is Scale)
}

/// Whether a state is one that only a run comes to that has scaled nothing.
spec fn needs_no_scaling(state: GuardStateView) -> bool {
    match state {
        GuardStateView::Start
        | GuardStateView::Cluster
        | GuardStateView::Fence(_)
        | GuardStateView::Work(_)
        | GuardStateView::Pods(_)
        | GuardStateView::SleepFence(_)
        | GuardStateView::Hibernated(_)
        | GuardStateView::HibernatedFence { .. }
        | GuardStateView::Status(_) => true,
        GuardStateView::Serving { cluster, cron, draining } => !draining,
        _ => false,
    }
}

/// A step to such a state is from such a state, and scales nothing.
proof fn unscaled_steps(instance: OdooInstanceView, state: GuardStateView, event: EventView)
    ensures
        ({
            let (after, command) = crate::controller::staging_sleep::next(instance, state, event);
            needs_no_scaling(after) ==> needs_no_scaling(state) && !(command is Scale)
        }),
{
}

/// A run that has come to such a state has scaled nothing.
proof fn unscaled_runs(instance: OdooInstanceView, events: Seq<EventView>)
    requires
        needs_no_scaling(state_after(instance, events)),
    ensures
        scaled_nothing(instance, events),
    decreases events.len(),
{
    reveal(scaled_nothing);
    if events.len() > 0 {
        let before = events.drop_last();
        unscaled_steps(instance, state_after(instance, before), events.last());
        unscaled_runs(instance, before);
        assert forall|k: int| 1 <= k <= events.len() implies !(#[trigger] command_after(
            instance,
            events.take(k),
        ) is Scale) by {
            if k < events.len() {
                assert(events.take(k) =~= before.take(k));
            } else {
                assert(events.take(k) =~= events);
            }
        }
    }
}

/// A run that scales does not hibernate: the run that puts the database to sleep, or
/// marks the instance stopped, found everything at zero already.
pub proof fn hibernating_runs_scale_nothing(instance: OdooInstanceView, events: Seq<EventView>)
    requires
        events.len() > 0,
        (command_after(instance, events) matches CommandView::Hibernate(patch) && patch.on)
            || command_after(instance, events) is PatchStatus,
    ensures
        scaled_nothing(instance, events),
{
    unscaled_runs(instance, events);
}

/// A hibernation patch is bound to a cluster that this run has seen: it carries
/// that cluster's identity and version, so that the server refuses it once the
/// cluster was replaced.
pub proof fn hibernation_is_bound_to_what_was_read(
    instance: OdooInstanceView,
    events: Seq<EventView>,
)
    requires
        events.len() > 0,
        command_after(instance, events) is Hibernate,
    ensures
        exists|cluster: CnpgClusterView, on: bool|
            #![trigger crate::controller::staging_sleep::hibernation_patch(cluster, on)]
            saw_cluster(events, cluster) && crate::controller::staging_sleep::hibernation_patch(
                cluster,
                on,
            ) == Ok::<HibernationPatchView, crate::error::ErrorView>(
                command_after(instance, events)->Hibernate_0,
            ),
{
    let before = events.drop_last();
    guard_invariant(instance, before);
    let cluster = match state_after(instance, before) {
        GuardStateView::WakeFence(cluster) => cluster,
        GuardStateView::SleepFence(cluster) => cluster,
        GuardStateView::HibernatedFence { cluster, status } => cluster,
        _ => arbitrary(),
    };
    cluster_stays(events, cluster);
    let on = command_after(instance, events)->Hibernate_0.on;
    assert(crate::controller::staging_sleep::hibernation_patch(cluster, on) == Ok::<
        HibernationPatchView,
        crate::error::ErrorView,
    >(command_after(instance, events)->Hibernate_0));
}

/// Demand that races hibernation is answered at once: where the fence behind the
/// hibernation patch finds a change, the next command is to wake the very cluster
/// that the patch returned, the status is not touched, and the guard holds.
pub proof fn racing_demand_is_compensated(
    instance: OdooInstanceView,
    cluster: CnpgClusterView,
    status: Option<crate::controller::staging_sleep::StatusPatchView>,
    fresh: OdooInstanceView,
    woken: CnpgClusterView,
)
    requires
        !crate::controller::staging_sleep::is_current(instance, fresh),
        cluster.metadata.uid is Some,
        cluster.metadata.resource_version is Some,
    ensures
        ({
            let hibernated = crate::controller::staging_sleep::next(
                instance,
                GuardStateView::Hibernated(status),
                EventView::ClusterPatched(cluster),
            );
            let raced = crate::controller::staging_sleep::next(
                instance,
                hibernated.0,
                EventView::Instance(fresh),
            );
            let end = crate::controller::staging_sleep::next(
                instance,
                raced.0,
                EventView::ClusterPatched(woken),
            );
            &&& raced.1 == CommandView::Hibernate(
                HibernationPatchView {
                    name: cluster.metadata.name_any(),
                    uid: cluster.metadata.uid->0,
                    resource_version: cluster.metadata.resource_version->0,
                    on: false,
                },
            )
            &&& end.1 == CommandView::Finish(OutcomeView::Requeue)
        }),
{
}

/// A serving Deployment that the instance does not control ends the guard with an
/// error: it is neither scaled nor passed over.
pub proof fn foreign_deployment_fails_closed(
    instance: OdooInstanceView,
    cluster: CnpgClusterView,
    cron: bool,
    draining: bool,
    deployment: DeploymentView,
)
    requires
        !crate::controller::child_resources::scaling::controlled_by(
            deployment,
            crate::controller::staging_sleep::owner_of(instance),
        ),
    ensures
        crate::controller::staging_sleep::next(
            instance,
            GuardStateView::Serving { cluster, cron, draining },
            EventView::Deployment(Some(deployment)),
        ).1 matches CommandView::Finish(OutcomeView::Fail(_)),
{
}

/// A cluster that is refused, for its identity or its number of instances, ends
/// the guard with an error as soon as it is read.
pub proof fn refused_cluster_fails_closed(
    instance: OdooInstanceView,
    cluster: CnpgClusterView,
)
    requires
        crate::controller::staging_sleep::cluster_violation(instance, cluster) is Some,
    ensures
        crate::controller::staging_sleep::next(
            instance,
            GuardStateView::Cluster,
            EventView::Cluster(cluster),
        ).1 matches CommandView::Finish(OutcomeView::Fail(_)),
{
}

/// A wake is never followed by normal runtime in the same run: readiness from
/// before the wake patch is not trusted.
pub proof fn waking_holds_the_instance(instance: OdooInstanceView, event: EventView)
    ensures
        crate::controller::staging_sleep::next(instance, GuardStateView::Woken, event).1
            matches CommandView::Finish(outcome) && outcome != OutcomeView::Proceed,
{
}

/// How many answers the guard waits for at most, from a state on.
pub open spec fn answers_left(state: GuardStateView) -> nat {
    match state {
        GuardStateView::Start => 15,
        GuardStateView::Cluster => 14,
        GuardStateView::Fence(_) => 13,
        GuardStateView::Work(_) => 12,
        GuardStateView::Serving { cron, .. } => if cron {
            8
        } else {
            11
        },
        GuardStateView::ScaleFence { cron, .. } => if cron {
            7
        } else {
            10
        },
        GuardStateView::Scaled { cron, .. } => if cron {
            6
        } else {
            9
        },
        GuardStateView::Pods(_) => 5,
        GuardStateView::SleepFence(_) => 4,
        GuardStateView::Hibernated(_) => 3,
        GuardStateView::HibernatedFence { .. } => 2,
        GuardStateView::WakeFence(_) => 2,
        GuardStateView::Primary(_) => 2,
        GuardStateView::Woken => 1,
        GuardStateView::ReadyFence => 1,
        GuardStateView::Status(_) => 1,
        GuardStateView::Done => 0,
    }
}

/// Every answer brings the guard closer to its end.
proof fn answer_brings_closer(
    instance: OdooInstanceView,
    state: GuardStateView,
    event: EventView,
)
    ensures
        ({
            let after = crate::controller::staging_sleep::next(instance, state, event).0;
            after is Done || answers_left(after) < answers_left(state)
        }),
{
}

/// The guard always ends: every answer brings it closer, and after fifteen answers
/// it has finished, whatever they were.
pub proof fn guard_finishes(instance: OdooInstanceView, events: Seq<EventView>)
    ensures
        answers_left(state_after(instance, events)) + events.len() <= 15
            || state_after(instance, events) is Done,
        events.len() >= 15 ==> command_after(instance, events) is Finish,
    decreases events.len(),
{
    if events.len() > 0 {
        let state = state_after(instance, events.drop_last());
        guard_finishes(instance, events.drop_last());
        answer_brings_closer(instance, state, events.last());
        guard_waits_for_what_it_asks(instance, state, events.last());
    }
}

/// A step of the guard is a step of its run: from what it waited for after some answers,
/// it comes with one answer more to what it waits for and asks for after those.
pub proof fn steps_make_up_runs(
    instance: OdooInstance,
    state: GuardState,
    event: Event,
    stepped: (GuardState, Command),
    events: Seq<EventView>,
)
    requires
        call_ensures(crate::controller::staging_sleep::step, (&instance, state, event), stepped),
        state.deep_view() == state_after(instance.deep_view(), events),
    ensures
        stepped.0.deep_view() == state_after(
            instance.deep_view(),
            events.push(event.deep_view()),
        ),
        stepped.1.deep_view() == command_after(
            instance.deep_view(),
            events.push(event.deep_view()),
        ),
{
    assert(events.push(event.deep_view()).drop_last() =~= events);
}

} // verus!
