//! Validating admission webhook for OdooInstance.
//!
//! Rejects updates that would decrease the filestore storage size: claims cannot
//! shrink.
//!
//! StorageClass and database cluster changes are allowed; the operator handles
//! the migration. They are rejected during unsafe phases, except for going back
//! to what a migration left.

use vstd::prelude::*;

use crate::controller::helpers::is_empty;
use crate::controller::staging_sleep::validate_spec;
use crate::crd::odoo_instance::{OdooInstance, OdooInstancePhase, OdooInstanceView, StagingSleepMode, WorkloadLayout};
use crate::helpers::parse_quantity;
use crate::text::{debug_string, same};

verus! {

// ── Requests and responses ──────────────────────────────────────────────────
/// A request to admit an object, or a change of it.
#[derive(Debug)]
pub struct AdmissionRequest {
    pub uid: String,
    /// The object as it would be. Absent on DELETE.
    pub object: Option<OdooInstance>,
    /// The object as it is. Absent on CREATE.
    pub old_object: Option<OdooInstance>,
}

/// What [`AdmissionRequest`] holds.
#[verifier::ext_equal]
pub struct AdmissionRequestView {
    pub uid: Seq<char>,
    pub object: Option<OdooInstanceView>,
    pub old_object: Option<OdooInstanceView>,
}

impl DeepView for AdmissionRequest {
    type V = AdmissionRequestView;

    open spec fn deep_view(&self) -> AdmissionRequestView {
        AdmissionRequestView {
            uid: self.uid@,
            object: self.object.deep_view(),
            old_object: self.old_object.deep_view(),
        }
    }
}

/// The answer to a request.
#[derive(Debug, PartialEq, Eq)]
pub struct AdmissionResponse {
    /// The uid of the request.
    pub uid: String,
    pub allowed: bool,
    /// Why the request is denied.
    pub message: Option<String>,
}

/// What [`AdmissionResponse`] holds.
#[verifier::ext_equal]
pub struct AdmissionResponseView {
    pub uid: Seq<char>,
    pub allowed: bool,
    pub message: Option<Seq<char>>,
}

impl DeepView for AdmissionResponse {
    type V = AdmissionResponseView;

    open spec fn deep_view(&self) -> AdmissionResponseView {
        AdmissionResponseView {
            uid: self.uid@,
            allowed: self.allowed,
            message: self.message.deep_view(),
        }
    }
}

// ── Rules on the new object alone ───────────────────────────────────────────
/// Why the master password of an instance is refused, if it is.
pub open spec fn password_denial(instance: OdooInstanceView) -> Option<Seq<char>> {
    match (instance.spec.admin_password, instance.spec.admin_password_secret_ref) {
        (Some(_), Some(_)) => Some(
            "spec.adminPassword and spec.adminPasswordSecretRef are mutually exclusive — set exactly one"@,
        ),
        (None, None) => Some(
            "one of spec.adminPassword or spec.adminPasswordSecretRef must be set"@,
        ),
        _ => None,
    }
}

/// Exactly one of `spec.adminPassword` / `spec.adminPasswordSecretRef` must be
/// set. Returns the denial message when the object violates that.
pub fn admin_password_violation(instance: &OdooInstance) -> (r: Option<String>)
    ensures
        r.deep_view() == password_denial(instance.deep_view()),
{
    match (&instance.spec.admin_password, &instance.spec.admin_password_secret_ref) {
        (Some(_), Some(_)) => Some(
            "spec.adminPassword and spec.adminPasswordSecretRef are mutually exclusive — set exactly one".to_string(),
        ),
        (None, None) => Some(
            "one of spec.adminPassword or spec.adminPasswordSecretRef must be set".to_string(),
        ),
        _ => None,
    }
}

/// Why the layout of an instance is refused, if it is.
pub open spec fn layout_denial(instance: OdooInstanceView) -> Option<Seq<char>> {
    if instance.spec.workload_layout == WorkloadLayout::Combined && instance.spec.cron.replicas
        != 1 {
        Some("spec.cron.replicas must be 1 when spec.workloadLayout is combined"@)
    } else {
        None
    }
}

/// The combined layout takes one cron replica. Returns the denial message when
/// the object violates that.
pub fn workload_layout_violation(instance: &OdooInstance) -> (r: Option<String>)
    ensures
        r.deep_view() == layout_denial(instance.deep_view()),
{
    if instance.spec.workload_layout == WorkloadLayout::Combined && instance.spec.cron.replicas
        != 1 {
        Some("spec.cron.replicas must be 1 when spec.workloadLayout is combined".to_string())
    } else {
        None
    }
}

/// The first of two denials.
pub open spec fn first_of(a: Option<Seq<char>>, b: Option<Seq<char>>) -> Option<Seq<char>> {
    if a is Some {
        a
    } else {
        b
    }
}

/// Why a new object is refused, whatever it was before.
pub open spec fn object_denial(new: OdooInstanceView) -> Option<Seq<char>> {
    first_of(
        password_denial(new),
        first_of(crate::controller::staging_sleep::spec_violation(new), layout_denial(new)),
    )
}

fn object_violation(new: &OdooInstance) -> (r: Option<String>)
    ensures
        r.deep_view() == object_denial(new.deep_view()),
{
    if let Some(message) = admin_password_violation(new) {
        return Some(message);
    }
    if let Err(error) = validate_spec(new) {
        return Some(error.message().to_string());
    }
    workload_layout_violation(new)
}

// ── Rules on the change ─────────────────────────────────────────────────────
/// Whether an instance is awake: it runs, is ready, and is asked to run.
pub open spec fn is_awake(old: OdooInstanceView, new: OdooInstanceView) -> bool {
    &&& old.spec.replicas > 0
    &&& new.spec.replicas > 0
    &&& old.status matches Some(status) && status.ready && status.phase == Some(
        OdooInstancePhase::Running,
    )
}

/// Why a change of the sleep opt-in is refused, if it is.
pub open spec fn sleep_denial(old: OdooInstanceView, new: OdooInstanceView) -> Option<Seq<char>> {
    if old.spec.staging_sleep is Some && old.spec.staging_sleep != new.spec.staging_sleep
        && !is_awake(old, new) {
        Some(
            "wake staging to Running with replicas > 0 before changing or removing stagingSleep"@,
        )
    } else {
        None
    }
}

fn sleep_change_violation(old: &OdooInstance, new: &OdooInstance) -> (r: Option<String>)
    ensures
        r.deep_view() == sleep_denial(old.deep_view(), new.deep_view()),
{
    let changed = match (&old.spec.staging_sleep, &new.spec.staging_sleep) {
        (Some(a), Some(b)) => !a.same_as(b),
        (Some(_), None) => true,
        (None, _) => false,
    };
    let running = match &old.status {
        Some(status) => status.ready && match status.phase {
            Some(phase) => phase == OdooInstancePhase::Running,
            None => false,
        },
        None => false,
    };
    if changed && (old.spec.replicas <= 0 || new.spec.replicas <= 0 || !running) {
        Some(
            "wake staging to Running with replicas > 0 before changing or removing stagingSleep".to_string(),
        )
    } else {
        None
    }
}

/// Why a change of the layout is refused, if it is.
pub open spec fn layout_change_denial(old: OdooInstanceView, new: OdooInstanceView) -> Option<
    Seq<char>,
> {
    if old.spec.workload_layout != new.spec.workload_layout && (old.spec.replicas != 0
        || new.spec.replicas != 0 || old.phase() != Some(OdooInstancePhase::Stopped)) {
        Some(
            "spec.workloadLayout can change only from a Stopped instance while old and new spec.replicas are 0"@,
        )
    } else {
        None
    }
}

fn layout_change_violation(old: &OdooInstance, new: &OdooInstance) -> (r: Option<String>)
    ensures
        r.deep_view() == layout_change_denial(old.deep_view(), new.deep_view()),
{
    let stopped = match old.phase() {
        Some(phase) => phase == OdooInstancePhase::Stopped,
        None => false,
    };
    if old.spec.workload_layout != new.spec.workload_layout && (old.spec.replicas != 0
        || new.spec.replicas != 0 || !stopped) {
        Some(
            "spec.workloadLayout can change only from a Stopped instance while old and new spec.replicas are 0".to_string(),
        )
    } else {
        None
    }
}

/// The error of reading a quantity, as part of a message.
pub open spec fn not_a_quantity(which: Seq<char>, s: Seq<char>) -> Seq<char> {
    "invalid "@ + which + " quantity "@ + crate::text::debug_text(s) + ": "@
        + "not a quantity: "@ + s
}

/// Why a change of a quantity is refused, if it is.
pub open spec fn quantity_denial(old: Seq<char>, new: Seq<char>) -> Option<Seq<char>> {
    match (crate::helpers::quantity_bytes(old), crate::helpers::quantity_bytes(new)) {
        (None, _) => Some(not_a_quantity("old"@, old)),
        (_, None) => Some(not_a_quantity("new"@, new)),
        (Some(old_bytes), Some(new_bytes)) => if new_bytes < old_bytes {
            Some(
                "spec.filestore.storageSize: cannot decrease storage size from "@ + old + " to "@
                    + new,
            )
        } else {
            None
        },
    }
}

fn invalid_quantity(which: &str, s: &str, error: &str) -> (r: String)
    ensures
        error@ == "not a quantity: "@ + s@ ==> r@ == not_a_quantity(which@, s@),
{
    let r = "invalid ".to_string().concat(which).concat(" quantity ").concat(
        debug_string(s).as_str(),
    ).concat(": ").concat(error);
    proof {
        if error@ == "not a quantity: "@ + s@ {
            assert(r@ =~= not_a_quantity(which@, s@));
        }
    }
    r
}

/// Compare two Kubernetes quantity strings and reject if new < old. Handles
/// plain numbers and the suffixes Ki, Mi, Gi and Ti.
pub fn compare_quantities(old: &str, new: &str) -> (r: Result<(), String>)
    ensures
        match quantity_denial(old@, new@) {
            None => r is Ok,
            Some(message) => r matches Err(e) && e@ == message,
        },
{
    let old_bytes: u64 = match parse_quantity(old) {
        Ok(bytes) => bytes,
        Err(e) => {
            return Err(invalid_quantity("old", old, e.as_str()));
        },
    };
    let new_bytes: u64 = match parse_quantity(new) {
        Ok(bytes) => bytes,
        Err(e) => {
            return Err(invalid_quantity("new", new, e.as_str()));
        },
    };
    if new_bytes < old_bytes {
        return Err(
            "spec.filestore.storageSize: cannot decrease storage size from ".to_string().concat(
                old,
            ).concat(" to ").concat(new),
        );
    }
    Ok(())
}

/// The storage size of an instance, empty where it sets none.
pub open spec fn size_set(instance: OdooInstanceView) -> Seq<char> {
    match instance.spec.filestore {
        Some(f) => f.storage_size.unwrap_or(Seq::empty()),
        None => Seq::empty(),
    }
}

/// Why a change of the storage size is refused, if it is.
pub open spec fn size_denial(old: OdooInstanceView, new: OdooInstanceView) -> Option<Seq<char>> {
    if size_set(old).len() != 0 && size_set(new).len() != 0 {
        quantity_denial(size_set(old), size_set(new))
    } else {
        None
    }
}

fn size_of<'a>(instance: &'a OdooInstance) -> (r: &'a str)
    ensures
        r@ == size_set(instance.deep_view()),
{
    if let Some(f) = &instance.spec.filestore {
        if let Some(size) = &f.storage_size {
            return size.as_str();
        }
    }
    proof {
        reveal_strlit("");
        assert(""@ =~= Seq::empty());
    }
    ""
}

fn size_violation(old: &OdooInstance, new: &OdooInstance) -> (r: Option<String>)
    ensures
        r.deep_view() == size_denial(old.deep_view(), new.deep_view()),
{
    let old_size = size_of(old);
    let new_size = size_of(new);
    if is_empty(old_size) || is_empty(new_size) {
        return None;
    }
    match compare_quantities(old_size, new_size) {
        Ok(()) => None,
        Err(message) => Some(message),
    }
}

/// Whether a phase is one in which storage and database stay where they are:
/// restoring, upgrading, backing up, migrating, or not initialized yet.
pub open spec fn is_unsafe_phase(phase: OdooInstancePhase) -> bool {
    phase == OdooInstancePhase::Restoring || phase == OdooInstancePhase::Upgrading || phase
        == OdooInstancePhase::BackingUp || phase == OdooInstancePhase::MigratingFilestore || phase
        == OdooInstancePhase::FinalizingFilestoreMigration || phase
        == OdooInstancePhase::MigratingDatabase || phase
        == OdooInstancePhase::FinalizingDatabaseMigration || phase
        == OdooInstancePhase::Uninitialized
}

/// The phase of an instance, where it is an unsafe one.
pub open spec fn unsafe_phase_of(instance: OdooInstanceView) -> Option<OdooInstancePhase> {
    match instance.phase() {
        Some(phase) => if is_unsafe_phase(phase) {
            Some(phase)
        } else {
            None
        },
        None => None,
    }
}

/// Why a move from one place to another is refused, if it is: in an unsafe phase,
/// unless it goes back to where a migration came from.
pub open spec fn move_denial(
    old: OdooInstanceView,
    from: Seq<char>,
    to: Seq<char>,
    previous: Option<Seq<char>>,
    message: Seq<char>,
) -> Option<Seq<char>> {
    if from.len() != 0 && to.len() != 0 && from != to && previous != Some(to) {
        match unsafe_phase_of(old) {
            Some(phase) => Some(message + phase.name() + " phase"@),
            None => None,
        }
    } else {
        None
    }
}

fn unsafe_phase(instance: &OdooInstance) -> (r: Option<OdooInstancePhase>)
    ensures
        r == unsafe_phase_of(instance.deep_view()),
{
    match instance.phase() {
        Some(phase) => if phase == OdooInstancePhase::Restoring || phase
            == OdooInstancePhase::Upgrading || phase == OdooInstancePhase::BackingUp || phase
            == OdooInstancePhase::MigratingFilestore || phase
            == OdooInstancePhase::FinalizingFilestoreMigration || phase
            == OdooInstancePhase::MigratingDatabase || phase
            == OdooInstancePhase::FinalizingDatabaseMigration || phase
            == OdooInstancePhase::Uninitialized {
            Some(phase)
        } else {
            None
        },
        None => None,
    }
}

fn move_violation(
    old: &OdooInstance,
    from: &str,
    to: &str,
    previous: Option<&String>,
    message: &str,
) -> (r: Option<String>)
    ensures
        r.deep_view() == move_denial(
            old.deep_view(),
            from@,
            to@,
            previous.deep_view(),
            message@,
        ),
{
    let rollback = match previous {
        Some(previous) => same(previous.as_str(), to),
        None => false,
    };
    if is_empty(from) || is_empty(to) || same(from, to) || rollback {
        return None;
    }
    match unsafe_phase(old) {
        Some(phase) => Some(
            message.to_string().concat(phase.as_str()).concat(" phase"),
        ),
        None => None,
    }
}

/// The database cluster of an instance, empty where it names none.
pub open spec fn cluster_set(instance: OdooInstanceView) -> Seq<char> {
    match instance.spec.database {
        Some(database) => database.cluster.unwrap_or(Seq::empty()),
        None => Seq::empty(),
    }
}

/// The storage class of an instance, empty where it names none.
pub open spec fn class_set(instance: OdooInstanceView) -> Seq<char> {
    match instance.spec.filestore {
        Some(f) => f.storage_class.unwrap_or(Seq::empty()),
        None => Seq::empty(),
    }
}

/// The cluster that a migration of an instance came from.
pub open spec fn previous_cluster(instance: OdooInstanceView) -> Option<Seq<char>> {
    match instance.status {
        Some(status) => status.migration_previous_cluster,
        None => None,
    }
}

/// The storage class that a migration of an instance came from.
pub open spec fn previous_class(instance: OdooInstanceView) -> Option<Seq<char>> {
    match instance.status {
        Some(status) => status.migration_previous_storage_class,
        None => None,
    }
}

/// Why a change of the database cluster is refused, if it is.
pub open spec fn cluster_denial(old: OdooInstanceView, new: OdooInstanceView) -> Option<
    Seq<char>,
> {
    move_denial(
        old,
        cluster_set(old),
        cluster_set(new),
        previous_cluster(old),
        "spec.database.cluster: cannot change cluster while instance is in "@,
    )
}

/// Why a change of the storage class is refused, if it is.
pub open spec fn class_denial(old: OdooInstanceView, new: OdooInstanceView) -> Option<Seq<char>> {
    move_denial(
        old,
        class_set(old),
        class_set(new),
        previous_class(old),
        "spec.filestore.storageClass: cannot change storage class while instance is in "@,
    )
}

fn cluster_of<'a>(instance: &'a OdooInstance) -> (r: &'a str)
    ensures
        r@ == cluster_set(instance.deep_view()),
{
    if let Some(database) = &instance.spec.database {
        if let Some(cluster) = &database.cluster {
            return cluster.as_str();
        }
    }
    proof {
        reveal_strlit("");
        assert(""@ =~= Seq::empty());
    }
    ""
}

fn class_of<'a>(instance: &'a OdooInstance) -> (r: &'a str)
    ensures
        r@ == class_set(instance.deep_view()),
{
    if let Some(f) = &instance.spec.filestore {
        if let Some(class) = &f.storage_class {
            return class.as_str();
        }
    }
    proof {
        reveal_strlit("");
        assert(""@ =~= Seq::empty());
    }
    ""
}

fn cluster_violation(old: &OdooInstance, new: &OdooInstance) -> (r: Option<String>)
    ensures
        r.deep_view() == cluster_denial(old.deep_view(), new.deep_view()),
{
    let previous: Option<&String> = match &old.status {
        Some(status) => status.migration_previous_cluster.as_ref(),
        None => None,
    };
    move_violation(
        old,
        cluster_of(old),
        cluster_of(new),
        previous,
        "spec.database.cluster: cannot change cluster while instance is in ",
    )
}

fn class_violation(old: &OdooInstance, new: &OdooInstance) -> (r: Option<String>)
    ensures
        r.deep_view() == class_denial(old.deep_view(), new.deep_view()),
{
    let previous: Option<&String> = match &old.status {
        Some(status) => status.migration_previous_storage_class.as_ref(),
        None => None,
    };
    move_violation(
        old,
        class_of(old),
        class_of(new),
        previous,
        "spec.filestore.storageClass: cannot change storage class while instance is in ",
    )
}

/// Why a change is refused, if it is.
pub open spec fn change_denial(old: OdooInstanceView, new: OdooInstanceView) -> Option<Seq<char>> {
    first_of(
        sleep_denial(old, new),
        first_of(
            layout_change_denial(old, new),
            first_of(
                size_denial(old, new),
                first_of(cluster_denial(old, new), class_denial(old, new)),
            ),
        ),
    )
}

fn change_violation(old: &OdooInstance, new: &OdooInstance) -> (r: Option<String>)
    ensures
        r.deep_view() == change_denial(old.deep_view(), new.deep_view()),
{
    if let Some(message) = sleep_change_violation(old, new) {
        return Some(message);
    }
    if let Some(message) = layout_change_violation(old, new) {
        return Some(message);
    }
    if let Some(message) = size_violation(old, new) {
        return Some(message);
    }
    if let Some(message) = cluster_violation(old, new) {
        return Some(message);
    }
    class_violation(old, new)
}

// ── The verdict ─────────────────────────────────────────────────────────────
/// Why a request is denied, if it is. The rules on the new object hold for any
/// request that carries one, CREATE among them; the others are on changes.
pub open spec fn denial(req: AdmissionRequestView) -> Option<Seq<char>> {
    match req.object {
        None => None,
        Some(new) => first_of(
            object_denial(new),
            match req.old_object {
                None => None,
                Some(old) => change_denial(old, new),
            },
        ),
    }
}

/// Validate an OdooInstance admission request.
pub fn validate(req: AdmissionRequest) -> (r: AdmissionResponse)
    ensures
        r.deep_view() == (AdmissionResponseView {
            uid: req.deep_view().uid,
            allowed: denial(req.deep_view()) is None,
            message: denial(req.deep_view()),
        }),
{
    let message = match (&req.object, &req.old_object) {
        (None, _) => None,
        (Some(new), None) => object_violation(new),
        (Some(new), Some(old)) => match object_violation(new) {
            Some(message) => Some(message),
            None => change_violation(old, new),
        },
    };
    AdmissionResponse { uid: req.uid, allowed: message.is_none(), message }
}

// ── Laws ────────────────────────────────────────────────────────────────────
/// An admitted update never shrinks the filestore.
pub proof fn admitted_updates_never_shrink(
    req: AdmissionRequestView,
    old: OdooInstanceView,
    new: OdooInstanceView,
)
    requires
        denial(req) is None,
        req.old_object == Some(old),
        req.object == Some(new),
        size_set(old).len() != 0,
        size_set(new).len() != 0,
    ensures
        crate::helpers::quantity_bytes(old.spec.filestore->0.storage_size->0) matches Some(
            old_bytes,
        ) && crate::helpers::quantity_bytes(new.spec.filestore->0.storage_size->0) matches Some(
            new_bytes,
        ) && old_bytes <= new_bytes,
{
}

/// Every admitted object has exactly one source of its master password, whether
/// it is created or changed, and whatever else the request does.
pub proof fn admitted_objects_have_one_password(req: AdmissionRequestView, new: OdooInstanceView)
    requires
        denial(req) is None,
        req.object == Some(new),
    ensures
        new.spec.admin_password is Some <==> new.spec.admin_password_secret_ref is None,
{
}

/// The rule on the master password comes first: where it is violated, it is what
/// the denial says, whatever else the request violates.
pub proof fn password_rule_comes_first(req: AdmissionRequestView, new: OdooInstanceView)
    requires
        req.object == Some(new),
        password_denial(new) is Some,
    ensures
        denial(req) == password_denial(new),
{
}

/// A deletion is always admitted, and so is a creation that the rules on the
/// object alone allow.
pub proof fn creation_and_deletion_skip_change_rules(req: AdmissionRequestView)
    ensures
        req.object is None ==> denial(req) is None,
        req.object is Some && req.old_object is None ==> denial(req) == object_denial(
            req.object->0,
        ),
{
}

/// Storage and database move only in safe phases: an admitted change of the
/// storage class or the cluster was made in a safe phase, or goes back to where a
/// migration came from.
pub proof fn admitted_moves_are_safe(
    req: AdmissionRequestView,
    old: OdooInstanceView,
    new: OdooInstanceView,
)
    requires
        denial(req) is None,
        req.old_object == Some(old),
        req.object == Some(new),
    ensures
        cluster_set(old).len() != 0 && cluster_set(new).len() != 0 && cluster_set(old)
            != cluster_set(new) ==> unsafe_phase_of(old) is None || previous_cluster(old) == Some(
            cluster_set(new),
        ),
        class_set(old).len() != 0 && class_set(new).len() != 0 && class_set(old) != class_set(
            new,
        ) ==> unsafe_phase_of(old) is None || previous_class(old) == Some(class_set(new)),
{
}

/// A rollback is never blocked by the phase: going back to where a migration came
/// from is not refused by the rules on moves.
pub proof fn rollback_is_never_blocked(old: OdooInstanceView, new: OdooInstanceView)
    ensures
        previous_cluster(old) == Some(cluster_set(new)) ==> cluster_denial(old, new) is None,
        previous_class(old) == Some(class_set(new)) ==> class_denial(old, new) is None,
{
}

/// The layout changes only on a stopped instance that stays at zero replicas, and
/// the combined layout always has one cron replica.
pub proof fn admitted_layout_changes_are_stopped(
    req: AdmissionRequestView,
    old: OdooInstanceView,
    new: OdooInstanceView,
)
    requires
        denial(req) is None,
        req.old_object == Some(old),
        req.object == Some(new),
    ensures
        old.spec.workload_layout != new.spec.workload_layout ==> old.spec.replicas == 0
            && new.spec.replicas == 0 && old.phase() == Some(OdooInstancePhase::Stopped),
        new.spec.workload_layout == WorkloadLayout::Combined ==> new.spec.cron.replicas == 1,
{
}

/// The sleep opt-in is changed or removed only on an instance that is awake, and
/// every admitted opt-in is one that the sleep guard accepts.
pub proof fn admitted_sleep_changes_are_awake(
    req: AdmissionRequestView,
    old: OdooInstanceView,
    new: OdooInstanceView,
)
    requires
        denial(req) is None,
        req.old_object == Some(old),
        req.object == Some(new),
    ensures
        old.spec.staging_sleep is Some && old.spec.staging_sleep != new.spec.staging_sleep
            ==> is_awake(old, new),
        crate::controller::staging_sleep::spec_violation(new) is None,
{
}

/// Any two objects that are the same but for their status, and that satisfy the
/// rules on the object alone, are admitted as a change, provided that the storage
/// size they set is a quantity: nothing is refused where nothing changes.
pub proof fn unchanged_objects_are_admitted(
    req: AdmissionRequestView,
    old: OdooInstanceView,
    new: OdooInstanceView,
)
    requires
        req.old_object == Some(old),
        req.object == Some(new),
        old.spec == new.spec,
        object_denial(new) is None,
        size_set(new).len() != 0 ==> crate::helpers::quantity_bytes(size_set(new)) is Some,
    ensures
        denial(req) is None,
{
}

/// The rules on the object alone hold for every request that carries one, and the
/// first one that is broken says why: exactly one source of the master password, the
/// staging label and the instance's own cluster for an opt-in to sleep, no warm mode
/// in the combined layout, and one cron replica in the combined layout. An object
/// that breaks none of them is admitted where it is new.
pub proof fn objects_break_the_first_rule_that_they_break(
    req: AdmissionRequestView,
    new: OdooInstanceView,
)
    requires
        req.object == Some(new),
    ensures
        ({
            let both = new.spec.admin_password is Some && new.spec.admin_password_secret_ref
                is Some;
            let neither = new.spec.admin_password is None && new.spec.admin_password_secret_ref
                is None;
            let staging = new.metadata.labels matches Some(labels) && labels.contains_key(
                "droggol.sh/instance-kind"@,
            ) && labels["droggol.sh/instance-kind"@] == "staging"@;
            let foreign = new.spec.staging_sleep matches Some(sleep) && (!staging
                || sleep.database_cluster.len() == 0 || new.spec.database is None
                || new.spec.database->0.cluster != Some(sleep.database_cluster));
            let warm = new.spec.staging_sleep matches Some(sleep) && sleep.mode
                == StagingSleepMode::Warm && new.spec.workload_layout == WorkloadLayout::Combined;
            let crons = new.spec.workload_layout == WorkloadLayout::Combined
                && new.spec.cron.replicas != 1;
            &&& both ==> denial(req) == Some(
                "spec.adminPassword and spec.adminPasswordSecretRef are mutually exclusive — set exactly one"@,
            )
            &&& neither ==> denial(req) == Some(
                "one of spec.adminPassword or spec.adminPasswordSecretRef must be set"@,
            )
            &&& !both && !neither && foreign ==> denial(req) == Some(
                "stagingSleep requires droggol.sh/instance-kind=staging and the same explicit database.cluster"@,
            )
            &&& !both && !neither && !foreign && warm ==> denial(req) == Some(
                "stagingSleep mode warm requires workloadLayout separate"@,
            )
            &&& !both && !neither && !foreign && !warm && crons ==> denial(req) == Some(
                "spec.cron.replicas must be 1 when spec.workloadLayout is combined"@,
            )
            &&& !both && !neither && !foreign && !warm && !crons && req.old_object is None
                ==> denial(req) is None
        }),
{
}

/// In the phases of restoring, upgrading, backing up, migrating, finalizing a
/// migration and before initialization, the database stays on its cluster: an update
/// from one named cluster to another is denied, whatever else the instance says,
/// unless it goes back to where a migration came from.
pub proof fn unsafe_phases_hold_the_cluster(
    req: AdmissionRequestView,
    old: OdooInstanceView,
    new: OdooInstanceView,
    from: Seq<char>,
    to: Seq<char>,
)
    requires
        req.old_object == Some(old),
        req.object == Some(new),
        old.spec.database matches Some(database) && database.cluster == Some(from),
        new.spec.database matches Some(database) && database.cluster == Some(to),
        from.len() != 0,
        to.len() != 0,
        from != to,
        old.status matches Some(status) && status.migration_previous_cluster != Some(to) && (
        status.phase == Some(OdooInstancePhase::Restoring) || status.phase == Some(
            OdooInstancePhase::Upgrading,
        ) || status.phase == Some(OdooInstancePhase::BackingUp) || status.phase == Some(
            OdooInstancePhase::MigratingFilestore,
        ) || status.phase == Some(OdooInstancePhase::FinalizingFilestoreMigration)
            || status.phase == Some(OdooInstancePhase::MigratingDatabase) || status.phase == Some(
            OdooInstancePhase::FinalizingDatabaseMigration,
        ) || status.phase == Some(OdooInstancePhase::Uninitialized)),
    ensures
        denial(req) is Some,
{
}

/// In the same phases the filestore stays on its storage class.
pub proof fn unsafe_phases_hold_the_storage_class(
    req: AdmissionRequestView,
    old: OdooInstanceView,
    new: OdooInstanceView,
    from: Seq<char>,
    to: Seq<char>,
)
    requires
        req.old_object == Some(old),
        req.object == Some(new),
        old.spec.filestore matches Some(filestore) && filestore.storage_class == Some(from),
        new.spec.filestore matches Some(filestore) && filestore.storage_class == Some(to),
        from.len() != 0,
        to.len() != 0,
        from != to,
        old.status matches Some(status) && status.migration_previous_storage_class != Some(to) && (
        status.phase == Some(OdooInstancePhase::Restoring) || status.phase == Some(
            OdooInstancePhase::Upgrading,
        ) || status.phase == Some(OdooInstancePhase::BackingUp) || status.phase == Some(
            OdooInstancePhase::MigratingFilestore,
        ) || status.phase == Some(OdooInstancePhase::FinalizingFilestoreMigration)
            || status.phase == Some(OdooInstancePhase::MigratingDatabase) || status.phase == Some(
            OdooInstancePhase::FinalizingDatabaseMigration,
        ) || status.phase == Some(OdooInstancePhase::Uninitialized)),
    ensures
        denial(req) is Some,
{
}

/// An update whose new object breaks no rule of its own is denied by the first of
/// these that it breaks, and admitted where it breaks none: the opt-in to sleep
/// changes or goes only while the instance is ready, running and asked to run before
/// and after; the layout changes only on a stopped instance with zero replicas before
/// and after; a storage size that is set before and after is a quantity each time and
/// does not shrink; and neither the cluster nor the storage class moves from one name
/// to another in an unsafe phase, unless back to where a migration came from.
pub proof fn changes_break_the_first_rule_that_they_break(
    req: AdmissionRequestView,
    old: OdooInstanceView,
    new: OdooInstanceView,
)
    requires
        req.old_object == Some(old),
        req.object == Some(new),
        denial((AdmissionRequestView { old_object: None, ..req })) is None,
    ensures
        ({
            let asleep = old.spec.staging_sleep is Some && old.spec.staging_sleep
                != new.spec.staging_sleep && !(old.spec.replicas > 0 && new.spec.replicas > 0 && (
            old.status matches Some(status) && status.ready && status.phase == Some(
                OdooInstancePhase::Running,
            )));
            let layout = old.spec.workload_layout != new.spec.workload_layout && !(
            old.spec.replicas == 0 && new.spec.replicas == 0 && (old.status matches Some(status)
                && status.phase == Some(OdooInstancePhase::Stopped)));
            let sized = (old.spec.filestore matches Some(f) && (f.storage_size matches Some(size)
                && size.len() != 0)) && (new.spec.filestore matches Some(f) && (
            f.storage_size matches Some(size) && size.len() != 0));
            let old_size = old.spec.filestore->0.storage_size->0;
            let new_size = new.spec.filestore->0.storage_size->0;
            let old_bytes = crate::helpers::quantity_bytes(old_size);
            let new_bytes = crate::helpers::quantity_bytes(new_size);
            let held = old.status matches Some(status) && (status.phase == Some(
                OdooInstancePhase::Restoring,
            ) || status.phase == Some(OdooInstancePhase::Upgrading) || status.phase == Some(
                OdooInstancePhase::BackingUp,
            ) || status.phase == Some(OdooInstancePhase::MigratingFilestore) || status.phase
                == Some(OdooInstancePhase::FinalizingFilestoreMigration) || status.phase == Some(
                OdooInstancePhase::MigratingDatabase,
            ) || status.phase == Some(OdooInstancePhase::FinalizingDatabaseMigration)
                || status.phase == Some(OdooInstancePhase::Uninitialized));
            let cluster = (old.spec.database matches Some(d) && (d.cluster matches Some(from)
                && from.len() != 0)) && (new.spec.database matches Some(d) && (
            d.cluster matches Some(to) && to.len() != 0)) && old.spec.database->0.cluster
                != new.spec.database->0.cluster && held
                && old.status->0.migration_previous_cluster != new.spec.database->0.cluster;
            let class = (old.spec.filestore matches Some(f) && (f.storage_class matches Some(from)
                && from.len() != 0)) && (new.spec.filestore matches Some(f) && (
            f.storage_class matches Some(to) && to.len() != 0)) && old.spec.filestore->0.storage_class
                != new.spec.filestore->0.storage_class && held
                && old.status->0.migration_previous_storage_class
                != new.spec.filestore->0.storage_class;
            let sizes = sized && (old_bytes is None || new_bytes is None || new_bytes->0
                < old_bytes->0);
            &&& asleep ==> denial(req) == Some(
                "wake staging to Running with replicas > 0 before changing or removing stagingSleep"@,
            )
            &&& !asleep && layout ==> denial(req) == Some(
                "spec.workloadLayout can change only from a Stopped instance while old and new spec.replicas are 0"@,
            )
            &&& !asleep && !layout && sized && old_bytes is None ==> denial(req) == Some(
                "invalid "@ + "old"@ + " quantity "@ + crate::text::debug_text(old_size) + ": "@
                    + "not a quantity: "@ + old_size,
            )
            &&& !asleep && !layout && sized && old_bytes is Some && new_bytes is None
                ==> denial(req) == Some(
                "invalid "@ + "new"@ + " quantity "@ + crate::text::debug_text(new_size) + ": "@
                    + "not a quantity: "@ + new_size,
            )
            &&& !asleep && !layout && sized && old_bytes is Some && new_bytes is Some
                && new_bytes->0 < old_bytes->0 ==> denial(req) == Some(
                "spec.filestore.storageSize: cannot decrease storage size from "@ + old_size
                    + " to "@ + new_size,
            )
            &&& !asleep && !layout && !sizes && cluster ==> denial(req) == Some(
                "spec.database.cluster: cannot change cluster while instance is in "@
                    + old.status->0.phase->0.name() + " phase"@,
            )
            &&& !asleep && !layout && !sizes && !cluster && class ==> denial(req) == Some(
                "spec.filestore.storageClass: cannot change storage class while instance is in "@
                    + old.status->0.phase->0.name() + " phase"@,
            )
            &&& !asleep && !layout && !sizes && !cluster && !class ==> denial(req) is None
        }),
{
}

/// A quantity may be replaced by one of at least as many bytes, and by no other; the
/// order of two quantities thus decides both ways.
pub proof fn quantities_may_only_grow(old: Seq<char>, new: Seq<char>)
    requires
        crate::helpers::quantity_bytes(old) is Some,
        crate::helpers::quantity_bytes(new) is Some,
    ensures
        quantity_denial(old, new) is None <==> crate::helpers::quantity_bytes(old)->0
            <= crate::helpers::quantity_bytes(new)->0,
        quantity_denial(old, new) is None || quantity_denial(new, old) is None,
        quantity_denial(old, new) is Some ==> quantity_denial(old, new) == Some(
            "spec.filestore.storageSize: cannot decrease storage size from "@ + old + " to "@ + new,
        ),
{
}

/// Whatever is asked, the answer carries the request's own uid, allows exactly where it
/// has nothing to say, and otherwise says which rule was broken.
pub proof fn answers_say_the_verdict(req: AdmissionRequest, response: AdmissionResponse)
    requires
        call_ensures(validate, (req,), response),
    ensures
        response.uid@ == req.uid@,
        response.allowed <==> response.message is None,
        response.allowed <==> denial(req.deep_view()) is None,
        response.message matches Some(message) ==> denial(req.deep_view()) == Some(message@),
{
    assert(response.message is Some ==> response.deep_view().message == Some(
        response.message->0@,
    ));
}

/// An update that moves the database from one named cluster to another is not allowed
/// while the instance restores, upgrades, backs up, migrates or finalizes a migration,
/// nor before it is initialized, unless it goes back to where a migration came from; and
/// neither is one that moves the filestore from one named storage class to another.
pub proof fn moves_are_refused_in_unsafe_phases(
    req: AdmissionRequest,
    response: AdmissionResponse,
    old: OdooInstance,
    new: OdooInstance,
    phase: OdooInstancePhase,
)
    requires
        call_ensures(validate, (req,), response),
        req.old_object == Some(old),
        req.object == Some(new),
        old.status matches Some(status) && status.phase == Some(phase),
        phase == OdooInstancePhase::Restoring || phase == OdooInstancePhase::Upgrading || phase
            == OdooInstancePhase::BackingUp || phase == OdooInstancePhase::MigratingFilestore
            || phase == OdooInstancePhase::FinalizingFilestoreMigration || phase
            == OdooInstancePhase::MigratingDatabase || phase
            == OdooInstancePhase::FinalizingDatabaseMigration || phase
            == OdooInstancePhase::Uninitialized,
    ensures
        ({
            let was = old.deep_view();
            let is = new.deep_view();
            let moves_database = (was.spec.database matches Some(d) && (d.cluster matches Some(c)
                && c.len() > 0)) && (is.spec.database matches Some(d) && (
            d.cluster matches Some(c) && c.len() > 0)) && was.spec.database->0.cluster
                != is.spec.database->0.cluster;
            let moves_filestore = (was.spec.filestore matches Some(f) && (
            f.storage_class matches Some(c) && c.len() > 0)) && (
            is.spec.filestore matches Some(f) && (f.storage_class matches Some(c) && c.len()
                > 0)) && was.spec.filestore->0.storage_class != is.spec.filestore->0.storage_class;
            &&& moves_database && was.status->0.migration_previous_cluster
                != is.spec.database->0.cluster ==> !response.allowed
            &&& moves_filestore && was.status->0.migration_previous_storage_class
                != is.spec.filestore->0.storage_class ==> !response.allowed
        }),
{
    let seen = req.deep_view();
    let was = old.deep_view();
    let is = new.deep_view();
    assert(seen.old_object == Some(was));
    assert(seen.object == Some(is));
    assert(was.status == old.status.deep_view());
    answers_say_the_verdict(req, response);
    if (was.spec.database matches Some(d) && (d.cluster matches Some(c) && c.len() > 0)) && (
    is.spec.database matches Some(d) && (d.cluster matches Some(c) && c.len() > 0))
        && was.spec.database->0.cluster != is.spec.database->0.cluster
        && was.status->0.migration_previous_cluster != is.spec.database->0.cluster {
        unsafe_phases_hold_the_cluster(
            seen,
            was,
            is,
            was.spec.database->0.cluster->0,
            is.spec.database->0.cluster->0,
        );
    }
    if (was.spec.filestore matches Some(f) && (f.storage_class matches Some(c) && c.len() > 0))
        && (is.spec.filestore matches Some(f) && (f.storage_class matches Some(c) && c.len() > 0))
        && was.spec.filestore->0.storage_class != is.spec.filestore->0.storage_class
        && was.status->0.migration_previous_storage_class != is.spec.filestore->0.storage_class {
        unsafe_phases_hold_the_storage_class(
            seen,
            was,
            is,
            was.spec.filestore->0.storage_class->0,
            is.spec.filestore->0.storage_class->0,
        );
    }
}

/// Two texts compare exactly where both are quantities and the new one is at least as
/// large.
pub proof fn comparison_takes_two_quantities(old: &str, new: &str, compared: Result<(), String>)
    requires
        call_ensures(compare_quantities, (old, new), compared),
    ensures
        compared is Ok <==> crate::helpers::quantity_bytes(old@) is Some
            && crate::helpers::quantity_bytes(new@) is Some && crate::helpers::quantity_bytes(
            old@,
        )->0 <= crate::helpers::quantity_bytes(new@)->0,
{
}

} // verus!
