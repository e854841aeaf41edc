//! The validating admission webhook.

use odoo_operator::crd::odoo_instance::{
    AdminPasswordSecretRef, CronSpec, DatabaseSpec, Environment, FilestoreSpec, IngressSpec,
    OdooInstance, OdooInstancePhase, OdooInstanceSpec, OdooInstanceStatus, StagingSleepMode,
    StagingSleepSpec, WorkloadLayout,
};
use odoo_operator::helpers::parse_quantity;
use odoo_operator::k8s::meta::ObjectMeta;
use odoo_operator::string_map::StringMap;
use odoo_operator::webhook::{
    admin_password_violation, compare_quantities, validate, workload_layout_violation,
    AdmissionRequest,
};

fn base_instance(name: &str) -> OdooInstance {
    OdooInstance {
        metadata: ObjectMeta {
            name: Some(name.to_string()),
            namespace: Some("tenant".to_string()),
            uid: Some("uid-1234".to_string()),
            ..Default::default()
        },
        spec: OdooInstanceSpec {
            image: None,
            image_pull_secret: None,
            admin_password: Some("admin".to_string()),
            admin_password_secret_ref: None,
            replicas: 1,
            workload_layout: WorkloadLayout::Separate,
            cron: CronSpec {
                replicas: 1,
                resources: None,
            },
            ingress: IngressSpec {
                hosts: vec!["test.example.com".to_string()],
                issuer: None,
                class: None,
                gateway_ref: None,
            },
            resources: None,
            filestore: None,
            config_options: None,
            database: None,
            init: Default::default(),
            environment: Default::default(),
            production_instance_ref: None,
            strategy: None,
            webhook: None,
            probes: None,
            affinity: None,
            tolerations: vec![],
            read_only_sql_access: None,
            staging_sleep: None,
            extra_env: vec![],
            extra_env_from: vec![],
            source_volume: None,
            custom_source_volume: None,
            monitoring: None,
            run_as_user: None,
            run_as_group: None,
        },
        status: None,
    }
}

fn make_instance_full(
    db_name: Option<&str>,
    cluster: Option<&str>,
    storage_class: Option<&str>,
) -> OdooInstance {
    let mut inst = base_instance("test");
    if db_name.is_some() || cluster.is_some() {
        inst.spec.database = Some(DatabaseSpec {
            cluster: cluster.map(str::to_string),
            name: db_name.map(str::to_string),
            missing_policy: Default::default(),
            unaccent: true,
        });
    }
    if let Some(sc) = storage_class {
        inst.spec.filestore = Some(FilestoreSpec {
            storage_size: None,
            storage_class: Some(sc.to_string()),
        });
    }
    inst
}

fn make_instance(db_name: Option<&str>, cluster: Option<&str>) -> OdooInstance {
    make_instance_full(db_name, cluster, None)
}

fn update(old: OdooInstance, new: OdooInstance) -> AdmissionRequest {
    AdmissionRequest {
        uid: "req-1".to_string(),
        object: Some(new),
        old_object: Some(old),
    }
}

fn status(phase: OdooInstancePhase) -> OdooInstanceStatus {
    OdooInstanceStatus {
        phase: Some(phase),
        ..Default::default()
    }
}

fn make_update_request(
    old_db_name: Option<&str>,
    old_cluster: Option<&str>,
    new_db_name: Option<&str>,
    new_cluster: Option<&str>,
) -> AdmissionRequest {
    update(
        make_instance(old_db_name, old_cluster),
        make_instance(new_db_name, new_cluster),
    )
}

fn make_sc_change_request(
    old_class: &str,
    new_class: &str,
    old_phase: Option<OdooInstancePhase>,
) -> AdmissionRequest {
    make_sc_change_request_with_prev(old_class, new_class, old_phase, None)
}

fn make_sc_change_request_with_prev(
    old_class: &str,
    new_class: &str,
    old_phase: Option<OdooInstancePhase>,
    prev_sc: Option<&str>,
) -> AdmissionRequest {
    let mut old = make_instance_full(None, None, Some(old_class));
    if let Some(phase) = old_phase {
        let mut s = status(phase);
        s.migration_previous_storage_class = prev_sc.map(str::to_string);
        old.status = Some(s);
    }
    update(old, make_instance_full(None, None, Some(new_class)))
}

fn make_cluster_change_request(
    old_cluster: &str,
    new_cluster: &str,
    old_phase: Option<OdooInstancePhase>,
) -> AdmissionRequest {
    let mut old = make_instance(None, Some(old_cluster));
    old.status = old_phase.map(status);
    update(old, make_instance(None, Some(new_cluster)))
}

fn make_layout_change_request(
    old_replicas: i32,
    new_replicas: i32,
    old_phase: OdooInstancePhase,
    cron_replicas: i32,
) -> AdmissionRequest {
    let mut old = make_instance(None, None);
    old.spec.replicas = old_replicas;
    old.spec.workload_layout = WorkloadLayout::Separate;
    old.status = Some(status(old_phase));
    let mut new = make_instance(None, None);
    new.spec.replicas = new_replicas;
    new.spec.workload_layout = WorkloadLayout::Combined;
    new.spec.cron.replicas = cron_replicas;
    update(old, new)
}

fn make_size_change_request(old: &str, new: &str) -> AdmissionRequest {
    let sized = |size: &str| {
        let mut inst = make_instance(None, None);
        inst.spec.filestore = Some(FilestoreSpec {
            storage_size: Some(size.to_string()),
            storage_class: None,
        });
        inst
    };
    update(sized(old), sized(new))
}

#[test]
fn test_parse_quantity() {
    assert_eq!(parse_quantity("2Gi").unwrap(), 2 * 1024 * 1024 * 1024);
    assert_eq!(parse_quantity("10Gi").unwrap(), 10 * 1024 * 1024 * 1024);
    assert_eq!(parse_quantity("500Mi").unwrap(), 500 * 1024 * 1024);
    assert_eq!(parse_quantity("1Ti").unwrap(), 1024 * 1024 * 1024 * 1024);
    assert_eq!(parse_quantity("100").unwrap(), 100);
}

#[test]
fn quantities_that_are_none() {
    assert_eq!(parse_quantity("3Ki").unwrap(), 3072);
    assert_eq!(parse_quantity("18446744073709551615").unwrap(), u64::MAX);
    for s in ["", "Gi", "i", "1.5Gi", "-1", "1 Gi", "2gi", "x", "18446744073709551616", "99999999999Ti"] {
        assert_eq!(parse_quantity(s).unwrap_err(), format!("not a quantity: {s}"));
    }
}

#[test]
fn test_compare_quantities_allows_increase() {
    assert!(compare_quantities("2Gi", "10Gi").is_ok());
    assert!(compare_quantities("2Gi", "2Gi").is_ok());
}

#[test]
fn test_compare_quantities_rejects_decrease() {
    assert!(compare_quantities("10Gi", "2Gi").is_err());
    assert!(compare_quantities("1Gi", "500Mi").is_err());
}

#[test]
fn quantity_denials_say_why() {
    assert_eq!(
        compare_quantities("10Gi", "2Gi").unwrap_err(),
        "spec.filestore.storageSize: cannot decrease storage size from 10Gi to 2Gi"
    );
    assert_eq!(
        compare_quantities("a\"b", "2Gi").unwrap_err(),
        "invalid old quantity \"a\\\"b\": not a quantity: a\"b"
    );
    assert_eq!(
        compare_quantities("2Gi", "big").unwrap_err(),
        "invalid new quantity \"big\": not a quantity: big"
    );
}

#[test]
fn test_validate_allows_normal_update() {
    let req = make_update_request(Some("mydb"), None, Some("mydb"), None);
    let resp = validate(req);
    assert!(resp.allowed);
    assert_eq!(resp.uid, "req-1");
    assert_eq!(resp.message, None);
}

#[test]
fn storage_size_decrease_is_denied_and_increase_admitted() {
    let resp = validate(make_size_change_request("10Gi", "2Gi"));
    assert!(!resp.allowed);
    assert_eq!(
        resp.message.as_deref(),
        Some("spec.filestore.storageSize: cannot decrease storage size from 10Gi to 2Gi")
    );
    assert!(validate(make_size_change_request("2Gi", "10Gi")).allowed);
    assert!(validate(make_size_change_request("", "10Gi")).allowed);
    assert!(!validate(make_size_change_request("2Gi", "lots")).allowed);
}

#[test]
fn test_validate_rejects_combined_with_nonstandard_cron_replicas() {
    let response = validate(make_layout_change_request(0, 0, OdooInstancePhase::Stopped, 2));
    assert!(!response.allowed);
    assert_eq!(
        response.message.as_deref(),
        Some("spec.cron.replicas must be 1 when spec.workloadLayout is combined")
    );
}

#[test]
fn test_validate_rejects_layout_change_before_stopped_boundary() {
    for request in [
        make_layout_change_request(1, 0, OdooInstancePhase::Running, 1),
        make_layout_change_request(0, 0, OdooInstancePhase::Running, 1),
        make_layout_change_request(0, 1, OdooInstancePhase::Stopped, 1),
    ] {
        let response = validate(request);
        assert!(!response.allowed);
        assert_eq!(
            response.message.as_deref(),
            Some("spec.workloadLayout can change only from a Stopped instance while old and new spec.replicas are 0")
        );
    }
}

#[test]
fn test_validate_allows_layout_change_while_stopped_at_zero() {
    assert!(validate(make_layout_change_request(0, 0, OdooInstancePhase::Stopped, 1)).allowed);
}

#[test]
fn test_validate_allows_cluster_change_when_running() {
    let req = make_update_request(None, Some("pg-cluster-a"), None, Some("pg-cluster-b"));
    let resp = validate(req);
    assert!(
        resp.allowed,
        "cluster change should be allowed (no phase = safe state)"
    );
}

#[test]
fn test_validate_rejects_cluster_change_when_restoring() {
    let req = make_cluster_change_request("pg-a", "pg-b", Some(OdooInstancePhase::Restoring));
    let resp = validate(req);
    assert!(
        !resp.allowed,
        "cluster change should be rejected when Restoring"
    );
    assert_eq!(
        resp.message.as_deref(),
        Some("spec.database.cluster: cannot change cluster while instance is in Restoring phase")
    );
}

#[test]
fn test_validate_rejects_cluster_change_when_migrating_db() {
    let req = make_cluster_change_request("pg-a", "pg-b", Some(OdooInstancePhase::MigratingDatabase));
    let resp = validate(req);
    assert!(
        !resp.allowed,
        "cluster change should be rejected when already migrating"
    );
}

#[test]
fn cluster_rollback_is_admitted_in_any_phase() {
    let mut req =
        make_cluster_change_request("pg-b", "pg-a", Some(OdooInstancePhase::MigratingDatabase));
    let old = req.old_object.as_mut().unwrap();
    old.status.as_mut().unwrap().migration_previous_cluster = Some("pg-a".to_string());
    assert!(validate(req).allowed);
}

#[test]
fn test_validate_allows_storage_class_change_when_running() {
    let req = make_sc_change_request("cephfs", "juicefs", Some(OdooInstancePhase::Running));
    let resp = validate(req);
    assert!(
        resp.allowed,
        "storageClass change should be allowed when Running"
    );
}

#[test]
fn test_validate_allows_storage_class_change_when_stopped() {
    let req = make_sc_change_request("cephfs", "juicefs", Some(OdooInstancePhase::Stopped));
    let resp = validate(req);
    assert!(
        resp.allowed,
        "storageClass change should be allowed when Stopped"
    );
}

#[test]
fn test_validate_rejects_storage_class_change_when_restoring() {
    let req = make_sc_change_request("cephfs", "juicefs", Some(OdooInstancePhase::Restoring));
    let resp = validate(req);
    assert!(
        !resp.allowed,
        "storageClass change should be rejected when Restoring"
    );
    assert_eq!(
        resp.message.as_deref(),
        Some("spec.filestore.storageClass: cannot change storage class while instance is in Restoring phase")
    );
}

#[test]
fn test_validate_rejects_storage_class_change_when_upgrading() {
    let req = make_sc_change_request("cephfs", "juicefs", Some(OdooInstancePhase::Upgrading));
    let resp = validate(req);
    assert!(
        !resp.allowed,
        "storageClass change should be rejected when Upgrading"
    );
}

#[test]
fn test_validate_rejects_storage_class_change_when_backing_up() {
    let req = make_sc_change_request("cephfs", "juicefs", Some(OdooInstancePhase::BackingUp));
    let resp = validate(req);
    assert!(
        !resp.allowed,
        "storageClass change should be rejected when BackingUp"
    );
}

#[test]
fn test_validate_rejects_storage_class_change_when_migrating() {
    let req = make_sc_change_request("cephfs", "juicefs", Some(OdooInstancePhase::MigratingFilestore));
    let resp = validate(req);
    assert!(
        !resp.allowed,
        "storageClass change should be rejected when already migrating"
    );
}

#[test]
fn test_validate_rejects_storage_class_change_when_uninitialized() {
    let req = make_sc_change_request("cephfs", "juicefs", Some(OdooInstancePhase::Uninitialized));
    let resp = validate(req);
    assert!(
        !resp.allowed,
        "storageClass change should be rejected when Uninitialized"
    );
}

#[test]
fn migrating_phases_block_both_kinds_of_moves() {
    for phase in [
        OdooInstancePhase::MigratingFilestore,
        OdooInstancePhase::FinalizingFilestoreMigration,
        OdooInstancePhase::MigratingDatabase,
        OdooInstancePhase::FinalizingDatabaseMigration,
    ] {
        assert!(!validate(make_sc_change_request("cephfs", "juicefs", Some(phase))).allowed);
        assert!(!validate(make_cluster_change_request("pg-a", "pg-b", Some(phase))).allowed);
    }
}

#[test]
fn test_validate_allows_rollback_during_migration() {
    // Reverting to the previous SC (stored in status) should be allowed
    // even during MigratingFilestore.
    let req = make_sc_change_request_with_prev(
        "juicefs",
        "cephfs",
        Some(OdooInstancePhase::MigratingFilestore),
        Some("cephfs"),
    );
    let resp = validate(req);
    assert!(
        resp.allowed,
        "rollback to previous storageClass should be allowed during migration"
    );
}

#[test]
fn test_validate_rejects_non_rollback_during_migration() {
    // Changing to a DIFFERENT SC (not the previous one) during migration
    // should still be rejected.
    let req = make_sc_change_request_with_prev(
        "juicefs",
        "longhorn",
        Some(OdooInstancePhase::MigratingFilestore),
        Some("cephfs"),
    );
    let resp = validate(req);
    assert!(
        !resp.allowed,
        "changing to a third storageClass during migration should be rejected"
    );
}

// ── master-password XOR ─────────────────────────────────────────────────────

/// An UPDATE whose new object carries the given master-password shape. The old
/// object is always the plaintext form, so only the new object's shape counts.
fn make_admin_password_request(plaintext: bool, secret_ref: bool) -> AdmissionRequest {
    let mut new = make_instance(None, None);
    new.spec.admin_password = plaintext.then_some("admin".to_string());
    new.spec.admin_password_secret_ref = secret_ref.then_some(AdminPasswordSecretRef {
        name: "pw".to_string(),
        key: "password".to_string(),
    });
    update(make_instance(None, None), new)
}

#[test]
fn test_admin_password_plaintext_only_is_allowed() {
    let resp = validate(make_admin_password_request(true, false));
    assert!(
        resp.allowed,
        "plaintext adminPassword alone must be allowed"
    );
}

#[test]
fn test_admin_password_secret_ref_only_is_allowed() {
    let resp = validate(make_admin_password_request(false, true));
    assert!(resp.allowed, "adminPasswordSecretRef alone must be allowed");
}

#[test]
fn test_admin_password_both_is_rejected() {
    let resp = validate(make_admin_password_request(true, true));
    assert!(
        !resp.allowed,
        "setting both adminPassword and adminPasswordSecretRef must be rejected"
    );
    assert_eq!(
        resp.message.as_deref(),
        Some("spec.adminPassword and spec.adminPasswordSecretRef are mutually exclusive — set exactly one")
    );
}

#[test]
fn test_admin_password_neither_is_rejected() {
    let resp = validate(make_admin_password_request(false, false));
    assert!(
        !resp.allowed,
        "setting neither adminPassword nor adminPasswordSecretRef must be rejected"
    );
    assert_eq!(
        resp.message.as_deref(),
        Some("one of spec.adminPassword or spec.adminPasswordSecretRef must be set")
    );
}

#[test]
fn test_admin_password_xor_precedes_other_rules() {
    // The XOR check runs before the early return for CREATE, so it cannot be
    // bypassed by omitting an old object.
    let violation = make_admin_password_request(true, true);
    assert!(!validate(violation).allowed);

    let mut create = make_admin_password_request(true, true);
    create.old_object = None;
    assert!(!validate(create).allowed);

    let mut both = make_size_change_request("10Gi", "2Gi");
    both.object.as_mut().unwrap().spec.admin_password = None;
    assert_eq!(
        validate(both).message.as_deref(),
        Some("one of spec.adminPassword or spec.adminPasswordSecretRef must be set")
    );
}

#[test]
fn creation_and_deletion() {
    let create = AdmissionRequest {
        uid: "c".to_string(),
        object: Some(make_instance(None, None)),
        old_object: None,
    };
    assert!(validate(create).allowed);
    let delete = AdmissionRequest {
        uid: "d".to_string(),
        object: None,
        old_object: Some(make_instance(None, None)),
    };
    let resp = validate(delete);
    assert!(resp.allowed);
    assert_eq!(resp.uid, "d");
}

#[test]
fn rules_on_the_object_alone() {
    let mut inst = make_instance(None, None);
    assert_eq!(admin_password_violation(&inst), None);
    assert_eq!(workload_layout_violation(&inst), None);
    inst.spec.cron.replicas = 3;
    assert_eq!(workload_layout_violation(&inst), None);
    inst.spec.workload_layout = WorkloadLayout::Combined;
    assert!(workload_layout_violation(&inst).is_some());
}

// ── staging sleep ───────────────────────────────────────────────────────────

fn sleep_spec() -> StagingSleepSpec {
    StagingSleepSpec {
        database_cluster: "db".to_string(),
        mode: Default::default(),
    }
}

#[test]
fn staging_sleep_disable_requires_awake_running_instance() {
    for (replicas, ready, allowed) in [(0, false, false), (1, false, false), (1, true, true)] {
        let mut req = make_layout_change_request(replicas, replicas, OdooInstancePhase::Running, 1);
        let old = req.old_object.as_mut().unwrap();
        old.spec.staging_sleep = Some(sleep_spec());
        old.status.as_mut().unwrap().ready = ready;
        req.object.as_mut().unwrap().spec.workload_layout = old.spec.workload_layout;
        assert_eq!(validate(req).allowed, allowed);
    }
}

#[test]
fn staging_sleep_requires_platform_staging_identity_not_odoo_environment() {
    let request = || {
        let mut req = make_update_request(None, None, None, None);
        let new = req.object.as_mut().unwrap();
        new.spec.environment = Environment::Production;
        new.spec.staging_sleep = Some(sleep_spec());
        new.spec.database = Some(DatabaseSpec {
            cluster: Some("db".to_string()),
            name: None,
            missing_policy: Default::default(),
            unaccent: true,
        });
        req
    };
    let resp = validate(request());
    assert!(!resp.allowed);
    assert_eq!(
        resp.message.as_deref(),
        Some("stagingSleep requires droggol.sh/instance-kind=staging and the same explicit database.cluster")
    );
    let mut labelled = request();
    labelled.object.as_mut().unwrap().metadata.labels =
        Some(StringMap::of("droggol.sh/instance-kind", "staging"));
    assert!(validate(labelled).allowed);

    let mut warm = request();
    let new = warm.object.as_mut().unwrap();
    new.metadata.labels = Some(StringMap::of("droggol.sh/instance-kind", "staging"));
    new.spec.staging_sleep.as_mut().unwrap().mode = StagingSleepMode::Warm;
    new.spec.workload_layout = WorkloadLayout::Combined;
    assert_eq!(
        validate(warm).message.as_deref(),
        Some("stagingSleep mode warm requires workloadLayout separate")
    );
}

#[test]
fn changing_the_sleep_mode_takes_an_awake_instance() {
    let sleepy = |mode: StagingSleepMode| {
        let mut inst = make_instance(None, Some("db"));
        inst.metadata.labels = Some(StringMap::of("droggol.sh/instance-kind", "staging"));
        inst.spec.staging_sleep = Some(StagingSleepSpec {
            database_cluster: "db".to_string(),
            mode,
        });
        inst
    };
    let same = update(
        sleepy(StagingSleepMode::Hibernate),
        sleepy(StagingSleepMode::Hibernate),
    );
    assert!(validate(same).allowed);
    let changed = update(
        sleepy(StagingSleepMode::Hibernate),
        sleepy(StagingSleepMode::Warm),
    );
    assert_eq!(
        validate(changed).message.as_deref(),
        Some("wake staging to Running with replicas > 0 before changing or removing stagingSleep")
    );
}
