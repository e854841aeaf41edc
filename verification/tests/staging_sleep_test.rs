//! The staging sleep guard, driven against a small cluster.

use odoo_operator::controller::helpers::controller_owner_ref;
use odoo_operator::controller::staging_sleep::{
    cnpg_ready, current, set_hibernation, sleep_requested, step, validate_cluster, validate_spec,
    Command, Event, GuardState, HibernationPatch, Outcome, PendingWork, StatusPatch, HIBERNATION,
    MAINTENANCE_ANNOTATION,
};
use odoo_operator::crd::odoo_instance::{
    CronSpec, DatabaseSpec, Environment, IngressSpec, OdooInstance, OdooInstancePhase,
    OdooInstanceSpec, OdooInstanceStatus, StagingSleepMode, StagingSleepSpec, WorkloadLayout,
};
use odoo_operator::k8s::apps::{Deployment, DeploymentSpec, DeploymentStatus};
use odoo_operator::k8s::cnpg::{ClusterCondition, CnpgCluster};
use odoo_operator::k8s::dynamic::DynamicObject;
use odoo_operator::k8s::meta::{ObjectMeta, OwnerReference};
use odoo_operator::k8s::pods::{Pod, PodCondition, PodStatus};
use odoo_operator::string_map::StringMap;

fn base_instance(name: &str) -> OdooInstance {
    OdooInstance {
        metadata: ObjectMeta {
            name: Some(name.to_string()),
            namespace: Some("tenant".to_string()),
            uid: Some("uid-1234".to_string()),
            ..Default::default()
        },
        spec: OdooInstanceSpec {
            image: None,
            image_pull_secret: None,
            admin_password: Some("admin".to_string()),
            admin_password_secret_ref: None,
            replicas: 1,
            workload_layout: WorkloadLayout::Separate,
            cron: CronSpec {
                replicas: 1,
                resources: None,
            },
            ingress: IngressSpec {
                hosts: vec!["test.example.com".to_string()],
                issuer: None,
                class: None,
                gateway_ref: None,
            },
            resources: None,
            filestore: None,
            config_options: None,
            database: None,
            init: Default::default(),
            environment: Default::default(),
            production_instance_ref: None,
            strategy: None,
            webhook: None,
            probes: None,
            affinity: None,
            tolerations: vec![],
            read_only_sql_access: None,
            staging_sleep: None,
            extra_env: vec![],
            extra_env_from: vec![],
            source_volume: None,
            custom_source_volume: None,
            monitoring: None,
            run_as_user: None,
            run_as_group: None,
        },
        status: None,
    }
}

fn map(pairs: &[(&str, &str)]) -> StringMap {
    let mut m = StringMap::new();
    for (k, v) in pairs {
        m.insert(k.to_string(), v.to_string());
    }
    m
}

fn instance() -> OdooInstance {
    let mut inst = base_instance("odoo");
    inst.metadata.uid = Some("instance-uid".to_string());
    inst.metadata.generation = Some(1);
    inst.metadata.resource_version = Some("10".to_string());
    inst.metadata.labels = Some(map(&[
        ("droggol.sh/instance-kind", "staging"),
        ("droggol.sh/server-id", "server"),
        ("droggol.sh/instance-id", "instance"),
    ]));
    inst.spec.environment = Environment::Production;
    inst.spec.replicas = 0;
    inst.spec.database = Some(DatabaseSpec {
        cluster: Some("odoo-db".to_string()),
        name: None,
        missing_policy: Default::default(),
        unaccent: true,
    });
    inst.spec.staging_sleep = Some(StagingSleepSpec {
        database_cluster: "odoo-db".to_string(),
        mode: Default::default(),
    });
    inst.status = Some(OdooInstanceStatus {
        phase: Some(OdooInstancePhase::Running),
        db_initialized: true,
        ready: true,
        ready_replicas: 1,
        ..Default::default()
    });
    inst
}

const READY: &str = r#"{
    "spec": {"instances": 1},
    "status": {"readyInstances": 1, "currentPrimary": "odoo-db-1",
               "conditions": [{"type": "Ready", "status": "True"}]}
}"#;

fn cluster_with(data: &str) -> CnpgCluster {
    CnpgCluster::read(DynamicObject {
        metadata: ObjectMeta {
            name: Some("odoo-db".to_string()),
            namespace: Some("tenant".to_string()),
            uid: Some("cluster-uid".to_string()),
            resource_version: Some("20".to_string()),
            labels: Some(map(&[
                ("droggol.sh/server-id", "server"),
                ("droggol.sh/instance-id", "instance"),
            ])),
            ..Default::default()
        },
        data: serde_json::from_str(data).unwrap(),
    })
}

fn cluster() -> CnpgCluster {
    cluster_with(READY)
}

fn hibernating_cluster() -> CnpgCluster {
    let mut db = cluster();
    db.metadata.annotations = Some(StringMap::of(HIBERNATION, "on"));
    db
}

struct Scenario {
    original: fn() -> OdooInstance,
    db: fn() -> CnpgCluster,
    initial_replicas: i32,
    passes: usize,
    unobserved_scale: bool,
    serving_pod: bool,
    pending_backup: bool,
    primary_unready: bool,
    foreign_deployment: bool,
    wake_on_read: Option<usize>,
    wake_on_hibernate: bool,
}

fn scenario() -> Scenario {
    Scenario {
        original: instance,
        db: cluster,
        initial_replicas: 0,
        passes: 1,
        unobserved_scale: false,
        serving_pod: false,
        pending_backup: false,
        primary_unready: false,
        foreign_deployment: false,
        wake_on_read: None,
        wake_on_hibernate: false,
    }
}

fn deployment(name: &str, replicas: i32, observed: i64, owner_uid: &str) -> Deployment {
    Deployment {
        metadata: ObjectMeta {
            name: Some(name.to_string()),
            namespace: Some("tenant".to_string()),
            uid: Some(format!("{name}-uid")),
            resource_version: Some("30".to_string()),
            generation: Some(1),
            owner_references: Some(vec![OwnerReference {
                api_version: "bemade.org/v1alpha1".to_string(),
                kind: "OdooInstance".to_string(),
                name: "odoo".to_string(),
                uid: owner_uid.to_string(),
                controller: Some(true),
                block_owner_deletion: None,
            }]),
            ..Default::default()
        },
        spec: Some(DeploymentSpec {
            replicas: Some(replicas),
            ..Default::default()
        }),
        status: Some(DeploymentStatus {
            observed_generation: Some(observed),
            replicas: Some(replicas),
            ready_replicas: None,
        }),
    }
}

fn primary(ready: bool) -> Pod {
    Pod {
        metadata: ObjectMeta {
            name: Some("odoo-db-1".to_string()),
            owner_references: Some(vec![OwnerReference {
                api_version: "postgresql.cnpg.io/v1".to_string(),
                kind: "Cluster".to_string(),
                name: "odoo-db".to_string(),
                uid: "cluster-uid".to_string(),
                controller: Some(true),
                block_owner_deletion: None,
            }]),
            ..Default::default()
        },
        status: Some(PodStatus {
            conditions: Some(vec![PodCondition {
                type_: "Ready".to_string(),
                status: if ready { "True" } else { "False" }.to_string(),
            }]),
        }),
    }
}

/// Runs the guard against a cluster and records every command it gave. The
/// outcome is that of the last pass.
fn run(s: Scenario) -> (Outcome, Vec<Command>) {
    let mut calls = Vec::new();
    let mut awake = false;
    let mut reads = 0;
    let mut replicas = [s.initial_replicas, s.initial_replicas];
    let mut annotation: Option<String> = (s.db)()
        .metadata
        .annotations
        .and_then(|a| a.get(HIBERNATION).cloned());
    let mut version = 20;
    let mut outcome = Outcome::Proceed;
    let db = |annotation: &Option<String>, version: i32| {
        let mut db = (s.db)();
        db.metadata.resource_version = Some(version.to_string());
        db.metadata.annotations = annotation.as_ref().map(|v| StringMap::of(HIBERNATION, v));
        db
    };
    for _ in 0..s.passes {
        let original = (s.original)();
        let mut state = GuardState::Start;
        let mut event = Event::Start;
        loop {
            let (next, command) = step(&original, state, event);
            state = next;
            event = match &command {
                Command::Finish(_) => Event::Start,
                Command::GetCluster(name) => {
                    assert_eq!(name, "odoo-db");
                    Event::Cluster(db(&annotation, version))
                }
                Command::ReadInstance => {
                    reads += 1;
                    if s.wake_on_read == Some(reads) {
                        awake = true;
                    }
                    let mut fresh = (s.original)();
                    if awake {
                        fresh.spec.replicas = 1;
                        fresh.metadata.generation = Some(2);
                    }
                    Event::Instance(fresh)
                }
                Command::GatherWork(_) => Event::Work(PendingWork {
                    backup_job: s.pending_backup,
                    ..Default::default()
                }),
                Command::GetPod(name) => {
                    assert_eq!(name, "odoo-db-1");
                    Event::Pod(Some(primary(!s.primary_unready)))
                }
                Command::GetDeployment(name) => {
                    let index = usize::from(name == "odoo-cron");
                    let owner = if s.foreign_deployment { "foreign" } else { "instance-uid" };
                    let observed = if s.unobserved_scale { 0 } else { 1 };
                    Event::Deployment(Some(deployment(name, replicas[index], observed, owner)))
                }
                Command::Scale(patch) => {
                    assert_eq!(patch.uid, format!("{}-uid", patch.name));
                    assert_eq!(patch.resource_version, "30");
                    assert_eq!(patch.replicas, 0);
                    replicas[usize::from(patch.name == "odoo-cron")] = 0;
                    Event::Scaled
                }
                Command::CountPods(selector) => {
                    assert_eq!(selector, "app in (odoo,odoo-cron)");
                    Event::PodCount(usize::from(s.serving_pod))
                }
                Command::Hibernate(patch) => {
                    assert_eq!(patch.uid, "cluster-uid");
                    assert_eq!(patch.resource_version, version.to_string());
                    annotation = Some(if patch.on { "on" } else { "off" }.to_string());
                    version += 1;
                    if s.wake_on_hibernate && patch.on {
                        awake = true;
                    }
                    Event::ClusterPatched(db(&annotation, version))
                }
                Command::PatchStatus(patch) => {
                    assert_eq!(patch.uid.as_deref(), Some("instance-uid"));
                    assert_eq!(patch.resource_version.as_deref(), Some("10"));
                    Event::StatusPatched
                }
            };
            if let Command::Finish(end) = command {
                outcome = end;
                break;
            }
            calls.push(command);
        }
        if matches!(outcome, Outcome::Fail(_)) {
            break;
        }
    }
    (outcome, calls)
}

fn mutations(calls: &[Command]) -> Vec<&Command> {
    calls
        .iter()
        .filter(|c| {
            matches!(
                c,
                Command::Scale(_) | Command::Hibernate(_) | Command::PatchStatus(_)
            )
        })
        .collect()
}

fn holds(outcome: &Outcome) -> bool {
    matches!(outcome, Outcome::Requeue | Outcome::AwaitChange)
}

#[test]
fn opted_out_instances_do_not_access_cnpg_or_change_behavior() {
    let (outcome, calls) = run(Scenario {
        original: || {
            let mut inst = instance();
            inst.spec.staging_sleep = None;
            inst
        },
        ..scenario()
    });
    assert_eq!(outcome, Outcome::Proceed);
    assert!(calls.is_empty());
}

#[test]
fn sleep_scales_both_owned_deployments_and_proves_pod_absence_before_hibernation() {
    let (outcome, calls) = run(Scenario {
        initial_replicas: 1,
        passes: 2,
        ..scenario()
    });
    assert!(holds(&outcome));
    let writes = mutations(&calls);
    assert_eq!(writes.len(), 4);
    assert!(matches!(writes[0], Command::Scale(p) if p.name == "odoo"));
    assert!(matches!(writes[1], Command::Scale(p) if p.name == "odoo-cron"));
    assert!(matches!(writes[2], Command::Hibernate(p) if p.on && p.name == "odoo-db"));
    assert!(matches!(
        writes[3],
        Command::PatchStatus(StatusPatch {
            phase: OdooInstancePhase::Stopped,
            ready: false,
            ready_replicas: 0,
            target_replicas: 0,
            observed_generation: 1,
            ..
        })
    ));
    let last_scale = calls
        .iter()
        .rposition(|c| matches!(c, Command::Scale(_)))
        .unwrap();
    let hibernate = calls
        .iter()
        .position(|c| matches!(c, Command::Hibernate(_)))
        .unwrap();
    assert!(calls[last_scale + 1..hibernate]
        .iter()
        .any(|c| matches!(c, Command::CountPods(_))));
}

#[test]
fn terminating_serving_pods_keep_database_awake() {
    let (outcome, calls) = run(Scenario {
        serving_pod: true,
        ..scenario()
    });
    assert_eq!(outcome, Outcome::Requeue);
    assert!(mutations(&calls)
        .iter()
        .all(|c| matches!(c, Command::Scale(_))));
}

#[test]
fn maintenance_at_zero_and_http_demand_wake_without_trusting_old_ready_status() {
    let maintenance: fn() -> OdooInstance = || {
        let mut inst = instance();
        inst.metadata.annotations = Some(StringMap::of(MAINTENANCE_ANNOTATION, "job-attempt"));
        inst
    };
    let demand: fn() -> OdooInstance = || {
        let mut inst = instance();
        inst.spec.replicas = 1;
        inst
    };
    for original in [maintenance, demand] {
        let (outcome, calls) = run(Scenario {
            original,
            db: hibernating_cluster,
            ..scenario()
        });
        assert_eq!(outcome, Outcome::Requeue);
        let writes = mutations(&calls);
        assert_eq!(writes.len(), 1);
        assert!(matches!(writes[0], Command::Hibernate(p) if !p.on));
    }
}

#[test]
fn only_ready_cnpg_and_its_ready_primary_allow_postgres_and_odoo_startup() {
    for primary_unready in [true, false] {
        let (outcome, calls) = run(Scenario {
            original: || {
                let mut inst = instance();
                inst.spec.replicas = 1;
                inst
            },
            primary_unready,
            ..scenario()
        });
        assert_eq!(outcome == Outcome::Proceed, !primary_unready);
        assert!(mutations(&calls).is_empty());
    }
}

#[test]
fn concurrent_http_wake_before_scale_prevents_sleep() {
    let (outcome, calls) = run(Scenario {
        wake_on_read: Some(2),
        ..scenario()
    });
    assert_eq!(outcome, Outcome::Requeue);
    assert!(mutations(&calls).is_empty());
    let (outcome, calls) = run(Scenario {
        wake_on_read: Some(2),
        initial_replicas: 1,
        ..scenario()
    });
    assert_eq!(outcome, Outcome::Requeue);
    assert!(mutations(&calls).is_empty());
}

#[test]
fn concurrent_http_wake_after_hibernate_is_immediately_compensated() {
    let (outcome, calls) = run(Scenario {
        wake_on_hibernate: true,
        ..scenario()
    });
    assert_eq!(outcome, Outcome::Requeue);
    let annotations: Vec<bool> = mutations(&calls)
        .iter()
        .filter_map(|c| match c {
            Command::Hibernate(p) => Some(p.on),
            _ => None,
        })
        .collect();
    assert_eq!(annotations, [true, false]);
    assert!(!calls.iter().any(|c| matches!(c, Command::PatchStatus(_))));
}

#[test]
fn mismatched_identity_replicas_and_foreign_deployments_fail_closed() {
    let identity: fn() -> CnpgCluster = || {
        let mut db = cluster();
        db.metadata.labels = Some(map(&[
            ("droggol.sh/server-id", "server"),
            ("droggol.sh/instance-id", "other"),
        ]));
        db
    };
    let replicas: fn() -> CnpgCluster =
        || cluster_with(r#"{"spec": {"instances": 2}, "status": {}}"#);
    let plain: fn() -> CnpgCluster = cluster;
    for (db, foreign, message) in [
        (identity, false, "stagingSleep CNPG identity mismatch: droggol.sh/instance-id"),
        (replicas, false, "stagingSleep requires a single-primary CNPG cluster"),
        (plain, true, "refusing to sleep foreign Deployment tenant/odoo"),
    ] {
        let (outcome, calls) = run(Scenario {
            db,
            foreign_deployment: foreign,
            ..scenario()
        });
        match outcome {
            Outcome::Fail(e) => assert_eq!(e.message(), message),
            other => panic!("expected a failure, got {other:?}"),
        }
        assert!(mutations(&calls).is_empty());
    }
}

#[test]
fn initialization_and_native_operation_phases_never_hibernate() {
    let phases: [fn() -> OdooInstance; 7] = [
        || in_phase(OdooInstancePhase::Provisioning),
        || in_phase(OdooInstancePhase::Initializing),
        || in_phase(OdooInstancePhase::Restoring),
        || in_phase(OdooInstancePhase::BackingUp),
        || in_phase(OdooInstancePhase::Upgrading),
        || in_phase(OdooInstancePhase::Error),
        || {
            let mut inst = instance();
            inst.status.as_mut().unwrap().db_initialized = false;
            inst
        },
    ];
    for original in phases {
        let (outcome, calls) = run(Scenario {
            original,
            ..scenario()
        });
        assert_eq!(outcome, Outcome::Proceed);
        assert!(mutations(&calls).is_empty());
    }
}

fn in_phase(phase: OdooInstancePhase) -> OdooInstance {
    let mut inst = instance();
    inst.status.as_mut().unwrap().phase = Some(phase);
    inst
}

#[test]
fn pending_native_backup_wakes_a_stopped_database() {
    let (outcome, calls) = run(Scenario {
        db: hibernating_cluster,
        pending_backup: true,
        ..scenario()
    });
    assert_eq!(outcome, Outcome::Requeue);
    let writes = mutations(&calls);
    assert_eq!(writes.len(), 1);
    assert!(matches!(writes[0], Command::Hibernate(p) if !p.on));
}

#[test]
fn empty_pod_list_is_insufficient_until_deployment_observes_zero() {
    let (outcome, calls) = run(Scenario {
        unobserved_scale: true,
        ..scenario()
    });
    assert_eq!(outcome, Outcome::Requeue);
    assert!(mutations(&calls).is_empty());
    assert!(!calls.iter().any(|c| matches!(c, Command::CountPods(_))));
}

#[test]
fn confirmed_hibernation_is_awaited_without_polling() {
    let (outcome, calls) = run(Scenario {
        original: || {
            let mut inst = in_phase(OdooInstancePhase::Stopped);
            let status = inst.status.as_mut().unwrap();
            status.ready = false;
            status.ready_replicas = 0;
            inst
        },
        db: || {
            let mut db = cluster_with(
                r#"{"spec": {"instances": 1},
                    "status": {"conditions": [{"type": "Ready", "status": "False"},
                                              {"type": "cnpg.io/hibernation", "status": "True"}]}}"#,
            );
            db.metadata.annotations = Some(StringMap::of(HIBERNATION, "on"));
            db
        },
        ..scenario()
    });
    assert_eq!(outcome, Outcome::AwaitChange);
    assert!(mutations(&calls).is_empty());
}

#[test]
fn a_cluster_without_identity_is_never_patched() {
    let mut db = cluster();
    assert_eq!(
        set_hibernation(&db, true).unwrap(),
        HibernationPatch {
            name: "odoo-db".to_string(),
            uid: "cluster-uid".to_string(),
            resource_version: "20".to_string(),
            on: true,
        }
    );
    db.metadata.resource_version = None;
    assert_eq!(
        set_hibernation(&db, true).unwrap_err().message(),
        "CNPG cluster has no resourceVersion"
    );
    db.metadata.uid = None;
    assert_eq!(
        set_hibernation(&db, false).unwrap_err().message(),
        "CNPG cluster has no UID"
    );
}

#[test]
fn an_unexpected_answer_ends_the_guard() {
    let inst = instance();
    for (state, event) in [
        (GuardState::Start, Event::Scaled),
        (GuardState::Cluster, Event::Start),
        (GuardState::Done, Event::Start),
        (GuardState::ReadyFence, Event::PodCount(0)),
    ] {
        let (next, command) = step(&inst, state, event);
        assert!(matches!(next, GuardState::Done));
        match command {
            Command::Finish(Outcome::Fail(e)) => assert_eq!(
                e.message(),
                "stagingSleep got an answer that it did not ask for"
            ),
            other => panic!("expected a failure, got {other:?}"),
        }
    }
}

#[test]
fn spec_is_validated() {
    assert!(validate_spec(&instance()).is_ok());
    let refused = |change: fn(&mut OdooInstance)| {
        let mut inst = instance();
        change(&mut inst);
        validate_spec(&inst).unwrap_err().message().to_string()
    };
    let identity =
        "stagingSleep requires droggol.sh/instance-kind=staging and the same explicit database.cluster";
    assert_eq!(refused(|i| i.metadata.labels = None), identity);
    assert_eq!(
        refused(|i| i.metadata.labels =
            Some(StringMap::of("droggol.sh/instance-kind", "production"))),
        identity
    );
    assert_eq!(refused(|i| i.spec.database = None), identity);
    assert_eq!(
        refused(|i| i.spec.database.as_mut().unwrap().cluster = Some("other".to_string())),
        identity
    );
    assert_eq!(
        refused(|i| {
            i.spec.staging_sleep.as_mut().unwrap().database_cluster = String::new();
            i.spec.database.as_mut().unwrap().cluster = Some(String::new());
        }),
        identity
    );
    assert_eq!(
        refused(|i| {
            i.spec.staging_sleep.as_mut().unwrap().mode = StagingSleepMode::Warm;
            i.spec.workload_layout = WorkloadLayout::Combined;
        }),
        "stagingSleep mode warm requires workloadLayout separate"
    );
    let (state, command) = step(
        &{
            let mut inst = instance();
            inst.metadata.labels = None;
            inst
        },
        GuardState::Start,
        Event::Start,
    );
    assert!(matches!(state, GuardState::Done));
    assert!(matches!(command, Command::Finish(Outcome::Fail(_))));
}

#[test]
fn cluster_is_validated() {
    let inst = instance();
    assert!(validate_cluster(&inst, &cluster()).is_ok());
    let message = |db: CnpgCluster| validate_cluster(&inst, &db).unwrap_err().message().to_string();
    let single = "stagingSleep requires a single-primary CNPG cluster";
    for data in [
        "{}",
        "null",
        r#"{"spec": {"instances": "1"}}"#,
        r#"{"spec": {"instances": 1, "replica": {"enabled": true}}}"#,
    ] {
        assert_eq!(message(cluster_with(data)), single, "{data}");
    }
    assert!(validate_cluster(
        &inst,
        &cluster_with(r#"{"spec": {"instances": 1, "replica": {"enabled": false}}}"#)
    )
    .is_ok());
    let mut db = cluster();
    db.metadata.labels = None;
    assert_eq!(
        message(db),
        "stagingSleep CNPG identity mismatch: droggol.sh/server-id"
    );
    let mut db = cluster();
    db.metadata.deletion_timestamp = Some("2026-09-24T10:00:00Z".to_string());
    assert_eq!(message(db), "stagingSleep CNPG cluster is being deleted");
    let mut anonymous = instance();
    anonymous.metadata.labels = Some(map(&[("droggol.sh/server-id", "")]));
    let mut db = cluster();
    db.metadata.labels = Some(map(&[("droggol.sh/server-id", "")]));
    assert_eq!(
        validate_cluster(&anonymous, &db).unwrap_err().message(),
        "stagingSleep CNPG identity mismatch: droggol.sh/server-id"
    );
}

#[test]
fn a_cluster_is_read_by_json_pointer() {
    let db = cluster();
    assert_eq!(db.instances, Some(1));
    assert_eq!(db.replica_enabled, None);
    assert_eq!(db.ready_instances, Some(1));
    assert_eq!(db.current_primary.as_deref(), Some("odoo-db-1"));
    let condition = |type_: Option<&str>, status: Option<&str>| ClusterCondition {
        type_: type_.map(str::to_string),
        status: status.map(str::to_string),
    };
    assert_eq!(
        db.conditions,
        Some(vec![condition(Some("Ready"), Some("True"))])
    );
    let odd = cluster_with(
        r#"{"spec": {"instances": 1.5, "replica": {"enabled": true}},
            "status": {"readyInstances": "1", "currentPrimary": 7,
                       "conditions": [{"type": "Ready", "status": true}, "Ready", ["type"]]}}"#,
    );
    assert_eq!(odd.instances, None);
    assert_eq!(odd.replica_enabled, Some(true));
    assert_eq!(odd.ready_instances, None);
    assert_eq!(odd.current_primary, None);
    assert_eq!(
        odd.conditions,
        Some(vec![
            condition(Some("Ready"), None),
            condition(None, None),
            condition(None, None)
        ])
    );
    assert_eq!(cluster_with("{}").conditions, None);
}

#[test]
fn readiness_is_read_from_the_conditions() {
    assert!(cnpg_ready(&cluster()));
    for data in [
        r#"{"status": {"readyInstances": 1}}"#,
        r#"{"status": {"readyInstances": 0, "conditions": [{"type": "Ready", "status": "True"}]}}"#,
        r#"{"status": {"readyInstances": 1, "conditions": []}}"#,
        r#"{"status": {"readyInstances": 1, "conditions": [{"type": "Ready", "status": "False"}]}}"#,
        r#"{"status": {"readyInstances": 1, "conditions": [{"type": "Ready"}, {"status": "True"}]}}"#,
        r#"{"status": {"readyInstances": 1, "conditions": [["type", "status"], "Ready"]}}"#,
        r#"{"status": {"readyInstances": 1, "conditions":
            [{"type": "Ready", "status": "True"}, {"type": "cnpg.io/hibernation", "status": "True"}]}}"#,
    ] {
        assert!(!cnpg_ready(&cluster_with(data)), "{data}");
    }
    // Conditions with two-digit places are found too.
    let mut conditions = vec![r#"{"type": "Other", "status": "True"}"#; 12];
    conditions.push(r#"{"type": "Ready", "status": "True"}"#);
    let data = format!(
        r#"{{"status": {{"readyInstances": 1, "conditions": [{}]}}}}"#,
        conditions.join(",")
    );
    assert!(cnpg_ready(&cluster_with(&data)));
}

#[test]
fn no_primary_or_a_foreign_primary_holds_the_instance() {
    let mut inst = instance();
    inst.spec.replicas = 1;
    let db = cluster_with(
        r#"{"spec": {"instances": 1}, "status": {"readyInstances": 1,
            "conditions": [{"type": "Ready", "status": "True"}]}}"#,
    );
    let mut fresh = instance();
    fresh.spec.replicas = 1;
    let (_, command) = step(&inst, GuardState::Fence(db), Event::Instance(fresh));
    assert!(matches!(command, Command::Finish(Outcome::Requeue)));
    let answer = |pod: Option<Pod>| step(&inst, GuardState::Primary(cluster()), Event::Pod(pod)).1;
    assert!(matches!(answer(Some(primary(true))), Command::ReadInstance));
    assert!(matches!(answer(None), Command::Finish(Outcome::Requeue)));
    let mut foreign = primary(true);
    foreign.metadata.owner_references.as_mut().unwrap()[0].uid = "other".to_string();
    assert!(matches!(answer(Some(foreign)), Command::Finish(Outcome::Requeue)));
    let mut terminating = primary(true);
    terminating.metadata.deletion_timestamp = Some("2026-09-24T10:00:00Z".to_string());
    assert!(matches!(
        answer(Some(terminating)),
        Command::Finish(Outcome::Requeue)
    ));
}

#[test]
fn absent_deployments_are_drained() {
    let inst = instance();
    let start = GuardState::Serving {
        cluster: cluster(),
        cron: false,
        draining: false,
    };
    let (state, command) = step(&inst, start, Event::Deployment(None));
    assert!(matches!(command, Command::GetDeployment(name) if name == "odoo-cron"));
    let (_, command) = step(&inst, state, Event::Deployment(None));
    assert!(matches!(command, Command::CountPods(_)));
    assert_eq!(controller_owner_ref(&inst).uid, "instance-uid");
}

#[test]
fn the_fence_sees_every_change_that_matters() {
    let original = instance();
    assert!(sleep_requested(&original));
    assert!(current(&original, &instance()));
    let changed = |change: fn(&mut OdooInstance)| {
        let mut fresh = instance();
        change(&mut fresh);
        current(&original, &fresh)
    };
    assert!(!changed(|i| i.metadata.uid = Some("other".to_string())));
    assert!(!changed(|i| i.metadata.generation = Some(2)));
    assert!(!changed(|i| i.metadata.labels = None));
    assert!(!changed(|i| i.metadata.annotations =
        Some(StringMap::of(MAINTENANCE_ANNOTATION, ""))));
    assert!(!changed(|i| i.status = None));
    assert!(!changed(|i| i.metadata.deletion_timestamp = Some("t".to_string())));
    assert!(changed(|i| i.metadata.resource_version = Some("11".to_string())));
    assert!(changed(|i| i.metadata.annotations = Some(StringMap::of("other", "x"))));
    assert!(changed(|i| i.status.as_mut().unwrap().ready = false));
}
