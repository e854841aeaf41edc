//! The objects that every instance needs.

use odoo_operator::controller::child_resources::conf::{
    conf_inputs, config_map_conf_for_hash, config_map_conf_inputs, odoo_conf_secret,
    odoo_config_map, secret_conf_for_hash,
};
use odoo_operator::controller::child_resources::defaults::{
    apply_defaults, CronPatch, FilestorePatch, IngressPatch, SpecPatch,
};
use odoo_operator::controller::child_resources::deployments::{
    cron_container, desired_cron_deployment, desired_deployment,
};
use odoo_operator::controller::child_resources::filestore::{
    current_size, filestore_plan, filestore_pvc, filestore_source, get_pvc_source,
    production_claim, FilestorePlan,
};
use odoo_operator::controller::child_resources::readonly::{
    deletion_settled, readonly_password, readonly_role_params, readonly_secret, readonly_sql_env,
    ro_secret_name,
};
use odoo_operator::controller::child_resources::routing::{
    desired_http_route, desired_ingress, desired_service, routing_plan, stale_kind, stale_routing,
    RoutingDeletion, RoutingKind, RoutingPlan,
};
use odoo_operator::controller::child_resources::scaling::{
    deployment_controlled_by, retirement_complete, retirement_deletion, retirement_step,
    scale_deployment_if_current, PropagationPolicy, RetirementStep, ScalePatch,
};
use odoo_operator::controller::child_resources::secrets::{
    admin_password_source, admin_secret_unreadable, adopted_user_secret, create_once,
    creates_postgres_role, generated_user_secret, image_pull_secret_name, mirrored_pull_secret,
    read_odoo_credentials, resolve_admin_password, AdminPasswordSource, CreateOnce, ReadOutcome,
};
use odoo_operator::controller::helpers::controller_owner_ref;
use odoo_operator::controller::states::stopped::{ServingScale, Stopped};
use odoo_operator::crd::odoo_instance::{
    AdminPasswordSecretRef, CronSpec, CustomSourceVolumeSpec, DatabaseSpec,
    DeploymentStrategyType, Environment, FilestoreSpec, GatewayRef, IngressSpec, MonitoringSpec,
    OdooInstance, OdooInstanceSpec, ProbesSpec, ProductionInstanceRef, ReadOnlySqlAccessSpec,
    RollingUpdateSpec, SourceVolumeMount, SourceVolumeSpec, StrategySpec, WorkloadLayout,
};
use odoo_operator::error::Error;
use odoo_operator::helpers::{db_name, OperatorDefaults};
use odoo_operator::k8s::apps::{Deployment, DeploymentSpec};
use odoo_operator::k8s::env::EnvVar;
use odoo_operator::k8s::meta::{ObjectMeta, OwnerReference};
use odoo_operator::k8s::pods::{Container, IntOrString, PodSpec, ResourceRequirements};
use odoo_operator::k8s::storage::{
    PersistentVolumeClaim, PersistentVolumeClaimSpec, Secret, TypedObjectReference,
    VolumeResourceRequirements,
};
use odoo_operator::postgres::PostgresClusterConfig;
use odoo_operator::string_map::{ByteMap, StringMap};

fn base_instance(name: &str) -> OdooInstance {
    OdooInstance {
        metadata: ObjectMeta {
            name: Some(name.to_string()),
            namespace: Some("tenant".to_string()),
            uid: Some("uid-1234".to_string()),
            ..Default::default()
        },
        spec: OdooInstanceSpec {
            image: None,
            image_pull_secret: None,
            admin_password: Some("admin".to_string()),
            admin_password_secret_ref: None,
            replicas: 1,
            workload_layout: WorkloadLayout::Separate,
            cron: CronSpec {
                replicas: 1,
                resources: None,
            },
            ingress: IngressSpec {
                hosts: vec!["test.example.com".to_string()],
                issuer: None,
                class: None,
                gateway_ref: None,
            },
            resources: None,
            filestore: None,
            config_options: None,
            database: None,
            init: Default::default(),
            environment: Default::default(),
            production_instance_ref: None,
            strategy: None,
            webhook: None,
            probes: None,
            affinity: None,
            tolerations: vec![],
            read_only_sql_access: None,
            staging_sleep: None,
            extra_env: vec![],
            extra_env_from: vec![],
            source_volume: None,
            custom_source_volume: None,
            monitoring: None,
            run_as_user: None,
            run_as_group: None,
        },
        status: None,
    }
}

fn defaults() -> OperatorDefaults {
    OperatorDefaults {
        odoo_image: "odoo:18.0".to_string(),
        storage_class: "standard".to_string(),
        storage_size: "2Gi".to_string(),
        ..Default::default()
    }
}

fn owner() -> OwnerReference {
    controller_owner_ref(&base_instance("prod"))
}

fn pg(adopted: bool) -> PostgresClusterConfig {
    PostgresClusterConfig {
        host: "pg.example.com".to_string(),
        port: 5433,
        admin_user: "app".to_string(),
        admin_password: "s3cret".to_string(),
        default: false,
        adopted,
    }
}

fn data(pairs: &[(&str, &[u8])]) -> ByteMap {
    let mut m = ByteMap::new();
    for (k, v) in pairs {
        m.insert(k.to_string(), v.to_vec());
    }
    m
}

fn bytes_at(m: &Option<ByteMap>, key: &str) -> Vec<u8> {
    m.as_ref().unwrap().get(key).unwrap().clone()
}

fn web(instance: &OdooInstance, current: Option<&Deployment>) -> Deployment {
    desired_deployment("tenant", "prod", instance, &defaults(), &owner(), current, "hash")
}

fn pod(deployment: Deployment) -> PodSpec {
    deployment.spec.unwrap().template.spec.unwrap()
}

fn names(containers: &[Container]) -> Vec<String> {
    containers.iter().map(|c| c.name.clone()).collect()
}

fn sourced(mut inst: OdooInstance) -> OdooInstance {
    inst.spec.source_volume = Some(SourceVolumeSpec {
        claim_name: "test-src-artifacts".to_string(),
        mounts: vec![SourceVolumeMount {
            mount_path: "/source-artifacts".to_string(),
            sub_path: None,
            read_only: true,
        }],
        odoo_bin: "/usr/local/bin/dsh-source-artifact-bootstrap".to_string(),
    });
    inst
}

fn monitored(mut inst: OdooInstance) -> OdooInstance {
    inst.spec.environment = Environment::Production;
    inst.spec.monitoring = Some(MonitoringSpec {
        exporter_image: format!("prom/statsd-exporter:v0.29.0@sha256:{}", "a".repeat(64)),
        config_map_name: "monitoring-config-abcd".to_string(),
        resources: None,
    });
    inst
}

// ── Deployments ─────────────────────────────────────────────────────────────

#[test]
fn only_combined_source_cron_gets_a_longer_trusted_startup_probe() {
    for (layout, is_sourced, failures) in [
        (WorkloadLayout::Combined, true, 60),
        (WorkloadLayout::Separate, true, 30),
        (WorkloadLayout::Combined, false, 30),
        (WorkloadLayout::Separate, false, 30),
    ] {
        let mut instance = base_instance("test");
        if is_sourced {
            instance = sourced(instance);
        }
        instance.spec.workload_layout = layout;
        let cron = cron_container("test", "odoo", &instance);
        let startup = cron.startup_probe.unwrap();
        assert_eq!(startup.failure_threshold, Some(failures));
        assert_eq!(startup.period_seconds, Some(10));
        assert_eq!(startup.timeout_seconds, Some(5));
        assert_eq!(startup.initial_delay_seconds, Some(5));
        assert_eq!(
            startup.exec_action.unwrap().command.unwrap(),
            [
                "/usr/bin/python3",
                "-I",
                "-S",
                "/usr/local/bin/dsh-cron-probe",
                "startup"
            ]
        );
        assert_eq!(cron.liveness_probe.unwrap().failure_threshold, Some(3));
        assert!(cron.readiness_probe.is_none());
    }
}

#[test]
fn web_deployment_of_a_plain_instance() {
    let inst = base_instance("prod");
    let dep = web(&inst, None);
    assert_eq!(dep.metadata.name.as_deref(), Some("prod"));
    assert_eq!(dep.metadata.namespace.as_deref(), Some("tenant"));
    assert!(deployment_controlled_by(&dep, &owner()));
    let spec = dep.spec.unwrap();
    assert_eq!(spec.replicas, Some(0));
    assert_eq!(spec.selector.match_labels, Some(StringMap::of("app", "prod")));
    assert_eq!(spec.strategy.unwrap().type_.as_deref(), Some("Recreate"));
    let meta = spec.template.metadata.unwrap();
    assert_eq!(meta.labels.as_ref().unwrap().get("app").unwrap(), "prod");
    assert_eq!(
        meta.labels.as_ref().unwrap().get("bemade.org/environment").unwrap(),
        "staging"
    );
    assert_eq!(
        meta.annotations,
        Some(StringMap::of("bemade.org/odoo-conf-hash", "hash"))
    );
    let pod = spec.template.spec.unwrap();
    assert!(pod.tolerations.is_none() && pod.affinity.is_none());
    assert_eq!(names(&pod.containers), vec!["odoo-prod"]);
    let c = &pod.containers[0];
    assert_eq!(c.image.as_deref(), Some("odoo:18.0"));
    assert_eq!(c.image_pull_policy.as_deref(), Some("IfNotPresent"));
    assert_eq!(
        c.command.as_ref().unwrap(),
        &["/entrypoint.sh", "odoo", "--max-cron-threads", "0"]
    );
    let ports: Vec<(Option<&str>, i32)> = c
        .ports
        .as_ref()
        .unwrap()
        .iter()
        .map(|p| (p.name.as_deref(), p.container_port))
        .collect();
    assert_eq!(ports, vec![(Some("http"), 8069), (Some("websocket"), 8072)]);
    assert_eq!(c.env.as_ref().unwrap()[0].value.as_deref(), Some("odoo_uid-1234"));
    let startup = c.startup_probe.as_ref().unwrap();
    assert_eq!(startup.http_get.as_ref().unwrap().path.as_deref(), Some("/web/health"));
    assert_eq!(startup.http_get.as_ref().unwrap().port, IntOrString::Int(8069));
    assert_eq!(startup.failure_threshold, Some(30));
    let liveness = c.liveness_probe.as_ref().unwrap();
    assert_eq!(
        (liveness.initial_delay_seconds, liveness.period_seconds, liveness.failure_threshold),
        (None, Some(15), Some(3))
    );
    let readiness = c.readiness_probe.as_ref().unwrap();
    assert_eq!(
        (readiness.period_seconds, readiness.timeout_seconds, readiness.failure_threshold),
        (Some(10), Some(5), Some(3))
    );
}

#[test]
fn applying_keeps_the_replicas_that_are_there() {
    let inst = base_instance("prod");
    let running = Deployment {
        spec: Some(DeploymentSpec {
            replicas: Some(3),
            ..Default::default()
        }),
        ..Default::default()
    };
    assert_eq!(web(&inst, Some(&running)).spec.unwrap().replicas, Some(3));
    assert_eq!(
        web(&inst, Some(&Deployment::default())).spec.unwrap().replicas,
        Some(0)
    );
    let cron = desired_cron_deployment(
        "tenant", "prod", &inst, &defaults(), &owner(), Some(&running), "hash",
    );
    assert_eq!(cron.spec.unwrap().replicas, Some(3));
}

#[test]
fn spec_fields_reach_the_web_pod() {
    let mut inst = base_instance("prod");
    inst.spec.image = Some("mine:1".to_string());
    inst.spec.probes = Some(ProbesSpec {
        startup_path: "/s".to_string(),
        liveness_path: "/l".to_string(),
        readiness_path: "/r".to_string(),
    });
    inst.spec.strategy = Some(StrategySpec {
        strategy_type: DeploymentStrategyType::RollingUpdate,
        rolling_update: Some(RollingUpdateSpec {
            max_unavailable: "25%".to_string(),
            max_surge: "50%".to_string(),
        }),
    });
    inst.spec.tolerations = vec![Default::default()];
    inst.spec.affinity = Some(Default::default());
    inst.spec.resources = Some(ResourceRequirements {
        limits: Some(StringMap::of("cpu", "1")),
        ..Default::default()
    });
    inst.spec.read_only_sql_access = Some(ReadOnlySqlAccessSpec {
        enabled: true,
        connection_limit: 5,
    });
    inst.spec.database = Some(DatabaseSpec {
        cluster: None,
        name: Some("mydb".to_string()),
        missing_policy: Default::default(),
        unaccent: true,
    });
    assert_eq!(db_name(&inst), "mydb");
    let dep = web(&inst, None);
    let strategy = dep.spec.as_ref().unwrap().strategy.as_ref().unwrap();
    assert_eq!(strategy.type_.as_deref(), Some("RollingUpdate"));
    let update = strategy.rolling_update.as_ref().unwrap();
    assert_eq!(update.max_unavailable, Some(IntOrString::Text("25%".to_string())));
    assert_eq!(update.max_surge, Some(IntOrString::Text("50%".to_string())));
    let pod = pod(dep);
    assert_eq!(pod.tolerations.unwrap().len(), 1);
    assert!(pod.affinity.is_some());
    let c = &pod.containers[0];
    assert_eq!(c.image.as_deref(), Some("mine:1"));
    let path = |p: &Option<odoo_operator::k8s::pods::Probe>| {
        p.as_ref().unwrap().http_get.as_ref().unwrap().path.clone().unwrap()
    };
    assert_eq!(path(&c.startup_probe), "/s");
    assert_eq!(path(&c.liveness_probe), "/l");
    assert_eq!(path(&c.readiness_probe), "/r");
    assert_eq!(c.resources, inst.spec.resources);
    let env: Vec<&str> = c.env.as_ref().unwrap().iter().map(|e| e.name.as_str()).collect();
    assert_eq!(env, vec!["PGDATABASE", "ODOO_RO_DB_USER", "ODOO_RO_DB_PASSWORD"]);
    assert_eq!(c.env.as_ref().unwrap()[0].value.as_deref(), Some("mydb"));
}

#[test]
fn a_count_of_pods_is_a_number_and_a_share_a_text() {
    for (given, expected) in [
        ("1", IntOrString::Int(1)),
        ("0", IntOrString::Int(0)),
        ("2147483647", IntOrString::Int(i32::MAX)),
        ("2147483648", IntOrString::Text("2147483648".to_string())),
        ("25%", IntOrString::Text("25%".to_string())),
        ("", IntOrString::Text(String::new())),
        ("-1", IntOrString::Text("-1".to_string())),
    ] {
        let mut inst = base_instance("prod");
        inst.spec.strategy = Some(StrategySpec {
            strategy_type: DeploymentStrategyType::RollingUpdate,
            rolling_update: Some(RollingUpdateSpec {
                max_unavailable: given.to_string(),
                max_surge: given.to_string(),
            }),
        });
        let strategy = web(&inst, None).spec.unwrap().strategy.unwrap();
        let update = strategy.rolling_update.unwrap();
        assert_eq!(update.max_unavailable.as_ref(), Some(&expected));
        assert_eq!(update.max_surge, Some(expected));
    }
}

#[test]
fn recreate_carries_no_rolling_update_parameters() {
    let mut inst = base_instance("prod");
    inst.spec.strategy = Some(StrategySpec {
        strategy_type: DeploymentStrategyType::Recreate,
        rolling_update: Some(RollingUpdateSpec {
            max_unavailable: "25%".to_string(),
            max_surge: "25%".to_string(),
        }),
    });
    let strategy = web(&inst, None).spec.unwrap().strategy.unwrap();
    assert_eq!(strategy.type_.as_deref(), Some("Recreate"));
    assert!(strategy.rolling_update.is_none());
}

#[test]
fn monitoring_reconciles_web_only_and_can_be_removed() {
    let mut inst = monitored(base_instance("prod"));
    inst.metadata.labels = Some(StringMap::of("droggol.sh/instance-id", "instance-ulid"));
    let dep = web(&inst, None);
    let spec = dep.spec.as_ref().unwrap();
    assert_eq!(spec.selector.match_labels.as_ref().unwrap().entries().len(), 1);
    let labels = spec.template.metadata.as_ref().unwrap().labels.as_ref().unwrap();
    assert_eq!(labels.get("droggol.sh/instance-id").unwrap(), "instance-ulid");
    assert_eq!(pod(dep).containers.len(), 2);
    let cron = pod(desired_cron_deployment(
        "tenant", "prod", &inst, &defaults(), &owner(), None, "hash",
    ));
    assert_eq!(cron.containers.len(), 1);
    assert!(!cron.containers[0]
        .env
        .as_ref()
        .unwrap()
        .iter()
        .any(|env| env.name.starts_with("DSH_MONITORING_")));
    assert!(!cron
        .volumes
        .unwrap()
        .iter()
        .any(|volume| volume.name.starts_with("droggol-monitoring")));
    assert!(!desired_service("tenant", "prod", &owner())
        .spec
        .unwrap()
        .ports
        .unwrap()
        .iter()
        .any(|port| port.port == 9102));
    inst.spec.monitoring = None;
    let plain = pod(web(&inst, None));
    assert_eq!(plain.containers.len(), 1);
    assert!(!plain
        .volumes
        .unwrap()
        .iter()
        .any(|volume| volume.name.starts_with("droggol-monitoring")));
}

#[test]
fn combined_layout_puts_web_cron_and_exporter_in_one_pod() {
    let mut inst = monitored(sourced(base_instance("prod")));
    inst.spec.workload_layout = WorkloadLayout::Combined;
    inst.spec.custom_source_volume = Some(CustomSourceVolumeSpec {
        claim_name: "custom-source".to_string(),
        mounts: vec![SourceVolumeMount {
            mount_path: "/custom".to_string(),
            sub_path: None,
            read_only: true,
        }],
    });
    inst.spec.cron.resources = Some(ResourceRequirements {
        limits: Some(StringMap::of("cpu", "350m")),
        ..Default::default()
    });
    inst.spec.run_as_user = Some(1000);
    inst.spec.run_as_group = Some(1000);
    inst.spec.extra_env = vec![EnvVar {
        name: "PYTHONPATH".to_string(),
        value: Some("/build".to_string()),
        ..Default::default()
    }];
    let pod = pod(web(&inst, None));
    assert_eq!(
        names(&pod.containers),
        vec!["odoo-prod", "odoo-cron-prod", "odoo-statsd-exporter"]
    );
    let mut volume_names: Vec<&str> = pod
        .volumes
        .as_ref()
        .unwrap()
        .iter()
        .map(|v| v.name.as_str())
        .collect();
    assert_eq!(
        volume_names,
        vec![
            "filestore",
            "odoo-conf",
            "odoo-source",
            "odoo-custom-source",
            "droggol-monitoring-state",
            "droggol-monitoring-config",
        ]
    );
    volume_names.sort();
    volume_names.dedup();
    assert_eq!(volume_names.len(), 6);
    let sc = pod.security_context.as_ref().unwrap();
    assert_eq!((sc.run_as_user, sc.run_as_group), (Some(1000), Some(1000)));
    let web = &pod.containers[0];
    let cron = &pod.containers[1];
    assert!(web
        .command
        .as_ref()
        .unwrap()
        .ends_with(&["--max-cron-threads".to_string(), "0".to_string()]));
    assert!(cron.command.as_ref().unwrap().ends_with(&[
        "--workers".to_string(),
        "0".to_string(),
        "--no-http".to_string(),
    ]));
    assert_eq!(cron.resources, inst.spec.cron.resources);
    assert!(cron.readiness_probe.is_none() && cron.ports.is_none());
    let has = |c: &Container, name: &str| c.env.as_ref().unwrap().iter().any(|e| e.name == name);
    assert!(has(web, "DSH_MONITORING_ENABLED") && has(web, "PYTHONPATH"));
    assert!(!has(cron, "DSH_MONITORING_ENABLED") && has(cron, "PYTHONPATH"));
    for container in [web, cron] {
        let mounts = container.volume_mounts.as_ref().unwrap();
        assert!(mounts.iter().any(|m| m.name == "odoo-source"
            && m.mount_path == "/source-artifacts"
            && m.read_only == Some(true)));
        assert!(mounts.iter().any(|m| m.name == "odoo-custom-source"
            && m.mount_path == "/custom"
            && m.read_only == Some(true)));
        assert!(!mounts.iter().any(|m| m.mount_path == "/work"));
    }
}

#[test]
fn reconcile_creates_child_resources() {
    let inst = base_instance("test-child");
    let dep = desired_cron_deployment(
        "tenant", "test-child", &inst, &defaults(), &owner(), None, "hash",
    );
    assert_eq!(dep.metadata.name.as_deref(), Some("test-child-cron"));
    let spec = dep.spec.as_ref().unwrap();
    assert_eq!(
        spec.selector.match_labels,
        Some(StringMap::of("app", "test-child-cron"))
    );
    let pod = pod(dep);
    let container = &pod.containers[0];
    assert_eq!(container.name, "odoo-cron-test-child");
    let startup = container.startup_probe.as_ref().unwrap();
    assert_eq!(startup.failure_threshold, Some(30));
    let liveness = container.liveness_probe.as_ref().unwrap();
    assert_eq!(
        liveness.exec_action.as_ref().unwrap().command.as_ref().unwrap(),
        &[
            "/usr/bin/python3",
            "-I",
            "-S",
            "/usr/local/bin/dsh-cron-probe",
            "liveness"
        ]
    );
    assert_eq!(liveness.initial_delay_seconds, Some(300));
    assert_eq!(liveness.period_seconds, Some(30));
    assert_eq!(liveness.timeout_seconds, Some(5));
    assert_eq!(liveness.failure_threshold, Some(3));
    assert!(
        container
            .env
            .as_ref()
            .unwrap()
            .iter()
            .all(|var| var.name != "PYTHONPATH"),
        "cron probes must not depend on a pod-wide PYTHONPATH"
    );
    assert!(matches!(
        routing_plan("tenant", "test-child", &inst, &owner()),
        RoutingPlan::Ingress(_)
    ));
}

// ── Defaults ────────────────────────────────────────────────────────────────

#[test]
fn defaults_fill_in_what_is_unset() {
    let inst = base_instance("prod");
    let patch = apply_defaults(&inst, &OperatorDefaults::default()).unwrap();
    assert_eq!(
        patch,
        SpecPatch {
            image: Some("odoo:18.0".to_string()),
            filestore: Some(FilestorePatch {
                storage_class: Some("standard".to_string()),
                storage_size: Some("2Gi".to_string()),
            }),
            ..Default::default()
        }
    );

    let full = OperatorDefaults {
        odoo_image: "odoo:17".to_string(),
        storage_class: "ceph".to_string(),
        storage_size: "5Gi".to_string(),
        ingress_class: "nginx".to_string(),
        ingress_issuer: "letsencrypt".to_string(),
        gateway_ref_name: "gw".to_string(),
        gateway_ref_namespace: "istio".to_string(),
        resources: Some(ResourceRequirements {
            limits: Some(StringMap::of("cpu", "2")),
            ..Default::default()
        }),
        affinity: Some(Default::default()),
        tolerations: vec![Default::default()],
        ..Default::default()
    };
    let patch = apply_defaults(&inst, &full).unwrap();
    let resources = || ResourceRequirements {
        limits: Some(StringMap::of("cpu", "2")),
        ..Default::default()
    };
    assert_eq!(
        patch,
        SpecPatch {
            image: Some("odoo:17".to_string()),
            filestore: Some(FilestorePatch {
                storage_class: Some("ceph".to_string()),
                storage_size: Some("5Gi".to_string()),
            }),
            ingress: Some(IngressPatch {
                issuer: Some("letsencrypt".to_string()),
                class: Some("nginx".to_string()),
                gateway_ref: Some(GatewayRef {
                    name: "gw".to_string(),
                    namespace: "istio".to_string(),
                }),
            }),
            resources: Some(resources()),
            affinity: Some(Default::default()),
            tolerations: Some(vec![Default::default()]),
            cron: Some(CronPatch {
                resources: Some(resources()),
            }),
        }
    );
}

#[test]
fn cron_resources_default_to_those_of_web() {
    let cpu = |amount: &str| {
        Some(ResourceRequirements {
            limits: Some(StringMap::of("cpu", amount)),
            ..Default::default()
        })
    };
    let mut inst = base_instance("prod");
    inst.spec.resources = cpu("1");
    // What the spec says for web goes before the operator's default.
    let operator = OperatorDefaults {
        resources: cpu("2"),
        ..defaults()
    };
    let patch = apply_defaults(&inst, &operator).unwrap();
    assert_eq!(patch.resources, None);
    assert_eq!(patch.cron, Some(CronPatch { resources: cpu("1") }));
    // It holds without an operator default too.
    let patch = apply_defaults(&inst, &defaults()).unwrap();
    assert_eq!(patch.cron, Some(CronPatch { resources: cpu("1") }));
    // What the spec says for cron stays.
    inst.spec.cron.resources = cpu("3");
    assert_eq!(apply_defaults(&inst, &operator).unwrap().cron, None);
    inst.spec.resources = None;
    inst.spec.cron.resources = None;
    let patch = apply_defaults(&inst, &operator).unwrap();
    assert_eq!(patch.resources, cpu("2"));
    assert_eq!(patch.cron, Some(CronPatch { resources: cpu("2") }));
}

#[test]
fn defaults_leave_alone_what_is_set() {
    let mut inst = base_instance("prod");
    inst.spec.image = Some("mine".to_string());
    inst.spec.filestore = Some(FilestoreSpec {
        storage_size: Some("1Gi".to_string()),
        storage_class: Some("mine".to_string()),
    });
    assert!(apply_defaults(&inst, &defaults()).is_none());
    // A Gateway takes both halves.
    let half = OperatorDefaults {
        gateway_ref_name: "gw".to_string(),
        ..defaults()
    };
    assert!(apply_defaults(&inst, &half).is_none());
    inst.spec.filestore.as_mut().unwrap().storage_size = None;
    assert_eq!(
        apply_defaults(&inst, &defaults()).unwrap().filestore,
        Some(FilestorePatch {
            storage_class: None,
            storage_size: Some("2Gi".to_string()),
        })
    );
}

// ── Secrets ─────────────────────────────────────────────────────────────────

#[test]
fn image_pull_secret_copied_to_namespace() {
    let mut inst = base_instance("test-pull");
    assert!(image_pull_secret_name(&inst).is_none());
    inst.spec.image_pull_secret = Some(String::new());
    assert!(image_pull_secret_name(&inst).is_none());
    inst.spec.image_pull_secret = Some("test-registry".to_string());
    let name = image_pull_secret_name(&inst).unwrap();
    assert_eq!(name, "test-registry");
    let source = Secret {
        metadata: ObjectMeta {
            name: Some(name.clone()),
            namespace: Some("default".to_string()),
            uid: Some("u".to_string()),
            ..Default::default()
        },
        data: Some(data(&[(".dockerconfigjson", b"{}")])),
        type_: Some("kubernetes.io/dockerconfigjson".to_string()),
        ..Default::default()
    };
    let copy = mirrored_pull_secret("tenant", &name, source);
    assert_eq!(copy.type_.as_deref(), Some("kubernetes.io/dockerconfigjson"));
    assert_eq!(copy.metadata.namespace.as_deref(), Some("tenant"));
    assert!(copy.metadata.owner_references.is_none() && copy.metadata.uid.is_none());
    assert_eq!(bytes_at(&copy.data, ".dockerconfigjson"), b"{}");
}

#[test]
fn adopted_credentials_are_mirrored_and_read_back() {
    assert!(adopted_user_secret("tenant", "prod", &owner(), &pg(false)).is_none());
    assert!(creates_postgres_role(&pg(false)));
    assert!(!creates_postgres_role(&pg(true)));
    let secret = adopted_user_secret("tenant", "prod", &owner(), &pg(true)).unwrap();
    assert_eq!(secret.metadata.name.as_deref(), Some("prod-odoo-user"));
    assert_eq!(bytes_at(&secret.data, "username"), b"app");
    assert_eq!(
        read_odoo_credentials(&secret, "odoo.tenant.prod"),
        ("app".to_string(), "s3cret".to_string())
    );
}

#[test]
fn generated_credentials_are_texts_and_created_once() {
    let secret = generated_user_secret("tenant", "prod", &owner(), "u", "p");
    assert!(secret.data.is_none());
    let texts = secret.string_data.unwrap();
    assert_eq!(texts.get("username").unwrap(), "u");
    assert_eq!(texts.get("password").unwrap(), "p");
    assert_eq!(secret.metadata.owner_references.unwrap(), vec![owner()]);
    assert_eq!(create_once(ReadOutcome::Found), CreateOnce::Keep);
    assert_eq!(create_once(ReadOutcome::Refused(404)), CreateOnce::Create);
    assert_eq!(create_once(ReadOutcome::Refused(403)), CreateOnce::Fail);
    assert_eq!(create_once(ReadOutcome::Unreachable), CreateOnce::Fail);
}

#[test]
fn credentials_fall_back_to_the_convention() {
    let only_password = Secret {
        data: Some(data(&[("password", b"pw")])),
        ..Default::default()
    };
    assert_eq!(
        read_odoo_credentials(&only_password, "conv"),
        ("conv".to_string(), "pw".to_string())
    );
    assert_eq!(
        read_odoo_credentials(&Secret::default(), "conv"),
        ("conv".to_string(), String::new())
    );
    let invalid = Secret {
        data: Some(data(&[("username", b""), ("password", &[0x66, 0xff, 0x67])])),
        ..Default::default()
    };
    assert_eq!(
        read_odoo_credentials(&invalid, "conv"),
        ("conv".to_string(), "f\u{fffd}g".to_string())
    );
}

#[test]
fn master_password_comes_from_either_source() {
    let mut inst = base_instance("prod");
    assert!(matches!(
        admin_password_source(&inst),
        Ok(AdminPasswordSource::Plain(p)) if p == "admin"
    ));
    inst.spec.admin_password = None;
    assert_eq!(
        admin_password_source(&inst).unwrap_err(),
        Error::Config("neither spec.adminPassword nor spec.adminPasswordSecretRef is set".to_string())
    );
    inst.spec.admin_password_secret_ref = Some(AdminPasswordSecretRef {
        name: "pw \"x\"".to_string(),
        key: "password".to_string(),
    });
    let secret_ref = match admin_password_source(&inst).unwrap() {
        AdminPasswordSource::Secret(r) => r,
        AdminPasswordSource::Plain(_) => panic!("expected a Secret"),
    };
    let mut secret = Secret {
        string_data: Some(StringMap::of("password", "texts")),
        ..Default::default()
    };
    assert_eq!(resolve_admin_password(secret_ref, &secret).unwrap(), "texts");
    secret.data = Some(data(&[("password", "déjà".as_bytes())]));
    assert_eq!(resolve_admin_password(secret_ref, &secret).unwrap(), "déjà");
    assert_eq!(
        resolve_admin_password(secret_ref, &Secret::default()).unwrap_err().message(),
        "secret \"pw \\\"x\\\"\" has no key \"password\" (spec.adminPasswordSecretRef)"
    );
    assert_eq!(
        admin_secret_unreadable(secret_ref, "gone").message(),
        "reading spec.adminPasswordSecretRef secret \"pw \\\"x\\\"\": gone"
    );
}

// ── odoo.conf ───────────────────────────────────────────────────────────────

#[test]
fn plaintext_conf_lives_in_the_config_map() {
    let inst = base_instance("prod");
    let inputs = conf_inputs(&inst, &pg(false), "u", "p", "master");
    assert_eq!(inputs.admin_password, "master");
    assert_eq!(inputs.db, "odoo_uid-1234");
    assert_eq!((inputs.host.as_str(), inputs.port), ("pg.example.com", 5433));
    assert!(inputs.prepend_std_addons);
    assert_eq!(
        config_map_conf_inputs(&inst, &pg(false), "u", "p", "master"),
        inputs
    );
    let cm = odoo_config_map("tenant", "prod", &inst, &pg(false), &owner(), "u", "p", "CONF");
    assert_eq!(cm.metadata.name.as_deref(), Some("prod-odoo-conf"));
    let d = cm.data.as_ref().unwrap();
    for (k, v) in [
        ("odoo.conf", "CONF"),
        ("db_host", "pg.example.com"),
        ("db_port", "5433"),
        ("db_name", "odoo_uid-1234"),
        ("db_user", "u"),
        ("db_password", "p"),
    ] {
        assert_eq!(d.get(k).unwrap(), v);
    }
    assert_eq!(d.entries().len(), 6);
    assert_eq!(config_map_conf_for_hash(&cm), "CONF");
    assert_eq!(config_map_conf_for_hash(&Default::default()), "");
    assert!(odoo_conf_secret("tenant", "prod", &inst, &owner(), "CONF").is_none());
}

#[test]
fn secret_sourced_master_password_never_reaches_the_config_map() {
    let mut inst = sourced(base_instance("prod"));
    inst.spec.admin_password = None;
    inst.spec.admin_password_secret_ref = Some(AdminPasswordSecretRef {
        name: "pw".to_string(),
        key: "k".to_string(),
    });
    inst.spec.config_options = Some(StringMap::of("workers", "2"));
    let mounted = conf_inputs(&inst, &pg(true), "u", "p", "master");
    assert_eq!(mounted.admin_password, "master");
    assert!(!mounted.prepend_std_addons);
    assert_eq!(mounted.config_options, Some(StringMap::of("workers", "2")));
    let public = config_map_conf_inputs(&inst, &pg(true), "u", "p", "master");
    assert_eq!(public.admin_password, "");
    assert_eq!(public.username, "u");
    let secret = odoo_conf_secret("tenant", "prod", &inst, &owner(), "CONF").unwrap();
    assert_eq!(secret.metadata.name.as_deref(), Some("prod-odoo-conf"));
    assert_eq!(secret_conf_for_hash(&secret), "CONF");
    assert_eq!(secret_conf_for_hash(&Secret::default()), "");
}

// ── Filestore ───────────────────────────────────────────────────────────────

fn claim(size: Option<&str>, class: Option<&str>) -> PersistentVolumeClaim {
    PersistentVolumeClaim {
        spec: Some(PersistentVolumeClaimSpec {
            resources: size.map(|s| VolumeResourceRequirements {
                requests: Some(StringMap::of("storage", s)),
            }),
            storage_class_name: class.map(str::to_string),
            ..Default::default()
        }),
        ..Default::default()
    }
}

fn sized(size: &str) -> OdooInstance {
    let mut inst = base_instance("prod");
    inst.spec.filestore = Some(FilestoreSpec {
        storage_size: Some(size.to_string()),
        storage_class: None,
    });
    inst
}

#[test]
fn pvc_storage_size_expands_in_place() {
    let existing = claim(Some("2Gi"), None);
    assert_eq!(current_size(&existing), "2Gi");
    assert_eq!(
        filestore_plan(&sized("10Gi"), &defaults(), Some(&existing)),
        FilestorePlan::Expand("10Gi".to_string())
    );
    assert_eq!(
        filestore_plan(&sized("10Gi"), &defaults(), Some(&claim(Some("10Gi"), None))),
        FilestorePlan::Keep
    );
}

#[test]
fn pvc_storage_size_shrink_is_noop() {
    let existing = claim(Some("2Gi"), None);
    assert_eq!(
        filestore_plan(&sized("1Mi"), &defaults(), Some(&existing)),
        FilestorePlan::IgnoreShrink
    );
    assert_eq!(
        filestore_plan(&sized("junk"), &defaults(), Some(&existing)),
        FilestorePlan::Keep
    );
    assert_eq!(
        filestore_plan(&sized("0"), &defaults(), Some(&existing)),
        FilestorePlan::Keep
    );
}

#[test]
fn a_missing_claim_is_created() {
    let inst = base_instance("prod");
    assert_eq!(filestore_plan(&inst, &defaults(), None), FilestorePlan::Create);
    assert_eq!(current_size(&claim(None, None)), "");
    assert_eq!(
        filestore_plan(&inst, &defaults(), Some(&claim(None, None))),
        FilestorePlan::Expand("2Gi".to_string())
    );
    let pvc = filestore_pvc("tenant", "prod", &inst, &defaults(), &owner(), None);
    assert_eq!(pvc.metadata.name.as_deref(), Some("prod-filestore-pvc"));
    assert_eq!(current_size(&pvc), "2Gi");
    let spec = pvc.spec.as_ref().unwrap();
    assert_eq!(spec.access_modes.as_ref().unwrap(), &["ReadWriteMany"]);
    assert_eq!(spec.storage_class_name.as_deref(), Some("standard"));
    assert!(spec.data_source_ref.is_none());
    assert_eq!(
        filestore_plan(&inst, &defaults(), Some(&pvc)),
        FilestorePlan::Keep
    );
}

#[test]
fn staging_clones_the_production_claim_of_the_same_class() {
    let mut inst = base_instance("staging");
    assert!(production_claim("tenant", &inst).is_none());
    inst.spec.production_instance_ref = Some(ProductionInstanceRef {
        name: "prod".to_string(),
        namespace: None,
    });
    inst.spec.filestore = Some(FilestoreSpec {
        storage_size: None,
        storage_class: Some("ceph".to_string()),
    });
    assert_eq!(
        production_claim("tenant", &inst),
        Some(("tenant".to_string(), "prod-filestore-pvc".to_string()))
    );
    let source = get_pvc_source("tenant", &inst, &claim(None, Some("ceph"))).unwrap();
    assert_eq!(source.kind, "PersistentVolumeClaim");
    assert_eq!(source.name, "prod-filestore-pvc");
    assert_eq!((source.namespace, source.api_group), (None, None));
    assert!(get_pvc_source("tenant", &inst, &claim(None, Some("juice"))).is_none());
    assert!(get_pvc_source("tenant", &inst, &claim(None, None)).is_none());
    inst.spec.production_instance_ref.as_mut().unwrap().namespace = Some("other".to_string());
    let source = get_pvc_source("tenant", &inst, &claim(None, Some("ceph"))).unwrap();
    assert_eq!(source.namespace.as_deref(), Some("other"));
    let pvc = filestore_pvc("tenant", "staging", &inst, &defaults(), &owner(), Some(source));
    assert!(pvc.spec.unwrap().data_source_ref.is_some());
    inst.spec.environment = Environment::Production;
    assert!(get_pvc_source("tenant", &inst, &claim(None, Some("ceph"))).is_none());
}

#[test]
fn an_explicit_source_goes_before_the_clone() {
    let source = |kind: &str| TypedObjectReference {
        api_group: Some("snapshot.storage.k8s.io".to_string()),
        kind: kind.to_string(),
        name: "s".to_string(),
        namespace: None,
    };
    let chosen = filestore_source(Some(source("VolumeSnapshot")), Some(source("Other")));
    assert_eq!(chosen, Some(source("VolumeSnapshot")));
    assert_eq!(
        filestore_source(Some(source("VolumeSnapshot")), None),
        Some(source("VolumeSnapshot"))
    );
    assert_eq!(
        filestore_source(None, Some(source("Other"))),
        Some(source("Other"))
    );
    assert_eq!(filestore_source(None, None), None);
    let inst = base_instance("prod");
    let pvc = filestore_pvc("tenant", "prod", &inst, &defaults(), &owner(), chosen);
    assert_eq!(
        pvc.spec.unwrap().data_source_ref,
        Some(source("VolumeSnapshot"))
    );
}

// ── Routing ─────────────────────────────────────────────────────────────────

#[test]
fn service_exposes_odoo_ports_only() {
    let svc = desired_service("tenant", "prod", &owner());
    assert_eq!(svc.metadata.labels, Some(StringMap::of("app", "prod")));
    let spec = svc.spec.unwrap();
    assert_eq!(spec.selector, Some(StringMap::of("app", "prod")));
    assert_eq!(spec.type_.as_deref(), Some("ClusterIP"));
    let ports: Vec<(i32, Option<IntOrString>)> = spec
        .ports
        .unwrap()
        .into_iter()
        .map(|p| (p.port, p.target_port))
        .collect();
    assert_eq!(
        ports,
        vec![
            (8069, Some(IntOrString::Int(8069))),
            (8072, Some(IntOrString::Int(8072)))
        ]
    );
}

#[test]
fn ingress_routes_every_host() {
    let mut inst = base_instance("prod");
    inst.spec.ingress.hosts = vec!["a.test".to_string(), "b.test".to_string()];
    inst.spec.ingress.class = Some("nginx".to_string());
    let plain = desired_ingress("tenant", "prod", &inst, &owner());
    assert!(plain.metadata.annotations.unwrap().is_empty());
    inst.spec.ingress.issuer = Some("le".to_string());
    let ing = desired_ingress("tenant", "prod", &inst, &owner());
    assert_eq!(
        ing.metadata.annotations,
        Some(StringMap::of("cert-manager.io/cluster-issuer", "le"))
    );
    let spec = ing.spec.unwrap();
    assert_eq!(spec.ingress_class_name.as_deref(), Some("nginx"));
    let tls = &spec.tls.unwrap()[0];
    assert_eq!(tls.secret_name.as_deref(), Some("prod-tls"));
    assert_eq!(tls.hosts.as_ref().unwrap(), &["a.test", "b.test"]);
    let rules = spec.rules.unwrap();
    assert_eq!(rules.len(), 2);
    assert_eq!(rules[1].host.as_deref(), Some("b.test"));
    let paths = &rules[1].http.as_ref().unwrap().paths;
    let route = |i: usize| {
        let service = paths[i].backend.service.as_ref().unwrap();
        (
            paths[i].path.as_deref(),
            paths[i].path_type.as_str(),
            service.name.as_str(),
            service.port.as_ref().unwrap().number,
        )
    };
    assert_eq!(route(0), (Some("/websocket"), "Prefix", "prod", Some(8072)));
    assert_eq!(route(1), (Some("/"), "Prefix", "prod", Some(8069)));
}

#[test]
fn reconcile_creates_http_route_when_gateway_ref_set() {
    let mut inst = base_instance("test-gw");
    inst.spec.ingress.hosts = vec!["gw.example.com".to_string()];
    let gateway = || GatewayRef {
        name: "my-gateway".to_string(),
        namespace: "istio-system".to_string(),
    };
    inst.spec.ingress.gateway_ref = Some(gateway());
    let planned = match routing_plan("tenant", "test-gw", &inst, &owner()) {
        RoutingPlan::HTTPRoute(route) => route,
        RoutingPlan::Ingress(_) => panic!("Ingress should not exist when gatewayRef is set"),
    };
    let route = desired_http_route("tenant", "test-gw", &inst, &gateway(), &owner());
    assert_eq!(planned, route);
    let parent = &route.spec.parent_refs.as_ref().unwrap()[0];
    assert_eq!(parent.name, "my-gateway");
    assert_eq!(parent.namespace.as_deref(), Some("istio-system"));
    assert_eq!(parent.group.as_deref(), Some("gateway.networking.k8s.io"));
    assert_eq!(parent.kind.as_deref(), Some("Gateway"));
    assert_eq!(route.spec.hostnames.as_ref().unwrap(), &["gw.example.com"]);
    let rules = route.spec.rules.as_ref().unwrap();
    let backend = |i: usize| {
        let b = &rules[i].backend_refs.as_ref().unwrap()[0];
        let path = rules[i].matches.as_ref().unwrap()[0].path.as_ref().unwrap();
        (path.value.as_deref(), b.name.as_str(), b.port, b.kind.as_deref())
    };
    assert_eq!(
        backend(0),
        (Some("/websocket"), "test-gw", Some(8072), Some("Service"))
    );
    assert_eq!(backend(1), (Some("/"), "test-gw", Some(8069), Some("Service")));
}

#[test]
fn the_other_routing_object_is_deleted_where_it_is_found() {
    let mut inst = base_instance("prod");
    let plan = routing_plan("tenant", "prod", &inst, &owner());
    assert_eq!(stale_kind(&plan), RoutingKind::HTTPRoute);
    assert_eq!(
        stale_routing("prod", &plan, true),
        Some(RoutingDeletion {
            kind: RoutingKind::HTTPRoute,
            name: "prod".to_string(),
        })
    );
    assert_eq!(stale_routing("prod", &plan, false), None);
    inst.spec.ingress.gateway_ref = Some(GatewayRef {
        name: "gw".to_string(),
        namespace: "istio".to_string(),
    });
    let plan = routing_plan("tenant", "prod", &inst, &owner());
    assert_eq!(stale_kind(&plan), RoutingKind::Ingress);
    assert_eq!(
        stale_routing("prod", &plan, true).unwrap().kind,
        RoutingKind::Ingress
    );
    assert_eq!(stale_routing("prod", &plan, false), None);
}

// ── Scaling and retirement ──────────────────────────────────────────────────

fn owned_cron() -> Deployment {
    Deployment {
        metadata: ObjectMeta {
            name: Some("odoo-cron".to_string()),
            namespace: Some("test".to_string()),
            uid: Some("cron-uid".to_string()),
            resource_version: Some("10".to_string()),
            owner_references: Some(vec![OwnerReference {
                block_owner_deletion: None,
                ..controller_owner_ref(&cron_instance())
            }]),
            ..Default::default()
        },
        ..Default::default()
    }
}

fn cron_instance() -> OdooInstance {
    let mut inst = base_instance("odoo");
    inst.metadata.namespace = Some("test".to_string());
    inst.metadata.uid = Some("owner-uid".to_string());
    inst
}

#[test]
fn replacement_during_cron_retirement_returns_conflict() {
    // Both writes carry preconditions, so that the server answers with a
    // conflict once the Deployment has been replaced.
    let instance = cron_instance();
    let oref = controller_owner_ref(&instance);
    let step = retirement_step("test", &instance, &oref, Some(&owned_cron())).unwrap();
    let patch = match step {
        RetirementStep::ScaleThenDelete(patch) => patch,
        other => panic!("expected a scale patch, got {other:?}"),
    };
    assert_eq!(
        patch,
        ScalePatch {
            name: "odoo-cron".to_string(),
            uid: "cron-uid".to_string(),
            resource_version: "10".to_string(),
            replicas: 0,
        }
    );
    let mut patched = owned_cron();
    patched.metadata.resource_version = Some("11".to_string());
    let deletion = retirement_deletion("test", &instance, &patch, &patched).unwrap();
    assert_eq!(deletion.name, "odoo-cron");
    assert_eq!(deletion.propagation_policy, PropagationPolicy::Foreground);
    assert_eq!(deletion.uid, "cron-uid");
    assert_eq!(deletion.resource_version, "11");
    patched.metadata.resource_version = None;
    assert_eq!(
        retirement_deletion("test", &instance, &patch, &patched)
            .unwrap_err()
            .message(),
        "patched Deployment test/odoo-cron has no metadata.resourceVersion"
    );
}

#[test]
fn cron_pods_keep_retirement_pending_after_deployment_disappears() {
    let instance = cron_instance();
    let oref = controller_owner_ref(&instance);
    match retirement_step("test", &instance, &oref, None).unwrap() {
        RetirementStep::CheckPods(selector) => assert_eq!(selector, "app=odoo-cron"),
        other => panic!("expected a look at the pods, got {other:?}"),
    }
    assert!(!retirement_complete(1));
    assert!(retirement_complete(0));
    let mut deleted = owned_cron();
    deleted.metadata.deletion_timestamp = Some("2026-09-24T10:00:00Z".to_string());
    assert!(matches!(
        retirement_step("test", &instance, &oref, Some(&deleted)),
        Ok(RetirementStep::AwaitDeletion)
    ));
}

#[test]
fn combined_retirement_refuses_a_foreign_cron_deployment() {
    let instance = cron_instance();
    let oref = controller_owner_ref(&instance);
    let mut foreign = owned_cron();
    foreign.metadata.owner_references = None;
    assert_eq!(
        retirement_step("test", &instance, &oref, Some(&foreign))
            .unwrap_err()
            .message(),
        "refusing to retire Deployment test/odoo-cron: it is not controlled by this OdooInstance"
    );
}

#[test]
fn control_takes_every_part_of_the_owner() {
    let oref = controller_owner_ref(&cron_instance());
    assert!(deployment_controlled_by(&owned_cron(), &oref));
    let with = |change: fn(&mut OwnerReference)| {
        let mut dep = owned_cron();
        change(&mut dep.metadata.owner_references.as_mut().unwrap()[0]);
        dep
    };
    for dep in [
        with(|o| o.uid = "other".to_string()),
        with(|o| o.name = "other".to_string()),
        with(|o| o.kind = "Other".to_string()),
        with(|o| o.api_version = "v1".to_string()),
        with(|o| o.controller = Some(false)),
        with(|o| o.controller = None),
    ] {
        assert!(!deployment_controlled_by(&dep, &oref));
    }
}

#[test]
fn scaling_takes_a_complete_identity() {
    let message = |change: fn(&mut ObjectMeta)| {
        let mut dep = owned_cron();
        change(&mut dep.metadata);
        scale_deployment_if_current("test", &dep, 2)
            .unwrap_err()
            .message()
            .to_string()
    };
    assert_eq!(
        message(|m| m.name = None),
        "Deployment in namespace test has no metadata.name"
    );
    assert_eq!(
        message(|m| m.uid = None),
        "Deployment test/odoo-cron has no metadata.uid"
    );
    assert_eq!(
        message(|m| m.resource_version = None),
        "Deployment test/odoo-cron has no metadata.resourceVersion"
    );
    assert_eq!(
        scale_deployment_if_current("test", &owned_cron(), 2).unwrap().replicas,
        2
    );
    let mut unidentified = owned_cron();
    unidentified.metadata.uid = None;
    let instance = cron_instance();
    assert_eq!(
        retirement_step("test", &instance, &controller_owner_ref(&instance), Some(&unidentified))
            .unwrap_err()
            .message(),
        "Deployment test/odoo-cron has no metadata.uid"
    );
}

// ── Read-only SQL access ────────────────────────────────────────────────────

#[test]
fn readonly_access_is_opt_in() {
    let mut inst = base_instance("prod");
    assert_eq!(ro_secret_name("prod"), "prod-db-ro-password");
    assert!(readonly_sql_env(&inst).is_empty());
    inst.spec.read_only_sql_access = Some(ReadOnlySqlAccessSpec::default());
    assert!(readonly_sql_env(&inst).is_empty());
    assert!(readonly_role_params(&inst, "ro", "p", "o", "q").is_none());
    inst.spec.read_only_sql_access = Some(ReadOnlySqlAccessSpec {
        enabled: true,
        connection_limit: 7,
    });
    let env = readonly_sql_env(&inst);
    let sources: Vec<(String, String, String)> = env
        .iter()
        .map(|e| {
            let s = e.value_from.as_ref().unwrap().secret_key_ref.as_ref().unwrap();
            (e.name.clone(), s.name.clone(), s.key.clone())
        })
        .collect();
    let triple = |a: &str, b: &str, c: &str| (a.to_string(), b.to_string(), c.to_string());
    assert_eq!(
        sources,
        vec![
            triple("ODOO_RO_DB_USER", "prod-db-ro-password", "username"),
            triple("ODOO_RO_DB_PASSWORD", "prod-db-ro-password", "password"),
        ]
    );
    let params = readonly_role_params(&inst, "ro", "p", "o", "q").unwrap();
    assert_eq!(params.connection_limit, 7);
    assert_eq!(params.db_name, "odoo_uid-1234");
    assert_eq!((params.ro_username.as_str(), params.ro_password.as_str()), ("ro", "p"));
    assert_eq!(
        (params.owner_username.as_str(), params.owner_password.as_str()),
        ("o", "q")
    );
}

#[test]
fn readonly_secret_is_stable_and_deletable() {
    let secret = readonly_secret("tenant", "prod", &owner(), "ro", "p");
    assert_eq!(secret.metadata.name.as_deref(), Some("prod-db-ro-password"));
    assert_eq!(secret.string_data.unwrap().get("username").unwrap(), "ro");
    let stored = Secret {
        data: Some(data(&[("password", b"kept")])),
        ..Default::default()
    };
    assert_eq!(readonly_password(&stored), "kept");
    assert!(deletion_settled(ReadOutcome::Found));
    assert!(deletion_settled(ReadOutcome::Refused(404)));
    assert!(!deletion_settled(ReadOutcome::Refused(409)));
    assert!(!deletion_settled(ReadOutcome::Unreachable));
}

#[test]
fn stopped_scales_everything_to_zero() {
    assert_eq!(
        Stopped.ensure(&base_instance("prod")),
        ServingScale {
            namespace: "tenant".to_string(),
            web: 0,
            cron: 0,
        }
    );
}
