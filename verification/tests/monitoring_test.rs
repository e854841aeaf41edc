//! Production HTTP telemetry.

use odoo_operator::controller::helpers::{self, instance_labels};
use odoo_operator::controller::monitoring::apply_web_monitoring;
use odoo_operator::crd::monitoring::{
    config_map_name_allowed, exporter_image_allowed, monitoring_allowed,
};
use odoo_operator::crd::odoo_instance::{
    CronSpec, Environment, IngressSpec, MonitoringSpec, OdooInstance, OdooInstanceSpec,
    WorkloadLayout,
};
use odoo_operator::crd::rules::schema_violations;
use odoo_operator::k8s::meta::ObjectMeta;
use odoo_operator::k8s::pods::{Container, PodSpec, ResourceRequirements};
use odoo_operator::string_map::StringMap;

fn base_instance(name: &str) -> OdooInstance {
    OdooInstance {
        metadata: ObjectMeta {
            name: Some(name.to_string()),
            namespace: Some("tenant".to_string()),
            uid: Some("uid-1234".to_string()),
            ..Default::default()
        },
        spec: OdooInstanceSpec {
            image: None,
            image_pull_secret: None,
            admin_password: Some("admin".to_string()),
            admin_password_secret_ref: None,
            replicas: 1,
            workload_layout: WorkloadLayout::Separate,
            cron: CronSpec {
                replicas: 1,
                resources: None,
            },
            ingress: IngressSpec {
                hosts: vec!["test.example.com".to_string()],
                issuer: None,
                class: None,
                gateway_ref: None,
            },
            resources: None,
            filestore: None,
            config_options: None,
            database: None,
            init: Default::default(),
            environment: Default::default(),
            production_instance_ref: None,
            strategy: None,
            webhook: None,
            probes: None,
            affinity: None,
            tolerations: vec![],
            read_only_sql_access: None,
            staging_sleep: None,
            extra_env: vec![],
            extra_env_from: vec![],
            source_volume: None,
            custom_source_volume: None,
            monitoring: None,
            run_as_user: None,
            run_as_group: None,
        },
        status: None,
    }
}

fn instance(environment: Environment, monitoring: bool) -> OdooInstance {
    let mut inst = base_instance("prod");
    inst.spec.environment = environment;
    if monitoring {
        inst.spec.monitoring = Some(MonitoringSpec {
            exporter_image: format!("prom/statsd-exporter:v0.29.0@sha256:{}", "a".repeat(64)),
            config_map_name: "prod-monitoring-abcd".to_string(),
            resources: None,
        });
    }
    inst
}

fn web_pod() -> PodSpec {
    PodSpec {
        containers: vec![Container {
            name: "odoo-prod".to_string(),
            ..Default::default()
        }],
        ..Default::default()
    }
}

#[test]
fn absent_monitoring_and_staging_do_not_change_the_pod() {
    for instance in [
        instance(Environment::Production, false),
        instance(Environment::Staging, true),
    ] {
        let mut pod = web_pod();
        apply_web_monitoring(&mut pod, &instance);
        assert_eq!(pod, web_pod());
    }
}

#[test]
fn production_uses_fixed_local_bounded_supervised_exporter_contract() {
    let mut pod = web_pod();
    let instance = instance(Environment::Production, true);
    apply_web_monitoring(&mut pod, &instance);
    assert_eq!(pod.containers.len(), 2);
    let odoo = &pod.containers[0];
    let exporter = &pod.containers[1];
    let env = odoo.env.as_ref().unwrap();
    assert!(env
        .iter()
        .any(|v| v.name == "DSH_MONITORING_ENABLED" && v.value.as_deref() == Some("1")));
    assert_eq!(odoo.volume_mounts.as_ref().unwrap().len(), 1);
    assert_eq!(exporter.volume_mounts.as_ref().unwrap().len(), 2);
    assert_eq!(
        exporter.image.as_ref().unwrap(),
        &instance.spec.monitoring.as_ref().unwrap().exporter_image
    );
    assert_eq!(exporter.ports.as_ref().unwrap()[0].container_port, 9102);
    assert!(exporter.readiness_probe.is_none() && exporter.liveness_probe.is_none());
    let supervisor = &exporter.command.as_ref().unwrap()[2];
    assert!(supervisor.contains("rm -f /run/droggol-monitoring/statsd.sock && exec"));
    assert!(supervisor.contains("kill -TERM") && supervisor.contains("sleep 2"));
    let limits = exporter
        .resources
        .as_ref()
        .unwrap()
        .limits
        .as_ref()
        .unwrap();
    assert_eq!(limits.get("memory").unwrap(), "128Mi");
    assert_eq!(limits.get("cpu").unwrap(), "100m");
    let state = pod.volumes.as_ref().unwrap()[0].empty_dir.as_ref().unwrap();
    assert_eq!(state.medium.as_deref(), Some("Memory"));
    assert_eq!(state.size_limit.as_deref(), Some("16Mi"));
    assert!(pod.init_containers.is_none());
}

#[test]
fn ownership_labels_are_explicitly_allowlisted() {
    let mut instance = instance(Environment::Production, false);
    let mut labels = StringMap::of("droggol.sh/instance-id", "immutable-instance");
    for (key, value) in [
        ("droggol.sh/project-id", "immutable-project"),
        ("droggol.sh/server-id", "immutable-server"),
        ("app", "wrong-selector"),
        ("arbitrary", "not-propagated"),
    ] {
        labels.insert(key.to_string(), value.to_string());
    }
    instance.metadata.labels = Some(labels);
    let labels = instance_labels(&instance);
    assert_eq!(labels.get("droggol.sh/instance-id").unwrap(), "immutable-instance");
    assert_eq!(labels.get("droggol.sh/project-id").unwrap(), "immutable-project");
    assert_eq!(labels.get("droggol.sh/server-id").unwrap(), "immutable-server");
    assert_eq!(labels.get("bemade.org/environment").unwrap(), "production");
    assert!(!labels.contains_key("app") && !labels.contains_key("arbitrary"));
}

#[test]
fn operator_values_replace_user_values_of_the_monitoring_variables() {
    let mut pod = web_pod();
    pod.containers[0].env = Some(vec![
        helpers::env("DSH_MONITORING_SOCKET", "elsewhere"),
        helpers::env("KEEP", "k"),
        helpers::env("DSH_MONITORING_ENABLED", "0"),
    ]);
    apply_web_monitoring(&mut pod, &instance(Environment::Production, true));
    assert_eq!(
        pod.containers[0].env,
        Some(vec![
            helpers::env("KEEP", "k"),
            helpers::env("DSH_MONITORING_ENABLED", "1"),
            helpers::env("DSH_MONITORING_SOCKET", "/run/droggol-monitoring/statsd.sock"),
            helpers::env("DSH_MONITORING_STATE_DIR", "/run/droggol-monitoring"),
        ])
    );
}

#[test]
fn a_pod_without_containers_is_left_alone_and_a_budget_is_honoured() {
    let mut instance = instance(Environment::Production, true);
    let mut empty = PodSpec::default();
    apply_web_monitoring(&mut empty, &instance);
    assert_eq!(empty, PodSpec::default());

    instance.spec.monitoring.as_mut().unwrap().resources = Some(ResourceRequirements {
        limits: Some(StringMap::of("memory", "256Mi")),
        ..Default::default()
    });
    let mut pod = web_pod();
    apply_web_monitoring(&mut pod, &instance);
    let resources = pod.containers[1].resources.as_ref().unwrap();
    assert_eq!(resources.limits, Some(StringMap::of("memory", "256Mi")));
    assert!(resources.requests.is_none());
    let volumes = pod.volumes.as_ref().unwrap();
    assert_eq!(volumes[1].name, "droggol-monitoring-config");
    assert_eq!(
        volumes[1].config_map.as_ref().unwrap().name,
        "prod-monitoring-abcd"
    );
}

#[test]
fn monitoring_schema_requires_pinned_official_image_and_production() {
    let digest = "0123456789abcdef".repeat(4);
    let image = format!("prom/statsd-exporter:v0.29.0@sha256:{digest}");
    assert!(exporter_image_allowed(&image));
    assert!(exporter_image_allowed(&format!("docker.io/{image}")));
    for refused in [
        "prom/statsd-exporter:v0.29.0".to_string(),
        "prom/statsd-exporter:v0.29.0@sha256:".to_string(),
        format!("prom/statsd-exporter:0.29.0@sha256:{digest}"),
        format!("prom/statsd-exporter:v0.29@sha256:{digest}"),
        format!("prom/statsd-exporter:v0..0@sha256:{digest}"),
        format!("prom/statsd-exporter:v0.29.0@sha256:{digest}0"),
        format!("prom/statsd-exporter:v0.29.0@sha256:{}", "A".repeat(64)),
        format!("prom/statsd-exporter:v0.29.0@sha512:{digest}"),
        format!("quay.io/{image}"),
        format!("docker.io{image}"),
        format!("docker\nio/{image}"),
        format!("dockerXio/{image}"),
        format!("other/statsd-exporter:v0.29.0@sha256:{digest}"),
        String::new(),
    ] {
        assert!(!exporter_image_allowed(&refused), "{refused}");
    }
    // At most 256 characters.
    let long = |zeros: usize| {
        format!(
            "prom/statsd-exporter:v{}.29.0@sha256:{digest}",
            "0".repeat(zeros)
        )
    };
    assert_eq!(long(157).len(), 256);
    assert!(exporter_image_allowed(&long(157)));
    assert!(!exporter_image_allowed(&long(158)));
    // A DNS label of at most 63 characters.
    for name in ["a", "0", "monitoring-config-abcd", "a--b", &"a".repeat(63)] {
        assert!(config_map_name_allowed(name), "{name}");
    }
    for name in ["", "-a", "a-", "A", "a.b", "a_b", &"a".repeat(64)] {
        assert!(!config_map_name_allowed(name), "{name}");
    }
    let mut monitored = instance(Environment::Production, true);
    assert!(monitoring_allowed(monitored.spec.monitoring.as_ref().unwrap()));
    assert!(schema_violations(&monitored.spec).is_empty());
    monitored.spec.environment = Environment::Staging;
    assert_eq!(
        schema_violations(&monitored.spec),
        vec!["spec.monitoring is supported only for Production"]
    );
}
