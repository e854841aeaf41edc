//! The rules of the OdooInstance schema, and its defaults.

use odoo_operator::crd::odoo_instance::{
    default_25_percent, default_health_path, default_init_modules, default_replicas,
    default_ro_connection_limit, default_true, AdminPasswordSecretRef, CronSpec,
    CustomSourceVolumeSpec, Environment, IngressSpec, InitSpec, MonitoringSpec, OdooInstance,
    OdooInstancePhase, OdooInstanceSpec, ProductionInstanceRef, ReadOnlySqlAccessSpec,
    SourceVolumeMount, SourceVolumeSpec, WorkloadLayout,
};
use odoo_operator::crd::rules::schema_violations;
use odoo_operator::k8s::meta::ObjectMeta;

fn base_instance(name: &str) -> OdooInstance {
    OdooInstance {
        metadata: ObjectMeta {
            name: Some(name.to_string()),
            namespace: Some("tenant".to_string()),
            uid: Some("uid-1234".to_string()),
            ..Default::default()
        },
        spec: OdooInstanceSpec {
            image: None,
            image_pull_secret: None,
            admin_password: Some("admin".to_string()),
            admin_password_secret_ref: None,
            replicas: 1,
            workload_layout: WorkloadLayout::Separate,
            cron: CronSpec {
                replicas: 1,
                resources: None,
            },
            ingress: IngressSpec {
                hosts: vec!["test.example.com".to_string()],
                issuer: None,
                class: None,
                gateway_ref: None,
            },
            resources: None,
            filestore: None,
            config_options: None,
            database: None,
            init: Default::default(),
            environment: Default::default(),
            production_instance_ref: None,
            strategy: None,
            webhook: None,
            probes: None,
            affinity: None,
            tolerations: vec![],
            read_only_sql_access: None,
            staging_sleep: None,
            extra_env: vec![],
            extra_env_from: vec![],
            source_volume: None,
            custom_source_volume: None,
            monitoring: None,
            run_as_user: None,
            run_as_group: None,
        },
        status: None,
    }
}

fn mount(path: &str, read_only: bool) -> SourceVolumeMount {
    SourceVolumeMount {
        mount_path: path.to_string(),
        sub_path: None,
        read_only,
    }
}

fn sourced(mounts: Vec<SourceVolumeMount>, odoo_bin: &str) -> OdooInstance {
    let mut inst = base_instance("sv");
    inst.spec.source_volume = Some(SourceVolumeSpec {
        claim_name: "prod-src".to_string(),
        mounts,
        odoo_bin: odoo_bin.to_string(),
    });
    inst
}

const ODOO_BIN: &str = "/work/instances/prod/odoo/odoo-bin";

#[test]
fn admin_password_plaintext_alone_is_accepted() {
    assert!(schema_violations(&base_instance("pw-plain").spec).is_empty());
}

#[test]
fn admin_password_secret_ref_alone_is_accepted() {
    let mut inst = base_instance("pw-ref");
    inst.spec.admin_password = None;
    inst.spec.admin_password_secret_ref = Some(AdminPasswordSecretRef {
        name: "pw".to_string(),
        key: "password".to_string(),
    });
    assert!(schema_violations(&inst.spec).is_empty());
}

#[test]
fn admin_password_both_is_rejected_on_create() {
    let mut inst = base_instance("pw-both");
    inst.spec.admin_password_secret_ref = Some(AdminPasswordSecretRef {
        name: "pw".to_string(),
        key: "password".to_string(),
    });
    assert_eq!(
        schema_violations(&inst.spec),
        vec!["exactly one of spec.adminPassword and spec.adminPasswordSecretRef must be set"]
    );
}

#[test]
fn admin_password_neither_is_rejected_on_create() {
    let mut inst = base_instance("pw-none");
    inst.spec.admin_password = None;
    assert_eq!(
        schema_violations(&inst.spec),
        vec!["exactly one of spec.adminPassword and spec.adminPasswordSecretRef must be set"]
    );
}

#[test]
fn valid_source_volume_is_accepted() {
    let inst = sourced(vec![mount("/work", false), mount("/build", false)], ODOO_BIN);
    assert!(schema_violations(&inst.spec).is_empty());
}

#[test]
fn custom_source_requires_nonempty_absolute_read_only_mounts() {
    for (name, mounts, accepted) in [
        ("custom-ok", vec![mount("/custom", true)], true),
        ("custom-empty", vec![], false),
        ("custom-relative", vec![mount("custom", true)], false),
        ("custom-writable", vec![mount("/custom", false)], false),
    ] {
        let mut inst = base_instance(name);
        inst.spec.custom_source_volume = Some(CustomSourceVolumeSpec {
            claim_name: "prod-custom-source".to_string(),
            mounts,
        });
        let violations = schema_violations(&inst.spec);
        assert_eq!(violations.is_empty(), accepted, "{name}: {violations:?}");
        for violation in violations {
            assert!(violation.contains("spec.customSourceVolume"), "{violation}");
        }
    }
}

#[test]
fn source_volume_with_no_mounts_is_rejected() {
    assert_eq!(
        schema_violations(&sourced(vec![], ODOO_BIN).spec),
        vec!["spec.sourceVolume.mounts must not be empty"]
    );
}

#[test]
fn source_volume_with_a_relative_odoo_bin_is_rejected() {
    assert_eq!(
        schema_violations(&sourced(vec![mount("/work", false)], "instances/prod/odoo/odoo-bin").spec),
        vec!["spec.sourceVolume.odooBin must be an absolute path"]
    );
    assert_eq!(
        schema_violations(&sourced(vec![mount("/work", false)], "").spec),
        vec!["spec.sourceVolume.odooBin must be an absolute path"]
    );
}

#[test]
fn source_volume_with_whitespace_in_odoo_bin_is_rejected() {
    for bin in [
        "/work/my instances/odoo-bin",
        "/work/my\tinstances/odoo-bin",
        "/work/odoo-bin\n",
    ] {
        assert_eq!(
            schema_violations(&sourced(vec![mount("/work", false)], bin).spec),
            vec!["spec.sourceVolume.odooBin must not contain whitespace"]
        );
    }
}

#[test]
fn source_volume_with_a_relative_mount_path_is_rejected() {
    assert_eq!(
        schema_violations(&sourced(vec![mount("/ok", false), mount("work", false)], ODOO_BIN).spec),
        vec!["spec.sourceVolume.mounts[].mountPath must be an absolute path"]
    );
}

#[test]
fn production_is_neither_cloned_nor_is_staging_monitored() {
    let mut prod = base_instance("prod");
    prod.spec.environment = Environment::Production;
    prod.spec.production_instance_ref = Some(ProductionInstanceRef {
        name: "other".to_string(),
        namespace: None,
    });
    assert_eq!(
        schema_violations(&prod.spec),
        vec!["spec.productionInstanceRef is forbidden on production instances"]
    );
    let mut staging = base_instance("staging");
    staging.spec.monitoring = Some(MonitoringSpec {
        exporter_image: "i".to_string(),
        config_map_name: "c".to_string(),
        resources: None,
    });
    assert_eq!(
        schema_violations(&staging.spec),
        vec!["spec.monitoring is supported only for Production"]
    );
    staging.spec.environment = Environment::Production;
    assert!(schema_violations(&staging.spec).is_empty());
}

#[test]
fn every_broken_rule_is_reported_in_order() {
    let mut inst = sourced(vec![], "a b");
    inst.spec.admin_password = None;
    assert_eq!(
        schema_violations(&inst.spec),
        vec![
            "exactly one of spec.adminPassword and spec.adminPasswordSecretRef must be set",
            "spec.sourceVolume.mounts must not be empty",
            "spec.sourceVolume.odooBin must be an absolute path",
            "spec.sourceVolume.odooBin must not contain whitespace",
        ]
    );
}

#[test]
fn defaults_of_the_schema() {
    assert_eq!(default_25_percent(), "25%");
    assert_eq!(default_health_path(), "/web/health");
    assert_eq!(default_init_modules(), vec!["base"]);
    assert_eq!(default_replicas(), 1);
    assert_eq!(default_ro_connection_limit(), 5);
    assert!(default_true());
    assert_eq!(CronSpec::default().replicas, 1);
    let access = ReadOnlySqlAccessSpec::default();
    assert!(!access.enabled);
    assert_eq!(access.connection_limit, 5);
    let init = InitSpec::default();
    assert!(init.enabled && !init.demo && init.webhook.is_none());
    assert_eq!(init.modules, vec!["base"]);
    assert_eq!(Environment::default().as_label(), "staging");
    assert_eq!(Environment::Production.as_label(), "production");
    assert_eq!(OdooInstancePhase::CloningFromSource.as_str(), "CloningFromSource");
    assert_eq!(OdooInstancePhase::Error.as_str(), "Error");
}

#[test]
fn effective_identity() {
    let mut inst = base_instance("prod");
    assert_eq!(inst.spec.effective_run_as_user(), 100);
    assert_eq!(inst.spec.effective_run_as_group(), 101);
    inst.spec.run_as_user = Some(0);
    inst.spec.run_as_group = Some(7);
    assert_eq!(inst.spec.effective_run_as_user(), 0);
    assert_eq!(inst.spec.effective_run_as_group(), 7);
}
