//! Labels, commands, volumes, environment and job pods of an instance.

use odoo_operator::controller::helpers;
use odoo_operator::controller::helpers::{
    apply_extra_env, cm_env, controller_owner_ref, cron_depl_name, image_pull_secrets,
    instance_labels, merge_extra_env, odoo_cmd_env, odoo_command, odoo_conf_in_secret,
    odoo_conf_mount, odoo_conf_name, odoo_conf_volume, odoo_entrypoint, odoo_entrypoint_shell,
    odoo_probe_command, odoo_security_context, odoo_shell_executable, odoo_volume_mounts,
    odoo_volume_mounts_for, odoo_volumes, pg_tools_image, secret_env, shell_quote,
    source_volume_mounts, source_volumes, staging_mail_env_vars, OdooJobBuilder,
};
use odoo_operator::crd::odoo_instance::{
    AdminPasswordSecretRef, CronSpec, CustomSourceVolumeSpec, Environment, IngressSpec,
    OdooInstance, OdooInstanceSpec, SourceVolumeMount, SourceVolumeSpec, WorkloadLayout,
};
use odoo_operator::helpers::OperatorDefaults;
use odoo_operator::k8s::env::EnvVar;
use odoo_operator::k8s::meta::ObjectMeta;
use odoo_operator::k8s::pods::Container;
use odoo_operator::k8s::volumes::Volume;
use odoo_operator::string_map::StringMap;

fn base_instance(name: &str) -> OdooInstance {
    OdooInstance {
        metadata: ObjectMeta {
            name: Some(name.to_string()),
            namespace: Some("tenant".to_string()),
            uid: Some("uid-1234".to_string()),
            ..Default::default()
        },
        spec: OdooInstanceSpec {
            image: None,
            image_pull_secret: None,
            admin_password: Some("admin".to_string()),
            admin_password_secret_ref: None,
            replicas: 1,
            workload_layout: WorkloadLayout::Separate,
            cron: CronSpec {
                replicas: 1,
                resources: None,
            },
            ingress: IngressSpec {
                hosts: vec!["test.example.com".to_string()],
                issuer: None,
                class: None,
                gateway_ref: None,
            },
            resources: None,
            filestore: None,
            config_options: None,
            database: None,
            init: Default::default(),
            environment: Default::default(),
            production_instance_ref: None,
            strategy: None,
            webhook: None,
            probes: None,
            affinity: None,
            tolerations: vec![],
            read_only_sql_access: None,
            staging_sleep: None,
            extra_env: vec![],
            extra_env_from: vec![],
            source_volume: None,
            custom_source_volume: None,
            monitoring: None,
            run_as_user: None,
            run_as_group: None,
        },
        status: None,
    }
}

/// Whole volume at `/work`, the dependency tree at `/build` through a subPath,
/// odoo-bin under the instance home.
fn with_source_volume(mut inst: OdooInstance) -> OdooInstance {
    inst.spec.source_volume = Some(SourceVolumeSpec {
        claim_name: "prod-src".to_string(),
        mounts: vec![
            SourceVolumeMount {
                mount_path: "/work".to_string(),
                sub_path: None,
                read_only: false,
            },
            SourceVolumeMount {
                mount_path: "/build".to_string(),
                sub_path: Some("build".to_string()),
                read_only: false,
            },
        ],
        odoo_bin: "/work/instances/prod/odoo/odoo-bin".to_string(),
    });
    inst
}

fn ev(name: &str, value: &str) -> EnvVar {
    EnvVar {
        name: name.into(),
        value: Some(value.into()),
        ..Default::default()
    }
}

fn vol_names(volumes: &[Volume]) -> Vec<String> {
    volumes.iter().map(|v| v.name.clone()).collect()
}

// ── Merging environments ────────────────────────────────────────────────────

#[test]
fn empty_base_empty_extra() {
    assert!(merge_extra_env(&[], &[]).is_empty());
}

#[test]
fn empty_base_returns_extra() {
    let extra = vec![ev("A", "1"), ev("B", "2")];
    assert_eq!(merge_extra_env(&[], &extra), extra);
}

#[test]
fn empty_extra_returns_base() {
    let base = vec![ev("PGDATABASE", "db")];
    assert_eq!(merge_extra_env(&base, &[]), base);
}

#[test]
fn extra_overrides_base_in_place_and_appends_new() {
    let base = vec![ev("PGDATABASE", "db"), ev("KEEP", "k")];
    let extra = vec![ev("PGDATABASE", "override"), ev("NEW", "n")];
    let out = merge_extra_env(&base, &extra);
    // Order preserved: overridden entry stays in its base slot; new appended.
    assert_eq!(out.len(), 3);
    assert_eq!(out[0], ev("PGDATABASE", "override"));
    assert_eq!(out[1], ev("KEEP", "k"));
    assert_eq!(out[2], ev("NEW", "n"));
}

#[test]
fn multiple_overlaps_last_wins_preserving_order() {
    let base = vec![ev("A", "1"), ev("B", "2"), ev("C", "3")];
    let extra = vec![ev("B", "B2"), ev("A", "A2")];
    let out = merge_extra_env(&base, &extra);
    assert_eq!(out, vec![ev("A", "A2"), ev("B", "B2"), ev("C", "3")]);
}

#[test]
fn a_name_repeated_in_extra_keeps_the_last_value() {
    let out = merge_extra_env(&[ev("A", "1")], &[ev("B", "2"), ev("B", "3"), ev("A", "4")]);
    assert_eq!(out, vec![ev("A", "4"), ev("B", "3")]);
}

#[test]
fn merging_again_changes_nothing_and_merges_compose() {
    let base = vec![ev("A", "1"), ev("B", "2")];
    let extra = vec![ev("B", "3"), ev("C", "4"), ev("B", "5")];
    let once = merge_extra_env(&base, &extra);
    assert_eq!(merge_extra_env(&once, &extra), once);
    let more = vec![ev("A", "6")];
    let both: Vec<EnvVar> = extra.iter().chain(&more).cloned().collect();
    assert_eq!(
        merge_extra_env(&once, &more),
        merge_extra_env(&base, &both)
    );
}

#[test]
fn extra_env_is_a_no_op_when_unset() {
    let inst = base_instance("prod");
    let c = apply_extra_env(
        Container {
            name: "c".to_string(),
            ..Default::default()
        },
        &inst,
    );
    assert_eq!(
        c,
        Container {
            name: "c".to_string(),
            ..Default::default()
        }
    );
}

#[test]
fn extra_env_and_env_from_are_layered_on() {
    let mut inst = base_instance("prod");
    inst.spec.extra_env = vec![ev("PGDATABASE", "mine"), ev("PYTHONPATH", "/build")];
    inst.spec.extra_env_from = vec![k8s_openapi::api::core::v1::EnvFromSource {
        prefix: Some("X_".to_string()),
        ..Default::default()
    }];
    let c = apply_extra_env(
        Container {
            env: Some(vec![ev("PGDATABASE", "db")]),
            env_from: Some(vec![Default::default()]),
            ..Default::default()
        },
        &inst,
    );
    assert_eq!(
        c.env,
        Some(vec![ev("PGDATABASE", "mine"), ev("PYTHONPATH", "/build")])
    );
    let from = c.env_from.unwrap();
    assert_eq!(from.len(), 2);
    assert_eq!(from[0], Default::default());
    assert_eq!(from[1].prefix.as_deref(), Some("X_"));

    let bare = apply_extra_env(Container::default(), &inst);
    assert_eq!(bare.env.unwrap().len(), 2);
    assert_eq!(bare.env_from.unwrap().len(), 1);
}

#[test]
fn env_constructors() {
    assert_eq!(helpers::env("A", "1"), ev("A", "1"));
    let cm = cm_env("HOST", "prod-odoo-conf", "db_host");
    assert_eq!(cm.name, "HOST");
    assert!(cm.value.is_none());
    let cm_ref = cm.value_from.unwrap().config_map_key_ref.unwrap();
    assert_eq!((cm_ref.name.as_str(), cm_ref.key.as_str()), ("prod-odoo-conf", "db_host"));
    let secret = secret_env("PW", "prod-odoo-user", "password");
    assert_eq!(secret.name, "PW");
    let source = secret.value_from.unwrap();
    assert!(source.config_map_key_ref.is_none());
    let secret_ref = source.secret_key_ref.unwrap();
    assert_eq!(
        (secret_ref.name.as_str(), secret_ref.key.as_str()),
        ("prod-odoo-user", "password")
    );
}

// ── The command that launches Odoo ──────────────────────────────────────────

#[test]
fn entrypoint_without_source_volume_is_the_official_image_convention() {
    let inst = base_instance("prod");
    assert_eq!(odoo_entrypoint(&inst), vec!["/entrypoint.sh", "odoo"]);
}

#[test]
fn entrypoint_with_source_volume_runs_odoo_bin_with_an_explicit_config() {
    let inst = with_source_volume(base_instance("prod"));
    assert_eq!(
        odoo_entrypoint(&inst),
        vec![
            "python3",
            "/work/instances/prod/odoo/odoo-bin",
            "-c",
            "/etc/odoo/odoo.conf",
        ]
    );
}

#[test]
fn odoo_command_appends_args_after_the_entrypoint() {
    // The web deployment's exact command, both ways.
    let plain = base_instance("prod");
    assert_eq!(
        odoo_command(&plain, &["--max-cron-threads", "0"]),
        vec!["/entrypoint.sh", "odoo", "--max-cron-threads", "0"]
    );

    let sourced = with_source_volume(base_instance("prod"));
    assert_eq!(
        odoo_command(&sourced, &["--max-cron-threads", "0"]),
        vec![
            "python3",
            "/work/instances/prod/odoo/odoo-bin",
            "-c",
            "/etc/odoo/odoo.conf",
            "--max-cron-threads",
            "0",
        ]
    );
}

#[test]
fn probe_command_bypasses_the_entrypoint_wrapper() {
    // `odoo --version` must reach the binary directly: behind the image
    // entrypoint it would block on wait-for-psql.py first.
    assert_eq!(odoo_probe_command(&base_instance("prod")), "odoo");
    // Shell source, so the path is quoted.
    assert_eq!(
        odoo_probe_command(&with_source_volume(base_instance("prod"))),
        "python3 '/work/instances/prod/odoo/odoo-bin'"
    );
    assert_eq!(
        odoo_shell_executable(&with_source_volume(base_instance("prod"))),
        "python3 '/work/instances/prod/odoo/odoo-bin'"
    );
}

#[test]
fn entrypoint_as_shell_source_is_quoted() {
    assert_eq!(
        odoo_entrypoint_shell(&base_instance("prod")),
        "/entrypoint.sh odoo"
    );
    let mut inst = with_source_volume(base_instance("prod"));
    assert_eq!(
        odoo_entrypoint_shell(&inst),
        "python3 '/work/instances/prod/odoo/odoo-bin' -c '/etc/odoo/odoo.conf'"
    );
    inst.spec.source_volume.as_mut().unwrap().odoo_bin = "/work/it's/odoo-bin".to_string();
    assert!(odoo_entrypoint_shell(&inst).contains(r"'/work/it'\''s/odoo-bin'"));
}

#[test]
fn quoting_escapes_single_quotes_only() {
    assert_eq!(shell_quote(""), "''");
    assert_eq!(shell_quote("a b$c"), "'a b$c'");
    assert_eq!(shell_quote("'"), r"''\'''");
    assert_eq!(shell_quote("é'"), r"'é'\'''");
}

#[test]
fn odoo_cmd_env_is_empty_without_a_source_volume() {
    // Empty means the neutralize scripts keep their `${ODOO_CMD:-odoo}`
    // default, i.e. behave exactly as before.
    assert!(odoo_cmd_env(&base_instance("prod")).is_empty());
}

#[test]
fn odoo_cmd_env_keeps_the_config_flag_out_of_the_executable() {
    // Odoo's dispatcher only reads a subcommand from the first argument when it
    // does not start with `-`, so `-c` must never precede `neutralize`.
    let envs = odoo_cmd_env(&with_source_volume(base_instance("prod")));
    let get = |k: &str| {
        envs.iter()
            .find(|e| e.name == k)
            .and_then(|e| e.value.clone())
            .unwrap_or_else(|| panic!("{k} not set"))
    };
    assert_eq!(
        get("ODOO_CMD"),
        "python3 /work/instances/prod/odoo/odoo-bin"
    );
    assert!(
        !get("ODOO_CMD").contains("-c"),
        "the config flag must not be baked into ODOO_CMD"
    );
    assert_eq!(get("ODOO_CONF_ARG"), "-c /etc/odoo/odoo.conf");
}

/// The argv of `${ODOO_CMD:-odoo} neutralize ${ODOO_CONF_ARG:-}`, with the
/// unquoted expansions split into words as a shell does.
fn expand_neutralize_argv(vars: &[EnvVar]) -> Vec<String> {
    let get = |k: &str| {
        vars.iter()
            .find(|e| e.name == k)
            .and_then(|e| e.value.clone())
    };
    let cmd = get("ODOO_CMD").unwrap_or_else(|| "odoo".to_string());
    let conf = get("ODOO_CONF_ARG").unwrap_or_default();
    let mut argv: Vec<String> = cmd.split_whitespace().map(str::to_string).collect();
    argv.push("neutralize".to_string());
    argv.extend(conf.split_whitespace().map(str::to_string));
    argv.extend(["--db_host", "h", "-d", "db"].map(str::to_string));
    argv
}

#[test]
fn neutralize_argv_without_source_volume_is_exactly_upstream() {
    let argv = expand_neutralize_argv(&odoo_cmd_env(&base_instance("prod")));
    assert_eq!(
        argv,
        vec!["odoo", "neutralize", "--db_host", "h", "-d", "db"],
        "unset mode must expand to the bare `odoo neutralize …`"
    );
}

#[test]
fn neutralize_argv_puts_the_subcommand_immediately_after_the_executable() {
    let inst = with_source_volume(base_instance("prod"));
    let argv = expand_neutralize_argv(&odoo_cmd_env(&inst));
    assert_eq!(
        argv,
        vec![
            "python3",
            "/work/instances/prod/odoo/odoo-bin",
            "neutralize",
            "-c",
            "/etc/odoo/odoo.conf",
            "--db_host",
            "h",
            "-d",
            "db",
        ]
    );
    let sub = argv
        .iter()
        .position(|w| w == "neutralize")
        .expect("subcommand present");
    assert!(
        !argv[..sub].iter().any(|w| w.starts_with('-')),
        "no flag may precede the subcommand, or Odoo dispatches `server`: {argv:?}"
    );
}

// ── Volumes and mounts ──────────────────────────────────────────────────────

#[test]
fn source_volume_helpers_are_empty_when_unset() {
    let inst = base_instance("prod");
    assert!(source_volumes(&inst).is_empty());
    assert!(source_volume_mounts(&inst).is_empty());
    assert_eq!(odoo_volume_mounts_for(&inst), odoo_volume_mounts());
}

#[test]
fn source_volume_mounts_reproduce_the_declared_absolute_paths() {
    let inst = with_source_volume(base_instance("prod"));
    let mounts = source_volume_mounts(&inst);
    assert_eq!(mounts.len(), 2);

    assert_eq!(mounts[0].name, "odoo-source");
    assert_eq!(mounts[0].mount_path, "/work");
    assert_eq!(mounts[0].sub_path, None);
    assert_eq!(mounts[0].read_only, None, "default false omits the field");

    assert_eq!(mounts[1].name, "odoo-source");
    assert_eq!(mounts[1].mount_path, "/build");
    assert_eq!(mounts[1].sub_path.as_deref(), Some("build"));
}

#[test]
fn source_volume_mount_honours_read_only() {
    let mut inst = with_source_volume(base_instance("prod"));
    inst.spec.source_volume.as_mut().unwrap().mounts[0].read_only = true;
    assert_eq!(source_volume_mounts(&inst)[0].read_only, Some(true));
}

#[test]
fn custom_source_is_always_mounted_read_only() {
    let mut inst = with_source_volume(base_instance("prod"));
    inst.spec.custom_source_volume = Some(CustomSourceVolumeSpec {
        claim_name: "custom".to_string(),
        mounts: vec![SourceVolumeMount {
            mount_path: "/custom".to_string(),
            sub_path: None,
            read_only: false,
        }],
    });
    let volumes = source_volumes(&inst);
    assert_eq!(vol_names(&volumes), vec!["odoo-source", "odoo-custom-source"]);
    let claim = |v: &Volume| {
        let c = v.persistent_volume_claim.as_ref().unwrap();
        (c.claim_name.clone(), c.read_only)
    };
    assert_eq!(claim(&volumes[0]), ("prod-src".to_string(), None));
    assert_eq!(claim(&volumes[1]), ("custom".to_string(), Some(true)));
    let mounts = source_volume_mounts(&inst);
    assert_eq!(mounts.len(), 3);
    assert_eq!(mounts[2].name, "odoo-custom-source");
    assert_eq!(mounts[2].mount_path, "/custom");
    assert_eq!(mounts[2].read_only, Some(true));
    assert_eq!(odoo_volume_mounts_for(&inst).len(), 5);
}

#[test]
fn standard_volumes_are_filestore_and_conf() {
    let inst = base_instance("prod");
    let volumes = odoo_volumes(&inst);
    assert_eq!(vol_names(&volumes), vec!["filestore", "odoo-conf"]);
    assert_eq!(
        volumes[0].persistent_volume_claim.as_ref().unwrap().claim_name,
        "prod-filestore-pvc"
    );
    let mounts = odoo_volume_mounts();
    assert_eq!(mounts[0].name, "filestore");
    assert_eq!(mounts[0].mount_path, "/var/lib/odoo");
    assert_eq!(mounts[1], odoo_conf_mount());
}

// ── Security context ────────────────────────────────────────────────────────

#[test]
fn security_context_defaults_to_the_official_image_identity() {
    let sc = odoo_security_context(&base_instance("prod"));
    assert_eq!(sc.run_as_user, Some(100));
    assert_eq!(sc.run_as_group, Some(101));
    assert_eq!(sc.fs_group, Some(101), "fsGroup tracks runAsGroup");
}

#[test]
fn security_context_honours_overrides() {
    let mut inst = base_instance("prod");
    inst.spec.run_as_user = Some(10001);
    inst.spec.run_as_group = Some(10001);
    let sc = odoo_security_context(&inst);
    assert_eq!(sc.run_as_user, Some(10001));
    assert_eq!(sc.run_as_group, Some(10001));
    assert_eq!(sc.fs_group, Some(10001));
}

#[test]
fn security_context_overrides_are_independent() {
    let mut inst = base_instance("prod");
    inst.spec.run_as_user = Some(10001);
    let sc = odoo_security_context(&inst);
    assert_eq!(sc.run_as_user, Some(10001));
    assert_eq!(sc.run_as_group, Some(101), "group keeps its default");
    assert_eq!(sc.fs_group, Some(101));
}

#[test]
fn job_pods_carry_the_instance_security_context() {
    let mut inst = base_instance("prod");
    inst.spec.run_as_user = Some(10001);
    inst.spec.run_as_group = Some(10001);
    let job = OdooJobBuilder::new("prod-init-", "tenant", &inst, &inst).build();
    let sc = job
        .spec
        .unwrap()
        .template
        .spec
        .unwrap()
        .security_context
        .unwrap();
    assert_eq!(sc.run_as_user, Some(10001));
    assert_eq!(sc.fs_group, Some(10001));
}

// ── odoo.conf object: ConfigMap vs Secret ───────────────────────────────────

#[test]
fn odoo_conf_is_a_config_map_by_default() {
    let inst = base_instance("prod");
    assert!(!odoo_conf_in_secret(&inst));
    let vol = odoo_conf_volume(&inst);
    assert_eq!(vol.name, "odoo-conf");
    assert_eq!(vol.config_map.as_ref().unwrap().name, "prod-odoo-conf");
    assert!(vol.secret.is_none());
    assert_eq!(odoo_conf_name("prod"), "prod-odoo-conf");
}

#[test]
fn odoo_conf_moves_to_a_secret_when_the_password_is_secret_sourced() {
    let mut inst = base_instance("prod");
    inst.spec.admin_password = None;
    inst.spec.admin_password_secret_ref = Some(AdminPasswordSecretRef {
        name: "prod-admin-password".to_string(),
        key: "password".to_string(),
    });
    assert!(odoo_conf_in_secret(&inst));
    let vol = odoo_conf_volume(&inst);
    assert_eq!(vol.name, "odoo-conf", "volume name is unchanged");
    assert!(vol.config_map.is_none());
    assert_eq!(
        vol.secret.as_ref().unwrap().secret_name.as_deref(),
        Some("prod-odoo-conf"),
    );
    // The mount path is identical either way, so nothing downstream of
    // /etc/odoo/odoo.conf has to care which kind it is.
    assert_eq!(odoo_conf_mount().mount_path, "/etc/odoo");
}

// ── Labels, owners, names ───────────────────────────────────────────────────

#[test]
fn labels_carry_environment_instance_and_identity() {
    let mut inst = base_instance("prod");
    let mut labels = StringMap::of("droggol.sh/project-id", "p1");
    labels.insert("app".to_string(), "wrong".to_string());
    inst.metadata.labels = Some(labels);
    let out = instance_labels(&inst);
    assert_eq!(out.entries().len(), 3);
    assert_eq!(out.get("bemade.org/environment").unwrap(), "staging");
    assert_eq!(out.get("bemade.org/instance").unwrap(), "prod");
    assert_eq!(out.get("droggol.sh/project-id").unwrap(), "p1");
    assert!(!out.contains_key("app"));
}

#[test]
fn owner_reference_names_the_instance_as_controller() {
    let inst = base_instance("prod");
    let oref = controller_owner_ref(&inst);
    assert_eq!(oref.api_version, "bemade.org/v1alpha1");
    assert_eq!(oref.kind, "OdooInstance");
    assert_eq!(oref.name, "prod");
    assert_eq!(oref.uid, "uid-1234");
    assert_eq!(oref.controller, Some(true));
    assert_eq!(oref.block_owner_deletion, Some(true));

    let mut unnamed = base_instance("x");
    unnamed.metadata.name = None;
    unnamed.metadata.generate_name = Some("prod-".to_string());
    unnamed.metadata.uid = None;
    let oref = controller_owner_ref(&unnamed);
    assert_eq!((oref.name.as_str(), oref.uid.as_str()), ("prod-", ""));
}

#[test]
fn names_and_images() {
    let mut inst = base_instance("prod");
    assert_eq!(cron_depl_name(&inst), "prod-cron");
    assert_eq!(pg_tools_image(16), "postgres:16-alpine");
    assert_eq!(pg_tools_image(0), "postgres:0-alpine");
    assert!(image_pull_secrets(&inst).is_none());
    inst.spec.image_pull_secret = Some("registry".to_string());
    let secrets = image_pull_secrets(&inst).unwrap();
    assert_eq!(secrets.len(), 1);
    assert_eq!(secrets[0].name, "registry");
}

#[test]
fn staging_mail_goes_to_the_sink_and_production_mail_does_not() {
    let mut inst = base_instance("prod");
    let mut defaults = OperatorDefaults::default();
    assert!(staging_mail_env_vars(&inst, &defaults).is_empty());
    defaults.staging_smtp_host = "mailpit".to_string();
    defaults.staging_smtp_port = 1025;
    defaults.staging_smtp_encryption = "none".to_string();
    assert_eq!(
        staging_mail_env_vars(&inst, &defaults),
        vec![
            ev("MAIL_SMTP_HOST", "mailpit"),
            ev("MAIL_SMTP_PORT", "1025"),
            ev("MAIL_SMTP_ENCRYPTION", "none"),
        ]
    );
    inst.spec.environment = Environment::Production;
    assert!(staging_mail_env_vars(&inst, &defaults).is_empty());
}

// ── Job builder ─────────────────────────────────────────────────────────────

#[test]
fn job_builder_defaults() {
    let inst = with_source_volume(base_instance("prod"));
    let job = OdooJobBuilder::new("prod-init-", "tenant", &inst, &inst).build();
    assert_eq!(job.metadata.generate_name.as_deref(), Some("prod-init-"));
    assert_eq!(job.metadata.namespace.as_deref(), Some("tenant"));
    assert_eq!(job.metadata.owner_references.as_ref().unwrap()[0].name, "prod");
    assert_eq!(job.metadata.labels, Some(instance_labels(&inst)));
    let spec = job.spec.unwrap();
    assert_eq!(spec.backoff_limit, Some(0));
    assert_eq!(spec.ttl_seconds_after_finished, Some(900));
    assert_eq!(spec.active_deadline_seconds, None);
    assert_eq!(
        spec.template.metadata.unwrap().labels,
        Some(instance_labels(&inst))
    );
    let pod = spec.template.spec.unwrap();
    assert_eq!(pod.restart_policy.as_deref(), Some("Never"));
    assert!(pod.containers.is_empty());
    assert!(pod.init_containers.is_none());
    assert_eq!(
        vol_names(&pod.volumes.unwrap()),
        vec!["filestore", "odoo-conf"]
    );
}

#[test]
fn job_builder_overrides() {
    let mut inst = with_source_volume(base_instance("prod"));
    inst.spec.image_pull_secret = Some("registry".to_string());
    let container = |name: &str| Container {
        name: name.to_string(),
        ..Default::default()
    };
    let job = OdooJobBuilder::new("p-", "tenant", &inst, &inst)
        .with_source_volume(&inst)
        .extra_volumes(vec![Volume {
            name: "scratch".to_string(),
            ..Default::default()
        }])
        .containers(vec![container("main")])
        .init_containers(vec![container("first")])
        .active_deadline(3600)
        .backoff_limit(4)
        .affinity(Default::default())
        .build();
    let spec = job.spec.unwrap();
    assert_eq!(spec.backoff_limit, Some(4));
    assert_eq!(spec.active_deadline_seconds, Some(3600));
    let pod = spec.template.spec.unwrap();
    assert_eq!(pod.containers[0].name, "main");
    assert_eq!(pod.init_containers.unwrap()[0].name, "first");
    assert!(pod.affinity.is_some());
    assert_eq!(pod.image_pull_secrets.unwrap()[0].name, "registry");
    assert_eq!(
        vol_names(&pod.volumes.unwrap()),
        vec!["filestore", "odoo-conf", "odoo-source", "scratch"]
    );

    let bare = OdooJobBuilder::new("p-", "tenant", &inst, &inst)
        .without_standard_volumes()
        .init_containers(vec![])
        .build();
    let pod = bare.spec.unwrap().template.spec.unwrap();
    assert!(pod.volumes.unwrap().is_empty());
    assert!(pod.init_containers.is_none());
}

#[test]
fn only_the_standard_volumes_of_a_job_are_dropped() {
    let inst = with_source_volume(base_instance("prod"));
    let volume = |name: &str| Volume {
        name: name.to_string(),
        ..Default::default()
    };
    let job = OdooJobBuilder::new("p-", "tenant", &inst, &inst)
        .extra_volumes(vec![volume("scratch")])
        .without_standard_volumes()
        .build();
    let pod = job.spec.unwrap().template.spec.unwrap();
    assert_eq!(pod.volumes.unwrap(), vec![volume("scratch")]);
    let job = OdooJobBuilder::new("p-", "tenant", &inst, &inst)
        .with_source_volume(&inst)
        .without_standard_volumes()
        .extra_volumes(vec![volume("scratch")])
        .build();
    let pod = job.spec.unwrap().template.spec.unwrap();
    assert_eq!(
        vol_names(&pod.volumes.unwrap()),
        vec!["odoo-source", "scratch"]
    );
}
