//! The web and cron Deployments of an instance.

use vstd::prelude::*;

use crate::controller::child_resources::readonly::readonly_sql_env;
use crate::controller::helpers::{apply_extra_env, cron_depl_name, env, image_pull_secrets, instance_labels, odoo_command, odoo_security_context, odoo_volume_mounts_for, odoo_volumes, source_volumes};
use crate::controller::monitoring::apply_web_monitoring;
use crate::crd::odoo_instance::{DeploymentStrategyType, Environment, OdooInstance, OdooInstanceView, SourceVolumeMountView, WorkloadLayout};
use crate::helpers::{db_name, OperatorDefaults, OperatorDefaultsView};
use crate::k8s::apps::{Deployment, DeploymentSpec, DeploymentSpecView, DeploymentStrategy, DeploymentStrategyView, DeploymentView, RollingUpdateDeployment, RollingUpdateDeploymentView};
use crate::k8s::env::EnvVarView;
use crate::k8s::meta::{LabelSelector, LabelSelectorView, ObjectMeta, ObjectMetaView, OwnerReference, OwnerReferenceView};
use crate::k8s::opaque::{copy_tolerations, PodToleration};
use crate::k8s::pods::{Container, ContainerPort, ContainerPortView, ContainerView, ExecAction, ExecActionView, HTTPGetAction, HTTPGetActionView, IntOrString, IntOrStringView, PodSpec, PodSpecView, PodTemplateSpec, PodTemplateSpecView, Probe, ProbeView, ResourceRequirements};
use crate::k8s::volumes::{Volume, VolumeView};
use crate::string_map::{KeyedMap, StringMap};
use crate::text::{chars_of, decimal_number};

verus! {

// ── What both Deployments share ─────────────────────────────────────────────
/// The image of the Odoo containers.
pub open spec fn image_of(instance: OdooInstanceView, defaults: OperatorDefaultsView) -> Seq<char> {
    match instance.spec.image {
        Some(image) => image,
        None => defaults.odoo_image,
    }
}

/// The number of pods that a Deployment asks for now, none where it is not
/// there.
pub open spec fn replicas_now(current: Option<DeploymentView>) -> i32 {
    match current {
        Some(deployment) => match deployment.spec {
            Some(spec) => spec.replicas.unwrap_or(0),
            None => 0,
        },
        None => 0,
    }
}

/// A number of pods or a share of them. The API server takes a number as a number,
/// and as a text only a percentage, so a text of digits becomes the number.
pub open spec fn count_or_share(s: Seq<char>) -> IntOrStringView {
    if crate::text::is_decimal(s) && crate::text::decimal_value(s) <= i32::MAX {
        IntOrStringView::Int(crate::text::decimal_value(s) as i32)
    } else {
        IntOrStringView::Text(s)
    }
}

/// How the Deployments of an instance replace their pods. The parameters of a
/// rolling update go with that strategy alone.
pub open spec fn strategy_of(instance: OdooInstanceView) -> DeploymentStrategyView {
    match instance.spec.strategy {
        Some(strategy) => match strategy.strategy_type {
            DeploymentStrategyType::Recreate => DeploymentStrategyView {
                type_: Some("Recreate"@),
                rolling_update: None,
            },
            DeploymentStrategyType::RollingUpdate => DeploymentStrategyView {
                type_: Some("RollingUpdate"@),
                rolling_update: match strategy.rolling_update {
                    Some(update) => Some(
                        RollingUpdateDeploymentView {
                            max_unavailable: Some(count_or_share(update.max_unavailable)),
                            max_surge: Some(count_or_share(update.max_surge)),
                        },
                    ),
                    None => None,
                },
            },
        },
        None => DeploymentStrategyView { type_: Some("Recreate"@), rolling_update: None },
    }
}

/// The volumes of the pods of an instance.
pub open spec fn pod_volumes_of(instance: OdooInstanceView) -> Seq<VolumeView> {
    crate::controller::helpers::standard_volumes_of(instance)
        + crate::controller::helpers::source_volumes_of(instance)
}

/// The pods of an instance, with the given containers.
pub open spec fn pod_of(instance: OdooInstanceView, containers: Seq<ContainerView>) -> PodSpecView {
    PodSpecView {
        image_pull_secrets: crate::controller::helpers::pull_secrets_of(instance),
        affinity: instance.spec.affinity,
        tolerations: if instance.spec.tolerations.len() == 0 {
            None
        } else {
            Some(instance.spec.tolerations)
        },
        security_context: Some(crate::controller::helpers::security_context_of(instance)),
        volumes: Some(pod_volumes_of(instance)),
        containers,
        ..PodSpecView::blank()
    }
}

/// The labels of a Deployment and its pods.
pub open spec fn workload_labels(app: Seq<char>, instance: OdooInstanceView) -> Map<
    Seq<char>,
    Seq<char>,
> {
    Map::<Seq<char>, Seq<char>>::empty().insert("app"@, app).union_prefer_right(
        crate::controller::helpers::labels_of(instance),
    )
}

/// A Deployment of an instance. It selects its pods by `app` alone, since a
/// selector cannot change after creation, and its pods roll when odoo.conf
/// changes.
pub open spec fn workload(
    ns: Seq<char>,
    depl_name: Seq<char>,
    instance: OdooInstanceView,
    oref: OwnerReferenceView,
    replicas: i32,
    conf_hash: Seq<char>,
    pod: PodSpecView,
) -> DeploymentView {
    DeploymentView {
        metadata: ObjectMetaView {
            name: Some(depl_name),
            namespace: Some(ns),
            labels: Some(workload_labels(depl_name, instance)),
            owner_references: Some(seq![oref]),
            ..ObjectMetaView::blank()
        },
        spec: Some(
            DeploymentSpecView {
                replicas: Some(replicas),
                selector: LabelSelectorView {
                    match_labels: Some(
                        Map::<Seq<char>, Seq<char>>::empty().insert("app"@, depl_name),
                    ),
                },
                strategy: Some(strategy_of(instance)),
                template: PodTemplateSpecView {
                    metadata: Some(
                        ObjectMetaView {
                            labels: Some(workload_labels(depl_name, instance)),
                            annotations: Some(
                                Map::<Seq<char>, Seq<char>>::empty().insert(
                                    "bemade.org/odoo-conf-hash"@,
                                    conf_hash,
                                ),
                            ),
                            ..ObjectMetaView::blank()
                        },
                    ),
                    spec: Some(pod),
                },
            },
        ),
        status: None,
    }
}

fn image_for<'a>(instance: &'a OdooInstance, defaults: &'a OperatorDefaults) -> (r: &'a str)
    ensures
        r@ == image_of(instance.deep_view(), defaults.deep_view()),
{
    match &instance.spec.image {
        Some(image) => image.as_str(),
        None => defaults.odoo_image.as_str(),
    }
}

fn current_replicas(current: Option<&Deployment>) -> (r: i32)
    ensures
        r == replicas_now(current.deep_view()),
{
    match current {
        Some(deployment) => match &deployment.spec {
            Some(spec) => match spec.replicas {
                Some(replicas) => replicas,
                None => 0,
            },
            None => 0,
        },
        None => 0,
    }
}

fn pod_count(s: &str) -> (r: IntOrString)
    ensures
        r.deep_view() == count_or_share(s@),
{
    let chars = chars_of(s);
    match decimal_number(chars.as_slice()) {
        Some(n) => if n <= i32::MAX as u64 {
            IntOrString::Int(n as i32)
        } else {
            IntOrString::Text(s.to_string())
        },
        None => IntOrString::Text(s.to_string()),
    }
}

fn deployment_strategy(instance: &OdooInstance) -> (r: DeploymentStrategy)
    ensures
        r.deep_view() == strategy_of(instance.deep_view()),
{
    if let Some(strategy) = &instance.spec.strategy {
        if strategy.strategy_type == DeploymentStrategyType::RollingUpdate {
            let rolling_update = match &strategy.rolling_update {
                Some(update) => Some(
                    RollingUpdateDeployment {
                        max_unavailable: Some(pod_count(update.max_unavailable.as_str())),
                        max_surge: Some(pod_count(update.max_surge.as_str())),
                    },
                ),
                None => None,
            };
            return DeploymentStrategy { type_: Some("RollingUpdate".to_string()), rolling_update };
        }
    }
    DeploymentStrategy { type_: Some("Recreate".to_string()), rolling_update: None }
}

fn pod_volumes(instance: &OdooInstance) -> (r: Vec<Volume>)
    ensures
        r.deep_view() == pod_volumes_of(instance.deep_view()),
{
    let mut volumes = odoo_volumes(instance);
    let mut source = source_volumes(instance);
    volumes.append(&mut source);
    assert(volumes.deep_view() =~= pod_volumes_of(instance.deep_view()));
    volumes
}

fn pod_spec(instance: &OdooInstance, containers: Vec<Container>) -> (r: PodSpec)
    ensures
        r.deep_view() == pod_of(instance.deep_view(), containers.deep_view()),
{
    let tolerations: Option<Vec<PodToleration>> = if instance.spec.tolerations.len() == 0 {
        None
    } else {
        Some(copy_tolerations(&instance.spec.tolerations))
    };
    PodSpec {
        image_pull_secrets: image_pull_secrets(instance),
        affinity: instance.spec.affinity.clone(),
        tolerations,
        security_context: Some(odoo_security_context(instance)),
        volumes: Some(pod_volumes(instance)),
        containers,
        ..Default::default()
    }
}

fn app_labels(app: &str, instance: &OdooInstance) -> (r: StringMap)
    ensures
        r.deep_view() == workload_labels(app@, instance.deep_view()),
{
    let mut labels: StringMap = KeyedMap::of("app", app);
    labels.extend(instance_labels(instance));
    labels
}

fn make_workload(
    ns: &str,
    depl_name: &str,
    instance: &OdooInstance,
    oref: &OwnerReference,
    replicas: i32,
    conf_hash: &str,
    pod: PodSpec,
) -> (r: Deployment)
    ensures
        r.deep_view() == workload(
            ns@,
            depl_name@,
            instance.deep_view(),
            oref.deep_view(),
            replicas,
            conf_hash@,
            pod.deep_view(),
        ),
{
    let owners = vec![oref.clone()];
    assert(owners.deep_view() =~= seq![oref.deep_view()]);
    Deployment {
        metadata: ObjectMeta {
            name: Some(depl_name.to_string()),
            namespace: Some(ns.to_string()),
            labels: Some(app_labels(depl_name, instance)),
            owner_references: Some(owners),
            ..Default::default()
        },
        spec: Some(
            DeploymentSpec {
                replicas: Some(replicas),
                selector: LabelSelector { match_labels: Some(KeyedMap::of("app", depl_name)) },
                strategy: Some(deployment_strategy(instance)),
                template: PodTemplateSpec {
                    metadata: Some(
                        ObjectMeta {
                            labels: Some(app_labels(depl_name, instance)),
                            annotations: Some(
                                KeyedMap::of("bemade.org/odoo-conf-hash", conf_hash),
                            ),
                            ..Default::default()
                        },
                    ),
                    spec: Some(pod),
                },
            },
        ),
        status: None,
    }
}

fn copy_resources(resources: &Option<ResourceRequirements>) -> (r: Option<ResourceRequirements>)
    ensures
        r.deep_view() == resources.deep_view(),
{
    match resources {
        Some(resources) => Some(resources.clone()),
        None => None,
    }
}

// ── The cron container ──────────────────────────────────────────────────────
/// The command of a probe of the cron container.
pub open spec fn cron_probe_command(check: Seq<char>) -> Seq<Seq<char>> {
    seq!["/usr/bin/python3"@, "-I"@, "-S"@, "/usr/local/bin/dsh-cron-probe"@, check]
}

/// How often the startup probe of the cron container may fail. A combined pod
/// that unpacks its source first runs under a small CPU cap and gets more time.
pub open spec fn cron_startup_failures(instance: OdooInstanceView) -> i32 {
    if instance.spec.workload_layout == WorkloadLayout::Combined
        && instance.spec.source_volume is Some {
        60
    } else {
        30
    }
}

/// The container that runs the scheduled actions of an instance.
pub open spec fn cron_container_of(
    name: Seq<char>,
    image: Seq<char>,
    instance: OdooInstanceView,
) -> ContainerView {
    crate::controller::helpers::with_extra_env(
        ContainerView {
            name: "odoo-cron-"@ + name,
            image: Some(image),
            image_pull_policy: Some("IfNotPresent"@),
            command: Some(
                crate::controller::helpers::entrypoint_of(instance) + seq![
                    "--workers"@,
                    "0"@,
                    "--no-http"@,
                ],
            ),
            env: Some(
                seq![
                    crate::controller::helpers::plain_env(
                        "PGDATABASE"@,
                        crate::helpers::db_name_of(instance),
                    ),
                ],
            ),
            volume_mounts: Some(crate::controller::helpers::odoo_mounts_of(instance)),
            resources: instance.spec.cron.resources,
            startup_probe: Some(
                ProbeView {
                    initial_delay_seconds: Some(5),
                    period_seconds: Some(10),
                    timeout_seconds: Some(5),
                    failure_threshold: Some(cron_startup_failures(instance)),
                    exec_action: Some(
                        ExecActionView { command: Some(cron_probe_command("startup"@)) },
                    ),
                    ..ProbeView::blank()
                },
            ),
            liveness_probe: Some(
                ProbeView {
                    initial_delay_seconds: Some(300),
                    period_seconds: Some(30),
                    timeout_seconds: Some(5),
                    failure_threshold: Some(3),
                    exec_action: Some(
                        ExecActionView { command: Some(cron_probe_command("liveness"@)) },
                    ),
                    ..ProbeView::blank()
                },
            ),
            ..ContainerView::blank()
        },
        instance,
    )
}

fn cron_probe(check: &str) -> (r: ExecAction)
    ensures
        r.deep_view() == (ExecActionView { command: Some(cron_probe_command(check@)) }),
{
    let command = vec![
        "/usr/bin/python3".to_string(),
        "-I".to_string(),
        "-S".to_string(),
        "/usr/local/bin/dsh-cron-probe".to_string(),
        check.to_string(),
    ];
    assert(command.deep_view() =~= cron_probe_command(check@));
    ExecAction { command: Some(command) }
}

/// The container that runs the scheduled actions of an instance: no HTTP, and
/// probes by a command, since it has no port.
pub fn cron_container(name: &str, image: &str, instance: &OdooInstance) -> (r: Container)
    ensures
        r.deep_view() == cron_container_of(name@, image@, instance.deep_view()),
{
    let command = odoo_command(instance, &["--workers", "0", "--no-http"]);
    assert(command.deep_view() =~= crate::controller::helpers::entrypoint_of(instance.deep_view())
        + seq!["--workers"@, "0"@, "--no-http"@]);
    let vars = vec![env("PGDATABASE", db_name(instance).as_str())];
    assert(vars.deep_view() =~= seq![
        crate::controller::helpers::plain_env(
            "PGDATABASE"@,
            crate::helpers::db_name_of(instance.deep_view()),
        ),
    ]);
    let failures: i32 = if instance.spec.workload_layout == WorkloadLayout::Combined
        && instance.spec.source_volume.is_some() {
        60
    } else {
        30
    };
    apply_extra_env(
        Container {
            name: "odoo-cron-".to_string().concat(name),
            image: Some(image.to_string()),
            image_pull_policy: Some("IfNotPresent".to_string()),
            command: Some(command),
            env: Some(vars),
            volume_mounts: Some(odoo_volume_mounts_for(instance)),
            resources: copy_resources(&instance.spec.cron.resources),
            startup_probe: Some(
                Probe {
                    initial_delay_seconds: Some(5),
                    period_seconds: Some(10),
                    timeout_seconds: Some(5),
                    failure_threshold: Some(failures),
                    exec_action: Some(cron_probe("startup")),
                    ..Default::default()
                },
            ),
            liveness_probe: Some(
                Probe {
                    initial_delay_seconds: Some(300),
                    period_seconds: Some(30),
                    timeout_seconds: Some(5),
                    failure_threshold: Some(3),
                    exec_action: Some(cron_probe("liveness")),
                    ..Default::default()
                },
            ),
            ..Default::default()
        },
        instance,
    )
}

// ── The web container ───────────────────────────────────────────────────────
/// A probe of the web server.
pub open spec fn http_probe(path: Seq<char>) -> ProbeView {
    ProbeView {
        http_get: Some(HTTPGetActionView { path: Some(path), port: IntOrStringView::Int(8069) }),
        ..ProbeView::blank()
    }
}

/// The path of the startup probe.
pub open spec fn startup_path(instance: OdooInstanceView) -> Seq<char> {
    match instance.spec.probes {
        Some(probes) => probes.startup_path,
        None => "/web/health"@,
    }
}

/// The path of the liveness probe.
pub open spec fn liveness_path(instance: OdooInstanceView) -> Seq<char> {
    match instance.spec.probes {
        Some(probes) => probes.liveness_path,
        None => "/web/health"@,
    }
}

/// The path of the readiness probe.
pub open spec fn readiness_path(instance: OdooInstanceView) -> Seq<char> {
    match instance.spec.probes {
        Some(probes) => probes.readiness_path,
        None => "/web/health"@,
    }
}

/// The ports of the web server.
pub open spec fn web_ports() -> Seq<ContainerPortView> {
    seq![
        ContainerPortView { name: Some("http"@), container_port: 8069 },
        ContainerPortView { name: Some("websocket"@), container_port: 8072 },
    ]
}

/// The container that serves an instance.
pub open spec fn web_container_of(
    name: Seq<char>,
    image: Seq<char>,
    instance: OdooInstanceView,
) -> ContainerView {
    crate::controller::helpers::with_extra_env(
        ContainerView {
            name: "odoo-"@ + name,
            image: Some(image),
            image_pull_policy: Some("IfNotPresent"@),
            command: Some(
                crate::controller::helpers::entrypoint_of(instance) + seq![
                    "--max-cron-threads"@,
                    "0"@,
                ],
            ),
            ports: Some(web_ports()),
            env: Some(
                seq![
                    crate::controller::helpers::plain_env(
                        "PGDATABASE"@,
                        crate::helpers::db_name_of(instance),
                    ),
                ] + crate::controller::child_resources::readonly::readonly_env_of(instance),
            ),
            volume_mounts: Some(crate::controller::helpers::odoo_mounts_of(instance)),
            resources: instance.spec.resources,
            startup_probe: Some(
                ProbeView {
                    initial_delay_seconds: Some(5),
                    period_seconds: Some(10),
                    timeout_seconds: Some(5),
                    failure_threshold: Some(30),
                    ..http_probe(startup_path(instance))
                },
            ),
            liveness_probe: Some(
                ProbeView {
                    period_seconds: Some(15),
                    timeout_seconds: Some(5),
                    failure_threshold: Some(3),
                    ..http_probe(liveness_path(instance))
                },
            ),
            readiness_probe: Some(
                ProbeView {
                    period_seconds: Some(10),
                    timeout_seconds: Some(5),
                    failure_threshold: Some(3),
                    ..http_probe(readiness_path(instance))
                },
            ),
            ..ContainerView::blank()
        },
        instance,
    )
}

fn make_http_probe(path: &str) -> (r: Probe)
    ensures
        r.deep_view() == http_probe(path@),
{
    Probe {
        http_get: Some(
            HTTPGetAction { path: Some(path.to_string()), port: IntOrString::Int(8069) },
        ),
        ..Default::default()
    }
}

/// The container that serves an instance: HTTP and websocket, no scheduled
/// actions. The database is named in the environment, which Odoo reads before
/// its configuration file.
pub fn web_container(name: &str, image: &str, instance: &OdooInstance) -> (r: Container)
    ensures
        r.deep_view() == web_container_of(name@, image@, instance.deep_view()),
{
    let command = odoo_command(instance, &["--max-cron-threads", "0"]);
    assert(command.deep_view() =~= crate::controller::helpers::entrypoint_of(instance.deep_view())
        + seq!["--max-cron-threads"@, "0"@]);
    let ports = vec![
        ContainerPort { name: Some("http".to_string()), container_port: 8069 },
        ContainerPort { name: Some("websocket".to_string()), container_port: 8072 },
    ];
    assert(ports.deep_view() =~= web_ports());
    let mut vars = vec![env("PGDATABASE", db_name(instance).as_str())];
    let mut readonly = readonly_sql_env(instance);
    vars.append(&mut readonly);
    assert(vars.deep_view() =~= seq![
        crate::controller::helpers::plain_env(
            "PGDATABASE"@,
            crate::helpers::db_name_of(instance.deep_view()),
        ),
    ] + crate::controller::child_resources::readonly::readonly_env_of(instance.deep_view()));
    let startup = match &instance.spec.probes {
        Some(probes) => make_http_probe(probes.startup_path.as_str()),
        None => make_http_probe("/web/health"),
    };
    let liveness = match &instance.spec.probes {
        Some(probes) => make_http_probe(probes.liveness_path.as_str()),
        None => make_http_probe("/web/health"),
    };
    let readiness = match &instance.spec.probes {
        Some(probes) => make_http_probe(probes.readiness_path.as_str()),
        None => make_http_probe("/web/health"),
    };
    apply_extra_env(
        Container {
            name: "odoo-".to_string().concat(name),
            image: Some(image.to_string()),
            image_pull_policy: Some("IfNotPresent".to_string()),
            command: Some(command),
            ports: Some(ports),
            env: Some(vars),
            volume_mounts: Some(odoo_volume_mounts_for(instance)),
            resources: copy_resources(&instance.spec.resources),
            startup_probe: Some(
                Probe {
                    initial_delay_seconds: Some(5),
                    period_seconds: Some(10),
                    timeout_seconds: Some(5),
                    failure_threshold: Some(30),
                    ..startup
                },
            ),
            liveness_probe: Some(
                Probe {
                    period_seconds: Some(15),
                    timeout_seconds: Some(5),
                    failure_threshold: Some(3),
                    ..liveness
                },
            ),
            readiness_probe: Some(
                Probe {
                    period_seconds: Some(10),
                    timeout_seconds: Some(5),
                    failure_threshold: Some(3),
                    ..readiness
                },
            ),
            ..Default::default()
        },
        instance,
    )
}

// ── The Deployments ─────────────────────────────────────────────────────────
/// The containers of the web pod: the cron container joins it in the combined
/// layout.
pub open spec fn web_containers_of(
    name: Seq<char>,
    instance: OdooInstanceView,
    defaults: OperatorDefaultsView,
) -> Seq<ContainerView> {
    let web = seq![web_container_of(name, image_of(instance, defaults), instance)];
    if instance.spec.workload_layout == WorkloadLayout::Combined {
        web.push(cron_container_of(name, image_of(instance, defaults), instance))
    } else {
        web
    }
}

/// The pod of the web Deployment.
pub open spec fn web_pod_of(
    name: Seq<char>,
    instance: OdooInstanceView,
    defaults: OperatorDefaultsView,
) -> PodSpecView {
    crate::controller::monitoring::with_web_monitoring(
        pod_of(instance, web_containers_of(name, instance, defaults)),
        instance,
    )
}

/// The web Deployment of an instance.
pub open spec fn deployment_of(
    ns: Seq<char>,
    name: Seq<char>,
    instance: OdooInstanceView,
    defaults: OperatorDefaultsView,
    oref: OwnerReferenceView,
    current: Option<DeploymentView>,
    conf_hash: Seq<char>,
) -> DeploymentView {
    workload(
        ns,
        name,
        instance,
        oref,
        replicas_now(current),
        conf_hash,
        web_pod_of(name, instance, defaults),
    )
}

/// The web Deployment that an instance is to have, given the one that it has and
/// the hash of the odoo.conf that its pods mount.
///
/// Scaling belongs to the state machine: the number of pods asked for stays what
/// it is.
pub fn desired_deployment(
    ns: &str,
    name: &str,
    instance: &OdooInstance,
    defaults: &OperatorDefaults,
    oref: &OwnerReference,
    current: Option<&Deployment>,
    conf_hash: &str,
) -> (r: Deployment)
    ensures
        r.deep_view() == deployment_of(
            ns@,
            name@,
            instance.deep_view(),
            defaults.deep_view(),
            oref.deep_view(),
            current.deep_view(),
            conf_hash@,
        ),
{
    let image = image_for(instance, defaults);
    let mut containers = vec![web_container(name, image, instance)];
    if instance.spec.workload_layout == WorkloadLayout::Combined {
        containers.push(cron_container(name, image, instance));
    }
    assert(containers.deep_view() =~= web_containers_of(
        name@,
        instance.deep_view(),
        defaults.deep_view(),
    ));
    let mut pod = pod_spec(instance, containers);
    apply_web_monitoring(&mut pod, instance);
    make_workload(ns, name, instance, oref, current_replicas(current), conf_hash, pod)
}

/// The cron Deployment of an instance.
pub open spec fn cron_deployment_of(
    ns: Seq<char>,
    name: Seq<char>,
    instance: OdooInstanceView,
    defaults: OperatorDefaultsView,
    oref: OwnerReferenceView,
    current: Option<DeploymentView>,
    conf_hash: Seq<char>,
) -> DeploymentView {
    workload(
        ns,
        instance.name() + "-cron"@,
        instance,
        oref,
        replicas_now(current),
        conf_hash,
        pod_of(
            instance,
            seq![cron_container_of(name, image_of(instance, defaults), instance)],
        ),
    )
}

/// The cron Deployment that an instance is to have in the separate layout, given
/// the one that it has and the hash of the odoo.conf that its pods mount.
pub fn desired_cron_deployment(
    ns: &str,
    name: &str,
    instance: &OdooInstance,
    defaults: &OperatorDefaults,
    oref: &OwnerReference,
    current: Option<&Deployment>,
    conf_hash: &str,
) -> (r: Deployment)
    ensures
        r.deep_view() == cron_deployment_of(
            ns@,
            name@,
            instance.deep_view(),
            defaults.deep_view(),
            oref.deep_view(),
            current.deep_view(),
            conf_hash@,
        ),
{
    let depl_name = cron_depl_name(instance);
    let containers = vec![cron_container(name, image_for(instance, defaults), instance)];
    assert(containers.deep_view() =~= seq![
        cron_container_of(
            name@,
            image_of(instance.deep_view(), defaults.deep_view()),
            instance.deep_view(),
        ),
    ]);
    let pod = pod_spec(instance, containers);
    make_workload(
        ns,
        depl_name.as_str(),
        instance,
        oref,
        current_replicas(current),
        conf_hash,
        pod,
    )
}

// ── Laws ────────────────────────────────────────────────────────────────────
/// A Deployment selects its pods by `app` alone, its pods carry that label, and
/// beside it only what [`crate::controller::helpers::pod_label_keys`] allows.
pub proof fn selector_is_app_alone(
    ns: Seq<char>,
    depl_name: Seq<char>,
    instance: OdooInstanceView,
    oref: OwnerReferenceView,
    replicas: i32,
    conf_hash: Seq<char>,
    pod: PodSpecView,
)
    ensures
        ({
            let spec = workload(ns, depl_name, instance, oref, replicas, conf_hash, pod).spec->0;
            let labels = spec.template.metadata->0.labels->0;
            &&& spec.selector.match_labels->0.dom() == set!["app"@]
            &&& spec.selector.match_labels->0["app"@] == depl_name
            &&& labels.get("app"@) == Some(depl_name)
            &&& forall|key: Seq<char>| #[trigger]
                labels.contains_key(key) ==> key == "app"@
                    || crate::controller::helpers::pod_label_keys().contains(key)
        }),
{
    let labels = workload_labels(depl_name, instance);
    crate::controller::helpers::labels_are_allow_listed(instance, "app"@);
    assert forall|key: Seq<char>| #[trigger] labels.contains_key(key) implies key == "app"@
        || crate::controller::helpers::pod_label_keys().contains(key) by {
        crate::controller::helpers::labels_are_allow_listed(instance, key);
    }
    assert(Map::<Seq<char>, Seq<char>>::empty().insert("app"@, depl_name).dom() =~= set!["app"@]);
}

/// Applying the Deployments of an instance never scales them: the number of pods
/// that the cluster asks for is asked for again, and none where there is no
/// Deployment yet.
pub proof fn applying_never_scales(
    ns: Seq<char>,
    name: Seq<char>,
    instance: OdooInstanceView,
    defaults: OperatorDefaultsView,
    oref: OwnerReferenceView,
    current: Option<DeploymentView>,
    conf_hash: Seq<char>,
)
    ensures
        replicas_now(
            Some(deployment_of(ns, name, instance, defaults, oref, current, conf_hash)),
        ) == replicas_now(current),
        replicas_now(
            Some(cron_deployment_of(ns, name, instance, defaults, oref, current, conf_hash)),
        ) == replicas_now(current),
        current is None ==> replicas_now(current) == 0,
{
}

/// The texts that the volumes of a pod are named by are all different.
proof fn volume_names_differ()
    ensures
        "filestore"@.len() == 9,
        "filestore"@[0] == 'f',
        "odoo-conf"@.len() == 9,
        "odoo-conf"@[0] == 'o',
        crate::controller::helpers::SOURCE_VOLUME_NAME@.len() == 11,
        crate::controller::helpers::CUSTOM_SOURCE_VOLUME_NAME@.len() == 18,
        crate::controller::monitoring::STATE_VOLUME@.len() == 24,
        crate::controller::monitoring::CONFIG_VOLUME@.len() == 25,
{
    reveal_strlit("filestore");
    reveal_strlit("odoo-conf");
    reveal_strlit("odoo-source");
    reveal_strlit("odoo-custom-source");
    reveal_strlit("droggol-monitoring-state");
    reveal_strlit("droggol-monitoring-config");
}

/// No two volumes of the web pod have the same name.
pub proof fn web_volume_names_are_distinct(
    name: Seq<char>,
    instance: OdooInstanceView,
    defaults: OperatorDefaultsView,
)
    ensures
        ({
            let volumes = web_pod_of(name, instance, defaults).volumes->0;
            forall|i: int, j: int|
                0 <= i < j < volumes.len() ==> (#[trigger] volumes[i]).name != (
                #[trigger] volumes[j]).name
        }),
{
    volume_names_differ();
}

/// Every mount of a container that executes Odoo is of a volume of its pod.
pub proof fn odoo_mounts_have_volumes(instance: OdooInstanceView, i: int)
    requires
        0 <= i < crate::controller::helpers::odoo_mounts_of(instance).len(),
    ensures
        exists|j: int|
            0 <= j < pod_volumes_of(instance).len() && (#[trigger] pod_volumes_of(
                instance,
            )[j]).name == crate::controller::helpers::odoo_mounts_of(instance)[i].name,
{
    let volumes = pod_volumes_of(instance);
    let standard = crate::controller::helpers::standard_volumes_of(instance);
    let source = crate::controller::helpers::source_volumes_of(instance);
    assert(standard.len() == 2);
    if i < 2 {
        assert(volumes[i].name == crate::controller::helpers::odoo_mounts_of(instance)[i].name);
    } else {
        let mount = crate::controller::helpers::source_mounts_of(instance)[i - 2];
        if instance.spec.source_volume matches Some(v) && i - 2 < v.mounts.len() {
            assert(mount.name == crate::controller::helpers::SOURCE_VOLUME_NAME@);
            assert(volumes[2] == source[0]);
        } else {
            assert(mount.name == crate::controller::helpers::CUSTOM_SOURCE_VOLUME_NAME@);
            assert(volumes[volumes.len() - 1] == source[source.len() - 1]);
        }
    }
}

/// An instance with other monitoring.
pub open spec fn with_monitoring(
    instance: OdooInstanceView,
    monitoring: Option<crate::crd::odoo_instance::MonitoringSpecView>,
) -> OdooInstanceView {
    OdooInstanceView {
        spec: crate::crd::odoo_instance::OdooInstanceSpecView { monitoring, ..instance.spec },
        ..instance
    }
}

/// Monitoring is for the web container alone: the cron Deployment is the same
/// whatever the instance says of monitoring, and so is a cron container that
/// shares the web pod.
pub proof fn cron_is_never_monitored(
    ns: Seq<char>,
    name: Seq<char>,
    instance: OdooInstanceView,
    defaults: OperatorDefaultsView,
    oref: OwnerReferenceView,
    current: Option<DeploymentView>,
    conf_hash: Seq<char>,
    monitoring: Option<crate::crd::odoo_instance::MonitoringSpecView>,
)
    ensures
        cron_deployment_of(ns, name, instance, defaults, oref, current, conf_hash)
            == cron_deployment_of(
            ns,
            name,
            with_monitoring(instance, monitoring),
            defaults,
            oref,
            current,
            conf_hash,
        ),
        instance.spec.workload_layout == WorkloadLayout::Combined ==> web_pod_of(
            name,
            instance,
            defaults,
        ).containers[1] == cron_container_of(name, image_of(instance, defaults), instance),
        cron_container_of(name, image_of(instance, defaults), instance) == cron_container_of(
            name,
            image_of(instance, defaults),
            with_monitoring(instance, monitoring),
        ),
{
    let other = with_monitoring(instance, monitoring);
    assert(crate::controller::helpers::labels_of(instance)
        == crate::controller::helpers::labels_of(other));
}

/// The containers of the web pod, in order: web, cron in the combined layout
/// alone, and the exporter where the instance is monitored. Only the web
/// container listens for Odoo's clients.
pub proof fn web_pod_containers(
    name: Seq<char>,
    instance: OdooInstanceView,
    defaults: OperatorDefaultsView,
)
    ensures
        ({
            let containers = web_pod_of(name, instance, defaults).containers;
            let combined = instance.spec.workload_layout == WorkloadLayout::Combined;
            let monitored = crate::controller::monitoring::is_monitored(instance);
            &&& containers.len() == 1 + (if combined {
                1int
            } else {
                0
            }) + (if monitored {
                1int
            } else {
                0
            })
            &&& containers[0].name == "odoo-"@ + name
            &&& containers[0].ports == Some(web_ports())
            &&& combined ==> containers[1].name == "odoo-cron-"@ + name && containers[1].ports
                is None && containers[1].readiness_probe is None
            &&& monitored ==> containers.last().name == "odoo-statsd-exporter"@
        }),
{
}

/// Every container that executes Odoo runs the image that the spec names; where it
/// names none, every one runs the operator's default. Web and cron thus always run the
/// same image, in either layout.
pub proof fn odoo_containers_run_the_image_of_the_spec(
    ns: Seq<char>,
    name: Seq<char>,
    instance: OdooInstanceView,
    defaults: OperatorDefaultsView,
    oref: OwnerReferenceView,
    current: Option<DeploymentView>,
    conf_hash: Seq<char>,
)
    ensures
        ({
            let web = deployment_of(
                ns,
                name,
                instance,
                defaults,
                oref,
                current,
                conf_hash,
            ).spec->0.template.spec->0.containers;
            let cron = cron_deployment_of(
                ns,
                name,
                instance,
                defaults,
                oref,
                current,
                conf_hash,
            ).spec->0.template.spec->0.containers;
            let combined = instance.spec.workload_layout == WorkloadLayout::Combined;
            &&& web.len() == 1 + (if combined {
                1int
            } else {
                0
            }) + (if instance.spec.monitoring is Some && instance.spec.environment
                == Environment::Production {
                1int
            } else {
                0
            })
            &&& cron.len() == 1
            &&& instance.spec.image matches Some(image) ==> web[0].image == Some(image)
                && cron[0].image == Some(image) && (combined ==> web.len() > 1 && web[1].image
                == Some(image))
            &&& instance.spec.image is None ==> web[0].image == Some(defaults.odoo_image)
                && cron[0].image == Some(defaults.odoo_image) && (combined ==> web.len() > 1
                && web[1].image == Some(defaults.odoo_image))
            &&& web[0].image == cron[0].image
            &&& web[0].image_pull_policy == Some("IfNotPresent"@)
            &&& cron[0].image_pull_policy == Some("IfNotPresent"@)
        }),
{
}

/// Both Deployments stand in the instance's namespace and belong to the instance.
/// The web one has the instance's name, the cron one that and `-cron`, and each
/// selects its own pods by that name. Both ask for as many pods as before, none where
/// there was no Deployment, and both roll when the hash of odoo.conf changes, for that
/// alone marks their pods.
pub proof fn deployments_belong_to_the_instance(
    ns: Seq<char>,
    name: Seq<char>,
    instance: OdooInstanceView,
    defaults: OperatorDefaultsView,
    oref: OwnerReferenceView,
    current: Option<DeploymentView>,
    conf_hash: Seq<char>,
    deployment: DeploymentView,
    app: Seq<char>,
)
    requires
        (deployment == deployment_of(ns, name, instance, defaults, oref, current, conf_hash) && app
            == name) || (deployment == cron_deployment_of(
            ns,
            name,
            instance,
            defaults,
            oref,
            current,
            conf_hash,
        ) && app == instance.metadata.name_any() + "-cron"@),
    ensures
        ({
            let spec = deployment.spec->0;
            let labels = deployment.metadata.labels->0;
            let selector = spec.selector.match_labels->0;
            let annotations = spec.template.metadata->0.annotations->0;
            &&& deployment.metadata.name == Some(app)
            &&& deployment.metadata.namespace == Some(ns)
            &&& deployment.metadata.owner_references == Some(seq![oref])
            &&& deployment.metadata.annotations is None
            &&& deployment.status is None
            &&& deployment.metadata.labels is Some
            &&& deployment.spec is Some
            &&& spec.template.metadata is Some
            &&& spec.template.metadata->0.labels == Some(labels)
            &&& labels.get("app"@) == Some(app)
            &&& labels.get("bemade.org/environment"@) == Some(
                if instance.spec.environment == Environment::Staging {
                    "staging"@
                } else {
                    "production"@
                },
            )
            &&& labels.get("bemade.org/instance"@) == Some(instance.metadata.name_any())
            &&& labels.get("droggol.sh/server-id"@) == instance.metadata.labels_or_empty().get(
                "droggol.sh/server-id"@,
            )
            &&& labels.get("droggol.sh/project-id"@) == instance.metadata.labels_or_empty().get(
                "droggol.sh/project-id"@,
            )
            &&& labels.get("droggol.sh/instance-id"@) == instance.metadata.labels_or_empty().get(
                "droggol.sh/instance-id"@,
            )
            &&& forall|key: Seq<char>|
                #![trigger labels.contains_key(key)]
                labels.contains_key(key) ==> key == "app"@ || key == "bemade.org/environment"@
                    || key == "bemade.org/instance"@ || key == "droggol.sh/server-id"@ || key
                    == "droggol.sh/project-id"@ || key == "droggol.sh/instance-id"@
            &&& spec.selector.match_labels is Some
            &&& forall|key: Seq<char>| #[trigger] selector.contains_key(key) <==> key == "app"@
            &&& selector["app"@] == app
            &&& spec.template.metadata->0.annotations is Some
            &&& forall|key: Seq<char>| #[trigger]
                annotations.contains_key(key) <==> key == "bemade.org/odoo-conf-hash"@
            &&& annotations["bemade.org/odoo-conf-hash"@] == conf_hash
            &&& spec.replicas == Some(
                if current matches Some(there) && (there.spec matches Some(asked)
                    && asked.replicas is Some) {
                    current->0.spec->0.replicas->0
                } else {
                    0
                },
            )
        }),
{
    let labels = deployment.metadata.labels->0;
    assert(labels == workload_labels(app, instance));
    crate::controller::helpers::labels_are_allow_listed(instance, "app"@);
    assert forall|key: Seq<char>| #[trigger] labels.contains_key(key) implies key == "app"@
        || crate::controller::helpers::pod_label_keys().contains(key) by {
        crate::controller::helpers::labels_are_allow_listed(instance, key);
    }
    reveal_strlit("app");
    reveal_strlit("droggol.sh/server-id");
    reveal_strlit("droggol.sh/project-id");
    reveal_strlit("droggol.sh/instance-id");
    assert("app"@.len() == 3 && "droggol.sh/server-id"@.len() == 20
        && "droggol.sh/project-id"@.len() == 21 && "droggol.sh/instance-id"@.len() == 22);
    let own = crate::controller::helpers::labels_of(instance);
    assert forall|key: Seq<char>| key != "app"@ implies #[trigger] labels.get(key) == own.get(
        key,
    ) by {
        assert(labels.contains_key(key) == own.contains_key(key));
    }
}

/// Pods are replaced as the spec says: all at once where it says so or says nothing,
/// and one after the other where it asks for a rolling update, whose two limits go
/// along as they were written. Both Deployments are replaced in the same way.
pub proof fn pods_are_replaced_as_the_spec_says(
    ns: Seq<char>,
    name: Seq<char>,
    instance: OdooInstanceView,
    defaults: OperatorDefaultsView,
    oref: OwnerReferenceView,
    current: Option<DeploymentView>,
    conf_hash: Seq<char>,
)
    ensures
        ({
            let strategy = deployment_of(
                ns,
                name,
                instance,
                defaults,
                oref,
                current,
                conf_hash,
            ).spec->0.strategy->0;
            let rolling = instance.spec.strategy matches Some(asked) && asked.strategy_type
                == DeploymentStrategyType::RollingUpdate;
            let limits = rolling && instance.spec.strategy->0.rolling_update is Some;
            let asked = instance.spec.strategy->0.rolling_update->0;
            &&& deployment_of(
                ns,
                name,
                instance,
                defaults,
                oref,
                current,
                conf_hash,
            ).spec->0.strategy is Some
            &&& cron_deployment_of(
                ns,
                name,
                instance,
                defaults,
                oref,
                current,
                conf_hash,
            ).spec->0.strategy == Some(strategy)
            &&& strategy.type_ == Some(
                if rolling {
                    "RollingUpdate"@
                } else {
                    "Recreate"@
                },
            )
            &&& strategy.rolling_update is Some <==> limits
            &&& limits ==> {
                let unavailable = strategy.rolling_update->0.max_unavailable;
                let surge = strategy.rolling_update->0.max_surge;
                &&& !crate::text::is_decimal(asked.max_unavailable) ==> unavailable == Some(
                    IntOrStringView::Text(asked.max_unavailable),
                )
                &&& crate::text::is_decimal(asked.max_unavailable) && crate::text::decimal_value(
                    asked.max_unavailable,
                ) <= i32::MAX ==> unavailable == Some(
                    IntOrStringView::Int(
                        crate::text::decimal_value(asked.max_unavailable) as i32,
                    ),
                )
                &&& !crate::text::is_decimal(asked.max_surge) ==> surge == Some(
                    IntOrStringView::Text(asked.max_surge),
                )
                &&& crate::text::is_decimal(asked.max_surge) && crate::text::decimal_value(
                    asked.max_surge,
                ) <= i32::MAX ==> surge == Some(
                    IntOrStringView::Int(crate::text::decimal_value(asked.max_surge) as i32),
                )
            }
        }),
{
}

/// A number that fits is a number, and anything else is a text as it was written.
pub proof fn counts_are_numbers_and_shares_are_texts(n: nat, s: Seq<char>)
    ensures
        n <= i32::MAX ==> count_or_share(crate::text::decimal(n)) == IntOrStringView::Int(n as i32),
        n > i32::MAX ==> count_or_share(crate::text::decimal(n)) == IntOrStringView::Text(
            crate::text::decimal(n),
        ),
        !crate::text::is_decimal(s) ==> count_or_share(s) == IntOrStringView::Text(s),
{
    crate::text::decimal_reads_back(n);
}

/// What the pods of both Deployments have from the spec: the pull secret, the
/// affinity, the tolerations, the identity, and the volumes of the filestore, of
/// odoo.conf and of the source claims, in that order. A web pod that is not monitored
/// has no more volumes than that, and neither has a cron pod.
pub proof fn pods_follow_the_spec(
    ns: Seq<char>,
    name: Seq<char>,
    instance: OdooInstanceView,
    defaults: OperatorDefaultsView,
    oref: OwnerReferenceView,
    current: Option<DeploymentView>,
    conf_hash: Seq<char>,
    cron: bool,
    pod: PodSpecView,
)
    requires
        cron ==> cron_deployment_of(
            ns,
            name,
            instance,
            defaults,
            oref,
            current,
            conf_hash,
        ).spec->0.template.spec == Some(pod),
        !cron ==> deployment_of(
            ns,
            name,
            instance,
            defaults,
            oref,
            current,
            conf_hash,
        ).spec->0.template.spec == Some(pod),
    ensures
        ({
            let volumes = pod.volumes->0;
            let context = pod.security_context->0;
            let monitored = !cron && instance.spec.monitoring is Some && instance.spec.environment
                == Environment::Production;
            let sources = (if instance.spec.source_volume is Some {
                1int
            } else {
                0
            }) + (if instance.spec.custom_source_volume is Some {
                1int
            } else {
                0
            });
            &&& instance.spec.image_pull_secret matches Some(secret)
                ==> pod.image_pull_secrets matches Some(secrets) && secrets.len() == 1
                && secrets[0].name == secret
            &&& instance.spec.image_pull_secret is None ==> pod.image_pull_secrets is None
            &&& pod.affinity == instance.spec.affinity
            &&& instance.spec.tolerations.len() == 0 ==> pod.tolerations is None
            &&& instance.spec.tolerations.len() > 0 ==> pod.tolerations == Some(
                instance.spec.tolerations,
            )
            &&& pod.init_containers is None
            &&& pod.restart_policy is None
            &&& pod.security_context is Some
            &&& context.run_as_user == Some(
                match instance.spec.run_as_user {
                    Some(uid) => uid,
                    None => 100i64,
                },
            )
            &&& context.run_as_group == Some(
                match instance.spec.run_as_group {
                    Some(gid) => gid,
                    None => 101i64,
                },
            )
            &&& context.fs_group == context.run_as_group
            &&& pod.volumes is Some
            &&& volumes.len() == 2 + sources + (if monitored {
                2int
            } else {
                0
            })
            &&& volumes[0].name == "filestore"@
            &&& volumes[0].config_map is None && volumes[0].secret is None && volumes[0].empty_dir
                is None && volumes[1].persistent_volume_claim is None && volumes[1].empty_dir
                is None
            &&& volumes[0].persistent_volume_claim matches Some(claim) && claim.claim_name
                == instance.metadata.name_any() + "-filestore-pvc"@ && claim.read_only is None
            &&& volumes[1].name == "odoo-conf"@
            &&& instance.spec.admin_password_secret_ref is Some ==> volumes[1].config_map is None
                && (volumes[1].secret matches Some(secret) && secret.secret_name == Some(
                instance.metadata.name_any() + "-odoo-conf"@,
            ))
            &&& instance.spec.admin_password_secret_ref is None ==> volumes[1].secret is None && (
            volumes[1].config_map matches Some(map) && map.name == instance.metadata.name_any()
                + "-odoo-conf"@ && map.items is None)
            &&& instance.spec.source_volume matches Some(source) ==> volumes[2].name
                == "odoo-source"@ && (volumes[2].persistent_volume_claim matches Some(claim)
                && claim.claim_name == source.claim_name && claim.read_only is None)
            &&& instance.spec.custom_source_volume matches Some(source) ==> volumes[1
                + sources].name == "odoo-custom-source"@ && (volumes[1
                + sources].persistent_volume_claim matches Some(claim) && claim.claim_name
                == source.claim_name && claim.read_only == Some(true))
        }),
{
}

/// What a container that executes Odoo mounts: the filestore, odoo.conf, then every
/// mount of the source claim and every mount of the custom one, each under the path
/// and subpath that the spec gives it. Those of the custom claim are read-only; one of
/// the source claim is so exactly where the spec says so.
pub proof fn odoo_mounts_what_the_spec_mounts(
    ns: Seq<char>,
    name: Seq<char>,
    instance: OdooInstanceView,
    defaults: OperatorDefaultsView,
    oref: OwnerReferenceView,
    current: Option<DeploymentView>,
    conf_hash: Seq<char>,
    source: Seq<SourceVolumeMountView>,
    custom: Seq<SourceVolumeMountView>,
)
    requires
        instance.spec.source_volume matches Some(v) ==> source == v.mounts,
        instance.spec.source_volume is None ==> source.len() == 0,
        instance.spec.custom_source_volume matches Some(v) ==> custom == v.mounts,
        instance.spec.custom_source_volume is None ==> custom.len() == 0,
    ensures
        ({
            let cron = cron_deployment_of(
                ns,
                name,
                instance,
                defaults,
                oref,
                current,
                conf_hash,
            ).spec->0.template.spec->0.containers[0];
            let web = deployment_of(
                ns,
                name,
                instance,
                defaults,
                oref,
                current,
                conf_hash,
            ).spec->0.template.spec->0.containers[0];
            let mounts = cron.volume_mounts->0;
            &&& cron.volume_mounts is Some
            &&& mounts.len() == 2 + source.len() + custom.len()
            &&& mounts[0].name == "filestore"@ && mounts[0].mount_path == "/var/lib/odoo"@
                && mounts[0].sub_path is None && mounts[0].read_only is None
            &&& mounts[1].name == "odoo-conf"@ && mounts[1].mount_path == "/etc/odoo"@
                && mounts[1].sub_path is None && mounts[1].read_only is None
            &&& forall|i: int|
                #![trigger source[i]]
                0 <= i < source.len() ==> {
                    let mount = mounts[2 + i];
                    &&& mount.name == "odoo-source"@
                    &&& mount.mount_path == source[i].mount_path
                    &&& mount.sub_path == source[i].sub_path
                    &&& mount.read_only == if source[i].read_only {
                        Some(true)
                    } else {
                        None
                    }
                }
            &&& forall|i: int|
                #![trigger custom[i]]
                0 <= i < custom.len() ==> {
                    let mount = mounts[2 + source.len() + i];
                    &&& mount.name == "odoo-custom-source"@
                    &&& mount.mount_path == custom[i].mount_path
                    &&& mount.sub_path == custom[i].sub_path
                    &&& mount.read_only == Some(true)
                }
            &&& web.volume_mounts is Some
            &&& web.volume_mounts->0.len() == mounts.len() + (if instance.spec.monitoring is Some
                && instance.spec.environment == Environment::Production {
                1int
            } else {
                0
            })
            &&& forall|i: int|
                #![trigger web.volume_mounts->0[i]]
                0 <= i < mounts.len() ==> web.volume_mounts->0[i] == mounts[i]
        }),
{
    let cron = cron_deployment_of(
        ns,
        name,
        instance,
        defaults,
        oref,
        current,
        conf_hash,
    ).spec->0.template.spec->0.containers[0];
    assert(cron.volume_mounts == Some(crate::controller::helpers::odoo_mounts_of(instance)));
}

/// The container that runs the scheduled actions: it launches Odoo as the spec says
/// and then without workers and without a web server, has the resources of
/// `spec.cron`, listens on no port, and is watched by the cron probe, with twice the
/// patience at start in a combined pod that unpacks its source. It is the same in
/// either layout.
pub proof fn cron_containers_follow_the_spec(
    ns: Seq<char>,
    name: Seq<char>,
    instance: OdooInstanceView,
    defaults: OperatorDefaultsView,
    oref: OwnerReferenceView,
    current: Option<DeploymentView>,
    conf_hash: Seq<char>,
)
    ensures
        ({
            let cron = cron_deployment_of(
                ns,
                name,
                instance,
                defaults,
                oref,
                current,
                conf_hash,
            ).spec->0.template.spec->0.containers[0];
            let startup = cron.startup_probe->0;
            let liveness = cron.liveness_probe->0;
            &&& instance.spec.workload_layout == WorkloadLayout::Combined ==> deployment_of(
                ns,
                name,
                instance,
                defaults,
                oref,
                current,
                conf_hash,
            ).spec->0.template.spec->0.containers[1] == cron
            &&& cron.name == "odoo-cron-"@ + name
            &&& instance.spec.source_volume is None ==> cron.command == Some(
                seq!["/entrypoint.sh"@, "odoo"@, "--workers"@, "0"@, "--no-http"@],
            )
            &&& instance.spec.source_volume matches Some(source) ==> cron.command == Some(
                seq![
                    "python3"@,
                    source.odoo_bin,
                    "-c"@,
                    "/etc/odoo/odoo.conf"@,
                    "--workers"@,
                    "0"@,
                    "--no-http"@,
                ],
            )
            &&& cron.args is None
            &&& cron.ports is None
            &&& cron.security_context is None
            &&& cron.resources == instance.spec.cron.resources
            &&& cron.startup_probe is Some
            &&& startup.http_get is None
            &&& startup.exec_action matches Some(action) && action.command == Some(
                seq![
                    "/usr/bin/python3"@,
                    "-I"@,
                    "-S"@,
                    "/usr/local/bin/dsh-cron-probe"@,
                    "startup"@,
                ],
            )
            &&& startup.initial_delay_seconds == Some(5i32)
            &&& startup.period_seconds == Some(10i32)
            &&& startup.timeout_seconds == Some(5i32)
            &&& startup.failure_threshold == Some(
                if instance.spec.workload_layout == WorkloadLayout::Combined
                    && instance.spec.source_volume is Some {
                    60i32
                } else {
                    30i32
                },
            )
            &&& cron.liveness_probe is Some
            &&& liveness.http_get is None
            &&& liveness.exec_action matches Some(action) && action.command == Some(
                seq![
                    "/usr/bin/python3"@,
                    "-I"@,
                    "-S"@,
                    "/usr/local/bin/dsh-cron-probe"@,
                    "liveness"@,
                ],
            )
            &&& liveness.initial_delay_seconds == Some(300i32)
            &&& liveness.period_seconds == Some(30i32)
            &&& liveness.timeout_seconds == Some(5i32)
            &&& liveness.failure_threshold == Some(3i32)
            &&& cron.readiness_probe is None
        }),
{
    let cron = cron_deployment_of(
        ns,
        name,
        instance,
        defaults,
        oref,
        current,
        conf_hash,
    ).spec->0.template.spec->0.containers[0];
    let tail = seq!["--workers"@, "0"@, "--no-http"@];
    match instance.spec.source_volume {
        None => {
            assert(cron.command->0 =~= seq!["/entrypoint.sh"@, "odoo"@] + tail);
            assert(seq!["/entrypoint.sh"@, "odoo"@] + tail =~= seq![
                "/entrypoint.sh"@,
                "odoo"@,
                "--workers"@,
                "0"@,
                "--no-http"@,
            ]);
        },
        Some(source) => {
            assert(cron.command->0 =~= seq![
                "python3"@,
                source.odoo_bin,
                "-c"@,
                "/etc/odoo/odoo.conf"@,
            ] + tail);
            assert(seq!["python3"@, source.odoo_bin, "-c"@, "/etc/odoo/odoo.conf"@] + tail =~= seq![
                "python3"@,
                source.odoo_bin,
                "-c"@,
                "/etc/odoo/odoo.conf"@,
                "--workers"@,
                "0"@,
                "--no-http"@,
            ]);
        },
    }
}

/// The container that serves the instance: it launches Odoo as the spec says and then
/// without cron threads, has the resources of the spec, listens on the two ports of
/// Odoo, and is probed on the HTTP port under the paths of the spec, or under
/// `/web/health` where it gives none.
pub proof fn web_containers_follow_the_spec(
    ns: Seq<char>,
    name: Seq<char>,
    instance: OdooInstanceView,
    defaults: OperatorDefaultsView,
    oref: OwnerReferenceView,
    current: Option<DeploymentView>,
    conf_hash: Seq<char>,
)
    ensures
        ({
            let web = deployment_of(
                ns,
                name,
                instance,
                defaults,
                oref,
                current,
                conf_hash,
            ).spec->0.template.spec->0.containers[0];
            let startup = web.startup_probe->0;
            let liveness = web.liveness_probe->0;
            let readiness = web.readiness_probe->0;
            let ports = web.ports->0;
            &&& web.name == "odoo-"@ + name
            &&& instance.spec.source_volume is None ==> web.command == Some(
                seq!["/entrypoint.sh"@, "odoo"@, "--max-cron-threads"@, "0"@],
            )
            &&& instance.spec.source_volume matches Some(source) ==> web.command == Some(
                seq![
                    "python3"@,
                    source.odoo_bin,
                    "-c"@,
                    "/etc/odoo/odoo.conf"@,
                    "--max-cron-threads"@,
                    "0"@,
                ],
            )
            &&& web.args is None
            &&& web.security_context is None
            &&& web.resources == instance.spec.resources
            &&& web.ports is Some
            &&& ports.len() == 2
            &&& ports[0].name == Some("http"@) && ports[0].container_port == 8069
            &&& ports[1].name == Some("websocket"@) && ports[1].container_port == 8072
            &&& web.startup_probe is Some
            &&& startup.exec_action is None
            &&& startup.http_get matches Some(get) && get.port == IntOrStringView::Int(8069)
                && get.path == Some(
                match instance.spec.probes {
                    Some(probes) => probes.startup_path,
                    None => "/web/health"@,
                },
            )
            &&& startup.initial_delay_seconds == Some(5i32)
            &&& startup.period_seconds == Some(10i32)
            &&& startup.timeout_seconds == Some(5i32)
            &&& startup.failure_threshold == Some(30i32)
            &&& web.liveness_probe is Some
            &&& liveness.exec_action is None
            &&& liveness.http_get matches Some(get) && get.port == IntOrStringView::Int(8069)
                && get.path == Some(
                match instance.spec.probes {
                    Some(probes) => probes.liveness_path,
                    None => "/web/health"@,
                },
            )
            &&& liveness.initial_delay_seconds is None
            &&& liveness.period_seconds == Some(15i32)
            &&& liveness.timeout_seconds == Some(5i32)
            &&& liveness.failure_threshold == Some(3i32)
            &&& web.readiness_probe is Some
            &&& readiness.exec_action is None
            &&& readiness.http_get matches Some(get) && get.port == IntOrStringView::Int(8069)
                && get.path == Some(
                match instance.spec.probes {
                    Some(probes) => probes.readiness_path,
                    None => "/web/health"@,
                },
            )
            &&& readiness.initial_delay_seconds is None
            &&& readiness.period_seconds == Some(10i32)
            &&& readiness.timeout_seconds == Some(5i32)
            &&& readiness.failure_threshold == Some(3i32)
        }),
{
    let web = deployment_of(
        ns,
        name,
        instance,
        defaults,
        oref,
        current,
        conf_hash,
    ).spec->0.template.spec->0.containers[0];
    match instance.spec.source_volume {
        None => {
            assert(web.command->0 =~= seq!["/entrypoint.sh"@, "odoo"@, "--max-cron-threads"@, "0"@]);
        },
        Some(source) => {
            assert(web.command->0 =~= seq![
                "python3"@,
                source.odoo_bin,
                "-c"@,
                "/etc/odoo/odoo.conf"@,
                "--max-cron-threads"@,
                "0"@,
            ]);
        },
    }
}

/// Odoo is told which database is its own, in web and cron alike, unless the extra
/// environment of the spec says otherwise; web is told of the read-only account too.
/// The extra environment reaches both, merged by name, and its sources are those of
/// the container. Monitoring takes only its own names away again, to set them itself.
pub proof fn odoo_is_told_its_database(
    ns: Seq<char>,
    name: Seq<char>,
    instance: OdooInstanceView,
    defaults: OperatorDefaultsView,
    oref: OwnerReferenceView,
    current: Option<DeploymentView>,
    conf_hash: Seq<char>,
)
    ensures
        ({
            let cron = cron_deployment_of(
                ns,
                name,
                instance,
                defaults,
                oref,
                current,
                conf_hash,
            ).spec->0.template.spec->0.containers[0];
            let web = deployment_of(
                ns,
                name,
                instance,
                defaults,
                oref,
                current,
                conf_hash,
            ).spec->0.template.spec->0.containers[0];
            let database = EnvVarView {
                name: "PGDATABASE"@,
                value: Some(
                    if instance.spec.database matches Some(d) && d.name is Some {
                        instance.spec.database->0.name->0
                    } else {
                        "odoo_"@ + instance.metadata.uid_or_empty()
                    },
                ),
                value_from: None,
            };
            let told = crate::controller::helpers::merged_env(
                seq![database] + crate::controller::child_resources::readonly::readonly_env_of(
                    instance,
                ),
                instance.spec.extra_env,
            );
            let monitored = instance.spec.monitoring is Some && instance.spec.environment
                == Environment::Production;
            &&& cron.env is Some
            &&& cron.env->0 == crate::controller::helpers::merged_env(
                seq![database],
                instance.spec.extra_env,
            )
            &&& web.env is Some
            &&& !monitored ==> web.env->0 == told
            &&& monitored ==> web.env->0.len() >= 3 && web.env->0.take(web.env->0.len() - 3)
                == crate::controller::monitoring::other_env(told)
            &&& instance.spec.extra_env_from.len() == 0 ==> cron.env_from is None && web.env_from
                is None
            &&& instance.spec.extra_env_from.len() > 0 ==> cron.env_from == Some(
                instance.spec.extra_env_from,
            ) && web.env_from == Some(instance.spec.extra_env_from)
        }),
{
    let db = crate::helpers::db_name_of(instance);
    let database = crate::controller::helpers::plain_env("PGDATABASE"@, db);
    let readonly = crate::controller::child_resources::readonly::readonly_env_of(instance);
    crate::controller::helpers::merging_nothing(seq![database]);
    crate::controller::helpers::merging_nothing(seq![database] + readonly);
    assert(seq![database] + Seq::<EnvVarView>::empty() =~= seq![database]);
    if instance.spec.extra_env.len() == 0 {
        assert(instance.spec.extra_env =~= Seq::empty());
    }
    assert(Seq::<crate::k8s::opaque::EnvSource>::empty() + instance.spec.extra_env_from
        =~= instance.spec.extra_env_from);
    let web = deployment_of(
        ns,
        name,
        instance,
        defaults,
        oref,
        current,
        conf_hash,
    ).spec->0.template.spec->0.containers[0];
    let told = crate::controller::helpers::merged_env(
        seq![database] + readonly,
        instance.spec.extra_env,
    );
    if instance.spec.monitoring is Some && instance.spec.environment == Environment::Production {
        assert(web.env->0.take(web.env->0.len() - 3)
            =~= crate::controller::monitoring::other_env(told));
    }
}

/// What the two Deployments are asked to run is one image: the one that the spec names,
/// and the operator's default only where it names none.
pub proof fn web_and_cron_run_one_image(
    ns: &str,
    name: &str,
    instance: OdooInstance,
    defaults: OperatorDefaults,
    oref: OwnerReference,
    current: Option<&Deployment>,
    conf_hash: &str,
    web: Deployment,
    cron: Deployment,
)
    requires
        call_ensures(
            desired_deployment,
            (ns, name, &instance, &defaults, &oref, current, conf_hash),
            web,
        ),
        call_ensures(
            desired_cron_deployment,
            (ns, name, &instance, &defaults, &oref, current, conf_hash),
            cron,
        ),
    ensures
        ({
            let image = match instance.spec.image {
                Some(image) => image@,
                None => defaults.odoo_image@,
            };
            let served = web.deep_view().spec->0.template.spec->0.containers;
            let scheduled = cron.deep_view().spec->0.template.spec->0.containers;
            &&& served[0].image == Some(image)
            &&& instance.spec.workload_layout == WorkloadLayout::Combined ==> served[1].image
                == Some(image)
            &&& scheduled.len() == 1
            &&& scheduled[0].image == Some(image)
        }),
{
    assert(instance.deep_view().spec.image == instance.spec.image.deep_view());
}

} // verus!
