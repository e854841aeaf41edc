//! Fixed, opt-in production HTTP telemetry. No generic sidecar customization.

use vstd::prelude::*;

use crate::controller::helpers::env;
use crate::crd::odoo_instance::{Environment, MonitoringSpec, MonitoringSpecView, OdooInstance, OdooInstanceView};
use crate::k8s::env::{EnvVar, EnvVarView};
use crate::k8s::pods::{Capabilities, CapabilitiesView, Container, ContainerPort, ContainerPortView, ContainerView, PodSpec, PodSpecView, ResourceRequirements, ResourceRequirementsView, SecurityContext, SecurityContextView};
use crate::k8s::volumes::{ConfigMapVolumeSource, ConfigMapVolumeSourceView, EmptyDirVolumeSource, EmptyDirVolumeSourceView, KeyToPath, KeyToPathView, Volume, VolumeMount, VolumeMountView, VolumeView};
use crate::string_map::{KeyedMap, StringMap};
use crate::text::same;

verus! {

/// Pod volume that Odoo and its exporter share.
pub const STATE_VOLUME: &'static str = "droggol-monitoring-state";

/// Pod volume with the mapping of the exporter.
pub const CONFIG_VOLUME: &'static str = "droggol-monitoring-config";

/// Where the shared volume is mounted.
pub const STATE_DIR: &'static str = "/run/droggol-monitoring";

/// Where the mapping is mounted.
pub const CONFIG_DIR: &'static str = "/etc/droggol-monitoring";

/// Keeps the exporter running: removes a stale socket before each start, starts
/// the exporter again two seconds after it ends, and forwards termination to it.
pub const EXPORTER_SUPERVISOR: &'static str = "child=''
stop() {
  trap '' TERM INT
  if [ -n \"$child\" ]; then
    kill -TERM \"$child\" 2>/dev/null
    wait \"$child\"
  fi
  exit 0
}
trap stop TERM INT
while :; do
  (rm -f /run/droggol-monitoring/statsd.sock && exec /bin/statsd_exporter \"$@\") &
  child=$!
  wait \"$child\"
  sleep 2 &
  child=$!
  wait \"$child\"
done
";

/// The variables that tell Odoo of the exporter.
pub open spec fn is_monitoring_name(name: Seq<char>) -> bool {
    name == "DSH_MONITORING_ENABLED"@ || name == "DSH_MONITORING_SOCKET"@ || name
        == "DSH_MONITORING_STATE_DIR"@
}

/// The variables but those that tell Odoo of the exporter.
pub open spec fn other_env(vars: Seq<EnvVarView>) -> Seq<EnvVarView>
    decreases vars.len(),
{
    if vars.len() == 0 {
        seq![]
    } else if is_monitoring_name(vars.last().name) {
        other_env(vars.drop_last())
    } else {
        other_env(vars.drop_last()).push(vars.last())
    }
}

/// What Odoo is told of the exporter.
pub open spec fn monitoring_env() -> Seq<EnvVarView> {
    seq![
        crate::controller::helpers::plain_env("DSH_MONITORING_ENABLED"@, "1"@),
        crate::controller::helpers::plain_env(
            "DSH_MONITORING_SOCKET"@,
            "/run/droggol-monitoring/statsd.sock"@,
        ),
        crate::controller::helpers::plain_env("DSH_MONITORING_STATE_DIR"@, STATE_DIR@),
    ]
}

/// The mount of the shared volume.
pub open spec fn state_mount() -> VolumeMountView {
    VolumeMountView { name: STATE_VOLUME@, mount_path: STATE_DIR@, ..VolumeMountView::blank() }
}

/// The Odoo container, told of the exporter.
pub open spec fn monitored(odoo: ContainerView) -> ContainerView {
    ContainerView {
        volume_mounts: Some(odoo.volume_mounts.unwrap_or(seq![]).push(state_mount())),
        env: Some(other_env(odoo.env.unwrap_or(seq![])) + monitoring_env()),
        ..odoo
    }
}

/// The volumes of the exporter: a small one in memory, and the mapping.
pub open spec fn monitoring_volumes(config_map_name: Seq<char>) -> Seq<VolumeView> {
    seq![
        VolumeView {
            name: STATE_VOLUME@,
            empty_dir: Some(
                EmptyDirVolumeSourceView { medium: Some("Memory"@), size_limit: Some("16Mi"@) },
            ),
            ..VolumeView::blank()
        },
        VolumeView {
            name: CONFIG_VOLUME@,
            config_map: Some(
                ConfigMapVolumeSourceView {
                    name: config_map_name,
                    items: Some(
                        seq![
                            KeyToPathView {
                                key: "statsd-mapping.yml"@,
                                path: "statsd-mapping.yml"@,
                            },
                        ],
                    ),
                },
            ),
            ..VolumeView::blank()
        },
    ]
}

/// The arguments of the exporter: local socket only, bounded queues.
pub open spec fn exporter_args() -> Seq<Seq<char>> {
    seq![
        "--statsd.listen-udp="@,
        "--statsd.listen-tcp="@,
        "--statsd.listen-unixgram=/run/droggol-monitoring/statsd.sock"@,
        "--statsd.unixsocket-mode=660"@,
        "--statsd.mapping-config=/etc/droggol-monitoring/statsd-mapping.yml"@,
        "--web.listen-address=:9102"@,
        "--statsd.event-queue-size=2048"@,
        "--statsd.udp-packet-queue-size=256"@,
        "--statsd.cache-size=1000"@,
        "--no-statsd.parse-influxdb-tags"@,
        "--no-statsd.parse-librato-tags"@,
        "--no-statsd.parse-signalfx-tags"@,
    ]
}

/// The budget of the exporter, unless the instance sets one.
pub open spec fn default_exporter_resources() -> ResourceRequirementsView {
    ResourceRequirementsView {
        requests: Some(
            Map::<Seq<char>, Seq<char>>::empty().insert("cpu"@, "10m"@).insert(
                "memory"@,
                "32Mi"@,
            ),
        ),
        limits: Some(
            Map::<Seq<char>, Seq<char>>::empty().insert("cpu"@, "100m"@).insert(
                "memory"@,
                "128Mi"@,
            ),
        ),
        ..ResourceRequirementsView::blank()
    }
}

/// The privileges of the exporter: none.
pub open spec fn exporter_privileges() -> SecurityContextView {
    SecurityContextView {
        allow_privilege_escalation: Some(false),
        read_only_root_filesystem: Some(true),
        run_as_non_root: Some(true),
        capabilities: Some(CapabilitiesView { drop: Some(seq!["ALL"@]) }),
    }
}

/// The exporter container. It has no probe of its own: one would withdraw a
/// healthy Odoo.
pub open spec fn exporter(config: MonitoringSpecView) -> ContainerView {
    ContainerView {
        name: "odoo-statsd-exporter"@,
        image: Some(config.exporter_image),
        image_pull_policy: Some("IfNotPresent"@),
        command: Some(
            seq!["/bin/sh"@, "-c"@, EXPORTER_SUPERVISOR@, "monitoring-exporter"@],
        ),
        args: Some(exporter_args()),
        env: Some(
            seq![
                crate::controller::helpers::plain_env("GOMEMLIMIT"@, "96MiB"@),
                crate::controller::helpers::plain_env("GOMAXPROCS"@, "1"@),
            ],
        ),
        ports: Some(
            seq![ContainerPortView { name: Some("odoo-metrics"@), container_port: 9102 }],
        ),
        volume_mounts: Some(
            seq![
                state_mount(),
                VolumeMountView {
                    name: CONFIG_VOLUME@,
                    mount_path: CONFIG_DIR@,
                    read_only: Some(true),
                    ..VolumeMountView::blank()
                },
            ],
        ),
        resources: Some(
            match config.resources {
                Some(resources) => resources,
                None => default_exporter_resources(),
            },
        ),
        security_context: Some(exporter_privileges()),
        ..ContainerView::blank()
    }
}

/// Whether the web pod of an instance gets an exporter.
pub open spec fn is_monitored(instance: OdooInstanceView) -> bool {
    instance.spec.monitoring is Some && instance.spec.environment == Environment::Production
}

/// The web pod of an instance, with its exporter where it gets one.
pub open spec fn with_web_monitoring(pod: PodSpecView, instance: OdooInstanceView) -> PodSpecView {
    if is_monitored(instance) && pod.containers.len() > 0 {
        let config = instance.spec.monitoring->0;
        PodSpecView {
            containers: pod.containers.update(0, monitored(pod.containers[0])).push(
                exporter(config),
            ),
            volumes: Some(
                pod.volumes.unwrap_or(seq![]) + monitoring_volumes(config.config_map_name),
            ),
            ..pod
        }
    } else {
        pod
    }
}

fn make_state_mount() -> (r: VolumeMount)
    ensures
        r.deep_view() == state_mount(),
{
    VolumeMount {
        name: STATE_VOLUME.to_string(),
        mount_path: STATE_DIR.to_string(),
        ..Default::default()
    }
}

fn keep_other_env(vars: Vec<EnvVar>) -> (r: Vec<EnvVar>)
    ensures
        r.deep_view() == other_env(vars.deep_view()),
{
    let ghost all = vars.deep_view();
    let mut out: Vec<EnvVar> = Vec::new();
    assert(out.deep_view() =~= other_env(all.take(0)));
    for v in it: vars
        invariant
            it.seq() == vars@,
            all == vars.deep_view(),
            out.deep_view() == other_env(all.take(it.index() as int)),
    {
        proof {
            let n = it.index() as int;
            assert(all.take(n + 1).drop_last() =~= all.take(n));
            assert(all.take(n + 1).last() == v.deep_view());
        }
        let name = v.name.as_str();
        let known = same(name, "DSH_MONITORING_ENABLED") || same(name, "DSH_MONITORING_SOCKET")
            || same(name, "DSH_MONITORING_STATE_DIR");
        if !known {
            let ghost before = out.deep_view();
            let ghost kept = v.deep_view();
            out.push(v);
            assert(out.deep_view() =~= before.push(kept));
        }
    }
    assert(all.take(all.len() as int) =~= all);
    out
}

fn monitor(odoo: Container) -> (r: Container)
    ensures
        r.deep_view() == monitored(odoo.deep_view()),
{
    let mut mounts = match odoo.volume_mounts {
        Some(mounts) => mounts,
        None => Vec::new(),
    };
    let ghost own_mounts = mounts.deep_view();
    assert(own_mounts =~= odoo.deep_view().volume_mounts.unwrap_or(seq![]));
    mounts.push(make_state_mount());
    assert(mounts.deep_view() =~= own_mounts.push(state_mount()));
    let own_env = match odoo.env {
        Some(vars) => vars,
        None => Vec::new(),
    };
    assert(own_env.deep_view() =~= odoo.deep_view().env.unwrap_or(seq![]));
    let mut vars = keep_other_env(own_env);
    let ghost kept = vars.deep_view();
    vars.push(env("DSH_MONITORING_ENABLED", "1"));
    vars.push(env("DSH_MONITORING_SOCKET", "/run/droggol-monitoring/statsd.sock"));
    vars.push(env("DSH_MONITORING_STATE_DIR", STATE_DIR));
    assert(vars.deep_view() =~= kept + monitoring_env());
    Container { volume_mounts: Some(mounts), env: Some(vars), ..odoo }
}

fn make_monitoring_volumes(config_map_name: &str) -> (r: Vec<Volume>)
    ensures
        r.deep_view() == monitoring_volumes(config_map_name@),
{
    let items = vec![
        KeyToPath {
            key: "statsd-mapping.yml".to_string(),
            path: "statsd-mapping.yml".to_string(),
        },
    ];
    assert(items.deep_view() =~= seq![
        KeyToPathView { key: "statsd-mapping.yml"@, path: "statsd-mapping.yml"@ },
    ]);
    let r = vec![
        Volume {
            name: STATE_VOLUME.to_string(),
            empty_dir: Some(
                EmptyDirVolumeSource {
                    medium: Some("Memory".to_string()),
                    size_limit: Some("16Mi".to_string()),
                },
            ),
            ..Default::default()
        },
        Volume {
            name: CONFIG_VOLUME.to_string(),
            config_map: Some(
                ConfigMapVolumeSource { name: config_map_name.to_string(), items: Some(items) },
            ),
            ..Default::default()
        },
    ];
    assert(r.deep_view() =~= monitoring_volumes(config_map_name@));
    r
}

fn make_exporter_args() -> (r: Vec<String>)
    ensures
        r.deep_view() == exporter_args(),
{
    let r = vec![
        "--statsd.listen-udp=".to_string(),
        "--statsd.listen-tcp=".to_string(),
        "--statsd.listen-unixgram=/run/droggol-monitoring/statsd.sock".to_string(),
        "--statsd.unixsocket-mode=660".to_string(),
        "--statsd.mapping-config=/etc/droggol-monitoring/statsd-mapping.yml".to_string(),
        "--web.listen-address=:9102".to_string(),
        "--statsd.event-queue-size=2048".to_string(),
        "--statsd.udp-packet-queue-size=256".to_string(),
        "--statsd.cache-size=1000".to_string(),
        "--no-statsd.parse-influxdb-tags".to_string(),
        "--no-statsd.parse-librato-tags".to_string(),
        "--no-statsd.parse-signalfx-tags".to_string(),
    ];
    assert(r.deep_view() =~= exporter_args());
    r
}

fn make_default_exporter_resources() -> (r: ResourceRequirements)
    ensures
        r.deep_view() == default_exporter_resources(),
{
    let mut requests: StringMap = KeyedMap::of("cpu", "10m");
    requests.insert("memory".to_string(), "32Mi".to_string());
    let mut limits: StringMap = KeyedMap::of("cpu", "100m");
    limits.insert("memory".to_string(), "128Mi".to_string());
    ResourceRequirements { requests: Some(requests), limits: Some(limits), ..Default::default() }
}

fn make_exporter_privileges() -> (r: SecurityContext)
    ensures
        r.deep_view() == exporter_privileges(),
{
    let drop = vec!["ALL".to_string()];
    assert(drop.deep_view() =~= seq!["ALL"@]);
    SecurityContext {
        allow_privilege_escalation: Some(false),
        read_only_root_filesystem: Some(true),
        run_as_non_root: Some(true),
        capabilities: Some(Capabilities { drop: Some(drop) }),
    }
}

fn make_exporter(config: &MonitoringSpec) -> (r: Container)
    ensures
        r.deep_view() == exporter(config.deep_view()),
{
    let command = vec![
        "/bin/sh".to_string(),
        "-c".to_string(),
        EXPORTER_SUPERVISOR.to_string(),
        "monitoring-exporter".to_string(),
    ];
    let vars = vec![env("GOMEMLIMIT", "96MiB"), env("GOMAXPROCS", "1")];
    let ports = vec![
        ContainerPort { name: Some("odoo-metrics".to_string()), container_port: 9102 },
    ];
    let mounts = vec![
        make_state_mount(),
        VolumeMount {
            name: CONFIG_VOLUME.to_string(),
            mount_path: CONFIG_DIR.to_string(),
            read_only: Some(true),
            ..Default::default()
        },
    ];
    let resources = match &config.resources {
        Some(resources) => resources.clone(),
        None => make_default_exporter_resources(),
    };
    proof {
        let expected = exporter(config.deep_view());
        assert(command.deep_view() =~= expected.command->0);
        assert(vars.deep_view() =~= expected.env->0);
        assert(ports.deep_view() =~= expected.ports->0);
        assert(mounts.deep_view() =~= expected.volume_mounts->0);
    }
    Container {
        name: "odoo-statsd-exporter".to_string(),
        image: Some(config.exporter_image.clone()),
        image_pull_policy: Some("IfNotPresent".to_string()),
        command: Some(command),
        args: Some(make_exporter_args()),
        env: Some(vars),
        ports: Some(ports),
        volume_mounts: Some(mounts),
        resources: Some(resources),
        security_context: Some(make_exporter_privileges()),
        ..Default::default()
    }
}

/// Called only when rendering the web Deployment, after applying extraEnv.
/// Reconciliation rebuilds the PodSpec; removing monitoring removes every part.
pub fn apply_web_monitoring(pod: &mut PodSpec, instance: &OdooInstance)
    ensures
        final(pod).deep_view() == with_web_monitoring(old(pod).deep_view(), instance.deep_view()),
{
    let config = match &instance.spec.monitoring {
        Some(config) => config,
        None => {
            return ;
        },
    };
    if instance.spec.environment != Environment::Production || pod.containers.len() == 0 {
        return ;
    }
    let ghost before = pod.deep_view();
    let odoo = pod.containers.remove(0);
    pod.containers.insert(0, monitor(odoo));
    pod.containers.push(make_exporter(config));
    proof {
        let expected = before.containers.update(0, monitored(before.containers[0])).push(
            exporter(config.deep_view()),
        );
        assert(pod.containers.deep_view() =~= expected);
    }
    let mut volumes = match pod.volumes.take() {
        Some(volumes) => volumes,
        None => Vec::new(),
    };
    let ghost own = volumes.deep_view();
    assert(own =~= before.volumes.unwrap_or(seq![]));
    let mut more = make_monitoring_volumes(config.config_map_name.as_str());
    let ghost added = more.deep_view();
    volumes.append(&mut more);
    assert(volumes.deep_view() =~= own + added);
    pod.volumes = Some(volumes);
}

// ── Laws ────────────────────────────────────────────────────────────────────
/// Monitoring is opt-in and for production: any other pod stays as it was.
pub proof fn unmonitored_pods_stay_unchanged(pod: PodSpecView, instance: OdooInstanceView)
    requires
        instance.spec.monitoring is None || instance.spec.environment != Environment::Production,
    ensures
        with_web_monitoring(pod, instance) == pod,
{
}

/// Whatever an instance sets under these names, what Odoo sees of the exporter is
/// what the operator says, and its other variables are left as they were.
pub proof fn monitoring_env_is_fixed(odoo: ContainerView, name: Seq<char>)
    ensures
        ({
            let vars = monitored(odoo).env->0;
            &&& crate::controller::helpers::env_seen(vars, "DSH_MONITORING_ENABLED"@) == Some(
                monitoring_env()[0],
            )
            &&& crate::controller::helpers::env_seen(vars, "DSH_MONITORING_SOCKET"@) == Some(
                monitoring_env()[1],
            )
            &&& crate::controller::helpers::env_seen(vars, "DSH_MONITORING_STATE_DIR"@) == Some(
                monitoring_env()[2],
            )
            &&& !is_monitoring_name(name) ==> crate::controller::helpers::env_seen(vars, name)
                == crate::controller::helpers::env_seen(odoo.env.unwrap_or(seq![]), name)
        }),
{
    reveal_strlit("DSH_MONITORING_ENABLED");
    reveal_strlit("DSH_MONITORING_SOCKET");
    reveal_strlit("DSH_MONITORING_STATE_DIR");
    assert("DSH_MONITORING_ENABLED"@.len() == 22);
    assert("DSH_MONITORING_SOCKET"@.len() == 21);
    assert("DSH_MONITORING_STATE_DIR"@.len() == 24);
    let own = odoo.env.unwrap_or(seq![]);
    let kept = other_env(own);
    let vars = monitored(odoo).env->0;
    let two = vars.drop_last();
    let one = two.drop_last();
    assert(one.drop_last() =~= kept);
    assert(vars.last() == monitoring_env()[2]);
    assert(two.last() == monitoring_env()[1]);
    assert(one.last() == monitoring_env()[0]);
    reveal_with_fuel(crate::controller::helpers::env_seen, 4);
    if !is_monitoring_name(name) {
        other_env_keeps(own, name);
    }
}

/// Leaving out the variables of the exporter leaves the others seen as before.
proof fn other_env_keeps(vars: Seq<EnvVarView>, name: Seq<char>)
    requires
        !is_monitoring_name(name),
    ensures
        crate::controller::helpers::env_seen(other_env(vars), name)
            == crate::controller::helpers::env_seen(vars, name),
    decreases vars.len(),
{
    if vars.len() > 0 {
        other_env_keeps(vars.drop_last(), name);
        if !is_monitoring_name(vars.last().name) {
            let kept = other_env(vars.drop_last());
            assert(kept.push(vars.last()).drop_last() =~= kept);
        }
    }
}

/// A monitored pod gets one container more, which has no probe, and Odoo's own
/// container keeps its name, image, command, ports and probes. Every other
/// container stays as it was.
pub proof fn exporter_leaves_odoo_alone(pod: PodSpecView, instance: OdooInstanceView)
    requires
        is_monitored(instance),
        pod.containers.len() > 0,
    ensures
        ({
            let after = with_web_monitoring(pod, instance);
            let odoo = pod.containers[0];
            &&& after.containers.len() == pod.containers.len() + 1
            &&& after.containers.last() == exporter(instance.spec.monitoring->0)
            &&& after.containers.last().readiness_probe is None
            &&& after.containers.last().liveness_probe is None
            &&& after.containers.last().startup_probe is None
            &&& after.containers[0] == ContainerView {
                env: after.containers[0].env,
                volume_mounts: after.containers[0].volume_mounts,
                ..odoo
            }
            &&& forall|i: int|
                1 <= i < pod.containers.len() ==> #[trigger] after.containers[i]
                    == pod.containers[i]
            &&& after.init_containers == pod.init_containers
        }),
{
}

/// What a monitored pod gets, and only a production pod with a monitoring section is
/// monitored: Odoo's container mounts the shared directory and is told of the socket
/// in it; a small volume in memory is shared, and the mapping is mounted from the
/// ConfigMap that the spec names.
pub proof fn monitored_pods_share_a_socket(pod: PodSpecView, instance: OdooInstanceView)
    requires
        instance.spec.monitoring is Some,
        instance.spec.environment == Environment::Production,
        pod.containers.len() > 0,
    ensures
        ({
            let config = instance.spec.monitoring->0;
            let after = with_web_monitoring(pod, instance);
            let odoo = after.containers[0];
            let own_mounts = pod.containers[0].volume_mounts.unwrap_or(seq![]);
            let mounts = odoo.volume_mounts->0;
            let env = odoo.env->0;
            let own_volumes = pod.volumes.unwrap_or(seq![]);
            let volumes = after.volumes->0;
            let n = own_volumes.len() as int;
            let e = env.len() as int;
            &&& odoo.volume_mounts is Some
            &&& mounts.len() == own_mounts.len() + 1
            &&& mounts.drop_last() == own_mounts
            &&& mounts.last().name == "droggol-monitoring-state"@
            &&& mounts.last().mount_path == "/run/droggol-monitoring"@
            &&& mounts.last().sub_path is None
            &&& mounts.last().read_only is None
            &&& odoo.env is Some
            &&& e >= 3
            &&& env.take(e - 3) == other_env(pod.containers[0].env.unwrap_or(seq![]))
            &&& env[e - 3].name == "DSH_MONITORING_ENABLED"@ && env[e - 3].value == Some("1"@)
                && env[e - 3].value_from is None
            &&& env[e - 2].name == "DSH_MONITORING_SOCKET"@ && env[e - 2].value == Some(
                "/run/droggol-monitoring/statsd.sock"@,
            ) && env[e - 2].value_from is None
            &&& env[e - 1].name == "DSH_MONITORING_STATE_DIR"@ && env[e - 1].value == Some(
                "/run/droggol-monitoring"@,
            ) && env[e - 1].value_from is None
            &&& after.volumes is Some
            &&& volumes.len() == n + 2
            &&& volumes.take(n) == own_volumes
            &&& volumes[n].name == "droggol-monitoring-state"@
            &&& volumes[n].empty_dir matches Some(dir) && dir.medium == Some("Memory"@)
                && dir.size_limit == Some("16Mi"@)
            &&& volumes[n].config_map is None && volumes[n].secret is None
                && volumes[n].persistent_volume_claim is None
            &&& volumes[n + 1].name == "droggol-monitoring-config"@
            &&& volumes[n + 1].config_map matches Some(map) && map.name == config.config_map_name
                && (map.items matches Some(items) && items.len() == 1 && items[0].key
                == "statsd-mapping.yml"@ && items[0].path == "statsd-mapping.yml"@)
            &&& volumes[n + 1].empty_dir is None && volumes[n + 1].secret is None
                && volumes[n + 1].persistent_volume_claim is None
            &&& after.image_pull_secrets == pod.image_pull_secrets
            &&& after.affinity == pod.affinity
            &&& after.tolerations == pod.tolerations
            &&& after.security_context == pod.security_context
            &&& after.restart_policy == pod.restart_policy
        }),
{
}

/// The exporter runs the image that the spec names, under the supervisor, on the local
/// socket alone and with bounded queues; it has the budget that the spec sets, or a
/// small one of its own; it mounts the shared directory, and the mapping read-only; it
/// serves its metrics on port 9102; and it has no privileges.
pub proof fn exporters_follow_the_spec(pod: PodSpecView, instance: OdooInstanceView)
    requires
        instance.spec.monitoring is Some,
        instance.spec.environment == Environment::Production,
        pod.containers.len() > 0,
    ensures
        ({
            let config = instance.spec.monitoring->0;
            let exporter = with_web_monitoring(pod, instance).containers.last();
            let args = exporter.args->0;
            let env = exporter.env->0;
            let mounts = exporter.volume_mounts->0;
            let budget = exporter.resources->0;
            let context = exporter.security_context->0;
            &&& exporter.name == "odoo-statsd-exporter"@
            &&& exporter.image == Some(config.exporter_image)
            &&& exporter.image_pull_policy == Some("IfNotPresent"@)
            &&& exporter.command matches Some(command) && command.len() == 4 && command[0]
                == "/bin/sh"@ && command[1] == "-c"@ && command[2] == "child=''
stop() {
  trap '' TERM INT
  if [ -n \"$child\" ]; then
    kill -TERM \"$child\" 2>/dev/null
    wait \"$child\"
  fi
  exit 0
}
trap stop TERM INT
while :; do
  (rm -f /run/droggol-monitoring/statsd.sock && exec /bin/statsd_exporter \"$@\") &
  child=$!
  wait \"$child\"
  sleep 2 &
  child=$!
  wait \"$child\"
done
"@
                && command[3] == "monitoring-exporter"@
            &&& exporter.args is Some
            &&& args.len() == 12
            &&& args[0] == "--statsd.listen-udp="@
            &&& args[1] == "--statsd.listen-tcp="@
            &&& args[2] == "--statsd.listen-unixgram=/run/droggol-monitoring/statsd.sock"@
            &&& args[3] == "--statsd.unixsocket-mode=660"@
            &&& args[4] == "--statsd.mapping-config=/etc/droggol-monitoring/statsd-mapping.yml"@
            &&& args[5] == "--web.listen-address=:9102"@
            &&& args[6] == "--statsd.event-queue-size=2048"@
            &&& args[7] == "--statsd.udp-packet-queue-size=256"@
            &&& args[8] == "--statsd.cache-size=1000"@
            &&& args[9] == "--no-statsd.parse-influxdb-tags"@
            &&& args[10] == "--no-statsd.parse-librato-tags"@
            &&& args[11] == "--no-statsd.parse-signalfx-tags"@
            &&& exporter.env is Some
            &&& env.len() == 2
            &&& env[0].name == "GOMEMLIMIT"@ && env[0].value == Some("96MiB"@)
            &&& env[1].name == "GOMAXPROCS"@ && env[1].value == Some("1"@)
            &&& exporter.env_from is None
            &&& exporter.ports matches Some(ports) && ports.len() == 1 && ports[0].name == Some(
                "odoo-metrics"@,
            ) && ports[0].container_port == 9102
            &&& exporter.volume_mounts is Some
            &&& mounts.len() == 2
            &&& mounts[0].name == "droggol-monitoring-state"@ && mounts[0].mount_path
                == "/run/droggol-monitoring"@ && mounts[0].read_only is None
            &&& mounts[1].name == "droggol-monitoring-config"@ && mounts[1].mount_path
                == "/etc/droggol-monitoring"@ && mounts[1].read_only == Some(true)
            &&& exporter.resources is Some
            &&& config.resources matches Some(set) ==> budget == set
            &&& config.resources is None ==> {
                let requests = budget.requests->0;
                let limits = budget.limits->0;
                &&& budget.claims is None
                &&& budget.requests is Some
                &&& requests.get("cpu"@) == Some("10m"@)
                &&& requests.get("memory"@) == Some("32Mi"@)
                &&& budget.limits is Some
                &&& limits.get("cpu"@) == Some("100m"@)
                &&& limits.get("memory"@) == Some("128Mi"@)
            }
            &&& exporter.security_context is Some
            &&& context.allow_privilege_escalation == Some(false)
            &&& context.read_only_root_filesystem == Some(true)
            &&& context.run_as_non_root == Some(true)
            &&& context.capabilities matches Some(caps) && caps.drop == Some(seq!["ALL"@])
        }),
{
    reveal_strlit("cpu");
    reveal_strlit("memory");
    assert("cpu"@.len() != "memory"@.len());
}

/// Variables that tell of the exporter are taken out of Odoo's own, and no others, in
/// order.
pub proof fn other_variables_stay(vars: Seq<EnvVarView>, e: EnvVarView)
    ensures
        other_env(Seq::<EnvVarView>::empty()).len() == 0,
        (e.name == "DSH_MONITORING_ENABLED"@ || e.name == "DSH_MONITORING_SOCKET"@ || e.name
            == "DSH_MONITORING_STATE_DIR"@) ==> other_env(vars.push(e)) == other_env(vars),
        !(e.name == "DSH_MONITORING_ENABLED"@ || e.name == "DSH_MONITORING_SOCKET"@ || e.name
            == "DSH_MONITORING_STATE_DIR"@) ==> other_env(vars.push(e)) == other_env(vars).push(e),
{
    assert(vars.push(e).drop_last() =~= vars);
}

} // verus!
