//! Shared helpers for controller modules: the pieces of Kubernetes objects that
//! several controllers build.

use vstd::prelude::*;

use crate::crd::odoo_instance::{Environment, OdooInstance, OdooInstanceView, SourceVolumeMount, SourceVolumeMountView};
use crate::helpers::{OperatorDefaults, OperatorDefaultsView};
use crate::k8s::batch::{Job, JobSpec, JobSpecView, JobView};
use crate::k8s::env::{ConfigMapKeySelector, ConfigMapKeySelectorView, EnvVar, EnvVarSource, EnvVarSourceView, EnvVarView, SecretKeySelector, SecretKeySelectorView};
use crate::k8s::meta::{ObjectMeta, ObjectMetaView, OwnerReference, OwnerReferenceView, Resource};
use crate::k8s::opaque::{EnvSource, PodAffinity};
use crate::k8s::pods::{Container, ContainerView, LocalObjectReference, LocalObjectReferenceView, PodSecurityContext, PodSecurityContextView, PodSpec, PodSpecView, PodTemplateSpec, PodTemplateSpecView};
use crate::k8s::volumes::{ConfigMapVolumeSource, ConfigMapVolumeSourceView, PersistentVolumeClaimVolumeSource, PersistentVolumeClaimVolumeSourceView, SecretVolumeSource, SecretVolumeSourceView, Volume, VolumeMount, VolumeMountView, VolumeView};
use crate::string_map::{KeyedMap, StringMap};
use crate::text::{chars_of, copy_opt, decimal_string, same};

verus! {

/// Field manager name used for server-side apply patches.
pub const FIELD_MANAGER: &'static str = "odoo-operator";

// ── Labels ──────────────────────────────────────────────────────────────────
/// The labels with one more, where the instance carries it.
pub open spec fn with_instance_label(
    labels: Map<Seq<char>, Seq<char>>,
    instance: OdooInstanceView,
    key: Seq<char>,
) -> Map<Seq<char>, Seq<char>> {
    match instance.metadata.labels_or_empty().get(key) {
        Some(value) => labels.insert(key, value),
        None => labels,
    }
}

/// The labels of every Deployment, Job and pod of an instance.
pub open spec fn labels_of(instance: OdooInstanceView) -> Map<Seq<char>, Seq<char>> {
    let own = Map::<Seq<char>, Seq<char>>::empty().insert(
        "bemade.org/environment"@,
        instance.spec.environment.label(),
    ).insert("bemade.org/instance"@, instance.name());
    with_instance_label(
        with_instance_label(
            with_instance_label(own, instance, "droggol.sh/server-id"@),
            instance,
            "droggol.sh/project-id"@,
        ),
        instance,
        "droggol.sh/instance-id"@,
    )
}

fn add_instance_label(labels: &mut StringMap, instance: &OdooInstance, key: &str)
    ensures
        final(labels).deep_view() == with_instance_label(
            old(labels).deep_view(),
            instance.deep_view(),
            key@,
        ),
{
    if let Some(value) = instance.metadata.label(key) {
        labels.insert(key.to_string(), value.clone());
    }
}

/// Standard pod labels applied to every Deployment, Job, and pod template owned
/// by an OdooInstance. They come beside the `app` label that selectors use, and
/// never go into a selector, which cannot change after creation.
///
/// The hosting identity is copied label by label; no other label of the
/// instance reaches its pods.
pub fn instance_labels(instance: &OdooInstance) -> (r: StringMap)
    ensures
        r.deep_view() == labels_of(instance.deep_view()),
{
    let mut m: StringMap = KeyedMap::new();
    m.insert(
        "bemade.org/environment".to_string(),
        instance.spec.environment.as_label().to_string(),
    );
    m.insert("bemade.org/instance".to_string(), instance.name_any());
    add_instance_label(&mut m, instance, "droggol.sh/server-id");
    add_instance_label(&mut m, instance, "droggol.sh/project-id");
    add_instance_label(&mut m, instance, "droggol.sh/instance-id");
    m
}

// ── Environment variables ───────────────────────────────────────────────────
/// A variable with a plain value.
pub open spec fn plain_env(name: Seq<char>, value: Seq<char>) -> EnvVarView {
    EnvVarView { name, value: Some(value), ..EnvVarView::blank() }
}

/// A variable with the value of a Secret key.
pub open spec fn env_of_secret(
    name: Seq<char>,
    secret_name: Seq<char>,
    key: Seq<char>,
) -> EnvVarView {
    EnvVarView {
        name,
        value_from: Some(
            EnvVarSourceView {
                secret_key_ref: Some(
                    SecretKeySelectorView {
                        name: secret_name,
                        key,
                        ..SecretKeySelectorView::blank()
                    },
                ),
                ..EnvVarSourceView::blank()
            },
        ),
        ..EnvVarView::blank()
    }
}

/// Shorthand for a plain-value `EnvVar`.
pub fn env(name: &str, value: &str) -> (r: EnvVar)
    ensures
        r.deep_view() == plain_env(name@, value@),
{
    EnvVar { name: name.to_string(), value: Some(value.to_string()), ..Default::default() }
}

/// Build an `EnvVar` that reads its value from a ConfigMap key.
pub fn cm_env(env_name: &str, cm_name: &str, key: &str) -> (r: EnvVar)
    ensures
        r.deep_view() == (EnvVarView {
            name: env_name@,
            value_from: Some(
                EnvVarSourceView {
                    config_map_key_ref: Some(
                        ConfigMapKeySelectorView {
                            name: cm_name@,
                            key: key@,
                            ..ConfigMapKeySelectorView::blank()
                        },
                    ),
                    ..EnvVarSourceView::blank()
                },
            ),
            ..EnvVarView::blank()
        }),
{
    EnvVar {
        name: env_name.to_string(),
        value_from: Some(
            EnvVarSource {
                config_map_key_ref: Some(
                    ConfigMapKeySelector {
                        name: cm_name.to_string(),
                        key: key.to_string(),
                        ..Default::default()
                    },
                ),
                ..Default::default()
            },
        ),
        ..Default::default()
    }
}

/// Build an `EnvVar` that reads its value from a Secret key.
pub fn secret_env(env_name: &str, secret_name: &str, key: &str) -> (r: EnvVar)
    ensures
        r.deep_view() == env_of_secret(env_name@, secret_name@, key@),
{
    EnvVar {
        name: env_name.to_string(),
        value_from: Some(
            EnvVarSource {
                secret_key_ref: Some(
                    SecretKeySelector {
                        name: secret_name.to_string(),
                        key: key.to_string(),
                        ..Default::default()
                    },
                ),
                ..Default::default()
            },
        ),
        ..Default::default()
    }
}

/// The variables that point a neutralized staging instance at a mail sink.
pub open spec fn staging_mail_env(
    instance: OdooInstanceView,
    defaults: OperatorDefaultsView,
) -> Seq<EnvVarView> {
    if instance.spec.environment != Environment::Staging || defaults.staging_smtp_host.len() == 0 {
        seq![]
    } else {
        seq![
            plain_env("MAIL_SMTP_HOST"@, defaults.staging_smtp_host),
            plain_env(
                "MAIL_SMTP_PORT"@,
                crate::text::decimal(defaults.staging_smtp_port as nat),
            ),
            plain_env("MAIL_SMTP_ENCRYPTION"@, defaults.staging_smtp_encryption),
        ]
    }
}

/// Env vars injected into post-neutralize Job pods for staging instances when
/// the operator was configured with a staging SMTP sink.
///
/// Empty for a production instance, whose mail configuration is left alone, and
/// for an operator without a sink, where no mail goes out at all.
pub fn staging_mail_env_vars(instance: &OdooInstance, defaults: &OperatorDefaults) -> (r: Vec<
    EnvVar,
>)
    ensures
        r.deep_view() == staging_mail_env(instance.deep_view(), defaults.deep_view()),
{
    if instance.spec.environment != Environment::Staging || is_empty(
        defaults.staging_smtp_host.as_str(),
    ) {
        let r: Vec<EnvVar> = Vec::new();
        assert(r.deep_view() =~= seq![]);
        return r;
    }
    let port = decimal_string(defaults.staging_smtp_port as u64);
    let r = vec![
        env("MAIL_SMTP_HOST", defaults.staging_smtp_host.as_str()),
        env("MAIL_SMTP_PORT", port.as_str()),
        env("MAIL_SMTP_ENCRYPTION", defaults.staging_smtp_encryption.as_str()),
    ];
    assert(r.deep_view() =~= staging_mail_env(instance.deep_view(), defaults.deep_view()));
    r
}

/// Whether a text is empty.
pub fn is_empty(s: &str) -> (r: bool)
    ensures
        r == (s@.len() == 0),
{
    chars_of(s).len() == 0
}

// ── Owners and identity ─────────────────────────────────────────────────────
/// A reference to a controlling owner.
pub open spec fn owner_reference(
    api_version: Seq<char>,
    kind: Seq<char>,
    meta: ObjectMetaView,
) -> OwnerReferenceView {
    OwnerReferenceView {
        api_version,
        kind,
        name: meta.name_any(),
        uid: meta.uid_or_empty(),
        controller: Some(true),
        block_owner_deletion: Some(true),
    }
}

/// Build a controller OwnerReference for any [`Resource`].
pub fn controller_owner_ref<K: Resource>(obj: &K) -> (r: OwnerReference)
    ensures
        r.deep_view() == owner_reference(
            K::api_version_view(),
            K::kind_view(),
            obj.meta_view(),
        ),
{
    OwnerReference {
        api_version: K::api_version().to_string(),
        kind: K::kind().to_string(),
        name: obj.meta().name_any(),
        uid: obj.meta().uid_or_empty(),
        controller: Some(true),
        block_owner_deletion: Some(true),
    }
}

/// The identity that the pods of an instance run as. The filestore group is the
/// group of the process.
pub open spec fn security_context_of(instance: OdooInstanceView) -> PodSecurityContextView {
    PodSecurityContextView {
        run_as_user: Some(instance.spec.run_as_user_or_default()),
        run_as_group: Some(instance.spec.run_as_group_or_default()),
        fs_group: Some(instance.spec.run_as_group_or_default()),
    }
}

/// Odoo pod security context.
///
/// Defaults to the identity in the official Odoo Docker image. `fsGroup` tracks
/// `runAsGroup` so the filestore PVC stays writable for whichever identity the
/// image actually uses.
pub fn odoo_security_context(instance: &OdooInstance) -> (r: PodSecurityContext)
    ensures
        r.deep_view() == security_context_of(instance.deep_view()),
{
    PodSecurityContext {
        run_as_user: Some(instance.spec.effective_run_as_user()),
        run_as_group: Some(instance.spec.effective_run_as_group()),
        fs_group: Some(instance.spec.effective_run_as_group()),
    }
}

/// The pull secrets of the pods of an instance.
pub open spec fn pull_secrets_of(instance: OdooInstanceView) -> Option<
    Seq<LocalObjectReferenceView>,
> {
    match instance.spec.image_pull_secret {
        Some(name) => Some(seq![LocalObjectReferenceView { name }]),
        None => None,
    }
}

/// Build the `imagePullSecrets` list from an OdooInstance spec. `None` when no
/// pull secret is configured, which omits the field.
pub fn image_pull_secrets(instance: &OdooInstance) -> (r: Option<Vec<LocalObjectReference>>)
    ensures
        r.deep_view() == pull_secrets_of(instance.deep_view()),
{
    match &instance.spec.image_pull_secret {
        Some(name) => {
            let v = vec![LocalObjectReference { name: name.clone() }];
            assert(v.deep_view() =~= seq![LocalObjectReferenceView { name: name@ }]);
            Some(v)
        },
        None => None,
    }
}

// ── odoo.conf ───────────────────────────────────────────────────────────────
/// Directory the odoo-conf volume is mounted at.
pub const ODOO_CONF_DIR: &'static str = "/etc/odoo";

/// Absolute path of the rendered odoo.conf inside every Odoo container.
pub const ODOO_CONF_PATH: &'static str = "/etc/odoo/odoo.conf";

/// Pod volume name for `spec.sourceVolume`'s claim.
pub const SOURCE_VOLUME_NAME: &'static str = "odoo-source";

/// Pod volume name for `spec.customSourceVolume`'s claim.
pub const CUSTOM_SOURCE_VOLUME_NAME: &'static str = "odoo-custom-source";

/// Name of the object holding the rendered odoo.conf.
///
/// The same string for the ConfigMap and the Secret variants: they are distinct
/// resource kinds, and every consumer that looks the object up by name keeps
/// working across a switch.
pub fn odoo_conf_name(instance_name: &str) -> (r: String)
    ensures
        r@ == instance_name@ + "-odoo-conf"@,
{
    instance_name.to_string().concat("-odoo-conf")
}

/// Whether the rendered odoo.conf lives in a Secret rather than a ConfigMap.
///
/// True exactly when the master password is sourced from a Secret.
pub fn odoo_conf_in_secret(instance: &OdooInstance) -> (r: bool)
    ensures
        r == (instance.deep_view().spec.admin_password_secret_ref is Some),
{
    instance.spec.admin_password_secret_ref.is_some()
}

/// The volume that carries odoo.conf.
pub open spec fn conf_volume_of(instance: OdooInstanceView) -> VolumeView {
    let name = instance.name() + "-odoo-conf"@;
    if instance.spec.admin_password_secret_ref is Some {
        VolumeView {
            name: "odoo-conf"@,
            secret: Some(SecretVolumeSourceView { secret_name: Some(name) }),
            ..VolumeView::blank()
        }
    } else {
        VolumeView {
            name: "odoo-conf"@,
            config_map: Some(
                ConfigMapVolumeSourceView { name, ..ConfigMapVolumeSourceView::blank() },
            ),
            ..VolumeView::blank()
        }
    }
}

/// The `odoo-conf` volume: a ConfigMap normally, a Secret when the master
/// password is Secret-sourced.
pub fn odoo_conf_volume(instance: &OdooInstance) -> (r: Volume)
    ensures
        r.deep_view() == conf_volume_of(instance.deep_view()),
{
    let name = odoo_conf_name(instance.name_any().as_str());
    if odoo_conf_in_secret(instance) {
        Volume {
            name: "odoo-conf".to_string(),
            secret: Some(SecretVolumeSource { secret_name: Some(name) }),
            ..Default::default()
        }
    } else {
        Volume {
            name: "odoo-conf".to_string(),
            config_map: Some(ConfigMapVolumeSource { name, ..Default::default() }),
            ..Default::default()
        }
    }
}

/// The mount of the odoo-conf volume.
pub open spec fn conf_mount() -> VolumeMountView {
    VolumeMountView {
        name: "odoo-conf"@,
        mount_path: ODOO_CONF_DIR@,
        ..VolumeMountView::blank()
    }
}

/// The mount matching [`odoo_conf_volume`].
pub fn odoo_conf_mount() -> (r: VolumeMount)
    ensures
        r.deep_view() == conf_mount(),
{
    VolumeMount {
        name: "odoo-conf".to_string(),
        mount_path: ODOO_CONF_DIR.to_string(),
        ..Default::default()
    }
}

// ── Volumes ─────────────────────────────────────────────────────────────────
/// A volume backed by a claim.
pub open spec fn claim_volume(
    name: Seq<char>,
    claim_name: Seq<char>,
    read_only: Option<bool>,
) -> VolumeView {
    VolumeView {
        name,
        persistent_volume_claim: Some(
            PersistentVolumeClaimVolumeSourceView { claim_name, read_only },
        ),
        ..VolumeView::blank()
    }
}

/// The filestore and odoo.conf volumes of an instance.
pub open spec fn standard_volumes_of(instance: OdooInstanceView) -> Seq<VolumeView> {
    seq![
        claim_volume("filestore"@, instance.name() + "-filestore-pvc"@, None),
        conf_volume_of(instance),
    ]
}

/// Standard volumes shared by the instance Deployments and every job pod: the
/// filestore PVC and the odoo-conf object.
pub fn odoo_volumes(instance: &OdooInstance) -> (r: Vec<Volume>)
    ensures
        r.deep_view() == standard_volumes_of(instance.deep_view()),
{
    let claim_name = instance.name_any().concat("-filestore-pvc");
    let r = vec![
        Volume {
            name: "filestore".to_string(),
            persistent_volume_claim: Some(
                PersistentVolumeClaimVolumeSource { claim_name, read_only: None },
            ),
            ..Default::default()
        },
        odoo_conf_volume(instance),
    ];
    assert(r.deep_view() =~= standard_volumes_of(instance.deep_view()));
    r
}

/// The mounts of the filestore and odoo.conf volumes.
pub open spec fn standard_mounts() -> Seq<VolumeMountView> {
    seq![
        VolumeMountView {
            name: "filestore"@,
            mount_path: "/var/lib/odoo"@,
            ..VolumeMountView::blank()
        },
        conf_mount(),
    ]
}

/// Standard volume mounts matching [`odoo_volumes`].
pub fn odoo_volume_mounts() -> (r: Vec<VolumeMount>)
    ensures
        r.deep_view() == standard_mounts(),
{
    let r = vec![
        VolumeMount {
            name: "filestore".to_string(),
            mount_path: "/var/lib/odoo".to_string(),
            ..Default::default()
        },
        odoo_conf_mount(),
    ];
    assert(r.deep_view() =~= standard_mounts());
    r
}

/// The volumes of the source claims of an instance. The custom one is read-only.
pub open spec fn source_volumes_of(instance: OdooInstanceView) -> Seq<VolumeView> {
    let source = match instance.spec.source_volume {
        Some(v) => seq![claim_volume(SOURCE_VOLUME_NAME@, v.claim_name, None)],
        None => seq![],
    };
    let custom = match instance.spec.custom_source_volume {
        Some(v) => seq![claim_volume(CUSTOM_SOURCE_VOLUME_NAME@, v.claim_name, Some(true))],
        None => seq![],
    };
    source + custom
}

/// Core/dependency and custom-source claims for every Odoo consumer.
pub fn source_volumes(instance: &OdooInstance) -> (r: Vec<Volume>)
    ensures
        r.deep_view() == source_volumes_of(instance.deep_view()),
{
    let mut r: Vec<Volume> = Vec::new();
    if let Some(v) = &instance.spec.source_volume {
        r.push(
            Volume {
                name: SOURCE_VOLUME_NAME.to_string(),
                persistent_volume_claim: Some(
                    PersistentVolumeClaimVolumeSource {
                        claim_name: v.claim_name.clone(),
                        read_only: None,
                    },
                ),
                ..Default::default()
            },
        );
    }
    if let Some(v) = &instance.spec.custom_source_volume {
        r.push(
            Volume {
                name: CUSTOM_SOURCE_VOLUME_NAME.to_string(),
                persistent_volume_claim: Some(
                    PersistentVolumeClaimVolumeSource {
                        claim_name: v.claim_name.clone(),
                        read_only: Some(true),
                    },
                ),
                ..Default::default()
            },
        );
    }
    assert(r.deep_view() =~= source_volumes_of(instance.deep_view()));
    r
}

/// A mount of a source claim, read-only where it says so or where the claim is.
pub open spec fn source_mount(
    name: Seq<char>,
    mount: SourceVolumeMountView,
    read_only: bool,
) -> VolumeMountView {
    VolumeMountView {
        name,
        mount_path: mount.mount_path,
        sub_path: mount.sub_path,
        read_only: if mount.read_only || read_only {
            Some(true)
        } else {
            None
        },
    }
}

/// The mounts of a source claim, in order.
pub open spec fn source_mounts(
    name: Seq<char>,
    mounts: Seq<SourceVolumeMountView>,
    read_only: bool,
) -> Seq<VolumeMountView> {
    Seq::new(mounts.len(), |i: int| source_mount(name, mounts[i], read_only))
}

/// The mounts of the source claims of an instance.
pub open spec fn source_mounts_of(instance: OdooInstanceView) -> Seq<VolumeMountView> {
    let source = match instance.spec.source_volume {
        Some(v) => source_mounts(SOURCE_VOLUME_NAME@, v.mounts, false),
        None => seq![],
    };
    let custom = match instance.spec.custom_source_volume {
        Some(v) => source_mounts(CUSTOM_SOURCE_VOLUME_NAME@, v.mounts, true),
        None => seq![],
    };
    source + custom
}

fn mounts_of_claim(name: &str, mounts: &Vec<SourceVolumeMount>, read_only: bool) -> (r: Vec<
    VolumeMount,
>)
    ensures
        r.deep_view() == source_mounts(name@, mounts.deep_view(), read_only),
{
    let mut out: Vec<VolumeMount> = Vec::new();
    let mut i: usize = 0;
    while i < mounts.len()
        invariant
            i <= mounts.len(),
            out.len() == i,
            forall|j: int|
                0 <= j < i ==> (#[trigger] out@[j]).deep_view() == source_mount(
                    name@,
                    mounts@[j].deep_view(),
                    read_only,
                ),
        decreases mounts.len() - i,
    {
        let m = &mounts[i];
        out.push(
            VolumeMount {
                name: name.to_string(),
                mount_path: m.mount_path.clone(),
                sub_path: copy_opt(&m.sub_path),
                read_only: if m.read_only || read_only {
                    Some(true)
                } else {
                    None
                },
            },
        );
        i += 1;
    }
    assert(out.deep_view() =~= source_mounts(name@, mounts.deep_view(), read_only));
    out
}

/// Mount both source claims through the shared serving/job construction path.
pub fn source_volume_mounts(instance: &OdooInstance) -> (r: Vec<VolumeMount>)
    ensures
        r.deep_view() == source_mounts_of(instance.deep_view()),
{
    let mut r: Vec<VolumeMount> = Vec::new();
    if let Some(v) = &instance.spec.source_volume {
        let mut source = mounts_of_claim(SOURCE_VOLUME_NAME, &v.mounts, false);
        r.append(&mut source);
    }
    if let Some(v) = &instance.spec.custom_source_volume {
        let mut custom = mounts_of_claim(CUSTOM_SOURCE_VOLUME_NAME, &v.mounts, true);
        r.append(&mut custom);
    }
    assert(r.deep_view() =~= source_mounts_of(instance.deep_view()));
    r
}

/// The mounts of every container that executes Odoo.
pub open spec fn odoo_mounts_of(instance: OdooInstanceView) -> Seq<VolumeMountView> {
    standard_mounts() + source_mounts_of(instance)
}

/// [`odoo_volume_mounts`] plus the source-volume mounts. Use this for every
/// container that actually executes Odoo.
pub fn odoo_volume_mounts_for(instance: &OdooInstance) -> (r: Vec<VolumeMount>)
    ensures
        r.deep_view() == odoo_mounts_of(instance.deep_view()),
{
    let mut mounts = odoo_volume_mounts();
    let mut source = source_volume_mounts(instance);
    mounts.append(&mut source);
    assert(mounts.deep_view() =~= odoo_mounts_of(instance.deep_view()));
    mounts
}

// ── The command that launches Odoo ──────────────────────────────────────────
/// The argv prefix that launches Odoo.
pub open spec fn entrypoint_of(instance: OdooInstanceView) -> Seq<Seq<char>> {
    match instance.spec.source_volume {
        None => seq!["/entrypoint.sh"@, "odoo"@],
        Some(sv) => seq!["python3"@, sv.odoo_bin, "-c"@, ODOO_CONF_PATH@],
    }
}

/// The argv prefix that launches Odoo for this instance.
///
/// Without `spec.sourceVolume` this is the official image's
/// `["/entrypoint.sh", "odoo"]`. With it, the entrypoint is bypassed in favour
/// of running `odoo-bin` directly under `python3`, and the configuration file,
/// which the entrypoint would have supplied, is named explicitly.
pub fn odoo_entrypoint(instance: &OdooInstance) -> (r: Vec<String>)
    ensures
        r.deep_view() == entrypoint_of(instance.deep_view()),
{
    let r = match &instance.spec.source_volume {
        None => vec!["/entrypoint.sh".to_string(), "odoo".to_string()],
        Some(sv) => vec![
            "python3".to_string(),
            sv.odoo_bin.clone(),
            "-c".to_string(),
            ODOO_CONF_PATH.to_string(),
        ],
    };
    assert(r.deep_view() =~= entrypoint_of(instance.deep_view()));
    r
}

/// The texts of a list of arguments.
pub open spec fn words_of(args: Seq<&str>) -> Seq<Seq<char>> {
    Seq::new(args.len(), |i: int| args[i]@)
}

/// [`odoo_entrypoint`] plus trailing arguments, as one argv vector.
pub fn odoo_command(instance: &OdooInstance, args: &[&str]) -> (r: Vec<String>)
    ensures
        r.deep_view() == entrypoint_of(instance.deep_view()) + words_of(args@),
{
    let mut cmd = odoo_entrypoint(instance);
    let ghost prefix = cmd@;
    let mut i: usize = 0;
    while i < args.len()
        invariant
            i <= args.len(),
            cmd.len() == prefix.len() + i,
            cmd@.take(prefix.len() as int) == prefix,
            forall|j: int| 0 <= j < i ==> (#[trigger] cmd@[prefix.len() + j])@ == args@[j]@,
        decreases args.len() - i,
    {
        let ghost before = cmd@;
        cmd.push(args[i].to_string());
        assert(cmd@.take(prefix.len() as int) =~= before.take(prefix.len() as int));
        i += 1;
    }
    proof {
        let expected = entrypoint_of(instance.deep_view()) + words_of(args@);
        assert forall|k: int| 0 <= k < expected.len() implies #[trigger] cmd.deep_view()[k]
            == expected[k] by {
            if k < prefix.len() {
                assert(cmd@[k] == cmd@.take(prefix.len() as int)[k]);
            } else {
                assert(cmd@[prefix.len() + (k - prefix.len())]@ == args@[k - prefix.len()]@);
            }
        }
        assert(cmd.deep_view() =~= expected);
    }
    cmd
}

/// A character inside single quotes: itself, or the quotes closed round an
/// escaped quote.
pub open spec fn quoted_char(c: char) -> Seq<char> {
    if c == '\'' {
        seq!['\'', '\\', '\'', '\'']
    } else {
        seq![c]
    }
}

/// The characters of a text, inside single quotes.
pub open spec fn quoted_chars(s: Seq<char>) -> Seq<char>
    decreases s.len(),
{
    if s.len() == 0 {
        seq![]
    } else {
        quoted_chars(s.drop_last()) + quoted_char(s.last())
    }
}

/// A text as a single-quoted shell word.
pub open spec fn quoted(s: Seq<char>) -> Seq<char> {
    seq!['\''] + quoted_chars(s) + seq!['\'']
}

/// Single-quote a word for safe interpolation into a `sh -c` program.
///
/// Only used where shell source is built; argv vectors never go through this,
/// since there is no shell to re-parse them.
pub fn shell_quote(s: &str) -> (r: String)
    ensures
        r@ == quoted(s@),
{
    let mut out = String::new();
    out.push('\'');
    for c in it: s.chars()
        invariant
            it.seq() == s@,
            out@ == seq!['\''] + quoted_chars(s@.take(it.index() as int)),
    {
        proof {
            let n = it.index() as int;
            assert(s@.take(n + 1).drop_last() =~= s@.take(n));
            assert(s@.take(n + 1).last() == c);
        }
        if c == '\'' {
            out.push('\'');
            out.push('\\');
            out.push('\'');
            out.push('\'');
        } else {
            out.push(c);
        }
        assert(out@ =~= seq!['\''] + (quoted_chars(s@.take(it.index() as int)) + quoted_char(c)));
    }
    assert(s@.take(s@.len() as int) =~= s@);
    out.push('\'');
    assert(out@ =~= quoted(s@));
    out
}

/// The executable part of the Odoo invocation, as shell source.
pub open spec fn shell_executable_of(instance: OdooInstanceView) -> Seq<char> {
    match instance.spec.source_volume {
        None => "odoo"@,
        Some(sv) => "python3 "@ + quoted(sv.odoo_bin),
    }
}

/// The executable part of the Odoo invocation, as shell source, without the
/// `-c` flag.
///
/// Odoo reads a subcommand from its first argument only when that argument does
/// not start with `-`, so the flag has to follow the subcommand; see
/// [`odoo_cmd_env`].
pub fn odoo_shell_executable(instance: &OdooInstance) -> (r: String)
    ensures
        r@ == shell_executable_of(instance.deep_view()),
{
    match &instance.spec.source_volume {
        None => "odoo".to_string(),
        Some(sv) => "python3 ".to_string().concat(shell_quote(sv.odoo_bin.as_str()).as_str()),
    }
}

/// A shell word-list that runs Odoo without the image entrypoint wrapper, which
/// would wait for PostgreSQL first.
pub fn odoo_probe_command(instance: &OdooInstance) -> (r: String)
    ensures
        r@ == shell_executable_of(instance.deep_view()),
{
    odoo_shell_executable(instance)
}

/// [`odoo_entrypoint`] as shell source, for the step that `exec`s the server
/// rather than a subcommand. Paths are quoted, because a shell parses this.
pub fn odoo_entrypoint_shell(instance: &OdooInstance) -> (r: String)
    ensures
        r@ == match instance.deep_view().spec.source_volume {
            None => "/entrypoint.sh odoo"@,
            Some(sv) => "python3 "@ + quoted(sv.odoo_bin) + " -c "@ + quoted(ODOO_CONF_PATH@),
        },
{
    match &instance.spec.source_volume {
        None => "/entrypoint.sh odoo".to_string(),
        Some(sv) => {
            "python3 ".to_string().concat(shell_quote(sv.odoo_bin.as_str()).as_str()).concat(
                " -c ",
            ).concat(shell_quote(ODOO_CONF_PATH).as_str())
        },
    }
}

/// The variables through which shell scripts run Odoo.
pub open spec fn cmd_env_of(instance: OdooInstanceView) -> Seq<EnvVarView> {
    match instance.spec.source_volume {
        None => seq![],
        Some(sv) => seq![
            plain_env("ODOO_CMD"@, "python3 "@ + sv.odoo_bin),
            plain_env("ODOO_CONF_ARG"@, "-c "@ + ODOO_CONF_PATH@),
        ],
    }
}

/// `ODOO_CMD` / `ODOO_CONF_ARG` for the shell scripts that shell out to Odoo.
///
/// Both are unset without `spec.sourceVolume`, so that
/// `${ODOO_CMD:-odoo} neutralize ${ODOO_CONF_ARG:-}` is the bare
/// `odoo neutralize`.
///
/// Not shell-quoted: the shell splits the value into words on expansion and does
/// not process quotes in it. `spec.sourceVolume.odooBin` therefore must contain
/// no whitespace.
pub fn odoo_cmd_env(instance: &OdooInstance) -> (r: Vec<EnvVar>)
    ensures
        r.deep_view() == cmd_env_of(instance.deep_view()),
{
    let r = match &instance.spec.source_volume {
        None => Vec::new(),
        Some(sv) => {
            let cmd = "python3 ".to_string().concat(sv.odoo_bin.as_str());
            let conf = "-c ".to_string().concat(ODOO_CONF_PATH);
            vec![env("ODOO_CMD", cmd.as_str()), env("ODOO_CONF_ARG", conf.as_str())]
        },
    };
    assert(r.deep_view() =~= cmd_env_of(instance.deep_view()));
    r
}

// ── Extra environment ───────────────────────────────────────────────────────
/// The variables with one set: in the place of the first of its name, else at
/// the end.
pub open spec fn put_env(vars: Seq<EnvVarView>, e: EnvVarView) -> Seq<EnvVarView>
    decreases vars.len(),
{
    if vars.len() == 0 {
        seq![e]
    } else if vars[0].name == e.name {
        vars.update(0, e)
    } else {
        seq![vars[0]] + put_env(vars.skip(1), e)
    }
}

/// The variables of `base` with those of `extra` set, one after the other.
pub open spec fn merged_env(base: Seq<EnvVarView>, extra: Seq<EnvVarView>) -> Seq<EnvVarView>
    decreases extra.len(),
{
    if extra.len() == 0 {
        base
    } else {
        put_env(merged_env(base, extra.drop_last()), extra.last())
    }
}

/// Where the first variable of its name stands, that is the place it is set in.
proof fn put_env_in_place(vars: Seq<EnvVarView>, e: EnvVarView, i: int)
    requires
        0 <= i < vars.len(),
        vars[i].name == e.name,
        forall|j: int| 0 <= j < i ==> (#[trigger] vars[j]).name != e.name,
    ensures
        put_env(vars, e) == vars.update(i, e),
    decreases vars.len(),
{
    if i > 0 {
        assert(vars[0].name != e.name);
        let rest = vars.skip(1);
        assert forall|j: int| 0 <= j < i - 1 implies (#[trigger] rest[j]).name != e.name by {
            assert(rest[j] == vars[j + 1]);
        }
        put_env_in_place(rest, e, i - 1);
        assert(put_env(vars, e) =~= vars.update(i, e));
    }
}

/// Where no variable has its name, it is set at the end.
proof fn put_env_at_end(vars: Seq<EnvVarView>, e: EnvVarView)
    requires
        forall|j: int| 0 <= j < vars.len() ==> (#[trigger] vars[j]).name != e.name,
    ensures
        put_env(vars, e) == vars.push(e),
    decreases vars.len(),
{
    if vars.len() > 0 {
        assert(vars[0].name != e.name);
        let rest = vars.skip(1);
        assert forall|j: int| 0 <= j < rest.len() implies (#[trigger] rest[j]).name != e.name by {
            assert(rest[j] == vars[j + 1]);
        }
        put_env_at_end(rest, e);
    }
    assert(put_env(vars, e) =~= vars.push(e));
}

fn set_env(out: &mut Vec<EnvVar>, e: EnvVar)
    ensures
        final(out).deep_view() == put_env(old(out).deep_view(), e.deep_view()),
{
    let ghost before = out.deep_view();
    let mut i: usize = 0;
    while i < out.len() && !same(out[i].name.as_str(), e.name.as_str())
        invariant
            i <= out.len(),
            out.deep_view() == before,
            forall|j: int| 0 <= j < i ==> (#[trigger] before[j]).name != e.name@,
        decreases out.len() - i,
    {
        assert(before[i as int] == out@[i as int].deep_view());
        i += 1;
    }
    if i < out.len() {
        proof {
            assert(before[i as int] == out@[i as int].deep_view());
            put_env_in_place(before, e.deep_view(), i as int);
        }
        out.set(i, e);
        assert(out.deep_view() =~= before.update(i as int, e.deep_view()));
    } else {
        proof {
            put_env_at_end(before, e.deep_view());
        }
        out.push(e);
        assert(out.deep_view() =~= before.push(e.deep_view()));
    }
}

/// Merge two `EnvVar` slices, last-wins by `name`. `base` order is preserved; an
/// `extra` entry whose `name` matches a base entry overrides it in place, and
/// new names are appended.
pub fn merge_extra_env(base: &[EnvVar], extra: &[EnvVar]) -> (r: Vec<EnvVar>)
    ensures
        r.deep_view() == merged_env(base.deep_view(), extra.deep_view()),
{
    let mut out: Vec<EnvVar> = Vec::new();
    let mut i: usize = 0;
    while i < base.len()
        invariant
            i <= base.len(),
            out.deep_view() == base.deep_view().take(i as int),
        decreases base.len() - i,
    {
        let ghost before = out.deep_view();
        out.push(base[i].clone());
        assert(out.deep_view() =~= before.push(base@[i as int].deep_view()));
        assert(base.deep_view().take(i + 1) =~= before.push(base.deep_view()[i as int]));
        i += 1;
    }
    assert(base.deep_view().take(base.len() as int) =~= base.deep_view());
    let ghost all = extra.deep_view();
    assert(all.take(0) =~= seq![]);
    let mut k: usize = 0;
    while k < extra.len()
        invariant
            k <= extra.len(),
            all == extra.deep_view(),
            out.deep_view() == merged_env(base.deep_view(), all.take(k as int)),
        decreases extra.len() - k,
    {
        proof {
            assert(all.take(k + 1).drop_last() =~= all.take(k as int));
            assert(all.take(k + 1).last() == extra@[k as int].deep_view());
        }
        set_env(&mut out, extra[k].clone());
        k += 1;
    }
    assert(all.take(extra.len() as int) =~= all);
    out
}

/// A container with the extra environment of the instance.
pub open spec fn with_extra_env(c: ContainerView, instance: OdooInstanceView) -> ContainerView {
    ContainerView {
        env: if instance.spec.extra_env.len() == 0 {
            c.env
        } else {
            Some(merged_env(c.env.unwrap_or(seq![]), instance.spec.extra_env))
        },
        env_from: if instance.spec.extra_env_from.len() == 0 {
            c.env_from
        } else {
            Some(c.env_from.unwrap_or(seq![]) + instance.spec.extra_env_from)
        },
        ..c
    }
}

/// Layer an instance's `spec.extraEnv` / `spec.extraEnvFrom` onto a single
/// container and return it: `extraEnv` is merged last-wins by `name` over the
/// container's own env, and `extraEnvFrom` is appended to its `envFrom`.
///
/// Apply this only to containers that run the Odoo image and execute Odoo.
/// Tooling containers carry credentials of their own, which an override would
/// clobber.
pub fn apply_extra_env(c: Container, instance: &OdooInstance) -> (r: Container)
    ensures
        r.deep_view() == with_extra_env(c.deep_view(), instance.deep_view()),
{
    let mut c = c;
    let ghost before = c.deep_view();
    assert(instance.deep_view().spec.extra_env.len() == instance.spec.extra_env.len());
    if instance.spec.extra_env.len() != 0 {
        let base = match c.env {
            Some(env) => env,
            None => Vec::new(),
        };
        assert(base.deep_view() =~= before.env.unwrap_or(seq![]));
        let own = base.as_slice();
        let extra = instance.spec.extra_env.as_slice();
        assert(own.deep_view() =~= base.deep_view());
        assert(extra.deep_view() =~= instance.spec.extra_env.deep_view());
        c.env = Some(merge_extra_env(own, extra));
    }
    if instance.spec.extra_env_from.len() != 0 {
        let mut ef: Vec<EnvSource> = match c.env_from {
            Some(ef) => ef,
            None => Vec::new(),
        };
        let ghost own = ef@;
        assert(own =~= before.env_from.unwrap_or(seq![]));
        let mut i: usize = 0;
        while i < instance.spec.extra_env_from.len()
            invariant
                i <= instance.spec.extra_env_from.len(),
                ef@ == own + instance.spec.extra_env_from@.take(i as int),
            decreases instance.spec.extra_env_from.len() - i,
        {
            let ghost sofar = ef@;
            ef.push(instance.spec.extra_env_from[i].clone());
            proof {
                let extra = instance.spec.extra_env_from@;
                assert(extra.take(i + 1) =~= extra.take(i as int).push(extra[i as int]));
                assert(ef@ =~= own + extra.take(i + 1));
            }
            i += 1;
        }
        proof {
            let extra = instance.spec.extra_env_from@;
            assert(extra.take(extra.len() as int) =~= extra);
        }
        c.env_from = Some(ef);
    }
    c
}

// ── Names and images ────────────────────────────────────────────────────────
/// Get the cron deployment name for an odoo instance
pub fn cron_depl_name(instance: &OdooInstance) -> (r: String)
    ensures
        r@ == instance.deep_view().name() + "-cron"@,
{
    instance.name_any().concat("-cron")
}

/// Image carrying pg client tools that match a server major version. Callers
/// pass the greater of the two majors at the ends of a pipe.
pub fn pg_tools_image(major: u32) -> (r: String)
    ensures
        r@ == "postgres:"@ + crate::text::decimal(major as nat) + "-alpine"@,
{
    "postgres:".to_string().concat(decimal_string(major as u64).as_str()).concat("-alpine")
}

// ── OdooJobBuilder ──────────────────────────────────────────────────────────
/// Builder for `Job` resources used by the operator's job controllers.
///
/// Encapsulates what every job shares (metadata, backoff policy, TTL, security
/// context, standard volumes) and lets callers specify only what differs:
/// containers, init containers, extra volumes, deadlines, and affinity.
pub struct OdooJobBuilder {
    generate_name: String,
    namespace: String,
    owner_ref: OwnerReference,
    pull_secrets: Option<Vec<LocalObjectReference>>,
    standard: Vec<Volume>,
    extra: Vec<Volume>,
    containers: Vec<Container>,
    init_containers: Option<Vec<Container>>,
    active_deadline: Option<i64>,
    backoff_limit: Option<i32>,
    affinity: Option<PodAffinity>,
    labels: StringMap,
    security_context: PodSecurityContext,
}

/// What [`OdooJobBuilder`] has been told.
#[verifier::ext_equal]
pub struct OdooJobBuilderView {
    pub generate_name: Seq<char>,
    pub namespace: Seq<char>,
    pub owner_ref: OwnerReferenceView,
    pub pull_secrets: Option<Seq<LocalObjectReferenceView>>,
    /// The filestore and odoo.conf volumes.
    pub standard: Seq<VolumeView>,
    /// The volumes beside the standard ones, in order.
    pub extra: Seq<VolumeView>,
    pub containers: Seq<ContainerView>,
    pub init_containers: Option<Seq<ContainerView>>,
    pub active_deadline: Option<i64>,
    pub backoff_limit: Option<i32>,
    pub affinity: Option<PodAffinity>,
    pub labels: Map<Seq<char>, Seq<char>>,
    pub security_context: PodSecurityContextView,
}

impl DeepView for OdooJobBuilder {
    type V = OdooJobBuilderView;

    closed spec fn deep_view(&self) -> OdooJobBuilderView {
        OdooJobBuilderView {
            generate_name: self.generate_name@,
            namespace: self.namespace@,
            owner_ref: self.owner_ref.deep_view(),
            pull_secrets: self.pull_secrets.deep_view(),
            standard: self.standard.deep_view(),
            extra: self.extra.deep_view(),
            containers: self.containers.deep_view(),
            init_containers: self.init_containers.deep_view(),
            active_deadline: self.active_deadline,
            backoff_limit: self.backoff_limit,
            affinity: self.affinity,
            labels: self.labels.deep_view(),
            security_context: self.security_context.deep_view(),
        }
    }
}

impl OdooJobBuilderView {
    /// With more volumes beside the standard ones.
    pub open spec fn with_extra(self, volumes: Seq<VolumeView>) -> OdooJobBuilderView {
        OdooJobBuilderView { extra: self.extra + volumes, ..self }
    }

    /// Without the standard volumes.
    pub open spec fn without_standard(self) -> OdooJobBuilderView {
        OdooJobBuilderView { standard: seq![], ..self }
    }
}

/// The Job that a builder makes.
pub open spec fn job_of(b: OdooJobBuilderView) -> JobView {
    JobView {
        metadata: ObjectMetaView {
            generate_name: Some(b.generate_name),
            namespace: Some(b.namespace),
            owner_references: Some(seq![b.owner_ref]),
            labels: Some(b.labels),
            ..ObjectMetaView::blank()
        },
        spec: Some(
            JobSpecView {
                backoff_limit: Some(b.backoff_limit.unwrap_or(0)),
                ttl_seconds_after_finished: Some(900),
                active_deadline_seconds: b.active_deadline,
                template: PodTemplateSpecView {
                    metadata: Some(
                        ObjectMetaView { labels: Some(b.labels), ..ObjectMetaView::blank() },
                    ),
                    spec: Some(
                        PodSpecView {
                            restart_policy: Some("Never"@),
                            image_pull_secrets: b.pull_secrets,
                            security_context: Some(b.security_context),
                            affinity: b.affinity,
                            volumes: Some(b.standard + b.extra),
                            init_containers: b.init_containers,
                            containers: b.containers,
                            ..PodSpecView::blank()
                        },
                    ),
                },
            },
        ),
    }
}

impl OdooJobBuilder {
    /// Create a new builder with the standard Odoo job defaults.
    ///
    /// - `generate_name_prefix`: the `metadata.generateName` value
    /// - `ns`: namespace for the Job
    /// - `owner`: the resource that owns this Job
    /// - `instance`: the OdooInstance (used for pull secrets and standard volumes)
    pub fn new<K: Resource>(
        generate_name_prefix: &str,
        ns: &str,
        owner: &K,
        instance: &OdooInstance,
    ) -> (r: Self)
        ensures
            r.deep_view() == (OdooJobBuilderView {
                generate_name: generate_name_prefix@,
                namespace: ns@,
                owner_ref: owner_reference(
                    K::api_version_view(),
                    K::kind_view(),
                    owner.meta_view(),
                ),
                pull_secrets: pull_secrets_of(instance.deep_view()),
                standard: standard_volumes_of(instance.deep_view()),
                extra: seq![],
                containers: seq![],
                init_containers: None,
                active_deadline: None,
                backoff_limit: None,
                affinity: None,
                labels: labels_of(instance.deep_view()),
                security_context: security_context_of(instance.deep_view()),
            }),
    {
        let containers: Vec<Container> = Vec::new();
        assert(containers.deep_view() =~= seq![]);
        let extra: Vec<Volume> = Vec::new();
        assert(extra.deep_view() =~= seq![]);
        OdooJobBuilder {
            generate_name: generate_name_prefix.to_string(),
            namespace: ns.to_string(),
            owner_ref: controller_owner_ref(owner),
            pull_secrets: image_pull_secrets(instance),
            standard: odoo_volumes(instance),
            extra,
            containers,
            init_containers: None,
            active_deadline: None,
            backoff_limit: None,
            affinity: None,
            labels: instance_labels(instance),
            security_context: odoo_security_context(instance),
        }
    }

    /// Attach the instance's source claims to the pod. No-op when the instance
    /// has none, so job builders can call it unconditionally.
    ///
    /// Only the jobs whose containers actually execute Odoo need this.
    pub fn with_source_volume(self, instance: &OdooInstance) -> (r: Self)
        ensures
            r.deep_view() == self.deep_view().with_extra(source_volumes_of(instance.deep_view())),
    {
        self.extra_volumes(source_volumes(instance))
    }

    /// Set the main containers for the Job pod.
    pub fn containers(self, containers: Vec<Container>) -> (r: Self)
        ensures
            r.deep_view() == (OdooJobBuilderView {
                containers: containers.deep_view(),
                ..self.deep_view()
            }),
    {
        OdooJobBuilder { containers, ..self }
    }

    /// Set init containers for the Job pod.
    pub fn init_containers(self, init_containers: Vec<Container>) -> (r: Self)
        ensures
            r.deep_view() == (OdooJobBuilderView {
                init_containers: if init_containers.deep_view().len() == 0 {
                    None
                } else {
                    Some(init_containers.deep_view())
                },
                ..self.deep_view()
            }),
    {
        let init_containers = if init_containers.len() == 0 {
            None
        } else {
            Some(init_containers)
        };
        OdooJobBuilder { init_containers, ..self }
    }

    /// Append extra volumes beyond the standard filestore + odoo-conf.
    pub fn extra_volumes(self, extra: Vec<Volume>) -> (r: Self)
        ensures
            r.deep_view() == self.deep_view().with_extra(extra.deep_view()),
    {
        let ghost own = self.extra.deep_view();
        let ghost more = extra.deep_view();
        let mut all = self.extra;
        let mut extra = extra;
        all.append(&mut extra);
        assert(all.deep_view() =~= own + more);
        OdooJobBuilder { extra: all, ..self }
    }

    /// Drop the standard filestore PVC + odoo-conf volumes, and no others. Useful
    /// for jobs that don't run odoo-bin and don't touch the filestore: without the
    /// mount there is no ownership traversal at pod start.
    pub fn without_standard_volumes(self) -> (r: Self)
        ensures
            r.deep_view() == self.deep_view().without_standard(),
    {
        let standard: Vec<Volume> = Vec::new();
        assert(standard.deep_view() =~= seq![]);
        OdooJobBuilder { standard, ..self }
    }

    /// Set `spec.activeDeadlineSeconds` on the Job.
    pub fn active_deadline(self, seconds: i64) -> (r: Self)
        ensures
            r.deep_view() == (OdooJobBuilderView {
                active_deadline: Some(seconds),
                ..self.deep_view()
            }),
    {
        OdooJobBuilder { active_deadline: Some(seconds), ..self }
    }

    /// Set `spec.backoffLimit` on the Job. When unset it is 0: any pod failure
    /// terminates the Job.
    pub fn backoff_limit(self, n: i32) -> (r: Self)
        ensures
            r.deep_view() == (OdooJobBuilderView { backoff_limit: Some(n), ..self.deep_view() }),
    {
        OdooJobBuilder { backoff_limit: Some(n), ..self }
    }

    /// Set pod affinity (e.g. co-locate with the instance deployment).
    pub fn affinity(self, affinity: PodAffinity) -> (r: Self)
        ensures
            r.deep_view() == (OdooJobBuilderView { affinity: Some(affinity), ..self.deep_view() }),
    {
        OdooJobBuilder { affinity: Some(affinity), ..self }
    }

    /// Consume the builder and produce a `Job`.
    pub fn build(self) -> (r: Job)
        ensures
            r.deep_view() == job_of(self.deep_view()),
    {
        let template_meta = ObjectMeta {
            labels: Some(self.labels.clone()),
            ..Default::default()
        };
        let owners = vec![self.owner_ref];
        assert(owners.deep_view() =~= seq![self.owner_ref.deep_view()]);
        let ghost all = self.standard.deep_view() + self.extra.deep_view();
        let mut volumes = self.standard;
        let mut extra = self.extra;
        volumes.append(&mut extra);
        assert(volumes.deep_view() =~= all);
        Job {
            metadata: ObjectMeta {
                generate_name: Some(self.generate_name),
                namespace: Some(self.namespace),
                owner_references: Some(owners),
                labels: Some(self.labels),
                ..Default::default()
            },
            spec: Some(
                JobSpec {
                    backoff_limit: Some(
                        match self.backoff_limit {
                            Some(n) => n,
                            None => 0,
                        },
                    ),
                    ttl_seconds_after_finished: Some(900),
                    active_deadline_seconds: self.active_deadline,
                    template: PodTemplateSpec {
                        metadata: Some(template_meta),
                        spec: Some(
                            PodSpec {
                                restart_policy: Some("Never".to_string()),
                                image_pull_secrets: self.pull_secrets,
                                security_context: Some(self.security_context),
                                affinity: self.affinity,
                                volumes: Some(volumes),
                                init_containers: self.init_containers,
                                containers: self.containers,
                                ..Default::default()
                            },
                        ),
                    },
                },
            ),
        }
    }
}

// ── Laws ────────────────────────────────────────────────────────────────────
/// Without source claims, an instance runs by the official image's convention:
/// its entrypoint, its volumes and mounts and nothing else, no variables that
/// name another command.
pub proof fn official_image_convention(instance: OdooInstanceView)
    requires
        instance.spec.source_volume is None,
        instance.spec.custom_source_volume is None,
    ensures
        entrypoint_of(instance) == seq!["/entrypoint.sh"@, "odoo"@],
        shell_executable_of(instance) == "odoo"@,
        cmd_env_of(instance) == Seq::<EnvVarView>::empty(),
        source_volumes_of(instance) == Seq::<VolumeView>::empty(),
        odoo_mounts_of(instance) == standard_mounts(),
{
    assert(odoo_mounts_of(instance) =~= standard_mounts());
    assert(source_volumes_of(instance) =~= Seq::<VolumeView>::empty());
}

/// Dropping the standard volumes of a job drops them alone: the volumes added
/// before or after stay, and it makes no difference which came first.
pub proof fn only_standard_volumes_are_dropped(
    b: OdooJobBuilderView,
    volumes: Seq<VolumeView>,
)
    ensures
        job_of(b.with_extra(volumes).without_standard()).spec->0.template.spec->0.volumes == Some(
            b.extra + volumes,
        ),
        b.with_extra(volumes).without_standard() == b.without_standard().with_extra(volumes),
{
    assert(Seq::<VolumeView>::empty() + (b.extra + volumes) =~= b.extra + volumes);
}

/// The files of the filestore belong to the group that Odoo runs as, and the
/// default identity is that of the official image.
pub proof fn filestore_group_is_process_group(instance: OdooInstanceView)
    ensures
        security_context_of(instance).fs_group == security_context_of(instance).run_as_group,
        instance.spec.run_as_user is None ==> security_context_of(instance).run_as_user == Some(
            100i64,
        ),
        instance.spec.run_as_group is None ==> security_context_of(instance).run_as_group == Some(
            101i64,
        ),
{
}

/// The labels that a pod may have from its instance.
pub open spec fn pod_label_keys() -> Set<Seq<char>> {
    set![
        "bemade.org/environment"@,
        "bemade.org/instance"@,
        "droggol.sh/server-id"@,
        "droggol.sh/project-id"@,
        "droggol.sh/instance-id"@,
    ]
}

/// The keys of [`pod_label_keys`] are five different texts.
proof fn pod_label_keys_differ()
    ensures
        "bemade.org/environment"@.len() == 22,
        "bemade.org/environment"@[0] == 'b',
        "bemade.org/instance"@.len() == 19,
        "droggol.sh/server-id"@.len() == 20,
        "droggol.sh/project-id"@.len() == 21,
        "droggol.sh/instance-id"@.len() == 22,
        "droggol.sh/instance-id"@[0] == 'd',
        "app"@.len() == 3,
{
    reveal_strlit("bemade.org/environment");
    reveal_strlit("bemade.org/instance");
    reveal_strlit("droggol.sh/server-id");
    reveal_strlit("droggol.sh/project-id");
    reveal_strlit("droggol.sh/instance-id");
    reveal_strlit("app");
}

/// Pods carry the environment and the name of their instance and, of its own
/// labels, the hosting identity alone: any other label, `app` among them, stays
/// behind.
pub proof fn labels_are_allow_listed(instance: OdooInstanceView, key: Seq<char>)
    ensures
        labels_of(instance).contains_key(key) ==> pod_label_keys().contains(key),
        labels_of(instance).get("bemade.org/environment"@) == Some(
            instance.spec.environment.label(),
        ),
        labels_of(instance).get("bemade.org/instance"@) == Some(instance.name()),
        labels_of(instance).get("droggol.sh/server-id"@)
            == instance.metadata.labels_or_empty().get("droggol.sh/server-id"@),
        labels_of(instance).get("droggol.sh/project-id"@)
            == instance.metadata.labels_or_empty().get("droggol.sh/project-id"@),
        labels_of(instance).get("droggol.sh/instance-id"@)
            == instance.metadata.labels_or_empty().get("droggol.sh/instance-id"@),
        !labels_of(instance).contains_key("app"@),
{
    pod_label_keys_differ();
}

/// Odoo cannot write to the custom source: its volume and every mount of it are
/// read-only, whatever the mount says.
pub proof fn custom_source_is_read_only(instance: OdooInstanceView)
    ensures
        forall|i: int|
            0 <= i < odoo_mounts_of(instance).len() && (#[trigger] odoo_mounts_of(
                instance,
            )[i]).name == CUSTOM_SOURCE_VOLUME_NAME@ ==> odoo_mounts_of(instance)[i].read_only
                == Some(true),
        forall|i: int|
            0 <= i < source_volumes_of(instance).len() && (#[trigger] source_volumes_of(
                instance,
            )[i]).name == CUSTOM_SOURCE_VOLUME_NAME@ ==> source_volumes_of(
                instance,
            )[i].persistent_volume_claim->0.read_only == Some(true),
{
    reveal_strlit("odoo-source");
    reveal_strlit("odoo-custom-source");
    reveal_strlit("filestore");
    reveal_strlit("odoo-conf");
    assert(SOURCE_VOLUME_NAME@.len() == 11);
    assert(CUSTOM_SOURCE_VOLUME_NAME@.len() == 18);
}

/// Merging nothing changes nothing.
pub proof fn merging_nothing(base: Seq<EnvVarView>)
    ensures
        merged_env(base, Seq::empty()) == base,
{
}

/// Merging keeps the order: the variables of `base` stay in their places, each
/// under its name.
pub proof fn merging_keeps_order(base: Seq<EnvVarView>, extra: Seq<EnvVarView>)
    ensures
        base.len() <= merged_env(base, extra).len() <= base.len() + extra.len(),
        forall|i: int|
            0 <= i < base.len() ==> (#[trigger] merged_env(base, extra)[i]).name == base[i].name,
    decreases extra.len(),
{
    if extra.len() > 0 {
        merging_keeps_order(base, extra.drop_last());
        put_env_shape(merged_env(base, extra.drop_last()), extra.last());
    }
}

/// Setting a variable changes one place, to that variable, under the same name;
/// or it adds the variable at the end.
proof fn put_env_shape(vars: Seq<EnvVarView>, e: EnvVarView)
    ensures
        vars.len() <= put_env(vars, e).len() <= vars.len() + 1,
        forall|i: int|
            0 <= i < vars.len() ==> (#[trigger] put_env(vars, e)[i]).name == vars[i].name && (
            put_env(vars, e)[i] == vars[i] || put_env(vars, e)[i] == e),
        put_env(vars, e).len() > vars.len() ==> put_env(vars, e).last() == e,
    decreases vars.len(),
{
    if vars.len() > 0 && vars[0].name != e.name {
        let rest = vars.skip(1);
        put_env_shape(rest, e);
        assert forall|i: int| 0 <= i < vars.len() implies (#[trigger] put_env(vars, e)[i]).name
            == vars[i].name && (put_env(vars, e)[i] == vars[i] || put_env(vars, e)[i] == e) by {
            if i > 0 {
                assert(put_env(vars, e)[i] == put_env(rest, e)[i - 1]);
                assert(rest[i - 1] == vars[i]);
            }
        }
    }
}

/// The variable that a container sees under a name: the last one of that name.
pub open spec fn env_seen(vars: Seq<EnvVarView>, name: Seq<char>) -> Option<EnvVarView>
    decreases vars.len(),
{
    if vars.len() == 0 {
        None
    } else if vars.last().name == name {
        Some(vars.last())
    } else {
        env_seen(vars.drop_last(), name)
    }
}

/// Whether a name occurs at most once.
pub open spec fn at_most_once(vars: Seq<EnvVarView>, name: Seq<char>) -> bool {
    forall|i: int, j: int|
        0 <= i < j < vars.len() ==> !((#[trigger] vars[i]).name == name && (
        #[trigger] vars[j]).name == name)
}

/// Where a name occurs at most once, the variable seen is the one that has it.
proof fn env_seen_is_the_only_one(vars: Seq<EnvVarView>, name: Seq<char>)
    requires
        at_most_once(vars, name),
    ensures
        forall|i: int|
            0 <= i < vars.len() && (#[trigger] vars[i]).name == name ==> env_seen(vars, name)
                == Some(vars[i]),
        (forall|i: int| 0 <= i < vars.len() ==> (#[trigger] vars[i]).name != name) ==> env_seen(
            vars,
            name,
        ) is None,
    decreases vars.len(),
{
    if vars.len() > 0 {
        let init = vars.drop_last();
        assert(at_most_once(init, name)) by {
            assert forall|i: int, j: int| 0 <= i < j < init.len() implies !((
            #[trigger] init[i]).name == name && (#[trigger] init[j]).name == name) by {
                assert(init[i] == vars[i] && init[j] == vars[j]);
            }
        }
        env_seen_is_the_only_one(init, name);
        assert forall|i: int| 0 <= i < vars.len() && (#[trigger] vars[i]).name
            == name implies env_seen(vars, name) == Some(vars[i]) by {
            if i < vars.len() - 1 {
                assert(init[i] == vars[i]);
                assert(vars[vars.len() - 1].name != name);
            }
        }
        if forall|i: int| 0 <= i < vars.len() ==> (#[trigger] vars[i]).name != name {
            assert(vars[vars.len() - 1].name != name);
            assert forall|i: int| 0 <= i < init.len() implies (#[trigger] init[i]).name != name by {
                assert(init[i] == vars[i]);
            }
        }
    }
}

/// Setting a variable keeps other names at most once, and so does it its own.
proof fn put_env_keeps_once(vars: Seq<EnvVarView>, e: EnvVarView, name: Seq<char>)
    requires
        at_most_once(vars, name),
    ensures
        at_most_once(put_env(vars, e), name),
        env_seen(put_env(vars, e), name) == if e.name == name {
            Some(e)
        } else {
            env_seen(vars, name)
        },
{
    let out = put_env(vars, e);
    if exists|i: int| 0 <= i < vars.len() && (#[trigger] vars[i]).name == e.name {
        let k = first_named(vars, e.name);
        put_env_in_place(vars, e, k);
        assert(out[k] == e);
    } else {
        put_env_at_end(vars, e);
        assert(out[vars.len() as int] == e);
    }
    assert forall|i: int, j: int| 0 <= i < j < out.len() implies !((#[trigger] out[i]).name == name
        && (#[trigger] out[j]).name == name) by {
        if j < vars.len() {
            assert(out[i].name == vars[i].name && out[j].name == vars[j].name);
        } else {
            assert(out[i].name == vars[i].name);
        }
    }
    env_seen_is_the_only_one(vars, name);
    env_seen_is_the_only_one(out, name);
    if e.name != name {
        if exists|i: int| 0 <= i < vars.len() && (#[trigger] vars[i]).name == name {
            let k = choose|i: int| 0 <= i < vars.len() && (#[trigger] vars[i]).name == name;
            assert(out[k] == vars[k]);
        } else {
            assert forall|i: int| 0 <= i < out.len() implies (#[trigger] out[i]).name != name by {
                if i < vars.len() {
                    assert(out[i].name == vars[i].name);
                }
            }
        }
    }
}

/// The place of the first variable of a name.
proof fn first_named(vars: Seq<EnvVarView>, name: Seq<char>) -> (k: int)
    requires
        exists|i: int| 0 <= i < vars.len() && (#[trigger] vars[i]).name == name,
    ensures
        0 <= k < vars.len(),
        vars[k].name == name,
        forall|j: int| 0 <= j < k ==> (#[trigger] vars[j]).name != name,
    decreases vars.len(),
{
    if vars[0].name == name {
        0
    } else {
        let i = choose|i: int| 0 <= i < vars.len() && (#[trigger] vars[i]).name == name;
        let rest = vars.skip(1);
        assert(rest[i - 1].name == name);
        let k = first_named(rest, name);
        assert(vars[k + 1] == rest[k]);
        assert forall|j: int| 0 <= j < k + 1 implies (#[trigger] vars[j]).name != name by {
            if j > 0 {
                assert(rest[j - 1] == vars[j]);
            }
        }
        k + 1
    }
}

/// The last of the extra variables of a name wins over the operator's own, and
/// names that are not among the extra ones keep the value they had.
pub proof fn merging_last_wins(
    base: Seq<EnvVarView>,
    extra: Seq<EnvVarView>,
    name: Seq<char>,
)
    requires
        at_most_once(base, name),
    ensures
        env_seen(merged_env(base, extra), name) == match env_seen(extra, name) {
            Some(e) => Some(e),
            None => env_seen(base, name),
        },
        at_most_once(merged_env(base, extra), name),
    decreases extra.len(),
{
    if extra.len() > 0 {
        merging_last_wins(base, extra.drop_last(), name);
        put_env_keeps_once(merged_env(base, extra.drop_last()), extra.last(), name);
    }
}

/// Variables merged into nothing come out as they are, where no name repeats.
pub proof fn merging_into_nothing(extra: Seq<EnvVarView>)
    requires
        forall|i: int, j: int|
            0 <= i < j < extra.len() ==> (#[trigger] extra[i]).name != (#[trigger] extra[j]).name,
    ensures
        merged_env(Seq::empty(), extra) == extra,
    decreases extra.len(),
{
    if extra.len() > 0 {
        let init = extra.drop_last();
        assert forall|i: int, j: int| 0 <= i < j < init.len() implies (#[trigger] init[i]).name
            != (#[trigger] init[j]).name by {
            assert(init[i] == extra[i] && init[j] == extra[j]);
        }
        merging_into_nothing(init);
        assert forall|j: int| 0 <= j < init.len() implies (#[trigger] init[j]).name
            != extra.last().name by {
            assert(init[j] == extra[j]);
            assert(extra[j].name != extra[extra.len() - 1].name);
        }
        put_env_at_end(init, extra.last());
        assert(init.push(extra.last()) =~= extra);
    }
}

/// Merging twice is merging once, with the two lists one after the other.
pub proof fn merging_composes(
    base: Seq<EnvVarView>,
    extra: Seq<EnvVarView>,
    more: Seq<EnvVarView>,
)
    ensures
        merged_env(merged_env(base, extra), more) == merged_env(base, extra + more),
    decreases more.len(),
{
    if more.len() == 0 {
        assert(extra + more =~= extra);
    } else {
        merging_composes(base, extra, more.drop_last());
        assert((extra + more).drop_last() =~= extra + more.drop_last());
        assert((extra + more).last() == more.last());
    }
}

/// The first variable of a name.
pub open spec fn env_first(vars: Seq<EnvVarView>, name: Seq<char>) -> Option<EnvVarView>
    decreases vars.len(),
{
    if vars.len() == 0 {
        None
    } else if vars[0].name == name {
        Some(vars[0])
    } else {
        env_first(vars.skip(1), name)
    }
}

/// The first variable of a name that stands at a place.
proof fn env_first_at(vars: Seq<EnvVarView>, name: Seq<char>, i: int)
    requires
        0 <= i < vars.len(),
        vars[i].name == name,
        forall|j: int| 0 <= j < i ==> (#[trigger] vars[j]).name != name,
    ensures
        env_first(vars, name) == Some(vars[i]),
    decreases vars.len(),
{
    if i > 0 {
        assert(vars[0].name != name);
        let rest = vars.skip(1);
        assert forall|j: int| 0 <= j < i - 1 implies (#[trigger] rest[j]).name != name by {
            assert(rest[j] == vars[j + 1]);
        }
        env_first_at(rest, name, i - 1);
    }
}

/// Where there is a first variable of a name, some place has that name.
proof fn env_first_is_there(vars: Seq<EnvVarView>, name: Seq<char>)
    requires
        env_first(vars, name) is Some,
    ensures
        exists|i: int| 0 <= i < vars.len() && (#[trigger] vars[i]).name == name,
    decreases vars.len(),
{
    if vars[0].name != name {
        let rest = vars.skip(1);
        env_first_is_there(rest, name);
        let i = choose|i: int| 0 <= i < rest.len() && (#[trigger] rest[i]).name == name;
        assert(vars[i + 1].name == name);
    }
}

/// Setting a variable makes it the first of its name.
proof fn put_env_sets_first(vars: Seq<EnvVarView>, e: EnvVarView, name: Seq<char>)
    ensures
        env_first(put_env(vars, e), name) == if e.name == name {
            Some(e)
        } else {
            env_first(vars, name)
        },
    decreases vars.len(),
{
    let out = put_env(vars, e);
    if vars.len() == 0 {
        assert(out.skip(1) =~= seq![]);
        assert(env_first(out.skip(1), name) is None);
    } else if vars[0].name == e.name {
        assert(out.skip(1) =~= vars.skip(1));
    } else {
        put_env_sets_first(vars.skip(1), e, name);
        assert(out.skip(1) =~= put_env(vars.skip(1), e));
    }
}

/// The first variable of a name after a merge: the last of the extra ones, else
/// what it was.
proof fn merging_sets_first(base: Seq<EnvVarView>, extra: Seq<EnvVarView>, name: Seq<char>)
    ensures
        env_first(merged_env(base, extra), name) == match env_seen(extra, name) {
            Some(e) => Some(e),
            None => env_first(base, name),
        },
    decreases extra.len(),
{
    if extra.len() > 0 {
        merging_sets_first(base, extra.drop_last(), name);
        put_env_sets_first(merged_env(base, extra.drop_last()), extra.last(), name);
    }
}

/// A name that occurs is seen.
proof fn env_seen_where_it_occurs(vars: Seq<EnvVarView>, i: int)
    requires
        0 <= i < vars.len(),
    ensures
        env_seen(vars, vars[i].name) is Some,
    decreases vars.len(),
{
    if vars.last().name != vars[i].name {
        assert(vars.drop_last()[i] == vars[i]);
        env_seen_where_it_occurs(vars.drop_last(), i);
    }
}

/// Merging variables whose names are all there changes the first of each name
/// alone.
proof fn merging_known_names(base: Seq<EnvVarView>, extra: Seq<EnvVarView>)
    requires
        forall|k: int|
            0 <= k < extra.len() ==> env_first(base, (#[trigger] extra[k]).name) is Some,
    ensures
        merged_env(base, extra).len() == base.len(),
        forall|i: int|
            0 <= i < base.len() ==> (#[trigger] merged_env(base, extra)[i]).name == base[i].name,
        forall|i: int, j: int|
            #![trigger merged_env(base, extra)[i], base[j]]
            0 <= j < i < base.len() && base[j].name == base[i].name ==> merged_env(base, extra)[i]
                == base[i],
    decreases extra.len(),
{
    if extra.len() > 0 {
        let init = extra.drop_last();
        let e = extra.last();
        assert forall|k: int| 0 <= k < init.len() implies env_first(
            base,
            (#[trigger] init[k]).name,
        ) is Some by {
            assert(init[k] == extra[k]);
        }
        merging_known_names(base, init);
        let before = merged_env(base, init);
        assert(env_first(base, extra[extra.len() - 1].name) is Some);
        merging_sets_first(base, init, e.name);
        env_first_is_there(before, e.name);
        let at = first_named(before, e.name);
        put_env_in_place(before, e, at);
        assert forall|i: int, j: int|
            #![trigger merged_env(base, extra)[i], base[j]]
            0 <= j < i < base.len() && base[j].name == base[i].name implies merged_env(
            base,
            extra,
        )[i] == base[i] by {
            assert(before[j].name == base[j].name && before[i].name == base[i].name);
            if i == at {
                assert(before[j].name != e.name);
            }
        }
    }
}

/// Merging the same variables again changes nothing.
pub proof fn merging_is_idempotent(base: Seq<EnvVarView>, extra: Seq<EnvVarView>)
    ensures
        merged_env(merged_env(base, extra), extra) == merged_env(base, extra),
{
    let once = merged_env(base, extra);
    let twice = merged_env(once, extra);
    assert forall|k: int| 0 <= k < extra.len() implies env_first(
        once,
        (#[trigger] extra[k]).name,
    ) is Some by {
        merging_sets_first(base, extra, extra[k].name);
        env_seen_where_it_occurs(extra, k);
    }
    merging_known_names(once, extra);
    assert forall|i: int| 0 <= i < once.len() implies #[trigger] twice[i] == once[i] by {
        let name = once[i].name;
        if exists|j: int| 0 <= j < i && (#[trigger] once[j]).name == name {
            let j = choose|j: int| 0 <= j < i && (#[trigger] once[j]).name == name;
            assert(once[j].name == once[i].name);
        } else {
            env_first_at(once, name, i);
            assert forall|j: int| 0 <= j < i implies (#[trigger] twice[j]).name != name by {
                assert(twice[j].name == once[j].name);
            }
            env_first_at(twice, name, i);
            merging_sets_first(base, extra, name);
            merging_sets_first(once, extra, name);
        }
    }
    assert(twice =~= once);
}

/// An instance that sets no extra environment leaves a container untouched.
pub proof fn no_extra_env_no_change(c: ContainerView, instance: OdooInstanceView)
    requires
        instance.spec.extra_env.len() == 0,
        instance.spec.extra_env_from.len() == 0,
    ensures
        with_extra_env(c, instance) == c,
{
}

/// The text that a shell makes of a word built from single-quoted runs and
/// escaped characters. `None` for any other source.
pub open spec fn sh_word(src: Seq<char>, in_quotes: bool) -> Option<Seq<char>>
    decreases src.len(),
{
    if src.len() == 0 {
        if in_quotes {
            None
        } else {
            Some(seq![])
        }
    } else if src[0] == '\'' {
        sh_word(src.skip(1), !in_quotes)
    } else if in_quotes {
        match sh_word(src.skip(1), true) {
            Some(rest) => Some(seq![src[0]] + rest),
            None => None,
        }
    } else if src[0] == '\\' && src.len() >= 2 {
        match sh_word(src.skip(2), false) {
            Some(rest) => Some(seq![src[1]] + rest),
            None => None,
        }
    } else {
        None
    }
}

/// The first character of a text comes first among its quoted characters.
proof fn quoted_chars_from_front(c: char, s: Seq<char>)
    ensures
        quoted_chars(seq![c] + s) == quoted_char(c) + quoted_chars(s),
    decreases s.len(),
{
    let whole = seq![c] + s;
    if s.len() == 0 {
        assert(whole.drop_last() =~= seq![]);
        assert(quoted_chars(whole.drop_last()) =~= seq![]);
        assert(quoted_chars(whole) =~= quoted_char(c) + quoted_chars(s));
    } else {
        quoted_chars_from_front(c, s.drop_last());
        assert(whole.drop_last() =~= seq![c] + s.drop_last());
        assert(quoted_chars(whole) =~= quoted_char(c) + quoted_chars(s));
    }
}

/// Inside quotes, the shell reads the quoted characters of a text back.
proof fn sh_reads_quoted_chars(s: Seq<char>)
    ensures
        sh_word(quoted_chars(s) + seq!['\''], true) == Some(s),
    decreases s.len(),
{
    let src = quoted_chars(s) + seq!['\''];
    if s.len() == 0 {
        assert(src =~= seq!['\'']);
        assert(src.skip(1) =~= seq![]);
        assert(sh_word(src.skip(1), false) == Some(Seq::<char>::empty()));
        assert(s =~= Seq::<char>::empty());
    } else {
        let c = s[0];
        let rest = s.skip(1);
        let tail = quoted_chars(rest) + seq!['\''];
        assert(s =~= seq![c] + rest);
        quoted_chars_from_front(c, rest);
        sh_reads_quoted_chars(rest);
        assert(src =~= quoted_char(c) + tail);
        if c == '\'' {
            let a = src.skip(1);
            assert(a =~= seq!['\\', '\'', '\''] + tail);
            let b = a.skip(2);
            assert(b =~= seq!['\''] + tail);
            assert(b.skip(1) =~= tail);
            assert(sh_word(b, false) == Some(rest));
            assert(sh_word(a, false) == Some(seq!['\''] + rest));
        } else {
            assert(src.skip(1) =~= tail);
        }
    }
}

/// Quoting is undone by the shell: whatever characters a text holds, the shell
/// reads its quoted form back as that text.
pub proof fn shell_reads_quoted_text_back(s: Seq<char>)
    ensures
        sh_word(quoted(s), false) == Some(s),
{
    sh_reads_quoted_chars(s);
    assert(quoted(s).skip(1) =~= quoted_chars(s) + seq!['\'']);
}

/// The words that a shell splits an unquoted expansion into.
pub open spec fn sh_split(s: Seq<char>) -> Seq<Seq<char>>
    decreases s.len(),
{
    if s.len() == 0 {
        seq![]
    } else if crate::text::is_space(s.last()) {
        sh_split(s.drop_last())
    } else if s.len() == 1 || crate::text::is_space(s[s.len() - 2]) {
        sh_split(s.drop_last()).push(seq![s.last()])
    } else {
        let words = sh_split(s.drop_last());
        words.update(words.len() - 1, words.last().push(s.last()))
    }
}

/// A word after a space is split off whole.
proof fn sh_split_last_word(head: Seq<char>, word: Seq<char>)
    requires
        word.len() > 0,
        !crate::text::has_space(word),
        head.len() == 0 || crate::text::is_space(head.last()),
    ensures
        sh_split(head + word) == sh_split(head).push(word),
    decreases word.len(),
{
    let s = head + word;
    assert(!crate::text::is_space(word[word.len() - 1]));
    assert(s.last() == word.last());
    assert(s.drop_last() =~= head + word.drop_last());
    if word.len() == 1 {
        assert(word.drop_last() =~= seq![]);
        assert(head + word.drop_last() =~= head);
        assert(seq![word.last()] =~= word);
        if head.len() > 0 {
            assert(s[s.len() - 2] == head.last());
        }
    } else {
        let init = word.drop_last();
        assert(!crate::text::has_space(init)) by {
            if crate::text::has_space(init) {
                let i = choose|i: int|
                    0 <= i < init.len() && crate::text::is_space(#[trigger] init[i]);
                assert(crate::text::is_space(word[i]));
            }
        }
        sh_split_last_word(head, init);
        assert(s[s.len() - 2] == word[word.len() - 2]);
        assert(!crate::text::is_space(word[word.len() - 2]));
        let words = sh_split(head).push(init);
        assert(words.last() == init);
        assert(words.update(words.len() - 1, init.push(word.last())) =~= sh_split(head).push(
            init.push(word.last()),
        ));
        assert(init.push(word.last()) =~= word);
    }
}

/// Two words apart by a space are split into these two.
proof fn sh_split_two_words(a: Seq<char>, b: Seq<char>)
    requires
        a.len() > 0,
        b.len() > 0,
        !crate::text::has_space(a),
        !crate::text::has_space(b),
    ensures
        sh_split(a.push(' ') + b) == seq![a, b],
{
    let none = Seq::<char>::empty();
    sh_split_last_word(none, a);
    assert(none + a =~= a);
    assert(sh_split(none) =~= seq![]);
    assert(sh_split(a) =~= seq![a]);
    let head = a.push(' ');
    assert(head.drop_last() =~= a);
    assert(sh_split(head) == sh_split(a));
    sh_split_last_word(head, b);
    assert(seq![a].push(b) =~= seq![a, b]);
}

/// A text that does not end in a space has a last word.
proof fn sh_split_some(s: Seq<char>)
    requires
        s.len() > 0,
        !crate::text::is_space(s.last()),
    ensures
        sh_split(s).len() > 0,
    decreases s.len(),
{
    if s.len() > 1 && !crate::text::is_space(s[s.len() - 2]) {
        assert(s.drop_last().last() == s[s.len() - 2]);
        sh_split_some(s.drop_last());
    }
}

/// What stands behind a space is split on its own.
proof fn sh_split_behind_space(head: Seq<char>, tail: Seq<char>)
    requires
        head.len() > 0,
        crate::text::is_space(head.last()),
    ensures
        sh_split(head + tail) == sh_split(head) + sh_split(tail),
    decreases tail.len(),
{
    let s = head + tail;
    if tail.len() == 0 {
        assert(s =~= head);
        assert(sh_split(head) + sh_split(tail) =~= sh_split(head));
    } else {
        let init = tail.drop_last();
        sh_split_behind_space(head, init);
        assert(s.drop_last() =~= head + init);
        assert(s.last() == tail.last());
        if !crate::text::is_space(tail.last()) {
            if tail.len() == 1 {
                assert(s[s.len() - 2] == head.last());
                assert(sh_split(init) =~= seq![]);
            } else {
                assert(s[s.len() - 2] == tail[tail.len() - 2]);
                if !crate::text::is_space(tail[tail.len() - 2]) {
                    assert(init.last() == tail[tail.len() - 2]);
                    sh_split_some(init);
                }
            }
        }
        assert(sh_split(s) =~= sh_split(head) + sh_split(tail));
    }
}

/// The argv of a neutralization, as the shell makes it of the two variables.
pub open spec fn neutralize_argv(instance: OdooInstanceView) -> Seq<Seq<char>> {
    let cmd = match env_seen(cmd_env_of(instance), "ODOO_CMD"@) {
        Some(e) => e.value->0,
        None => "odoo"@,
    };
    let conf = match env_seen(cmd_env_of(instance), "ODOO_CONF_ARG"@) {
        Some(e) => e.value->0,
        None => seq![],
    };
    sh_split(cmd) + seq!["neutralize"@] + sh_split(conf)
}

/// The line of a neutralization, `${ODOO_CMD:-odoo} neutralize ${ODOO_CONF_ARG:-}`,
/// once the shell has expanded the variables.
pub open spec fn neutralize_line(instance: OdooInstanceView) -> Seq<char> {
    let cmd = match env_seen(cmd_env_of(instance), "ODOO_CMD"@) {
        Some(e) => e.value->0,
        None => "odoo"@,
    };
    let conf = match env_seen(cmd_env_of(instance), "ODOO_CONF_ARG"@) {
        Some(e) => e.value->0,
        None => seq![],
    };
    cmd + " neutralize "@ + conf
}

/// The whole line splits into the argv, variable by variable, whatever the path to
/// the executable holds.
pub proof fn neutralize_line_splits_into_argv(instance: OdooInstanceView)
    ensures
        sh_split(neutralize_line(instance)) == neutralize_argv(instance),
{
    reveal_strlit(" neutralize ");
    reveal_strlit("neutralize");
    let cmd = match env_seen(cmd_env_of(instance), "ODOO_CMD"@) {
        Some(e) => e.value->0,
        None => "odoo"@,
    };
    let conf = match env_seen(cmd_env_of(instance), "ODOO_CONF_ARG"@) {
        Some(e) => e.value->0,
        None => seq![],
    };
    let word = "neutralize"@;
    let first = cmd.push(' ');
    let second = (first + word).push(' ');
    assert(neutralize_line(instance) =~= second + conf);
    sh_split_behind_space(second, conf);
    assert(second.drop_last() =~= first + word);
    assert(sh_split(second) == sh_split(first + word));
    assert(!crate::text::has_space(word));
    sh_split_last_word(first, word);
    assert(first.drop_last() =~= cmd);
    assert(sh_split(first) == sh_split(cmd));
    assert(sh_split(cmd).push(word) + sh_split(conf) =~= neutralize_argv(instance));
}

/// A path without whitespace survives the shell's word splitting, and the
/// subcommand comes right behind the executable, before any flag: a flag there
/// would make Odoo run a server instead. Without a source claim the invocation
/// is the bare one.
pub proof fn subcommand_follows_executable(instance: OdooInstanceView)
    requires
        instance.spec.source_volume matches Some(sv) ==> {
            &&& sv.odoo_bin.len() > 0
            &&& !crate::text::has_space(sv.odoo_bin)
        },
    ensures
        instance.spec.source_volume is None ==> neutralize_argv(instance) == seq![
            "odoo"@,
            "neutralize"@,
        ],
        instance.spec.source_volume matches Some(sv) ==> neutralize_argv(instance) == seq![
            "python3"@,
            sv.odoo_bin,
            "neutralize"@,
            "-c"@,
            ODOO_CONF_PATH@,
        ],
{
    reveal_strlit("odoo");
    reveal_strlit("python3");
    reveal_strlit("python3 ");
    reveal_strlit("-c");
    reveal_strlit("-c ");
    reveal_strlit("/etc/odoo/odoo.conf");
    reveal_strlit("ODOO_CMD");
    reveal_strlit("ODOO_CONF_ARG");
    let none = Seq::<char>::empty();
    match instance.spec.source_volume {
        None => {
            assert(!crate::text::has_space("odoo"@));
            sh_split_last_word(none, "odoo"@);
            assert(none + "odoo"@ =~= "odoo"@);
            assert(sh_split(none) =~= seq![]);
            assert(env_seen(cmd_env_of(instance), "ODOO_CMD"@) is None);
            assert(env_seen(cmd_env_of(instance), "ODOO_CONF_ARG"@) is None);
            assert(neutralize_argv(instance) =~= seq!["odoo"@, "neutralize"@]);
        },
        Some(sv) => {
            assert("python3 "@ =~= "python3"@.push(' '));
            assert("-c "@ =~= "-c"@.push(' '));
            assert(!crate::text::has_space("python3"@));
            assert(!crate::text::has_space("-c"@));
            assert(!crate::text::has_space(ODOO_CONF_PATH@));
            sh_split_two_words("python3"@, sv.odoo_bin);
            sh_split_two_words("-c"@, ODOO_CONF_PATH@);
            let vars = cmd_env_of(instance);
            assert(vars.len() == 2);
            assert("ODOO_CMD"@.len() != "ODOO_CONF_ARG"@.len());
            assert(vars.last() == plain_env("ODOO_CONF_ARG"@, "-c "@ + ODOO_CONF_PATH@));
            assert(vars.drop_last().last() == plain_env("ODOO_CMD"@, "python3 "@ + sv.odoo_bin));
            assert(env_seen(vars, "ODOO_CONF_ARG"@) == Some(vars.last()));
            assert(env_seen(vars.drop_last(), "ODOO_CMD"@) == Some(vars.drop_last().last()));
            assert(env_seen(vars, "ODOO_CMD"@) == Some(vars.drop_last().last()));
            assert(neutralize_argv(instance) =~= seq![
                "python3"@,
                sv.odoo_bin,
                "neutralize"@,
                "-c"@,
                ODOO_CONF_PATH@,
            ]);
        },
    }
}

/// A variable has its value from where it says, and from there alone: from the text,
/// from the key of the ConfigMap, or from the key of the Secret.
pub proof fn variables_have_one_source(
    name: &str,
    value: &str,
    object: &str,
    key: &str,
    plain: EnvVar,
    mapped: EnvVar,
    hidden: EnvVar,
)
    requires
        call_ensures(env, (name, value), plain),
        call_ensures(cm_env, (name, object, key), mapped),
        call_ensures(secret_env, (name, object, key), hidden),
    ensures
        plain.deep_view().name == name@,
        plain.deep_view().value == Some(value@),
        plain.deep_view().value_from is None,
        mapped.deep_view().name == name@,
        mapped.deep_view().value is None,
        mapped.deep_view().value_from matches Some(source) && source.secret_key_ref is None
            && source.field_ref is None && source.resource_field_ref is None && (
        source.config_map_key_ref matches Some(selector) && selector.name == object@
            && selector.key == key@ && selector.optional is None),
        hidden.deep_view().name == name@,
        hidden.deep_view().value is None,
        hidden.deep_view().value_from matches Some(source) && source.config_map_key_ref is None
            && source.field_ref is None && source.resource_field_ref is None && (
        source.secret_key_ref matches Some(selector) && selector.name == object@ && selector.key
            == key@ && selector.optional is None),
{
}

/// Mail goes to the sink exactly where a staging instance meets an operator that has
/// one: three variables, with the host, the port and the encryption that the operator
/// says. A production instance is told nothing.
pub proof fn only_staging_mails_to_the_sink(
    instance: OdooInstanceView,
    defaults: OperatorDefaultsView,
)
    ensures
        ({
            let vars = staging_mail_env(instance, defaults);
            let sunk = instance.spec.environment == Environment::Staging
                && defaults.staging_smtp_host.len() > 0;
            &&& !sunk ==> vars.len() == 0
            &&& sunk ==> {
                &&& vars.len() == 3
                &&& vars[0].name == "MAIL_SMTP_HOST"@
                &&& vars[0].value == Some(defaults.staging_smtp_host)
                &&& vars[1].name == "MAIL_SMTP_PORT"@
                &&& vars[1].value == Some(crate::text::decimal(defaults.staging_smtp_port as nat))
                &&& vars[2].name == "MAIL_SMTP_ENCRYPTION"@
                &&& vars[2].value == Some(defaults.staging_smtp_encryption)
                &&& vars[0].value_from is None && vars[1].value_from is None && vars[2].value_from
                    is None
            }
        }),
{
}

/// What is owned by an instance says so: by its kind, its name and its identity, as its
/// managing controller, and so that it goes first.
pub proof fn owners_are_named_in_full(instance: OdooInstance, oref: OwnerReference)
    requires
        call_ensures(controller_owner_ref::<OdooInstance>, (&instance,), oref),
    ensures
        oref.deep_view().api_version == "bemade.org/v1alpha1"@,
        oref.deep_view().kind == "OdooInstance"@,
        oref.deep_view().name == instance.deep_view().metadata.name_any(),
        oref.deep_view().uid == instance.deep_view().metadata.uid_or_empty(),
        oref.deep_view().controller == Some(true),
        oref.deep_view().block_owner_deletion == Some(true),
{
}

/// The names that hang on the instance's own: of its odoo.conf object and of its cron
/// Deployment. The client tools of PostgreSQL are those of the server's major version.
pub proof fn names_hang_on_the_instance(
    instance: OdooInstance,
    instance_name: &str,
    major: u32,
    conf: String,
    in_secret: bool,
    cron: String,
    tools: String,
)
    requires
        call_ensures(odoo_conf_name, (instance_name,), conf),
        call_ensures(odoo_conf_in_secret, (&instance,), in_secret),
        call_ensures(cron_depl_name, (&instance,), cron),
        call_ensures(pg_tools_image, (major,), tools),
    ensures
        conf@ == instance_name@ + "-odoo-conf"@,
        in_secret <==> instance.spec.admin_password_secret_ref is Some,
        cron@ == instance.deep_view().metadata.name_any() + "-cron"@,
        tools@ == "postgres:"@ + crate::text::decimal(major as nat) + "-alpine"@,
{
}

/// Odoo is launched by the official entrypoint, or by `odoo-bin` of the source volume
/// with the mounted odoo.conf; the arguments follow, each in its place.
pub proof fn commands_launch_and_then_argue(
    instance: OdooInstance,
    args: &[&str],
    command: Vec<String>,
)
    requires
        call_ensures(odoo_command, (&instance, args), command),
    ensures
        ({
            let words = command.deep_view();
            let launched: int = match instance.spec.source_volume {
                None => 2,
                Some(_) => 4,
            };
            &&& words.len() == launched + args@.len()
            &&& forall|i: int| 0 <= i < args@.len() ==> words[launched + i] == (#[trigger] args@[i])@
            &&& instance.spec.source_volume is None ==> words[0] == "/entrypoint.sh"@ && words[1]
                == "odoo"@
            &&& instance.spec.source_volume matches Some(source) ==> words[0] == "python3"@
                && words[1] == source.odoo_bin@ && words[2] == "-c"@ && words[3]
                == "/etc/odoo/odoo.conf"@
        }),
{
    assert(instance.deep_view().spec.source_volume == instance.spec.source_volume.deep_view());
}

/// A shell runs what the argument list names: `odoo`, or `python3` with the path of the
/// source volume as one word, whatever characters it holds; and for the server itself
/// the entrypoint, or that with the mounted odoo.conf.
pub proof fn shells_run_the_same_command(
    instance: OdooInstance,
    executable: String,
    probe: String,
    entrypoint: String,
)
    requires
        call_ensures(odoo_shell_executable, (&instance,), executable),
        call_ensures(odoo_probe_command, (&instance,), probe),
        call_ensures(odoo_entrypoint_shell, (&instance,), entrypoint),
    ensures
        probe@ == executable@,
        instance.spec.source_volume is None ==> executable@ == "odoo"@ && entrypoint@
            == "/entrypoint.sh odoo"@,
        instance.spec.source_volume matches Some(source) ==> {
            let word = executable@.skip(8);
            &&& executable@ == "python3 "@ + word
            &&& sh_word(word, false) == Some(source.odoo_bin@)
            &&& entrypoint@ == executable@ + " -c "@ + quoted("/etc/odoo/odoo.conf"@)
        },
{
    assert(instance.deep_view().spec.source_volume == instance.spec.source_volume.deep_view());
    reveal_strlit("python3 ");
    if let Some(source) = instance.spec.source_volume {
        shell_reads_quoted_text_back(source.odoo_bin@);
        assert(executable@.skip(8) =~= quoted(source.odoo_bin@));
        assert(entrypoint@ =~= executable@ + " -c "@ + quoted("/etc/odoo/odoo.conf"@));
    }
}

/// A quoted text has its quotes at both ends and every character in between, a quote
/// escaped and any other as it stands.
pub proof fn quoting_goes_character_by_character(s: Seq<char>, c: char)
    ensures
        quoted(Seq::<char>::empty()) == seq!['\'', '\''],
        c != '\'' ==> quoted(s.push(c)) == quoted(s).drop_last() + seq![c, '\''],
        quoted(s.push('\'')) == quoted(s).drop_last() + seq!['\'', '\\', '\'', '\'', '\''],
{
    assert(quoted(Seq::<char>::empty()) =~= seq!['\'', '\'']);
    assert(s.push(c).drop_last() =~= s);
    assert(s.push('\'').drop_last() =~= s);
    assert(quoted(s).drop_last() =~= seq!['\''] + quoted_chars(s));
    if c != '\'' {
        assert(quoted(s.push(c)) =~= quoted(s).drop_last() + seq![c, '\'']);
    }
    assert(quoted(s.push('\'')) =~= quoted(s).drop_last() + seq!['\'', '\\', '\'', '\'', '\'']);
}

/// Scripts are told how to run Odoo only where there is a source volume: `python3` and
/// its path, and the mounted odoo.conf.
pub proof fn scripts_are_told_of_the_source(instance: OdooInstanceView)
    ensures
        ({
            let vars = cmd_env_of(instance);
            &&& instance.spec.source_volume is None ==> vars.len() == 0
            &&& instance.spec.source_volume matches Some(source) ==> {
                &&& vars.len() == 2
                &&& vars[0].name == "ODOO_CMD"@
                &&& vars[0].value == Some("python3 "@ + source.odoo_bin)
                &&& vars[0].value_from is None
                &&& vars[1].name == "ODOO_CONF_ARG"@
                &&& vars[1].value == Some("-c "@ + "/etc/odoo/odoo.conf"@)
                &&& vars[1].value_from is None
            }
        }),
{
}

/// Setting a variable puts it in the place of the first of its name, and only there;
/// where none has its name, it comes last.
pub proof fn variables_are_set_in_place(vars: Seq<EnvVarView>, e: EnvVarView, i: int)
    ensures
        0 <= i < vars.len() && vars[i].name == e.name && (forall|j: int|
            0 <= j < i ==> (#[trigger] vars[j]).name != e.name) ==> merged_env(vars, seq![e])
            == vars.update(i, e),
        (forall|j: int| 0 <= j < vars.len() ==> (#[trigger] vars[j]).name != e.name)
            ==> merged_env(vars, seq![e]) == vars.push(e),
{
    assert(seq![e].drop_last() =~= Seq::empty());
    assert(merged_env(vars, Seq::empty()) == vars);
    assert(merged_env(vars, seq![e]) == put_env(vars, e));
    if 0 <= i < vars.len() && vars[i].name == e.name && (forall|j: int|
        0 <= j < i ==> (#[trigger] vars[j]).name != e.name) {
        put_env_in_place(vars, e, i);
    }
    if forall|j: int| 0 <= j < vars.len() ==> (#[trigger] vars[j]).name != e.name {
        put_env_at_end(vars, e);
    }
}

/// The extra environment of the spec changes the environment of a container and nothing
/// else: its variables are merged, its sources are appended.
pub proof fn extra_environment_changes_nothing_else(c: ContainerView, instance: OdooInstanceView)
    ensures
        ({
            let after = with_extra_env(c, instance);
            let own = c.env.unwrap_or(seq![]);
            let sources = c.env_from.unwrap_or(seq![]);
            &&& after == (ContainerView { env: after.env, env_from: after.env_from, ..c })
            &&& instance.spec.extra_env.len() > 0 ==> after.env == Some(
                merged_env(own, instance.spec.extra_env),
            )
            &&& instance.spec.extra_env.len() == 0 ==> after.env == c.env
            &&& instance.spec.extra_env_from.len() > 0 ==> after.env_from == Some(
                sources + instance.spec.extra_env_from,
            )
            &&& instance.spec.extra_env_from.len() == 0 ==> after.env_from == c.env_from
        }),
{
}

/// A Job runs once, unless it was told to try again, is gone fifteen minutes after it
/// ended, and ends at its deadline where it has one. It belongs to its owner, and its
/// pod carries its labels and has the volumes, containers, identity, affinity and pull
/// secrets that the builder was told.
pub proof fn jobs_are_built_as_told(b: OdooJobBuilderView)
    ensures
        ({
            let job = job_of(b);
            let spec = job.spec->0;
            let pod = spec.template.spec->0;
            &&& job.metadata.generate_name == Some(b.generate_name)
            &&& job.metadata.name is None
            &&& job.metadata.namespace == Some(b.namespace)
            &&& job.metadata.owner_references == Some(seq![b.owner_ref])
            &&& job.metadata.labels == Some(b.labels)
            &&& job.metadata.annotations is None
            &&& job.spec is Some
            &&& b.backoff_limit matches Some(n) ==> spec.backoff_limit == Some(n)
            &&& b.backoff_limit is None ==> spec.backoff_limit == Some(0i32)
            &&& spec.ttl_seconds_after_finished == Some(900i32)
            &&& spec.active_deadline_seconds == b.active_deadline
            &&& spec.template.metadata matches Some(meta) && meta.labels == Some(b.labels)
                && meta.name is None && meta.annotations is None
            &&& spec.template.spec is Some
            &&& pod.restart_policy == Some("Never"@)
            &&& pod.image_pull_secrets == b.pull_secrets
            &&& pod.security_context == Some(b.security_context)
            &&& pod.affinity == b.affinity
            &&& pod.tolerations is None
            &&& pod.volumes == Some(b.standard + b.extra)
            &&& pod.init_containers == b.init_containers
            &&& pod.containers == b.containers
        }),
{
}

/// A builder begins with what every Job of an instance has: its pull secret, its
/// labels, its identity and the filestore and odoo.conf volumes; and with nothing else.
pub proof fn builders_begin_with_the_instance(
    prefix: &str,
    ns: &str,
    owner: OdooInstance,
    instance: OdooInstance,
    builder: OdooJobBuilder,
)
    requires
        call_ensures(
            OdooJobBuilder::new::<OdooInstance>,
            (prefix, ns, &owner, &instance),
            builder,
        ),
    ensures
        ({
            let b = builder.deep_view();
            let of = instance.deep_view();
            &&& b.generate_name == prefix@
            &&& b.namespace == ns@
            &&& b.owner_ref.api_version == "bemade.org/v1alpha1"@
            &&& b.owner_ref.kind == "OdooInstance"@
            &&& b.owner_ref.name == owner.deep_view().metadata.name_any()
            &&& b.owner_ref.uid == owner.deep_view().metadata.uid_or_empty()
            &&& b.owner_ref.controller == Some(true)
            &&& b.owner_ref.block_owner_deletion == Some(true)
            &&& of.spec.image_pull_secret matches Some(secret) ==> b.pull_secrets == Some(
                seq![LocalObjectReferenceView { name: secret }],
            )
            &&& of.spec.image_pull_secret is None ==> b.pull_secrets is None
            &&& b.standard == standard_volumes_of(of)
            &&& b.extra.len() == 0
            &&& b.containers.len() == 0
            &&& b.init_containers is None
            &&& b.active_deadline is None
            &&& b.backoff_limit is None
            &&& b.affinity is None
            &&& b.labels == labels_of(of)
            &&& b.security_context == security_context_of(of)
        }),
{
}

/// Each word to a builder sets what it names and leaves the rest; volumes add up, and
/// no init containers are none.
pub proof fn builders_change_what_they_are_told(
    b: OdooJobBuilder,
    instance: OdooInstance,
    containers: Vec<Container>,
    volumes: Vec<Volume>,
    seconds: i64,
    tries: i32,
    affinity: PodAffinity,
    sourced: OdooJobBuilder,
    contained: OdooJobBuilder,
    initialized: OdooJobBuilder,
    extended: OdooJobBuilder,
    stripped: OdooJobBuilder,
    dated: OdooJobBuilder,
    limited: OdooJobBuilder,
    placed: OdooJobBuilder,
)
    requires
        call_ensures(OdooJobBuilder::with_source_volume, (b, &instance), sourced),
        call_ensures(OdooJobBuilder::containers, (b, containers), contained),
        call_ensures(OdooJobBuilder::init_containers, (b, containers), initialized),
        call_ensures(OdooJobBuilder::extra_volumes, (b, volumes), extended),
        call_ensures(OdooJobBuilder::without_standard_volumes, (b,), stripped),
        call_ensures(OdooJobBuilder::active_deadline, (b, seconds), dated),
        call_ensures(OdooJobBuilder::backoff_limit, (b, tries), limited),
        call_ensures(OdooJobBuilder::affinity, (b, affinity), placed),
    ensures
        ({
            let told = b.deep_view();
            let given = containers.deep_view();
            &&& sourced.deep_view() == (OdooJobBuilderView {
                extra: told.extra + source_volumes_of(instance.deep_view()),
                ..told
            })
            &&& contained.deep_view() == (OdooJobBuilderView { containers: given, ..told })
            &&& given.len() == 0 ==> initialized.deep_view() == (OdooJobBuilderView {
                init_containers: None,
                ..told
            })
            &&& given.len() > 0 ==> initialized.deep_view() == (OdooJobBuilderView {
                init_containers: Some(given),
                ..told
            })
            &&& extended.deep_view() == (OdooJobBuilderView {
                extra: told.extra + volumes.deep_view(),
                ..told
            })
            &&& stripped.deep_view() == (OdooJobBuilderView { standard: Seq::empty(), ..told })
            &&& dated.deep_view() == (OdooJobBuilderView { active_deadline: Some(seconds), ..told })
            &&& limited.deep_view() == (OdooJobBuilderView { backoff_limit: Some(tries), ..told })
            &&& placed.deep_view() == (OdooJobBuilderView { affinity: Some(affinity), ..told })
        }),
{
}

} // verus!
