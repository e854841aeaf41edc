//! Volumes of a pod and their mounts in its containers.

use vstd::prelude::*;

use crate::text::copy_opt;

verus! {

/// A key of an object, and the file it becomes.
#[derive(Debug, PartialEq)]
pub struct KeyToPath {
    pub key: String,
    pub path: String,
}

/// What [`KeyToPath`] holds.
#[verifier::ext_equal]
pub struct KeyToPathView {
    pub key: Seq<char>,
    pub path: Seq<char>,
}

impl DeepView for KeyToPath {
    type V = KeyToPathView;

    open spec fn deep_view(&self) -> KeyToPathView {
        KeyToPathView {
            key: self.key@,
            path: self.path@,
        }
    }
}

impl KeyToPathView {
    /// Every field empty or absent.
    pub open spec fn blank() -> KeyToPathView {
        KeyToPathView {
            key: Seq::empty(),
            path: Seq::empty(),
        }
    }
}

impl Default for KeyToPath {
    fn default() -> (r: KeyToPath)
        ensures
            r.deep_view() == KeyToPathView::blank(),
    {
        KeyToPath {
            key: String::new(),
            path: String::new(),
        }
    }
}

/// A volume filled from a ConfigMap.
#[derive(Debug, PartialEq)]
pub struct ConfigMapVolumeSource {
    pub name: String,
    pub items: Option<Vec<KeyToPath>>,
}

/// What [`ConfigMapVolumeSource`] holds.
#[verifier::ext_equal]
pub struct ConfigMapVolumeSourceView {
    pub name: Seq<char>,
    pub items: Option<Seq<KeyToPathView>>,
}

impl DeepView for ConfigMapVolumeSource {
    type V = ConfigMapVolumeSourceView;

    open spec fn deep_view(&self) -> ConfigMapVolumeSourceView {
        ConfigMapVolumeSourceView {
            name: self.name@,
            items: self.items.deep_view(),
        }
    }
}

impl ConfigMapVolumeSourceView {
    /// Every field empty or absent.
    pub open spec fn blank() -> ConfigMapVolumeSourceView {
        ConfigMapVolumeSourceView {
            name: Seq::empty(),
            items: None,
        }
    }
}

impl Default for ConfigMapVolumeSource {
    fn default() -> (r: ConfigMapVolumeSource)
        ensures
            r.deep_view() == ConfigMapVolumeSourceView::blank(),
    {
        ConfigMapVolumeSource {
            name: String::new(),
            items: None,
        }
    }
}

/// A volume filled from a Secret.
#[derive(Debug, PartialEq)]
pub struct SecretVolumeSource {
    pub secret_name: Option<String>,
}

/// What [`SecretVolumeSource`] holds.
#[verifier::ext_equal]
pub struct SecretVolumeSourceView {
    pub secret_name: Option<Seq<char>>,
}

impl DeepView for SecretVolumeSource {
    type V = SecretVolumeSourceView;

    open spec fn deep_view(&self) -> SecretVolumeSourceView {
        SecretVolumeSourceView {
            secret_name: self.secret_name.deep_view(),
        }
    }
}

impl SecretVolumeSourceView {
    /// Every field empty or absent.
    pub open spec fn blank() -> SecretVolumeSourceView {
        SecretVolumeSourceView {
            secret_name: None,
        }
    }
}

impl Default for SecretVolumeSource {
    fn default() -> (r: SecretVolumeSource)
        ensures
            r.deep_view() == SecretVolumeSourceView::blank(),
    {
        SecretVolumeSource {
            secret_name: None,
        }
    }
}

/// A volume that starts empty and lives as long as the pod.
#[derive(Debug, PartialEq)]
pub struct EmptyDirVolumeSource {
    pub medium: Option<String>,
    /// The limit, as a quantity.
    pub size_limit: Option<String>,
}

/// What [`EmptyDirVolumeSource`] holds.
#[verifier::ext_equal]
pub struct EmptyDirVolumeSourceView {
    pub medium: Option<Seq<char>>,
    pub size_limit: Option<Seq<char>>,
}

impl DeepView for EmptyDirVolumeSource {
    type V = EmptyDirVolumeSourceView;

    open spec fn deep_view(&self) -> EmptyDirVolumeSourceView {
        EmptyDirVolumeSourceView {
            medium: self.medium.deep_view(),
            size_limit: self.size_limit.deep_view(),
        }
    }
}

impl EmptyDirVolumeSourceView {
    /// Every field empty or absent.
    pub open spec fn blank() -> EmptyDirVolumeSourceView {
        EmptyDirVolumeSourceView {
            medium: None,
            size_limit: None,
        }
    }
}

impl Default for EmptyDirVolumeSource {
    fn default() -> (r: EmptyDirVolumeSource)
        ensures
            r.deep_view() == EmptyDirVolumeSourceView::blank(),
    {
        EmptyDirVolumeSource {
            medium: None,
            size_limit: None,
        }
    }
}

/// A volume backed by a claim.
#[derive(Debug, PartialEq)]
pub struct PersistentVolumeClaimVolumeSource {
    pub claim_name: String,
    pub read_only: Option<bool>,
}

/// What [`PersistentVolumeClaimVolumeSource`] holds.
#[verifier::ext_equal]
pub struct PersistentVolumeClaimVolumeSourceView {
    pub claim_name: Seq<char>,
    pub read_only: Option<bool>,
}

impl DeepView for PersistentVolumeClaimVolumeSource {
    type V = PersistentVolumeClaimVolumeSourceView;

    open spec fn deep_view(&self) -> PersistentVolumeClaimVolumeSourceView {
        PersistentVolumeClaimVolumeSourceView {
            claim_name: self.claim_name@,
            read_only: self.read_only,
        }
    }
}

impl PersistentVolumeClaimVolumeSourceView {
    /// Every field empty or absent.
    pub open spec fn blank() -> PersistentVolumeClaimVolumeSourceView {
        PersistentVolumeClaimVolumeSourceView {
            claim_name: Seq::empty(),
            read_only: None,
        }
    }
}

impl Default for PersistentVolumeClaimVolumeSource {
    fn default() -> (r: PersistentVolumeClaimVolumeSource)
        ensures
            r.deep_view() == PersistentVolumeClaimVolumeSourceView::blank(),
    {
        PersistentVolumeClaimVolumeSource {
            claim_name: String::new(),
            read_only: None,
        }
    }
}

/// A volume of a pod.
#[derive(Debug, PartialEq)]
pub struct Volume {
    pub name: String,
    pub config_map: Option<ConfigMapVolumeSource>,
    pub empty_dir: Option<EmptyDirVolumeSource>,
    pub persistent_volume_claim: Option<PersistentVolumeClaimVolumeSource>,
    pub secret: Option<SecretVolumeSource>,
}

/// What [`Volume`] holds.
#[verifier::ext_equal]
pub struct VolumeView {
    pub name: Seq<char>,
    pub config_map: Option<ConfigMapVolumeSourceView>,
    pub empty_dir: Option<EmptyDirVolumeSourceView>,
    pub persistent_volume_claim: Option<PersistentVolumeClaimVolumeSourceView>,
    pub secret: Option<SecretVolumeSourceView>,
}

impl DeepView for Volume {
    type V = VolumeView;

    open spec fn deep_view(&self) -> VolumeView {
        VolumeView {
            name: self.name@,
            config_map: self.config_map.deep_view(),
            empty_dir: self.empty_dir.deep_view(),
            persistent_volume_claim: self.persistent_volume_claim.deep_view(),
            secret: self.secret.deep_view(),
        }
    }
}

impl VolumeView {
    /// Every field empty or absent.
    pub open spec fn blank() -> VolumeView {
        VolumeView {
            name: Seq::empty(),
            config_map: None,
            empty_dir: None,
            persistent_volume_claim: None,
            secret: None,
        }
    }
}

impl Default for Volume {
    fn default() -> (r: Volume)
        ensures
            r.deep_view() == VolumeView::blank(),
    {
        Volume {
            name: String::new(),
            config_map: None,
            empty_dir: None,
            persistent_volume_claim: None,
            secret: None,
        }
    }
}

/// One mount of a volume into a container.
#[derive(Debug, PartialEq)]
pub struct VolumeMount {
    pub name: String,
    pub mount_path: String,
    pub sub_path: Option<String>,
    pub read_only: Option<bool>,
}

/// What [`VolumeMount`] holds.
#[verifier::ext_equal]
pub struct VolumeMountView {
    pub name: Seq<char>,
    pub mount_path: Seq<char>,
    pub sub_path: Option<Seq<char>>,
    pub read_only: Option<bool>,
}

impl DeepView for VolumeMount {
    type V = VolumeMountView;

    open spec fn deep_view(&self) -> VolumeMountView {
        VolumeMountView {
            name: self.name@,
            mount_path: self.mount_path@,
            sub_path: self.sub_path.deep_view(),
            read_only: self.read_only,
        }
    }
}

impl VolumeMountView {
    /// Every field empty or absent.
    pub open spec fn blank() -> VolumeMountView {
        VolumeMountView {
            name: Seq::empty(),
            mount_path: Seq::empty(),
            sub_path: None,
            read_only: None,
        }
    }
}

impl Default for VolumeMount {
    fn default() -> (r: VolumeMount)
        ensures
            r.deep_view() == VolumeMountView::blank(),
    {
        VolumeMount {
            name: String::new(),
            mount_path: String::new(),
            sub_path: None,
            read_only: None,
        }
    }
}

impl Clone for VolumeMount {
    fn clone(&self) -> (r: VolumeMount)
        ensures
            r.deep_view() == self.deep_view(),
    {
        VolumeMount {
            name: self.name.clone(),
            mount_path: self.mount_path.clone(),
            sub_path: copy_opt(&self.sub_path),
            read_only: self.read_only,
        }
    }
}

} // verus!
