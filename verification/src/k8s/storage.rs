//! Secrets, ConfigMaps and volume claims.

use vstd::prelude::*;

use crate::k8s::meta::{ObjectMeta, ObjectMetaView};
use crate::string_map::{ByteMap, StringMap};

verus! {

/// A Secret. `data` is what the server keeps; `string_data` is only written.
#[derive(Debug)]
pub struct Secret {
    pub metadata: ObjectMeta,
    pub data: Option<ByteMap>,
    pub string_data: Option<StringMap>,
    pub type_: Option<String>,
}

/// What [`Secret`] holds.
#[verifier::ext_equal]
pub struct SecretView {
    pub metadata: ObjectMetaView,
    pub data: Option<Map<Seq<char>, Seq<u8>>>,
    pub string_data: Option<Map<Seq<char>, Seq<char>>>,
    pub type_: Option<Seq<char>>,
}

impl DeepView for Secret {
    type V = SecretView;

    open spec fn deep_view(&self) -> SecretView {
        SecretView {
            metadata: self.metadata.deep_view(),
            data: self.data.deep_view(),
            string_data: self.string_data.deep_view(),
            type_: self.type_.deep_view(),
        }
    }
}

impl SecretView {
    /// Every field empty or absent.
    pub open spec fn blank() -> SecretView {
        SecretView {
            metadata: ObjectMetaView::blank(),
            data: None,
            string_data: None,
            type_: None,
        }
    }
}

impl Default for Secret {
    fn default() -> (r: Secret)
        ensures
            r.deep_view() == SecretView::blank(),
    {
        Secret {
            metadata: ObjectMeta::default(),
            data: None,
            string_data: None,
            type_: None,
        }
    }
}

/// A ConfigMap.
#[derive(Debug, PartialEq)]
pub struct ConfigMap {
    pub metadata: ObjectMeta,
    pub data: Option<StringMap>,
}

/// What [`ConfigMap`] holds.
#[verifier::ext_equal]
pub struct ConfigMapView {
    pub metadata: ObjectMetaView,
    pub data: Option<Map<Seq<char>, Seq<char>>>,
}

impl DeepView for ConfigMap {
    type V = ConfigMapView;

    open spec fn deep_view(&self) -> ConfigMapView {
        ConfigMapView {
            metadata: self.metadata.deep_view(),
            data: self.data.deep_view(),
        }
    }
}

impl ConfigMapView {
    /// Every field empty or absent.
    pub open spec fn blank() -> ConfigMapView {
        ConfigMapView {
            metadata: ObjectMetaView::blank(),
            data: None,
        }
    }
}

impl Default for ConfigMap {
    fn default() -> (r: ConfigMap)
        ensures
            r.deep_view() == ConfigMapView::blank(),
    {
        ConfigMap {
            metadata: ObjectMeta::default(),
            data: None,
        }
    }
}

/// An object of a given kind, in this namespace or another one.
#[derive(Debug, PartialEq)]
pub struct TypedObjectReference {
    pub api_group: Option<String>,
    pub kind: String,
    pub name: String,
    pub namespace: Option<String>,
}

/// What [`TypedObjectReference`] holds.
#[verifier::ext_equal]
pub struct TypedObjectReferenceView {
    pub api_group: Option<Seq<char>>,
    pub kind: Seq<char>,
    pub name: Seq<char>,
    pub namespace: Option<Seq<char>>,
}

impl DeepView for TypedObjectReference {
    type V = TypedObjectReferenceView;

    open spec fn deep_view(&self) -> TypedObjectReferenceView {
        TypedObjectReferenceView {
            api_group: self.api_group.deep_view(),
            kind: self.kind@,
            name: self.name@,
            namespace: self.namespace.deep_view(),
        }
    }
}

impl TypedObjectReferenceView {
    /// Every field empty or absent.
    pub open spec fn blank() -> TypedObjectReferenceView {
        TypedObjectReferenceView {
            api_group: None,
            kind: Seq::empty(),
            name: Seq::empty(),
            namespace: None,
        }
    }
}

impl Default for TypedObjectReference {
    fn default() -> (r: TypedObjectReference)
        ensures
            r.deep_view() == TypedObjectReferenceView::blank(),
    {
        TypedObjectReference {
            api_group: None,
            kind: String::new(),
            name: String::new(),
            namespace: None,
        }
    }
}

/// The size of a volume, as quantities.
#[derive(Debug, PartialEq)]
pub struct VolumeResourceRequirements {
    pub requests: Option<StringMap>,
}

/// What [`VolumeResourceRequirements`] holds.
#[verifier::ext_equal]
pub struct VolumeResourceRequirementsView {
    pub requests: Option<Map<Seq<char>, Seq<char>>>,
}

impl DeepView for VolumeResourceRequirements {
    type V = VolumeResourceRequirementsView;

    open spec fn deep_view(&self) -> VolumeResourceRequirementsView {
        VolumeResourceRequirementsView {
            requests: self.requests.deep_view(),
        }
    }
}

impl VolumeResourceRequirementsView {
    /// Every field empty or absent.
    pub open spec fn blank() -> VolumeResourceRequirementsView {
        VolumeResourceRequirementsView {
            requests: None,
        }
    }
}

impl Default for VolumeResourceRequirements {
    fn default() -> (r: VolumeResourceRequirements)
        ensures
            r.deep_view() == VolumeResourceRequirementsView::blank(),
    {
        VolumeResourceRequirements {
            requests: None,
        }
    }
}

/// What a claim asks for.
#[derive(Debug, PartialEq)]
pub struct PersistentVolumeClaimSpec {
    pub access_modes: Option<Vec<String>>,
    pub data_source_ref: Option<TypedObjectReference>,
    pub resources: Option<VolumeResourceRequirements>,
    pub storage_class_name: Option<String>,
}

/// What [`PersistentVolumeClaimSpec`] holds.
#[verifier::ext_equal]
pub struct PersistentVolumeClaimSpecView {
    pub access_modes: Option<Seq<Seq<char>>>,
    pub data_source_ref: Option<TypedObjectReferenceView>,
    pub resources: Option<VolumeResourceRequirementsView>,
    pub storage_class_name: Option<Seq<char>>,
}

impl DeepView for PersistentVolumeClaimSpec {
    type V = PersistentVolumeClaimSpecView;

    open spec fn deep_view(&self) -> PersistentVolumeClaimSpecView {
        PersistentVolumeClaimSpecView {
            access_modes: self.access_modes.deep_view(),
            data_source_ref: self.data_source_ref.deep_view(),
            resources: self.resources.deep_view(),
            storage_class_name: self.storage_class_name.deep_view(),
        }
    }
}

impl PersistentVolumeClaimSpecView {
    /// Every field empty or absent.
    pub open spec fn blank() -> PersistentVolumeClaimSpecView {
        PersistentVolumeClaimSpecView {
            access_modes: None,
            data_source_ref: None,
            resources: None,
            storage_class_name: None,
        }
    }
}

impl Default for PersistentVolumeClaimSpec {
    fn default() -> (r: PersistentVolumeClaimSpec)
        ensures
            r.deep_view() == PersistentVolumeClaimSpecView::blank(),
    {
        PersistentVolumeClaimSpec {
            access_modes: None,
            data_source_ref: None,
            resources: None,
            storage_class_name: None,
        }
    }
}

/// A claim on a volume.
#[derive(Debug, PartialEq)]
pub struct PersistentVolumeClaim {
    pub metadata: ObjectMeta,
    pub spec: Option<PersistentVolumeClaimSpec>,
}

/// What [`PersistentVolumeClaim`] holds.
#[verifier::ext_equal]
pub struct PersistentVolumeClaimView {
    pub metadata: ObjectMetaView,
    pub spec: Option<PersistentVolumeClaimSpecView>,
}

impl DeepView for PersistentVolumeClaim {
    type V = PersistentVolumeClaimView;

    open spec fn deep_view(&self) -> PersistentVolumeClaimView {
        PersistentVolumeClaimView {
            metadata: self.metadata.deep_view(),
            spec: self.spec.deep_view(),
        }
    }
}

impl PersistentVolumeClaimView {
    /// Every field empty or absent.
    pub open spec fn blank() -> PersistentVolumeClaimView {
        PersistentVolumeClaimView {
            metadata: ObjectMetaView::blank(),
            spec: None,
        }
    }
}

impl Default for PersistentVolumeClaim {
    fn default() -> (r: PersistentVolumeClaim)
        ensures
            r.deep_view() == PersistentVolumeClaimView::blank(),
    {
        PersistentVolumeClaim {
            metadata: ObjectMeta::default(),
            spec: None,
        }
    }
}

} // verus!
