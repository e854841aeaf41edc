//! Environment variables of a container.

use vstd::prelude::*;

use crate::text::copy_opt;

verus! {

/// One key of a ConfigMap.
#[derive(Debug, PartialEq)]
pub struct ConfigMapKeySelector {
    pub name: String,
    pub key: String,
    pub optional: Option<bool>,
}

/// What [`ConfigMapKeySelector`] holds.
#[verifier::ext_equal]
pub struct ConfigMapKeySelectorView {
    pub name: Seq<char>,
    pub key: Seq<char>,
    pub optional: Option<bool>,
}

impl DeepView for ConfigMapKeySelector {
    type V = ConfigMapKeySelectorView;

    open spec fn deep_view(&self) -> ConfigMapKeySelectorView {
        ConfigMapKeySelectorView {
            name: self.name@,
            key: self.key@,
            optional: self.optional,
        }
    }
}

impl ConfigMapKeySelectorView {
    /// Every field empty or absent.
    pub open spec fn blank() -> ConfigMapKeySelectorView {
        ConfigMapKeySelectorView {
            name: Seq::empty(),
            key: Seq::empty(),
            optional: None,
        }
    }
}

impl Default for ConfigMapKeySelector {
    fn default() -> (r: ConfigMapKeySelector)
        ensures
            r.deep_view() == ConfigMapKeySelectorView::blank(),
    {
        ConfigMapKeySelector {
            name: String::new(),
            key: String::new(),
            optional: None,
        }
    }
}

impl Clone for ConfigMapKeySelector {
    fn clone(&self) -> (r: ConfigMapKeySelector)
        ensures
            r.deep_view() == self.deep_view(),
    {
        ConfigMapKeySelector {
            name: self.name.clone(),
            key: self.key.clone(),
            optional: self.optional,
        }
    }
}

/// One key of a Secret.
#[derive(Debug, PartialEq)]
pub struct SecretKeySelector {
    pub name: String,
    pub key: String,
    pub optional: Option<bool>,
}

/// What [`SecretKeySelector`] holds.
#[verifier::ext_equal]
pub struct SecretKeySelectorView {
    pub name: Seq<char>,
    pub key: Seq<char>,
    pub optional: Option<bool>,
}

impl DeepView for SecretKeySelector {
    type V = SecretKeySelectorView;

    open spec fn deep_view(&self) -> SecretKeySelectorView {
        SecretKeySelectorView {
            name: self.name@,
            key: self.key@,
            optional: self.optional,
        }
    }
}

impl SecretKeySelectorView {
    /// Every field empty or absent.
    pub open spec fn blank() -> SecretKeySelectorView {
        SecretKeySelectorView {
            name: Seq::empty(),
            key: Seq::empty(),
            optional: None,
        }
    }
}

impl Default for SecretKeySelector {
    fn default() -> (r: SecretKeySelector)
        ensures
            r.deep_view() == SecretKeySelectorView::blank(),
    {
        SecretKeySelector {
            name: String::new(),
            key: String::new(),
            optional: None,
        }
    }
}

impl Clone for SecretKeySelector {
    fn clone(&self) -> (r: SecretKeySelector)
        ensures
            r.deep_view() == self.deep_view(),
    {
        SecretKeySelector {
            name: self.name.clone(),
            key: self.key.clone(),
            optional: self.optional,
        }
    }
}

/// One field of the pod.
#[derive(Debug, PartialEq)]
pub struct ObjectFieldSelector {
    pub api_version: Option<String>,
    pub field_path: String,
}

/// What [`ObjectFieldSelector`] holds.
#[verifier::ext_equal]
pub struct ObjectFieldSelectorView {
    pub api_version: Option<Seq<char>>,
    pub field_path: Seq<char>,
}

impl DeepView for ObjectFieldSelector {
    type V = ObjectFieldSelectorView;

    open spec fn deep_view(&self) -> ObjectFieldSelectorView {
        ObjectFieldSelectorView {
            api_version: self.api_version.deep_view(),
            field_path: self.field_path@,
        }
    }
}

impl ObjectFieldSelectorView {
    /// Every field empty or absent.
    pub open spec fn blank() -> ObjectFieldSelectorView {
        ObjectFieldSelectorView {
            api_version: None,
            field_path: Seq::empty(),
        }
    }
}

impl Default for ObjectFieldSelector {
    fn default() -> (r: ObjectFieldSelector)
        ensures
            r.deep_view() == ObjectFieldSelectorView::blank(),
    {
        ObjectFieldSelector {
            api_version: None,
            field_path: String::new(),
        }
    }
}

impl Clone for ObjectFieldSelector {
    fn clone(&self) -> (r: ObjectFieldSelector)
        ensures
            r.deep_view() == self.deep_view(),
    {
        ObjectFieldSelector {
            api_version: copy_opt(&self.api_version),
            field_path: self.field_path.clone(),
        }
    }
}

/// One resource of a container.
#[derive(Debug, PartialEq)]
pub struct ResourceFieldSelector {
    pub container_name: Option<String>,
    pub divisor: Option<String>,
    pub resource: String,
}

/// What [`ResourceFieldSelector`] holds.
#[verifier::ext_equal]
pub struct ResourceFieldSelectorView {
    pub container_name: Option<Seq<char>>,
    pub divisor: Option<Seq<char>>,
    pub resource: Seq<char>,
}

impl DeepView for ResourceFieldSelector {
    type V = ResourceFieldSelectorView;

    open spec fn deep_view(&self) -> ResourceFieldSelectorView {
        ResourceFieldSelectorView {
            container_name: self.container_name.deep_view(),
            divisor: self.divisor.deep_view(),
            resource: self.resource@,
        }
    }
}

impl ResourceFieldSelectorView {
    /// Every field empty or absent.
    pub open spec fn blank() -> ResourceFieldSelectorView {
        ResourceFieldSelectorView {
            container_name: None,
            divisor: None,
            resource: Seq::empty(),
        }
    }
}

impl Default for ResourceFieldSelector {
    fn default() -> (r: ResourceFieldSelector)
        ensures
            r.deep_view() == ResourceFieldSelectorView::blank(),
    {
        ResourceFieldSelector {
            container_name: None,
            divisor: None,
            resource: String::new(),
        }
    }
}

impl Clone for ResourceFieldSelector {
    fn clone(&self) -> (r: ResourceFieldSelector)
        ensures
            r.deep_view() == self.deep_view(),
    {
        ResourceFieldSelector {
            container_name: copy_opt(&self.container_name),
            divisor: copy_opt(&self.divisor),
            resource: self.resource.clone(),
        }
    }
}

/// Where a variable takes its value from.
#[derive(Debug, PartialEq)]
pub struct EnvVarSource {
    pub config_map_key_ref: Option<ConfigMapKeySelector>,
    pub field_ref: Option<ObjectFieldSelector>,
    pub resource_field_ref: Option<ResourceFieldSelector>,
    pub secret_key_ref: Option<SecretKeySelector>,
}

/// What [`EnvVarSource`] holds.
#[verifier::ext_equal]
pub struct EnvVarSourceView {
    pub config_map_key_ref: Option<ConfigMapKeySelectorView>,
    pub field_ref: Option<ObjectFieldSelectorView>,
    pub resource_field_ref: Option<ResourceFieldSelectorView>,
    pub secret_key_ref: Option<SecretKeySelectorView>,
}

impl DeepView for EnvVarSource {
    type V = EnvVarSourceView;

    open spec fn deep_view(&self) -> EnvVarSourceView {
        EnvVarSourceView {
            config_map_key_ref: self.config_map_key_ref.deep_view(),
            field_ref: self.field_ref.deep_view(),
            resource_field_ref: self.resource_field_ref.deep_view(),
            secret_key_ref: self.secret_key_ref.deep_view(),
        }
    }
}

impl EnvVarSourceView {
    /// Every field empty or absent.
    pub open spec fn blank() -> EnvVarSourceView {
        EnvVarSourceView {
            config_map_key_ref: None,
            field_ref: None,
            resource_field_ref: None,
            secret_key_ref: None,
        }
    }
}

impl Default for EnvVarSource {
    fn default() -> (r: EnvVarSource)
        ensures
            r.deep_view() == EnvVarSourceView::blank(),
    {
        EnvVarSource {
            config_map_key_ref: None,
            field_ref: None,
            resource_field_ref: None,
            secret_key_ref: None,
        }
    }
}

impl Clone for EnvVarSource {
    fn clone(&self) -> (r: EnvVarSource)
        ensures
            r.deep_view() == self.deep_view(),
    {
        EnvVarSource {
            config_map_key_ref: match &self.config_map_key_ref {
                Some(x) => Some(x.clone()),
                None => None,
            },
            field_ref: match &self.field_ref {
                Some(x) => Some(x.clone()),
                None => None,
            },
            resource_field_ref: match &self.resource_field_ref {
                Some(x) => Some(x.clone()),
                None => None,
            },
            secret_key_ref: match &self.secret_key_ref {
                Some(x) => Some(x.clone()),
                None => None,
            },
        }
    }
}

/// An environment variable.
#[derive(Debug, PartialEq)]
pub struct EnvVar {
    pub name: String,
    pub value: Option<String>,
    pub value_from: Option<EnvVarSource>,
}

/// What [`EnvVar`] holds.
#[verifier::ext_equal]
pub struct EnvVarView {
    pub name: Seq<char>,
    pub value: Option<Seq<char>>,
    pub value_from: Option<EnvVarSourceView>,
}

impl DeepView for EnvVar {
    type V = EnvVarView;

    open spec fn deep_view(&self) -> EnvVarView {
        EnvVarView {
            name: self.name@,
            value: self.value.deep_view(),
            value_from: self.value_from.deep_view(),
        }
    }
}

impl EnvVarView {
    /// Every field empty or absent.
    pub open spec fn blank() -> EnvVarView {
        EnvVarView {
            name: Seq::empty(),
            value: None,
            value_from: None,
        }
    }
}

impl Default for EnvVar {
    fn default() -> (r: EnvVar)
        ensures
            r.deep_view() == EnvVarView::blank(),
    {
        EnvVar {
            name: String::new(),
            value: None,
            value_from: None,
        }
    }
}

impl Clone for EnvVar {
    fn clone(&self) -> (r: EnvVar)
        ensures
            r.deep_view() == self.deep_view(),
    {
        EnvVar {
            name: self.name.clone(),
            value: copy_opt(&self.value),
            value_from: match &self.value_from {
                Some(x) => Some(x.clone()),
                None => None,
            },
        }
    }
}

} // verus!
