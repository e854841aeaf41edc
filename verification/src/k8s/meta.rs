//! Object metadata, as every Kubernetes object carries it.

use vstd::prelude::*;

use crate::string_map::StringMap;

verus! {

/// The object that owns another one.
#[derive(Debug, PartialEq)]
pub struct OwnerReference {
    pub api_version: String,
    pub kind: String,
    pub name: String,
    pub uid: String,
    /// Whether the owner is the managing controller.
    pub controller: Option<bool>,
    pub block_owner_deletion: Option<bool>,
}

/// What [`OwnerReference`] holds.
#[verifier::ext_equal]
pub struct OwnerReferenceView {
    pub api_version: Seq<char>,
    pub kind: Seq<char>,
    pub name: Seq<char>,
    pub uid: Seq<char>,
    pub controller: Option<bool>,
    pub block_owner_deletion: Option<bool>,
}

impl DeepView for OwnerReference {
    type V = OwnerReferenceView;

    open spec fn deep_view(&self) -> OwnerReferenceView {
        OwnerReferenceView {
            api_version: self.api_version@,
            kind: self.kind@,
            name: self.name@,
            uid: self.uid@,
            controller: self.controller,
            block_owner_deletion: self.block_owner_deletion,
        }
    }
}

impl OwnerReferenceView {
    /// Every field empty or absent.
    pub open spec fn blank() -> OwnerReferenceView {
        OwnerReferenceView {
            api_version: Seq::empty(),
            kind: Seq::empty(),
            name: Seq::empty(),
            uid: Seq::empty(),
            controller: None,
            block_owner_deletion: None,
        }
    }
}

impl Default for OwnerReference {
    fn default() -> (r: OwnerReference)
        ensures
            r.deep_view() == OwnerReferenceView::blank(),
    {
        OwnerReference {
            api_version: String::new(),
            kind: String::new(),
            name: String::new(),
            uid: String::new(),
            controller: None,
            block_owner_deletion: None,
        }
    }
}

impl Clone for OwnerReference {
    fn clone(&self) -> (r: OwnerReference)
        ensures
            r.deep_view() == self.deep_view(),
    {
        OwnerReference {
            api_version: self.api_version.clone(),
            kind: self.kind.clone(),
            name: self.name.clone(),
            uid: self.uid.clone(),
            controller: self.controller,
            block_owner_deletion: self.block_owner_deletion,
        }
    }
}

/// The metadata of an object: who it is, how it is labelled, who owns it.
#[derive(Debug, PartialEq)]
pub struct ObjectMeta {
    pub name: Option<String>,
    pub generate_name: Option<String>,
    pub namespace: Option<String>,
    pub uid: Option<String>,
    pub resource_version: Option<String>,
    pub generation: Option<i64>,
    pub labels: Option<StringMap>,
    pub annotations: Option<StringMap>,
    pub owner_references: Option<Vec<OwnerReference>>,
    /// When deletion was requested, in RFC 3339.
    pub deletion_timestamp: Option<String>,
}

/// What [`ObjectMeta`] holds.
#[verifier::ext_equal]
pub struct ObjectMetaView {
    pub name: Option<Seq<char>>,
    pub generate_name: Option<Seq<char>>,
    pub namespace: Option<Seq<char>>,
    pub uid: Option<Seq<char>>,
    pub resource_version: Option<Seq<char>>,
    pub generation: Option<i64>,
    pub labels: Option<Map<Seq<char>, Seq<char>>>,
    pub annotations: Option<Map<Seq<char>, Seq<char>>>,
    pub owner_references: Option<Seq<OwnerReferenceView>>,
    pub deletion_timestamp: Option<Seq<char>>,
}

impl DeepView for ObjectMeta {
    type V = ObjectMetaView;

    open spec fn deep_view(&self) -> ObjectMetaView {
        ObjectMetaView {
            name: self.name.deep_view(),
            generate_name: self.generate_name.deep_view(),
            namespace: self.namespace.deep_view(),
            uid: self.uid.deep_view(),
            resource_version: self.resource_version.deep_view(),
            generation: self.generation,
            labels: self.labels.deep_view(),
            annotations: self.annotations.deep_view(),
            owner_references: self.owner_references.deep_view(),
            deletion_timestamp: self.deletion_timestamp.deep_view(),
        }
    }
}

impl ObjectMetaView {
    /// Every field empty or absent.
    pub open spec fn blank() -> ObjectMetaView {
        ObjectMetaView {
            name: None,
            generate_name: None,
            namespace: None,
            uid: None,
            resource_version: None,
            generation: None,
            labels: None,
            annotations: None,
            owner_references: None,
            deletion_timestamp: None,
        }
    }
}

impl Default for ObjectMeta {
    fn default() -> (r: ObjectMeta)
        ensures
            r.deep_view() == ObjectMetaView::blank(),
    {
        ObjectMeta {
            name: None,
            generate_name: None,
            namespace: None,
            uid: None,
            resource_version: None,
            generation: None,
            labels: None,
            annotations: None,
            owner_references: None,
            deletion_timestamp: None,
        }
    }
}

/// Selects objects by their labels.
#[derive(Debug, PartialEq)]
pub struct LabelSelector {
    pub match_labels: Option<StringMap>,
}

/// What [`LabelSelector`] holds.
#[verifier::ext_equal]
pub struct LabelSelectorView {
    pub match_labels: Option<Map<Seq<char>, Seq<char>>>,
}

impl DeepView for LabelSelector {
    type V = LabelSelectorView;

    open spec fn deep_view(&self) -> LabelSelectorView {
        LabelSelectorView {
            match_labels: self.match_labels.deep_view(),
        }
    }
}

impl LabelSelectorView {
    /// Every field empty or absent.
    pub open spec fn blank() -> LabelSelectorView {
        LabelSelectorView {
            match_labels: None,
        }
    }
}

impl Default for LabelSelector {
    fn default() -> (r: LabelSelector)
        ensures
            r.deep_view() == LabelSelectorView::blank(),
    {
        LabelSelector {
            match_labels: None,
        }
    }
}

impl ObjectMetaView {
    /// The name, or the prefix that a name is to be generated from.
    pub open spec fn name_any(self) -> Seq<char> {
        match self.name {
            Some(name) => name,
            None => match self.generate_name {
                Some(prefix) => prefix,
                None => Seq::empty(),
            },
        }
    }

    /// The namespace, empty where there is none.
    pub open spec fn namespace_or_empty(self) -> Seq<char> {
        match self.namespace {
            Some(namespace) => namespace,
            None => Seq::empty(),
        }
    }

    /// The identity, empty where there is none.
    pub open spec fn uid_or_empty(self) -> Seq<char> {
        match self.uid {
            Some(uid) => uid,
            None => Seq::empty(),
        }
    }

    /// The labels, empty where there are none.
    pub open spec fn labels_or_empty(self) -> Map<Seq<char>, Seq<char>> {
        match self.labels {
            Some(labels) => labels,
            None => Map::empty(),
        }
    }

    /// The annotations, empty where there are none.
    pub open spec fn annotations_or_empty(self) -> Map<Seq<char>, Seq<char>> {
        match self.annotations {
            Some(annotations) => annotations,
            None => Map::empty(),
        }
    }
}

impl ObjectMeta {
    /// The name, or the prefix that a name is to be generated from.
    pub fn name_any(&self) -> (r: String)
        ensures
            r@ == self.deep_view().name_any(),
    {
        match &self.name {
            Some(name) => name.clone(),
            None => match &self.generate_name {
                Some(prefix) => prefix.clone(),
                None => String::new(),
            },
        }
    }

    /// The namespace, empty where there is none.
    pub fn namespace_or_empty(&self) -> (r: String)
        ensures
            r@ == self.deep_view().namespace_or_empty(),
    {
        match &self.namespace {
            Some(namespace) => namespace.clone(),
            None => String::new(),
        }
    }

    /// The identity, empty where there is none.
    pub fn uid_or_empty(&self) -> (r: String)
        ensures
            r@ == self.deep_view().uid_or_empty(),
    {
        match &self.uid {
            Some(uid) => uid.clone(),
            None => String::new(),
        }
    }

    /// The value of a label.
    pub fn label(&self, key: &str) -> (r: Option<&String>)
        ensures
            r.deep_view() == self.deep_view().labels_or_empty().get(key@),
    {
        match &self.labels {
            Some(labels) => labels.get(key),
            None => None,
        }
    }

    /// The value of an annotation.
    pub fn annotation(&self, key: &str) -> (r: Option<&String>)
        ensures
            r.deep_view() == self.deep_view().annotations_or_empty().get(key@),
    {
        match &self.annotations {
            Some(annotations) => annotations.get(key),
            None => None,
        }
    }

    /// Whether both objects carry the same labels.
    pub fn same_labels(&self, other: &ObjectMeta) -> (r: bool)
        ensures
            r == (self.deep_view().labels_or_empty() == other.deep_view().labels_or_empty()),
    {
        match (&self.labels, &other.labels) {
            (Some(a), Some(b)) => a.same_as(b),
            (Some(a), None) => a.is_empty(),
            (None, Some(b)) => b.is_empty(),
            (None, None) => true,
        }
    }
}

/// A kind of object whose API version and kind are known.
pub trait Resource {
    /// The API version of the kind.
    spec fn api_version_view() -> Seq<char>;

    /// The name of the kind.
    spec fn kind_view() -> Seq<char>;

    /// The metadata of the object.
    spec fn meta_view(&self) -> ObjectMetaView;

    /// The API version of the kind.
    fn api_version() -> (r: &'static str)
        ensures
            r@ == Self::api_version_view(),
    ;

    /// The name of the kind.
    fn kind() -> (r: &'static str)
        ensures
            r@ == Self::kind_view(),
    ;

    /// The metadata of the object.
    fn meta(&self) -> (r: &ObjectMeta)
        ensures
            r.deep_view() == self.meta_view(),
    ;
}

/// What stands in a field is what is read, and only an absent field reads as empty:
/// the name falls back to the prefix of a generated one, and to nothing else.
pub proof fn absent_metadata_reads_as_empty(meta: ObjectMetaView)
    ensures
        meta.name matches Some(name) ==> meta.name_any() == name,
        meta.name is None ==> (meta.generate_name matches Some(prefix) ==> meta.name_any()
            == prefix),
        meta.name is None && meta.generate_name is None ==> meta.name_any().len() == 0,
        meta.namespace matches Some(namespace) ==> meta.namespace_or_empty() == namespace,
        meta.namespace is None ==> meta.namespace_or_empty().len() == 0,
        meta.uid matches Some(uid) ==> meta.uid_or_empty() == uid,
        meta.uid is None ==> meta.uid_or_empty().len() == 0,
        meta.labels matches Some(labels) ==> meta.labels_or_empty() == labels,
        meta.labels is None ==> forall|key: Seq<char>|
            !#[trigger] meta.labels_or_empty().contains_key(key),
        meta.annotations matches Some(annotations) ==> meta.annotations_or_empty() == annotations,
        meta.annotations is None ==> forall|key: Seq<char>|
            !#[trigger] meta.annotations_or_empty().contains_key(key),
{
}

} // verus!
