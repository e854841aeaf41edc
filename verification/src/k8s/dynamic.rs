//! Objects of kinds that are known only at run time.

use vstd::prelude::*;

use crate::k8s::meta::{ObjectMeta, ObjectMetaView};

verus! {

/// An object whose body is a JSON document.
#[derive(Debug, PartialEq)]
pub struct DynamicObject {
    pub metadata: ObjectMeta,
    /// Everything but the metadata.
    pub data: serde_json::Value,
}

/// What [`DynamicObject`] holds.
#[verifier::ext_equal]
pub struct DynamicObjectView {
    pub metadata: ObjectMetaView,
    pub data: serde_json::Value,
}

impl DeepView for DynamicObject {
    type V = DynamicObjectView;

    open spec fn deep_view(&self) -> DynamicObjectView {
        DynamicObjectView { metadata: self.metadata.deep_view(), data: self.data }
    }
}

/// The integers that a JSON document holds, by JSON pointer.
pub uninterp spec fn json_integers(v: serde_json::Value) -> Map<Seq<char>, i64>;

/// The booleans that a JSON document holds, by JSON pointer.
pub uninterp spec fn json_booleans(v: serde_json::Value) -> Map<Seq<char>, bool>;

/// The strings that a JSON document holds, by JSON pointer.
pub uninterp spec fn json_strings(v: serde_json::Value) -> Map<Seq<char>, Seq<char>>;

/// The lengths of the arrays that a JSON document holds, by JSON pointer.
pub uninterp spec fn json_array_lengths(v: serde_json::Value) -> Map<Seq<char>, usize>;

/// `serde_json::Value::pointer`, then `as_i64`: the integer at a pointer, if
/// what stands there is an integer that fits.
#[verifier::external_body]
pub(crate) fn json_integer(v: &serde_json::Value, pointer: &str) -> (r: Option<i64>)
    ensures
        r == json_integers(*v).get(pointer@),
{
    v.pointer(pointer).and_then(|x| x.as_i64())
}

/// `serde_json::Value::pointer`, then `as_bool`: the boolean at a pointer, if
/// what stands there is one.
#[verifier::external_body]
pub(crate) fn json_boolean(v: &serde_json::Value, pointer: &str) -> (r: Option<bool>)
    ensures
        r == json_booleans(*v).get(pointer@),
{
    v.pointer(pointer).and_then(|x| x.as_bool())
}

/// `serde_json::Value::pointer`, then `as_str`: the string at a pointer, if what
/// stands there is one.
#[verifier::external_body]
pub(crate) fn json_string(v: &serde_json::Value, pointer: &str) -> (r: Option<String>)
    ensures
        r.deep_view() == json_strings(*v).get(pointer@),
{
    v.pointer(pointer).and_then(|x| x.as_str()).map(|s| s.to_string())
}

/// `serde_json::Value::pointer`, then `as_array`: the length of the array at a
/// pointer, if what stands there is one.
#[verifier::external_body]
pub(crate) fn json_array_length(v: &serde_json::Value, pointer: &str) -> (r: Option<usize>)
    ensures
        r == json_array_lengths(*v).get(pointer@),
{
    v.pointer(pointer).and_then(|x| x.as_array()).map(|a| a.len())
}

} // verus!
