//! The JSON tree of `serde_json`, as far as digging reads it.
//!
//! Verus does not look inside a `serde_json::Value`. What it knows of one is
//! what this module states: which values lie directly below it, and what the
//! three `serde_json` functions that hand them out return. None of that is
//! proved here; everything else in the crate is proved from it.

use serde_json::Value;
use vstd::prelude::*;

verus! {

/// `serde_json::Value`, a JSON value of any kind. Verus carries it through
/// without looking inside.
#[verifier::external_type_specification]
#[verifier::external_body]
pub struct ExValue(serde_json::Value);

/// `serde_json::Map`, the map that a JSON object holds. Verus carries it
/// through without looking inside.
#[verifier::external_type_specification]
#[verifier::external_body]
#[verifier::reject_recursive_types(K)]
#[verifier::reject_recursive_types(V)]
pub struct ExMap<K, V>(serde_json::Map<K, V>);

/// What lies directly below a JSON value.
pub enum Children {
    /// Nothing: the value is null, a boolean, a number or a string.
    Leaf,
    /// The elements of an array, in their order.
    Items(Seq<Value>),
    /// The members of an object, each under its key.
    Members(Map<Seq<char>, Value>),
}

/// What lies directly below `value`: `Items` for `Value::Array`, `Members` for
/// `Value::Object`, `Leaf` for the four other variants.
pub uninterp spec fn children(value: Value) -> Children;

/// The entries of a `serde_json::Map`: its keys, each with the value stored
/// under it.
pub uninterp spec fn entries(object: serde_json::Map<String, Value>) -> Map<Seq<char>, Value>;

/// `Value::as_array` returns the vector of a `Value::Array` and `None` for
/// every other variant. The contract says so over [`children`]: a vector comes
/// back exactly when the value is an array, and it holds the array's elements.
pub assume_specification[ serde_json::Value::as_array ](value: &Value) -> (items: Option<
    &Vec<Value>,
>)
    ensures
        match items {
            Some(vec) => children(*value) == Children::Items(vec@),
            None => !(children(*value) is Items),
        },
;

/// `Value::as_object` returns the map of a `Value::Object` and `None` for
/// every other variant. The contract says so over [`children`] and
/// [`entries`]: a map comes back exactly when the value is an object, and its
/// entries are the object's members.
pub assume_specification[ serde_json::Value::as_object ](value: &Value) -> (object: Option<
    &serde_json::Map<String, Value>,
>)
    ensures
        match object {
            Some(map) => children(*value) == Children::Members(entries(*map)),
            None => !(children(*value) is Members),
        },
;

/// `serde_json::Map::get` looks a key up and returns the value stored under
/// it, or `None` where the map has no such key. The contract says so over
/// [`entries`], with the key compared as a string.
#[verifier::external_body]
pub(crate) fn object_get<'v>(
    object: &'v serde_json::Map<String, Value>,
    key: &str,
) -> (found: Option<&'v Value>)
    ensures
        match found {
            Some(value) => entries(*object).contains_key(key@) && entries(*object)[key@] == *value,
            None => !entries(*object).contains_key(key@),
        },
{
    object.get(key)
}

} // verus!
