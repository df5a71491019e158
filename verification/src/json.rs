//! JSON objects of text fields, built and written by `serde_json`.

use vstd::prelude::*;

verus! {

/// `serde_json::Value`, any JSON value. Nothing is known of what one holds.
#[verifier::external_type_specification]
#[verifier::external_body]
pub struct ExValue(serde_json::Value);

/// `serde_json::Map`, the members of a JSON object by key.
#[verifier::external_type_specification]
#[verifier::external_body]
#[verifier::reject_recursive_types(K)]
#[verifier::reject_recursive_types(V)]
pub struct ExObject<K, V>(serde_json::Map<K, V>);

/// Whether every member of the object is a JSON string.
pub uninterp spec fn object_is_text(object: serde_json::Map<String, serde_json::Value>) -> bool;

/// The members of an object of JSON strings: each key with the text of its
/// value.
pub uninterp spec fn object_fields(object: serde_json::Map<String, serde_json::Value>) -> Map<
    Seq<char>,
    Seq<char>,
>;

/// The compact JSON text that `serde_json` writes for the object whose
/// members are the strings `fields`. The object keeps its members in the
/// order of their keys, so its text depends on nothing but `fields`.
pub uninterp spec fn json_object_text(fields: Map<Seq<char>, Seq<char>>) -> Seq<char>;

/// `serde_json::Map::new`: an object without members.
#[verifier::external_body]
pub(crate) fn object_new() -> (object: serde_json::Map<String, serde_json::Value>)
    ensures
        object_is_text(object),
        object_fields(object) == (Map::<Seq<char>, Seq<char>>::empty()),
{
    serde_json::Map::new()
}

/// `serde_json::Map::insert` of `serde_json::Value::String` of `value` under
/// `key`: the object then holds the text `value` under `key`, in place of
/// what it held there, and its other members as before.
#[verifier::external_body]
pub(crate) fn object_insert(
    object: &mut serde_json::Map<String, serde_json::Value>,
    key: &str,
    value: &str,
)
    requires
        object_is_text(*old(object)),
    ensures
        object_is_text(*final(object)),
        object_fields(*final(object)) == object_fields(*old(object)).insert(key@, value@),
{
    object.insert(key.to_owned(), serde_json::Value::String(value.to_owned()));
}

/// `serde_json::Value::Object` of the object, written through the `Display`
/// of `serde_json::Value`: the compact JSON text of the object.
#[verifier::external_body]
pub(crate) fn object_to_json(object: serde_json::Map<String, serde_json::Value>) -> (text: String)
    requires
        object_is_text(object),
    ensures
        text@ == json_object_text(object_fields(object)),
{
    serde_json::Value::Object(object).to_string()
}

} // verus!
