//! The JSON values of `serde_json`, as far as the router looks into them.
//!
//! Payload fields travel through the router untouched, so a JSON value stays a
//! `serde_json::Value` and an object stays a `serde_json::Map`. The router reads
//! and builds only the two outer levels of an envelope. What it can see of a
//! value is its [`JsonShape`]; what it can see of an object is its entries.
//! Everything in this module that touches `serde_json` is believed, not proved.

use vstd::prelude::*;

verus! {

/// `serde_json::Value`, taken as it is: nothing of its inside is known here.
#[verifier::external_type_specification]
#[verifier::external_body]
pub struct ExJsonValue(serde_json::Value);

/// `serde_json::Map`, taken as it is: nothing of its inside is known here.
#[verifier::external_type_specification]
#[verifier::external_body]
#[verifier::reject_recursive_types(K)]
#[verifier::reject_recursive_types(V)]
pub struct ExJsonMap<K, V>(serde_json::Map<K, V>);

/// `serde_json::Error`, taken as it is: the router keeps none of what it says.
#[verifier::external_type_specification]
#[verifier::external_body]
pub struct ExJsonError(serde_json::Error);

/// A JSON object: string keys, each with one JSON value.
pub type JsonObject = serde_json::Map<String, serde_json::Value>;

/// The entries of a JSON object: for each key, the value stored under it.
pub type JsonEntries = Map<Seq<char>, serde_json::Value>;

/// One JSON value, one level deep.
pub enum JsonShape {
    Null,
    Bool,
    /// A number. `unsigned` is its value where `serde_json` holds it as an
    /// unsigned 64-bit integer, and `None` where it holds a negative integer
    /// or a floating-point number.
    Number { unsigned: Option<u64> },
    String(Seq<char>),
    Array,
    Object(JsonEntries),
}

/// The shape of a `serde_json::Value`: which variant it is, and for a string,
/// an unsigned integer or an object, what it holds.
pub uninterp spec fn json_shape(value: serde_json::Value) -> JsonShape;

/// The entries of a `serde_json::Map`: for each key, the value stored under it.
pub uninterp spec fn object_entries(object: serde_json::Map<String, serde_json::Value>) -> Map<
    Seq<char>,
    serde_json::Value,
>;

/// What `serde_json::from_str` makes of a text: the value it parses to, or
/// `None` where it reports an error.
pub uninterp spec fn parsed_json(text: Seq<char>) -> Option<serde_json::Value>;

/// What `serde_json::to_string` makes of a value: its compact JSON text, or
/// `None` where it reports an error.
pub uninterp spec fn printed_json(value: serde_json::Value) -> Option<Seq<char>>;

/// The entries of an object without fields.
pub open spec fn no_entries() -> JsonEntries {
    Map::empty()
}

/// `serde_json::from_str` at type `Value`. The result is the one that
/// `parsed_json` names for this text; nothing else is claimed of it.
#[verifier::external_body]
pub(crate) fn parse_json(text: &str) -> (res: Result<serde_json::Value, serde_json::Error>)
    ensures
        match res {
            Ok(value) => parsed_json(text@) == Some(value),
            Err(_) => parsed_json(text@) is None,
        },
{
    serde_json::from_str::<serde_json::Value>(text)
}

/// `serde_json::to_string` on a `Value`. The result is the one that
/// `printed_json` names for this value; nothing else is claimed of it.
#[verifier::external_body]
pub(crate) fn print_json(value: &serde_json::Value) -> (res: Result<String, serde_json::Error>)
    ensures
        match res {
            Ok(text) => printed_json(*value) == Some(text@),
            Err(_) => printed_json(*value) is None,
        },
{
    serde_json::to_string(value)
}

/// Takes the map out of `Value::Object`; any other variant gives `None`.
#[verifier::external_body]
pub(crate) fn into_object(value: serde_json::Value) -> (res: Option<JsonObject>)
    ensures
        match res {
            Some(object) => json_shape(value) == JsonShape::Object(object_entries(object)),
            None => !(json_shape(value) is Object),
        },
{
    match value {
        serde_json::Value::Object(object) => Some(object),
        _ => None,
    }
}

/// Takes the string out of `Value::String`; any other variant gives `None`.
#[verifier::external_body]
pub(crate) fn into_string(value: serde_json::Value) -> (res: Option<String>)
    ensures
        match res {
            Some(text) => json_shape(value) == JsonShape::String(text@),
            None => !(json_shape(value) is String),
        },
{
    match value {
        serde_json::Value::String(text) => Some(text),
        _ => None,
    }
}

/// `Value::is_null`: true for `Value::Null` alone.
#[verifier::external_body]
pub(crate) fn is_null(value: &serde_json::Value) -> (res: bool)
    ensures
        res == (json_shape(*value) is Null),
{
    value.is_null()
}

/// `Value::as_u64`: the integer of a number that is held as an unsigned
/// 64-bit integer, `None` for every other number and every other variant.
#[verifier::external_body]
pub(crate) fn as_u64(value: &serde_json::Value) -> (res: Option<u64>)
    ensures
        res == match json_shape(*value) {
            JsonShape::Number { unsigned } => unsigned,
            _ => None,
        },
{
    value.as_u64()
}

/// `Value::String` around a string.
#[verifier::external_body]
pub(crate) fn from_string(text: String) -> (res: serde_json::Value)
    ensures
        json_shape(res) == JsonShape::String(text@),
{
    serde_json::Value::String(text)
}

/// `Value::from` on a `u64`: a number held as that unsigned integer.
#[verifier::external_body]
pub(crate) fn from_u64(number: u64) -> (res: serde_json::Value)
    ensures
        json_shape(res) == (JsonShape::Number { unsigned: Some(number) }),
{
    serde_json::Value::from(number)
}

/// `Value::Object` around a map.
#[verifier::external_body]
pub(crate) fn from_object(object: JsonObject) -> (res: serde_json::Value)
    ensures
        json_shape(res) == JsonShape::Object(object_entries(object)),
{
    serde_json::Value::Object(object)
}

/// `Map::new`: a map without entries.
#[verifier::external_body]
pub(crate) fn new_object() -> (res: JsonObject)
    ensures
        object_entries(res) == no_entries(),
{
    serde_json::Map::new()
}

/// `Map::insert`: the value is stored under the key, in place of any value
/// that the key had; the other entries stay.
#[verifier::external_body]
pub(crate) fn insert_entry(object: &mut JsonObject, key: String, value: serde_json::Value)
    ensures
        object_entries(*final(object)) == object_entries(*old(object)).insert(key@, value),
{
    object.insert(key, value);
}

/// `Map::remove`: the value under the key leaves the map and is returned,
/// `None` where the key has none; the other entries stay.
#[verifier::external_body]
pub(crate) fn remove_entry(object: &mut JsonObject, key: &str) -> (res: Option<serde_json::Value>)
    ensures
        object_entries(*final(object)) == object_entries(*old(object)).remove(key@),
        res == if object_entries(*old(object)).contains_key(key@) {
            Some(object_entries(*old(object))[key@])
        } else {
            None
        },
{
    object.remove(key)
}

/// `Map::clone`: a map equal to the one given.
pub assume_specification[ <serde_json::Map<String, serde_json::Value> as Clone>::clone ](
    object: &serde_json::Map<String, serde_json::Value>,
) -> (res: serde_json::Map<String, serde_json::Value>)
    ensures
        res == *object,
;

} // verus!
