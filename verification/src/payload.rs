//! The payload capability: what a type needs to travel in a message body.

use vstd::prelude::*;
use crate::error::RouterError;
use crate::json::{into_object, json_shape, object_entries, JsonObject, JsonShape};

verus! {

/// A payload type: it has a wire tag, it is read from the payload fields of a
/// body, and it is written as a JSON value, which has to be an object.
///
/// The router asks nothing of an implementation but that each method returns.
pub trait Payload: Sized {
    /// The wire tag of this type: its name in snake case.
    fn tag() -> &'static str;

    /// Reads a value from the payload fields of a body; `None` where a field
    /// is missing or does not fit.
    fn decode(fields: &JsonObject) -> Option<Self>;

    /// Writes the value as JSON; `None` where it cannot be written.
    fn encode(self) -> Option<serde_json::Value>;
}

/// The encoded payload is a JSON object.
pub open spec fn is_object(encoded: Option<serde_json::Value>) -> bool {
    encoded is Some && json_shape(encoded->0) is Object
}

/// `res` is what an encoded payload gives as payload fields: the entries of
/// the object it was encoded to, and an error where it was not encoded or is
/// no object.
pub open spec fn is_fields_of(
    encoded: Option<serde_json::Value>,
    res: Result<JsonObject, RouterError>,
) -> bool {
    match res {
        Ok(fields) => is_object(encoded) && json_shape(encoded->0) == JsonShape::Object(
            object_entries(fields),
        ),
        Err(error) => error == RouterError::PayloadEncode && !is_object(encoded),
    }
}

/// The payload fields of an encoded payload.
pub fn fields_of(encoded: Option<serde_json::Value>) -> (res: Result<JsonObject, RouterError>)
    ensures
        is_fields_of(encoded, res),
        res is Ok <==> is_object(encoded),
{
    match encoded {
        Some(value) => match into_object(value) {
            Some(fields) => Ok(fields),
            None => Err(RouterError::PayloadEncode),
        },
        None => Err(RouterError::PayloadEncode),
    }
}

/// Encodes a payload and takes the fields of the object it encodes to.
pub fn to_json_map<Q: Payload>(payload: Q) -> (res: Result<JsonObject, RouterError>)
    ensures
        exists|encoded: Option<serde_json::Value>| #[trigger]
            call_ensures(Q::encode, (payload,), encoded) && is_fields_of(encoded, res),
{
    let encoded = payload.encode();
    assert(call_ensures(Q::encode, (payload,), encoded));
    fields_of(encoded)
}

} // verus!
