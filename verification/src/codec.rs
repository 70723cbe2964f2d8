//! The wire format: an envelope as a JSON value, and as one line of JSON text.
//!
//! On the wire an envelope is an object with the strings `src` and `dest` and
//! the object `body`. The body holds the string `type`, the ids `msg_id` and
//! `in_reply_to` where the message has them, and the payload fields beside
//! them. Other fields of the outer object are ignored.

use vstd::prelude::*;
use crate::error::{EnvelopeError, RouterError};
use crate::json::{
    as_u64, from_object, from_string, from_u64, insert_entry, into_object, into_string, is_null,
    json_shape, new_object, object_entries, parse_json, parsed_json, print_json, printed_json,
    remove_entry, JsonEntries, JsonObject, JsonShape,
};
use crate::message::{viewed, RawBody, RawBodyView, RawMessage, RawMessageView};

verus! {

/// The key is one of the three that the body keeps for itself.
pub open spec fn is_reserved(key: Seq<char>) -> bool {
    key == "type"@ || key == "msg_id"@ || key == "in_reply_to"@
}

/// The payload has no field under one of the body's own three keys.
pub open spec fn payload_is_plain(payload: JsonEntries) -> bool {
    forall|key: Seq<char>| is_reserved(key) ==> !#[trigger] payload.contains_key(key)
}

/// The string stored under `key`, if the key is there and holds a string.
pub open spec fn text_field(entries: JsonEntries, key: Seq<char>) -> Option<Seq<char>> {
    if entries.contains_key(key) && json_shape(entries[key]) is String {
        Some(json_shape(entries[key])->String_0)
    } else {
        None
    }
}

/// The object stored under `key`, if the key is there and holds an object.
pub open spec fn object_field(entries: JsonEntries, key: Seq<char>) -> Option<JsonEntries> {
    if entries.contains_key(key) && json_shape(entries[key]) is Object {
        Some(json_shape(entries[key])->Object_0)
    } else {
        None
    }
}

/// The optional id stored under `key`: absent where the key is missing or
/// holds null, present where it holds an unsigned integer that fits `usize`.
/// `Err` for every other value.
pub open spec fn id_field(entries: JsonEntries, key: Seq<char>) -> Result<Option<usize>, ()> {
    if !entries.contains_key(key) {
        Ok(None)
    } else {
        match json_shape(entries[key]) {
            JsonShape::Null => Ok(None),
            JsonShape::Number { unsigned: Some(id) } => if id <= usize::MAX {
                Ok(Some(id as usize))
            } else {
                Err(())
            },
            _ => Err(()),
        }
    }
}

/// The body that the entries of a body object stand for, or the first field,
/// in the order `type`, `msg_id`, `in_reply_to`, that keeps them from it.
pub open spec fn body_of(entries: JsonEntries) -> Result<RawBodyView, EnvelopeError> {
    if text_field(entries, "type"@) is None {
        Err(EnvelopeError::Type)
    } else if id_field(entries, "msg_id"@) is Err {
        Err(EnvelopeError::MsgId)
    } else if id_field(entries, "in_reply_to"@) is Err {
        Err(EnvelopeError::InReplyTo)
    } else {
        Ok(
            RawBodyView {
                msg_id: id_field(entries, "msg_id"@)->Ok_0,
                in_reply_to: id_field(entries, "in_reply_to"@)->Ok_0,
                msg_type: text_field(entries, "type"@)->0,
                payload: entries.remove("type"@).remove("msg_id"@).remove("in_reply_to"@),
            },
        )
    }
}

/// The envelope that the entries of an outer object stand for, or the first
/// field, in the order `src`, `dest`, `body`, that keeps them from it.
pub open spec fn envelope_of_entries(entries: JsonEntries) -> Result<
    RawMessageView,
    EnvelopeError,
> {
    if text_field(entries, "src"@) is None {
        Err(EnvelopeError::Src)
    } else if text_field(entries, "dest"@) is None {
        Err(EnvelopeError::Dest)
    } else if object_field(entries, "body"@) is None {
        Err(EnvelopeError::Body)
    } else {
        match body_of(object_field(entries, "body"@)->0) {
            Ok(body) => Ok(
                RawMessageView {
                    src: text_field(entries, "src"@)->0,
                    dest: text_field(entries, "dest"@)->0,
                    body,
                },
            ),
            Err(error) => Err(error),
        }
    }
}

/// The envelope that a JSON value stands for, or what keeps it from being one.
pub open spec fn envelope_of(value: serde_json::Value) -> Result<RawMessageView, EnvelopeError> {
    match json_shape(value) {
        JsonShape::Object(entries) => envelope_of_entries(entries),
        _ => Err(EnvelopeError::NotAnObject),
    }
}

/// The envelope that a line of text stands for.
pub open spec fn line_envelope(text: Seq<char>) -> Result<RawMessageView, RouterError> {
    match parsed_json(text) {
        None => Err(RouterError::MalformedLine),
        Some(value) => match envelope_of(value) {
            Ok(message) => Ok(message),
            Err(error) => Err(RouterError::Envelope(error)),
        },
    }
}

/// The entry under `key` is the string `text`.
pub open spec fn holds_text(entries: JsonEntries, key: Seq<char>, text: Seq<char>) -> bool {
    entries.contains_key(key) && json_shape(entries[key]) == JsonShape::String(text)
}

/// The entry under `key` is the number `id`, where there is an id, and no
/// entry at all where there is none.
pub open spec fn holds_id(entries: JsonEntries, key: Seq<char>, id: Option<usize>) -> bool {
    match id {
        Some(id) => entries.contains_key(key) && json_shape(entries[key]) == (JsonShape::Number {
            unsigned: Some(id as u64),
        }),
        None => !entries.contains_key(key),
    }
}

/// The entries are those of a body object for `body`: the tag, the ids that
/// the body has, and each payload field whose key the body does not keep for
/// itself.
pub open spec fn encodes_body(entries: JsonEntries, body: RawBodyView) -> bool {
    &&& holds_text(entries, "type"@, body.msg_type)
    &&& holds_id(entries, "msg_id"@, body.msg_id)
    &&& holds_id(entries, "in_reply_to"@, body.in_reply_to)
    &&& forall|key: Seq<char>|
        !is_reserved(key) ==> (#[trigger] entries.contains_key(key)
            <==> body.payload.contains_key(key))
    &&& forall|key: Seq<char>|
        !is_reserved(key) && #[trigger] entries.contains_key(key) ==> entries[key]
            == body.payload[key]
}

/// The entries are those of an outer object for `message`: `src`, `dest` and
/// `body`, and nothing else.
pub open spec fn encodes_envelope(entries: JsonEntries, message: RawMessageView) -> bool {
    &&& forall|key: Seq<char>| #[trigger]
        entries.contains_key(key) <==> key == "src"@ || key == "dest"@ || key == "body"@
    &&& holds_text(entries, "src"@, message.src)
    &&& holds_text(entries, "dest"@, message.dest)
    &&& json_shape(entries["body"@]) is Object
    &&& encodes_body(json_shape(entries["body"@])->Object_0, message.body)
}

/// The value is the wire form of `message`.
pub open spec fn encodes(value: serde_json::Value, message: RawMessageView) -> bool {
    json_shape(value) is Object && encodes_envelope(json_shape(value)->Object_0, message)
}

/// The text has no line break in it.
pub open spec fn is_one_line(text: Seq<char>) -> bool {
    forall|i: int| 0 <= i < text.len() ==> text[i] != '\n'
}

/// `res` is what writing `message` as a line gives: the text of a JSON value
/// that is the wire form of the message, or `Unprintable` where the value has
/// no text, or a text with a line break in it.
pub open spec fn is_line_of(message: RawMessageView, res: Result<String, RouterError>) -> bool {
    exists|value: serde_json::Value| #[trigger]
        encodes(value, message) && match res {
            Ok(text) => printed_json(value) == Some(text@) && is_one_line(text@),
            Err(error) => error == RouterError::Unprintable && !(printed_json(value) is Some
                && is_one_line(printed_json(value)->0)),
        }
}

/// The three keys that the body keeps for itself differ.
pub proof fn lemma_body_keys_differ()
    ensures
        "type"@ != "msg_id"@,
        "type"@ != "in_reply_to"@,
        "msg_id"@ != "in_reply_to"@,
{
    reveal_strlit("type");
    reveal_strlit("msg_id");
    reveal_strlit("in_reply_to");
    assert("type"@.len() == 4);
    assert("msg_id"@.len() == 6);
    assert("in_reply_to"@.len() == 11);
}

/// The three keys of the outer object differ.
pub proof fn lemma_envelope_keys_differ()
    ensures
        "src"@ != "dest"@,
        "src"@ != "body"@,
        "dest"@ != "body"@,
{
    reveal_strlit("src");
    reveal_strlit("dest");
    reveal_strlit("body");
    assert("src"@.len() == 3);
    assert("dest"@.len() == 4);
    assert("dest"@[0] == 'd');
    assert("body"@[0] == 'b');
}

/// Takes the string under `key` out of the object.
fn take_text(object: &mut JsonObject, key: &str) -> (res: Option<String>)
    ensures
        object_entries(*final(object)) == object_entries(*old(object)).remove(key@),
        match res {
            Some(text) => text_field(object_entries(*old(object)), key@) == Some(text@),
            None => text_field(object_entries(*old(object)), key@) is None,
        },
{
    match remove_entry(object, key) {
        Some(value) => into_string(value),
        None => None,
    }
}

/// Takes the optional id under `key` out of the object.
fn take_id(object: &mut JsonObject, key: &str) -> (res: Result<Option<usize>, ()>)
    ensures
        object_entries(*final(object)) == object_entries(*old(object)).remove(key@),
        res == id_field(object_entries(*old(object)), key@),
{
    match remove_entry(object, key) {
        None => Ok(None),
        Some(value) => {
            if is_null(&value) {
                Ok(None)
            } else {
                match as_u64(&value) {
                    Some(id) => {
                        if id <= usize::MAX as u64 {
                            Ok(Some(id as usize))
                        } else {
                            Err(())
                        }
                    },
                    None => Err(()),
                }
            }
        },
    }
}

/// Stores the optional id under `key`: the number where there is one, no
/// entry where there is none. The other entries stay.
fn put_id(object: &mut JsonObject, key: &str, id: Option<usize>)
    ensures
        holds_id(object_entries(*final(object)), key@, id),
        forall|other: Seq<char>|
            other != key@ ==> (#[trigger] object_entries(*final(object)).contains_key(other)
                <==> object_entries(*old(object)).contains_key(other)),
        forall|other: Seq<char>|
            other != key@ ==> #[trigger] object_entries(*final(object))[other] == object_entries(
                *old(object),
            )[other],
{
    match id {
        Some(id) => {
            insert_entry(object, key.to_owned(), from_u64(id as u64));
        },
        None => {
            let _ = remove_entry(object, key);
        },
    }
}

/// Reads the body of an envelope from the body object.
pub fn body_from_json(object: JsonObject) -> (res: Result<RawBody, EnvelopeError>)
    ensures
        viewed(res) == body_of(object_entries(object)),
{
    proof {
        lemma_body_keys_differ();
    }
    let mut fields = object;
    let msg_type = match take_text(&mut fields, "type") {
        Some(text) => text,
        None => {
            return Err(EnvelopeError::Type);
        },
    };
    let msg_id = match take_id(&mut fields, "msg_id") {
        Ok(id) => id,
        Err(_) => {
            return Err(EnvelopeError::MsgId);
        },
    };
    let in_reply_to = match take_id(&mut fields, "in_reply_to") {
        Ok(id) => id,
        Err(_) => {
            return Err(EnvelopeError::InReplyTo);
        },
    };
    Ok(RawBody { msg_id, in_reply_to, msg_type, payload: fields })
}

/// Reads an envelope from a JSON value.
pub fn envelope_from_json(value: serde_json::Value) -> (res: Result<RawMessage, EnvelopeError>)
    ensures
        viewed(res) == envelope_of(value),
{
    proof {
        lemma_envelope_keys_differ();
    }
    let mut fields = match into_object(value) {
        Some(object) => object,
        None => {
            return Err(EnvelopeError::NotAnObject);
        },
    };
    let src = match take_text(&mut fields, "src") {
        Some(text) => text,
        None => {
            return Err(EnvelopeError::Src);
        },
    };
    let dest = match take_text(&mut fields, "dest") {
        Some(text) => text,
        None => {
            return Err(EnvelopeError::Dest);
        },
    };
    let body_object = match remove_entry(&mut fields, "body") {
        Some(value) => match into_object(value) {
            Some(object) => object,
            None => {
                return Err(EnvelopeError::Body);
            },
        },
        None => {
            return Err(EnvelopeError::Body);
        },
    };
    match body_from_json(body_object) {
        Ok(body) => Ok(RawMessage { src, dest, body }),
        Err(error) => Err(error),
    }
}

/// Reads an envelope from one line of JSON text.
pub fn decode_line(line: &str) -> (res: Result<RawMessage, RouterError>)
    ensures
        viewed(res) == line_envelope(line@),
{
    match parse_json(line) {
        Err(_) => Err(RouterError::MalformedLine),
        Ok(value) => match envelope_from_json(value) {
            Ok(message) => Ok(message),
            Err(error) => Err(RouterError::Envelope(error)),
        },
    }
}

/// Writes the body of an envelope as a body object. A payload field under one
/// of the body's own three keys is left out.
pub fn body_to_json(body: &RawBody) -> (object: JsonObject)
    ensures
        encodes_body(object_entries(object), body@),
{
    proof {
        lemma_body_keys_differ();
    }
    let mut fields = body.payload.clone();
    insert_entry(&mut fields, "type".to_owned(), from_string(body.msg_type.clone()));
    put_id(&mut fields, "msg_id", body.msg_id);
    put_id(&mut fields, "in_reply_to", body.in_reply_to);
    fields
}

/// Writes an envelope as a JSON value.
pub fn envelope_to_json(message: &RawMessage) -> (value: serde_json::Value)
    ensures
        encodes(value, message@),
{
    proof {
        lemma_envelope_keys_differ();
    }
    let mut fields = new_object();
    insert_entry(&mut fields, "src".to_owned(), from_string(message.src.clone()));
    insert_entry(&mut fields, "dest".to_owned(), from_string(message.dest.clone()));
    insert_entry(&mut fields, "body".to_owned(), from_object(body_to_json(&message.body)));
    from_object(fields)
}

/// Tells whether the text has no line break in it.
pub fn has_no_line_break(text: &str) -> (res: bool)
    ensures
        res == is_one_line(text@),
{
    for letter in letters: text.chars()
        invariant
            letters.seq() == text@,
            forall|i: int| 0 <= i < letters.index() ==> text@[i] != '\n',
    {
        if letter == '\n' {
            return false;
        }
    }
    true
}

/// Writes an envelope as one line of JSON text, without the line break at
/// its end.
pub fn encode_line(message: &RawMessage) -> (res: Result<String, RouterError>)
    ensures
        is_line_of(message@, res),
        res matches Ok(text) ==> is_one_line(text@),
        res matches Err(error) ==> error == RouterError::Unprintable,
{
    let value = envelope_to_json(message);
    let res = match print_json(&value) {
        Ok(text) => if has_no_line_break(text.as_str()) {
            Ok(text)
        } else {
            Err(RouterError::Unprintable)
        },
        Err(_) => Err(RouterError::Unprintable),
    };
    assert(encodes(value, message@));
    res
}

/// What was read off the wire can be written back: the payload of an
/// envelope that a JSON value stands for has no field named `type`, `msg_id`
/// or `in_reply_to`.
pub proof fn lemma_read_payload_is_plain(value: serde_json::Value)
    requires
        envelope_of(value) is Ok,
    ensures
        payload_is_plain(envelope_of(value)->Ok_0.body.payload),
{
    lemma_body_keys_differ();
}

/// Reading inverts writing: a JSON value that is the wire form of a message
/// reads back as that message, for every message whose payload has no field
/// named `type`, `msg_id` or `in_reply_to`.
pub proof fn lemma_read_inverts_write(value: serde_json::Value, message: RawMessageView)
    requires
        encodes(value, message),
        payload_is_plain(message.body.payload),
    ensures
        envelope_of(value) == Ok::<RawMessageView, EnvelopeError>(message),
{
    lemma_body_keys_differ();
    lemma_envelope_keys_differ();
    let top = json_shape(value)->Object_0;
    let entries = json_shape(top["body"@])->Object_0;
    let payload = entries.remove("type"@).remove("msg_id"@).remove("in_reply_to"@);
    assert(top.contains_key("body"@));
    assert(payload =~= message.body.payload) by {
        assert forall|key: Seq<char>|
            payload.contains_key(key) <==> message.body.payload.contains_key(key) by {
            if is_reserved(key) {
                assert(!message.body.payload.contains_key(key));
            } else {
                assert(entries.contains_key(key) <==> message.body.payload.contains_key(key));
            }
        }
        assert forall|key: Seq<char>| payload.contains_key(key) implies payload[key]
            == message.body.payload[key] by {
            assert(entries.contains_key(key));
        }
    }
    assert(id_field(entries, "msg_id"@) == Ok::<Option<usize>, ()>(message.body.msg_id));
    assert(id_field(entries, "in_reply_to"@) == Ok::<Option<usize>, ()>(message.body.in_reply_to));
    assert(body_of(entries) == Ok::<RawBodyView, EnvelopeError>(message.body));
}

} // verus!
