use maelstrom_rust::{
    fields_of, reply_to, to_json_map, Body, JsonObject, Message, Payload, RawBody, RawMessage,
    RouterError,
};
use serde_json::Value;

fn request() -> RawMessage {
    let mut payload = JsonObject::new();
    payload.insert("key".to_string(), Value::from(5u64));
    RawMessage {
        src: "c1".to_string(),
        dest: "n3".to_string(),
        body: RawBody {
            msg_id: Some(12),
            in_reply_to: Some(4),
            msg_type: "read".to_string(),
            payload,
        },
    }
}

struct Pair {
    left: u64,
    right: u64,
}

impl Payload for Pair {
    fn tag() -> &'static str {
        "pair"
    }

    fn decode(fields: &JsonObject) -> Option<Self> {
        Some(Pair { left: fields.get("left")?.as_u64()?, right: fields.get("right")?.as_u64()? })
    }

    fn encode(self) -> Option<Value> {
        let mut fields = JsonObject::new();
        fields.insert("left".to_string(), Value::from(self.left));
        fields.insert("right".to_string(), Value::from(self.right));
        Some(Value::Object(fields))
    }
}

#[test]
fn from_raw_keeps_addresses_and_ids() {
    let message = Message::from_raw(request(), 77u8);
    assert_eq!(
        message,
        Message {
            src: "c1".to_string(),
            dest: "n3".to_string(),
            body: Body { msg_id: Some(12), in_reply_to: Some(4), payload: 77u8 },
        }
    );
}

#[test]
fn from_raw_keeps_absent_ids_absent() {
    let mut raw = request();
    raw.body.msg_id = None;
    raw.body.in_reply_to = None;
    let message = Message::from_raw(raw, "p");
    assert_eq!(message.body.msg_id, None);
    assert_eq!(message.body.in_reply_to, None);
    assert_eq!(message.body.payload, "p");
}

#[test]
fn reply_swaps_addresses_and_refers_to_the_request() {
    let mut payload = JsonObject::new();
    payload.insert("value".to_string(), Value::Bool(true));
    let reply = reply_to(&request(), "read_ok", payload.clone());
    assert_eq!(
        reply,
        RawMessage {
            src: "n3".to_string(),
            dest: "c1".to_string(),
            body: RawBody {
                msg_id: None,
                in_reply_to: Some(12),
                msg_type: "read_ok".to_string(),
                payload,
            },
        }
    );
}

#[test]
fn reply_to_request_without_id_refers_to_nothing() {
    let mut raw = request();
    raw.body.msg_id = None;
    let reply = reply_to(&raw, "read_ok", JsonObject::new());
    assert_eq!(reply.body.in_reply_to, None);
    assert_eq!(reply.body.msg_id, None);
}

#[test]
fn raw_message_clone_is_equal() {
    let raw = request();
    assert_eq!(raw.clone(), raw);
    assert_eq!(raw.body.clone(), raw.body);
}

#[test]
fn fields_of_an_object_are_its_entries() {
    let mut fields = JsonObject::new();
    fields.insert("a".to_string(), Value::Null);
    assert_eq!(fields_of(Some(Value::Object(fields.clone()))), Ok(fields));
    assert_eq!(fields_of(Some(Value::Object(JsonObject::new()))), Ok(JsonObject::new()));
}

#[test]
fn fields_of_anything_else_is_an_error() {
    assert_eq!(fields_of(None), Err(RouterError::PayloadEncode));
    assert_eq!(fields_of(Some(Value::Null)), Err(RouterError::PayloadEncode));
    assert_eq!(fields_of(Some(Value::Bool(true))), Err(RouterError::PayloadEncode));
    assert_eq!(fields_of(Some(Value::from(3u64))), Err(RouterError::PayloadEncode));
    assert_eq!(
        fields_of(Some(Value::String("s".to_string()))),
        Err(RouterError::PayloadEncode)
    );
    assert_eq!(fields_of(Some(Value::Array(Vec::new()))), Err(RouterError::PayloadEncode));
}

#[test]
fn to_json_map_gives_the_encoded_fields() {
    let fields = to_json_map(Pair { left: 1, right: 2 }).unwrap();
    assert_eq!(fields.len(), 2);
    assert_eq!(fields.get("left"), Some(&Value::from(1u64)));
    assert_eq!(fields.get("right"), Some(&Value::from(2u64)));
    assert_eq!(Pair::decode(&fields).map(|pair| (pair.left, pair.right)), Some((1, 2)));
    assert_eq!(Pair::tag(), "pair");
}
