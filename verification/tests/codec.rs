use maelstrom_rust::codec::{body_from_json, body_to_json, has_no_line_break};
use maelstrom_rust::{
    decode_line, encode_line, envelope_from_json, envelope_to_json, EnvelopeError, JsonObject,
    RawBody, RawMessage, RouterError,
};
use serde_json::Value;

fn parse(text: &str) -> Value {
    serde_json::from_str(text).unwrap()
}

fn object(text: &str) -> JsonObject {
    match parse(text) {
        Value::Object(fields) => fields,
        _ => panic!("not an object"),
    }
}

fn envelope(msg_id: Option<usize>, in_reply_to: Option<usize>, payload: &str) -> RawMessage {
    RawMessage {
        src: "n1".to_string(),
        dest: "n2".to_string(),
        body: RawBody { msg_id, in_reply_to, msg_type: "echo".to_string(), payload: object(payload) },
    }
}

#[test]
fn line_decodes_into_its_fields() {
    let message =
        decode_line(r#"{"src":"n1","dest":"n2","body":{"msg_id":1,"type":"echo","text":"hello"}}"#)
            .unwrap();
    assert_eq!(message, envelope(Some(1), None, r#"{"text":"hello"}"#));
}

#[test]
fn payload_is_every_other_field_of_the_body() {
    let message = decode_line(
        r#"{"src":"a","dest":"b","body":{"type":"t","in_reply_to":3,"x":[1,2],"y":{"z":null},"w":-1.5}}"#,
    )
    .unwrap();
    assert_eq!(message.body.msg_id, None);
    assert_eq!(message.body.in_reply_to, Some(3));
    assert_eq!(message.body.msg_type, "t");
    assert_eq!(message.body.payload, object(r#"{"x":[1,2],"y":{"z":null},"w":-1.5}"#));
    assert!(!message.body.payload.contains_key("type"));
    assert!(!message.body.payload.contains_key("in_reply_to"));
}

#[test]
fn other_fields_of_the_envelope_are_ignored() {
    let message =
        decode_line(r#"{"id":9,"src":"a","dest":"b","body":{"type":"t"},"extra":true}"#).unwrap();
    assert_eq!(message.src, "a");
    assert_eq!(message.dest, "b");
    assert!(message.body.payload.is_empty());
}

#[test]
fn null_id_is_an_absent_id() {
    let message = decode_line(
        r#"{"src":"a","dest":"b","body":{"type":"t","msg_id":null,"in_reply_to":null}}"#,
    )
    .unwrap();
    assert_eq!(message.body.msg_id, None);
    assert_eq!(message.body.in_reply_to, None);
    assert!(message.body.payload.is_empty());
}

#[test]
fn largest_id_is_read() {
    let line = format!(
        r#"{{"src":"a","dest":"b","body":{{"type":"t","msg_id":{},"in_reply_to":0}}}}"#,
        usize::MAX
    );
    let message = decode_line(&line).unwrap();
    assert_eq!(message.body.msg_id, Some(usize::MAX));
    assert_eq!(message.body.in_reply_to, Some(0));
}

#[test]
fn text_that_is_not_json_is_malformed() {
    assert_eq!(decode_line("hello"), Err(RouterError::MalformedLine));
    assert_eq!(decode_line(r#"{"src":"a""#), Err(RouterError::MalformedLine));
    assert_eq!(decode_line(""), Err(RouterError::MalformedLine));
}

#[test]
fn value_that_is_no_object_is_no_envelope() {
    for text in ["null", "true", "3", "\"s\"", "[]", r#"["a","b",{"type":"t"}]"#] {
        assert_eq!(
            decode_line(text),
            Err(RouterError::Envelope(EnvelopeError::NotAnObject)),
            "{}",
            text
        );
        assert_eq!(envelope_from_json(parse(text)), Err(EnvelopeError::NotAnObject));
    }
}

#[test]
fn each_missing_or_mistyped_field_is_named() {
    let cases = [
        (r#"{"dest":"b","body":{"type":"t"}}"#, EnvelopeError::Src),
        (r#"{"src":1,"dest":"b","body":{"type":"t"}}"#, EnvelopeError::Src),
        (r#"{"src":"a","body":{"type":"t"}}"#, EnvelopeError::Dest),
        (r#"{"src":"a","dest":null,"body":{"type":"t"}}"#, EnvelopeError::Dest),
        (r#"{"src":"a","dest":"b"}"#, EnvelopeError::Body),
        (r#"{"src":"a","dest":"b","body":"type"}"#, EnvelopeError::Body),
        (r#"{"src":"a","dest":"b","body":[]}"#, EnvelopeError::Body),
        (r#"{"src":"a","dest":"b","body":{}}"#, EnvelopeError::Type),
        (r#"{"src":"a","dest":"b","body":{"type":7}}"#, EnvelopeError::Type),
        (r#"{"src":"a","dest":"b","body":{"type":"t","msg_id":"1"}}"#, EnvelopeError::MsgId),
        (r#"{"src":"a","dest":"b","body":{"type":"t","msg_id":-1}}"#, EnvelopeError::MsgId),
        (r#"{"src":"a","dest":"b","body":{"type":"t","msg_id":1.5}}"#, EnvelopeError::MsgId),
        (r#"{"src":"a","dest":"b","body":{"type":"t","msg_id":1.0}}"#, EnvelopeError::MsgId),
        (r#"{"src":"a","dest":"b","body":{"type":"t","msg_id":true}}"#, EnvelopeError::MsgId),
        (
            r#"{"src":"a","dest":"b","body":{"type":"t","in_reply_to":{}}}"#,
            EnvelopeError::InReplyTo,
        ),
        (
            r#"{"src":"a","dest":"b","body":{"type":"t","in_reply_to":-3}}"#,
            EnvelopeError::InReplyTo,
        ),
    ];
    for (text, error) in cases {
        assert_eq!(decode_line(text), Err(RouterError::Envelope(error)), "{}", text);
        assert_eq!(envelope_from_json(parse(text)), Err(error), "{}", text);
    }
}

#[test]
fn first_fault_in_reading_order_is_the_one_reported() {
    assert_eq!(envelope_from_json(parse(r#"{"body":7}"#)), Err(EnvelopeError::Src));
    assert_eq!(envelope_from_json(parse(r#"{"src":"a","body":7}"#)), Err(EnvelopeError::Dest));
    assert_eq!(
        envelope_from_json(parse(
            r#"{"src":"a","dest":"b","body":{"msg_id":"x","in_reply_to":"y"}}"#
        )),
        Err(EnvelopeError::Type)
    );
    assert_eq!(
        body_from_json(object(r#"{"type":"t","msg_id":"x","in_reply_to":"y"}"#)),
        Err(EnvelopeError::MsgId)
    );
}

#[test]
fn body_reads_from_its_object() {
    let body = body_from_json(object(r#"{"type":"t","msg_id":5,"n":1}"#)).unwrap();
    assert_eq!(
        body,
        RawBody {
            msg_id: Some(5),
            in_reply_to: None,
            msg_type: "t".to_string(),
            payload: object(r#"{"n":1}"#),
        }
    );
}

#[test]
fn envelope_writes_as_the_wire_object() {
    let value = envelope_to_json(&envelope(Some(1), Some(2), r#"{"text":"hello"}"#));
    assert_eq!(
        value,
        parse(
            r#"{"src":"n1","dest":"n2","body":{"msg_id":1,"in_reply_to":2,"type":"echo","text":"hello"}}"#
        )
    );
}

#[test]
fn absent_ids_are_left_out_not_written_as_null() {
    let value = envelope_to_json(&envelope(None, None, r#"{"text":"hello"}"#));
    assert_eq!(value, parse(r#"{"src":"n1","dest":"n2","body":{"type":"echo","text":"hello"}}"#));
    let line = encode_line(&envelope(None, Some(3), "{}")).unwrap();
    assert_eq!(line, r#"{"body":{"in_reply_to":3,"type":"echo"},"dest":"n2","src":"n1"}"#);
    assert!(!line.contains("msg_id"));
    assert!(!line.contains("null"));
}

#[test]
fn body_fields_win_over_payload_fields_of_the_same_name() {
    let body = RawBody {
        msg_id: None,
        in_reply_to: Some(1),
        msg_type: "real".to_string(),
        payload: object(r#"{"type":"fake","msg_id":8,"in_reply_to":9,"kept":1}"#),
    };
    assert_eq!(body_to_json(&body), object(r#"{"type":"real","in_reply_to":1,"kept":1}"#));
}

#[test]
fn writing_then_reading_gives_the_envelope_back() {
    let payloads = [
        "{}",
        r#"{"text":"hello"}"#,
        r#"{"a":null,"b":true,"c":[1,"two",{"three":3}],"d":{"e":{"f":[]}},"g":-7,"h":"line\nbreak \"quoted\" é"}"#,
        r#"{"big":18446744073709551615,"small":-9223372036854775808}"#,
    ];
    let ids = [None, Some(0), Some(1), Some(usize::MAX)];
    for payload in payloads {
        for msg_id in ids {
            for in_reply_to in ids {
                let message = envelope(msg_id, in_reply_to, payload);
                let line = encode_line(&message).unwrap();
                assert!(has_no_line_break(&line));
                assert_eq!(decode_line(&line), Ok(message.clone()), "{}", line);
                assert_eq!(envelope_from_json(envelope_to_json(&message)), Ok(message));
            }
        }
    }
}

#[test]
fn reading_then_writing_gives_the_same_value_back() {
    let text = r#"{"src":"n1","dest":"n2","body":{"msg_id":1,"type":"echo","text":"hello"}}"#;
    let message = decode_line(text).unwrap();
    assert_eq!(envelope_to_json(&message), parse(text));
}

#[test]
fn line_breaks_are_found() {
    assert!(has_no_line_break(""));
    assert!(has_no_line_break("{\"a\":1}"));
    assert!(has_no_line_break("a\\nb"));
    assert!(has_no_line_break("\u{e9}\r\t"));
    assert!(!has_no_line_break("\n"));
    assert!(!has_no_line_break("a\nb"));
    assert!(!has_no_line_break("\u{e9}\u{1F600}\n"));
    assert!(!has_no_line_break("ab\n"));
}
