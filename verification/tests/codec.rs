//! Wire-format behaviour: request encoding and reply decoding.

use frontbridge::codec::{assemble_reply, decode_reply, dec_u64, encode_request, str_eq, ErrorField};

#[test]
fn encode_embeds_payload() {
    let text = encode_request(7, "echo", "{\"x\":1}");
    assert_eq!(text, "{\"id\":7,\"method\":\"echo\",\"payload\":{\"x\":1}}");
}

#[test]
fn null_payload_is_omitted_entirely() {
    let text = encode_request(3, "ping", "null");
    assert_eq!(text, "{\"id\":3,\"method\":\"ping\"}");
    assert!(!text.contains("payload"));
}

#[test]
fn method_is_escaped_for_json() {
    let text = encode_request(2, "a\"b\\c\nd", "null");
    assert_eq!(text, "{\"id\":2,\"method\":\"a\\\"b\\\\c\\u000ad\"}");
    let parsed: serde_json::Value = serde_json::from_str(&text).unwrap();
    assert_eq!(parsed.get("method").unwrap().as_str().unwrap(), "a\"b\\c\nd");
}

#[test]
fn control_characters_become_unicode_escapes() {
    let text = encode_request(1, "a\tb", "null");
    assert_eq!(text, "{\"id\":1,\"method\":\"a\\u0009b\"}");
}

#[test]
fn non_ascii_method_names_pass_through() {
    let text = encode_request(1, "héllo→", "null");
    assert_eq!(text, "{\"id\":1,\"method\":\"héllo→\"}");
    let parsed: serde_json::Value = serde_json::from_str(&text).unwrap();
    assert_eq!(parsed.get("method").unwrap().as_str(), Some("héllo→"));
}

#[test]
fn encoded_request_is_valid_json() {
    let text = encode_request(12, "device.sync", "[1,2,3]");
    let parsed: serde_json::Value = serde_json::from_str(&text).unwrap();
    assert_eq!(parsed.get("id").unwrap().as_u64(), Some(12));
    assert_eq!(parsed.get("method").unwrap().as_str(), Some("device.sync"));
    assert_eq!(
        parsed.get("payload").unwrap(),
        &serde_json::from_str::<serde_json::Value>("[1,2,3]").unwrap()
    );
}

#[test]
fn decimal_text_of_extreme_ids() {
    assert_eq!(dec_u64(0), "0");
    assert_eq!(dec_u64(10), "10");
    assert_eq!(dec_u64(18446744073709551615), "18446744073709551615");
}

#[test]
fn str_eq_compares_contents() {
    assert!(str_eq("null", "null"));
    assert!(!str_eq("null", "nul"));
    assert!(!str_eq("null", "NULL"));
    assert!(str_eq("", ""));
}

#[test]
fn decode_reads_all_fields() {
    let reply = decode_reply("{\"id\":7,\"success\":true,\"data\":{\"y\":2},\"error\":null}")
        .expect("well-formed reply");
    assert_eq!(reply.id, 7);
    assert!(reply.success);
    let expected: serde_json::Value = serde_json::from_str("{\"y\":2}").unwrap();
    assert_eq!(reply.data.unwrap(), expected);
    assert_eq!(reply.error, None);
}

#[test]
fn decode_defaults_absent_data_and_error() {
    let reply = decode_reply("{\"id\":1,\"success\":true}").expect("well-formed reply");
    assert_eq!(reply.data, None);
    assert_eq!(reply.error, None);
}

#[test]
fn decode_treats_null_data_as_absent() {
    let reply = decode_reply("{\"id\":1,\"success\":true,\"data\":null}").unwrap();
    assert_eq!(reply.data, None);
}

#[test]
fn decode_reads_error_text() {
    let reply = decode_reply("{\"id\":7,\"success\":false,\"error\":\"not found\"}").unwrap();
    assert_eq!(reply.id, 7);
    assert!(!reply.success);
    assert_eq!(reply.error.as_deref(), Some("not found"));
}

#[test]
fn malformed_events_decode_to_nothing() {
    assert!(decode_reply("not json at all").is_none());
    assert!(decode_reply("{\"success\":true}").is_none()); // no id
    assert!(decode_reply("{\"id\":1}").is_none()); // no success
    assert!(decode_reply("{\"id\":\"seven\",\"success\":true}").is_none()); // id not an integer
    assert!(decode_reply("{\"id\":-4,\"success\":true}").is_none()); // id negative
    assert!(decode_reply("{\"id\":1,\"success\":\"yes\"}").is_none()); // success not a boolean
    assert!(decode_reply("{\"id\":1,\"success\":false,\"error\":5}").is_none()); // error not a string
    assert!(decode_reply("[1,2,3]").is_none()); // not an object
}

#[test]
fn assemble_requires_id_and_success() {
    assert!(assemble_reply(None, Some(true), None, ErrorField::Missing).is_none());
    assert!(assemble_reply(Some(1), None, None, ErrorField::Missing).is_none());
    assert!(
        assemble_reply(Some(1), Some(true), None, ErrorField::Malformed).is_none()
    );
    let reply = assemble_reply(
        Some(9),
        Some(false),
        None,
        ErrorField::Text("boom".to_string()),
    )
    .unwrap();
    assert_eq!(reply.id, 9);
    assert!(!reply.success);
    assert_eq!(reply.error.as_deref(), Some("boom"));
}
