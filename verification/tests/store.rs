use issue_responder::store::{decode_last_reply, encode_last_reply};

#[test]
fn record_survives_the_json_round_trip() {
    assert_eq!(decode_last_reply(Some(encode_last_reply(42))), 42);
    assert_eq!(decode_last_reply(Some(encode_last_reply(0))), 0);
    assert_eq!(decode_last_reply(Some(encode_last_reply(u64::MAX))), u64::MAX);
}

#[test]
fn absent_record_reads_as_zero() {
    assert_eq!(decode_last_reply(None), 0);
}

#[test]
fn malformed_record_reads_as_zero() {
    let text = serde_json::Value::String(String::from("not a number"));
    assert_eq!(decode_last_reply(Some(text)), 0);
    assert_eq!(decode_last_reply(Some(serde_json::Value::Null)), 0);
    let negative = serde_json::Value::from(-1i64);
    assert_eq!(decode_last_reply(Some(negative)), 0);
}
