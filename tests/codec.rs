use litesql_ha::value::{sqlite_to_value, text_eq, value_to_sqlite, SqlValue, WireKind};
use litesql_ha::varint::{decode_varint, encode_varint, encode_varint_usize};
use litesql_ha::{Error, Timestamp, Value, WireEnvelope};

fn url(name: &str) -> String {
    format!("type.googleapis.com/google.protobuf.{}", name)
}

fn env(name: &str, value: Vec<u8>) -> WireEnvelope {
    WireEnvelope { type_url: url(name), value }
}

fn round_trip(v: Value) {
    let e = v.to_any();
    assert_eq!(Value::from_any(&e), Ok(v));
}

#[test]
fn negative_int64_takes_ten_bytes() {
    let e = Value::Int64(-1).to_any();
    assert_eq!(e.type_url, url("Int64Value"));
    assert_eq!(e.value, vec![0x08, 0xff, 0xff, 0xff, 0xff, 0xff, 0xff, 0xff, 0xff, 0xff, 0x01]);
    assert_eq!(Value::from_any(&e), Ok(Value::Int64(-1)));
}

#[test]
fn string_payload_is_length_delimited() {
    let e = Value::String("Alice".to_string()).to_any();
    assert_eq!(e.type_url, url("StringValue"));
    assert_eq!(e.value, vec![0x0a, 0x05, 0x41, 0x6c, 0x69, 0x63, 0x65]);
    let e = Value::String("alice@example.com".to_string()).to_any();
    let mut expected = vec![0x0a, 0x11];
    expected.extend_from_slice(b"alice@example.com");
    assert_eq!(e.value, expected);
}

#[test]
fn scalar_payloads() {
    assert_eq!(Value::Null.to_any(), env("Empty", vec![]));
    assert_eq!(Value::Bool(true).to_any(), env("BoolValue", vec![0x08, 0x01]));
    assert_eq!(Value::Bool(false).to_any(), env("BoolValue", vec![0x08, 0x00]));
    assert_eq!(Value::Int32(300).to_any(), env("Int32Value", vec![0x08, 0xac, 0x02]));
    assert_eq!(
        Value::Float(1.5f32.to_bits()).to_any(),
        env("FloatValue", vec![0x0d, 0x00, 0x00, 0xc0, 0x3f])
    );
    assert_eq!(
        Value::Double(1.0f64.to_bits()).to_any(),
        env("DoubleValue", vec![0x09, 0, 0, 0, 0, 0, 0, 0xf0, 0x3f])
    );
    assert_eq!(Value::Bytes(vec![1, 2, 3]).to_any(), env("BytesValue", vec![0x0a, 3, 1, 2, 3]));
    let t = Timestamp { seconds: 1, nanos: 5 };
    assert_eq!(Value::Timestamp(t).to_any(), env("Timestamp", vec![0x08, 0x01, 0x10, 0x05]));
}

#[test]
fn every_kind_round_trips() {
    round_trip(Value::Null);
    round_trip(Value::Bool(true));
    round_trip(Value::Bool(false));
    round_trip(Value::Int32(i32::MIN));
    round_trip(Value::Int32(-7));
    round_trip(Value::Int32(i32::MAX));
    round_trip(Value::Int64(i64::MIN));
    round_trip(Value::Int64(0));
    round_trip(Value::Int64(i64::MAX));
    round_trip(Value::Float((-2.25f32).to_bits()));
    round_trip(Value::Double(std::f64::consts::PI.to_bits()));
    round_trip(Value::String(String::new()));
    round_trip(Value::String("héllo, 世界 🎉".to_string()));
    round_trip(Value::Bytes(vec![]));
    round_trip(Value::Bytes((0u8..=255).collect()));
    round_trip(Value::Timestamp(Timestamp { seconds: -5, nanos: 999_999_999 }));
    round_trip(Value::Timestamp(Timestamp { seconds: 1_700_000_000, nanos: 0 }));
}

#[test]
fn empty_payloads_give_zero_values() {
    assert_eq!(Value::from_any(&env("BoolValue", vec![])), Ok(Value::Bool(false)));
    assert_eq!(Value::from_any(&env("Int32Value", vec![])), Ok(Value::Int32(0)));
    assert_eq!(Value::from_any(&env("Int64Value", vec![])), Ok(Value::Int64(0)));
    assert_eq!(Value::from_any(&env("FloatValue", vec![])), Ok(Value::Float(0)));
    assert_eq!(Value::from_any(&env("DoubleValue", vec![])), Ok(Value::Double(0)));
    assert_eq!(Value::from_any(&env("StringValue", vec![])), Ok(Value::String(String::new())));
    assert_eq!(Value::from_any(&env("BytesValue", vec![])), Ok(Value::Bytes(vec![])));
    assert_eq!(
        Value::from_any(&env("Timestamp", vec![])),
        Ok(Value::Timestamp(Timestamp { seconds: 0, nanos: 0 }))
    );
}

#[test]
fn unsigned_wrappers_decode_to_signed_values() {
    assert_eq!(
        Value::from_any(&env("UInt32Value", vec![0x08, 0xff, 0xff, 0xff, 0xff, 0x0f])),
        Ok(Value::Int32(-1))
    );
    assert_eq!(Value::from_any(&env("UInt64Value", vec![0x08, 0x2a])), Ok(Value::Int64(42)));
}

#[test]
fn unknown_type_url_is_a_conversion_error() {
    let r = Value::from_any(&WireEnvelope { type_url: "example.com/Nope".to_string(), value: vec![] });
    assert_eq!(r, Err(Error::TypeConversion("Unsupported type: example.com/Nope".to_string())));
}

#[test]
fn truncated_string_decodes_empty() {
    assert_eq!(
        Value::from_any(&env("StringValue", vec![0x0a, 0x05, b'a', b'b'])),
        Ok(Value::String(String::new()))
    );
}

#[test]
fn invalid_utf8_is_replaced() {
    assert_eq!(
        Value::from_any(&env("StringValue", vec![0x0a, 0x03, b'a', 0xff, b'b'])),
        Ok(Value::String("a\u{FFFD}b".to_string()))
    );
}

#[test]
fn timestamp_nanos_carry_into_seconds() {
    assert_eq!(Timestamp::new(1, 2_500_000_000), Some(Timestamp { seconds: 3, nanos: 500_000_000 }));
    assert_eq!(Timestamp::new(i64::MAX, 1_000_000_000), None);
    let mut payload = vec![0x08, 0x01, 0x10];
    encode_varint(&mut payload, 1_500_000_000);
    assert_eq!(
        Value::from_any(&env("Timestamp", payload)),
        Ok(Value::Timestamp(Timestamp { seconds: 2, nanos: 500_000_000 }))
    );
}

#[test]
fn timestamp_overflow_is_a_conversion_error() {
    let mut payload = vec![0x08];
    encode_varint(&mut payload, i64::MAX);
    payload.push(0x10);
    encode_varint(&mut payload, 1_000_000_000);
    assert!(matches!(Value::from_any(&env("Timestamp", payload)), Err(Error::TypeConversion(_))));
}

#[test]
fn varints_encode_and_decode() {
    let mut buf = Vec::new();
    encode_varint(&mut buf, 1);
    encode_varint_usize(&mut buf, 300);
    assert_eq!(buf, vec![0x01, 0xac, 0x02]);
    assert_eq!(decode_varint(&[0xac, 0x02, 0x07]), Ok((300, 2)));
    assert_eq!(decode_varint(&[]), Ok((0, 0)));
    assert_eq!(decode_varint(&[0x80]), Ok((0, 1)));
    let mut neg = Vec::new();
    encode_varint(&mut neg, i64::MIN);
    assert_eq!(neg.len(), 10);
    assert_eq!(decode_varint(&neg), Ok((i64::MIN, 10)));
}

#[test]
fn type_urls_are_matched_exactly() {
    assert!(text_eq("abc", "abc"));
    assert!(!text_eq("abc", "abd"));
    assert_eq!(litesql_ha::value::kind_of(&url("Timestamp")), Some(WireKind::Timestamp));
    assert_eq!(litesql_ha::value::kind_of("Timestamp"), None);
}

#[test]
fn engine_values_map_both_ways() {
    assert_eq!(value_to_sqlite(Value::Bool(true)), SqlValue::Integer(1));
    assert_eq!(value_to_sqlite(Value::Int32(-3)), SqlValue::Integer(-3));
    assert_eq!(value_to_sqlite(Value::Timestamp(Timestamp { seconds: 42, nanos: 7 })), SqlValue::Integer(42));
    assert_eq!(value_to_sqlite(Value::Float(2.0f32.to_bits())), SqlValue::Single(2.0f32.to_bits()));
    assert_eq!(value_to_sqlite(Value::Null), SqlValue::Null);
    assert_eq!(sqlite_to_value(SqlValue::Integer(5)), Value::Int64(5));
    assert_eq!(sqlite_to_value(SqlValue::Real(0.5f64.to_bits())), Value::Double(0.5f64.to_bits()));
    assert_eq!(sqlite_to_value(SqlValue::Text("t".to_string())), Value::String("t".to_string()));
    assert_eq!(sqlite_to_value(SqlValue::Blob(vec![9])), Value::Bytes(vec![9]));
}

#[test]
fn values_convert_from_plain_types() {
    assert_eq!(Value::from(true), Value::Bool(true));
    assert_eq!(Value::from(7i32), Value::Int32(7));
    assert_eq!(Value::from(7i64), Value::Int64(7));
    assert_eq!(Value::from("x".to_string()), Value::String("x".to_string()));
    assert_eq!(Value::from(vec![1u8]), Value::Bytes(vec![1]));
}
