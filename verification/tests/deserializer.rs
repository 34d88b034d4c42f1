use px6_client::deserializer::parse_proxy_status;
use px6_client::deserializer::to_string;
use px6_client::deserializer::to_u16;
use px6_client::deserializer::to_usize;
use px6_client::json::lookup_field;
use px6_client::json::parse_json;
use px6_client::json::JsonValue;

fn member<'a>(v: &'a JsonValue, key: &str) -> &'a JsonValue {
    match v {
        JsonValue::Object(fields) => lookup_field(fields, key).expect("missing member"),
        _ => panic!("expected an object"),
    }
}

fn value_member(text: &str) -> JsonValue {
    let parsed = parse_json(text).expect("invalid JSON");
    match &parsed {
        JsonValue::Object(fields) => match lookup_field(fields, "value") {
            Some(_) => {}
            None => panic!("missing member"),
        },
        _ => panic!("expected an object"),
    }
    parsed
}

// ===== to_u16 tests =====

#[test]
fn test_to_u16_from_number() {
    let parsed = value_member("{\"value\": 42}");
    assert_eq!(to_u16(member(&parsed, "value")), Ok(42));
}

#[test]
fn test_to_u16_from_string_valid() {
    let parsed = value_member("{\"value\": \"65535\"}");
    assert_eq!(to_u16(member(&parsed, "value")), Ok(65535));
}

#[test]
fn test_to_u16_from_string_zero() {
    let parsed = value_member("{\"value\": \"0\"}");
    assert_eq!(to_u16(member(&parsed, "value")), Ok(0));
}

#[test]
fn test_to_u16_from_float_number() {
    let parsed = value_member("{\"value\": 123.5}");
    assert!(to_u16(member(&parsed, "value")).is_err());
}

#[test]
fn test_to_u16_from_string_invalid() {
    let parsed = value_member("{\"value\": \"not_a_number\"}");
    assert!(to_u16(member(&parsed, "value")).is_err());
}

#[test]
fn test_to_u16_from_string_overflow() {
    let parsed = value_member("{\"value\": \"65536\"}");
    assert!(to_u16(member(&parsed, "value")).is_err());
}

#[test]
fn test_to_u16_from_negative_number() {
    let parsed = value_member("{\"value\": -5}");
    assert!(to_u16(member(&parsed, "value")).is_err());
}

#[test]
fn test_to_u16_from_boolean() {
    let parsed = value_member("{\"value\": true}");
    assert!(to_u16(member(&parsed, "value")).is_err());
}

#[test]
fn test_to_u16_from_null() {
    let parsed = value_member("{\"value\": null}");
    assert!(to_u16(member(&parsed, "value")).is_err());
}

#[test]
fn test_to_u16_from_array() {
    let parsed = value_member("{\"value\": [42]}");
    assert!(to_u16(member(&parsed, "value")).is_err());
}

#[test]
fn test_to_u16_from_object() {
    let parsed = value_member("{\"value\": {}}");
    assert!(to_u16(member(&parsed, "value")).is_err());
}

// ===== to_usize tests =====

#[test]
fn test_to_usize_from_number() {
    let parsed = value_member("{\"value\": 42}");
    assert_eq!(to_usize(member(&parsed, "value")), Ok(42));
}

#[test]
fn test_to_usize_from_large_number() {
    let parsed = value_member("{\"value\": 18446744073709551615}");
    assert_eq!(to_usize(member(&parsed, "value")), Ok(18446744073709551615));
}

#[test]
fn test_to_usize_from_string_valid() {
    let parsed = value_member("{\"value\": \"12345\"}");
    assert_eq!(to_usize(member(&parsed, "value")), Ok(12345));
}

#[test]
fn test_to_usize_from_string_zero() {
    let parsed = value_member("{\"value\": \"0\"}");
    assert_eq!(to_usize(member(&parsed, "value")), Ok(0));
}

#[test]
fn test_to_usize_from_string_invalid() {
    let parsed = value_member("{\"value\": \"not_a_number\"}");
    assert!(to_usize(member(&parsed, "value")).is_err());
}

#[test]
fn test_to_usize_from_string_negative() {
    let parsed = value_member("{\"value\": \"-5\"}");
    assert!(to_usize(member(&parsed, "value")).is_err());
}

#[test]
fn test_to_usize_from_float_number() {
    let parsed = value_member("{\"value\": 123.5}");
    assert!(to_usize(member(&parsed, "value")).is_err());
}

#[test]
fn test_to_usize_from_negative_number() {
    let parsed = value_member("{\"value\": -5}");
    assert!(to_usize(member(&parsed, "value")).is_err());
}

#[test]
fn test_to_usize_from_boolean() {
    let parsed = value_member("{\"value\": true}");
    assert!(to_usize(member(&parsed, "value")).is_err());
}

#[test]
fn test_to_usize_from_null() {
    let parsed = value_member("{\"value\": null}");
    assert!(to_usize(member(&parsed, "value")).is_err());
}

#[test]
fn test_to_usize_from_array() {
    let parsed = value_member("{\"value\": [42]}");
    assert!(to_usize(member(&parsed, "value")).is_err());
}

// ===== to_string tests =====

#[test]
fn test_to_string_from_number_integer() {
    let parsed = value_member("{\"value\": 42}");
    assert_eq!(to_string(member(&parsed, "value")), Ok("42".to_string()));
}

#[test]
fn test_to_string_from_number_float() {
    let parsed = value_member("{\"value\": 123.456}");
    assert_eq!(to_string(member(&parsed, "value")), Ok("123.456".to_string()));
}

#[test]
fn test_to_string_from_string() {
    let parsed = value_member("{\"value\": \"hello\"}");
    assert_eq!(to_string(member(&parsed, "value")), Ok("hello".to_string()));
}

#[test]
fn test_to_string_from_empty_string() {
    let parsed = value_member("{\"value\": \"\"}");
    assert_eq!(to_string(member(&parsed, "value")), Ok(String::new()));
}

#[test]
fn test_to_string_from_zero() {
    let parsed = value_member("{\"value\": 0}");
    assert_eq!(to_string(member(&parsed, "value")), Ok("0".to_string()));
}

#[test]
fn test_to_string_from_negative_number() {
    let parsed = value_member("{\"value\": -42}");
    assert_eq!(to_string(member(&parsed, "value")), Ok("-42".to_string()));
}

#[test]
fn test_to_string_from_boolean() {
    let parsed = value_member("{\"value\": true}");
    assert!(to_string(member(&parsed, "value")).is_err());
}

#[test]
fn test_to_string_from_null() {
    let parsed = value_member("{\"value\": null}");
    assert!(to_string(member(&parsed, "value")).is_err());
}

#[test]
fn test_to_string_from_array() {
    let parsed = value_member("{\"value\": [42]}");
    assert!(to_string(member(&parsed, "value")).is_err());
}

#[test]
fn test_to_string_from_object() {
    let parsed = value_member("{\"value\": {}}");
    assert!(to_string(member(&parsed, "value")).is_err());
}

// ===== parse_proxy_status tests =====

fn status_member(text: &str) -> JsonValue {
    parse_json(text).expect("invalid JSON")
}

#[test]
fn test_parse_proxy_status_from_string_zero() {
    let parsed = status_member("{\"status\": \"0\"}");
    assert_eq!(parse_proxy_status(member(&parsed, "status")), Ok(false));
}

#[test]
fn test_parse_proxy_status_from_string_one() {
    let parsed = status_member("{\"status\": \"1\"}");
    assert_eq!(parse_proxy_status(member(&parsed, "status")), Ok(true));
}

#[test]
fn test_parse_proxy_status_from_string_invalid() {
    let parsed = status_member("{\"status\": \"2\"}");
    assert!(parse_proxy_status(member(&parsed, "status")).is_err());
}

#[test]
fn test_parse_proxy_status_from_string_text() {
    let parsed = status_member("{\"status\": \"true\"}");
    assert!(parse_proxy_status(member(&parsed, "status")).is_err());
}

#[test]
fn test_parse_proxy_status_from_empty_string() {
    let parsed = status_member("{\"status\": \"\"}");
    assert!(parse_proxy_status(member(&parsed, "status")).is_err());
}

#[test]
fn test_parse_proxy_status_from_boolean_true() {
    let parsed = status_member("{\"status\": true}");
    assert!(parse_proxy_status(member(&parsed, "status")).is_err());
}

#[test]
fn test_parse_proxy_status_from_boolean_false() {
    let parsed = status_member("{\"status\": false}");
    assert!(parse_proxy_status(member(&parsed, "status")).is_err());
}

#[test]
fn test_parse_proxy_status_from_number_zero() {
    let parsed = status_member("{\"status\": 0}");
    assert!(parse_proxy_status(member(&parsed, "status")).is_err());
}

#[test]
fn test_parse_proxy_status_from_number_one() {
    let parsed = status_member("{\"status\": 1}");
    assert!(parse_proxy_status(member(&parsed, "status")).is_err());
}

#[test]
fn test_parse_proxy_status_from_null() {
    let parsed = status_member("{\"status\": null}");
    assert!(parse_proxy_status(member(&parsed, "status")).is_err());
}

#[test]
fn test_parse_proxy_status_from_array() {
    let parsed = status_member("{\"status\": [\"1\"]}");
    assert!(parse_proxy_status(member(&parsed, "status")).is_err());
}
