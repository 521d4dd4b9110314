use glorp::json::{copy_values, JsonNumber, JsonValue};
use glorp::text::{decimal_text, text_eq};

#[test]
fn integer_fields() {
    assert_eq!(JsonValue::Number(JsonNumber::PosInt(7)).as_i64(), Some(7));
    assert_eq!(JsonValue::Number(JsonNumber::NegInt(-7)).as_i64(), Some(-7));
    assert_eq!(JsonValue::Number(JsonNumber::PosInt(u64::MAX)).as_i64(), None);
    assert_eq!(JsonValue::Number(JsonNumber::PosInt(i64::MAX as u64)).as_i64(), Some(i64::MAX));
    assert_eq!(JsonValue::Number(JsonNumber::Float(1.0f64.to_bits())).as_i64(), None);
    assert_eq!(JsonValue::Number(JsonNumber::PosInt((1u64 << 32) + 5)).int_or_zero(), 5);
    assert_eq!(JsonValue::Number(JsonNumber::PosInt(u64::MAX)).int_or_zero(), 0);
    assert_eq!(JsonValue::Str("12".to_string()).int_or_zero(), 0);
    assert_eq!(JsonValue::Number(JsonNumber::NegInt(-3)).int_or_zero(), -3);
}

#[test]
fn other_fields() {
    assert_eq!(JsonValue::Null.real_or_zero(), JsonNumber::Float(0));
    assert_eq!(JsonValue::Number(JsonNumber::NegInt(-2)).real_or_zero(), JsonNumber::NegInt(-2));
    assert_eq!(JsonValue::Str("abc".to_string()).text_or_empty(), "abc");
    assert_eq!(JsonValue::Bool(true).text_or_empty(), "");
    assert!(JsonValue::Bool(true).bool_or_false());
    assert!(!JsonValue::Number(JsonNumber::PosInt(1)).bool_or_false());
    assert!(JsonValue::Number(JsonNumber::PosInt(1)).is_one());
    assert!(!JsonValue::Number(JsonNumber::PosInt(2)).is_one());
    assert!(!JsonValue::Bool(true).is_one());
}

#[test]
fn deep_copy_is_equal() {
    let v = JsonValue::Object(vec![
        ("a".to_string(), JsonValue::Array(vec![JsonValue::Null, JsonValue::Bool(false)])),
        ("b".to_string(), JsonValue::Str("x".to_string())),
    ]);
    assert_eq!(v.deep_copy(), v);
    let items = vec![v.deep_copy(), JsonValue::Number(JsonNumber::NegInt(-1))];
    assert_eq!(copy_values(&items), items);
}

#[test]
fn decimal_numerals() {
    assert_eq!(decimal_text(0), "0");
    assert_eq!(decimal_text(9), "9");
    assert_eq!(decimal_text(10), "10");
    assert_eq!(decimal_text(1234), "1234");
    assert_eq!(decimal_text(usize::MAX), usize::MAX.to_string());
}

#[test]
fn text_comparison() {
    assert!(text_eq("abc", "abc"));
    assert!(!text_eq("abc", "abd"));
    assert!(!text_eq("abc", "ab"));
    assert!(text_eq("", ""));
    assert!(text_eq("héllo", "héllo"));
}
