use cart_decode::{de_amount, de_zip_code, is_amount_text, parse_u32_text, DecodeError, Field};
use serde_json::{Number, Value};

#[test]
fn u32_text_plain_and_signed() {
    assert_eq!(parse_u32_text("123123"), Some(123123));
    assert_eq!(parse_u32_text("+123"), Some(123));
    assert_eq!(parse_u32_text("0042"), Some(42));
    assert_eq!(parse_u32_text("0"), Some(0));
}

#[test]
fn u32_text_rejects_bad_forms() {
    assert_eq!(parse_u32_text(""), None);
    assert_eq!(parse_u32_text("+"), None);
    assert_eq!(parse_u32_text("-1"), None);
    assert_eq!(parse_u32_text("12a"), None);
    assert_eq!(parse_u32_text("1 2"), None);
    assert_eq!(parse_u32_text("12.0"), None);
}

#[test]
fn u32_text_range_edges() {
    assert_eq!(parse_u32_text("4294967295"), Some(u32::MAX));
    assert_eq!(parse_u32_text("4294967296"), None);
    assert_eq!(parse_u32_text("99999999999999999999999"), None);
}

#[test]
fn u32_text_agrees_with_std_parsing() {
    for s in ["", "+", "0", "+0", "007", "123123", "4294967295", "4294967296", "1e3", "-0", "two"] {
        assert_eq!(parse_u32_text(s), s.parse::<u32>().ok(), "on {:?}", s);
    }
}

#[test]
fn amount_text_accepts_float_forms() {
    for s in [
        "0", "123.0", "1.", ".5", "1e3", "1E3", "1e+3", "1.5e-3", "-2.5", "+7", "inf", "Infinity",
        "NaN", "-inf",
    ] {
        assert!(is_amount_text(s), "on {:?}", s);
    }
}

#[test]
fn amount_text_rejects_bad_forms() {
    for s in ["", "abc", ".", "+", "1.2.3", "1e", "e3", "1e+", "--1", "1x", "in", "infinit"] {
        assert!(!is_amount_text(s), "on {:?}", s);
    }
}

#[test]
fn amount_text_agrees_with_std_parsing() {
    for s in [
        "", "abc", ".", "1.", ".5", "123.0", "1e3", "1e", "inf", "INFINITY", "nan", "-1.5E-7",
        "+.0", "1.2.3",
    ] {
        assert_eq!(is_amount_text(s), s.parse::<f32>().is_ok(), "on {:?}", s);
    }
}

#[test]
fn de_amount_on_values() {
    let s = Value::String("123.0".to_string());
    assert_eq!(de_amount(&s).unwrap(), "123.0");
    let n = Value::Number(Number::from_f64(123.0).unwrap());
    assert_eq!(de_amount(&n).unwrap(), "123.0");
    let bad = Value::String("abc".to_string());
    assert_eq!(de_amount(&bad).unwrap_err(), DecodeError::CoercionError(Field::Amount));
    assert_eq!(de_amount(&Value::Bool(true)).unwrap_err(), DecodeError::TypeMismatchError(Field::Amount));
}

#[test]
fn de_zip_code_on_values() {
    let s = Value::String("123123".to_string());
    assert_eq!(de_zip_code(&s).unwrap(), 123123);
    let n = Value::Number(Number::from(123123u64));
    assert_eq!(de_zip_code(&n).unwrap(), 123123);
    let neg = Value::Number(Number::from(-1i64));
    assert_eq!(de_zip_code(&neg).unwrap_err(), DecodeError::CoercionError(Field::Zip));
    let big = Value::Number(Number::from(5000000000u64));
    assert_eq!(de_zip_code(&big).unwrap_err(), DecodeError::CoercionError(Field::Zip));
    assert_eq!(de_zip_code(&Value::Null).unwrap_err(), DecodeError::TypeMismatchError(Field::Zip));
}
