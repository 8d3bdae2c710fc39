use opentelemetry_cli::attr::{parse, parse_attribute};
use opentelemetry_cli::wire::{AnyValue, AnyValueKind, NumberValue};

#[test]
fn parse_simple_token() {
    let attr = parse("k:v").unwrap();
    assert_eq!(attr.key, "k");
    assert_eq!(attr.value, "v");
}

#[test]
fn parse_value_keeps_colons() {
    let attr = parse("k:v:w:").unwrap();
    assert_eq!(attr.key, "k");
    assert_eq!(attr.value, "v:w:");
}

#[test]
fn parse_without_colon_fails() {
    let err = parse("kv").unwrap_err();
    assert_eq!(err, "expect key:value format for attribute");
}

#[test]
fn parse_empty_token_fails() {
    assert!(parse("").is_err());
}

#[test]
fn parse_empty_key_fails() {
    let err = parse(":v").unwrap_err();
    assert_eq!(err, "expect key:value format for attribute");
    assert!(parse(":").is_err());
}

#[test]
fn parse_trailing_colon() {
    let attr = parse("k:").unwrap();
    assert_eq!(attr.key, "k");
    assert_eq!(attr.value, "");
}

#[test]
fn parse_attribute_agrees_with_parse() {
    let attr = parse_attribute("service.name:api").unwrap();
    assert_eq!(attr.key, "service.name");
    assert_eq!(attr.value, "api");
    assert!(parse_attribute("no-colon-here").is_err());
}

#[test]
fn value_flags_exactly_one_accepted() {
    let bits = 3.14f64.to_bits();
    assert_eq!(
        NumberValue::from_flags(Some(bits), None),
        Some(NumberValue::AsDouble(bits))
    );
    assert_eq!(
        NumberValue::from_flags(None, Some(-7)),
        Some(NumberValue::AsInt(-7))
    );
    assert_eq!(NumberValue::from_flags(Some(bits), Some(-7)), None);
    assert_eq!(NumberValue::from_flags(None, None), None);
}

#[test]
fn attribute_to_key_value_is_string_variant() {
    let attr = parse("host.name:box:1").unwrap();
    let kv = attr.to_key_value();
    assert_eq!(kv.key, "host.name");
    match kv.value {
        Some(AnyValue {
            value: Some(AnyValueKind::StringValue(s)),
        }) => assert_eq!(s, "box:1"),
        other => panic!("expected a string value, got {other:?}"),
    }
}
