use indiefuture_template_agent::types::domains::eth_address::DomainEthAddress;
use indiefuture_template_agent::types::domains::uint256::{DomainUint256, Uint256Error};
use indiefuture_template_agent::util::json_extract::{
    fetch_from_serde_json, ExtractableFromJson, JsonNumber, JsonValue,
};

fn text(s: &str) -> JsonValue {
    JsonValue::Text(s.to_string())
}

fn object(entries: Vec<(&str, JsonValue)>) -> JsonValue {
    JsonValue::Object(entries.into_iter().map(|(k, v)| (k.to_string(), v)).collect())
}

fn u256_of(n: u64) -> DomainUint256 {
    DomainUint256::from_u64(n)
}

#[test]
fn uint256_test_deserialize_from_string() {
    let parsed = DomainUint256::from_dec_str("123456789").unwrap();
    assert_eq!(parsed, u256_of(123456789));
}

#[test]
fn uint256_test_deserialize_from_integer() {
    assert_eq!(DomainUint256::from_u64(987654321), DomainUint256([987654321, 0, 0, 0]));
}

#[test]
fn uint256_negative_integer_is_refused() {
    assert_eq!(DomainUint256::from_i64(-1), Err(Uint256Error::Negative));
    assert_eq!(DomainUint256::from_i64(42), Ok(u256_of(42)));
}

#[test]
fn uint256_decimal_parse_bounds() {
    let max = "115792089237316195423570985008687907853269984665640564039457584007913129639935";
    let parsed = DomainUint256::from_dec_str(max).unwrap();
    assert_eq!(parsed, DomainUint256([u64::MAX; 4]));
    let over = "115792089237316195423570985008687907853269984665640564039457584007913129639936";
    assert_eq!(DomainUint256::from_dec_str(over), Err(Uint256Error::InvalidLength));
    assert_eq!(DomainUint256::from_dec_str("12a"), Err(Uint256Error::InvalidCharacter));
    assert_eq!(DomainUint256::from_dec_str("-5"), Err(Uint256Error::InvalidCharacter));
    // The first fault read from the front decides the error.
    let over_then_letter = format!("{}x", over);
    assert_eq!(DomainUint256::from_dec_str(&over_then_letter), Err(Uint256Error::InvalidLength));
    let letter_then_over = format!("x{}", over);
    assert_eq!(DomainUint256::from_dec_str(&letter_then_over), Err(Uint256Error::InvalidCharacter));
    assert_eq!(DomainUint256::from_dec_str(""), Ok(u256_of(0)));
    assert_eq!(DomainUint256::from_dec_str("0042"), Ok(u256_of(42)));
}

#[test]
fn uint256_hex_parse() {
    assert_eq!(DomainUint256::from_hex_str("0xff"), Some(u256_of(255)));
    assert_eq!(DomainUint256::from_hex_str("FF"), Some(u256_of(255)));
    assert_eq!(DomainUint256::from_hex_str("fff"), Some(u256_of(4095)));
    assert_eq!(DomainUint256::from_hex_str("0xzz"), None);
    let too_long = "1".repeat(65);
    assert_eq!(DomainUint256::from_hex_str(&too_long), None);
    assert_eq!(
        DomainUint256::from_hex_str("0x10000000000000000"),
        Some(DomainUint256([0, 1, 0, 0]))
    );
}

#[test]
fn uint256_decimal_text_roundtrip() {
    let v = DomainUint256([7, 3, 0, 9]);
    let text = v.to_dec_string();
    assert_eq!(DomainUint256::from_dec_str(&text), Ok(v));
    assert_eq!(u256_of(0).to_dec_string(), "0");
    assert_eq!(u256_of(1234500).to_dec_string(), "1234500");
}

#[test]
fn extract_string_bool_and_integers() {
    assert_eq!(String::extract(&text("abc")), Some("abc".to_string()));
    assert_eq!(String::extract(&JsonValue::Bool(true)), None);
    assert_eq!(bool::extract(&JsonValue::Bool(false)), Some(false));
    assert_eq!(bool::extract(&text("true")), None);
    let big = JsonValue::Number(JsonNumber::PosInt(u64::MAX));
    assert_eq!(u64::extract(&big), Some(u64::MAX));
    assert_eq!(i64::extract(&big), None);
    let neg = JsonValue::Number(JsonNumber::NegInt(-7));
    assert_eq!(u64::extract(&neg), None);
    assert_eq!(i64::extract(&neg), Some(-7));
    assert_eq!(i64::extract(&JsonValue::Number(JsonNumber::PosInt(5))), Some(5));
    assert_eq!(u64::extract(&JsonValue::Number(JsonNumber::Float("1.5".to_string()))), None);
}

#[test]
fn extract_uint256_from_numbers_and_hex_strings() {
    assert_eq!(
        DomainUint256::extract(&JsonValue::Number(JsonNumber::PosInt(10))),
        Some(u256_of(10))
    );
    assert_eq!(DomainUint256::extract(&JsonValue::Number(JsonNumber::NegInt(-10))), None);
    assert_eq!(
        DomainUint256::extract(&JsonValue::Number(JsonNumber::Float("1.0".to_string()))),
        None
    );
    // A string is read as hex, the way U256's `FromStr` reads it.
    assert_eq!(DomainUint256::extract(&text("10")), Some(u256_of(16)));
    assert_eq!(DomainUint256::extract(&JsonValue::Null), None);
}

#[test]
fn fetch_member_of_object() {
    let doc = object(vec![
        ("indiefuture_client_api_key", text("key-1")),
        ("count", JsonValue::Number(JsonNumber::PosInt(3))),
    ]);
    assert_eq!(
        fetch_from_serde_json::<String>(&doc, "indiefuture_client_api_key"),
        Some("key-1".to_string())
    );
    assert_eq!(fetch_from_serde_json::<u64>(&doc, "count"), Some(3));
    assert_eq!(fetch_from_serde_json::<String>(&doc, "count"), None);
    assert_eq!(fetch_from_serde_json::<String>(&doc, "missing"), None);
    assert_eq!(fetch_from_serde_json::<String>(&text("x"), "x"), None);
}

#[test]
fn duplicate_keeps_the_document() {
    let doc = object(vec![
        ("a", JsonValue::Array(vec![JsonValue::Null, JsonValue::Bool(true)])),
        ("b", object(vec![("c", text("d"))])),
    ]);
    assert_eq!(doc.duplicate(), doc);
    assert_eq!(doc.get("b"), Some(&object(vec![("c", text("d"))])));
}

#[test]
fn address_parse_and_full_text() {
    let text = "0x5AEDA56215b167893e80B4fE645BA6d5Bab767DE";
    let a = DomainEthAddress::parse(text).unwrap();
    assert_eq!(a.to_string_full(), "0x5aeda56215b167893e80b4fe645ba6d5bab767de");
    assert_eq!(DomainEthAddress::parse(&a.to_string_full()), Some(a));
    let without_prefix = DomainEthAddress::parse("5aeda56215b167893e80b4fe645ba6d5bab767de");
    assert_eq!(without_prefix, DomainEthAddress::parse(text));
}

#[test]
fn address_parse_refusals_and_spacing() {
    assert_eq!(DomainEthAddress::parse("0x1234"), None);
    assert_eq!(DomainEthAddress::parse("0X5aeda56215b167893e80b4fe645ba6d5bab767de"), None);
    assert_eq!(DomainEthAddress::parse("0x5aeda56215b167893e80b4fe645ba6d5bab767dg"), None);
    assert_eq!(DomainEthAddress::parse("0x5aeda56215b167893e80b4fe645ba6d5bab767de00"), None);
    let spaced = DomainEthAddress::parse("0x5aeda562 15b16789 3e80b4fe\n645ba6d5bab767de");
    assert_eq!(spaced, DomainEthAddress::parse("0x5aeda56215b167893e80b4fe645ba6d5bab767de"));
    assert_eq!(DomainEthAddress::parse("0x00000000000000000000000000000000000000ff").unwrap().0[19], 255);
}
