use bytes::BytesMut;
use indiefuture_template_agent::types::domains::decimal::DomainDecimal;
use indiefuture_template_agent::types::domains::uint256::{DomainUint256, Uint256Error, NUMERIC_OVERFLOW_PREFIX};
use rust_decimal::Decimal;
use std::str::FromStr;
use tokio_postgres::types::{ToSql, Type};

fn to_decimal(d: &DomainDecimal) -> Decimal {
    let mut v = Decimal::from_i128_with_scale(d.magnitude as i128, d.scale);
    v.set_sign_negative(d.negative);
    v
}

fn from_decimal(v: Decimal) -> DomainDecimal {
    DomainDecimal::from_parts(v.is_sign_negative(), v.mantissa().unsigned_abs(), v.scale()).unwrap()
}

fn numeric_bytes(v: Decimal) -> Vec<u8> {
    let mut out = BytesMut::new();
    v.to_sql(&Type::NUMERIC, &mut out).unwrap();
    out.to_vec()
}

#[test]
fn decimal_test_deserialize_from_string() {
    let expected = Decimal::from_str("123.456").unwrap();
    let parsed = DomainDecimal::from_text_exact("123.456").unwrap();
    assert_eq!(to_decimal(&parsed), expected);
    assert_eq!((parsed.negative, parsed.magnitude, parsed.scale), (false, 123456, 3));
}

#[test]
fn decimal_test_deserialize_from_integer() {
    let expected = Decimal::from(987654321i64);
    let parsed = DomainDecimal::from_i64(987654321);
    assert_eq!(to_decimal(&parsed), expected);
    assert_eq!((parsed.negative, parsed.magnitude, parsed.scale), (false, 987654321, 0));
}

fn simulate_numeric_roundtrip(value: &DomainDecimal) -> Result<DomainDecimal, String> {
    let bytes = value.to_numeric_sql();
    DomainDecimal::from_numeric_sql(&bytes)
}

#[test]
fn test_numeric_roundtrip() {
    let test_values = vec![
        from_decimal(Decimal::from_str("0").unwrap()),
        from_decimal(Decimal::from_str("123.456").unwrap()),
        from_decimal(Decimal::from_str("-987.654").unwrap()),
        from_decimal(Decimal::from_str("0.0000001").unwrap()),
        from_decimal(Decimal::MAX),
        from_decimal(Decimal::MIN),
    ];

    for value in test_values {
        let roundtrip = simulate_numeric_roundtrip(&value).unwrap();
        assert_eq!(value, roundtrip);
        assert_eq!(to_decimal(&value), to_decimal(&roundtrip));
    }

    println!("All PostgreSQL NUMERIC roundtrip tests passed successfully");
}

#[test]
fn decimal_integers_keep_their_sign() {
    let d = DomainDecimal::from_i64(-42);
    assert_eq!((d.negative, d.magnitude, d.scale), (true, 42, 0));
    let d = DomainDecimal::from_i64(i64::MIN);
    assert_eq!(d.magnitude, 1u128 << 63);
    assert_eq!(to_decimal(&d), Decimal::from(i64::MIN));
    let d = DomainDecimal::from_u64(u64::MAX);
    assert_eq!(to_decimal(&d), Decimal::from(u64::MAX));
    let z = DomainDecimal::default();
    assert_eq!((z.negative, z.magnitude, z.scale), (false, 0, 0));
}

#[test]
fn decimal_exact_parse_refusals() {
    let err = DomainDecimal::from_text_exact("abc").unwrap_err();
    assert_eq!(err, Decimal::from_str_exact("abc").unwrap_err().to_string());
    let tiny = "0.00000_00000_00000_00000_00000_0001";
    assert!(DomainDecimal::from_text_exact(tiny).is_err());
    // The rounding parser takes what the exact one refuses.
    let rounded = DomainDecimal::from_text(tiny).unwrap();
    assert_eq!(to_decimal(&rounded), Decimal::from_str(tiny).unwrap());
    let d = DomainDecimal::from_text_exact("-0.001").unwrap();
    assert_eq!((d.negative, d.magnitude, d.scale), (true, 1, 3));
}

#[test]
fn decimal_parts_bounds() {
    assert!(DomainDecimal::from_parts(false, (1u128 << 96) - 1, 28).is_some());
    assert!(DomainDecimal::from_parts(false, 1u128 << 96, 0).is_none());
    assert!(DomainDecimal::from_parts(true, 5, 29).is_none());
}

#[test]
fn decimal_text_forms() {
    let text = |n: bool, m: u128, s: u32| DomainDecimal::from_parts(n, m, s).unwrap().to_text();
    assert_eq!(text(false, 123456, 3), "123.456");
    assert_eq!(text(false, 0, 0), "0");
    assert_eq!(text(false, 0, 3), "0.000");
    assert_eq!(text(true, 1, 3), "-0.001");
    assert_eq!(text(false, 1, 7), "0.0000001");
    assert_eq!(text(false, 1200, 0), "1200");
    assert_eq!(text(true, 0, 0), "-0");
    assert_eq!(text(false, 987, 2), to_decimal(&DomainDecimal::from_parts(false, 987, 2).unwrap()).to_string());
}

#[test]
fn decimal_numeric_decode_errors() {
    assert!(DomainDecimal::from_numeric_sql(&[0, 1]).is_err());
    let d = DomainDecimal::from_numeric_sql(&numeric_bytes(Decimal::from_str("3950.123456").unwrap())).unwrap();
    assert_eq!(to_decimal(&d), Decimal::from_str("3950.123456").unwrap());
    let bytes = from_decimal(Decimal::from_str("-12.5").unwrap()).to_numeric_sql();
    assert_eq!(bytes, numeric_bytes(Decimal::from_str("-12.5").unwrap()));
}

#[test]
fn uint256_numeric_columns() {
    let forty_two = numeric_bytes(Decimal::from(42));
    assert_eq!(DomainUint256::from_numeric_sql(&forty_two), Ok(DomainUint256::from_u64(42)));
    let half = numeric_bytes(Decimal::from_str("1.5").unwrap());
    assert_eq!(DomainUint256::from_numeric_sql(&half), Err(Uint256Error::InvalidCharacter));
    let negative = numeric_bytes(Decimal::from(-3));
    assert_eq!(DomainUint256::from_numeric_sql(&negative), Err(Uint256Error::InvalidCharacter));
    assert!(matches!(DomainUint256::from_numeric_sql(&[1]), Err(Uint256Error::InvalidNumeric(_))));
    let zero_with_scale = numeric_bytes(Decimal::from_str("0.000").unwrap());
    // A zero goes to NUMERIC without its scale, so it reads back as a whole zero.
    assert_eq!(DomainDecimal::from_numeric_sql(&zero_with_scale).unwrap().scale, 0);
    assert_eq!(DomainUint256::from_numeric_sql(&zero_with_scale), Ok(DomainUint256::from_u64(0)));
    let seven_point_zero = numeric_bytes(Decimal::from_str("7.0").unwrap());
    assert_eq!(DomainUint256::from_numeric_sql(&seven_point_zero), Err(Uint256Error::InvalidCharacter));
    let zero = numeric_bytes(Decimal::ZERO);
    assert_eq!(DomainUint256::from_numeric_sql(&zero), Ok(DomainUint256::from_u64(0)));
    assert_eq!(DomainUint256::from_u64(42).to_numeric_sql(), Ok(forty_two));
    let huge = DomainUint256([0, 0, 0, 1]);
    let err = huge.to_numeric_sql().unwrap_err();
    assert!(err.starts_with(NUMERIC_OVERFLOW_PREFIX));
    assert!(err.len() > NUMERIC_OVERFLOW_PREFIX.len());
}

#[test]
fn decimal_equality_is_by_value() {
    let p = |n: bool, m: u128, s: u32| DomainDecimal::from_parts(n, m, s).unwrap();
    assert_eq!(p(false, 10, 1), p(false, 100, 2));
    assert_eq!(p(false, 1, 0), p(false, 1_000_000_000_000_000_000_000_000_000, 27));
    assert_eq!(p(true, 0, 3), p(false, 0, 0));
    assert_ne!(p(false, 1, 0), p(true, 1, 0));
    assert_ne!(p(false, 123456, 3), p(false, 123457, 3));
    assert_ne!(p(false, 15, 1), p(false, 1, 0));
    assert_eq!(p(false, 15, 1) == p(false, 1, 0), Decimal::new(15, 1) == Decimal::new(1, 0));
    let wide = DomainDecimal { negative: false, magnitude: 5, scale: 40 };
    assert_ne!(wide, p(false, 5, 0));
    assert_eq!(DomainDecimal { negative: false, magnitude: 0, scale: 40 }, p(false, 0, 0));
}
