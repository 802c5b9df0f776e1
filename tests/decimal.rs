use cw_it::decimal::{parse_u128, parse_u32, u128_text};

#[test]
fn parses_decimal_text_like_from_str() {
    assert_eq!(parse_u128("1000"), Some(1000));
    assert_eq!(parse_u128("+7"), Some(7));
    assert_eq!(parse_u128("007"), Some(7));
    assert_eq!(parse_u128(""), None);
    assert_eq!(parse_u128("+"), None);
    assert_eq!(parse_u128("-1"), None);
    assert_eq!(parse_u128("12a"), None);
    assert_eq!(parse_u128("340282366920938463463374607431768211455"), Some(u128::MAX));
    assert_eq!(parse_u128("340282366920938463463374607431768211456"), None);
    assert_eq!(parse_u32("4294967295"), Some(u32::MAX));
    assert_eq!(parse_u32("4294967296"), None);
}

#[test]
fn writes_decimal_text_like_to_string() {
    assert_eq!(u128_text(0), "0");
    assert_eq!(u128_text(10_000_000), "10000000");
    assert_eq!(u128_text(u128::MAX), u128::MAX.to_string());
}
