use met_forecast::numbers::{
    parse_decimal_i32, parse_decimal_i64, parse_decimal_u32, parse_decimal_u8, u32_to_decimal,
};

#[test]
fn test_parse_signed_decimals() {
    assert_eq!(parse_decimal_i32("0"), Some(0));
    assert_eq!(parse_decimal_i32("42"), Some(42));
    assert_eq!(parse_decimal_i32("-7"), Some(-7));
    assert_eq!(parse_decimal_i32("+7"), Some(7));
    assert_eq!(parse_decimal_i32("2147483647"), Some(2147483647));
    assert_eq!(parse_decimal_i32("-2147483648"), Some(-2147483648));
    assert_eq!(parse_decimal_i32("2147483648"), None);
    assert_eq!(parse_decimal_i32("-2147483649"), None);
    assert_eq!(parse_decimal_i32(""), None);
    assert_eq!(parse_decimal_i32("-"), None);
    assert_eq!(parse_decimal_i32("+"), None);
    assert_eq!(parse_decimal_i32("4 2"), None);
    assert_eq!(parse_decimal_i32("12a"), None);
    assert_eq!(parse_decimal_i32(" 12"), None);
}

#[test]
fn test_parse_minutes_field_range() {
    assert_eq!(parse_decimal_i64("180"), Some(180));
    assert_eq!(parse_decimal_i64("-1"), Some(-1));
    assert_eq!(parse_decimal_i64("9223372036854775807"), Some(i64::MAX));
    assert_eq!(parse_decimal_i64("-9223372036854775808"), Some(i64::MIN));
    assert_eq!(parse_decimal_i64("9223372036854775808"), None);
    assert_eq!(parse_decimal_i64("-9223372036854775809"), None);
}

#[test]
fn test_parse_unsigned_decimals() {
    assert_eq!(parse_decimal_u8("0"), Some(0));
    assert_eq!(parse_decimal_u8("255"), Some(255));
    assert_eq!(parse_decimal_u8("256"), None);
    assert_eq!(parse_decimal_u8("-0"), None);
    assert_eq!(parse_decimal_u32("4294967295"), Some(4294967295));
    assert_eq!(parse_decimal_u32("4294967296"), None);
    assert_eq!(parse_decimal_u32("-1"), None);
    assert_eq!(parse_decimal_u32("007"), Some(7));
}

#[test]
fn test_decimal_rendering() {
    assert_eq!(u32_to_decimal(0), "0");
    assert_eq!(u32_to_decimal(9), "9");
    assert_eq!(u32_to_decimal(10), "10");
    assert_eq!(u32_to_decimal(350929), "350929");
}
