use arch_bento::config::parse_decimal_u64;

#[test]
fn parses_plain_digits() {
    assert_eq!(parse_decimal_u64("123456789123456789"), Some(123456789123456789));
    assert_eq!(parse_decimal_u64("0"), Some(0));
    assert_eq!(parse_decimal_u64("007"), Some(7));
}

#[test]
fn accepts_leading_plus() {
    assert_eq!(parse_decimal_u64("+42"), Some(42));
}

#[test]
fn rejects_empty_and_sign_only() {
    assert_eq!(parse_decimal_u64(""), None);
    assert_eq!(parse_decimal_u64("+"), None);
    assert_eq!(parse_decimal_u64("-1"), None);
    assert_eq!(parse_decimal_u64("++1"), None);
}

#[test]
fn rejects_other_characters() {
    assert_eq!(parse_decimal_u64("12a"), None);
    assert_eq!(parse_decimal_u64(" 12"), None);
    assert_eq!(parse_decimal_u64("１２"), None);
}

#[test]
fn bounds_of_u64() {
    assert_eq!(parse_decimal_u64("18446744073709551615"), Some(u64::MAX));
    assert_eq!(parse_decimal_u64("18446744073709551616"), None);
    assert_eq!(parse_decimal_u64("99999999999999999999x"), None);
}

#[test]
fn agrees_with_std() {
    for text in ["1", "+9", "", "+", "x", "18446744073709551615", "18446744073709551616", "0012"] {
        assert_eq!(parse_decimal_u64(text), u64::from_str_radix(text, 10).ok(), "{}", text);
    }
}
