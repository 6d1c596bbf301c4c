use range_guess::parse::parse_guess;

#[test]
fn parses_plain_number() {
    assert_eq!(parse_guess("27"), Some(27));
    assert_eq!(parse_guess("0"), Some(0));
}

#[test]
fn parses_signed_numbers() {
    assert_eq!(parse_guess("+5"), Some(5));
    assert_eq!(parse_guess("-12"), Some(-12));
}

#[test]
fn trims_surrounding_whitespace() {
    assert_eq!(parse_guess(" 42\n"), Some(42));
    assert_eq!(parse_guess("\t-7 \r\n"), Some(-7));
}

#[test]
fn accepts_leading_zeros() {
    assert_eq!(parse_guess("007"), Some(7));
}

#[test]
fn rejects_non_numbers() {
    assert_eq!(parse_guess("abc"), None);
    assert_eq!(parse_guess(""), None);
    assert_eq!(parse_guess("   "), None);
    assert_eq!(parse_guess("12a"), None);
    assert_eq!(parse_guess("1 2"), None);
    assert_eq!(parse_guess("-"), None);
    assert_eq!(parse_guess("+"), None);
    assert_eq!(parse_guess("--3"), None);
}

#[test]
fn honours_the_i32_limits() {
    assert_eq!(parse_guess("2147483647"), Some(i32::MAX));
    assert_eq!(parse_guess("2147483648"), None);
    assert_eq!(parse_guess("-2147483648"), Some(i32::MIN));
    assert_eq!(parse_guess("-2147483649"), None);
    assert_eq!(parse_guess("999999999999999999999999999999"), None);
}
