use promptuity::isize_to_string;
use promptuity::parse_isize;

#[test]
fn parse_accepts_plain_and_signed_numbers() {
    assert_eq!(parse_isize("0"), Some(0));
    assert_eq!(parse_isize("42"), Some(42));
    assert_eq!(parse_isize("+42"), Some(42));
    assert_eq!(parse_isize("-42"), Some(-42));
    assert_eq!(parse_isize("007"), Some(7));
    assert_eq!(parse_isize("9223372036854775807"), Some(isize::MAX));
    assert_eq!(parse_isize("-9223372036854775808"), Some(isize::MIN));
}

#[test]
fn parse_rejects_malformed_text() {
    assert_eq!(parse_isize(""), None);
    assert_eq!(parse_isize("+"), None);
    assert_eq!(parse_isize("-"), None);
    assert_eq!(parse_isize("4x"), None);
    assert_eq!(parse_isize("x4"), None);
    assert_eq!(parse_isize(" 4"), None);
    assert_eq!(parse_isize("4 "), None);
    assert_eq!(parse_isize("+-4"), None);
    assert_eq!(parse_isize("4.0"), None);
}

#[test]
fn parse_rejects_values_out_of_range() {
    assert_eq!(parse_isize("9223372036854775808"), None);
    assert_eq!(parse_isize("-9223372036854775809"), None);
    assert_eq!(parse_isize("99999999999999999999999999"), None);
}

#[test]
fn printing_matches_the_canonical_decimal_form() {
    assert_eq!(isize_to_string(0), "0");
    assert_eq!(isize_to_string(7), "7");
    assert_eq!(isize_to_string(-7), "-7");
    assert_eq!(isize_to_string(120), "120");
    assert_eq!(isize_to_string(isize::MAX), "9223372036854775807");
    assert_eq!(isize_to_string(isize::MIN), "-9223372036854775808");
}

#[test]
fn printing_then_parsing_returns_the_value() {
    for v in [0isize, 1, -1, 99, -100, 4096, isize::MIN, isize::MAX] {
        assert_eq!(parse_isize(&isize_to_string(v)), Some(v));
    }
}
