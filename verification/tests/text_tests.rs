use mu_runtime::text::i64_to_string;
use mu_runtime::text::parse_u64;
use mu_runtime::text::str_eq;
use mu_runtime::text::u64_to_string;

#[test]
fn naturals_are_rendered_in_base_10() {
    assert_eq!("0", u64_to_string(0));
    assert_eq!("7", u64_to_string(7));
    assert_eq!("1234", u64_to_string(1234));
    assert_eq!("18446744073709551615", u64_to_string(u64::MAX));
}

#[test]
fn integers_carry_their_sign() {
    assert_eq!("200", i64_to_string(200));
    assert_eq!("-56", i64_to_string(-56));
    assert_eq!("0", i64_to_string(0));
    assert_eq!("-9223372036854775808", i64_to_string(i64::MIN));
}

#[test]
fn digit_strings_parse_to_their_value() {
    assert_eq!(Some(1000), parse_u64("1000"));
    assert_eq!(Some(0), parse_u64("0"));
    assert_eq!(Some(u64::MAX), parse_u64("18446744073709551615"));
}

#[test]
fn non_digit_strings_do_not_parse() {
    assert_eq!(None, parse_u64(""));
    assert_eq!(None, parse_u64("12a"));
    assert_eq!(None, parse_u64("-5"));
    assert_eq!(None, parse_u64(" 5"));
}

#[test]
fn values_past_the_range_do_not_parse() {
    assert_eq!(None, parse_u64("18446744073709551616"));
    assert_eq!(None, parse_u64("99999999999999999999999"));
}

#[test]
fn string_comparison_goes_by_characters() {
    assert!(str_eq("abc", "abc"));
    assert!(!str_eq("abc", "abd"));
    assert!(!str_eq("abc", "ab"));
    assert!(str_eq("", ""));
}
