use mithra::text::{
    chars_of, decimal_string, parse_milli, parse_u64, push_decimal, push_signed_decimal,
    push_two_digit_decimal, same_text, same_text_ignoring_case, split,
};

#[test]
fn characters_are_counted_by_scalar_value() {
    assert_eq!(chars_of("aż€"), vec!['a', 'ż', '€']);
    assert_eq!(chars_of(""), Vec::<char>::new());
}

#[test]
fn same_text_compares_every_character() {
    assert!(same_text("guards", "guards"));
    assert!(same_text("", ""));
    assert!(!same_text("guards", "guard"));
    assert!(!same_text("guard", "guards"));
    assert!(!same_text("guards", "guardz"));
    assert!(!same_text("Guards", "guards"));
}

#[test]
fn case_is_ignored_for_ascii_letters_only() {
    assert!(same_text_ignoring_case("PoweredOff", "poweredoff"));
    assert!(same_text_ignoring_case("POWEREDOFF", "pOwErEdOfF"));
    assert!(!same_text_ignoring_case("poweredof", "poweredoff"));
    assert!(!same_text_ignoring_case("Ż", "ż"));
    assert!(!same_text_ignoring_case("@", "`"));
    assert!(!same_text_ignoring_case("[", "{"));
}

#[test]
fn decimal_numerals_have_no_leading_zeros() {
    assert_eq!(decimal_string(0), "0");
    assert_eq!(decimal_string(9), "9");
    assert_eq!(decimal_string(10), "10");
    assert_eq!(decimal_string(1234567890), "1234567890");
    assert_eq!(decimal_string(u64::MAX), "18446744073709551615");
}

#[test]
fn numerals_are_appended_to_what_is_there() {
    let mut s = String::from("n=");
    push_decimal(&mut s, 42);
    assert_eq!(s, "n=42");
    push_signed_decimal(&mut s, -7);
    assert_eq!(s, "n=42-7");
    push_signed_decimal(&mut s, i64::MIN);
    assert_eq!(s, "n=42-7-9223372036854775808");
    let mut t = String::new();
    push_signed_decimal(&mut t, i64::MAX);
    assert_eq!(t, "9223372036854775807");
}

#[test]
fn two_digit_numerals_are_padded_with_one_zero() {
    let mut s = String::new();
    push_two_digit_decimal(&mut s, 0);
    push_two_digit_decimal(&mut s, 7);
    push_two_digit_decimal(&mut s, 10);
    push_two_digit_decimal(&mut s, 123);
    assert_eq!(s, "000710123");
}

#[test]
fn unsigned_numerals_are_read() {
    assert_eq!(parse_u64("0"), Some(0));
    assert_eq!(parse_u64("007"), Some(7));
    assert_eq!(parse_u64("+15"), Some(15));
    assert_eq!(parse_u64("18446744073709551615"), Some(u64::MAX));
}

#[test]
fn unsigned_numerals_agree_with_the_standard_reader() {
    for text in ["0", "1", "+3", "00012", "18446744073709551615", "18446744073709551616", "", "+",
        "-1", "1 ", " 1", "1.0", "1e3", "++1", "12a4", "٣"]
    {
        assert_eq!(parse_u64(text), text.parse::<u64>().ok(), "for {:?}", text);
    }
}

#[test]
fn what_is_no_unsigned_numeral_is_refused() {
    assert_eq!(parse_u64(""), None);
    assert_eq!(parse_u64("+"), None);
    assert_eq!(parse_u64("-1"), None);
    assert_eq!(parse_u64("12a"), None);
    assert_eq!(parse_u64("1.5"), None);
    assert_eq!(parse_u64("18446744073709551616"), None);
    assert_eq!(parse_u64("99999999999999999999999"), None);
    assert_eq!(parse_u64("99999999999999999999999x"), None);
}

#[test]
fn decimal_numerals_are_read_as_thousandths() {
    assert_eq!(parse_milli("0"), Some(0));
    assert_eq!(parse_milli("7"), Some(7_000));
    assert_eq!(parse_milli("7."), Some(7_000));
    assert_eq!(parse_milli(".5"), Some(500));
    assert_eq!(parse_milli("12.3"), Some(12_300));
    assert_eq!(parse_milli("12.34"), Some(12_340));
    assert_eq!(parse_milli("12.345"), Some(12_345));
    assert_eq!(parse_milli("0.001"), Some(1));
    assert_eq!(parse_milli("18446744073709551.615"), Some(u64::MAX));
}

#[test]
fn digits_beyond_the_third_are_dropped() {
    assert_eq!(parse_milli("12.3456"), Some(12_345));
    assert_eq!(parse_milli("12.3459999"), Some(12_345));
    assert_eq!(parse_milli("0.0009"), Some(0));
}

#[test]
fn what_is_no_decimal_numeral_is_refused() {
    assert_eq!(parse_milli(""), None);
    assert_eq!(parse_milli("."), None);
    assert_eq!(parse_milli("-1"), None);
    assert_eq!(parse_milli("+1"), None);
    assert_eq!(parse_milli("1e3"), None);
    assert_eq!(parse_milli("1.2.3"), None);
    assert_eq!(parse_milli("1,5"), None);
    assert_eq!(parse_milli("NaN"), None);
    assert_eq!(parse_milli("12.3x"), None);
    assert_eq!(parse_milli("18446744073709551.616"), None);
    assert_eq!(parse_milli("18446744073709552"), None);
    assert_eq!(parse_milli("184467440737095516150"), None);
    assert_eq!(parse_milli("99999999999999999999999999x"), None);
}

#[test]
fn text_is_split_at_every_separator() {
    assert_eq!(split("guards/g1/ping", '/'), vec!["guards", "g1", "ping"]);
    assert_eq!(split("", '/'), vec![""]);
    assert_eq!(split("/", '/'), vec!["", ""]);
    assert_eq!(split("a//b/", '/'), vec!["a", "", "b", ""]);
    assert_eq!(split("no separator", '/'), vec!["no separator"]);
    assert_eq!(split("ż/€", '/'), vec!["ż", "€"]);
}

#[test]
fn split_agrees_with_the_standard_splitter() {
    for text in ["", "/", "//", "a/b", "/a/b/", "shellies/p1/relay/0/power", "ż//€/"] {
        let expected: Vec<String> = text.split('/').map(String::from).collect();
        assert_eq!(split(text, '/'), expected, "for {:?}", text);
    }
}
