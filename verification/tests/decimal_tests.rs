use gscholar::decimal::parse_unsigned;

#[test]
fn parse_unsigned_reads_digits() {
    assert_eq!(parse_unsigned("0"), Some(0));
    assert_eq!(parse_unsigned("2020"), Some(2020));
    assert_eq!(parse_unsigned("007"), Some(7));
    assert_eq!(parse_unsigned("+42"), Some(42));
}

#[test]
fn parse_unsigned_reads_up_to_the_largest_value() {
    assert_eq!(parse_unsigned("18446744073709551615"), Some(u64::MAX));
    assert_eq!(parse_unsigned("18446744073709551616"), None);
    assert_eq!(parse_unsigned("99999999999999999999999"), None);
    assert_eq!(parse_unsigned("00000000000000000000000001"), Some(1));
}

#[test]
fn parse_unsigned_rejects_other_text() {
    assert_eq!(parse_unsigned(""), None);
    assert_eq!(parse_unsigned("+"), None);
    assert_eq!(parse_unsigned("-1"), None);
    assert_eq!(parse_unsigned("-0"), None);
    assert_eq!(parse_unsigned("++1"), None);
    assert_eq!(parse_unsigned("1+"), None);
    assert_eq!(parse_unsigned("abc"), None);
    assert_eq!(parse_unsigned("12a"), None);
    assert_eq!(parse_unsigned(" 12"), None);
    assert_eq!(parse_unsigned("12 "), None);
    assert_eq!(parse_unsigned("1_000"), None);
    assert_eq!(parse_unsigned("1.0"), None);
    assert_eq!(parse_unsigned("\u{0663}"), None);
}

#[test]
fn parse_unsigned_agrees_with_the_standard_parser() {
    let samples = [
        "", "+", "-", "0", "+0", "-0", "1", "10", "2019", "+2019", "18446744073709551615",
        "18446744073709551616", "1e3", "0x10", "abc", "12 ", " 12", "\u{0663}", "1\u{0663}",
    ];
    for text in samples {
        assert_eq!(parse_unsigned(text), text.parse::<u64>().ok(), "{:?}", text);
    }
}
