use k8s_operator::time::{epoch_rfc3339, timestamp_parts, utc_now_rfc3339};
use k8s_operator::text::{
    decimal_string, ends_with, hex_string, parse_u16, parse_u64, same_text, strip_suffix,
    trim, trim_end_matches,
};

#[test]
fn decimal_and_hex_rendering() {
    assert_eq!(decimal_string(0), "0");
    assert_eq!(decimal_string(12345), "12345");
    assert_eq!(decimal_string(u64::MAX), u64::MAX.to_string());
    assert_eq!(hex_string(0), "0");
    assert_eq!(hex_string(255), "ff");
    assert_eq!(hex_string(0xdead_beef), "deadbeef");
    assert_eq!(hex_string(u64::MAX), "ffffffffffffffff");
}

#[test]
fn parsing_unsigned_numbers() {
    assert_eq!(parse_u64("42"), Some(42));
    assert_eq!(parse_u64("+7"), Some(7));
    assert_eq!(parse_u64(""), None);
    assert_eq!(parse_u64("+"), None);
    assert_eq!(parse_u64("-1"), None);
    assert_eq!(parse_u64("1a"), None);
    assert_eq!(parse_u64("18446744073709551615"), Some(u64::MAX));
    assert_eq!(parse_u64("18446744073709551616"), None);
    assert_eq!(parse_u16("65535"), Some(65535));
    assert_eq!(parse_u16("65536"), None);
}

#[test]
fn comparing_and_trimming_text() {
    assert!(same_text("abc", "abc"));
    assert!(!same_text("abc", "abd"));
    assert!(!same_text("ab", "abc"));
    assert!(ends_with("web-headless", "-headless"));
    assert!(!ends_with("headless", "-headless"));
    assert_eq!(strip_suffix("web-headless", "-headless"), Some("web"));
    assert_eq!(strip_suffix("web", "-headless"), None);
    assert_eq!(trim_end_matches("a-x-x", "-x"), "a");
    assert_eq!(trim_end_matches("a-x-y", "-x"), "a-x-y");
    assert_eq!(trim_end_matches("abc", ""), "abc");
}

#[test]
fn trim_removes_unicode_white_space_at_both_ends() {
    let cases = [
        "  a b  ",
        "\t\n x \r\u{0b}\u{0c}",
        "\u{a0}\u{3000}y\u{2028}\u{202f}",
        "\u{85}\u{1680}\u{2000}\u{200a}z\u{205f}\u{2029}",
        "",
        "   ",
        "\u{200b}q\u{200b}",
        "inner  space",
    ];
    for c in cases {
        assert_eq!(trim(c), c.trim(), "on {:?}", c);
    }
    assert_eq!(trim("\u{3000} a \u{a0}"), "a");
}

#[test]
fn clock_readings_are_split_and_written() {
    assert_eq!(timestamp_parts(1_700_000_000_123_456_789), Some((1_700_000_000, 123_456_789)));
    assert_eq!(timestamp_parts(999), Some((0, 999)));
    assert_eq!(timestamp_parts(u128::MAX), None);
    assert_eq!(epoch_rfc3339(), "1970-01-01T00:00:00+00:00");
    let now = utc_now_rfc3339();
    assert!(now.ends_with("+00:00"), "{}", now);
    assert!(now.as_str() > "2020", "{}", now);
}
