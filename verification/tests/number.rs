use kalk::number::{count_from_text, parse_u32, positive_from_text};

#[test]
fn parse_u32_reads_plain_digits() {
    assert_eq!(parse_u32("42"), Some(42));
    assert_eq!(parse_u32("007"), Some(7));
    assert_eq!(parse_u32("+7"), Some(7));
    assert_eq!(parse_u32("0"), Some(0));
}

#[test]
fn parse_u32_accepts_the_largest_value() {
    assert_eq!(parse_u32("4294967295"), Some(u32::MAX));
}

#[test]
fn parse_u32_rejects_overflow_and_junk() {
    assert_eq!(parse_u32("4294967296"), None);
    assert_eq!(parse_u32("99999999999999999999"), None);
    assert_eq!(parse_u32(""), None);
    assert_eq!(parse_u32("+"), None);
    assert_eq!(parse_u32("-1"), None);
    assert_eq!(parse_u32(" 5"), None);
    assert_eq!(parse_u32("1_000"), None);
    assert_eq!(parse_u32("12a"), None);
}

#[test]
fn positive_from_text_trims_and_rejects_zero() {
    assert_eq!(positive_from_text("  30 "), Some(30));
    assert_eq!(positive_from_text("0"), None);
    assert_eq!(positive_from_text("   "), None);
    assert_eq!(positive_from_text("abc"), None);
    assert_eq!(positive_from_text("5000000000"), None);
}

#[test]
fn count_from_text_defaults_to_zero() {
    assert_eq!(count_from_text(" 3 "), 3);
    assert_eq!(count_from_text(""), 0);
    assert_eq!(count_from_text("three"), 0);
    assert_eq!(count_from_text("0"), 0);
}

#[test]
fn formatted_numbers_read_back() {
    for n in [0u32, 7, 10, 99, 1000, 65535, 123456789, u32::MAX] {
        assert_eq!(parse_u32(&n.to_string()), Some(n));
    }
}
