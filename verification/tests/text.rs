use fusionc::text::escape_string;
use fusionc::text::i32_to_string;
use fusionc::text::parse_i32;
use fusionc::text::usize_to_string;

#[test]
fn decimal_rendering_is_canonical() {
    assert_eq!(i32_to_string(0), "0");
    assert_eq!(i32_to_string(7), "7");
    assert_eq!(i32_to_string(-7), "-7");
    assert_eq!(i32_to_string(1000), "1000");
    assert_eq!(i32_to_string(i32::MAX), "2147483647");
    assert_eq!(i32_to_string(i32::MIN), "-2147483648");
}

#[test]
fn parse_reads_canonical_decimals() {
    assert_eq!(parse_i32("0"), Some(0));
    assert_eq!(parse_i32("42"), Some(42));
    assert_eq!(parse_i32("-42"), Some(-42));
    assert_eq!(parse_i32("+42"), Some(42));
    assert_eq!(parse_i32("2147483647"), Some(i32::MAX));
    assert_eq!(parse_i32("-2147483648"), Some(i32::MIN));
}

#[test]
fn parse_accepts_leading_zeros() {
    assert_eq!(parse_i32("007"), Some(7));
    assert_eq!(parse_i32("-007"), Some(-7));
    assert_eq!(parse_i32("0000000000000000001"), Some(1));
}

#[test]
fn parse_rejects_overflow() {
    assert_eq!(parse_i32("2147483648"), None);
    assert_eq!(parse_i32("-2147483649"), None);
    assert_eq!(parse_i32("99999999999999999999"), None);
}

#[test]
fn parse_rejects_malformed_text() {
    assert_eq!(parse_i32(""), None);
    assert_eq!(parse_i32("-"), None);
    assert_eq!(parse_i32("+"), None);
    assert_eq!(parse_i32("1.5"), None);
    assert_eq!(parse_i32("x"), None);
    assert_eq!(parse_i32("1 2"), None);
    assert_eq!(parse_i32("--1"), None);
}

#[test]
fn round_trip_through_text() {
    // Rendering then parsing gives the integer back, for the edges and a
    // sweep of ordinary values.
    for n in [0, 1, -1, 9, 10, -10, 99, 100, 12345, -987654321, i32::MAX, i32::MIN] {
        assert_eq!(parse_i32(i32_to_string(n).as_str()), Some(n));
    }
}

#[test]
fn escaping_marks_backslash_and_quote_once() {
    assert_eq!(escape_string(""), "");
    assert_eq!(escape_string("plain"), "plain");
    assert_eq!(escape_string("a\\b"), "a\\\\b");
    assert_eq!(escape_string("a\"b"), "a\\\"b");
    assert_eq!(escape_string("\\\""), "\\\\\\\"");
    assert_eq!(escape_string("newline stays \n"), "newline stays \n");
}

#[test]
fn unsigned_rendering() {
    assert_eq!(usize_to_string(0), "0");
    assert_eq!(usize_to_string(17), "17");
}
