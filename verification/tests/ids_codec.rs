//! The identifier display form: rendering and parsing are inverse, and
//! parsing accepts nothing but the canonical decimal form.

use course_market::ids::format_u64;
use course_market::ids::parse_u64;

#[test]
fn format_renders_canonical_decimal() {
    assert_eq!(format_u64(0), "0");
    assert_eq!(format_u64(7), "7");
    assert_eq!(format_u64(10), "10");
    assert_eq!(format_u64(12345), "12345");
    assert_eq!(format_u64(u64::MAX), "18446744073709551615");
}

#[test]
fn parse_accepts_exactly_what_format_renders() {
    for n in [0u64, 1, 9, 10, 99, 100, 4096, 1_000_000_007, u64::MAX] {
        assert_eq!(parse_u64(&format_u64(n)), Some(n));
    }
    assert_eq!(parse_u64("0"), Some(0));
    assert_eq!(parse_u64("42"), Some(42));
}

#[test]
fn parse_rejects_non_canonical_input() {
    assert_eq!(parse_u64(""), None);
    assert_eq!(parse_u64("01"), None);
    assert_eq!(parse_u64("00"), None);
    assert_eq!(parse_u64("-1"), None);
    assert_eq!(parse_u64("1.5"), None);
    assert_eq!(parse_u64("abc"), None);
    assert_eq!(parse_u64("42 "), None);
    assert_eq!(parse_u64("\u{0661}"), None);
    // One past the largest identifier, and far beyond it.
    assert_eq!(parse_u64("18446744073709551616"), None);
    assert_eq!(parse_u64("99999999999999999999999999"), None);
}
