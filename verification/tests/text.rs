//! Numbers and names as they are written.
use stark_ui::text::{after, begins, decimal_string, pixels_string, same, trim};

#[test]
fn numbers_are_written_without_a_leading_zero() {
    assert_eq!(decimal_string(0), "0");
    assert_eq!(decimal_string(907), "907");
    assert_eq!(decimal_string(u128::MAX), u128::MAX.to_string());
}

#[test]
fn a_length_is_written_exactly_in_pixels() {
    for (units, words) in [
        (0, "0"),
        (64, "1"),
        (-96, "-1.5"),
        (1, "0.015625"),
        (-1, "-0.015625"),
        (48, "0.75"),
        (6400, "100"),
    ] {
        assert_eq!(pixels_string(units), words);
        assert_eq!(words.parse::<f64>().unwrap() * 64.0, units as f64);
    }
    assert_eq!(pixels_string(i64::MIN), "-144115188075855872");
}

#[test]
fn white_space_of_every_kind_is_trimmed() {
    assert_eq!(trim(" \t\r\n\u{85}\u{a0}\u{2003}a b\u{3000}"), "a b");
    assert_eq!(trim("\u{200b}"), "\u{200b}", "which is not white space");
    assert_eq!(trim("   "), "");
    for s in ["", " x ", "x", "\u{1680}y\u{205f}"] {
        assert_eq!(trim(s), s.trim());
        assert_eq!(trim(&trim(s)), trim(s));
    }
}

#[test]
fn a_head_is_matched_whole() {
    assert!(same("a", "a") && !same("a", "b") && !same("a", "ab"));
    assert!(begins("image/png", "image/") && !begins("imag", "image/"));
    assert_eq!(after("#rest", "#").as_deref(), Some("rest"));
    assert_eq!(after("rest", "#"), None);
}
