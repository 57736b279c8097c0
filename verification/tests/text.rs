use latchnott::text::{is_blank_str, push_decimal, trim_str};

#[test]
fn trims_unicode_white_space_at_both_ends() {
    assert_eq!(trim_str("  Segoe UI  "), "Segoe UI");
    assert_eq!(trim_str("\u{3000}\t x \u{2029}"), "x");
    assert_eq!(trim_str("   "), "");
    assert_eq!(trim_str("a  b"), "a  b");
    let sample = "\u{85}\u{a0} mixed \u{1680}\u{2000}";
    assert_eq!(trim_str(sample), sample.trim());
}

#[test]
fn blank_means_only_white_space() {
    assert!(is_blank_str(""));
    assert!(is_blank_str(" \t\n\r\u{b}\u{c}"));
    assert!(!is_blank_str(" . "));
    assert!(!is_blank_str("\u{200b}"));
}

#[test]
fn decimal_matches_display() {
    for n in [0u32, 7, 10, 99, 100, 183, 4294967295] {
        let mut rendered = String::from("n=");
        push_decimal(&mut rendered, n);
        assert_eq!(rendered, format!("n={}", n));
    }
}
