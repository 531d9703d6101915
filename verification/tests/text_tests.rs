use chat_mirror::text::{append_decimal, join_lines, starts_with};

fn decimal(n: u64) -> String {
    let mut out = String::new();
    append_decimal(&mut out, n);
    out
}

#[test]
fn starts_with_compares_characters() {
    assert!(starts_with("image/png", "image"));
    assert!(starts_with("image", "image"));
    assert!(starts_with("anything", ""));
    assert!(starts_with("", ""));
    assert!(!starts_with("", "image"));
    assert!(!starts_with("imag", "image"));
    assert!(!starts_with("imagx/png", "image"));
    assert!(!starts_with("ximage", "image"));
    assert!(starts_with("\u{00e9}t\u{00e9}", "\u{00e9}t"));
    assert!(!starts_with("\u{00e9}t\u{00e9}", "et"));
    assert!(starts_with("\u{1F600}x", "\u{1F600}"));
}

#[test]
fn join_lines_puts_a_line_feed_between_neighbours() {
    assert_eq!(join_lines(&Vec::new()), "");
    assert_eq!(join_lines(&vec!["a".to_string()]), "a");
    assert_eq!(join_lines(&vec!["a".to_string(), "b".to_string()]), "a\nb");
    assert_eq!(join_lines(&vec!["a".to_string(), String::new(), "c".to_string()]), "a\n\nc");
    assert_eq!(join_lines(&vec![String::new()]), "");
    assert_eq!(join_lines(&vec![String::new(), String::new()]), "\n");
}

#[test]
fn append_decimal_writes_base_ten() {
    assert_eq!(decimal(0), "0");
    assert_eq!(decimal(7), "7");
    assert_eq!(decimal(9), "9");
    assert_eq!(decimal(10), "10");
    assert_eq!(decimal(42), "42");
    assert_eq!(decimal(100), "100");
    assert_eq!(decimal(1234567890), "1234567890");
    assert_eq!(decimal(u64::MAX), "18446744073709551615");
}

#[test]
fn append_decimal_keeps_what_is_there() {
    let mut out = String::from("#");
    append_decimal(&mut out, 305);
    assert_eq!(out, "#305");
}

#[test]
fn append_decimal_agrees_with_formatting() {
    let mut n: u64 = 1;
    while n < u64::MAX / 7 {
        assert_eq!(decimal(n), format!("{n}"));
        assert_eq!(decimal(n - 1), format!("{}", n - 1));
        n *= 7;
    }
}
