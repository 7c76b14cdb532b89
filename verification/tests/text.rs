use os_cli::text::{
    char_boundary, pad_right, preview, split_once_at, trim, trim_end_matches, trim_start_matches,
    truncate, truncate_with_dots,
};

#[test]
fn truncate_short_string() {
    assert_eq!(truncate("hello", 10), "hello");
}

#[test]
fn truncate_long_string() {
    let result = truncate("a very long string here", 10);
    assert!(result.ends_with('\u{2026}'));
    assert_eq!(result.chars().count(), 10);
}

#[test]
fn truncate_exact_fit() {
    assert_eq!(truncate("abcde", 5), "abcde");
    assert_eq!(truncate("abcdef", 5), "abcd\u{2026}");
}

#[test]
fn truncate_with_dots_cuts() {
    assert_eq!(truncate_with_dots("hello world", 8), "hello...");
    assert_eq!(truncate_with_dots("short", 8), "short");
}

#[test]
fn preview_adds_dots() {
    assert_eq!(preview("abcdef", 3), "abc...");
    assert_eq!(preview("abc", 3), "abc");
}

#[test]
fn boundaries_in_multibyte_text() {
    let s = "h\u{e9}llo";
    assert!(char_boundary(s, 0));
    assert!(char_boundary(s, 1));
    assert!(!char_boundary(s, 2));
    assert!(char_boundary(s, 3));
    assert!(char_boundary(s, 6));
    assert!(!char_boundary(s, 7));
}

#[test]
fn trimming() {
    assert_eq!(trim("  a b \t\n"), "a b");
    assert_eq!(trim("   "), "");
    assert_eq!(trim_start_matches("@@x@", '@'), "x@");
    assert_eq!(trim_end_matches("http://h//", '/'), "http://h");
}

#[test]
fn padding() {
    assert_eq!(pad_right("ab", 5), "ab   ");
    assert_eq!(pad_right("abcdef", 3), "abcdef");
}

#[test]
fn split_at_first_separator() {
    assert_eq!(split_once_at("a:b:c", ':'), ("a".to_string(), Some("b:c".to_string())));
    assert_eq!(split_once_at("abc", ':'), ("abc".to_string(), None));
    assert_eq!(split_once_at(":x", ':'), (String::new(), Some("x".to_string())));
    assert_eq!(split_once_at("x:", ':'), ("x".to_string(), Some(String::new())));
}

#[test]
fn whitespace_agrees_with_std_for_every_char() {
    for u in 0u32..=0x10FFFF {
        if let Some(c) = char::from_u32(u) {
            assert_eq!(os_cli::text::is_whitespace(c), c.is_whitespace(), "U+{:04X}", u);
        }
    }
}
