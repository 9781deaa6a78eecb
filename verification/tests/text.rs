use lunar::text::{
    ascii_text, decimal_text, first_chars, has_suffix, join, join3, same_text, strip_trailing,
};

#[test]
fn decimal_text_writes_integers() {
    assert_eq!(decimal_text(0), "0");
    assert_eq!(decimal_text(7), "7");
    assert_eq!(decimal_text(10), "10");
    assert_eq!(decimal_text(128), "128");
    assert_eq!(decimal_text(-1), "-1");
    assert_eq!(decimal_text(i32::MAX), "2147483647");
    assert_eq!(decimal_text(i32::MIN), "-2147483648");
}

#[test]
fn first_chars_counts_characters_not_bytes() {
    assert_eq!(first_chars("abcdef", 3), "abc");
    assert_eq!(first_chars("ab", 3), "ab");
    assert_eq!(first_chars("", 3), "");
    assert_eq!(first_chars("äöüß", 2), "äö");
    assert_eq!(first_chars("abc", 0), "");
}

#[test]
fn a_suffix_is_told_by_characters() {
    assert!(has_suffix("a.lunar.toml", ".lunar.toml"));
    assert!(has_suffix(".lunar.toml", ".lunar.toml"));
    assert!(!has_suffix("lunar.toml", ".lunar.toml"));
    assert!(has_suffix("abc", ""));
}

#[test]
fn strip_trailing_removes_every_repetition() {
    assert_eq!(strip_trailing("a.lunar.toml", ".lunar.toml"), "a");
    assert_eq!(strip_trailing("a.lunar.toml.lunar.toml", ".lunar.toml"), "a");
    assert_eq!(strip_trailing(".lunar.toml", ".lunar.toml"), "");
    assert_eq!(strip_trailing("a.toml", ".lunar.toml"), "a.toml");
    assert_eq!(strip_trailing("aXbX", "X"), "aXb");
    assert_eq!(strip_trailing("aXX", "X"), "a");
}

#[test]
fn texts_are_joined_and_compared() {
    assert_eq!(join("a", "b"), "ab");
    assert_eq!(join3("HEAD", " on ", "url"), "HEAD on url");
    assert!(same_text("é", "é"));
    assert!(!same_text("e", "é"));
    assert!(same_text("", ""));
}

#[test]
fn ascii_bytes_are_read_as_text() {
    assert_eq!(ascii_text(b"0123abcdef"), "0123abcdef");
    assert_eq!(ascii_text(b""), "");
}
