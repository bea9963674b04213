use ofreg::text::{chars_of, ends_with, find, push_chars, same_text, starts_with, u64_to_decimal};

#[test]
fn find_later_occurrence() {
    assert_eq!(find("abcabc", "ca"), Some(2));
    assert_eq!(find("aaab", "ab"), Some(2));
}

#[test]
fn find_counts_characters() {
    assert_eq!(find("日本語/x", "/x"), Some(3));
}

#[test]
fn find_missing_and_empty() {
    assert_eq!(find("abc", "abcd"), None);
    assert_eq!(find("abc", "x"), None);
    assert_eq!(find("abc", ""), Some(0));
    assert_eq!(find("", ""), Some(0));
}

#[test]
fn decimal_text() {
    assert_eq!(u64_to_decimal(0), "0");
    assert_eq!(u64_to_decimal(7), "7");
    assert_eq!(u64_to_decimal(10), "10");
    assert_eq!(u64_to_decimal(1234567890), "1234567890");
    assert_eq!(u64_to_decimal(u64::MAX), "18446744073709551615");
}

#[test]
fn same_text_compares_characters() {
    assert!(same_text("abc", "abc"));
    assert!(!same_text("abc", "abd"));
    assert!(!same_text("abc", "ab"));
    assert!(same_text("", ""));
}

#[test]
fn chars_and_push() {
    assert_eq!(chars_of("héllo"), vec!['h', 'é', 'l', 'l', 'o']);
    let mut s = String::from("ab");
    push_chars(&mut s, &vec!['c', 'ü']);
    assert_eq!(s, "abcü");
}

#[test]
fn prefixes_and_suffixes() {
    assert!(starts_with("/tmp/a", "/tmp/"));
    assert!(!starts_with("/tm", "/tmp/"));
    assert!(starts_with("abc", ""));
    assert!(ends_with("/usr/bin/fish", "/fish"));
    assert!(!ends_with("fish", "/fish"));
    assert!(ends_with("日本語", "語"));
}
