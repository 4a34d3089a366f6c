use graders::text::{chars_of, concat2, concat3, format_decimal, join, starts_with, str_eq};

#[test]
fn decimal_numerals() {
    assert_eq!(format_decimal(0), "0");
    assert_eq!(format_decimal(7), "7");
    assert_eq!(format_decimal(10), "10");
    assert_eq!(format_decimal(1905), "1905");
    assert_eq!(format_decimal(u64::MAX), "18446744073709551615");
}

#[test]
fn texts_compare_by_their_characters() {
    assert!(str_eq("", ""));
    assert!(str_eq("push", "push"));
    assert!(!str_eq("push", "pus"));
    assert!(!str_eq("push", "pusH"));
    assert!(str_eq("é→", "é→"));
    assert!(!str_eq("é", "e"));
}

#[test]
fn prefixes() {
    assert!(starts_with("refs/heads/main", "refs/heads/"));
    assert!(starts_with("abc", ""));
    assert!(starts_with("abc", "abc"));
    assert!(!starts_with("ab", "abc"));
    assert!(!starts_with("refs/tags/v1", "refs/heads/"));
}

#[test]
fn characters_and_concatenation() {
    assert_eq!(chars_of("aé"), vec!['a', 'é']);
    assert_eq!(concat2("ab", "cd"), "abcd");
    assert_eq!(concat3("a", ":", "b"), "a:b");
}

#[test]
fn joining_puts_the_separator_between() {
    assert_eq!(join(&vec![], "\n"), "");
    assert_eq!(join(&vec!["a".to_owned()], "\n"), "a");
    assert_eq!(join(&vec!["a".to_owned(), "b".to_owned(), "".to_owned()], ", "), "a, b, ");
}
