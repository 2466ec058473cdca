use browserware::text::contains_char;
use browserware::text::contains_str;
use browserware::text::ends_with_str;
use browserware::text::rfind_str;
use browserware::text::split_char;
use browserware::text::split_ws;
use browserware::text::starts_with_str;
use browserware::text::str_eq;
use browserware::text::trim_str;

#[test]
fn trim_removes_surrounding_whitespace() {
    assert_eq!(trim_str("  hello \t\r\n"), "hello");
    assert_eq!(trim_str("hello"), "hello");
    assert_eq!(trim_str(" \t "), "");
    assert_eq!(trim_str(""), "");
}

#[test]
fn split_char_keeps_empty_pieces() {
    assert_eq!(split_char("a;;b;", ';', 0), vec!["a", "", "b", ""]);
    assert_eq!(split_char("", ';', 0), vec![""]);
}

#[test]
fn split_ws_drops_empty_tokens() {
    assert_eq!(split_ws("  a  bb\tc \n", 0), vec!["a", "bb", "c"]);
    assert_eq!(split_ws("   ", 0), Vec::<String>::new());
}

#[test]
fn substring_searches() {
    assert!(contains_str("/Applications/Foo.app/Bar", ".app/"));
    assert!(!contains_str("/Applications/Foo.app", ".app/"));
    assert_eq!(rfind_str("a.b.c", "."), Some(3));
    assert_eq!(rfind_str("abc", "."), None);
    assert!(contains_char("a=b", '='));
    assert!(!contains_char("ab", '='));
}

#[test]
fn affix_checks() {
    assert!(starts_with_str("/snap/bin/firefox", "/snap/bin/"));
    assert!(!starts_with_str("/usr/bin/firefox", "/snap/bin/"));
    assert!(ends_with_str("firefox.desktop", ".desktop"));
    assert!(!ends_with_str("firefox", ".desktop"));
    assert!(str_eq("same", "same"));
    assert!(!str_eq("same", "different"));
}
