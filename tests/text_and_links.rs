use api_client::link::{next_link, split_on_char, trim_blanks};
use api_client::text::{parse_u64, push_decimal, same_text, starts_with, trim_start_matches};

#[test]
fn next_link_is_found_among_others() {
    let h = "<https://api.example.com/items?page=1>; rel=\"prev\", <https://api.example.com/items?page=3>; rel=\"next\", <https://api.example.com/items?page=9>; rel=\"last\"";
    assert_eq!(next_link(h), Some("https://api.example.com/items?page=3".to_string()));
}

#[test]
fn next_link_accepts_unquoted_relation_and_spaces() {
    assert_eq!(next_link("  </a> ;  rel=next  "), Some("/a".to_string()));
}

#[test]
fn next_link_absent() {
    assert_eq!(next_link("</a>; rel=\"last\""), None);
    assert_eq!(next_link(""), None);
    assert_eq!(next_link("/a; rel=\"next\""), None);
}

#[test]
fn split_and_trim() {
    assert_eq!(split_on_char("a,,b", ','), vec!["a".to_string(), String::new(), "b".to_string()]);
    assert_eq!(split_on_char("", ','), vec![String::new()]);
    assert_eq!(trim_blanks(" \t x y \t"), "x y");
    assert_eq!(trim_blanks("   "), "");
}

#[test]
fn decimal_numbers() {
    assert_eq!(parse_u64("120"), Some(120));
    assert_eq!(parse_u64("+7"), Some(7));
    assert_eq!(parse_u64("18446744073709551615"), Some(u64::MAX));
    assert_eq!(parse_u64("18446744073709551616"), None);
    assert_eq!(parse_u64(""), None);
    assert_eq!(parse_u64("+"), None);
    assert_eq!(parse_u64(" 1"), None);
    assert_eq!(parse_u64("-1"), None);
    let mut s = "n=".to_string();
    push_decimal(&mut s, 9070);
    assert_eq!(s, "n=9070");
    let mut z = String::new();
    push_decimal(&mut z, 0);
    assert_eq!(z, "0");
}

#[test]
fn prefixes() {
    assert!(starts_with("Google Drive", "Google"));
    assert!(!starts_with("Goo", "Google"));
    assert!(starts_with("x", ""));
    assert_eq!(trim_start_matches("https://https://x.io", "https://"), "x.io");
    assert_eq!(trim_start_matches("x.io", "https://"), "x.io");
    assert_eq!(trim_start_matches("abc", ""), "abc");
    assert!(same_text("abc", "abc"));
    assert!(!same_text("abc", "abd"));
}
