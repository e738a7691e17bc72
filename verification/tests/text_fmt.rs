use nearsend::fmt::{format_file_size, parse_u16, parse_u32, parse_u8};
use nearsend::text::{is_blank_str, lex_less, str_starts_with, trim_str};

#[test]
fn file_sizes() {
    assert_eq!(format_file_size(0), "0 B");
    assert_eq!(format_file_size(1023), "1023 B");
    assert_eq!(format_file_size(1024), "1.0 KB");
    assert_eq!(format_file_size(1280), "1.2 KB");
    assert_eq!(format_file_size(1536), "1.5 KB");
    assert_eq!(format_file_size(1048576), "1.0 MB");
    assert_eq!(format_file_size(1073741824), "1.0 GB");
    assert_eq!(format_file_size(5 * 1073741824 + 536870912), "5.5 GB");
}

#[test]
fn numbers_parse_like_str_parse() {
    assert_eq!(parse_u16("65535"), Some(65535));
    assert_eq!(parse_u16("65536"), None);
    assert_eq!(parse_u16("+7"), Some(7));
    assert_eq!(parse_u16(""), None);
    assert_eq!(parse_u16("-1"), None);
    assert_eq!(parse_u16(" 1"), None);
    assert_eq!(parse_u8("255"), Some(255));
    assert_eq!(parse_u8("256"), None);
    assert_eq!(parse_u32("4294967295"), Some(4294967295));
    assert_eq!(parse_u32("0042"), Some(42));
}

#[test]
fn text_helpers() {
    assert_eq!(trim_str("\u{3000} a b \n"), "a b");
    assert!(is_blank_str(" \t\u{a0}"));
    assert!(!is_blank_str(" x "));
    assert!(str_starts_with("text/plain", "text/"));
    assert!(!str_starts_with("tex", "text/"));
    let a: Vec<char> = "abc".chars().collect();
    let b: Vec<char> = "abd".chars().collect();
    assert!(lex_less(&a, &b));
    assert!(!lex_less(&b, &a));
    assert!(!lex_less(&a, &a));
}
