use open_remote_url::text::{
    eq_ignore_ascii_case, is_whitespace, parse_unsigned, split_on, str_eq, to_decimal, trim,
    trim_end_char,
};

#[test]
fn trim_removes_unicode_whitespace_at_both_ends() {
    assert_eq!(trim("  a b\t"), "a b");
    assert_eq!(trim("\u{3000}x\u{a0}"), "x");
    assert_eq!(trim(" \n\t "), "");
    assert_eq!(trim("ab"), "ab");
}

#[test]
fn whitespace_follows_the_unicode_property() {
    assert!(is_whitespace(' '));
    assert!(is_whitespace('\u{2028}'));
    assert!(!is_whitespace('a'));
    assert!(!is_whitespace('\u{200b}'));
}

#[test]
fn split_keeps_empty_pieces() {
    assert_eq!(split_on("a,,b", ','), vec!["a", "", "b"]);
    assert_eq!(split_on("", ','), vec![""]);
    assert_eq!(split_on(",", ','), vec!["", ""]);
    assert_eq!(split_on("abc", ','), vec!["abc"]);
}

#[test]
fn parse_unsigned_accepts_what_str_parse_accepts() {
    assert_eq!(parse_unsigned("65535", 65535), Some(65535));
    assert_eq!(parse_unsigned("65536", 65535), None);
    assert_eq!(parse_unsigned("+7", 65535), Some(7));
    assert_eq!(parse_unsigned("0012", 65535), Some(12));
    assert_eq!(parse_unsigned("4294967295", 4294967295), Some(4294967295));
    assert_eq!(parse_unsigned("4294967296", 4294967295), None);
}

#[test]
fn parse_unsigned_refuses_what_str_parse_refuses() {
    assert_eq!(parse_unsigned("", 65535), None);
    assert_eq!(parse_unsigned("+", 65535), None);
    assert_eq!(parse_unsigned("-1", 65535), None);
    assert_eq!(parse_unsigned(" 1", 65535), None);
    assert_eq!(parse_unsigned("1a", 65535), None);
    assert_eq!(parse_unsigned("++1", 65535), None);
}

#[test]
fn decimal_text_parses_back_to_the_number() {
    for n in [0u32, 7, 10, 80, 8080, 65535, 4294967295] {
        let text = to_decimal(n);
        assert_eq!(text, n.to_string());
        assert_eq!(parse_unsigned(&text, u32::MAX), Some(n));
    }
}

#[test]
fn ascii_case_is_ignored_in_comparison() {
    assert!(eq_ignore_ascii_case("HoSt", "host"));
    assert!(eq_ignore_ascii_case("Content-Length", "content-length"));
    assert!(!eq_ignore_ascii_case("hosts", "host"));
    assert!(!eq_ignore_ascii_case("ÄB", "äb"));
}

#[test]
fn trailing_characters_are_stripped() {
    assert_eq!(trim_end_char("a///", '/'), "a");
    assert_eq!(trim_end_char("///", '/'), "");
    assert_eq!(trim_end_char("a/b", '/'), "a/b");
}

#[test]
fn strings_compare_by_characters() {
    assert!(str_eq("abc", "abc"));
    assert!(!str_eq("abc", "abd"));
    assert!(!str_eq("abc", "ab"));
}
