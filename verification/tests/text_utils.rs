use gitshlc::pathnorm::{expand_tilde, normalize_path_input, strip_wrapping_quotes};
use gitshlc::text::{
    contains_char, contains_substr, find_char, first_line, split_char, split_lines, str_eq,
    str_le, trim_str, u64_to_string,
};

#[test]
fn trim_removes_ascii_whitespace() {
    assert_eq!(trim_str("  hello \t\r\n"), "hello");
    assert_eq!(trim_str("hello"), "hello");
    assert_eq!(trim_str("   "), "");
    assert_eq!(trim_str(""), "");
}

#[test]
fn str_eq_compares_contents() {
    assert!(str_eq("abc", "abc"));
    assert!(!str_eq("abc", "abd"));
    assert!(!str_eq("abc", "ab"));
    assert!(str_eq("", ""));
}

#[test]
fn find_char_first_occurrence() {
    assert_eq!(find_char("a\tb\tc", '\t'), 1);
    assert_eq!(find_char("abc", '\t'), 3);
    assert_eq!(find_char("", 'x'), 0);
}

#[test]
fn contains_char_and_substr() {
    assert!(contains_char("a/b", '/'));
    assert!(!contains_char("ab", '/'));
    assert!(contains_substr("Saved working directory on main", "Saved working directory"));
    assert!(!contains_substr("nothing saved", "Saved working directory"));
    assert!(contains_substr("abc", ""));
    assert!(!contains_substr("ab", "abc"));
}

#[test]
fn split_lines_strips_line_endings() {
    let lines = split_lines("one\r\ntwo\nthree");
    assert_eq!(lines, vec!["one".to_string(), "two".to_string(), "three".to_string()]);
    let trailing = split_lines("a\n");
    assert_eq!(trailing, vec!["a".to_string()]);
    let empty: Vec<String> = split_lines("");
    assert!(empty.is_empty());
}

#[test]
fn first_line_is_first_piece() {
    assert_eq!(first_line("path\nmore"), "path");
    assert_eq!(first_line("only"), "only");
    assert_eq!(first_line(""), "");
    assert_eq!(first_line("crlf\r\nx"), "crlf");
}

#[test]
fn split_char_keeps_empty_pieces() {
    assert_eq!(split_char("a;;b;", ';'), vec![
        "a".to_string(),
        "".to_string(),
        "b".to_string(),
        "".to_string(),
    ]);
    assert_eq!(split_char("", ';'), vec!["".to_string()]);
}

#[test]
fn str_le_is_lexicographic() {
    assert!(str_le("abc", "abd"));
    assert!(str_le("ab", "abc"));
    assert!(!str_le("b", "abc"));
    assert!(str_le("same", "same"));
}

#[test]
fn decimal_rendering() {
    assert_eq!(u64_to_string(0), "0");
    assert_eq!(u64_to_string(7), "7");
    assert_eq!(u64_to_string(22), "22");
    assert_eq!(u64_to_string(65535), "65535");
    assert_eq!(u64_to_string(1000), "1000");
}

#[test]
fn strip_wrapping_quotes_cases() {
    assert_eq!(strip_wrapping_quotes("\"/my path\""), "/my path");
    assert_eq!(strip_wrapping_quotes("'/my path'"), "/my path");
    assert_eq!(strip_wrapping_quotes("  \" x \"  "), "x");
    assert_eq!(strip_wrapping_quotes("plain"), "plain");
    assert_eq!(strip_wrapping_quotes("\"mismatched'"), "\"mismatched'");
    assert_eq!(strip_wrapping_quotes("\""), "\"");
}

#[test]
fn expand_tilde_cases() {
    let home = Some("/home/me".to_string());
    let profile = Some("C:\\Users\\me".to_string());
    assert_eq!(expand_tilde("~", &home, &None), "/home/me");
    assert_eq!(expand_tilde("~/src", &home, &None), "/home/me/src");
    assert_eq!(expand_tilde("~\\src", &None, &profile), "C:\\Users\\me\\src");
    assert_eq!(expand_tilde("~/src", &None, &None), "~/src");
    assert_eq!(expand_tilde("/abs", &home, &None), "/abs");
    assert_eq!(expand_tilde("not~here", &home, &None), "not~here");
}

#[test]
fn normalize_strips_then_expands() {
    let home = Some("/home/me".to_string());
    assert_eq!(normalize_path_input("\"~/repo\"", &home, &None), "/home/me/repo");
    assert_eq!(normalize_path_input("  /plain  ", &home, &None), "/plain");
}
