use npio::text::{
    before_char, chars_eq, find, from_chars, has_prefix, has_sub, join, parse_u32, push_decimal,
    slice, split, str_eq, to_chars, trim_end_of, trim_start_of, Sep,
};

fn chars(s: &str) -> Vec<char> {
    s.chars().collect()
}

fn strings(parts: Vec<Vec<char>>) -> Vec<String> {
    parts.iter().map(|p| p.iter().collect()).collect()
}

#[test]
fn test_chars_round_trip() {
    assert_eq!(to_chars("héllo"), chars("héllo"));
    assert_eq!(from_chars(&chars("héllo")), "héllo");
    assert_eq!(from_chars(&to_chars("")), "");
}

#[test]
fn test_equality_and_prefix() {
    assert!(str_eq("abc", "abc"));
    assert!(!str_eq("abc", "abd"));
    assert!(!str_eq("abc", "ab"));
    assert!(chars_eq(&chars(""), &chars("")));
    assert!(has_prefix(&chars("file:///x"), &chars("file://")));
    assert!(!has_prefix(&chars("fil"), &chars("file://")));
    assert!(has_prefix(&chars("abc"), &chars("")));
}

#[test]
fn test_find_gives_first_occurrence() {
    assert_eq!(find(&chars("a://b://c"), &chars("://")), Some(1));
    assert_eq!(find(&chars("abc"), &chars("://")), None);
    assert_eq!(find(&chars("abc"), &chars("")), Some(0));
    assert_eq!(find(&chars(""), &chars("")), Some(0));
    assert_eq!(find(&chars("abc"), &chars("c")), Some(2));
    assert!(has_sub(&chars("/dev/sr0"), &chars("sr")));
    assert!(!has_sub(&chars("/dev/sda"), &chars("sr")));
}

#[test]
fn test_split_without_empty_pieces() {
    assert_eq!(
        strings(split(&chars("  a \t b\n"), Sep::Space, false)),
        vec!["a".to_string(), "b".to_string()]
    );
    assert_eq!(strings(split(&chars("//a///b/"), Sep::Slash, false)), vec!["a", "b"]);
    assert!(split(&chars(""), Sep::Space, false).is_empty());
    assert!(split(&chars("   "), Sep::Space, false).is_empty());
}

#[test]
fn test_split_with_empty_pieces() {
    assert_eq!(strings(split(&chars("a,,b,"), Sep::Comma, true)), vec!["a", "", "b", ""]);
    assert_eq!(strings(split(&chars(""), Sep::Comma, true)), vec![""]);
    assert_eq!(strings(split(&chars("x\ny"), Sep::Line, true)), vec!["x", "y"]);
}

#[test]
fn test_unicode_white_space_separates() {
    let text = "a\u{00A0}b\u{3000}c\u{2003}d\u{0085}e";
    assert_eq!(strings(split(&chars(text), Sep::Space, false)), vec!["a", "b", "c", "d", "e"]);
    // U+200B is not white space.
    assert_eq!(strings(split(&chars("a\u{200B}b"), Sep::Space, false)), vec!["a\u{200B}b"]);
}

#[test]
fn test_join_undoes_split_with_empty_pieces() {
    let text = chars("/a//b/");
    let parts = split(&text, Sep::Slash, true);
    assert_eq!(join(&parts, &chars("/")), text);
    assert_eq!(join(&Vec::new(), &chars("/")), chars(""));
    assert_eq!(join(&vec![chars("a"), chars("b")], &chars(", ")), chars("a, b"));
}

#[test]
fn test_slice_and_trim() {
    assert_eq!(slice(&chars("abcdef"), 2, 4), chars("cd"));
    assert_eq!(slice(&chars("abc"), 3, 3), chars(""));
    assert_eq!(trim_start_of(&chars("  \t x y "), Sep::Space), chars("x y "));
    assert_eq!(trim_end_of(&chars(" x y \r\n"), Sep::Space), chars(" x y"));
    assert_eq!(trim_start_of(&chars("///a/"), Sep::Slash), chars("a/"));
    assert_eq!(trim_end_of(&chars("///"), Sep::Slash), chars(""));
    assert_eq!(before_char(&chars("ab\"cd\""), '"'), chars("ab"));
    assert_eq!(before_char(&chars("abcd"), '"'), chars("abcd"));
    assert_eq!(before_char(&chars("\"x"), '"'), chars(""));
}

#[test]
fn test_decimal() {
    let mut out = chars("n=");
    push_decimal(&mut out, 0);
    assert_eq!(out, chars("n=0"));
    let mut out = Vec::new();
    push_decimal(&mut out, 10240);
    assert_eq!(out, chars("10240"));
    let mut out = Vec::new();
    push_decimal(&mut out, u64::MAX);
    assert_eq!(out, chars("18446744073709551615"));
}

#[test]
fn test_parse_u32() {
    assert_eq!(parse_u32(&chars("0")), Some(0));
    assert_eq!(parse_u32(&chars("36")), Some(36));
    assert_eq!(parse_u32(&chars("+7")), Some(7));
    assert_eq!(parse_u32(&chars("007")), Some(7));
    assert_eq!(parse_u32(&chars("4294967295")), Some(u32::MAX));
    assert_eq!(parse_u32(&chars("4294967296")), None);
    assert_eq!(parse_u32(&chars("99999999999999999999999")), None);
    assert_eq!(parse_u32(&chars("")), None);
    assert_eq!(parse_u32(&chars("+")), None);
    assert_eq!(parse_u32(&chars("-1")), None);
    assert_eq!(parse_u32(&chars("1a")), None);
    assert_eq!(parse_u32(&chars(" 1")), None);
    assert_eq!(parse_u32(&chars("１")), None);
}

#[test]
fn test_parse_u32_agrees_with_std() {
    for text in ["0", "12", "+12", "++1", "4294967295", "4294967296", "", "x", "1 ", "00"] {
        assert_eq!(parse_u32(&chars(text)), text.parse::<u32>().ok(), "for {:?}", text);
    }
}
