use dink_bridge::messages::{lookup, ExecResult};
use dink_bridge::text::{
    chars_of, joined, contains_str, contains_substring, owned, parse_bool, parse_decimal,
    str_eq,
};

#[test]
fn decimal_numerals() {
    assert_eq!(parse_decimal("0", u64::MAX), Some(0));
    assert_eq!(parse_decimal("42", u64::MAX), Some(42));
    assert_eq!(parse_decimal("+42", u64::MAX), Some(42));
    assert_eq!(parse_decimal("007", u64::MAX), Some(7));
    assert_eq!(parse_decimal("18446744073709551615", u64::MAX), Some(u64::MAX));
    assert_eq!(parse_decimal("18446744073709551616", u64::MAX), None);
    assert_eq!(parse_decimal("99999999999999999999999", u64::MAX), None);
    assert_eq!(parse_decimal("255", 255), Some(255));
    assert_eq!(parse_decimal("256", 255), None);
    assert_eq!(parse_decimal("0", 0), Some(0));
    assert_eq!(parse_decimal("1", 0), None);
}

#[test]
fn decimal_numerals_agree_with_the_standard_parser() {
    for s in ["", "+", "-", "-1", "++1", "1+", " 1", "1 ", "1_000", "0x10", "1.0", "\u{663}", "12a", "+0"] {
        assert_eq!(parse_decimal(s, u64::MAX), s.parse::<u64>().ok(), "on {s:?}");
    }
    for s in ["0", "65535", "65536", "+65535", "000065535", "70000"] {
        assert_eq!(parse_decimal(s, 65535), s.parse::<u16>().ok().map(u64::from), "on {s:?}");
    }
}

#[test]
fn truth_values() {
    assert_eq!(parse_bool("true"), Some(true));
    assert_eq!(parse_bool("false"), Some(false));
    for s in ["", "True", "FALSE", "1", "0", " true", "true ", "yes"] {
        assert_eq!(parse_bool(s), None);
        assert_eq!(parse_bool(s), s.parse::<bool>().ok());
    }
}

#[test]
fn substrings() {
    assert!(contains_substring("my-peers", "peer"));
    assert!(contains_substring("peer", "peer"));
    assert!(contains_substring("anything", ""));
    assert!(contains_substring("", ""));
    assert!(contains_substring("ppeer", "peer"));
    assert!(contains_substring("pepeer", "peer"));
    assert!(!contains_substring("pee", "peer"));
    assert!(!contains_substring("", "peer"));
    assert!(!contains_substring("p e e r", "peer"));
    for (s, p) in [("abcabd", "abd"), ("aaab", "aab"), ("h\u{e9}llo", "\u{e9}l"), ("abc", "abcd")] {
        assert_eq!(contains_substring(s, p), s.contains(p));
    }
}

#[test]
fn string_helpers() {
    assert!(str_eq("a\u{e9}", "a\u{e9}"));
    assert!(!str_eq("a", "A"));
    assert!(!str_eq("a", "ab"));
    assert!(str_eq("", ""));
    assert_eq!(chars_of("h\u{e9}!"), vec!['h', '\u{e9}', '!']);
    assert_eq!(joined("ab", "cd"), "abcd");
    assert_eq!(owned("x"), "x");
    let list = vec!["a".to_string(), "*".to_string()];
    assert!(contains_str(&list, "*"));
    assert!(!contains_str(&list, "b"));
    assert!(!contains_str(&Vec::new(), ""));
}

#[test]
fn lookup_finds_the_first_member() {
    let m = vec![
        ("a".to_string(), "1".to_string()),
        ("b".to_string(), "2".to_string()),
        ("a".to_string(), "3".to_string()),
    ];
    assert_eq!(lookup(&m, "a").map(String::as_str), Some("1"));
    assert_eq!(lookup(&m, "b").map(String::as_str), Some("2"));
    assert_eq!(lookup(&m, "c"), None);
    assert_eq!(lookup(&Vec::new(), "a"), None);
}

#[test]
fn default_exec_result_is_empty_success() {
    let r = ExecResult::default();
    assert_eq!(r.exit_code, 0);
    assert_eq!(r.stdout, "");
    assert_eq!(r.stderr, "");
}
