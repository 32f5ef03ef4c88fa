use benny::digits::u64_to_string;
use benny::text::split_whitespace_tokens;
use benny::text::str_eq;
use benny::text::str_starts_with;
use benny::text::trim_str;

#[test]
fn trim_removes_leading_and_trailing_whitespace() {
    assert_eq!(trim_str("  ?ping  "), "?ping");
    assert_eq!(trim_str("\t hi \n"), "hi");
    assert_eq!(trim_str("hi"), "hi");
    assert_eq!(trim_str(""), "");
    assert_eq!(trim_str("   "), "");
}

#[test]
fn trim_keeps_inner_whitespace() {
    assert_eq!(trim_str(" a b "), "a b");
}

#[test]
fn split_yields_maximal_nonspace_runs_in_order() {
    assert_eq!(split_whitespace_tokens("prefix add !"), vec!["prefix", "add", "!"]);
    assert_eq!(split_whitespace_tokens("  a \t b\nc  "), vec!["a", "b", "c"]);
    assert_eq!(split_whitespace_tokens("one"), vec!["one"]);
}

#[test]
fn split_of_blank_text_is_empty() {
    assert!(split_whitespace_tokens("").is_empty());
    assert!(split_whitespace_tokens(" \t\n ").is_empty());
}

#[test]
fn split_agrees_with_std() {
    for s in ["", " ", "a", " a b  c ", "x\u{000B}y", "\u{00A0}z\u{00A0}"] {
        let mine = split_whitespace_tokens(s);
        let std_toks: Vec<&str> = s.split_whitespace().collect();
        assert_eq!(mine, std_toks);
    }
}

#[test]
fn trim_agrees_with_std() {
    for s in ["", "  x  ", "\u{00A0}pad\u{00A0}", "\r\nline\r\n", "mid dle"] {
        assert_eq!(trim_str(s), s.trim());
    }
}

#[test]
fn starts_with_checks_a_prefix() {
    assert!(str_starts_with("?ping", "?"));
    assert!(str_starts_with("??", "??"));
    assert!(!str_starts_with("ping", "?"));
    assert!(!str_starts_with("?", "??"));
    assert!(str_starts_with("anything", ""));
}

#[test]
fn str_eq_compares_characters() {
    assert!(str_eq("prefix", "prefix"));
    assert!(!str_eq("prefix", "prefi"));
    assert!(!str_eq("a", "b"));
    assert!(str_eq("", ""));
}

#[test]
fn decimal_rendering_is_exact() {
    assert_eq!(u64_to_string(0), "0");
    assert_eq!(u64_to_string(7), "7");
    assert_eq!(u64_to_string(10), "10");
    assert_eq!(u64_to_string(1234567890), "1234567890");
    assert_eq!(u64_to_string(u64::MAX), "18446744073709551615");
}
