use ind_persistence::text::{
    char_is_whitespace, concat3, decimal_i64, decimal_u64, escape_like_pattern, starts_with, str_eq,
    strip_prefix_or_self_exec, strip_suffix_or_self_exec, trim,
};

#[test]
fn escape_like_pattern_escapes_wildcards_and_backslash() {
    assert_eq!(escape_like_pattern("50%_a\\b"), "50\\%\\_a\\\\b");
    assert_eq!(escape_like_pattern("plain"), "plain");
    assert_eq!(escape_like_pattern(""), "");
}

/// A LIKE reader: an escape takes the next character literally.
fn unescape(t: &str) -> String {
    let mut out = String::new();
    let mut chars = t.chars();
    while let Some(c) = chars.next() {
        if c == '\\' {
            if let Some(n) = chars.next() {
                out.push(n);
                continue;
            }
        }
        out.push(c);
    }
    out
}

#[test]
fn escaped_text_reads_back_as_itself() {
    for s in ["100%", "a_b", "\\\\%_", "x\\"] {
        assert_eq!(unescape(&escape_like_pattern(s)), s);
    }
}

#[test]
fn trim_drops_unicode_whitespace_at_both_ends() {
    assert_eq!(trim("  \t hello world \n"), "hello world");
    assert_eq!(trim("\u{a0}x\u{2003}"), "x");
    assert_eq!(trim("   "), "");
}

#[test]
fn decimal_text_of_integers() {
    assert_eq!(decimal_i64(0), "0");
    assert_eq!(decimal_i64(-42), "-42");
    assert_eq!(decimal_i64(1234567890), "1234567890");
    assert_eq!(decimal_i64(i64::MIN), i64::MIN.to_string());
    assert_eq!(decimal_i64(i64::MAX), i64::MAX.to_string());
    assert_eq!(decimal_u64(u64::MAX), u64::MAX.to_string());
}

#[test]
fn prefix_and_suffix_stripping() {
    assert_eq!(strip_prefix_or_self_exec("col_abc", "col_"), "abc");
    assert_eq!(strip_prefix_or_self_exec("abc", "col_"), "abc");
    assert_eq!(strip_suffix_or_self_exec("10.0.0.1/32", "/32"), "10.0.0.1");
    assert_eq!(strip_suffix_or_self_exec("10.0.0.0/24", "/32"), "10.0.0.0/24");
    assert_eq!(strip_suffix_or_self_exec("/3", "/32"), "/3");
}

#[test]
fn small_text_helpers() {
    assert!(starts_with("entry-content-1", "entry-content-"));
    assert!(!starts_with("entry", "entry-content-"));
    assert!(str_eq("a", "a"));
    assert!(!str_eq("a", "A"));
    assert_eq!(concat3("a", "b", "c"), "abc");
    assert!(char_is_whitespace('\u{3000}'));
    assert!(!char_is_whitespace('x'));
}
