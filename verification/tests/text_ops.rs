use dev_console::text::{parse_u64, str_eq, str_has_prefix, tokenize, u64_to_string};

#[test]
fn tokenize_splits_on_whitespace() {
    let toks = tokenize("log hello 2");
    assert_eq!(toks, vec!["log".to_string(), "hello".to_string(), "2".to_string()]);
}

#[test]
fn tokenize_collapses_runs_and_edges() {
    let toks = tokenize("   a \t b  ");
    assert_eq!(toks, vec!["a".to_string(), "b".to_string()]);
}

#[test]
fn tokenize_blank_input_yields_nothing() {
    assert_eq!(tokenize("").len(), 0);
    assert_eq!(tokenize("   \t ").len(), 0);
}

#[test]
fn parse_u64_accepts_digits() {
    assert_eq!(parse_u64("0"), Some(0));
    assert_eq!(parse_u64("123"), Some(123));
    assert_eq!(parse_u64("18446744073709551615"), Some(u64::MAX));
}

#[test]
fn parse_u64_rejects_non_digits_and_overflow() {
    assert_eq!(parse_u64(""), None);
    assert_eq!(parse_u64("abc"), None);
    assert_eq!(parse_u64("-1"), None);
    assert_eq!(parse_u64("12x"), None);
    assert_eq!(parse_u64("18446744073709551616"), None);
}

#[test]
fn u64_to_string_renders_decimal() {
    assert_eq!(u64_to_string(0), "0");
    assert_eq!(u64_to_string(7), "7");
    assert_eq!(u64_to_string(12345), "12345");
    assert_eq!(u64_to_string(u64::MAX), "18446744073709551615");
}

#[test]
fn round_trip_render_then_parse() {
    for n in [0u64, 1, 9, 10, 20250101, u64::MAX] {
        assert_eq!(parse_u64(&u64_to_string(n)), Some(n));
    }
}

#[test]
fn prefix_and_equality_checks() {
    assert!(str_has_prefix("log", "l"));
    assert!(str_has_prefix("log", ""));
    assert!(str_has_prefix("log", "log"));
    assert!(!str_has_prefix("log", "loga"));
    assert!(!str_has_prefix("log", "x"));
    assert!(str_eq("same", "same"));
    assert!(!str_eq("same", "sama"));
    assert!(!str_eq("same", "sam"));
}
