use smtp_bridge::text::eq_fold_ascii;
use smtp_bridge::text::is_blank;
use smtp_bridge::text::parse_bool_token;
use smtp_bridge::text::parse_u16;
use smtp_bridge::text::trim_str;

#[test]
fn blankness_of_plain_and_unicode_whitespace() {
    assert!(is_blank(""));
    assert!(is_blank("  \t\r\n"));
    assert!(is_blank(" \u{00A0}\u{2003}\u{3000} "));
    assert!(!is_blank(" a "));
    assert!(!is_blank("."));
}

#[test]
fn trimming_strips_both_ends() {
    assert_eq!(trim_str("  a b  "), "a b");
    assert_eq!(trim_str("a"), "a");
    assert_eq!(trim_str(""), "");
    assert_eq!(trim_str(" \t "), "");
    assert_eq!(trim_str("\u{3000}x\u{3000}"), "x");
}

#[test]
fn u16_parsing_accepts_what_std_accepts() {
    assert_eq!(parse_u16("0"), Some(0));
    assert_eq!(parse_u16("587"), Some(587));
    assert_eq!(parse_u16("007"), Some(7));
    assert_eq!(parse_u16("+25"), Some(25));
    assert_eq!(parse_u16("65535"), Some(65535));
}

#[test]
fn u16_parsing_rejects_what_std_rejects() {
    assert_eq!(parse_u16(""), None);
    assert_eq!(parse_u16("+"), None);
    assert_eq!(parse_u16("65536"), None);
    assert_eq!(parse_u16("99999999999999999999"), None);
    assert_eq!(parse_u16("12a"), None);
    assert_eq!(parse_u16(" 12"), None);
    assert_eq!(parse_u16("12 "), None);
    assert_eq!(parse_u16("-1"), None);
    assert_eq!(parse_u16("++1"), None);
}

#[test]
fn ascii_case_folding_comparison() {
    assert!(eq_fold_ascii("TRUE", "true"));
    assert!(eq_fold_ascii("tRuE", "true"));
    assert!(eq_fold_ascii("on", "on"));
    assert!(!eq_fold_ascii("truex", "true"));
    assert!(!eq_fold_ascii("tru", "true"));
    assert!(!eq_fold_ascii("trze", "true"));
}

#[test]
fn bool_tokens_are_trimmed_and_folded() {
    assert_eq!(parse_bool_token("1"), Some(true));
    assert_eq!(parse_bool_token(" TrUe "), Some(true));
    assert_eq!(parse_bool_token("yes"), Some(true));
    assert_eq!(parse_bool_token("\tON\n"), Some(true));
    assert_eq!(parse_bool_token("0"), Some(false));
    assert_eq!(parse_bool_token("False"), Some(false));
    assert_eq!(parse_bool_token(" no"), Some(false));
    assert_eq!(parse_bool_token("OFF "), Some(false));
    assert_eq!(parse_bool_token("maybe"), None);
    assert_eq!(parse_bool_token(""), None);
    assert_eq!(parse_bool_token("o n"), None);
}
