use le_browser::text::{
    dec_string, percent_encode, str_contains, str_contains_char, str_contains_lower, str_eq,
    str_starts_with, trim,
};

#[test]
fn decimal_rendering_is_exact() {
    assert_eq!(dec_string(0), "0");
    assert_eq!(dec_string(7), "7");
    assert_eq!(dec_string(10), "10");
    assert_eq!(dec_string(120), "120");
    assert_eq!(dec_string(98765), "98765");
}

#[test]
fn percent_encoding_keeps_unreserved_and_escapes_the_rest() {
    assert_eq!(percent_encode("abcXYZ019-._~"), "abcXYZ019-._~");
    assert_eq!(percent_encode("a b"), "a%20b");
    assert_eq!(percent_encode("a&b=c?d/e"), "a%26b%3Dc%3Fd%2Fe");
    assert_eq!(percent_encode(""), "");
    // non-ASCII characters pass through unescaped
    assert_eq!(percent_encode("café"), "café");
}

#[test]
fn trimming_strips_both_ends_only() {
    assert_eq!(trim("  hello  "), "hello");
    assert_eq!(trim("\t a b \n"), "a b");
    assert_eq!(trim("   "), "");
    assert_eq!(trim(""), "");
    assert_eq!(trim("x"), "x");
}

#[test]
fn substring_search_is_verbatim_and_folded() {
    assert!(str_contains("GitHub", "itH"));
    assert!(!str_contains("GitHub", "ith"));
    assert!(str_contains_lower("GitHub", "ITH"));
    assert!(str_contains_lower("GitHub", "github"));
    assert!(!str_contains_lower("GitHub", "lab"));
    assert!(str_contains("anything", ""));
}

#[test]
fn equality_prefix_and_char_search() {
    assert!(str_eq("same", "same"));
    assert!(!str_eq("same", "sam"));
    assert!(str_starts_with("https://x", "http"));
    assert!(!str_starts_with("ftp://x", "http"));
    assert!(str_contains_char("a.b", '.'));
    assert!(!str_contains_char("ab", '.'));
}
