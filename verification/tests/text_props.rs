use arec_agent::text::contains_str;
use arec_agent::text::find_str;
use arec_agent::text::find_str_from;
use arec_agent::text::starts_with_str;
use arec_agent::text::trim_str;
use arec_agent::text::u64_to_string;

#[test]
fn find_str_first_occurrence() {
    assert_eq!(find_str("abcabc", "bc"), Some(1));
    assert_eq!(find_str("abcabc", "abc"), Some(0));
    assert_eq!(find_str("abc", "d"), None);
    assert_eq!(find_str("", "a"), None);
    assert_eq!(find_str("abc", ""), Some(0));
}

#[test]
fn find_str_from_skips_earlier_matches() {
    assert_eq!(find_str_from("abcabc", "bc", 2), Some(4));
    assert_eq!(find_str_from("abcabc", "bc", 5), None);
    assert_eq!(find_str_from("abcabc", "", 3), Some(3));
    assert_eq!(find_str_from("abc", "a", 9), None);
}

#[test]
fn contains_str_basics() {
    assert!(contains_str("the quick brown fox", "quick"));
    assert!(!contains_str("the quick brown fox", "slow"));
    assert!(contains_str("anything", ""));
}

#[test]
fn starts_with_str_basics() {
    assert!(starts_with_str("TOOL_ERROR: boom", "TOOL_ERROR:"));
    assert!(!starts_with_str("TOOL ERROR: boom", "TOOL_ERROR:"));
    assert!(starts_with_str("abc", ""));
    assert!(!starts_with_str("ab", "abc"));
}

#[test]
fn trim_str_removes_blanks_both_ends() {
    assert_eq!(trim_str("  hi\n\t "), "hi");
    assert_eq!(trim_str("hi"), "hi");
    assert_eq!(trim_str(""), "");
    assert_eq!(trim_str(" \t\r\n"), "");
    assert_eq!(trim_str("a b"), "a b");
}

#[test]
fn u64_to_string_exact() {
    assert_eq!(u64_to_string(0), "0");
    assert_eq!(u64_to_string(7), "7");
    assert_eq!(u64_to_string(10), "10");
    assert_eq!(u64_to_string(12345), "12345");
    assert_eq!(u64_to_string(u64::MAX), "18446744073709551615");
}
