use ferroscope::text::contains_sub;
use ferroscope::text::find_sub;
use ferroscope::text::first_token;
use ferroscope::text::starts_with_sub;
use ferroscope::text::str_eq;
use ferroscope::text::trim_sub;

#[test]
fn contains_finds_inner_substring() {
    assert!(contains_sub("Process 123 launched", "Process"));
    assert!(contains_sub("Process 123 launched", "launched"));
    assert!(!contains_sub("Process 123 launched", "stopped"));
}

#[test]
fn contains_empty_pattern_and_empty_text() {
    assert!(contains_sub("anything", ""));
    assert!(contains_sub("", ""));
    assert!(!contains_sub("", "x"));
}

#[test]
fn find_returns_first_occurrence() {
    assert_eq!(find_sub("a at b at c", " at "), Some(1));
    assert_eq!(find_sub("no match here", " at "), None);
    assert_eq!(find_sub("abcabc", "abc"), Some(0));
    assert_eq!(find_sub("xxabc", "abc"), Some(2));
}

#[test]
fn starts_with_checks_prefix_only() {
    assert!(starts_with_sub("process launch -v", "process launch"));
    assert!(!starts_with_sub("run process launch", "process launch"));
    assert!(starts_with_sub("abc", ""));
    assert!(!starts_with_sub("ab", "abc"));
}

#[test]
fn trim_removes_surrounding_whitespace() {
    assert_eq!(trim_sub("  (lldb)  \t"), "(lldb)");
    assert_eq!(trim_sub("\r\n"), "");
    assert_eq!(trim_sub("no-trim"), "no-trim");
    assert_eq!(trim_sub(" inner space kept "), "inner space kept");
}

#[test]
fn first_token_skips_leading_whitespace() {
    assert_eq!(first_token("  main.rs:10:5 extra"), Some("main.rs:10:5".to_string()));
    assert_eq!(first_token("word"), Some("word".to_string()));
    assert_eq!(first_token("   \t "), None);
    assert_eq!(first_token(""), None);
}

#[test]
fn str_eq_compares_contents() {
    assert!(str_eq("abc", "abc"));
    assert!(!str_eq("abc", "abd"));
    assert!(!str_eq("abc", "ab"));
    assert!(str_eq("", ""));
}
