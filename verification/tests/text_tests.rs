use penscript::text::count_words;
use penscript::text::make_title;
use penscript::text::str_eq;
use penscript::text::title_from_content;
use penscript::text::u64_to_string;
use penscript::text::is_blank_str;
use penscript::text::is_default_title;

#[test]
fn count_words_basics() {
    assert_eq!(count_words(""), 0);
    assert_eq!(count_words("   \t\n"), 0);
    assert_eq!(count_words("one"), 1);
    assert_eq!(count_words("  one  two\tthree\nfour "), 4);
    assert_eq!(count_words("a  b"), 2);
}

#[test]
fn count_words_unicode_whitespace() {
    assert_eq!(count_words("one\u{00A0}two"), 2);
    assert_eq!(count_words("\u{3000}word\u{2028}"), 1);
}

#[test]
fn blank_detection() {
    assert!(is_blank_str(""));
    assert!(is_blank_str(" \t \u{00A0}"));
    assert!(!is_blank_str(" x "));
}

#[test]
fn default_title_pattern() {
    assert!(is_default_title("Note 2024-06-01"));
    assert!(is_default_title("Note 2024-06-01 (2)"));
    assert!(!is_default_title("Shopping"));
    assert!(!is_default_title("Note 19"));
    assert!(!is_default_title("note 2024"));
}

#[test]
fn title_candidate_plain_line() {
    assert_eq!(title_from_content("Groceries\nmilk\neggs"), Some("Groceries".to_string()));
}

#[test]
fn title_candidate_skips_blank_lines() {
    assert_eq!(title_from_content("\n   \nSecond line wins"), Some("Second line wins".to_string()));
}

#[test]
fn title_candidate_trims() {
    assert_eq!(title_from_content("   padded title   \nrest"), Some("padded title".to_string()));
}

#[test]
fn title_candidate_too_short() {
    assert_eq!(title_from_content("ab\nlonger line here"), None);
    assert_eq!(title_from_content("abc"), Some("abc".to_string()));
}

#[test]
fn title_candidate_all_blank() {
    assert_eq!(title_from_content(""), None);
    assert_eq!(title_from_content(" \n\t\n"), None);
}

#[test]
fn title_candidate_truncates_long_line() {
    let line = "Hello world this is a longer first line used as a title candidate";
    assert!(line.chars().count() > 50);
    let expected = "Hello world this is a longer first line used as...";
    assert_eq!(title_from_content(line), Some(expected.to_string()));
}

#[test]
fn title_candidate_boundary_fifty() {
    let fifty = "x".repeat(50);
    assert_eq!(title_from_content(&fifty), Some(fifty.clone()));
    let fifty_one = "x".repeat(51);
    let truncated = format!("{}...", "x".repeat(47));
    assert_eq!(title_from_content(&fifty_one), Some(truncated));
}

#[test]
fn decimal_rendering() {
    assert_eq!(u64_to_string(0), "0");
    assert_eq!(u64_to_string(7), "7");
    assert_eq!(u64_to_string(10), "10");
    assert_eq!(u64_to_string(205), "205");
    assert_eq!(u64_to_string(18446744073709551615), "18446744073709551615");
}

#[test]
fn generated_title_shapes() {
    assert_eq!(make_title("2024-01-01", 1), "Note 2024-01-01");
    assert_eq!(make_title("2024-01-01", 2), "Note 2024-01-01 (2)");
    assert_eq!(make_title("2024-01-01", 12), "Note 2024-01-01 (12)");
}

#[test]
fn str_eq_matches_equality() {
    assert!(str_eq("", ""));
    assert!(str_eq("abc", "abc"));
    assert!(!str_eq("abc", "abd"));
    assert!(!str_eq("abc", "abcd"));
}
