use gachitore_api::text::{
    chars_of, contains_text, rfind_char, str_contains, str_eq, strip_prefix, trim_end_matches,
};

#[test]
fn equal_texts_are_equal() {
    assert!(str_eq("", ""));
    assert!(str_eq("abc", "abc"));
    assert!(str_eq("日本語", "日本語"));
    assert!(!str_eq("abc", "abd"));
    assert!(!str_eq("abc", "ab"));
    assert!(!str_eq("", "a"));
    assert!(!str_eq("abc", "ABC"));
    assert!(!str_eq("é", "e\u{301}"));
}

#[test]
fn prefix_is_stripped_once() {
    assert_eq!(strip_prefix("Bearer x", "Bearer "), Some("x"));
    assert_eq!(strip_prefix("abc", ""), Some("abc"));
    assert_eq!(strip_prefix("abc", "abc"), Some(""));
    assert_eq!(strip_prefix("aab", "a"), Some("ab"));
    assert_eq!(strip_prefix("abc", "abcd"), None);
    assert_eq!(strip_prefix("abc", "b"), None);
    assert_eq!(strip_prefix("", "a"), None);
    assert_eq!(strip_prefix("日本語です", "日本"), Some("語です"));
}

#[test]
fn trailing_run_is_trimmed() {
    assert_eq!(trim_end_matches("a//", '/'), "a");
    assert_eq!(trim_end_matches("a/b/", '/'), "a/b");
    assert_eq!(trim_end_matches("/a", '/'), "/a");
    assert_eq!(trim_end_matches("///", '/'), "");
    assert_eq!(trim_end_matches("", '/'), "");
    assert_eq!(trim_end_matches("語語", '語'), "");
    assert_eq!(trim_end_matches("a/ ", '/'), "a/ ");
}

#[test]
fn substring_is_found_wherever_it_stands() {
    assert!(str_contains("hello world", "o w"));
    assert!(str_contains("hello", "hello"));
    assert!(str_contains("hello", ""));
    assert!(str_contains("", ""));
    assert!(str_contains("hello", "lo"));
    assert!(str_contains("hello", "h"));
    assert!(!str_contains("hello", "hello!"));
    assert!(!str_contains("hello", "ol"));
    assert!(!str_contains("", "a"));
    assert!(str_contains("痛みがあるけど頑張る", "あるけど"));
    assert!(!str_contains("aab", "abb"));
    assert!(str_contains("aaab", "aab"));
    let hay = chars_of("abcabc");
    assert!(contains_text(&hay, "cab"));
    assert!(!contains_text(&hay, "cba"));
}

#[test]
fn characters_are_listed_in_order() {
    assert_eq!(chars_of("aé語"), vec!['a', 'é', '語']);
    assert!(chars_of("").is_empty());
}

#[test]
fn last_position_counts_characters() {
    assert_eq!(rfind_char("a.b.c", '.'), Some(3));
    assert_eq!(rfind_char("abc", '.'), None);
    assert_eq!(rfind_char("", '.'), None);
    assert_eq!(rfind_char(".", '.'), Some(0));
    assert_eq!(rfind_char("語語.x", '.'), Some(2));
}
