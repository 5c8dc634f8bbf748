use antiscam::config::KeywordGroups;
use antiscam::matching::{contains_str, group_fully_matches, is_scam};

fn kw_group(words: &[&str]) -> KeywordGroups {
    KeywordGroups { keywords: words.iter().map(|w| w.to_string()).collect() }
}

#[test]
fn substring_found() {
    assert!(contains_str("hello world", "lo w"));
    assert!(contains_str("hello", "hello"));
    assert!(contains_str("hello", "h"));
    assert!(contains_str("hello", "o"));
}

#[test]
fn substring_absent() {
    assert!(!contains_str("hello", "world"));
    assert!(!contains_str("", "a"));
    assert!(!contains_str("abc", "abcd"));
}

#[test]
fn empty_keyword_matches_everything() {
    assert!(contains_str("anything", ""));
    assert!(contains_str("", ""));
    assert!(is_scam("whatever text", &vec![kw_group(&[""])]));
}

#[test]
fn all_keywords_required_within_group() {
    let groups = vec![kw_group(&["bitcoin", "giveaway"])];
    assert!(is_scam("send bitcoin get giveaway now", &groups));
    assert!(!is_scam("send bitcoin now", &groups));
    assert!(!is_scam("get giveaway now", &groups));
    assert!(!is_scam("hello world", &groups));
}

#[test]
fn any_group_suffices_across_groups() {
    let groups = vec![kw_group(&["a", "b"]), kw_group(&["c"])];
    assert!(is_scam("c", &groups));
    assert!(!is_scam("a", &groups));
    assert!(is_scam("b a", &groups));
    assert!(!is_scam("d", &groups));
}

#[test]
fn group_fully_matches_checks_every_keyword() {
    let g = kw_group(&["foo", "bar"]);
    assert!(group_fully_matches("bar foo", &g));
    assert!(!group_fully_matches("bar baz", &g));
}

#[test]
fn no_groups_means_no_scam() {
    assert!(!is_scam("anything at all", &Vec::new()));
}
