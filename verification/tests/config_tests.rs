use antiscam::chat::{ChatCategory, ChatInfo};
use antiscam::config::{Action, Config, Group, KeywordGroups};
use antiscam::error::ConfigError;

fn entry(username: &str, log_id: Option<i64>, action: Option<&str>) -> Group {
    Group {
        username: username.to_string(),
        log_id,
        action: action.map(|a| a.to_string()),
    }
}

fn keyword_groups(groups: &[&[&str]]) -> Vec<KeywordGroups> {
    groups
        .iter()
        .map(|g| KeywordGroups { keywords: g.iter().map(|w| w.to_string()).collect() })
        .collect()
}

fn supergroup(handle: &str) -> ChatInfo {
    ChatInfo {
        id: 10,
        category: ChatCategory::Supergroup { username: Some(handle.to_string()) },
    }
}

#[test]
fn action_tokens_parse_case_insensitively() {
    assert_eq!(Action::try_from("kick".to_string()), Ok(Action::Kick));
    assert_eq!(Action::try_from("KICK".to_string()), Ok(Action::Kick));
    assert_eq!(Action::try_from("Ban".to_string()), Ok(Action::Ban));
    assert_eq!(Action::try_from("none".to_string()), Ok(Action::Ignore));
    assert_eq!(Action::try_from("NoNe".to_string()), Ok(Action::Ignore));
}

#[test]
fn unknown_action_token_is_rejected() {
    assert_eq!(
        Action::try_from("delete".to_string()),
        Err(ConfigError::ActionError("delete".to_string()))
    );
    assert_eq!(Action::try_from("".to_string()), Err(ConfigError::ActionError("".to_string())));
}

#[test]
fn no_chat_entries_fails() {
    let r = Config::new(None, None, Vec::new(), keyword_groups(&[&["x"]]));
    assert_eq!(r.unwrap_err(), ConfigError::NoGroup);
}

#[test]
fn no_keyword_groups_fails() {
    let r = Config::new(None, None, vec![entry("g", None, None)], Vec::new());
    assert_eq!(r.unwrap_err(), ConfigError::NoKeywordsGroup);
}

#[test]
fn invalid_chat_action_fails_with_token() {
    let groups = vec![entry("g1", None, Some("kick")), entry("g2", None, Some("mute"))];
    let r = Config::new(None, None, groups, keyword_groups(&[&["x"]]));
    assert_eq!(r.unwrap_err(), ConfigError::ActionError("mute".to_string()));
}

#[test]
fn invalid_default_action_fails_with_token() {
    let r = Config::new(
        None,
        Some("warn".to_string()),
        vec![entry("g", None, None)],
        keyword_groups(&[&["x"]]),
    );
    assert_eq!(r.unwrap_err(), ConfigError::ActionError("warn".to_string()));
}

#[test]
fn default_action_parses() {
    let cfg = Config::new(
        None,
        Some("BAN".to_string()),
        vec![entry("g", None, None)],
        keyword_groups(&[&["x"]]),
    )
    .unwrap();
    assert_eq!(cfg.default_action, Some(Action::Ban));
    assert_eq!(cfg.token, None);
}

#[test]
fn keywords_are_lowercased_at_construction() {
    let cfg = Config::new(
        None,
        None,
        vec![entry("g", None, None)],
        keyword_groups(&[&["BitCoin", "GiveAway"], &["FREE"]]),
    )
    .unwrap();
    assert_eq!(cfg.keywords_groups[0].keywords, vec!["bitcoin".to_string(), "giveaway".to_string()]);
    assert_eq!(cfg.keywords_groups[1].keywords, vec!["free".to_string()]);
}

#[test]
fn listed_supergroup_is_legit() {
    let cfg = Config::new(
        None,
        None,
        vec![entry("group1", Some(99), Some("kick"))],
        keyword_groups(&[&["x"]]),
    )
    .unwrap();
    assert!(cfg.is_chat_legit(&supergroup("group1")));
    assert!(!cfg.is_chat_legit(&supergroup("group2")));
}

#[test]
fn non_supergroups_are_never_legit() {
    let cfg = Config::new(
        None,
        None,
        vec![entry("group1", None, None)],
        keyword_groups(&[&["x"]]),
    )
    .unwrap();
    let private = ChatInfo { id: 1, category: ChatCategory::Private };
    let channel = ChatInfo { id: 2, category: ChatCategory::Channel };
    let basic = ChatInfo { id: 3, category: ChatCategory::Group };
    let anonymous = ChatInfo { id: 4, category: ChatCategory::Supergroup { username: None } };
    assert!(!cfg.is_chat_legit(&private));
    assert!(!cfg.is_chat_legit(&channel));
    assert!(!cfg.is_chat_legit(&basic));
    assert!(!cfg.is_chat_legit(&anonymous));
}

#[test]
fn log_id_and_chat_action_are_returned() {
    let cfg = Config::new(
        None,
        Some("ban".to_string()),
        vec![entry("group1", Some(42), Some("kick")), entry("group2", None, None)],
        keyword_groups(&[&["x"]]),
    )
    .unwrap();
    assert_eq!(cfg.get_log_id(&supergroup("group1")), Some(42));
    assert_eq!(cfg.get_group_action(&supergroup("group1")), Some(Action::Kick));
    assert_eq!(cfg.get_log_id(&supergroup("group2")), None);
    assert_eq!(cfg.get_group_action(&supergroup("group2")), None);
}

#[test]
fn repeated_handle_takes_last_entry() {
    let cfg = Config::new(
        None,
        None,
        vec![entry("g", Some(1), Some("kick")), entry("g", Some(2), Some("ban"))],
        keyword_groups(&[&["x"]]),
    )
    .unwrap();
    assert_eq!(cfg.get_log_id(&supergroup("g")), Some(2));
    assert_eq!(cfg.get_group_action(&supergroup("g")), Some(Action::Ban));
}

#[test]
fn chat_action_overrides_default() {
    let cfg = Config::new(
        None,
        Some("ban".to_string()),
        vec![entry("group1", None, Some("kick"))],
        keyword_groups(&[&["x"]]),
    )
    .unwrap();
    assert_eq!(cfg.resolve(&supergroup("group1")), Action::Kick);
}

#[test]
fn default_applies_without_chat_action() {
    let cfg = Config::new(
        None,
        Some("ban".to_string()),
        vec![entry("group1", None, None)],
        keyword_groups(&[&["x"]]),
    )
    .unwrap();
    assert_eq!(cfg.resolve(&supergroup("group1")), Action::Ban);
}

#[test]
fn no_action_and_no_default_resolves_to_ignore() {
    let cfg = Config::new(
        None,
        None,
        vec![entry("group1", None, None)],
        keyword_groups(&[&["x"]]),
    )
    .unwrap();
    assert_eq!(cfg.resolve(&supergroup("group1")), Action::Ignore);
}
