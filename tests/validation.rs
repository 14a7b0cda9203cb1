use conventional_release_action::conventional_commit::ParseError;
use conventional_release_action::validation::{check_pr_title, check_title, should_validate_pr, EventError};

#[test]
fn pr_title_is_read_and_parsed() {
    let check = check_pr_title(r#"{"pull_request": {"title": "feat(ui): add button", "number": 3}}"#).unwrap();
    assert_eq!(check.title, "feat(ui): add button");
    let commit = check.commit.unwrap();
    assert_eq!(commit.commit_type, "feat");
    assert_eq!(commit.scope.as_deref(), Some("ui"));
}

#[test]
fn bad_pr_title_is_reported() {
    let check = check_pr_title(r#"{"pull_request": {"title": "Update readme"}}"#).unwrap();
    assert!(matches!(check.commit, Err(ParseError::MissingSeparator)));
}

#[test]
fn event_without_title_or_json_is_refused() {
    assert!(matches!(check_pr_title(r#"{"pull_request": {}}"#), Err(EventError::MissingTitle)));
    assert!(matches!(check_pr_title(r#"{"pull_request": {"title": 5}}"#), Err(EventError::MissingTitle)));
    assert!(matches!(check_pr_title("not json"), Err(EventError::InvalidJson(_))));
}

#[test]
fn only_pull_request_events_are_validated() {
    assert!(should_validate_pr(Some("pull_request")));
    assert!(!should_validate_pr(Some("push")));
    assert!(!should_validate_pr(None));
}

#[test]
fn title_is_checked_when_present() {
    assert!(matches!(check_title(None), Err(EventError::MissingTitle)));
    let check = check_title(Some("fix: typo".to_string())).unwrap();
    assert_eq!(check.title, "fix: typo");
    assert_eq!(check.commit.unwrap().commit_type, "fix");
}
