use conventional_release_action::bump_type::BumpType;
use conventional_release_action::conventional_commit::{ConventionalCommit, ParseError};

#[test]
fn test_simple_commit() {
    let commit = ConventionalCommit::parse("feat: add new feature").unwrap();
    assert_eq!(commit.commit_type, "feat");
    assert_eq!(commit.scope, None);
    assert_eq!(commit.description, "add new feature");
    assert_eq!(commit.breaking_change, false);
    assert_eq!(commit.bump_type(), BumpType::Minor);
}

#[test]
fn test_commit_with_scope() {
    let commit = ConventionalCommit::parse("fix(api): resolve login issue").unwrap();
    assert_eq!(commit.commit_type, "fix");
    assert_eq!(commit.scope, Some("api".to_string()));
    assert_eq!(commit.description, "resolve login issue");
    assert_eq!(commit.bump_type(), BumpType::Patch);
}

#[test]
fn test_breaking_change_with_exclamation() {
    let commit = ConventionalCommit::parse("feat!: remove deprecated API").unwrap();
    assert_eq!(commit.commit_type, "feat");
    assert_eq!(commit.breaking_change, true);
    assert_eq!(commit.bump_type(), BumpType::Major);
}

#[test]
fn test_breaking_change_with_scope() {
    let commit = ConventionalCommit::parse("feat(api)!: remove old endpoint").unwrap();
    assert_eq!(commit.commit_type, "feat");
    assert_eq!(commit.scope, Some("api".to_string()));
    assert_eq!(commit.breaking_change, true);
    assert_eq!(commit.bump_type(), BumpType::Major);
}

#[test]
fn test_commit_with_body_and_footer() {
    let message = "feat(api): add user authentication

This commit adds JWT-based authentication for users.
It includes login and logout endpoints.

BREAKING CHANGE: removes basic auth support";

    let commit = ConventionalCommit::parse(message).unwrap();
    assert_eq!(commit.commit_type, "feat");
    assert_eq!(commit.scope, Some("api".to_string()));
    assert!(commit.body.is_some());
    assert!(commit.footer.is_some());
    assert_eq!(commit.breaking_change, true);
    assert_eq!(commit.bump_type(), BumpType::Major);
}

#[test]
fn test_invalid_format() {
    let result = ConventionalCommit::parse("invalid message format");
    assert!(result.is_err());
}

#[test]
fn test_unclosed_parenthesis() {
    let result = ConventionalCommit::parse("feat(scope: missing closing paren");
    assert!(result.is_err());
}

#[test]
fn test_chore_commit() {
    let commit = ConventionalCommit::parse("chore: update dependencies").unwrap();
    assert_eq!(commit.commit_type, "chore");
    assert_eq!(commit.bump_type(), BumpType::NoBump);
}

#[test]
fn parse_errors_name_their_kind() {
    assert!(matches!(
        ConventionalCommit::parse("invalid message format"),
        Err(ParseError::MissingSeparator)
    ));
    assert!(matches!(
        ConventionalCommit::parse("feat(scope: missing closing paren"),
        Err(ParseError::UnclosedScope)
    ));
    // A closing parenthesis before the opening one closes nothing.
    assert!(matches!(
        ConventionalCommit::parse("fe)at(x: y"),
        Err(ParseError::UnclosedScope)
    ));
}

#[test]
fn body_and_footer_are_split_exactly() {
    let message = "feat(api): add user authentication

This commit adds JWT-based authentication for users.
It includes login and logout endpoints.

BREAKING CHANGE: removes basic auth support";
    let commit = ConventionalCommit::parse(message).unwrap();
    assert_eq!(commit.description, "add user authentication");
    assert_eq!(
        commit.body.as_deref(),
        Some("This commit adds JWT-based authentication for users.\nIt includes login and logout endpoints.")
    );
    assert_eq!(commit.footer.as_deref(), Some("BREAKING CHANGE: removes basic auth support"));
}

#[test]
fn token_colon_line_opens_footer_for_the_rest() {
    let commit = ConventionalCommit::parse("fix: x\n\nplain body\nRefs: 12\nafter footer\n").unwrap();
    assert_eq!(commit.body.as_deref(), Some("plain body"));
    assert_eq!(commit.footer.as_deref(), Some("Refs: 12\nafter footer"));
    assert!(!commit.breaking_change);
}

#[test]
fn body_text_that_looks_like_a_footer_is_taken_as_one() {
    let commit = ConventionalCommit::parse("fix: x\n\nNote: this is body text").unwrap();
    assert_eq!(commit.body, None);
    assert_eq!(commit.footer.as_deref(), Some("Note: this is body text"));
}

#[test]
fn line_starting_with_digit_stays_in_body() {
    let commit = ConventionalCommit::parse("fix: x\n1: not a token").unwrap();
    assert_eq!(commit.body.as_deref(), Some("1: not a token"));
    assert_eq!(commit.footer, None);
}

#[test]
fn bang_anywhere_in_header_is_breaking() {
    let commit = ConventionalCommit::parse("docs: say hello!").unwrap();
    assert_eq!(commit.commit_type, "docs");
    assert!(commit.breaking_change);
    assert_eq!(commit.bump_type(), BumpType::Major);
}

#[test]
fn description_is_trimmed() {
    let commit = ConventionalCommit::parse("perf:   faster   ").unwrap();
    assert_eq!(commit.description, "faster");
    assert_eq!(commit.bump_type(), BumpType::Patch);
}

#[test]
fn security_is_a_patch_and_unknown_is_none() {
    assert_eq!(ConventionalCommit::parse("security: patch cve").unwrap().bump_type(), BumpType::Patch);
    assert_eq!(ConventionalCommit::parse("wip: stuff").unwrap().bump_type(), BumpType::NoBump);
}

#[test]
fn message_bump_follows_the_commit_grammar() {
    assert_eq!(BumpType::from_conventional_commit("feat: add new feature"), BumpType::Minor);
    assert_eq!(BumpType::from_conventional_commit("fix: resolve bug"), BumpType::Patch);
    assert_eq!(BumpType::from_conventional_commit("feat!: breaking change"), BumpType::Major);
    assert_eq!(BumpType::from_conventional_commit("chore: update dependencies"), BumpType::NoBump);
    assert_eq!(BumpType::from_conventional_commit("no separator here"), BumpType::NoBump);
}

#[test]
fn security_type_is_a_patch() {
    assert_eq!(BumpType::from_conventional_commit("security: patch CVE-2024-0001"), BumpType::Patch);
}

#[test]
fn breaking_footer_makes_a_major() {
    assert_eq!(
        BumpType::from_conventional_commit("feat: add X\n\nBREAKING CHANGE: drops Y"),
        BumpType::Major
    );
}

#[test]
fn whole_type_token_decides() {
    assert_eq!(BumpType::from_conventional_commit("feature: add X"), BumpType::NoBump);
    assert_eq!(BumpType::from_conventional_commit("fixup: x"), BumpType::NoBump);
    assert_eq!(BumpType::from_conventional_commit("FEAT: shouting"), BumpType::NoBump);
}

#[test]
fn footer_needs_token_right_before_colon() {
    let commit = ConventionalCommit::parse("feat: x\n\nThis adds: prose\nRefs: #12").unwrap();
    assert_eq!(commit.body.as_deref(), Some("This adds: prose"));
    assert_eq!(commit.footer.as_deref(), Some("Refs: #12"));
    let dashed = ConventionalCommit::parse("fix: y\nReviewed-by: someone").unwrap();
    assert_eq!(dashed.body, None);
    assert_eq!(dashed.footer.as_deref(), Some("Reviewed-by: someone"));
    let leading_colon = ConventionalCommit::parse("fix: y\n: not a token").unwrap();
    assert_eq!(leading_colon.body.as_deref(), Some(": not a token"));
}
