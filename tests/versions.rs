use conventional_release_action::bump_type::BumpType;
use conventional_release_action::config::Config;
use conventional_release_action::scm::git::{GitCommit, Tag};
use conventional_release_action::scm::github::{RepositoryInfo, RepositoryOwner};
use conventional_release_action::version::{next_version, Version, VersionError};
use conventional_release_action::version_manager::{
    decode_tag, find_previous_release_commit, parse_version, resolve_version, strip_affixes,
    VersionManager,
};

fn tag(name: &str, sha: &str) -> Tag {
    Tag { name: name.to_string(), commit: GitCommit { sha: sha.to_string() } }
}

fn repo() -> RepositoryInfo {
    RepositoryInfo {
        id: 1,
        name: "r".to_string(),
        full_name: "o/r".to_string(),
        owner: RepositoryOwner { login: "o".to_string() },
        default_branch: "main".to_string(),
    }
}

#[test]
fn next_version_examples() {
    let v = Version::new(1, 2, 3);
    assert_eq!(next_version(&v, &BumpType::Major), Ok(Version::new(2, 0, 0)));
    assert_eq!(next_version(&v, &BumpType::Minor), Ok(Version::new(1, 3, 0)));
    assert_eq!(next_version(&v, &BumpType::Patch), Ok(Version::new(1, 2, 4)));
    assert_eq!(next_version(&v, &BumpType::NoBump), Ok(v));
}

#[test]
fn no_bump_keeps_any_version() {
    for v in [Version::new(0, 0, 0), Version::new(7, 0, 9), Version::new(u64::MAX, u64::MAX, u64::MAX)] {
        assert_eq!(next_version(&v, &BumpType::NoBump), Ok(v));
    }
}

#[test]
fn overflow_is_reported() {
    let v = Version::new(u64::MAX, 1, 1);
    assert_eq!(next_version(&v, &BumpType::Major), Err(VersionError::Overflow));
    assert_eq!(next_version(&v, &BumpType::Minor), Ok(Version::new(u64::MAX, 2, 0)));
}

#[test]
fn resolve_picks_greatest() {
    let names = vec!["v1.0.0".to_string(), "v2.3.1".to_string(), "garbage".to_string()];
    assert_eq!(resolve_version(&names, "v", "", Version::new(0, 1, 0)), Version::new(2, 3, 1));
}

#[test]
fn resolve_without_tags_gives_initial() {
    let names: Vec<String> = Vec::new();
    assert_eq!(resolve_version(&names, "v", "", Version::new(0, 1, 0)), Version::new(0, 1, 0));
}

#[test]
fn resolve_orders_numerically() {
    let names = vec!["v1.10.0".to_string(), "v1.9.9".to_string(), "v1.2.30".to_string()];
    assert_eq!(resolve_version(&names, "v", "", Version::new(0, 1, 0)), Version::new(1, 10, 0));
}

#[test]
fn decoding_skips_non_release_text() {
    assert_eq!(decode_tag("v1.0.0-rc1", "v", ""), None);
    assert_eq!(decode_tag("v01.0.0", "v", ""), None);
    assert_eq!(decode_tag("v1.0", "v", ""), None);
    assert_eq!(decode_tag("1.0.0", "v", ""), Some(Version::new(1, 0, 0)));
    assert_eq!(decode_tag("app-3.4.5-final", "app-", "-final"), Some(Version::new(3, 4, 5)));
}

#[test]
fn tag_text_round_trips() {
    for (p, s) in [("v", ""), ("", ""), ("release-", "-stable"), ("x", "x")] {
        let v = Version::new(12, 0, 7);
        let name = format!("{}{}{}", p, v.to_string(), s);
        assert_eq!(decode_tag(&name, p, s), Some(v));
    }
}

#[test]
fn affixes_are_stripped_only_when_present() {
    assert_eq!(strip_affixes("v1.2.3-x", "v", "-x"), "1.2.3");
    assert_eq!(strip_affixes("1.2.3", "v", "-x"), "1.2.3");
}

#[test]
fn version_text_and_parsing() {
    assert_eq!(Version::new(1, 20, 300).to_string(), "1.20.300");
    assert_eq!(parse_version("0.1.0"), Some(Version::new(0, 1, 0)));
    assert_eq!(parse_version("0.1"), None);
}

#[test]
fn previous_release_is_the_greatest_tag() {
    let tags = vec![tag("v1.0.0", "aaa"), tag("v1.2.3", "bbb"), tag("latest", "ccc")];
    assert_eq!(find_previous_release_commit(&tags, "v", ""), Some("bbb".to_string()));
    let none = vec![tag("latest", "ccc")];
    assert_eq!(find_previous_release_commit(&none, "v", ""), None);
}

#[test]
fn manager_reads_current_version() {
    let config = Config::default();
    let info = repo();
    let manager = VersionManager::new(&config, &info);
    let tags = vec![tag("v0.9.0", "a"), tag("v1.2.3", "b")];
    assert_eq!(manager.get_current_version(&tags), Ok(Version::new(1, 2, 3)));
    assert_eq!(manager.get_current_version(&Vec::new()), Ok(Version::new(0, 1, 0)));
    assert_eq!(
        manager.calculate_new_version(&Version::new(1, 2, 3), &BumpType::Minor),
        Ok(Version::new(1, 3, 0))
    );
}

#[test]
fn invalid_initial_version_is_reported() {
    let mut config = Config::default();
    config.version.initial_version = Some("one".to_string());
    let info = repo();
    let manager = VersionManager::new(&config, &info);
    assert_eq!(manager.get_current_version(&Vec::new()), Err(VersionError::InvalidInitialVersion));
    assert_eq!(manager.get_current_version(&vec![tag("v2.0.0", "a")]), Ok(Version::new(2, 0, 0)));
}
