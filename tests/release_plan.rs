use conventional_release_action::cli::Args;
use conventional_release_action::config::{Config, FileUpdateConfig};
use conventional_release_action::release::{
    delete_refspec, push_refspecs, temporary_branch_name,
    branch_update, files_to_stage, major_branch_name, plan_release, substitute_version, tag_name,
    BranchUpdate,
};
use conventional_release_action::scm::git::{GitCommit, Tag};
use conventional_release_action::scm::github::{release_request, Release};
use conventional_release_action::version::Version;
use conventional_release_action::version_manager::resolve_version;
use conventional_release_action::{released_output, ReleaseApplication, RunStep};

fn tag(name: &str, sha: &str) -> Tag {
    Tag { name: name.to_string(), commit: GitCommit { sha: sha.to_string() } }
}

fn create_test_args() -> Args {
    Args {
        config_file: "test-config.toml".to_string(),
        dry_run: true,
        working_directory: ".".to_string(),
    }
}

#[test]
fn test_release_application_creation() {
    let args = create_test_args();
    let config = Config::default();
    let app = ReleaseApplication::new(args, config);

    assert!(app.args.dry_run);
    assert_eq!(app.args.config_file, "test-config.toml");
}

#[test]
fn test_release_application_dry_run_flag() {
    let mut args = create_test_args();
    args.dry_run = false;
    let config = Config::default();
    let app = ReleaseApplication::new(args, config);

    assert!(!app.args.dry_run);
}

#[test]
fn first_release_has_one_parent() {
    let tags = vec![tag("nightly", "n")];
    let plan = plan_release(&Version::new(0, 1, 0), "v", "", "tip", &tags);
    assert_eq!(plan.parents, vec!["tip".to_string()]);
}

#[test]
fn later_release_chains_previous_release_first() {
    let tags = vec![tag("v1.0.0", "old"), tag("v1.2.3", "prev")];
    let plan = plan_release(&Version::new(1, 3, 0), "v", "", "tip", &tags);
    assert_eq!(plan.parents, vec!["prev".to_string(), "tip".to_string()]);
}

#[test]
fn plan_names_tag_branch_and_message() {
    let plan = plan_release(&Version::new(12, 3, 4), "rel-", "-x", "tip", &Vec::new());
    assert_eq!(plan.tag_name, "rel-12.3.4-x");
    assert_eq!(plan.branch_name, "v12");
    assert_eq!(plan.branch_ref, "refs/heads/v12");
    assert_eq!(plan.message, "chore: release version 12.3.4");
    assert_eq!(major_branch_name(&Version::new(0, 9, 9)), "v0");
    assert_eq!(tag_name(&Version::new(1, 0, 0), "", ""), "1.0.0");
}

#[test]
fn major_branch_is_created_or_repointed() {
    assert_eq!(branch_update(true), BranchUpdate::Repoint);
    assert_eq!(branch_update(false), BranchUpdate::Create);
}

#[test]
fn end_to_end_minor_release() {
    let tags = vec![tag("v1.2.3", "prev")];
    let names: Vec<String> = tags.iter().map(|t| t.name.clone()).collect();
    let current = resolve_version(&names, "v", "", Version::new(0, 1, 0));
    assert_eq!(current, Version::new(1, 2, 3));
    let mut args = create_test_args();
    args.dry_run = false;
    let app = ReleaseApplication::new(args, Config::default());
    let version = match app.plan_run(&current, "feat: add X").unwrap() {
        RunStep::Release(v) => v,
        RunStep::Finish(_) => panic!("a release was expected"),
    };
    assert_eq!(version, Version::new(1, 3, 0));
    let plan = plan_release(&version, "v", "", "head", &tags);
    assert_eq!(plan.tag_name, "v1.3.0");
    assert_eq!(plan.branch_name, "v1");
    assert_eq!(plan.parents, vec!["prev".to_string(), "head".to_string()]);
    assert_eq!(branch_update(true), BranchUpdate::Repoint);
}

#[test]
fn dry_run_and_no_bump_report_without_release() {
    let app = ReleaseApplication::new(create_test_args(), Config::default());
    match app.plan_run(&Version::new(1, 2, 3), "feat: add X").unwrap() {
        RunStep::Finish(o) => {
            assert!(!o.released);
            assert_eq!(o.version.as_deref(), Some("1.3.0"));
            assert_eq!(o.tag, None);
        }
        RunStep::Release(_) => panic!("a dry run releases nothing"),
    }
    let mut args = create_test_args();
    args.dry_run = false;
    let app = ReleaseApplication::new(args, Config::default());
    match app.plan_run(&Version::new(1, 2, 3), "docs: readme").unwrap() {
        RunStep::Finish(o) => assert_eq!(o.version.as_deref(), Some("1.2.3")),
        RunStep::Release(_) => panic!("no bump releases nothing"),
    }
}

#[test]
fn version_is_written_at_marker() {
    let plain = FileUpdateConfig { path: "a".to_string(), marker: "0.0.0+local".to_string(), template: None };
    let v = Version::new(2, 1, 0);
    assert_eq!(
        substitute_version("version = \"0.0.0+local\"", &plain, &v),
        Some("version = \"2.1.0\"".to_string())
    );
    assert_eq!(substitute_version("nothing here", &plain, &v), None);
    let templated = FileUpdateConfig {
        path: "b".to_string(),
        marker: "@VERSION@".to_string(),
        template: Some("v{version} ({version})".to_string()),
    };
    assert_eq!(
        substitute_version("x=@VERSION@;y=@VERSION@", &templated, &v),
        Some("x=v2.1.0 (2.1.0);y=v2.1.0 (2.1.0)".to_string())
    );
}

#[test]
fn empty_marker_matches_everywhere() {
    let empty = FileUpdateConfig { path: "a".to_string(), marker: String::new(), template: None };
    assert_eq!(substitute_version("ab", &empty, &Version::new(1, 0, 0)), Some("1.0.0a1.0.0b1.0.0".to_string()));
    assert_eq!(substitute_version("", &empty, &Version::new(1, 0, 0)), Some("1.0.0".to_string()));
}

#[test]
fn overlapping_markers_are_replaced_from_the_left() {
    let m = FileUpdateConfig { path: "a".to_string(), marker: "aa".to_string(), template: None };
    assert_eq!(substitute_version("aaa", &m, &Version::new(0, 0, 1)), Some("0.0.1a".to_string()));
}

#[test]
fn only_existing_files_are_staged() {
    let f = |p: &str| FileUpdateConfig { path: p.to_string(), marker: "m".to_string(), template: None };
    let files = vec![f("a"), f("b"), f("c")];
    assert_eq!(files_to_stage(&files, &vec![true, false, true]), vec!["a".to_string(), "c".to_string()]);
}

#[test]
fn release_request_and_report() {
    let req = release_request(&Version::new(1, 3, 0), &Config::default(), "abc");
    assert_eq!(req.tag_name, "v1.3.0");
    assert_eq!(req.name, "Release v1.3.0");
    assert_eq!(req.body, "");
    assert_eq!(req.target_commitish, "abc");
    let release = Release {
        id: 1,
        tag_name: "v1.3.0".to_string(),
        name: "Release v1.3.0".to_string(),
        body: String::new(),
        draft: false,
        prerelease: false,
        html_url: "https://example.invalid/r".to_string(),
        upload_url: String::new(),
    };
    let out = released_output(&Version::new(1, 3, 0), &release);
    assert!(out.released);
    assert_eq!(out.version.as_deref(), Some("1.3.0"));
    assert_eq!(out.tag.as_deref(), Some("v1.3.0"));
    assert_eq!(out.release_url.as_deref(), Some("https://example.invalid/r"));
}

#[test]
fn push_names_and_refspecs() {
    assert_eq!(temporary_branch_name("0123456789abcdef", "42"), "release-01234567-42");
    assert_eq!(temporary_branch_name("abc", "7"), "release-abc-7");
    assert_eq!(
        push_refspecs("refs/heads/t", "refs/heads/v1"),
        vec!["refs/heads/t:refs/heads/t".to_string(), "refs/heads/v1:refs/heads/v1".to_string()]
    );
    assert_eq!(delete_refspec("t"), ":refs/heads/t");
}
