use conventional_release_action::cli::{Args, CliCommand, CliError};
use conventional_release_action::config::Config;
use conventional_release_action::output::ActionOutput;

fn argv(items: &[&str]) -> Vec<String> {
    items.iter().map(|s| s.to_string()).collect()
}

#[test]
fn defaults_without_flags() {
    match Args::parse(&argv(&["prog"])).unwrap() {
        CliCommand::Run(a) => {
            assert_eq!(a.config_file, ".release-config.toml");
            assert!(!a.dry_run);
            assert_eq!(a.working_directory, ".");
        }
        CliCommand::Help => panic!("no help was asked for"),
    }
}

#[test]
fn flags_are_read() {
    match Args::parse(&argv(&["prog", "--dry-run", "--config-file", "c.toml", "--working-directory", "w"])).unwrap() {
        CliCommand::Run(a) => {
            assert_eq!(a.config_file, "c.toml");
            assert!(a.dry_run);
            assert_eq!(a.working_directory, "w");
        }
        CliCommand::Help => panic!("no help was asked for"),
    }
    assert!(matches!(Args::parse(&argv(&["prog", "-h"])), Ok(CliCommand::Help)));
}

#[test]
fn bad_flags_are_refused() {
    match Args::parse(&argv(&["prog", "--config-file"])) {
        Err(CliError::MissingValue(f)) => assert_eq!(f, "--config-file"),
        _ => panic!("a missing value was expected"),
    }
    match Args::parse(&argv(&["prog", "--bogus"])) {
        Err(CliError::UnknownArgument(a)) => assert_eq!(a, "--bogus"),
        _ => panic!("an unknown argument was expected"),
    }
}

#[test]
fn environment_options() {
    let a = Args::from_env(None, Some("true".to_string()), Some("dir".to_string()));
    assert_eq!(a.config_file, ".release-config.toml");
    assert!(a.dry_run);
    assert_eq!(a.working_directory, "dir");
    assert!(!Args::from_env(None, Some("yes".to_string()), None).dry_run);
}

#[test]
fn default_config() {
    let c = Config::default();
    assert_eq!(c.version.initial_version.as_deref(), Some("0.1.0"));
    assert_eq!(c.version.tag_prefix.as_deref(), Some("v"));
    assert_eq!(c.version.tag_suffix, None);
    let files = c.version.files.unwrap();
    assert_eq!(files.len(), 1);
    assert_eq!(files[0].path, "Cargo.toml");
    assert_eq!(files[0].marker, "0.0.0+local");
}

#[test]
fn output_lines_and_summary() {
    let out = ActionOutput {
        released: true,
        version: Some("1.3.0".to_string()),
        tag: Some("v1.3.0".to_string()),
        release_url: None,
    };
    assert_eq!(out.key_values(), "released=true\nversion=1.3.0\ntag=v1.3.0\nrelease-url=");
    assert_eq!(
        out.summary(false),
        "🎉 **Release Created Successfully!**\n\n- **Version:** 1.3.0\n- **Tag:** v1.3.0\n- **Release URL:** N/A\n"
    );
    let none = ActionOutput { released: false, version: None, tag: None, release_url: None };
    assert_eq!(none.key_values(), "released=false\nversion=\ntag=\nrelease-url=");
    assert_eq!(none.summary(false), "ℹ️ **No release created** - no qualifying commits found\n");
}
