use vstd::prelude::*;
use vstd::string::*;
use crate::text::opt_view;

verus! {

/// The release configuration.
#[derive(Debug, Clone)]
pub struct Config {
    pub version: VersionConfig,
}

/// How versions are read from tags and written into files.
#[derive(Debug, Clone)]
pub struct VersionConfig {
    pub initial_version: Option<String>,
    pub tag_prefix: Option<String>,
    pub tag_suffix: Option<String>,
    pub files: Option<Vec<FileUpdateConfig>>,
}

/// A file whose `marker` text is replaced by the version, or by `template` with
/// `{version}` filled in.
#[derive(Debug, Clone)]
pub struct FileUpdateConfig {
    pub path: String,
    pub marker: String,
    pub template: Option<String>,
}

/// The text `0.1.0`.
pub open spec fn default_initial() -> Seq<char> {
    seq!['0', '.', '1', '.', '0']
}

impl VersionConfig {
    /// The tag prefix, empty when none is set.
    pub open spec fn prefix_text(self) -> Seq<char> {
        match self.tag_prefix {
            Some(p) => p@,
            None => Seq::empty(),
        }
    }

    /// The tag suffix, empty when none is set.
    pub open spec fn suffix_text(self) -> Seq<char> {
        match self.tag_suffix {
            Some(s) => s@,
            None => Seq::empty(),
        }
    }

    /// The initial version's text, `0.1.0` when none is set.
    pub open spec fn initial_text(self) -> Seq<char> {
        match self.initial_version {
            Some(s) => s@,
            None => default_initial(),
        }
    }

    pub fn prefix(&self) -> (r: &str)
        ensures
            r@ == self.prefix_text(),
    {
        proof {
            reveal_strlit("");
        }
        match &self.tag_prefix {
            Some(p) => p.as_str(),
            None => "",
        }
    }

    pub fn suffix(&self) -> (r: &str)
        ensures
            r@ == self.suffix_text(),
    {
        proof {
            reveal_strlit("");
        }
        match &self.tag_suffix {
            Some(s) => s.as_str(),
            None => "",
        }
    }

    pub fn initial(&self) -> (r: &str)
        ensures
            r@ == self.initial_text(),
    {
        proof {
            reveal_strlit("0.1.0");
            assert("0.1.0"@ =~= default_initial());
        }
        match &self.initial_version {
            Some(s) => s.as_str(),
            None => "0.1.0",
        }
    }
}

impl Default for Config {
    /// Initial version `0.1.0`, tags `v<version>`, and `Cargo.toml` rewritten at
    /// the marker `0.0.0+local`.
    fn default() -> (r: Config)
        ensures
            opt_view(r.version.initial_version) == Some(default_initial()),
            opt_view(r.version.tag_prefix) == Some(seq!['v']),
            r.version.tag_suffix is None,
            r.version.files is Some,
            r.version.files->0@.len() == 1,
            r.version.files->0@[0].path@ == seq!['C', 'a', 'r', 'g', 'o', '.', 't', 'o', 'm', 'l'],
            r.version.files->0@[0].marker@ == seq![
                '0', '.', '0', '.', '0', '+', 'l', 'o', 'c', 'a', 'l',
            ],
            r.version.files->0@[0].template is None,
    {
        proof {
            reveal_strlit("0.1.0");
            reveal_strlit("v");
            reveal_strlit("Cargo.toml");
            reveal_strlit("0.0.0+local");
            assert("0.1.0"@ =~= default_initial());
            assert("v"@ =~= seq!['v']);
            assert("Cargo.toml"@ =~= seq!['C', 'a', 'r', 'g', 'o', '.', 't', 'o', 'm', 'l']);
            assert("0.0.0+local"@ =~= seq!['0', '.', '0', '.', '0', '+', 'l', 'o', 'c', 'a', 'l']);
        }
        let file = FileUpdateConfig {
            path: String::from_str("Cargo.toml"),
            marker: String::from_str("0.0.0+local"),
            template: None,
        };
        Config {
            version: VersionConfig {
                initial_version: Some(String::from_str("0.1.0")),
                tag_prefix: Some(String::from_str("v")),
                tag_suffix: None,
                files: Some(vec![file]),
            },
        }
    }
}

} // verus!
