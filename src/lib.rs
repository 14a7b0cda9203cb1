//! Semantic-version release planning driven by conventional commit messages.
pub mod bump_type;
pub mod cli;
pub mod config;
pub mod conventional_commit;
pub mod laws;
pub mod output;
pub mod release;
pub mod scm;
pub mod text;
pub mod validation;
pub mod version;
pub mod version_manager;

use vstd::prelude::*;
use vstd::string::*;
use crate::bump_type::BumpType;
use crate::cli::Args;
use crate::config::Config;
use crate::output::ActionOutput;
use crate::scm::github::Release;
use crate::text::opt_view;
use crate::version::{next_version, Version, VersionError};

verus! {

/// What a run does once versions are known.
#[derive(Debug, Clone)]
pub enum RunStep {
    /// Report this and create nothing.
    Finish(ActionOutput),
    /// Create the release of this version.
    Release(Version),
}

/// A run's configuration and options.
pub struct ReleaseApplication {
    pub config: Config,
    pub args: Args,
}

impl ReleaseApplication {
    pub fn new(args: Args, config: Config) -> (r: Self)
        ensures
            r.args == args,
            r.config == config,
    {
        ReleaseApplication { config, args }
    }

    /// Decides the run from the released version and the head commit's message:
    /// a dry run, or a message that asks for no bump, reports the next version and
    /// creates nothing; otherwise the next version is released.
    pub fn plan_run(&self, current: &Version, head_message: &str) -> (r: Result<RunStep, VersionError>)
        ensures
            ({
                let b = crate::bump_type::classified(head_message@);
                let next = current.bumped(b);
                &&& !current.can_bump(b) ==> r == Err::<RunStep, VersionError>(VersionError::Overflow)
                &&& current.can_bump(b) && (self.args.dry_run || b == BumpType::NoBump) ==> (r matches Ok(
                    RunStep::Finish(o),
                ) && !o.released && opt_view(o.version) == Some(next.text()) && o.tag is None
                    && o.release_url is None)
                &&& current.can_bump(b) && !self.args.dry_run && b != BumpType::NoBump ==> (r matches Ok(
                    RunStep::Release(v),
                ) && v == next)
            }),
    {
        let bump = BumpType::from_conventional_commit(head_message);
        let next = match next_version(current, &bump) {
            Ok(v) => v,
            Err(e) => return Err(e),
        };
        if self.args.dry_run || bump == BumpType::NoBump {
            return Ok(
                RunStep::Finish(
                    ActionOutput {
                        released: false,
                        version: Some(next.to_string()),
                        tag: None,
                        release_url: None,
                    },
                ),
            );
        }
        Ok(RunStep::Release(next))
    }
}

/// The report of a release that was created.
pub fn released_output(version: &Version, release: &Release) -> (r: ActionOutput)
    ensures
        r.released,
        opt_view(r.version) == Some(version.text()),
        opt_view(r.tag) == Some(release.tag_name@),
        opt_view(r.release_url) == Some(release.html_url@),
{
    ActionOutput {
        released: true,
        version: Some(version.to_string()),
        tag: Some(release.tag_name.clone()),
        release_url: Some(release.html_url.clone()),
    }
}

} // verus!
