use vstd::prelude::*;
use vstd::string::*;
use crate::config::Config;
use crate::release::{tag_name, tag_text};
use crate::version::Version;

verus! {

/// A release record on the hosting platform.
#[derive(Debug, Clone)]
pub struct Release {
    pub id: u64,
    pub tag_name: String,
    pub name: String,
    pub body: String,
    pub draft: bool,
    pub prerelease: bool,
    pub html_url: String,
    pub upload_url: String,
}

/// What is sent to create a release record.
#[derive(Debug, Clone)]
pub struct CreateReleaseRequest {
    pub tag_name: String,
    pub name: String,
    pub body: String,
    pub target_commitish: String,
}

/// The repository's metadata.
#[derive(Debug, Clone)]
pub struct RepositoryInfo {
    pub id: u64,
    pub name: String,
    pub full_name: String,
    pub owner: RepositoryOwner,
    pub default_branch: String,
}

/// The account that owns a repository.
#[derive(Debug, Clone)]
pub struct RepositoryOwner {
    pub login: String,
}

/// The request that creates the release record of `version` at the commit
/// `target_commit_sha`: named `Release <tag>`, with an empty body.
pub fn release_request(version: &Version, config: &Config, target_commit_sha: &str) -> (r: CreateReleaseRequest)
    ensures
        r.tag_name@ == tag_text(*version, config.version.prefix_text(), config.version.suffix_text()),
        r.name@ == "Release "@ + r.tag_name@,
        r.body@ == Seq::<char>::empty(),
        r.target_commitish@ == target_commit_sha@,
{
    let tag = tag_name(version, config.version.prefix(), config.version.suffix());
    let mut name = String::from_str("Release ");
    name.append(tag.as_str());
    CreateReleaseRequest {
        tag_name: tag,
        name,
        body: String::new(),
        target_commitish: String::from_str(target_commit_sha),
    }
}

} // verus!
