use vstd::prelude::*;
use vstd::string::*;
use crate::config::FileUpdateConfig;
use crate::scm::git::Tag;
use crate::text::{opt_view, replace_all, replaced};
use crate::version::{decimal, Version};
use crate::version_manager::{find_previous_release_commit, is_previous_release, none_decoded, tag_names};

verus! {

/// The tag of a release: prefix, version text, suffix.
pub open spec fn tag_text(v: Version, p: Seq<char>, s: Seq<char>) -> Seq<char> {
    p + v.text() + s
}

/// The branch that follows a major line: `v` and the major counter.
pub open spec fn branch_text(v: Version) -> Seq<char> {
    seq!['v'] + decimal(v.major as nat)
}

/// `refs/heads/`.
pub open spec fn heads_prefix() -> Seq<char> {
    seq!['r', 'e', 'f', 's', '/', 'h', 'e', 'a', 'd', 's', '/']
}

/// `chore: release version ` and the version text.
pub open spec fn message_text(v: Version) -> Seq<char> {
    seq![
        'c', 'h', 'o', 'r', 'e', ':', ' ', 'r', 'e', 'l', 'e', 'a', 's', 'e', ' ', 'v', 'e', 'r',
        's', 'i', 'o', 'n', ' ',
    ] + v.text()
}

/// The parents of a release commit: the branch tip alone when no tag is a
/// release, else the previous release first and the branch tip second.
pub open spec fn planned_parents(
    tags: Seq<Tag>,
    p: Seq<char>,
    s: Seq<char>,
    tip: Seq<char>,
    parents: Seq<Seq<char>>,
) -> bool {
    if none_decoded(tag_names(tags), p, s) {
        parents == seq![tip]
    } else {
        parents.len() == 2 && parents[1] == tip && is_previous_release(tags, p, s, parents[0])
    }
}

/// Relies on the `Display` of `u64`: the decimal digits.
#[verifier::external_body]
fn decimal_string(n: u64) -> (r: String)
    ensures
        r@ == decimal(n as nat),
{
    n.to_string()
}

/// `prefix`, the version text, then `suffix`.
pub fn tag_name(version: &Version, prefix: &str, suffix: &str) -> (r: String)
    ensures
        r@ == tag_text(*version, prefix@, suffix@),
{
    let mut r = String::from_str(prefix);
    let v = version.to_string();
    r.append(v.as_str());
    r.append(suffix);
    r
}

/// The name of the branch of the version's major line, such as `v1`.
pub fn major_branch_name(version: &Version) -> (r: String)
    ensures
        r@ == branch_text(*version),
{
    proof {
        reveal_strlit("v");
        assert("v"@ =~= seq!['v']);
    }
    let mut r = String::from_str("v");
    let d = decimal_string(version.major);
    r.append(d.as_str());
    r
}

/// The full reference of a branch.
pub fn branch_ref(branch: &str) -> (r: String)
    ensures
        r@ == heads_prefix() + branch@,
{
    proof {
        reveal_strlit("refs/heads/");
        assert("refs/heads/"@ =~= heads_prefix());
    }
    let mut r = String::from_str("refs/heads/");
    r.append(branch);
    r
}

/// The message of a release commit.
pub fn release_message(version: &Version) -> (r: String)
    ensures
        r@ == message_text(*version),
{
    proof {
        reveal_strlit("chore: release version ");
        assert("chore: release version "@ =~= seq![
            'c', 'h', 'o', 'r', 'e', ':', ' ', 'r', 'e', 'l', 'e', 'a', 's', 'e', ' ', 'v', 'e', 'r',
            's', 'i', 'o', 'n', ' ',
        ]);
    }
    let mut r = String::from_str("chore: release version ");
    let v = version.to_string();
    r.append(v.as_str());
    r
}

/// Everything a release commit is made of, decided before any object is written.
pub struct ReleasePlan {
    pub version: Version,
    /// Previous release (if any) first, then the branch tip.
    pub parents: Vec<String>,
    pub message: String,
    pub tag_name: String,
    pub branch_name: String,
    pub branch_ref: String,
}

/// Plans the release of `version` on top of `branch_tip`, chained to the commit
/// of the greatest release tag among `tags` when there is one.
pub fn plan_release(version: &Version, prefix: &str, suffix: &str, branch_tip: &str, tags: &Vec<Tag>) -> (r: ReleasePlan)
    ensures
        r.version == *version,
        planned_parents(tags@, prefix@, suffix@, branch_tip@, r.parents@.map_values(|s: String| s@)),
        r.message@ == message_text(*version),
        r.tag_name@ == tag_text(*version, prefix@, suffix@),
        r.branch_name@ == branch_text(*version),
        r.branch_ref@ == heads_prefix() + branch_text(*version),
{
    let tip = String::from_str(branch_tip);
    let mut parents: Vec<String> = Vec::new();
    match find_previous_release_commit(tags, prefix, suffix) {
        Some(prev) => {
            parents.push(prev);
            parents.push(tip);
        },
        None => {
            parents.push(tip);
        },
    }
    assert(parents@.map_values(|s: String| s@) =~= if parents@.len() == 1 {
        seq![parents@[0]@]
    } else {
        seq![parents@[0]@, parents@[1]@]
    });
    let branch_name = major_branch_name(version);
    let branch_ref = branch_ref(branch_name.as_str());
    ReleasePlan {
        version: *version,
        parents,
        message: release_message(version),
        tag_name: tag_name(version, prefix, suffix),
        branch_name,
        branch_ref,
    }
}

/// What happens to the major branch: it is moved when it exists, made otherwise.
#[derive(Debug, Clone, Copy, PartialEq, Eq, Structural)]
pub enum BranchUpdate {
    Repoint,
    Create,
}

/// The update of the major branch, given whether it exists already.
pub fn branch_update(exists: bool) -> (r: BranchUpdate)
    ensures
        r == (if exists {
            BranchUpdate::Repoint
        } else {
            BranchUpdate::Create
        }),
{
    if exists {
        BranchUpdate::Repoint
    } else {
        BranchUpdate::Create
    }
}

/// The branch that carries a release commit to the remote: `release-`, the first
/// eight characters of the commit hash (all of it when shorter), `-`, and an id
/// unique to the run.
pub fn temporary_branch_name(commit_sha: &str, unique_id: &str) -> (r: String)
    ensures
        r@ == "release-"@ + commit_sha@.take(if commit_sha@.len() < 8 {
            commit_sha@.len() as int
        } else {
            8
        }) + "-"@ + unique_id@,
{
    let n = commit_sha.unicode_len();
    let k: usize = if n < 8 {
        n
    } else {
        8
    };
    let mut r = String::from_str("release-");
    r.append(commit_sha.substring_char(0, k));
    assert(commit_sha@.subrange(0, k as int) == commit_sha@.take(k as int));
    r.append("-");
    r.append(unique_id);
    r
}

/// The refspecs that push the temporary branch and the major branch, each to the
/// reference of the same name.
pub fn push_refspecs(temporary_ref: &str, major_ref: &str) -> (r: Vec<String>)
    ensures
        r@.map_values(|s: String| s@) == seq![
            temporary_ref@ + ":"@ + temporary_ref@,
            major_ref@ + ":"@ + major_ref@,
        ],
{
    let mut a = String::from_str(temporary_ref);
    a.append(":");
    a.append(temporary_ref);
    let mut b = String::from_str(major_ref);
    b.append(":");
    b.append(major_ref);
    let mut r: Vec<String> = Vec::new();
    r.push(a);
    r.push(b);
    assert(r@.map_values(|s: String| s@) =~= seq![
        temporary_ref@ + ":"@ + temporary_ref@,
        major_ref@ + ":"@ + major_ref@,
    ]);
    r
}

/// The refspec that deletes a branch on the remote: an empty source.
pub fn delete_refspec(branch: &str) -> (r: String)
    ensures
        r@ == ":refs/heads/"@ + branch@,
{
    let mut r = String::from_str(":refs/heads/");
    r.append(branch);
    r
}

/// `{version}`.
pub open spec fn placeholder() -> Seq<char> {
    seq!['{', 'v', 'e', 'r', 's', 'i', 'o', 'n', '}']
}

/// The text that takes the marker's place: the template with the version filled
/// in, or the version text itself.
pub open spec fn replacement_text(fc: FileUpdateConfig, v: Version) -> Seq<char> {
    match fc.template {
        Some(t) => replaced(t@, placeholder(), v.text()),
        None => v.text(),
    }
}

/// The content of a file after the version has been written at the marker, or
/// `None` when that changes nothing.
pub fn substitute_version(content: &str, file_config: &FileUpdateConfig, version: &Version) -> (r: Option<String>)
    ensures
        ({
            let updated = replaced(content@, file_config.marker@, replacement_text(*file_config, *version));
            &&& updated == content@ ==> r is None
            &&& updated != content@ ==> opt_view(r) == Some(updated)
        }),
{
    proof {
        reveal_strlit("{version}");
        assert("{version}"@ =~= placeholder());
    }
    let v = version.to_string();
    let replacement = match &file_config.template {
        Some(t) => replace_all(t.as_str(), "{version}", v.as_str()),
        None => v,
    };
    let updated = replace_all(content, file_config.marker.as_str(), replacement.as_str());
    if crate::text::same_text(updated.as_str(), content) {
        None
    } else {
        Some(updated)
    }
}

/// The paths of the rules whose file exists, in order.
pub open spec fn staged_paths(files: Seq<FileUpdateConfig>, exists: Seq<bool>) -> Seq<Seq<char>>
    decreases files.len(),
{
    if files.len() == 0 {
        Seq::empty()
    } else {
        let rest = staged_paths(files.drop_last(), exists);
        if exists[files.len() - 1] {
            rest.push(files.last().path@)
        } else {
            rest
        }
    }
}

/// The files to stage: those of the rules whose file exists.
pub fn files_to_stage(files: &Vec<FileUpdateConfig>, exists: &Vec<bool>) -> (r: Vec<String>)
    requires
        exists.len() == files.len(),
    ensures
        r@.map_values(|s: String| s@) == staged_paths(files@, exists@),
{
    let mut r: Vec<String> = Vec::new();
    let mut i: usize = 0;
    while i < files.len()
        invariant
            i <= files.len(),
            exists.len() == files.len(),
            r@.map_values(|s: String| s@) == staged_paths(files@.take(i as int), exists@),
        decreases files.len() - i,
    {
        assert(files@.take(i + 1).drop_last() =~= files@.take(i as int));
        if exists[i] {
            r.push(files[i].path.clone());
        }
        i = i + 1;
        assert(r@.map_values(|s: String| s@) =~= staged_paths(files@.take(i as int), exists@));
    }
    assert(files@.take(i as int) =~= files@);
    r
}

} // verus!
