use vstd::prelude::*;
use vstd::string::*;
use crate::bump_type::BumpType;
use crate::config::Config;
use crate::scm::git::Tag;
use crate::scm::github::RepositoryInfo;
use crate::text::{chars_of, has_prefix, has_suffix, same_text, starts_with_str, texts};
use crate::version::{
    lemma_version_text_injective, next_version, parse_semver, version_text, Version, VersionError,
};

verus! {

/// A tag name without its prefix and then its suffix; an empty affix, or one
/// that is not there, is left alone.
pub open spec fn stripped(n: Seq<char>, p: Seq<char>, s: Seq<char>) -> Seq<char> {
    let a = if p.len() > 0 && has_prefix(n, p) {
        n.skip(p.len() as int)
    } else {
        n
    };
    if s.len() > 0 && has_suffix(a, s) {
        a.take(a.len() - s.len())
    } else {
        a
    }
}

/// The version whose text is `t`, if there is one.
pub open spec fn version_of(t: Seq<char>) -> Option<Version> {
    if exists|v: Version| v.text() == t {
        Some(choose|v: Version| v.text() == t)
    } else {
        None
    }
}

/// The version that a tag name stands for, once prefix and suffix are removed.
pub open spec fn decoded(n: Seq<char>, p: Seq<char>, s: Seq<char>) -> Option<Version> {
    version_of(stripped(n, p, s))
}

/// No name decodes to a version.
pub open spec fn none_decoded(names: Seq<Seq<char>>, p: Seq<char>, s: Seq<char>) -> bool {
    forall|i: int| 0 <= i < names.len() ==> #[trigger] decoded(names[i], p, s) is None
}

/// `v` is what some name decodes to, and no name decodes to anything above it.
pub open spec fn greatest_decoded(names: Seq<Seq<char>>, p: Seq<char>, s: Seq<char>, v: Version) -> bool {
    &&& exists|i: int| 0 <= i < names.len() && #[trigger] decoded(names[i], p, s) == Some(v)
    &&& forall|i: int|
        0 <= i < names.len() && #[trigger] decoded(names[i], p, s) is Some ==> decoded(
            names[i],
            p,
            s,
        )->0.le(v)
}

/// The names of the tags.
pub open spec fn tag_names(tags: Seq<Tag>) -> Seq<Seq<char>> {
    tags.map_values(|t: Tag| t.name@)
}

/// `sha` is the commit of a tag whose version is the greatest among the tags.
pub open spec fn is_previous_release(tags: Seq<Tag>, p: Seq<char>, s: Seq<char>, sha: Seq<char>) -> bool {
    exists|i: int|
        0 <= i < tags.len() && #[trigger] tags[i].commit.sha@ == sha && decoded(tags[i].name@, p, s) is Some
            && greatest_decoded(tag_names(tags), p, s, decoded(tags[i].name@, p, s)->0)
}

fn ends_with(s: &str, p: &str) -> (r: bool)
    ensures
        r == has_suffix(s@, p@),
{
    let n = s.unicode_len();
    let k = p.unicode_len();
    if k > n {
        return false;
    }
    let r = same_text(s.substring_char(n - k, n), p);
    assert(s@.subrange(n - k, n as int) == s@.skip(n - k));
    r
}

/// The tag name without a non-empty `prefix` at its start and then without a
/// non-empty `suffix` at its end.
pub fn strip_affixes<'a>(name: &'a str, prefix: &str, suffix: &str) -> (r: &'a str)
    ensures
        r@ == stripped(name@, prefix@, suffix@),
{
    let mut rest = name;
    if prefix.unicode_len() > 0 && starts_with_str(&chars_of(name), prefix) {
        rest = name.substring_char(prefix.unicode_len(), name.unicode_len());
        assert(name@.subrange(prefix@.len() as int, name@.len() as int) == name@.skip(prefix@.len() as int));
    }
    if suffix.unicode_len() > 0 && ends_with(rest, suffix) {
        let n = rest.unicode_len();
        let out = rest.substring_char(0, n - suffix.unicode_len());
        assert(rest@.subrange(0, n - suffix@.len()) == rest@.take(n - suffix@.len()));
        return out;
    }
    rest
}

/// The version whose text is exactly `text`, read by semver.
pub fn parse_version(text: &str) -> (r: Option<Version>)
    ensures
        r == version_of(text@),
{
    match parse_semver(text) {
        Ok((a, b, c, pre, build)) => {
            if pre.as_str().is_empty() && build.as_str().is_empty() {
                let v = Version { major: a, minor: b, patch: c };
                proof {
                    assert(v.text() == text@);
                    let w = choose|w: Version| w.text() == text@;
                    lemma_version_text_injective(
                        w.major as nat,
                        w.minor as nat,
                        w.patch as nat,
                        a as nat,
                        b as nat,
                        c as nat,
                    );
                }
                Some(v)
            } else {
                proof {
                    assert forall|v: Version| v.text() != text@ by {
                        if v.text() == text@ {
                            assert(version_text(v.major as nat, v.minor as nat, v.patch as nat) == text@);
                        }
                    }
                }
                None
            }
        },
        Err(_) => {
            proof {
                assert forall|v: Version| v.text() != text@ by {
                    if v.text() == text@ {
                        assert(version_text(v.major as nat, v.minor as nat, v.patch as nat) == text@);
                    }
                }
            }
            None
        },
    }
}

/// The version that `name` stands for once `prefix` and `suffix` are removed;
/// `None` for a tag that is no release.
pub fn decode_tag(name: &str, prefix: &str, suffix: &str) -> (r: Option<Version>)
    ensures
        r == decoded(name@, prefix@, suffix@),
{
    parse_version(strip_affixes(name, prefix, suffix))
}

/// Where the greatest version stands among tag names, and what it is.
#[derive(Debug, Clone, Copy)]
pub struct Latest {
    pub index: usize,
    pub version: Version,
}

/// The position and version of a name that decodes to the greatest version.
pub fn latest_index(names: &Vec<String>, prefix: &str, suffix: &str) -> (r: Option<Latest>)
    ensures
        r is None <==> none_decoded(texts(names@), prefix@, suffix@),
        r matches Some(l) ==> l.index < names.len() && decoded(names@[l.index as int]@, prefix@, suffix@)
            == Some(l.version) && greatest_decoded(texts(names@), prefix@, suffix@, l.version),
{
    let ghost ns = texts(names@);
    let ghost p = prefix@;
    let ghost s = suffix@;
    let mut best: Option<Latest> = None;
    let mut i: usize = 0;
    while i < names.len()
        invariant
            ns == texts(names@),
            p == prefix@,
            s == suffix@,
            i <= names.len(),
            best is None ==> forall|j: int| 0 <= j < i ==> #[trigger] decoded(ns[j], p, s) is None,
            best matches Some(l) ==> l.index < i && decoded(ns[l.index as int], p, s) == Some(l.version),
            best matches Some(l) ==> forall|j: int|
                0 <= j < i && #[trigger] decoded(ns[j], p, s) is Some ==> decoded(ns[j], p, s)->0.le(
                    l.version,
                ),
        decreases names.len() - i,
    {
        let d = decode_tag(names[i].as_str(), prefix, suffix);
        assert(ns[i as int] == names@[i as int]@);
        match d {
            Some(v) => {
                let replace = match best {
                    Some(l) => l.version.is_at_most(&v),
                    None => true,
                };
                if replace {
                    best = Some(Latest { index: i, version: v });
                }
            },
            None => {},
        }
        i = i + 1;
    }
    proof {
        if let Some(l) = best {
            let k = l.index as int;
            assert(0 <= k < ns.len() && decoded(ns[k], p, s) == Some(l.version));
        }
    }
    best
}

/// The greatest version among the tag names, or `initial` when none of them
/// decodes to a version.
pub fn resolve_version(names: &Vec<String>, prefix: &str, suffix: &str, initial: Version) -> (r: Version)
    ensures
        none_decoded(texts(names@), prefix@, suffix@) ==> r == initial,
        !none_decoded(texts(names@), prefix@, suffix@) ==> greatest_decoded(
            texts(names@),
            prefix@,
            suffix@,
            r,
        ),
{
    match latest_index(names, prefix, suffix) {
        Some(l) => l.version,
        None => initial,
    }
}

/// The names of the tags, in order.
pub fn names_of(tags: &Vec<Tag>) -> (r: Vec<String>)
    ensures
        texts(r@) == tag_names(tags@),
{
    let mut r: Vec<String> = Vec::new();
    let mut i: usize = 0;
    while i < tags.len()
        invariant
            i <= tags.len(),
            r@.len() == i,
            forall|j: int| 0 <= j < i ==> #[trigger] r@[j]@ == tags@[j].name@,
        decreases tags.len() - i,
    {
        r.push(tags[i].name.clone());
        i = i + 1;
    }
    assert(texts(r@) =~= tag_names(tags@));
    r
}

/// The commit of the tag whose version is the greatest, or `None` when no tag
/// decodes to a version.
pub fn find_previous_release_commit(tags: &Vec<Tag>, prefix: &str, suffix: &str) -> (r: Option<String>)
    ensures
        r is None <==> none_decoded(tag_names(tags@), prefix@, suffix@),
        r matches Some(sha) ==> is_previous_release(tags@, prefix@, suffix@, sha@),
{
    let names = names_of(tags);
    match latest_index(&names, prefix, suffix) {
        Some(l) => {
            let k = l.index;
            assert(texts(names@)[k as int] == tags@[k as int].name@);
            let sha = tags[k].commit.sha.clone();
            assert(tags@[k as int].commit.sha@ == sha@ && decoded(tags@[k as int].name@, prefix@, suffix@)
                == Some(l.version));
            Some(sha)
        },
        None => None,
    }
}

/// Works out versions for one repository under one configuration.
pub struct VersionManager<'a> {
    pub config: &'a Config,
    pub repo_info: &'a RepositoryInfo,
}

impl<'a> VersionManager<'a> {
    pub fn new(config: &'a Config, repo_info: &'a RepositoryInfo) -> (r: Self)
        ensures
            r.config == config,
            r.repo_info == repo_info,
    {
        VersionManager { config, repo_info }
    }

    /// The released version: the greatest among the tags under the configured
    /// prefix and suffix, or else the configured initial version, which must then
    /// be `major.minor.patch`.
    pub fn get_current_version(&self, tags: &Vec<Tag>) -> (r: Result<Version, VersionError>)
        ensures
            ({
                let vc = self.config.version;
                let names = tag_names(tags@);
                &&& !none_decoded(names, vc.prefix_text(), vc.suffix_text()) ==> r is Ok
                    && greatest_decoded(names, vc.prefix_text(), vc.suffix_text(), r->Ok_0)
                &&& none_decoded(names, vc.prefix_text(), vc.suffix_text()) ==> match version_of(
                    vc.initial_text(),
                ) {
                    Some(v) => r == Ok::<Version, VersionError>(v),
                    None => r == Err::<Version, VersionError>(VersionError::InvalidInitialVersion),
                }
            }),
    {
        let vc = &self.config.version;
        let names = names_of(tags);
        match latest_index(&names, vc.prefix(), vc.suffix()) {
            Some(l) => Ok(l.version),
            None => match parse_version(vc.initial()) {
                Some(v) => Ok(v),
                None => Err(VersionError::InvalidInitialVersion),
            },
        }
    }

    /// The version after a bump of kind `bump_type`.
    pub fn calculate_new_version(&self, current: &Version, bump_type: &BumpType) -> (r: Result<
        Version,
        VersionError,
    >)
        ensures
            current.can_bump(*bump_type) ==> r == Ok::<Version, VersionError>(
                current.bumped(*bump_type),
            ),
            !current.can_bump(*bump_type) ==> r == Err::<Version, VersionError>(
                VersionError::Overflow,
            ),
    {
        next_version(current, bump_type)
    }
}

} // verus!
