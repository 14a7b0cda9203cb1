use vstd::prelude::*;
use vstd::string::*;
use crate::conventional_commit::{parse_model, CommitModel, ConventionalCommit, ParseError};
use crate::text::{opt_view, same_text};

verus! {

/// serde_json's error, carried as an opaque value.
#[verifier::external_type_specification]
#[verifier::external_body]
pub struct ExJsonError(serde_json::Error);

/// What reading an event document with serde_json gives: `None` when the text is
/// no JSON, else the string at `/pull_request/title`, if there is one.
pub uninterp spec fn pr_title_of(event: Seq<char>) -> Option<Option<Seq<char>>>;

/// Relies on `serde_json::from_str` into a `Value`, then `Value::pointer` and
/// `Value::as_str`: the text at `/pull_request/title` when that is a JSON string.
/// The result depends on the text alone.
#[verifier::external_body]
fn read_pr_title(event_data: &str) -> (r: Result<Option<String>, serde_json::Error>)
    ensures
        r is Err <==> pr_title_of(event_data@) is None,
        r is Ok ==> pr_title_of(event_data@) == Some(opt_view(r->Ok_0)),
{
    let v: serde_json::Value = match serde_json::from_str(event_data) {
        Ok(v) => v,
        Err(e) => return Err(e),
    };
    match v.pointer("/pull_request/title") {
        Some(t) => match t.as_str() {
            Some(s) => Ok(Some(s.to_string())),
            None => Ok(None),
        },
        None => Ok(None),
    }
}

/// Why a pull request event could not be checked.
#[derive(Debug)]
pub enum EventError {
    /// The event is not JSON.
    InvalidJson(serde_json::Error),
    /// The event has no pull request title.
    MissingTitle,
}

/// A pull request title and what reading it as a conventional commit gives.
#[derive(Debug)]
pub struct TitleCheck {
    pub title: String,
    pub commit: Result<ConventionalCommit, ParseError>,
}

/// Whether `commit` is what parsing `title` gives.
pub open spec fn parsed_as(title: Seq<char>, commit: Result<ConventionalCommit, ParseError>) -> bool {
    match commit {
        Ok(c) => parse_model(title) == Ok::<CommitModel, ParseError>(c@),
        Err(e) => parse_model(title) == Err::<CommitModel, ParseError>(e),
    }
}

/// Checks a pull request title, when there is one, against the commit grammar.
pub fn check_title(title: Option<String>) -> (r: Result<TitleCheck, EventError>)
    ensures
        title is None ==> r matches Err(EventError::MissingTitle),
        title matches Some(t) ==> r matches Ok(c) && c.title@ == t@ && parsed_as(t@, c.commit),
{
    match title {
        Some(t) => {
            let commit = ConventionalCommit::parse(t.as_str());
            Ok(TitleCheck { title: t, commit })
        },
        None => Err(EventError::MissingTitle),
    }
}

/// Reads the title of the pull request in an event document and checks it
/// against the commit grammar.
pub fn check_pr_title(event_data: &str) -> (r: Result<TitleCheck, EventError>)
    ensures
        pr_title_of(event_data@) is None ==> r matches Err(EventError::InvalidJson(_)),
        pr_title_of(event_data@) matches Some(None) ==> r matches Err(EventError::MissingTitle),
        pr_title_of(event_data@) matches Some(Some(t)) ==> r matches Ok(c) && c.title@ == t
            && parsed_as(t, c.commit),
{
    match read_pr_title(event_data) {
        Ok(title) => check_title(title),
        Err(e) => Err(EventError::InvalidJson(e)),
    }
}

/// Whether the run was started by a pull request event, which is then checked
/// rather than released.
pub fn should_validate_pr(event_name: Option<&str>) -> (r: bool)
    ensures
        r == (event_name is Some && event_name->0@ == "pull_request"@),
{
    match event_name {
        Some(n) => same_text(n, "pull_request"),
        None => false,
    }
}

} // verus!
