use vstd::prelude::*;

verus! {

/// A tag of the repository and the commit it names.
#[derive(Debug, Clone)]
pub struct Tag {
    pub name: String,
    pub commit: GitCommit,
}

/// A commit, by its hash.
#[derive(Debug, Clone)]
pub struct GitCommit {
    pub sha: String,
}

} // verus!
