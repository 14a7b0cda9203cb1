use vstd::prelude::*;
use crate::conventional_commit::{bump_of, parse_model, ConventionalCommit};

verus! {

/// How far a change moves the version: `Major > Minor > Patch > NoBump`.
#[derive(Debug, Clone, Copy, PartialEq, Eq, Structural)]
pub enum BumpType {
    Major,
    Minor,
    Patch,
    NoBump,
}

/// The bump that a commit message asks for; a message that is no conventional
/// commit asks for none.
pub open spec fn classified(m: Seq<char>) -> BumpType {
    match parse_model(m) {
        Ok(c) => bump_of(c),
        Err(_) => BumpType::NoBump,
    }
}

impl BumpType {
    /// The bump that `message` asks for, read as a conventional commit.
    pub fn from_conventional_commit(message: &str) -> (r: BumpType)
        ensures
            r == classified(message@),
    {
        match ConventionalCommit::parse(message) {
            Ok(c) => c.bump_type(),
            Err(_) => BumpType::NoBump,
        }
    }
}

} // verus!
