//! Records exchanged with the repository and the hosting platform.
pub mod git;
pub mod github;
