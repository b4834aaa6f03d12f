//! Version control: reading a git repository and the history of a release.

pub mod git;
pub mod release_history;
