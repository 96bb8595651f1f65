//! Requests to the GitHub REST API.
use vstd::prelude::*;

pub mod repository;

verus! {

/// A request to GitHub that failed.
#[derive(Clone, Copy, Debug, PartialEq, Eq, Structural)]
pub enum GithubFailure {
    Fail,
}

impl GithubFailure {
    /// The message for this failure.
    pub fn message(&self) -> (m: &'static str)
        ensures
            m@ == "failed"@,
    {
        "failed"
    }
}

} // verus!
