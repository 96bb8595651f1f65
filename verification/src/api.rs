//! The GitHub API: webhook payload values and REST request parameters.
pub mod common;
pub mod enums;
pub mod events;
pub mod rest;

pub use enums::{
    AuthorAssociation, CheckStatus, ConclusionStatus, EventKind, FileStatus, IssueState,
    LockReason, MergeStateStatus, RepoCreationType, RepoPermission, RepoSelection, Type,
    WorkflowEvent,
};
