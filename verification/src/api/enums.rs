//! The named values that webhook payloads carry, and their names in JSON.
use vstd::prelude::*;

use crate::text::str_eq;

verus! {

/// The kind of account a user is.
#[derive(Clone, Copy, Debug, PartialEq, Eq, Structural)]
pub enum Type {
    User,
    Organization,
}

impl Type {
    /// The name of this variant in GitHub's JSON.
    pub open spec fn spec_name(&self) -> Seq<char> {
        match self {
            Type::User => "User"@,
            Type::Organization => "Organization"@,
        }
    }

    /// The variant a known name stands for.
    pub open spec fn spec_from_name(s: Seq<char>) -> Option<Self> {
        if s == "User"@ {
            Some(Type::User)
        } else if s == "Organization"@ {
            Some(Type::Organization)
        } else {
            None
        }
    }

    /// The name of this variant in GitHub's JSON.
    pub fn as_str(&self) -> (s: &'static str)
        ensures
            s@ == self.spec_name(),
    {
        match self {
            Type::User => "User",
            Type::Organization => "Organization",
        }
    }

    /// The variant a name stands for, if the name is known.
    pub fn from_name(s: &str) -> (r: Option<Self>)
        ensures
            r == Self::spec_from_name(s@),
    {
        if str_eq(s, "User") {
            Some(Type::User)
        } else if str_eq(s, "Organization") {
            Some(Type::Organization)
        } else {
            None
        }
    }

    /// Reading the name of a known variant gives the variant back.
    pub proof fn law_name_round_trip(x: Self)
        ensures
            Self::spec_from_name(x.spec_name()) == Some(x),
    {
        reveal_strlit("User");
        reveal_strlit("Organization");
        assert("User"@.len() == 4);
        assert("Organization"@.len() == 12);
    }
}

/// Why an issue or pull request was locked.
#[derive(Clone, Copy, Debug, PartialEq, Eq, Structural)]
pub enum LockReason {
    /// Locked because it was resolved.
    Resolved,
    /// Locked because it was off topic.
    OffTopic,
    /// Locked because it was too heated.
    TooHeated,
    /// Locked because of spam.
    Spam,
}

impl LockReason {
    /// The name of this variant in GitHub's JSON.
    pub open spec fn spec_name(&self) -> Seq<char> {
        match self {
            LockReason::Resolved => "resolved"@,
            LockReason::OffTopic => "off-topic"@,
            LockReason::TooHeated => "too heated"@,
            LockReason::Spam => "spam"@,
        }
    }

    /// The variant a known name stands for.
    pub open spec fn spec_from_name(s: Seq<char>) -> Option<Self> {
        if s == "resolved"@ {
            Some(LockReason::Resolved)
        } else if s == "off-topic"@ {
            Some(LockReason::OffTopic)
        } else if s == "too heated"@ {
            Some(LockReason::TooHeated)
        } else if s == "spam"@ {
            Some(LockReason::Spam)
        } else {
            None
        }
    }

    /// The name of this variant in GitHub's JSON.
    pub fn as_str(&self) -> (s: &'static str)
        ensures
            s@ == self.spec_name(),
    {
        match self {
            LockReason::Resolved => "resolved",
            LockReason::OffTopic => "off-topic",
            LockReason::TooHeated => "too heated",
            LockReason::Spam => "spam",
        }
    }

    /// The variant a name stands for, if the name is known.
    pub fn from_name(s: &str) -> (r: Option<Self>)
        ensures
            r == Self::spec_from_name(s@),
    {
        if str_eq(s, "resolved") {
            Some(LockReason::Resolved)
        } else if str_eq(s, "off-topic") {
            Some(LockReason::OffTopic)
        } else if str_eq(s, "too heated") {
            Some(LockReason::TooHeated)
        } else if str_eq(s, "spam") {
            Some(LockReason::Spam)
        } else {
            None
        }
    }

    /// Reading the name of a known variant gives the variant back.
    pub proof fn law_name_round_trip(x: Self)
        ensures
            Self::spec_from_name(x.spec_name()) == Some(x),
    {
        reveal_strlit("resolved");
        reveal_strlit("off-topic");
        reveal_strlit("too heated");
        reveal_strlit("spam");
        assert("resolved"@.len() == 8);
        assert("off-topic"@.len() == 9);
        assert("too heated"@.len() == 10);
        assert("spam"@.len() == 4);
    }
}

/// Which repositories an installation may reach.
#[derive(Clone, Copy, Debug, PartialEq, Eq, Structural)]
pub enum RepoSelection {
    All,
    Selected,
}

impl RepoSelection {
    /// The name of this variant in GitHub's JSON.
    pub open spec fn spec_name(&self) -> Seq<char> {
        match self {
            RepoSelection::All => "all"@,
            RepoSelection::Selected => "selected"@,
        }
    }

    /// The variant a known name stands for.
    pub open spec fn spec_from_name(s: Seq<char>) -> Option<Self> {
        if s == "all"@ {
            Some(RepoSelection::All)
        } else if s == "selected"@ {
            Some(RepoSelection::Selected)
        } else {
            None
        }
    }

    /// The name of this variant in GitHub's JSON.
    pub fn as_str(&self) -> (s: &'static str)
        ensures
            s@ == self.spec_name(),
    {
        match self {
            RepoSelection::All => "all",
            RepoSelection::Selected => "selected",
        }
    }

    /// The variant a name stands for, if the name is known.
    pub fn from_name(s: &str) -> (r: Option<Self>)
        ensures
            r == Self::spec_from_name(s@),
    {
        if str_eq(s, "all") {
            Some(RepoSelection::All)
        } else if str_eq(s, "selected") {
            Some(RepoSelection::Selected)
        } else {
            None
        }
    }

    /// Reading the name of a known variant gives the variant back.
    pub proof fn law_name_round_trip(x: Self)
        ensures
            Self::spec_from_name(x.spec_name()) == Some(x),
    {
        reveal_strlit("all");
        reveal_strlit("selected");
        assert("all"@.len() == 3);
        assert("selected"@.len() == 8);
    }
}

/// The access a permission grants.
#[derive(Clone, Copy, Debug, PartialEq, Eq, Structural)]
pub enum RepoPermission {
    /// Read only access.
    Read,
    /// Write access.
    Write,
    /// Complete administrative access.
    Admin,
    /// No access (`none`): the same as `null` or no entry in the JSON.
    NoAccess,
}

impl RepoPermission {
    /// The name of this variant in GitHub's JSON.
    pub open spec fn spec_name(&self) -> Seq<char> {
        match self {
            RepoPermission::Read => "read"@,
            RepoPermission::Write => "write"@,
            RepoPermission::Admin => "admin"@,
            RepoPermission::NoAccess => "none"@,
        }
    }

    /// The variant a known name stands for.
    pub open spec fn spec_from_name(s: Seq<char>) -> Option<Self> {
        if s == "read"@ {
            Some(RepoPermission::Read)
        } else if s == "write"@ {
            Some(RepoPermission::Write)
        } else if s == "admin"@ {
            Some(RepoPermission::Admin)
        } else if s == "none"@ {
            Some(RepoPermission::NoAccess)
        } else {
            None
        }
    }

    /// The name of this variant in GitHub's JSON.
    pub fn as_str(&self) -> (s: &'static str)
        ensures
            s@ == self.spec_name(),
    {
        match self {
            RepoPermission::Read => "read",
            RepoPermission::Write => "write",
            RepoPermission::Admin => "admin",
            RepoPermission::NoAccess => "none",
        }
    }

    /// The variant a name stands for, if the name is known.
    pub fn from_name(s: &str) -> (r: Option<Self>)
        ensures
            r == Self::spec_from_name(s@),
    {
        if str_eq(s, "read") {
            Some(RepoPermission::Read)
        } else if str_eq(s, "write") {
            Some(RepoPermission::Write)
        } else if str_eq(s, "admin") {
            Some(RepoPermission::Admin)
        } else if str_eq(s, "none") {
            Some(RepoPermission::NoAccess)
        } else {
            None
        }
    }

    /// Reading the name of a known variant gives the variant back.
    pub proof fn law_name_round_trip(x: Self)
        ensures
            Self::spec_from_name(x.spec_name()) == Some(x),
    {
        reveal_strlit("read");
        reveal_strlit("write");
        reveal_strlit("admin");
        reveal_strlit("none");
        assert("read"@.len() == 4);
        assert("write"@.len() == 5);
        assert("admin"@.len() == 5);
        assert("none"@.len() == 4);
        assert("admin"@[0] == 'a');
        assert("none"@[0] == 'n');
        assert("read"@[0] == 'r');
        assert("write"@[0] == 'w');
    }
}

impl Default for RepoPermission {
    fn default() -> (d: Self)
        ensures
            d == RepoPermission::NoAccess,
    {
        RepoPermission::NoAccess
    }
}

/// Which repositories members may create.
#[derive(Clone, Copy, Debug, PartialEq, Eq, Structural)]
pub enum RepoCreationType {
    All,
    Private,
    /// Members may create no repositories (`none`).
    NoRepos,
}

impl RepoCreationType {
    /// The name of this variant in GitHub's JSON.
    pub open spec fn spec_name(&self) -> Seq<char> {
        match self {
            RepoCreationType::All => "all"@,
            RepoCreationType::Private => "private"@,
            RepoCreationType::NoRepos => "none"@,
        }
    }

    /// The variant a known name stands for.
    pub open spec fn spec_from_name(s: Seq<char>) -> Option<Self> {
        if s == "all"@ {
            Some(RepoCreationType::All)
        } else if s == "private"@ {
            Some(RepoCreationType::Private)
        } else if s == "none"@ {
            Some(RepoCreationType::NoRepos)
        } else {
            None
        }
    }

    /// The name of this variant in GitHub's JSON.
    pub fn as_str(&self) -> (s: &'static str)
        ensures
            s@ == self.spec_name(),
    {
        match self {
            RepoCreationType::All => "all",
            RepoCreationType::Private => "private",
            RepoCreationType::NoRepos => "none",
        }
    }

    /// The variant a name stands for, if the name is known.
    pub fn from_name(s: &str) -> (r: Option<Self>)
        ensures
            r == Self::spec_from_name(s@),
    {
        if str_eq(s, "all") {
            Some(RepoCreationType::All)
        } else if str_eq(s, "private") {
            Some(RepoCreationType::Private)
        } else if str_eq(s, "none") {
            Some(RepoCreationType::NoRepos)
        } else {
            None
        }
    }

    /// Reading the name of a known variant gives the variant back.
    pub proof fn law_name_round_trip(x: Self)
        ensures
            Self::spec_from_name(x.spec_name()) == Some(x),
    {
        reveal_strlit("all");
        reveal_strlit("private");
        reveal_strlit("none");
        assert("all"@.len() == 3);
        assert("private"@.len() == 7);
        assert("none"@.len() == 4);
    }
}

impl Default for RepoCreationType {
    fn default() -> (d: Self)
        ensures
            d == RepoCreationType::All,
    {
        RepoCreationType::All
    }
}

/// The state of an issue or pull request.
#[derive(Clone, Copy, Debug, PartialEq, Eq, Structural)]
pub enum IssueState {
    Open,
    Closed,
    Unknown,
}

impl IssueState {
    /// The name of this variant in GitHub's JSON.
    pub open spec fn spec_name(&self) -> Seq<char> {
        match self {
            IssueState::Open => "open"@,
            IssueState::Closed => "closed"@,
            IssueState::Unknown => "unknown"@,
        }
    }

    /// The variant a known name stands for.
    pub open spec fn spec_from_name(s: Seq<char>) -> Option<Self> {
        if s == "open"@ {
            Some(IssueState::Open)
        } else if s == "closed"@ {
            Some(IssueState::Closed)
        } else if s == "unknown"@ {
            Some(IssueState::Unknown)
        } else {
            None
        }
    }

    /// The name of this variant in GitHub's JSON.
    pub fn as_str(&self) -> (s: &'static str)
        ensures
            s@ == self.spec_name(),
    {
        match self {
            IssueState::Open => "open",
            IssueState::Closed => "closed",
            IssueState::Unknown => "unknown",
        }
    }

    /// The variant a name stands for, if the name is known.
    pub fn from_name(s: &str) -> (r: Option<Self>)
        ensures
            r == Self::spec_from_name(s@),
    {
        if str_eq(s, "open") {
            Some(IssueState::Open)
        } else if str_eq(s, "closed") {
            Some(IssueState::Closed)
        } else if str_eq(s, "unknown") {
            Some(IssueState::Unknown)
        } else {
            None
        }
    }

    /// Reading the name of a known variant gives the variant back.
    pub proof fn law_name_round_trip(x: Self)
        ensures
            Self::spec_from_name(x.spec_name()) == Some(x),
    {
        reveal_strlit("open");
        reveal_strlit("closed");
        reveal_strlit("unknown");
        assert("open"@.len() == 4);
        assert("closed"@.len() == 6);
        assert("unknown"@.len() == 7);
    }
}

impl Default for IssueState {
    fn default() -> (d: Self)
        ensures
            d == IssueState::Open,
    {
        IssueState::Open
    }
}

/// The kinds of payload that GitHub webhooks send.
#[derive(Clone, Copy, Debug, PartialEq, Eq, Structural)]
pub enum EventKind {
    CheckRun,
    CheckSuite,
    CodeScanningAlert,
    CommitComment,
    ContentReference,
    Create,
    Delete,
    Deployment,
    DeploymentReview,
    DeploymentStatus,
    DeployKey,
    Discussion,
    DiscussionComment,
    Fork,
    Gollum,
    Installation,
    Issues,
    IssueComment,
    Label,
    Member,
    Membership,
    Milestone,
    Organization,
    OrgBlock,
    PageBuild,
    Ping,
    Project,
    ProjectCard,
    ProjectColumn,
    Public,
    PullRequest,
    PullRequestReview,
    PullRequestReviewComment,
    Push,
    RegistryPackage,
    Release,
    Repository,
    RepositoryDispatch,
    SecretScanningAlert,
    Star,
    Status,
    Team,
    TeamAdd,
    Watch,
    WorkflowDispatch,
    WorkflowRun,
}

impl EventKind {
    /// The name of this variant in GitHub's JSON.
    pub open spec fn spec_name(&self) -> Seq<char> {
        match self {
            EventKind::CheckRun => "check_run"@,
            EventKind::CheckSuite => "check_suite"@,
            EventKind::CodeScanningAlert => "code_scanning_alert"@,
            EventKind::CommitComment => "commit_comment"@,
            EventKind::ContentReference => "content_reference"@,
            EventKind::Create => "create"@,
            EventKind::Delete => "delete"@,
            EventKind::Deployment => "deployment"@,
            EventKind::DeploymentReview => "deployment_review"@,
            EventKind::DeploymentStatus => "deployment_status"@,
            EventKind::DeployKey => "deploy_key"@,
            EventKind::Discussion => "discussion"@,
            EventKind::DiscussionComment => "discussion_comment"@,
            EventKind::Fork => "fork"@,
            EventKind::Gollum => "gollum"@,
            EventKind::Installation => "installation"@,
            EventKind::Issues => "issues"@,
            EventKind::IssueComment => "issue_comment"@,
            EventKind::Label => "label"@,
            EventKind::Member => "member"@,
            EventKind::Membership => "membership"@,
            EventKind::Milestone => "milestone"@,
            EventKind::Organization => "organization"@,
            EventKind::OrgBlock => "org_block"@,
            EventKind::PageBuild => "page_build"@,
            EventKind::Ping => "ping"@,
            EventKind::Project => "project"@,
            EventKind::ProjectCard => "project_card"@,
            EventKind::ProjectColumn => "project_column"@,
            EventKind::Public => "public"@,
            EventKind::PullRequest => "pull_request"@,
            EventKind::PullRequestReview => "pull_request_review"@,
            EventKind::PullRequestReviewComment => "pull_request_review_comment"@,
            EventKind::Push => "push"@,
            EventKind::RegistryPackage => "registry_package"@,
            EventKind::Release => "release"@,
            EventKind::Repository => "repository"@,
            EventKind::RepositoryDispatch => "repository_dispatch"@,
            EventKind::SecretScanningAlert => "secret_scanning_alert"@,
            EventKind::Star => "star"@,
            EventKind::Status => "status"@,
            EventKind::Team => "team"@,
            EventKind::TeamAdd => "team_add"@,
            EventKind::Watch => "watch"@,
            EventKind::WorkflowDispatch => "workflow_dispatch"@,
            EventKind::WorkflowRun => "workflow_run"@,
        }
    }

    /// The variant a known name stands for.
    pub open spec fn spec_from_name(s: Seq<char>) -> Option<Self> {
        if s == "check_run"@ {
            Some(EventKind::CheckRun)
        } else if s == "check_suite"@ {
            Some(EventKind::CheckSuite)
        } else if s == "code_scanning_alert"@ {
            Some(EventKind::CodeScanningAlert)
        } else if s == "commit_comment"@ {
            Some(EventKind::CommitComment)
        } else if s == "content_reference"@ {
            Some(EventKind::ContentReference)
        } else if s == "create"@ {
            Some(EventKind::Create)
        } else if s == "delete"@ {
            Some(EventKind::Delete)
        } else if s == "deployment"@ {
            Some(EventKind::Deployment)
        } else if s == "deployment_review"@ {
            Some(EventKind::DeploymentReview)
        } else if s == "deployment_status"@ {
            Some(EventKind::DeploymentStatus)
        } else if s == "deploy_key"@ {
            Some(EventKind::DeployKey)
        } else if s == "discussion"@ {
            Some(EventKind::Discussion)
        } else if s == "discussion_comment"@ {
            Some(EventKind::DiscussionComment)
        } else if s == "fork"@ {
            Some(EventKind::Fork)
        } else if s == "gollum"@ {
            Some(EventKind::Gollum)
        } else if s == "installation"@ {
            Some(EventKind::Installation)
        } else if s == "issues"@ {
            Some(EventKind::Issues)
        } else if s == "issue_comment"@ {
            Some(EventKind::IssueComment)
        } else if s == "label"@ {
            Some(EventKind::Label)
        } else if s == "member"@ {
            Some(EventKind::Member)
        } else if s == "membership"@ {
            Some(EventKind::Membership)
        } else if s == "milestone"@ {
            Some(EventKind::Milestone)
        } else if s == "organization"@ {
            Some(EventKind::Organization)
        } else if s == "org_block"@ {
            Some(EventKind::OrgBlock)
        } else if s == "page_build"@ {
            Some(EventKind::PageBuild)
        } else if s == "ping"@ {
            Some(EventKind::Ping)
        } else if s == "project"@ {
            Some(EventKind::Project)
        } else if s == "project_card"@ {
            Some(EventKind::ProjectCard)
        } else if s == "project_column"@ {
            Some(EventKind::ProjectColumn)
        } else if s == "public"@ {
            Some(EventKind::Public)
        } else if s == "pull_request"@ {
            Some(EventKind::PullRequest)
        } else if s == "pull_request_review"@ {
            Some(EventKind::PullRequestReview)
        } else if s == "pull_request_review_comment"@ {
            Some(EventKind::PullRequestReviewComment)
        } else if s == "push"@ {
            Some(EventKind::Push)
        } else if s == "registry_package"@ {
            Some(EventKind::RegistryPackage)
        } else if s == "release"@ {
            Some(EventKind::Release)
        } else if s == "repository"@ {
            Some(EventKind::Repository)
        } else if s == "repository_dispatch"@ {
            Some(EventKind::RepositoryDispatch)
        } else if s == "secret_scanning_alert"@ {
            Some(EventKind::SecretScanningAlert)
        } else if s == "star"@ {
            Some(EventKind::Star)
        } else if s == "status"@ {
            Some(EventKind::Status)
        } else if s == "team"@ {
            Some(EventKind::Team)
        } else if s == "team_add"@ {
            Some(EventKind::TeamAdd)
        } else if s == "watch"@ {
            Some(EventKind::Watch)
        } else if s == "workflow_dispatch"@ {
            Some(EventKind::WorkflowDispatch)
        } else if s == "workflow_run"@ {
            Some(EventKind::WorkflowRun)
        } else {
            None
        }
    }

    /// The name of this variant in GitHub's JSON.
    pub fn as_str(&self) -> (s: &'static str)
        ensures
            s@ == self.spec_name(),
    {
        match self {
            EventKind::CheckRun => "check_run",
            EventKind::CheckSuite => "check_suite",
            EventKind::CodeScanningAlert => "code_scanning_alert",
            EventKind::CommitComment => "commit_comment",
            EventKind::ContentReference => "content_reference",
            EventKind::Create => "create",
            EventKind::Delete => "delete",
            EventKind::Deployment => "deployment",
            EventKind::DeploymentReview => "deployment_review",
            EventKind::DeploymentStatus => "deployment_status",
            EventKind::DeployKey => "deploy_key",
            EventKind::Discussion => "discussion",
            EventKind::DiscussionComment => "discussion_comment",
            EventKind::Fork => "fork",
            EventKind::Gollum => "gollum",
            EventKind::Installation => "installation",
            EventKind::Issues => "issues",
            EventKind::IssueComment => "issue_comment",
            EventKind::Label => "label",
            EventKind::Member => "member",
            EventKind::Membership => "membership",
            EventKind::Milestone => "milestone",
            EventKind::Organization => "organization",
            EventKind::OrgBlock => "org_block",
            EventKind::PageBuild => "page_build",
            EventKind::Ping => "ping",
            EventKind::Project => "project",
            EventKind::ProjectCard => "project_card",
            EventKind::ProjectColumn => "project_column",
            EventKind::Public => "public",
            EventKind::PullRequest => "pull_request",
            EventKind::PullRequestReview => "pull_request_review",
            EventKind::PullRequestReviewComment => "pull_request_review_comment",
            EventKind::Push => "push",
            EventKind::RegistryPackage => "registry_package",
            EventKind::Release => "release",
            EventKind::Repository => "repository",
            EventKind::RepositoryDispatch => "repository_dispatch",
            EventKind::SecretScanningAlert => "secret_scanning_alert",
            EventKind::Star => "star",
            EventKind::Status => "status",
            EventKind::Team => "team",
            EventKind::TeamAdd => "team_add",
            EventKind::Watch => "watch",
            EventKind::WorkflowDispatch => "workflow_dispatch",
            EventKind::WorkflowRun => "workflow_run",
        }
    }

    /// The variant a name stands for, if the name is known.
    pub fn from_name(s: &str) -> (r: Option<Self>)
        ensures
            r == Self::spec_from_name(s@),
    {
        if str_eq(s, "check_run") {
            Some(EventKind::CheckRun)
        } else if str_eq(s, "check_suite") {
            Some(EventKind::CheckSuite)
        } else if str_eq(s, "code_scanning_alert") {
            Some(EventKind::CodeScanningAlert)
        } else if str_eq(s, "commit_comment") {
            Some(EventKind::CommitComment)
        } else if str_eq(s, "content_reference") {
            Some(EventKind::ContentReference)
        } else if str_eq(s, "create") {
            Some(EventKind::Create)
        } else if str_eq(s, "delete") {
            Some(EventKind::Delete)
        } else if str_eq(s, "deployment") {
            Some(EventKind::Deployment)
        } else if str_eq(s, "deployment_review") {
            Some(EventKind::DeploymentReview)
        } else if str_eq(s, "deployment_status") {
            Some(EventKind::DeploymentStatus)
        } else if str_eq(s, "deploy_key") {
            Some(EventKind::DeployKey)
        } else if str_eq(s, "discussion") {
            Some(EventKind::Discussion)
        } else if str_eq(s, "discussion_comment") {
            Some(EventKind::DiscussionComment)
        } else if str_eq(s, "fork") {
            Some(EventKind::Fork)
        } else if str_eq(s, "gollum") {
            Some(EventKind::Gollum)
        } else if str_eq(s, "installation") {
            Some(EventKind::Installation)
        } else if str_eq(s, "issues") {
            Some(EventKind::Issues)
        } else if str_eq(s, "issue_comment") {
            Some(EventKind::IssueComment)
        } else if str_eq(s, "label") {
            Some(EventKind::Label)
        } else if str_eq(s, "member") {
            Some(EventKind::Member)
        } else if str_eq(s, "membership") {
            Some(EventKind::Membership)
        } else if str_eq(s, "milestone") {
            Some(EventKind::Milestone)
        } else if str_eq(s, "organization") {
            Some(EventKind::Organization)
        } else if str_eq(s, "org_block") {
            Some(EventKind::OrgBlock)
        } else if str_eq(s, "page_build") {
            Some(EventKind::PageBuild)
        } else if str_eq(s, "ping") {
            Some(EventKind::Ping)
        } else if str_eq(s, "project") {
            Some(EventKind::Project)
        } else if str_eq(s, "project_card") {
            Some(EventKind::ProjectCard)
        } else if str_eq(s, "project_column") {
            Some(EventKind::ProjectColumn)
        } else if str_eq(s, "public") {
            Some(EventKind::Public)
        } else if str_eq(s, "pull_request") {
            Some(EventKind::PullRequest)
        } else if str_eq(s, "pull_request_review") {
            Some(EventKind::PullRequestReview)
        } else if str_eq(s, "pull_request_review_comment") {
            Some(EventKind::PullRequestReviewComment)
        } else if str_eq(s, "push") {
            Some(EventKind::Push)
        } else if str_eq(s, "registry_package") {
            Some(EventKind::RegistryPackage)
        } else if str_eq(s, "release") {
            Some(EventKind::Release)
        } else if str_eq(s, "repository") {
            Some(EventKind::Repository)
        } else if str_eq(s, "repository_dispatch") {
            Some(EventKind::RepositoryDispatch)
        } else if str_eq(s, "secret_scanning_alert") {
            Some(EventKind::SecretScanningAlert)
        } else if str_eq(s, "star") {
            Some(EventKind::Star)
        } else if str_eq(s, "status") {
            Some(EventKind::Status)
        } else if str_eq(s, "team") {
            Some(EventKind::Team)
        } else if str_eq(s, "team_add") {
            Some(EventKind::TeamAdd)
        } else if str_eq(s, "watch") {
            Some(EventKind::Watch)
        } else if str_eq(s, "workflow_dispatch") {
            Some(EventKind::WorkflowDispatch)
        } else if str_eq(s, "workflow_run") {
            Some(EventKind::WorkflowRun)
        } else {
            None
        }
    }

    /// Reading the name of a known variant gives the variant back.
    pub proof fn law_name_round_trip(x: Self)
        ensures
            Self::spec_from_name(x.spec_name()) == Some(x),
    {
        reveal_strlit("check_run");
        reveal_strlit("check_suite");
        reveal_strlit("code_scanning_alert");
        reveal_strlit("commit_comment");
        reveal_strlit("content_reference");
        reveal_strlit("create");
        reveal_strlit("delete");
        reveal_strlit("deployment");
        reveal_strlit("deployment_review");
        reveal_strlit("deployment_status");
        reveal_strlit("deploy_key");
        reveal_strlit("discussion");
        reveal_strlit("discussion_comment");
        reveal_strlit("fork");
        reveal_strlit("gollum");
        reveal_strlit("installation");
        reveal_strlit("issues");
        reveal_strlit("issue_comment");
        reveal_strlit("label");
        reveal_strlit("member");
        reveal_strlit("membership");
        reveal_strlit("milestone");
        reveal_strlit("organization");
        reveal_strlit("org_block");
        reveal_strlit("page_build");
        reveal_strlit("ping");
        reveal_strlit("project");
        reveal_strlit("project_card");
        reveal_strlit("project_column");
        reveal_strlit("public");
        reveal_strlit("pull_request");
        reveal_strlit("pull_request_review");
        reveal_strlit("pull_request_review_comment");
        reveal_strlit("push");
        reveal_strlit("registry_package");
        reveal_strlit("release");
        reveal_strlit("repository");
        reveal_strlit("repository_dispatch");
        reveal_strlit("secret_scanning_alert");
        reveal_strlit("star");
        reveal_strlit("status");
        reveal_strlit("team");
        reveal_strlit("team_add");
        reveal_strlit("watch");
        reveal_strlit("workflow_dispatch");
        reveal_strlit("workflow_run");
        assert("check_run"@.len() == 9);
        assert("check_suite"@.len() == 11);
        assert("code_scanning_alert"@.len() == 19);
        assert("commit_comment"@.len() == 14);
        assert("content_reference"@.len() == 17);
        assert("create"@.len() == 6);
        assert("delete"@.len() == 6);
        assert("deployment"@.len() == 10);
        assert("deployment_review"@.len() == 17);
        assert("deployment_status"@.len() == 17);
        assert("deploy_key"@.len() == 10);
        assert("discussion"@.len() == 10);
        assert("discussion_comment"@.len() == 18);
        assert("fork"@.len() == 4);
        assert("gollum"@.len() == 6);
        assert("installation"@.len() == 12);
        assert("issues"@.len() == 6);
        assert("issue_comment"@.len() == 13);
        assert("label"@.len() == 5);
        assert("member"@.len() == 6);
        assert("membership"@.len() == 10);
        assert("milestone"@.len() == 9);
        assert("organization"@.len() == 12);
        assert("org_block"@.len() == 9);
        assert("page_build"@.len() == 10);
        assert("ping"@.len() == 4);
        assert("project"@.len() == 7);
        assert("project_card"@.len() == 12);
        assert("project_column"@.len() == 14);
        assert("public"@.len() == 6);
        assert("pull_request"@.len() == 12);
        assert("pull_request_review"@.len() == 19);
        assert("pull_request_review_comment"@.len() == 27);
        assert("push"@.len() == 4);
        assert("registry_package"@.len() == 16);
        assert("release"@.len() == 7);
        assert("repository"@.len() == 10);
        assert("repository_dispatch"@.len() == 19);
        assert("secret_scanning_alert"@.len() == 21);
        assert("star"@.len() == 4);
        assert("status"@.len() == 6);
        assert("team"@.len() == 4);
        assert("team_add"@.len() == 8);
        assert("watch"@.len() == 5);
        assert("workflow_dispatch"@.len() == 17);
        assert("workflow_run"@.len() == 12);
        assert("check_run"@[0] == 'c');
        assert("code_scanning_alert"@[0] == 'c');
        assert("commit_comment"@[0] == 'c');
        assert("content_reference"@[0] == 'c');
        assert("create"@[0] == 'c');
        assert("delete"@[0] == 'd');
        assert("deploy_key"@[0] == 'd');
        assert("deploy_key"@[1] == 'e');
        assert("deploy_key"@[6] == '_');
        assert("deployment"@[0] == 'd');
        assert("deployment"@[1] == 'e');
        assert("deployment"@[6] == 'm');
        assert("deployment_review"@[0] == 'd');
        assert("deployment_review"@[11] == 'r');
        assert("deployment_status"@[0] == 'd');
        assert("deployment_status"@[11] == 's');
        assert("discussion"@[0] == 'd');
        assert("discussion"@[1] == 'i');
        assert("fork"@[0] == 'f');
        assert("gollum"@[0] == 'g');
        assert("installation"@[0] == 'i');
        assert("issues"@[0] == 'i');
        assert("label"@[0] == 'l');
        assert("member"@[0] == 'm');
        assert("membership"@[0] == 'm');
        assert("milestone"@[0] == 'm');
        assert("org_block"@[0] == 'o');
        assert("organization"@[0] == 'o');
        assert("page_build"@[0] == 'p');
        assert("ping"@[0] == 'p');
        assert("ping"@[1] == 'i');
        assert("project"@[0] == 'p');
        assert("project_card"@[0] == 'p');
        assert("project_card"@[1] == 'r');
        assert("project_column"@[0] == 'p');
        assert("public"@[0] == 'p');
        assert("pull_request"@[0] == 'p');
        assert("pull_request"@[1] == 'u');
        assert("pull_request_review"@[0] == 'p');
        assert("push"@[0] == 'p');
        assert("push"@[1] == 'u');
        assert("release"@[0] == 'r');
        assert("repository"@[0] == 'r');
        assert("repository_dispatch"@[0] == 'r');
        assert("star"@[0] == 's');
        assert("status"@[0] == 's');
        assert("team"@[0] == 't');
        assert("watch"@[0] == 'w');
        assert("workflow_dispatch"@[0] == 'w');
        assert("workflow_run"@[0] == 'w');
    }
}

/// How the author of a comment or issue relates to the repository.
#[derive(Clone, Copy, Debug, PartialEq, Eq, Structural)]
pub enum AuthorAssociation {
    Collaborator,
    Contributor,
    FirstTime,
    FirstTimeContributor,
    Mannequin,
    Member,
    Owner,
    /// No association (`NONE`).
    NoAssociation,
}

impl AuthorAssociation {
    /// The name of this variant in GitHub's JSON.
    pub open spec fn spec_name(&self) -> Seq<char> {
        match self {
            AuthorAssociation::Collaborator => "COLLABORATOR"@,
            AuthorAssociation::Contributor => "CONTRIBUTOR"@,
            AuthorAssociation::FirstTime => "FIRST_TIME"@,
            AuthorAssociation::FirstTimeContributor => "FIRST_TIME_CONTRIBUTOR"@,
            AuthorAssociation::Mannequin => "MANNEQUIN"@,
            AuthorAssociation::Member => "MEMBER"@,
            AuthorAssociation::Owner => "OWNER"@,
            AuthorAssociation::NoAssociation => "NONE"@,
        }
    }

    /// The variant a known name stands for.
    pub open spec fn spec_from_name(s: Seq<char>) -> Option<Self> {
        if s == "COLLABORATOR"@ {
            Some(AuthorAssociation::Collaborator)
        } else if s == "CONTRIBUTOR"@ {
            Some(AuthorAssociation::Contributor)
        } else if s == "FIRST_TIME"@ {
            Some(AuthorAssociation::FirstTime)
        } else if s == "FIRST_TIME_CONTRIBUTOR"@ {
            Some(AuthorAssociation::FirstTimeContributor)
        } else if s == "MANNEQUIN"@ {
            Some(AuthorAssociation::Mannequin)
        } else if s == "MEMBER"@ {
            Some(AuthorAssociation::Member)
        } else if s == "OWNER"@ {
            Some(AuthorAssociation::Owner)
        } else if s == "NONE"@ {
            Some(AuthorAssociation::NoAssociation)
        } else {
            None
        }
    }

    /// The name of this variant in GitHub's JSON.
    pub fn as_str(&self) -> (s: &'static str)
        ensures
            s@ == self.spec_name(),
    {
        match self {
            AuthorAssociation::Collaborator => "COLLABORATOR",
            AuthorAssociation::Contributor => "CONTRIBUTOR",
            AuthorAssociation::FirstTime => "FIRST_TIME",
            AuthorAssociation::FirstTimeContributor => "FIRST_TIME_CONTRIBUTOR",
            AuthorAssociation::Mannequin => "MANNEQUIN",
            AuthorAssociation::Member => "MEMBER",
            AuthorAssociation::Owner => "OWNER",
            AuthorAssociation::NoAssociation => "NONE",
        }
    }

    /// The variant a name stands for, if the name is known.
    pub fn from_name(s: &str) -> (r: Option<Self>)
        ensures
            r == Self::spec_from_name(s@),
    {
        if str_eq(s, "COLLABORATOR") {
            Some(AuthorAssociation::Collaborator)
        } else if str_eq(s, "CONTRIBUTOR") {
            Some(AuthorAssociation::Contributor)
        } else if str_eq(s, "FIRST_TIME") {
            Some(AuthorAssociation::FirstTime)
        } else if str_eq(s, "FIRST_TIME_CONTRIBUTOR") {
            Some(AuthorAssociation::FirstTimeContributor)
        } else if str_eq(s, "MANNEQUIN") {
            Some(AuthorAssociation::Mannequin)
        } else if str_eq(s, "MEMBER") {
            Some(AuthorAssociation::Member)
        } else if str_eq(s, "OWNER") {
            Some(AuthorAssociation::Owner)
        } else if str_eq(s, "NONE") {
            Some(AuthorAssociation::NoAssociation)
        } else {
            None
        }
    }

    /// Reading the name of a known variant gives the variant back.
    pub proof fn law_name_round_trip(x: Self)
        ensures
            Self::spec_from_name(x.spec_name()) == Some(x),
    {
        reveal_strlit("COLLABORATOR");
        reveal_strlit("CONTRIBUTOR");
        reveal_strlit("FIRST_TIME");
        reveal_strlit("FIRST_TIME_CONTRIBUTOR");
        reveal_strlit("MANNEQUIN");
        reveal_strlit("MEMBER");
        reveal_strlit("OWNER");
        reveal_strlit("NONE");
        assert("COLLABORATOR"@.len() == 12);
        assert("CONTRIBUTOR"@.len() == 11);
        assert("FIRST_TIME"@.len() == 10);
        assert("FIRST_TIME_CONTRIBUTOR"@.len() == 22);
        assert("MANNEQUIN"@.len() == 9);
        assert("MEMBER"@.len() == 6);
        assert("OWNER"@.len() == 5);
        assert("NONE"@.len() == 4);
    }
}

impl Default for AuthorAssociation {
    fn default() -> (d: Self)
        ensures
            d == AuthorAssociation::NoAssociation,
    {
        AuthorAssociation::NoAssociation
    }
}

/// The status of a check.
#[derive(Clone, Copy, Debug, PartialEq, Eq, Structural)]
pub enum CheckStatus {
    /// There are checks queued to run.
    Queued,
    /// This check has finished.
    Completed,
    /// The check is in progress.
    InProgress,
    /// The check has been requested.
    Requested,
    /// No status (`none`): the same as no entry or `null`.
    Absent,
}

impl CheckStatus {
    /// The name of this variant in GitHub's JSON.
    pub open spec fn spec_name(&self) -> Seq<char> {
        match self {
            CheckStatus::Queued => "queued"@,
            CheckStatus::Completed => "completed"@,
            CheckStatus::InProgress => "in_progress"@,
            CheckStatus::Requested => "requested"@,
            CheckStatus::Absent => "none"@,
        }
    }

    /// The variant a known name stands for.
    pub open spec fn spec_from_name(s: Seq<char>) -> Option<Self> {
        if s == "queued"@ {
            Some(CheckStatus::Queued)
        } else if s == "completed"@ {
            Some(CheckStatus::Completed)
        } else if s == "in_progress"@ {
            Some(CheckStatus::InProgress)
        } else if s == "requested"@ {
            Some(CheckStatus::Requested)
        } else if s == "none"@ {
            Some(CheckStatus::Absent)
        } else {
            None
        }
    }

    /// The name of this variant in GitHub's JSON.
    pub fn as_str(&self) -> (s: &'static str)
        ensures
            s@ == self.spec_name(),
    {
        match self {
            CheckStatus::Queued => "queued",
            CheckStatus::Completed => "completed",
            CheckStatus::InProgress => "in_progress",
            CheckStatus::Requested => "requested",
            CheckStatus::Absent => "none",
        }
    }

    /// The variant a name stands for, if the name is known.
    pub fn from_name(s: &str) -> (r: Option<Self>)
        ensures
            r == Self::spec_from_name(s@),
    {
        if str_eq(s, "queued") {
            Some(CheckStatus::Queued)
        } else if str_eq(s, "completed") {
            Some(CheckStatus::Completed)
        } else if str_eq(s, "in_progress") {
            Some(CheckStatus::InProgress)
        } else if str_eq(s, "requested") {
            Some(CheckStatus::Requested)
        } else if str_eq(s, "none") {
            Some(CheckStatus::Absent)
        } else {
            None
        }
    }

    /// Reading the name of a known variant gives the variant back.
    pub proof fn law_name_round_trip(x: Self)
        ensures
            Self::spec_from_name(x.spec_name()) == Some(x),
    {
        reveal_strlit("queued");
        reveal_strlit("completed");
        reveal_strlit("in_progress");
        reveal_strlit("requested");
        reveal_strlit("none");
        assert("queued"@.len() == 6);
        assert("completed"@.len() == 9);
        assert("in_progress"@.len() == 11);
        assert("requested"@.len() == 9);
        assert("none"@.len() == 4);
        assert("completed"@[0] == 'c');
        assert("requested"@[0] == 'r');
    }
}

impl Default for CheckStatus {
    fn default() -> (d: Self)
        ensures
            d == CheckStatus::Absent,
    {
        CheckStatus::Absent
    }
}

/// How a finished check concluded.
#[derive(Clone, Copy, Debug, PartialEq, Eq, Structural)]
pub enum ConclusionStatus {
    Success,
    Failure,
    Neutral,
    Cancelled,
    TimeOut,
    ActionRequired,
    Stale,
    /// No conclusion (`none`): the same as no entry or `null`.
    Absent,
}

impl ConclusionStatus {
    /// The name of this variant in GitHub's JSON.
    pub open spec fn spec_name(&self) -> Seq<char> {
        match self {
            ConclusionStatus::Success => "success"@,
            ConclusionStatus::Failure => "failure"@,
            ConclusionStatus::Neutral => "neutral"@,
            ConclusionStatus::Cancelled => "cancelled"@,
            ConclusionStatus::TimeOut => "time_out"@,
            ConclusionStatus::ActionRequired => "action_required"@,
            ConclusionStatus::Stale => "stale"@,
            ConclusionStatus::Absent => "none"@,
        }
    }

    /// The variant a known name stands for.
    pub open spec fn spec_from_name(s: Seq<char>) -> Option<Self> {
        if s == "success"@ {
            Some(ConclusionStatus::Success)
        } else if s == "failure"@ {
            Some(ConclusionStatus::Failure)
        } else if s == "neutral"@ {
            Some(ConclusionStatus::Neutral)
        } else if s == "cancelled"@ {
            Some(ConclusionStatus::Cancelled)
        } else if s == "time_out"@ {
            Some(ConclusionStatus::TimeOut)
        } else if s == "action_required"@ {
            Some(ConclusionStatus::ActionRequired)
        } else if s == "stale"@ {
            Some(ConclusionStatus::Stale)
        } else if s == "none"@ {
            Some(ConclusionStatus::Absent)
        } else {
            None
        }
    }

    /// The name of this variant in GitHub's JSON.
    pub fn as_str(&self) -> (s: &'static str)
        ensures
            s@ == self.spec_name(),
    {
        match self {
            ConclusionStatus::Success => "success",
            ConclusionStatus::Failure => "failure",
            ConclusionStatus::Neutral => "neutral",
            ConclusionStatus::Cancelled => "cancelled",
            ConclusionStatus::TimeOut => "time_out",
            ConclusionStatus::ActionRequired => "action_required",
            ConclusionStatus::Stale => "stale",
            ConclusionStatus::Absent => "none",
        }
    }

    /// The variant a name stands for, if the name is known.
    pub fn from_name(s: &str) -> (r: Option<Self>)
        ensures
            r == Self::spec_from_name(s@),
    {
        if str_eq(s, "success") {
            Some(ConclusionStatus::Success)
        } else if str_eq(s, "failure") {
            Some(ConclusionStatus::Failure)
        } else if str_eq(s, "neutral") {
            Some(ConclusionStatus::Neutral)
        } else if str_eq(s, "cancelled") {
            Some(ConclusionStatus::Cancelled)
        } else if str_eq(s, "time_out") {
            Some(ConclusionStatus::TimeOut)
        } else if str_eq(s, "action_required") {
            Some(ConclusionStatus::ActionRequired)
        } else if str_eq(s, "stale") {
            Some(ConclusionStatus::Stale)
        } else if str_eq(s, "none") {
            Some(ConclusionStatus::Absent)
        } else {
            None
        }
    }

    /// Reading the name of a known variant gives the variant back.
    pub proof fn law_name_round_trip(x: Self)
        ensures
            Self::spec_from_name(x.spec_name()) == Some(x),
    {
        reveal_strlit("success");
        reveal_strlit("failure");
        reveal_strlit("neutral");
        reveal_strlit("cancelled");
        reveal_strlit("time_out");
        reveal_strlit("action_required");
        reveal_strlit("stale");
        reveal_strlit("none");
        assert("success"@.len() == 7);
        assert("failure"@.len() == 7);
        assert("neutral"@.len() == 7);
        assert("cancelled"@.len() == 9);
        assert("time_out"@.len() == 8);
        assert("action_required"@.len() == 15);
        assert("stale"@.len() == 5);
        assert("none"@.len() == 4);
        assert("failure"@[0] == 'f');
        assert("neutral"@[0] == 'n');
        assert("success"@[0] == 's');
    }
}

impl Default for ConclusionStatus {
    fn default() -> (d: Self)
        ensures
            d == ConclusionStatus::Absent,
    {
        ConclusionStatus::Absent
    }
}

/// The event that triggered a workflow run.
#[derive(Clone, Copy, Debug, PartialEq, Eq, Structural)]
pub enum WorkflowEvent {
    Push,
    PullRequest,
    Issue,
}

impl WorkflowEvent {
    /// The name of this variant in GitHub's JSON.
    pub open spec fn spec_name(&self) -> Seq<char> {
        match self {
            WorkflowEvent::Push => "push"@,
            WorkflowEvent::PullRequest => "pull_request"@,
            WorkflowEvent::Issue => "issue"@,
        }
    }

    /// The variant a known name stands for.
    pub open spec fn spec_from_name(s: Seq<char>) -> Option<Self> {
        if s == "push"@ {
            Some(WorkflowEvent::Push)
        } else if s == "pull_request"@ {
            Some(WorkflowEvent::PullRequest)
        } else if s == "issue"@ {
            Some(WorkflowEvent::Issue)
        } else {
            None
        }
    }

    /// The name of this variant in GitHub's JSON.
    pub fn as_str(&self) -> (s: &'static str)
        ensures
            s@ == self.spec_name(),
    {
        match self {
            WorkflowEvent::Push => "push",
            WorkflowEvent::PullRequest => "pull_request",
            WorkflowEvent::Issue => "issue",
        }
    }

    /// The variant a name stands for, if the name is known.
    pub fn from_name(s: &str) -> (r: Option<Self>)
        ensures
            r == Self::spec_from_name(s@),
    {
        if str_eq(s, "push") {
            Some(WorkflowEvent::Push)
        } else if str_eq(s, "pull_request") {
            Some(WorkflowEvent::PullRequest)
        } else if str_eq(s, "issue") {
            Some(WorkflowEvent::Issue)
        } else {
            None
        }
    }

    /// Reading the name of a known variant gives the variant back.
    pub proof fn law_name_round_trip(x: Self)
        ensures
            Self::spec_from_name(x.spec_name()) == Some(x),
    {
        reveal_strlit("push");
        reveal_strlit("pull_request");
        reveal_strlit("issue");
        assert("push"@.len() == 4);
        assert("pull_request"@.len() == 12);
        assert("issue"@.len() == 5);
    }
}

/// The status of a file tracked by GitHub.
#[derive(Clone, Copy, Debug, PartialEq, Eq, Structural)]
pub enum FileStatus {
    Added,
    Modified,
    Removed,
    Renamed,
    Changed,
}

impl FileStatus {
    /// The name of this variant in GitHub's JSON.
    pub open spec fn spec_name(&self) -> Seq<char> {
        match self {
            FileStatus::Added => "added"@,
            FileStatus::Modified => "modified"@,
            FileStatus::Removed => "removed"@,
            FileStatus::Renamed => "renamed"@,
            FileStatus::Changed => "changed"@,
        }
    }

    /// The variant a known name stands for.
    pub open spec fn spec_from_name(s: Seq<char>) -> Option<Self> {
        if s == "added"@ {
            Some(FileStatus::Added)
        } else if s == "modified"@ {
            Some(FileStatus::Modified)
        } else if s == "removed"@ {
            Some(FileStatus::Removed)
        } else if s == "renamed"@ {
            Some(FileStatus::Renamed)
        } else if s == "changed"@ {
            Some(FileStatus::Changed)
        } else {
            None
        }
    }

    /// The name of this variant in GitHub's JSON.
    pub fn as_str(&self) -> (s: &'static str)
        ensures
            s@ == self.spec_name(),
    {
        match self {
            FileStatus::Added => "added",
            FileStatus::Modified => "modified",
            FileStatus::Removed => "removed",
            FileStatus::Renamed => "renamed",
            FileStatus::Changed => "changed",
        }
    }

    /// The variant a name stands for, if the name is known.
    pub fn from_name(s: &str) -> (r: Option<Self>)
        ensures
            r == Self::spec_from_name(s@),
    {
        if str_eq(s, "added") {
            Some(FileStatus::Added)
        } else if str_eq(s, "modified") {
            Some(FileStatus::Modified)
        } else if str_eq(s, "removed") {
            Some(FileStatus::Removed)
        } else if str_eq(s, "renamed") {
            Some(FileStatus::Renamed)
        } else if str_eq(s, "changed") {
            Some(FileStatus::Changed)
        } else {
            None
        }
    }

    /// Reading the name of a known variant gives the variant back.
    pub proof fn law_name_round_trip(x: Self)
        ensures
            Self::spec_from_name(x.spec_name()) == Some(x),
    {
        reveal_strlit("added");
        reveal_strlit("modified");
        reveal_strlit("removed");
        reveal_strlit("renamed");
        reveal_strlit("changed");
        assert("added"@.len() == 5);
        assert("modified"@.len() == 8);
        assert("removed"@.len() == 7);
        assert("renamed"@.len() == 7);
        assert("changed"@.len() == 7);
        assert("changed"@[0] == 'c');
        assert("removed"@[0] == 'r');
        assert("removed"@[2] == 'm');
        assert("renamed"@[0] == 'r');
        assert("renamed"@[2] == 'n');
    }
}

/// Whether a pull request can be merged.
#[derive(Clone, Copy, Debug, PartialEq, Eq, Structural)]
pub enum MergeStateStatus {
    Behind,
    Blocked,
    Clean,
    Dirty,
    Draft,
    HasHook,
    Unknown,
    Unstable,
}

impl MergeStateStatus {
    /// The name of this variant in GitHub's JSON.
    pub open spec fn spec_name(&self) -> Seq<char> {
        match self {
            MergeStateStatus::Behind => "behind"@,
            MergeStateStatus::Blocked => "blocked"@,
            MergeStateStatus::Clean => "clean"@,
            MergeStateStatus::Dirty => "dirty"@,
            MergeStateStatus::Draft => "draft"@,
            MergeStateStatus::HasHook => "has_hook"@,
            MergeStateStatus::Unknown => "unknown"@,
            MergeStateStatus::Unstable => "unstable"@,
        }
    }

    /// The variant a known name stands for.
    pub open spec fn spec_from_name(s: Seq<char>) -> Option<Self> {
        if s == "behind"@ {
            Some(MergeStateStatus::Behind)
        } else if s == "blocked"@ {
            Some(MergeStateStatus::Blocked)
        } else if s == "clean"@ {
            Some(MergeStateStatus::Clean)
        } else if s == "dirty"@ {
            Some(MergeStateStatus::Dirty)
        } else if s == "draft"@ {
            Some(MergeStateStatus::Draft)
        } else if s == "has_hook"@ {
            Some(MergeStateStatus::HasHook)
        } else if s == "unknown"@ {
            Some(MergeStateStatus::Unknown)
        } else if s == "unstable"@ {
            Some(MergeStateStatus::Unstable)
        } else {
            None
        }
    }

    /// The name of this variant in GitHub's JSON.
    pub fn as_str(&self) -> (s: &'static str)
        ensures
            s@ == self.spec_name(),
    {
        match self {
            MergeStateStatus::Behind => "behind",
            MergeStateStatus::Blocked => "blocked",
            MergeStateStatus::Clean => "clean",
            MergeStateStatus::Dirty => "dirty",
            MergeStateStatus::Draft => "draft",
            MergeStateStatus::HasHook => "has_hook",
            MergeStateStatus::Unknown => "unknown",
            MergeStateStatus::Unstable => "unstable",
        }
    }

    /// The variant a name stands for, if the name is known.
    pub fn from_name(s: &str) -> (r: Option<Self>)
        ensures
            r == Self::spec_from_name(s@),
    {
        if str_eq(s, "behind") {
            Some(MergeStateStatus::Behind)
        } else if str_eq(s, "blocked") {
            Some(MergeStateStatus::Blocked)
        } else if str_eq(s, "clean") {
            Some(MergeStateStatus::Clean)
        } else if str_eq(s, "dirty") {
            Some(MergeStateStatus::Dirty)
        } else if str_eq(s, "draft") {
            Some(MergeStateStatus::Draft)
        } else if str_eq(s, "has_hook") {
            Some(MergeStateStatus::HasHook)
        } else if str_eq(s, "unknown") {
            Some(MergeStateStatus::Unknown)
        } else if str_eq(s, "unstable") {
            Some(MergeStateStatus::Unstable)
        } else {
            None
        }
    }

    /// Reading the name of a known variant gives the variant back.
    pub proof fn law_name_round_trip(x: Self)
        ensures
            Self::spec_from_name(x.spec_name()) == Some(x),
    {
        reveal_strlit("behind");
        reveal_strlit("blocked");
        reveal_strlit("clean");
        reveal_strlit("dirty");
        reveal_strlit("draft");
        reveal_strlit("has_hook");
        reveal_strlit("unknown");
        reveal_strlit("unstable");
        assert("behind"@.len() == 6);
        assert("blocked"@.len() == 7);
        assert("clean"@.len() == 5);
        assert("dirty"@.len() == 5);
        assert("draft"@.len() == 5);
        assert("has_hook"@.len() == 8);
        assert("unknown"@.len() == 7);
        assert("unstable"@.len() == 8);
        assert("blocked"@[0] == 'b');
        assert("clean"@[0] == 'c');
        assert("dirty"@[0] == 'd');
        assert("dirty"@[1] == 'i');
        assert("draft"@[0] == 'd');
        assert("draft"@[1] == 'r');
        assert("has_hook"@[0] == 'h');
        assert("unknown"@[0] == 'u');
        assert("unstable"@[0] == 'u');
    }
}
} // verus!
