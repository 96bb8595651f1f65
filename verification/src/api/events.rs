//! The actions that each webhook event reports.
use vstd::prelude::*;

use crate::text::str_eq;

verus! {

/// The actions of a check suite or check run event.
#[derive(Clone, Copy, Debug, PartialEq, Eq, Structural)]
pub enum CheckAction {
    Created,
    Completed,
    Requested,
    Rerequested,
    RequestedAction,
}

impl CheckAction {
    /// The name of this variant in GitHub's JSON.
    pub open spec fn spec_name(&self) -> Seq<char> {
        match self {
            CheckAction::Created => "created"@,
            CheckAction::Completed => "completed"@,
            CheckAction::Requested => "requested"@,
            CheckAction::Rerequested => "rerequested"@,
            CheckAction::RequestedAction => "requested_action"@,
        }
    }

    /// The variant a known name stands for.
    pub open spec fn spec_from_name(s: Seq<char>) -> Option<Self> {
        if s == "created"@ {
            Some(CheckAction::Created)
        } else if s == "completed"@ {
            Some(CheckAction::Completed)
        } else if s == "requested"@ {
            Some(CheckAction::Requested)
        } else if s == "rerequested"@ {
            Some(CheckAction::Rerequested)
        } else if s == "requested_action"@ {
            Some(CheckAction::RequestedAction)
        } else {
            None
        }
    }

    /// The name of this variant in GitHub's JSON.
    pub fn as_str(&self) -> (s: &'static str)
        ensures
            s@ == self.spec_name(),
    {
        match self {
            CheckAction::Created => "created",
            CheckAction::Completed => "completed",
            CheckAction::Requested => "requested",
            CheckAction::Rerequested => "rerequested",
            CheckAction::RequestedAction => "requested_action",
        }
    }

    /// The variant a name stands for, if the name is known.
    pub fn from_name(s: &str) -> (r: Option<Self>)
        ensures
            r == Self::spec_from_name(s@),
    {
        if str_eq(s, "created") {
            Some(CheckAction::Created)
        } else if str_eq(s, "completed") {
            Some(CheckAction::Completed)
        } else if str_eq(s, "requested") {
            Some(CheckAction::Requested)
        } else if str_eq(s, "rerequested") {
            Some(CheckAction::Rerequested)
        } else if str_eq(s, "requested_action") {
            Some(CheckAction::RequestedAction)
        } else {
            None
        }
    }

    /// Reading the name of a known variant gives the variant back.
    pub proof fn law_name_round_trip(x: Self)
        ensures
            Self::spec_from_name(x.spec_name()) == Some(x),
    {
        reveal_strlit("created");
        reveal_strlit("completed");
        reveal_strlit("requested");
        reveal_strlit("rerequested");
        reveal_strlit("requested_action");
        assert("created"@.len() == 7);
        assert("completed"@.len() == 9);
        assert("requested"@.len() == 9);
        assert("rerequested"@.len() == 11);
        assert("requested_action"@.len() == 16);
        assert("completed"@[0] == 'c');
        assert("requested"@[0] == 'r');
    }
}

/// The actions of a commit comment event.
#[derive(Clone, Copy, Debug, PartialEq, Eq, Structural)]
pub enum CommitCommentAction {
    Created,
}

impl CommitCommentAction {
    /// The name of this variant in GitHub's JSON.
    pub open spec fn spec_name(&self) -> Seq<char> {
        match self {
            CommitCommentAction::Created => "created"@,
        }
    }

    /// The variant a known name stands for.
    pub open spec fn spec_from_name(s: Seq<char>) -> Option<Self> {
        if s == "created"@ {
            Some(CommitCommentAction::Created)
        } else {
            None
        }
    }

    /// The name of this variant in GitHub's JSON.
    pub fn as_str(&self) -> (s: &'static str)
        ensures
            s@ == self.spec_name(),
    {
        match self {
            CommitCommentAction::Created => "created",
        }
    }

    /// The variant a name stands for, if the name is known.
    pub fn from_name(s: &str) -> (r: Option<Self>)
        ensures
            r == Self::spec_from_name(s@),
    {
        if str_eq(s, "created") {
            Some(CommitCommentAction::Created)
        } else {
            None
        }
    }

    /// Reading the name of a known variant gives the variant back.
    pub proof fn law_name_round_trip(x: Self)
        ensures
            Self::spec_from_name(x.spec_name()) == Some(x),
    {
        reveal_strlit("created");
        assert("created"@.len() == 7);
    }
}

/// The actions of an installation event.
#[derive(Clone, Copy, Debug, PartialEq, Eq, Structural)]
pub enum InstallationAction {
    Created,
    Deleted,
    Suspend,
    Unsuspend,
    NewPermissionsAccepted,
}

impl InstallationAction {
    /// The name of this variant in GitHub's JSON.
    pub open spec fn spec_name(&self) -> Seq<char> {
        match self {
            InstallationAction::Created => "created"@,
            InstallationAction::Deleted => "deleted"@,
            InstallationAction::Suspend => "suspend"@,
            InstallationAction::Unsuspend => "unsuspend"@,
            InstallationAction::NewPermissionsAccepted => "new_permissions_accepted"@,
        }
    }

    /// The variant a known name stands for.
    pub open spec fn spec_from_name(s: Seq<char>) -> Option<Self> {
        if s == "created"@ {
            Some(InstallationAction::Created)
        } else if s == "deleted"@ {
            Some(InstallationAction::Deleted)
        } else if s == "suspend"@ {
            Some(InstallationAction::Suspend)
        } else if s == "unsuspend"@ {
            Some(InstallationAction::Unsuspend)
        } else if s == "new_permissions_accepted"@ {
            Some(InstallationAction::NewPermissionsAccepted)
        } else {
            None
        }
    }

    /// The name of this variant in GitHub's JSON.
    pub fn as_str(&self) -> (s: &'static str)
        ensures
            s@ == self.spec_name(),
    {
        match self {
            InstallationAction::Created => "created",
            InstallationAction::Deleted => "deleted",
            InstallationAction::Suspend => "suspend",
            InstallationAction::Unsuspend => "unsuspend",
            InstallationAction::NewPermissionsAccepted => "new_permissions_accepted",
        }
    }

    /// The variant a name stands for, if the name is known.
    pub fn from_name(s: &str) -> (r: Option<Self>)
        ensures
            r == Self::spec_from_name(s@),
    {
        if str_eq(s, "created") {
            Some(InstallationAction::Created)
        } else if str_eq(s, "deleted") {
            Some(InstallationAction::Deleted)
        } else if str_eq(s, "suspend") {
            Some(InstallationAction::Suspend)
        } else if str_eq(s, "unsuspend") {
            Some(InstallationAction::Unsuspend)
        } else if str_eq(s, "new_permissions_accepted") {
            Some(InstallationAction::NewPermissionsAccepted)
        } else {
            None
        }
    }

    /// Reading the name of a known variant gives the variant back.
    pub proof fn law_name_round_trip(x: Self)
        ensures
            Self::spec_from_name(x.spec_name()) == Some(x),
    {
        reveal_strlit("created");
        reveal_strlit("deleted");
        reveal_strlit("suspend");
        reveal_strlit("unsuspend");
        reveal_strlit("new_permissions_accepted");
        assert("created"@.len() == 7);
        assert("deleted"@.len() == 7);
        assert("suspend"@.len() == 7);
        assert("unsuspend"@.len() == 9);
        assert("new_permissions_accepted"@.len() == 24);
        assert("created"@[0] == 'c');
        assert("deleted"@[0] == 'd');
        assert("suspend"@[0] == 's');
    }
}

/// The actions of an issue event.
#[derive(Clone, Copy, Debug, PartialEq, Eq, Structural)]
pub enum IssueAction {
    Opened,
    Edited,
    Deleted,
    Pinned,
    Unpinned,
    Closed,
    Reopened,
    Assigned,
    Unassigned,
    Labeled,
    Unlabeled,
    Locked,
    Unlocked,
    Transferred,
    Milestoned,
    Demilestoned,
}

impl IssueAction {
    /// The name of this variant in GitHub's JSON.
    pub open spec fn spec_name(&self) -> Seq<char> {
        match self {
            IssueAction::Opened => "opened"@,
            IssueAction::Edited => "edited"@,
            IssueAction::Deleted => "deleted"@,
            IssueAction::Pinned => "pinned"@,
            IssueAction::Unpinned => "unpinned"@,
            IssueAction::Closed => "closed"@,
            IssueAction::Reopened => "reopened"@,
            IssueAction::Assigned => "assigned"@,
            IssueAction::Unassigned => "unassigned"@,
            IssueAction::Labeled => "labeled"@,
            IssueAction::Unlabeled => "unlabeled"@,
            IssueAction::Locked => "locked"@,
            IssueAction::Unlocked => "unlocked"@,
            IssueAction::Transferred => "transferred"@,
            IssueAction::Milestoned => "milestoned"@,
            IssueAction::Demilestoned => "demilestoned"@,
        }
    }

    /// The variant a known name stands for.
    pub open spec fn spec_from_name(s: Seq<char>) -> Option<Self> {
        if s == "opened"@ {
            Some(IssueAction::Opened)
        } else if s == "edited"@ {
            Some(IssueAction::Edited)
        } else if s == "deleted"@ {
            Some(IssueAction::Deleted)
        } else if s == "pinned"@ {
            Some(IssueAction::Pinned)
        } else if s == "unpinned"@ {
            Some(IssueAction::Unpinned)
        } else if s == "closed"@ {
            Some(IssueAction::Closed)
        } else if s == "reopened"@ {
            Some(IssueAction::Reopened)
        } else if s == "assigned"@ {
            Some(IssueAction::Assigned)
        } else if s == "unassigned"@ {
            Some(IssueAction::Unassigned)
        } else if s == "labeled"@ {
            Some(IssueAction::Labeled)
        } else if s == "unlabeled"@ {
            Some(IssueAction::Unlabeled)
        } else if s == "locked"@ {
            Some(IssueAction::Locked)
        } else if s == "unlocked"@ {
            Some(IssueAction::Unlocked)
        } else if s == "transferred"@ {
            Some(IssueAction::Transferred)
        } else if s == "milestoned"@ {
            Some(IssueAction::Milestoned)
        } else if s == "demilestoned"@ {
            Some(IssueAction::Demilestoned)
        } else {
            None
        }
    }

    /// The name of this variant in GitHub's JSON.
    pub fn as_str(&self) -> (s: &'static str)
        ensures
            s@ == self.spec_name(),
    {
        match self {
            IssueAction::Opened => "opened",
            IssueAction::Edited => "edited",
            IssueAction::Deleted => "deleted",
            IssueAction::Pinned => "pinned",
            IssueAction::Unpinned => "unpinned",
            IssueAction::Closed => "closed",
            IssueAction::Reopened => "reopened",
            IssueAction::Assigned => "assigned",
            IssueAction::Unassigned => "unassigned",
            IssueAction::Labeled => "labeled",
            IssueAction::Unlabeled => "unlabeled",
            IssueAction::Locked => "locked",
            IssueAction::Unlocked => "unlocked",
            IssueAction::Transferred => "transferred",
            IssueAction::Milestoned => "milestoned",
            IssueAction::Demilestoned => "demilestoned",
        }
    }

    /// The variant a name stands for, if the name is known.
    pub fn from_name(s: &str) -> (r: Option<Self>)
        ensures
            r == Self::spec_from_name(s@),
    {
        if str_eq(s, "opened") {
            Some(IssueAction::Opened)
        } else if str_eq(s, "edited") {
            Some(IssueAction::Edited)
        } else if str_eq(s, "deleted") {
            Some(IssueAction::Deleted)
        } else if str_eq(s, "pinned") {
            Some(IssueAction::Pinned)
        } else if str_eq(s, "unpinned") {
            Some(IssueAction::Unpinned)
        } else if str_eq(s, "closed") {
            Some(IssueAction::Closed)
        } else if str_eq(s, "reopened") {
            Some(IssueAction::Reopened)
        } else if str_eq(s, "assigned") {
            Some(IssueAction::Assigned)
        } else if str_eq(s, "unassigned") {
            Some(IssueAction::Unassigned)
        } else if str_eq(s, "labeled") {
            Some(IssueAction::Labeled)
        } else if str_eq(s, "unlabeled") {
            Some(IssueAction::Unlabeled)
        } else if str_eq(s, "locked") {
            Some(IssueAction::Locked)
        } else if str_eq(s, "unlocked") {
            Some(IssueAction::Unlocked)
        } else if str_eq(s, "transferred") {
            Some(IssueAction::Transferred)
        } else if str_eq(s, "milestoned") {
            Some(IssueAction::Milestoned)
        } else if str_eq(s, "demilestoned") {
            Some(IssueAction::Demilestoned)
        } else {
            None
        }
    }

    /// Reading the name of a known variant gives the variant back.
    pub proof fn law_name_round_trip(x: Self)
        ensures
            Self::spec_from_name(x.spec_name()) == Some(x),
    {
        reveal_strlit("opened");
        reveal_strlit("edited");
        reveal_strlit("deleted");
        reveal_strlit("pinned");
        reveal_strlit("unpinned");
        reveal_strlit("closed");
        reveal_strlit("reopened");
        reveal_strlit("assigned");
        reveal_strlit("unassigned");
        reveal_strlit("labeled");
        reveal_strlit("unlabeled");
        reveal_strlit("locked");
        reveal_strlit("unlocked");
        reveal_strlit("transferred");
        reveal_strlit("milestoned");
        reveal_strlit("demilestoned");
        assert("opened"@.len() == 6);
        assert("edited"@.len() == 6);
        assert("deleted"@.len() == 7);
        assert("pinned"@.len() == 6);
        assert("unpinned"@.len() == 8);
        assert("closed"@.len() == 6);
        assert("reopened"@.len() == 8);
        assert("assigned"@.len() == 8);
        assert("unassigned"@.len() == 10);
        assert("labeled"@.len() == 7);
        assert("unlabeled"@.len() == 9);
        assert("locked"@.len() == 6);
        assert("unlocked"@.len() == 8);
        assert("transferred"@.len() == 11);
        assert("milestoned"@.len() == 10);
        assert("demilestoned"@.len() == 12);
        assert("assigned"@[0] == 'a');
        assert("closed"@[0] == 'c');
        assert("deleted"@[0] == 'd');
        assert("edited"@[0] == 'e');
        assert("labeled"@[0] == 'l');
        assert("locked"@[0] == 'l');
        assert("milestoned"@[0] == 'm');
        assert("opened"@[0] == 'o');
        assert("pinned"@[0] == 'p');
        assert("reopened"@[0] == 'r');
        assert("unassigned"@[0] == 'u');
        assert("unlocked"@[0] == 'u');
        assert("unlocked"@[2] == 'l');
        assert("unpinned"@[0] == 'u');
        assert("unpinned"@[2] == 'p');
    }
}

/// The actions of an issue comment event.
#[derive(Clone, Copy, Debug, PartialEq, Eq, Structural)]
pub enum IssueCommentAction {
    Created,
    Edited,
    Deleted,
}

impl IssueCommentAction {
    /// The name of this variant in GitHub's JSON.
    pub open spec fn spec_name(&self) -> Seq<char> {
        match self {
            IssueCommentAction::Created => "created"@,
            IssueCommentAction::Edited => "edited"@,
            IssueCommentAction::Deleted => "deleted"@,
        }
    }

    /// The variant a known name stands for.
    pub open spec fn spec_from_name(s: Seq<char>) -> Option<Self> {
        if s == "created"@ {
            Some(IssueCommentAction::Created)
        } else if s == "edited"@ {
            Some(IssueCommentAction::Edited)
        } else if s == "deleted"@ {
            Some(IssueCommentAction::Deleted)
        } else {
            None
        }
    }

    /// The name of this variant in GitHub's JSON.
    pub fn as_str(&self) -> (s: &'static str)
        ensures
            s@ == self.spec_name(),
    {
        match self {
            IssueCommentAction::Created => "created",
            IssueCommentAction::Edited => "edited",
            IssueCommentAction::Deleted => "deleted",
        }
    }

    /// The variant a name stands for, if the name is known.
    pub fn from_name(s: &str) -> (r: Option<Self>)
        ensures
            r == Self::spec_from_name(s@),
    {
        if str_eq(s, "created") {
            Some(IssueCommentAction::Created)
        } else if str_eq(s, "edited") {
            Some(IssueCommentAction::Edited)
        } else if str_eq(s, "deleted") {
            Some(IssueCommentAction::Deleted)
        } else {
            None
        }
    }

    /// Reading the name of a known variant gives the variant back.
    pub proof fn law_name_round_trip(x: Self)
        ensures
            Self::spec_from_name(x.spec_name()) == Some(x),
    {
        reveal_strlit("created");
        reveal_strlit("edited");
        reveal_strlit("deleted");
        assert("created"@.len() == 7);
        assert("edited"@.len() == 6);
        assert("deleted"@.len() == 7);
        assert("created"@[0] == 'c');
        assert("deleted"@[0] == 'd');
    }
}

/// The actions of a pull request event.
#[derive(Clone, Debug)]
pub enum PullRequestAction {
    Assigned,
    AutoMergeDisabled,
    AutoMergeEnabled,
    Closed,
    ConvertToDraft,
    Edited,
    Labeled,
    Locked,
    Opened,
    ReadyForReview,
    Reopened,
    ReviewRequestedRemoved,
    ReviewRequested,
    Synchronize,
    Unassigned,
    Unlabeled,
    Unlocked,
    /// A name this library does not know, kept as it came.
    _Custom(String),
}

impl PullRequestAction {
    /// The name of this variant in GitHub's JSON.
    pub open spec fn spec_name(&self) -> Seq<char> {
        match self {
            PullRequestAction::Assigned => "assigned"@,
            PullRequestAction::AutoMergeDisabled => "auto_merge_disabled"@,
            PullRequestAction::AutoMergeEnabled => "auto_merge_enabled"@,
            PullRequestAction::Closed => "closed"@,
            PullRequestAction::ConvertToDraft => "convert_to_draft"@,
            PullRequestAction::Edited => "edited"@,
            PullRequestAction::Labeled => "labeled"@,
            PullRequestAction::Locked => "locked"@,
            PullRequestAction::Opened => "opened"@,
            PullRequestAction::ReadyForReview => "ready_for_review"@,
            PullRequestAction::Reopened => "reopened"@,
            PullRequestAction::ReviewRequestedRemoved => "review_requested_removed"@,
            PullRequestAction::ReviewRequested => "review_requested"@,
            PullRequestAction::Synchronize => "synchronize"@,
            PullRequestAction::Unassigned => "unassigned"@,
            PullRequestAction::Unlabeled => "unlabeled"@,
            PullRequestAction::Unlocked => "unlocked"@,
            PullRequestAction::_Custom(s) => s@,
        }
    }

    /// The variant a known name stands for.
    pub open spec fn spec_from_name(s: Seq<char>) -> Option<Self> {
        if s == "assigned"@ {
            Some(PullRequestAction::Assigned)
        } else if s == "auto_merge_disabled"@ {
            Some(PullRequestAction::AutoMergeDisabled)
        } else if s == "auto_merge_enabled"@ {
            Some(PullRequestAction::AutoMergeEnabled)
        } else if s == "closed"@ {
            Some(PullRequestAction::Closed)
        } else if s == "convert_to_draft"@ {
            Some(PullRequestAction::ConvertToDraft)
        } else if s == "edited"@ {
            Some(PullRequestAction::Edited)
        } else if s == "labeled"@ {
            Some(PullRequestAction::Labeled)
        } else if s == "locked"@ {
            Some(PullRequestAction::Locked)
        } else if s == "opened"@ {
            Some(PullRequestAction::Opened)
        } else if s == "ready_for_review"@ {
            Some(PullRequestAction::ReadyForReview)
        } else if s == "reopened"@ {
            Some(PullRequestAction::Reopened)
        } else if s == "review_requested_removed"@ {
            Some(PullRequestAction::ReviewRequestedRemoved)
        } else if s == "review_requested"@ {
            Some(PullRequestAction::ReviewRequested)
        } else if s == "synchronize"@ {
            Some(PullRequestAction::Synchronize)
        } else if s == "unassigned"@ {
            Some(PullRequestAction::Unassigned)
        } else if s == "unlabeled"@ {
            Some(PullRequestAction::Unlabeled)
        } else if s == "unlocked"@ {
            Some(PullRequestAction::Unlocked)
        } else {
            None
        }
    }

    /// The name of this variant in GitHub's JSON.
    pub fn as_str(&self) -> (s: &str)
        ensures
            s@ == self.spec_name(),
    {
        match self {
            PullRequestAction::Assigned => "assigned",
            PullRequestAction::AutoMergeDisabled => "auto_merge_disabled",
            PullRequestAction::AutoMergeEnabled => "auto_merge_enabled",
            PullRequestAction::Closed => "closed",
            PullRequestAction::ConvertToDraft => "convert_to_draft",
            PullRequestAction::Edited => "edited",
            PullRequestAction::Labeled => "labeled",
            PullRequestAction::Locked => "locked",
            PullRequestAction::Opened => "opened",
            PullRequestAction::ReadyForReview => "ready_for_review",
            PullRequestAction::Reopened => "reopened",
            PullRequestAction::ReviewRequestedRemoved => "review_requested_removed",
            PullRequestAction::ReviewRequested => "review_requested",
            PullRequestAction::Synchronize => "synchronize",
            PullRequestAction::Unassigned => "unassigned",
            PullRequestAction::Unlabeled => "unlabeled",
            PullRequestAction::Unlocked => "unlocked",
            PullRequestAction::_Custom(s) => s.as_str(),
        }
    }

    /// The variant a name stands for; an unknown name is kept as it is.
    pub fn from_name(s: &str) -> (r: Self)
        ensures
            r.spec_name() == s@,
            Self::spec_from_name(s@) matches Some(k) ==> r == k,
            Self::spec_from_name(s@) is None ==> r is _Custom,
    {
        if str_eq(s, "assigned") {
            PullRequestAction::Assigned
        } else if str_eq(s, "auto_merge_disabled") {
            PullRequestAction::AutoMergeDisabled
        } else if str_eq(s, "auto_merge_enabled") {
            PullRequestAction::AutoMergeEnabled
        } else if str_eq(s, "closed") {
            PullRequestAction::Closed
        } else if str_eq(s, "convert_to_draft") {
            PullRequestAction::ConvertToDraft
        } else if str_eq(s, "edited") {
            PullRequestAction::Edited
        } else if str_eq(s, "labeled") {
            PullRequestAction::Labeled
        } else if str_eq(s, "locked") {
            PullRequestAction::Locked
        } else if str_eq(s, "opened") {
            PullRequestAction::Opened
        } else if str_eq(s, "ready_for_review") {
            PullRequestAction::ReadyForReview
        } else if str_eq(s, "reopened") {
            PullRequestAction::Reopened
        } else if str_eq(s, "review_requested_removed") {
            PullRequestAction::ReviewRequestedRemoved
        } else if str_eq(s, "review_requested") {
            PullRequestAction::ReviewRequested
        } else if str_eq(s, "synchronize") {
            PullRequestAction::Synchronize
        } else if str_eq(s, "unassigned") {
            PullRequestAction::Unassigned
        } else if str_eq(s, "unlabeled") {
            PullRequestAction::Unlabeled
        } else if str_eq(s, "unlocked") {
            PullRequestAction::Unlocked
        } else {
            PullRequestAction::_Custom(s.to_owned())
        }
    }

    /// Reading the name of a known variant gives the variant back.
    pub proof fn law_name_round_trip(x: Self)
        requires
            !(x is _Custom),
        ensures
            Self::spec_from_name(x.spec_name()) == Some(x),
    {
        reveal_strlit("assigned");
        reveal_strlit("auto_merge_disabled");
        reveal_strlit("auto_merge_enabled");
        reveal_strlit("closed");
        reveal_strlit("convert_to_draft");
        reveal_strlit("edited");
        reveal_strlit("labeled");
        reveal_strlit("locked");
        reveal_strlit("opened");
        reveal_strlit("ready_for_review");
        reveal_strlit("reopened");
        reveal_strlit("review_requested_removed");
        reveal_strlit("review_requested");
        reveal_strlit("synchronize");
        reveal_strlit("unassigned");
        reveal_strlit("unlabeled");
        reveal_strlit("unlocked");
        assert("assigned"@.len() == 8);
        assert("auto_merge_disabled"@.len() == 19);
        assert("auto_merge_enabled"@.len() == 18);
        assert("closed"@.len() == 6);
        assert("convert_to_draft"@.len() == 16);
        assert("edited"@.len() == 6);
        assert("labeled"@.len() == 7);
        assert("locked"@.len() == 6);
        assert("opened"@.len() == 6);
        assert("ready_for_review"@.len() == 16);
        assert("reopened"@.len() == 8);
        assert("review_requested_removed"@.len() == 24);
        assert("review_requested"@.len() == 16);
        assert("synchronize"@.len() == 11);
        assert("unassigned"@.len() == 10);
        assert("unlabeled"@.len() == 9);
        assert("unlocked"@.len() == 8);
        assert("assigned"@[0] == 'a');
        assert("closed"@[0] == 'c');
        assert("convert_to_draft"@[0] == 'c');
        assert("edited"@[0] == 'e');
        assert("locked"@[0] == 'l');
        assert("opened"@[0] == 'o');
        assert("ready_for_review"@[0] == 'r');
        assert("ready_for_review"@[2] == 'a');
        assert("reopened"@[0] == 'r');
        assert("review_requested"@[0] == 'r');
        assert("review_requested"@[2] == 'v');
        assert("unlocked"@[0] == 'u');
    }
}

/// The actions of a pull request review event.
#[derive(Clone, Copy, Debug, PartialEq, Eq, Structural)]
pub enum PullRequestReviewAction {
    Created,
    Submitted,
    Edited,
    Dismissed,
}

impl PullRequestReviewAction {
    /// The name of this variant in GitHub's JSON.
    pub open spec fn spec_name(&self) -> Seq<char> {
        match self {
            PullRequestReviewAction::Created => "created"@,
            PullRequestReviewAction::Submitted => "submitted"@,
            PullRequestReviewAction::Edited => "edited"@,
            PullRequestReviewAction::Dismissed => "dismissed"@,
        }
    }

    /// The variant a known name stands for.
    pub open spec fn spec_from_name(s: Seq<char>) -> Option<Self> {
        if s == "created"@ {
            Some(PullRequestReviewAction::Created)
        } else if s == "submitted"@ {
            Some(PullRequestReviewAction::Submitted)
        } else if s == "edited"@ {
            Some(PullRequestReviewAction::Edited)
        } else if s == "dismissed"@ {
            Some(PullRequestReviewAction::Dismissed)
        } else {
            None
        }
    }

    /// The name of this variant in GitHub's JSON.
    pub fn as_str(&self) -> (s: &'static str)
        ensures
            s@ == self.spec_name(),
    {
        match self {
            PullRequestReviewAction::Created => "created",
            PullRequestReviewAction::Submitted => "submitted",
            PullRequestReviewAction::Edited => "edited",
            PullRequestReviewAction::Dismissed => "dismissed",
        }
    }

    /// The variant a name stands for, if the name is known.
    pub fn from_name(s: &str) -> (r: Option<Self>)
        ensures
            r == Self::spec_from_name(s@),
    {
        if str_eq(s, "created") {
            Some(PullRequestReviewAction::Created)
        } else if str_eq(s, "submitted") {
            Some(PullRequestReviewAction::Submitted)
        } else if str_eq(s, "edited") {
            Some(PullRequestReviewAction::Edited)
        } else if str_eq(s, "dismissed") {
            Some(PullRequestReviewAction::Dismissed)
        } else {
            None
        }
    }

    /// Reading the name of a known variant gives the variant back.
    pub proof fn law_name_round_trip(x: Self)
        ensures
            Self::spec_from_name(x.spec_name()) == Some(x),
    {
        reveal_strlit("created");
        reveal_strlit("submitted");
        reveal_strlit("edited");
        reveal_strlit("dismissed");
        assert("created"@.len() == 7);
        assert("submitted"@.len() == 9);
        assert("edited"@.len() == 6);
        assert("dismissed"@.len() == 9);
        assert("dismissed"@[0] == 'd');
        assert("submitted"@[0] == 's');
    }
}

/// The actions of a release event.
#[derive(Clone, Copy, Debug, PartialEq, Eq, Structural)]
pub enum ReleaseAction {
    Published,
    Unpublished,
    Created,
    Edited,
    Deleted,
    Prereleased,
    Release,
}

impl ReleaseAction {
    /// The name of this variant in GitHub's JSON.
    pub open spec fn spec_name(&self) -> Seq<char> {
        match self {
            ReleaseAction::Published => "published"@,
            ReleaseAction::Unpublished => "unpublished"@,
            ReleaseAction::Created => "created"@,
            ReleaseAction::Edited => "edited"@,
            ReleaseAction::Deleted => "deleted"@,
            ReleaseAction::Prereleased => "prereleased"@,
            ReleaseAction::Release => "release"@,
        }
    }

    /// The variant a known name stands for.
    pub open spec fn spec_from_name(s: Seq<char>) -> Option<Self> {
        if s == "published"@ {
            Some(ReleaseAction::Published)
        } else if s == "unpublished"@ {
            Some(ReleaseAction::Unpublished)
        } else if s == "created"@ {
            Some(ReleaseAction::Created)
        } else if s == "edited"@ {
            Some(ReleaseAction::Edited)
        } else if s == "deleted"@ {
            Some(ReleaseAction::Deleted)
        } else if s == "prereleased"@ {
            Some(ReleaseAction::Prereleased)
        } else if s == "release"@ {
            Some(ReleaseAction::Release)
        } else {
            None
        }
    }

    /// The name of this variant in GitHub's JSON.
    pub fn as_str(&self) -> (s: &'static str)
        ensures
            s@ == self.spec_name(),
    {
        match self {
            ReleaseAction::Published => "published",
            ReleaseAction::Unpublished => "unpublished",
            ReleaseAction::Created => "created",
            ReleaseAction::Edited => "edited",
            ReleaseAction::Deleted => "deleted",
            ReleaseAction::Prereleased => "prereleased",
            ReleaseAction::Release => "release",
        }
    }

    /// The variant a name stands for, if the name is known.
    pub fn from_name(s: &str) -> (r: Option<Self>)
        ensures
            r == Self::spec_from_name(s@),
    {
        if str_eq(s, "published") {
            Some(ReleaseAction::Published)
        } else if str_eq(s, "unpublished") {
            Some(ReleaseAction::Unpublished)
        } else if str_eq(s, "created") {
            Some(ReleaseAction::Created)
        } else if str_eq(s, "edited") {
            Some(ReleaseAction::Edited)
        } else if str_eq(s, "deleted") {
            Some(ReleaseAction::Deleted)
        } else if str_eq(s, "prereleased") {
            Some(ReleaseAction::Prereleased)
        } else if str_eq(s, "release") {
            Some(ReleaseAction::Release)
        } else {
            None
        }
    }

    /// Reading the name of a known variant gives the variant back.
    pub proof fn law_name_round_trip(x: Self)
        ensures
            Self::spec_from_name(x.spec_name()) == Some(x),
    {
        reveal_strlit("published");
        reveal_strlit("unpublished");
        reveal_strlit("created");
        reveal_strlit("edited");
        reveal_strlit("deleted");
        reveal_strlit("prereleased");
        reveal_strlit("release");
        assert("published"@.len() == 9);
        assert("unpublished"@.len() == 11);
        assert("created"@.len() == 7);
        assert("edited"@.len() == 6);
        assert("deleted"@.len() == 7);
        assert("prereleased"@.len() == 11);
        assert("release"@.len() == 7);
        assert("created"@[0] == 'c');
        assert("deleted"@[0] == 'd');
        assert("prereleased"@[0] == 'p');
        assert("release"@[0] == 'r');
        assert("unpublished"@[0] == 'u');
    }
}

/// The actions of a star event.
#[derive(Clone, Copy, Debug, PartialEq, Eq, Structural)]
pub enum StarAction {
    Created,
    Deleted,
}

impl StarAction {
    /// The name of this variant in GitHub's JSON.
    pub open spec fn spec_name(&self) -> Seq<char> {
        match self {
            StarAction::Created => "created"@,
            StarAction::Deleted => "deleted"@,
        }
    }

    /// The variant a known name stands for.
    pub open spec fn spec_from_name(s: Seq<char>) -> Option<Self> {
        if s == "created"@ {
            Some(StarAction::Created)
        } else if s == "deleted"@ {
            Some(StarAction::Deleted)
        } else {
            None
        }
    }

    /// The name of this variant in GitHub's JSON.
    pub fn as_str(&self) -> (s: &'static str)
        ensures
            s@ == self.spec_name(),
    {
        match self {
            StarAction::Created => "created",
            StarAction::Deleted => "deleted",
        }
    }

    /// The variant a name stands for, if the name is known.
    pub fn from_name(s: &str) -> (r: Option<Self>)
        ensures
            r == Self::spec_from_name(s@),
    {
        if str_eq(s, "created") {
            Some(StarAction::Created)
        } else if str_eq(s, "deleted") {
            Some(StarAction::Deleted)
        } else {
            None
        }
    }

    /// Reading the name of a known variant gives the variant back.
    pub proof fn law_name_round_trip(x: Self)
        ensures
            Self::spec_from_name(x.spec_name()) == Some(x),
    {
        reveal_strlit("created");
        reveal_strlit("deleted");
        assert("created"@.len() == 7);
        assert("deleted"@.len() == 7);
        assert("created"@[0] == 'c');
        assert("deleted"@[0] == 'd');
    }
}

/// The state of a commit status.
#[derive(Clone, Copy, Debug, PartialEq, Eq, Structural)]
pub enum StatusState {
    Pending,
    Success,
    Failure,
    Error,
}

impl StatusState {
    /// The name of this variant in GitHub's JSON.
    pub open spec fn spec_name(&self) -> Seq<char> {
        match self {
            StatusState::Pending => "pending"@,
            StatusState::Success => "success"@,
            StatusState::Failure => "failure"@,
            StatusState::Error => "error"@,
        }
    }

    /// The variant a known name stands for.
    pub open spec fn spec_from_name(s: Seq<char>) -> Option<Self> {
        if s == "pending"@ {
            Some(StatusState::Pending)
        } else if s == "success"@ {
            Some(StatusState::Success)
        } else if s == "failure"@ {
            Some(StatusState::Failure)
        } else if s == "error"@ {
            Some(StatusState::Error)
        } else {
            None
        }
    }

    /// The name of this variant in GitHub's JSON.
    pub fn as_str(&self) -> (s: &'static str)
        ensures
            s@ == self.spec_name(),
    {
        match self {
            StatusState::Pending => "pending",
            StatusState::Success => "success",
            StatusState::Failure => "failure",
            StatusState::Error => "error",
        }
    }

    /// The variant a name stands for, if the name is known.
    pub fn from_name(s: &str) -> (r: Option<Self>)
        ensures
            r == Self::spec_from_name(s@),
    {
        if str_eq(s, "pending") {
            Some(StatusState::Pending)
        } else if str_eq(s, "success") {
            Some(StatusState::Success)
        } else if str_eq(s, "failure") {
            Some(StatusState::Failure)
        } else if str_eq(s, "error") {
            Some(StatusState::Error)
        } else {
            None
        }
    }

    /// Reading the name of a known variant gives the variant back.
    pub proof fn law_name_round_trip(x: Self)
        ensures
            Self::spec_from_name(x.spec_name()) == Some(x),
    {
        reveal_strlit("pending");
        reveal_strlit("success");
        reveal_strlit("failure");
        reveal_strlit("error");
        assert("pending"@.len() == 7);
        assert("success"@.len() == 7);
        assert("failure"@.len() == 7);
        assert("error"@.len() == 5);
        assert("failure"@[0] == 'f');
        assert("pending"@[0] == 'p');
        assert("success"@[0] == 's');
    }
}

/// The actions of a watch event.
#[derive(Clone, Copy, Debug, PartialEq, Eq, Structural)]
pub enum WatchAction {
    Started,
}

impl WatchAction {
    /// The name of this variant in GitHub's JSON.
    pub open spec fn spec_name(&self) -> Seq<char> {
        match self {
            WatchAction::Started => "started"@,
        }
    }

    /// The variant a known name stands for.
    pub open spec fn spec_from_name(s: Seq<char>) -> Option<Self> {
        if s == "started"@ {
            Some(WatchAction::Started)
        } else {
            None
        }
    }

    /// The name of this variant in GitHub's JSON.
    pub fn as_str(&self) -> (s: &'static str)
        ensures
            s@ == self.spec_name(),
    {
        match self {
            WatchAction::Started => "started",
        }
    }

    /// The variant a name stands for, if the name is known.
    pub fn from_name(s: &str) -> (r: Option<Self>)
        ensures
            r == Self::spec_from_name(s@),
    {
        if str_eq(s, "started") {
            Some(WatchAction::Started)
        } else {
            None
        }
    }

    /// Reading the name of a known variant gives the variant back.
    pub proof fn law_name_round_trip(x: Self)
        ensures
            Self::spec_from_name(x.spec_name()) == Some(x),
    {
        reveal_strlit("started");
        assert("started"@.len() == 7);
    }
}

/// The actions of a pull request review comment event.
#[derive(Clone, Copy, Debug, PartialEq, Eq, Structural)]
pub enum PullRequestReviewCommentAction {
    Created,
    Edited,
    Dismissed,
}

impl PullRequestReviewCommentAction {
    /// The name of this variant in GitHub's JSON.
    pub open spec fn spec_name(&self) -> Seq<char> {
        match self {
            PullRequestReviewCommentAction::Created => "created"@,
            PullRequestReviewCommentAction::Edited => "edited"@,
            PullRequestReviewCommentAction::Dismissed => "dismissed"@,
        }
    }

    /// The variant a known name stands for.
    pub open spec fn spec_from_name(s: Seq<char>) -> Option<Self> {
        if s == "created"@ {
            Some(PullRequestReviewCommentAction::Created)
        } else if s == "edited"@ {
            Some(PullRequestReviewCommentAction::Edited)
        } else if s == "dismissed"@ {
            Some(PullRequestReviewCommentAction::Dismissed)
        } else {
            None
        }
    }

    /// The name of this variant in GitHub's JSON.
    pub fn as_str(&self) -> (s: &'static str)
        ensures
            s@ == self.spec_name(),
    {
        match self {
            PullRequestReviewCommentAction::Created => "created",
            PullRequestReviewCommentAction::Edited => "edited",
            PullRequestReviewCommentAction::Dismissed => "dismissed",
        }
    }

    /// The variant a name stands for, if the name is known.
    pub fn from_name(s: &str) -> (r: Option<Self>)
        ensures
            r == Self::spec_from_name(s@),
    {
        if str_eq(s, "created") {
            Some(PullRequestReviewCommentAction::Created)
        } else if str_eq(s, "edited") {
            Some(PullRequestReviewCommentAction::Edited)
        } else if str_eq(s, "dismissed") {
            Some(PullRequestReviewCommentAction::Dismissed)
        } else {
            None
        }
    }

    /// Reading the name of a known variant gives the variant back.
    pub proof fn law_name_round_trip(x: Self)
        ensures
            Self::spec_from_name(x.spec_name()) == Some(x),
    {
        reveal_strlit("created");
        reveal_strlit("edited");
        reveal_strlit("dismissed");
        assert("created"@.len() == 7);
        assert("edited"@.len() == 6);
        assert("dismissed"@.len() == 9);
    }
}

/// The side of a diff a review comment is on.
#[derive(Clone, Copy, Debug, PartialEq, Eq, Structural)]
pub enum CommentSide {
    Left,
    Right,
}

impl CommentSide {
    /// The name of this variant in GitHub's JSON.
    pub open spec fn spec_name(&self) -> Seq<char> {
        match self {
            CommentSide::Left => "LEFT"@,
            CommentSide::Right => "RIGHT"@,
        }
    }

    /// The variant a known name stands for.
    pub open spec fn spec_from_name(s: Seq<char>) -> Option<Self> {
        if s == "LEFT"@ {
            Some(CommentSide::Left)
        } else if s == "RIGHT"@ {
            Some(CommentSide::Right)
        } else {
            None
        }
    }

    /// The name of this variant in GitHub's JSON.
    pub fn as_str(&self) -> (s: &'static str)
        ensures
            s@ == self.spec_name(),
    {
        match self {
            CommentSide::Left => "LEFT",
            CommentSide::Right => "RIGHT",
        }
    }

    /// The variant a name stands for, if the name is known.
    pub fn from_name(s: &str) -> (r: Option<Self>)
        ensures
            r == Self::spec_from_name(s@),
    {
        if str_eq(s, "LEFT") {
            Some(CommentSide::Left)
        } else if str_eq(s, "RIGHT") {
            Some(CommentSide::Right)
        } else {
            None
        }
    }

    /// Reading the name of a known variant gives the variant back.
    pub proof fn law_name_round_trip(x: Self)
        ensures
            Self::spec_from_name(x.spec_name()) == Some(x),
    {
        reveal_strlit("LEFT");
        reveal_strlit("RIGHT");
        assert("LEFT"@.len() == 4);
        assert("RIGHT"@.len() == 5);
    }
}
} // verus!
