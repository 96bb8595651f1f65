//! What the server does with a webhook event: which Matrix rooms hear of it,
//! and in which words.
use vstd::prelude::*;

use crate::api::common::pairs_view;
use crate::api::events::PullRequestAction;
use crate::api::{EventKind, IssueState};
use crate::strfmt::{args_view, copy_args, find_key, spec_str_fmt, str_fmt, Arguments, FmtOutcome, Rendered, collect_entries};
use crate::text::{chars_of, decimal, spec_decimal, string_of_range};
use crate::{is_mapped_room, lemma_room_for_repo_is_mapped, spec_room_for_repo, GithubConfig, RepoRoomMap};

verus! {

// ---------------------------------------------------------------------------
// What the server reads of each event.
// ---------------------------------------------------------------------------

/// What the messages about an issue event are made of.
#[derive(Clone, Debug)]
pub struct IssueNotice {
    /// The full name of the repository.
    pub repo_name: String,
    /// The login of the issue's author.
    pub username: String,
    /// The issue number.
    pub issue_number: u64,
    /// The web page of the linked pull request, if there is one.
    pub linked_pr_url: Option<String>,
    /// The web page of the issue.
    pub issue_url: String,
    pub title: String,
    pub body: String,
    pub state: IssueState,
}

/// What the messages about a pull request event are made of.
#[derive(Clone, Debug)]
pub struct PullRequestNotice {
    /// The full name of the repository.
    pub repo_name: String,
    /// The login of the pull request's author.
    pub username: String,
    pub action: PullRequestAction,
    /// The login of the assignee, if any.
    pub assignee: Option<String>,
    pub merged: Option<bool>,
    /// The head branch.
    pub current: String,
    /// The base branch.
    pub base: String,
    pub additions: u64,
    pub deletions: u64,
    pub changed_files: u64,
    pub commits: u64,
    pub mergeable: Option<bool>,
    pub rebaseable: Option<bool>,
    /// The web page of the pull request.
    pub pull_url: String,
    pub title: String,
    pub body: String,
}

/// What the messages about a push event are made of.
#[derive(Clone, Debug)]
pub struct PushNotice {
    /// The login of the sender.
    pub username: String,
    /// The full name of the repository.
    pub repo_name: String,
    /// The page comparing the commits.
    pub commits_url: String,
    /// The number of commits pushed.
    pub commit_count: u64,
    /// The ref pushed to, such as `refs/heads/main`.
    pub git_ref: String,
}

/// What the message about a star event is made of.
#[derive(Clone, Debug)]
pub struct StarNotice {
    /// The full name of the repository.
    pub repo_name: String,
    /// The login of the sender.
    pub sender: String,
}

/// A webhook event, as far as the server reads it.
#[derive(Clone, Debug)]
pub enum WebhookEvent {
    Issue(IssueNotice),
    PullRequest(PullRequestNotice),
    Push(PushNotice),
    Star(StarNotice),
    /// A ping, with its `zen` text if that is a string.
    Ping(Option<String>),
    /// Any other kind of event, which no room hears of.
    Other(EventKind),
}

impl WebhookEvent {
    /// The kind of this event.
    pub open spec fn spec_kind(&self) -> EventKind {
        match self {
            WebhookEvent::Issue(_) => EventKind::Issues,
            WebhookEvent::PullRequest(_) => EventKind::PullRequest,
            WebhookEvent::Push(_) => EventKind::Push,
            WebhookEvent::Star(_) => EventKind::Star,
            WebhookEvent::Ping(_) => EventKind::Ping,
            WebhookEvent::Other(k) => *k,
        }
    }

    /// The kind of this event.
    pub fn as_kind(&self) -> (k: EventKind)
        ensures
            k == self.spec_kind(),
    {
        match self {
            WebhookEvent::Issue(_) => EventKind::Issues,
            WebhookEvent::PullRequest(_) => EventKind::PullRequest,
            WebhookEvent::Push(_) => EventKind::Push,
            WebhookEvent::Star(_) => EventKind::Star,
            WebhookEvent::Ping(_) => EventKind::Ping,
            WebhookEvent::Other(k) => *k,
        }
    }
}

// ---------------------------------------------------------------------------
// Words.
// ---------------------------------------------------------------------------

/// The format string configured for an event name.
pub open spec fn spec_format_string(config: GithubConfig, name: Seq<char>) -> Option<Seq<char>> {
    match find_key(pairs_view(config.format_strings@), name) {
        Some(i) => Some(pairs_view(config.format_strings@)[i].1),
        None => None,
    }
}

/// How an issue's state is told.
pub open spec fn issue_state_text(s: IssueState) -> Seq<char> {
    match s {
        IssueState::Open => "opened"@,
        IssueState::Closed => "closed"@,
        IssueState::Unknown => "<unknown>"@,
    }
}

/// How the pull request linked to an issue is told.
pub open spec fn linked_pr_text(url: Option<Seq<char>>) -> Seq<char> {
    match url {
        Some(u) => "a [linked pull request]("@ + u + ")"@,
        None => "no linked pull request"@,
    }
}

/// The arguments a format string for issues may use.
pub open spec fn issue_args(n: IssueNotice) -> Seq<(Seq<char>, Seq<char>)> {
    seq![
        ("repo_name"@, n.repo_name@),
        ("username"@, n.username@),
        ("issue_number"@, spec_decimal(n.issue_number as nat)),
        ("linked_pr"@, linked_pr_text(crate::api::common::opt_view(n.linked_pr_url))),
        ("issue_url"@, n.issue_url@),
        ("title"@, n.title@),
        ("body"@, n.body@),
        ("state"@, issue_state_text(n.state)),
    ]
}

/// The message about an issue when no format string is configured.
pub open spec fn default_issue_message(n: IssueNotice) -> Seq<char> {
    "["@ + n.repo_name@ + "] "@ + n.username@ + " "@ + issue_state_text(n.state) + " issue #"@
        + spec_decimal(n.issue_number as nat) + "\n[Check out the issue!]("@ + n.issue_url@ + ")\n"@
        + n.title@ + "\n"@ + n.body@ + "\nThis PR has "@ + linked_pr_text(
        crate::api::common::opt_view(n.linked_pr_url),
    )
}

/// How mergeable a pull request is told.
pub open spec fn merge_state_text(mergeable: bool, rebaseable: bool) -> Seq<char> {
    if mergeable && rebaseable {
        "merge-able and rebase-able"@
    } else if mergeable {
        "merge-able"@
    } else if rebaseable {
        "rebase-able"@
    } else {
        "in rough shape, neither rebase-able or merge-able"@
    }
}

/// `false` when absent.
pub open spec fn or_false(b: Option<bool>) -> bool {
    match b {
        Some(v) => v,
        None => false,
    }
}

/// How the action of a pull request event is told.
pub open spec fn pull_action_text(n: PullRequestNotice) -> Seq<char> {
    match n.action {
        PullRequestAction::Assigned => "PR was assigned to "@ + match n.assignee {
            Some(a) => a@,
            None => "<unknown>"@,
        },
        PullRequestAction::AutoMergeDisabled => "PR now has auto merge disabled"@,
        PullRequestAction::AutoMergeEnabled => "PR now has auto merge enabled"@,
        PullRequestAction::Closed => if or_false(n.merged) {
            "PR was merged"@
        } else {
            "PR was closed without merging"@
        },
        PullRequestAction::ConvertToDraft => "PR was converted to a draft"@,
        PullRequestAction::Edited => "PR has been edited"@,
        PullRequestAction::Labeled => "PR has been labeled"@,
        PullRequestAction::Locked => "PR has been locked"@,
        PullRequestAction::Opened => "PR has been opened"@,
        PullRequestAction::ReadyForReview => "PR is ready for review"@,
        PullRequestAction::Reopened => "PR has been reopened"@,
        PullRequestAction::ReviewRequestedRemoved => "PR has review request removed"@,
        PullRequestAction::ReviewRequested => "PR has a review requested"@,
        PullRequestAction::Synchronize => "PR was synchronized"@,
        PullRequestAction::Unassigned => "PR was unassigned"@,
        PullRequestAction::Unlabeled => "PR was unlabeled"@,
        PullRequestAction::Unlocked => "PR was unlocked"@,
        PullRequestAction::_Custom(_) => "<unknown>"@,
    }
}

/// The arguments a format string for pull requests may use.
pub open spec fn pull_args(n: PullRequestNotice) -> Seq<(Seq<char>, Seq<char>)> {
    seq![
        ("repo_name"@, n.repo_name@),
        ("username"@, n.username@),
        ("action"@, pull_action_text(n)),
        ("current"@, n.current@),
        ("base"@, n.base@),
        ("additions"@, spec_decimal(n.additions as nat)),
        ("deletions"@, spec_decimal(n.deletions as nat)),
        ("changed_files"@, spec_decimal(n.changed_files as nat)),
        ("commits"@, spec_decimal(n.commits as nat)),
        ("state"@, merge_state_text(or_false(n.mergeable), or_false(n.rebaseable))),
        ("pull_url"@, n.pull_url@),
        ("title"@, n.title@),
        ("body"@, n.body@),
    ]
}

/// The message about a pull request when no format string is configured.
pub open spec fn default_pull_message(n: PullRequestNotice) -> Seq<char> {
    "["@ + n.repo_name@ + "] "@ + n.username@ + "'s PR has new activity: "@ + pull_action_text(n)
        + "\n[Check out the pull request!]("@ + n.pull_url@ + ")\n"@ + n.title@ + "\n"@
        + n.current@ + " was opened against "@ + n.base@ + ", has "@ + spec_decimal(
        n.commits as nat,
    ) + " commits\n++ "@ + spec_decimal(n.additions as nat) + "\n-- "@ + spec_decimal(
        n.deletions as nat,
    ) + "\n"@ + spec_decimal(n.changed_files as nat) + " changed files\nThis PR is "@
        + merge_state_text(or_false(n.mergeable), or_false(n.rebaseable))
}

/// The last `/`-separated segment of a ref: the branch of `refs/heads/main`.
pub open spec fn last_segment(s: Seq<char>) -> Seq<char>
    decreases s.len(),
{
    if s.len() == 0 {
        s
    } else if s.last() == '/' {
        Seq::empty()
    } else {
        last_segment(s.drop_last()).push(s.last())
    }
}

/// The arguments a format string for pushes may use.
pub open spec fn push_args(n: PushNotice) -> Seq<(Seq<char>, Seq<char>)> {
    seq![
        ("repo_name"@, n.repo_name@),
        ("username"@, n.username@),
        ("commits_count"@, spec_decimal(n.commit_count as nat)),
        ("plural"@, if n.commit_count > 1 { "s"@ } else { ""@ }),
        ("branch"@, last_segment(n.git_ref@)),
        ("commits_url"@, n.commits_url@),
    ]
}

/// The message about a push when no format string is configured.
pub open spec fn default_push_message(n: PushNotice) -> Seq<char> {
    "["@ + n.repo_name@ + "] "@ + n.username@ + " pushed "@ + spec_decimal(n.commit_count as nat)
        + " commit"@ + (if n.commit_count > 1 { "s"@ } else { ""@ }) + " to "@ + last_segment(
        n.git_ref@,
    ) + ".\n[Check out the diff!]("@ + n.commits_url@ + ")"@
}

/// The message for a repository's room: the configured format string filled
/// in, or else the default message; none when no room hears of the repository.
pub open spec fn spec_notice(
    config: GithubConfig,
    format_name: Seq<char>,
    repo_name: Seq<char>,
    args: Seq<(Seq<char>, Seq<char>)>,
    default_message: Seq<char>,
) -> Option<(Seq<char>, Seq<char>)> {
    match spec_room_for_repo(config.repos@, repo_name) {
        None => None,
        Some(room) => match spec_format_string(config, format_name) {
            Some(f) => match spec_str_fmt(f, args) {
                FmtOutcome::Text(t) => Some((room, t)),
                _ => None,
            },
            None => Some((room, default_message)),
        },
    }
}

/// Whether filling in the configured format string would fail: the server
/// does not survive that.
pub open spec fn spec_notice_breaks(
    config: GithubConfig,
    format_name: Seq<char>,
    repo_name: Seq<char>,
    args: Seq<(Seq<char>, Seq<char>)>,
) -> bool {
    &&& spec_room_for_repo(config.repos@, repo_name) is Some
    &&& spec_format_string(config, format_name) matches Some(f)
    &&& !(spec_str_fmt(f, args) is Text)
}

// ---------------------------------------------------------------------------
// Building the messages.
// ---------------------------------------------------------------------------

fn named(name: &str, value: String) -> (p: (String, String))
    ensures
        p.0@ == name@,
        p.1@ == value@,
{
    (name.to_owned(), value)
}

fn issue_state_str(s: IssueState) -> (t: &'static str)
    ensures
        t@ == issue_state_text(s),
{
    match s {
        IssueState::Open => "opened",
        IssueState::Closed => "closed",
        IssueState::Unknown => "<unknown>",
    }
}

fn linked_pr(url: &Option<String>) -> (t: String)
    ensures
        t@ == linked_pr_text(crate::api::common::opt_view(*url)),
{
    match url {
        Some(u) => {
            let mut t = "a [linked pull request](".to_owned();
            t.append(u.as_str());
            t.append(")");
            t
        },
        None => "no linked pull request".to_owned(),
    }
}

fn merge_state_str(mergeable: bool, rebaseable: bool) -> (t: &'static str)
    ensures
        t@ == merge_state_text(mergeable, rebaseable),
{
    if mergeable && rebaseable {
        "merge-able and rebase-able"
    } else if mergeable {
        "merge-able"
    } else if rebaseable {
        "rebase-able"
    } else {
        "in rough shape, neither rebase-able or merge-able"
    }
}

fn unwrap_false(b: Option<bool>) -> (v: bool)
    ensures
        v == or_false(b),
{
    match b {
        Some(v) => v,
        None => false,
    }
}

fn pull_action(n: &PullRequestNotice) -> (t: String)
    ensures
        t@ == pull_action_text(*n),
{
    match &n.action {
        PullRequestAction::Assigned => {
            let mut t = "PR was assigned to ".to_owned();
            match &n.assignee {
                Some(a) => t.append(a.as_str()),
                None => t.append("<unknown>"),
            }
            t
        },
        PullRequestAction::AutoMergeDisabled => "PR now has auto merge disabled".to_owned(),
        PullRequestAction::AutoMergeEnabled => "PR now has auto merge enabled".to_owned(),
        PullRequestAction::Closed => {
            if unwrap_false(n.merged) {
                "PR was merged".to_owned()
            } else {
                "PR was closed without merging".to_owned()
            }
        },
        PullRequestAction::ConvertToDraft => "PR was converted to a draft".to_owned(),
        PullRequestAction::Edited => "PR has been edited".to_owned(),
        PullRequestAction::Labeled => "PR has been labeled".to_owned(),
        PullRequestAction::Locked => "PR has been locked".to_owned(),
        PullRequestAction::Opened => "PR has been opened".to_owned(),
        PullRequestAction::ReadyForReview => "PR is ready for review".to_owned(),
        PullRequestAction::Reopened => "PR has been reopened".to_owned(),
        PullRequestAction::ReviewRequestedRemoved => "PR has review request removed".to_owned(),
        PullRequestAction::ReviewRequested => "PR has a review requested".to_owned(),
        PullRequestAction::Synchronize => "PR was synchronized".to_owned(),
        PullRequestAction::Unassigned => "PR was unassigned".to_owned(),
        PullRequestAction::Unlabeled => "PR was unlabeled".to_owned(),
        PullRequestAction::Unlocked => "PR was unlocked".to_owned(),
        PullRequestAction::_Custom(_) => "<unknown>".to_owned(),
    }
}

/// The branch a ref names: its last `/`-separated segment.
pub fn branch_of_ref(git_ref: &str) -> (b: String)
    ensures
        b@ == last_segment(git_ref@),
{
    let chars = chars_of(git_ref);
    let n = chars.len();
    let mut i = n;
    assert(chars@.subrange(n as int, n as int) =~= Seq::<char>::empty());
    assert(chars@.subrange(0, n as int) =~= chars@);
    assert(last_segment(chars@) =~= last_segment(chars@.subrange(0, n as int)) + Seq::<char>::empty());
    while i > 0 && chars[i - 1] != '/'
        invariant
            i <= n == chars@.len(),
            chars@ == git_ref@,
            last_segment(chars@) == last_segment(chars@.subrange(0, i as int)) + chars@.subrange(
                i as int,
                n as int,
            ),
        decreases i,
    {
        let ghost pre = chars@.subrange(0, i as int);
        assert(pre.drop_last() =~= chars@.subrange(0, i - 1));
        assert(pre.last() == chars@[i - 1]);
        assert(chars@.subrange(i - 1, n as int) =~= seq![chars@[i - 1]] + chars@.subrange(i as int, n as int));
        assert(last_segment(pre) == last_segment(chars@.subrange(0, i - 1)).push(chars@[i - 1]));
        assert(last_segment(chars@.subrange(0, i - 1)).push(chars@[i - 1]) + chars@.subrange(i as int, n as int)
            =~= last_segment(chars@.subrange(0, i - 1)) + chars@.subrange(i - 1, n as int));
        i = i - 1;
    }
    proof {
        let pre = chars@.subrange(0, i as int);
        if i > 0 {
            assert(pre.last() == chars@[i - 1]);
        }
        assert(last_segment(pre) =~= Seq::<char>::empty());
        assert(Seq::<char>::empty() + chars@.subrange(i as int, n as int) =~= chars@.subrange(i as int, n as int));
    }
    string_of_range(chars.as_slice(), i, n)
}

fn issue_arguments(n: &IssueNotice) -> (args: Vec<(String, String)>)
    ensures
        args_view(args@) == issue_args(*n),
{
    let args = vec![
        named("repo_name", n.repo_name.clone()),
        named("username", n.username.clone()),
        named("issue_number", decimal(n.issue_number)),
        named("linked_pr", linked_pr(&n.linked_pr_url)),
        named("issue_url", n.issue_url.clone()),
        named("title", n.title.clone()),
        named("body", n.body.clone()),
        named("state", issue_state_str(n.state).to_owned()),
    ];
    assert(args_view(args@) =~= issue_args(*n));
    args
}

fn default_issue(n: &IssueNotice) -> (m: String)
    ensures
        m@ == default_issue_message(*n),
{
    let mut m = "[".to_owned();
    m.append(n.repo_name.as_str());
    m.append("] ");
    m.append(n.username.as_str());
    m.append(" ");
    m.append(issue_state_str(n.state));
    m.append(" issue #");
    m.append(decimal(n.issue_number).as_str());
    m.append("\n[Check out the issue!](");
    m.append(n.issue_url.as_str());
    m.append(")\n");
    m.append(n.title.as_str());
    m.append("\n");
    m.append(n.body.as_str());
    m.append("\nThis PR has ");
    m.append(linked_pr(&n.linked_pr_url).as_str());
    m
}

fn pull_arguments(n: &PullRequestNotice) -> (args: Vec<(String, String)>)
    ensures
        args_view(args@) == pull_args(*n),
{
    let args = vec![
        named("repo_name", n.repo_name.clone()),
        named("username", n.username.clone()),
        named("action", pull_action(n)),
        named("current", n.current.clone()),
        named("base", n.base.clone()),
        named("additions", decimal(n.additions)),
        named("deletions", decimal(n.deletions)),
        named("changed_files", decimal(n.changed_files)),
        named("commits", decimal(n.commits)),
        named("state", merge_state_str(unwrap_false(n.mergeable), unwrap_false(n.rebaseable)).to_owned()),
        named("pull_url", n.pull_url.clone()),
        named("title", n.title.clone()),
        named("body", n.body.clone()),
    ];
    assert(args_view(args@) =~= pull_args(*n));
    args
}

fn default_pull(n: &PullRequestNotice) -> (m: String)
    ensures
        m@ == default_pull_message(*n),
{
    let mut m = "[".to_owned();
    m.append(n.repo_name.as_str());
    m.append("] ");
    m.append(n.username.as_str());
    m.append("'s PR has new activity: ");
    m.append(pull_action(n).as_str());
    m.append("\n[Check out the pull request!](");
    m.append(n.pull_url.as_str());
    m.append(")\n");
    m.append(n.title.as_str());
    m.append("\n");
    m.append(n.current.as_str());
    m.append(" was opened against ");
    m.append(n.base.as_str());
    m.append(", has ");
    m.append(decimal(n.commits).as_str());
    m.append(" commits\n++ ");
    m.append(decimal(n.additions).as_str());
    m.append("\n-- ");
    m.append(decimal(n.deletions).as_str());
    m.append("\n");
    m.append(decimal(n.changed_files).as_str());
    m.append(" changed files\nThis PR is ");
    m.append(merge_state_str(unwrap_false(n.mergeable), unwrap_false(n.rebaseable)));
    m
}

fn plural_of(count: u64) -> (p: &'static str)
    ensures
        p@ == (if count > 1 { "s"@ } else { ""@ }),
{
    if count > 1 {
        "s"
    } else {
        ""
    }
}

fn push_arguments(n: &PushNotice) -> (args: Vec<(String, String)>)
    ensures
        args_view(args@) == push_args(*n),
{
    let args = vec![
        named("repo_name", n.repo_name.clone()),
        named("username", n.username.clone()),
        named("commits_count", decimal(n.commit_count)),
        named("plural", plural_of(n.commit_count).to_owned()),
        named("branch", branch_of_ref(n.git_ref.as_str())),
        named("commits_url", n.commits_url.clone()),
    ];
    assert(args_view(args@) =~= push_args(*n));
    args
}

fn default_push(n: &PushNotice) -> (m: String)
    ensures
        m@ == default_push_message(*n),
{
    let mut m = "[".to_owned();
    m.append(n.repo_name.as_str());
    m.append("] ");
    m.append(n.username.as_str());
    m.append(" pushed ");
    m.append(decimal(n.commit_count).as_str());
    m.append(" commit");
    m.append(plural_of(n.commit_count));
    m.append(" to ");
    m.append(branch_of_ref(n.git_ref.as_str()).as_str());
    m.append(".\n[Check out the diff!](");
    m.append(n.commits_url.as_str());
    m.append(")");
    m
}

/// Whether filling in the format string `format_name` for `repo_name` with
/// `args` would fail.
fn notice_breaks(
    config: &GithubConfig,
    format_name: &str,
    repo_name: &str,
    args: &Vec<(String, String)>,
) -> (b: bool)
    ensures
        b == spec_notice_breaks(*config, format_name@, repo_name@, args_view(args@)),
{
    if config.room_for_repo(repo_name).is_none() {
        return false;
    }
    match config.format_string(format_name) {
        Some(f) => {
            let copied = copy_args(args);
            let a = Arguments::new(f, copied);
            assert(args_view(copied@) == copied@.map_values(|p: (String, String)| (p.0@, p.1@)));
            match a.render() {
                Rendered::Text(_) => false,
                _ => true,
            }
        },
        None => false,
    }
}

/// The message for the room of `repo_name`, if it has one.
fn notice(
    config: &GithubConfig,
    format_name: &str,
    repo_name: &str,
    args: Vec<(String, String)>,
    default_message: String,
) -> (r: Option<(String, String)>)
    requires
        !spec_notice_breaks(*config, format_name@, repo_name@, args_view(args@)),
    ensures
        match spec_notice(*config, format_name@, repo_name@, args_view(args@), default_message@) {
            Some((room, text)) => r matches Some((x, y)) && x@ == room && y@ == text,
            None => r is None,
        },
{
    let room = match config.room_for_repo(repo_name) {
        Some(room) => room,
        None => {
            return None;
        },
    };
    match config.format_string(format_name) {
        Some(f) => Some((room, str_fmt(f.as_str(), args))),
        None => Some((room, default_message)),
    }
}

/// The message an issue event gives the room of its repository, if it has one.
pub fn handle_issue(config: &GithubConfig, n: &IssueNotice) -> (r: Option<(String, String)>)
    requires
        !spec_notice_breaks(*config, "issues"@, n.repo_name@, issue_args(*n)),
    ensures
        match spec_notice(*config, "issues"@, n.repo_name@, issue_args(*n), default_issue_message(*n)) {
            Some((room, text)) => r matches Some((x, y)) && x@ == room && y@ == text,
            None => r is None,
        },
{
    notice(config, "issues", n.repo_name.as_str(), issue_arguments(n), default_issue(n))
}

/// The message a pull request event gives the room of its repository, if it has one.
pub fn handle_pull_request(config: &GithubConfig, n: &PullRequestNotice) -> (r: Option<(String, String)>)
    requires
        !spec_notice_breaks(*config, "pull_request"@, n.repo_name@, pull_args(*n)),
    ensures
        match spec_notice(*config, "pull_request"@, n.repo_name@, pull_args(*n), default_pull_message(*n)) {
            Some((room, text)) => r matches Some((x, y)) && x@ == room && y@ == text,
            None => r is None,
        },
{
    notice(config, "pull_request", n.repo_name.as_str(), pull_arguments(n), default_pull(n))
}

/// The message a push event gives the room of its repository, if it has one.
pub fn handle_push(config: &GithubConfig, n: &PushNotice) -> (r: Option<(String, String)>)
    requires
        !spec_notice_breaks(*config, "push"@, n.repo_name@, push_args(*n)),
    ensures
        match spec_notice(*config, "push"@, n.repo_name@, push_args(*n), default_push_message(*n)) {
            Some((room, text)) => r matches Some((x, y)) && x@ == room && y@ == text,
            None => r is None,
        },
{
    notice(config, "push", n.repo_name.as_str(), push_arguments(n), default_push(n))
}


// ---------------------------------------------------------------------------
// Routing an event.
// ---------------------------------------------------------------------------

/// How the server answers a webhook request that it has read.
#[derive(Clone, Copy, Debug, PartialEq, Eq, Structural)]
pub enum HookStatus {
    /// `200 OK`: the event was one of the configured kinds.
    Accepted,
    /// `204 No Content`: the event is of a kind nobody asked for.
    NoContent,
}

/// What the server does with an event: its answer, and the messages it
/// sends, each a room and a text, in order.
#[derive(Clone, Debug)]
pub struct Routed {
    pub status: HookStatus,
    pub messages: Vec<(String, String)>,
}

/// Whether the configuration asks for events of kind `kind`.
pub open spec fn wants(config: GithubConfig, kind: EventKind) -> bool {
    config.events@.contains(kind)
}

/// No message or one.
pub open spec fn opt_message(m: Option<(Seq<char>, Seq<char>)>) -> Seq<(Seq<char>, Seq<char>)> {
    match m {
        Some(p) => seq![p],
        None => Seq::empty(),
    }
}

/// The `zen` of a ping, sent to the room of every mapping in turn.
pub open spec fn ping_messages(repos: Seq<RepoRoomMap>, zen: Seq<char>) -> Seq<(Seq<char>, Seq<char>)> {
    repos.map_values(|m: RepoRoomMap| (m.room@, zen))
}

/// The messages an event gives, in the order they are sent.
pub open spec fn spec_messages(config: GithubConfig, event: WebhookEvent) -> Seq<(Seq<char>, Seq<char>)> {
    if !wants(config, event.spec_kind()) {
        Seq::empty()
    } else {
        match event {
            WebhookEvent::Issue(n) => opt_message(
                spec_notice(config, "issues"@, n.repo_name@, issue_args(n), default_issue_message(n)),
            ),
            WebhookEvent::PullRequest(n) => opt_message(
                spec_notice(config, "pull_request"@, n.repo_name@, pull_args(n), default_pull_message(n)),
            ),
            WebhookEvent::Push(n) => opt_message(
                spec_notice(config, "push"@, n.repo_name@, push_args(n), default_push_message(n)),
            ),
            WebhookEvent::Star(s) => match spec_room_for_repo(config.repos@, s.repo_name@) {
                Some(room) => seq![(room, s.sender@)],
                None => Seq::empty(),
            },
            WebhookEvent::Ping(Some(zen)) => ping_messages(config.repos@, zen@),
            _ => Seq::empty(),
        }
    }
}

/// Whether routing `event` would fill in a configured format string that
/// does not fill in: the server does not survive that.
pub open spec fn spec_route_breaks(config: GithubConfig, event: WebhookEvent) -> bool {
    &&& wants(config, event.spec_kind())
    &&& match event {
        WebhookEvent::Issue(n) => spec_notice_breaks(config, "issues"@, n.repo_name@, issue_args(n)),
        WebhookEvent::PullRequest(n) => spec_notice_breaks(config, "pull_request"@, n.repo_name@, pull_args(n)),
        WebhookEvent::Push(n) => spec_notice_breaks(config, "push"@, n.repo_name@, push_args(n)),
        _ => false,
    }
}

/// Whether the configuration asks for events of kind `kind`.
pub fn wants_kind(config: &GithubConfig, kind: EventKind) -> (b: bool)
    ensures
        b == wants(*config, kind),
{
    let mut i: usize = 0;
    while i < config.events.len()
        invariant
            i <= config.events@.len(),
            forall|j: int| 0 <= j < i ==> config.events@[j] != kind,
        decreases config.events.len() - i,
    {
        if config.events[i] == kind {
            assert(config.events@[i as int] == kind);
            return true;
        }
        i = i + 1;
    }
    false
}

/// Whether routing `event` would fail to fill in a configured format string.
pub fn route_breaks(config: &GithubConfig, event: &WebhookEvent) -> (b: bool)
    ensures
        b == spec_route_breaks(*config, *event),
{
    if !wants_kind(config, event.as_kind()) {
        return false;
    }
    match event {
        WebhookEvent::Issue(n) => notice_breaks(config, "issues", n.repo_name.as_str(), &issue_arguments(n)),
        WebhookEvent::PullRequest(n) => notice_breaks(
            config,
            "pull_request",
            n.repo_name.as_str(),
            &pull_arguments(n),
        ),
        WebhookEvent::Push(n) => notice_breaks(config, "push", n.repo_name.as_str(), &push_arguments(n)),
        _ => false,
    }
}

fn one_message(m: Option<(String, String)>) -> (v: Vec<(String, String)>)
    ensures
        args_view(v@) == opt_message(
            match m {
                Some(p) => Some((p.0@, p.1@)),
                None => None,
            },
        ),
{
    let mut v: Vec<(String, String)> = Vec::new();
    if let Some(p) = m {
        v.push(p);
    }
    assert(args_view(v@) =~= opt_message(
        match m {
            Some(p) => Some((p.0@, p.1@)),
            None => None,
        },
    ));
    v
}

fn ping_to_all(repos: &Vec<RepoRoomMap>, zen: &String) -> (v: Vec<(String, String)>)
    ensures
        args_view(v@) == ping_messages(repos@, zen@),
{
    let mut v: Vec<(String, String)> = Vec::new();
    let mut i: usize = 0;
    while i < repos.len()
        invariant
            i <= repos@.len(),
            v@.len() == i,
            args_view(v@) == ping_messages(repos@, zen@).subrange(0, i as int),
        decreases repos.len() - i,
    {
        let ghost before = v@;
        v.push((repos[i].room.clone(), zen.clone()));
        assert(v@ == before.push(v@[i as int]));
        assert(ping_messages(repos@, zen@)[i as int] == (repos@[i as int].room@, zen@));
        assert(args_view(v@) =~= ping_messages(repos@, zen@).subrange(0, i + 1));
        i = i + 1;
    }
    assert(ping_messages(repos@, zen@).subrange(0, repos@.len() as int) =~= ping_messages(repos@, zen@));
    v
}

/// What the server does with a webhook event: `204 No Content` and nothing
/// sent for a kind the configuration does not ask for; else `200 OK`, with
/// the message for the repository's room of an issue, pull request or push
/// event, the sender's login for the room of a starred repository, and a
/// ping's `zen` for every configured room.
pub fn index(config: &GithubConfig, event: &WebhookEvent) -> (r: Routed)
    requires
        !spec_route_breaks(*config, *event),
    ensures
        r.status == (if wants(*config, event.spec_kind()) {
            HookStatus::Accepted
        } else {
            HookStatus::NoContent
        }),
        args_view(r.messages@) == spec_messages(*config, *event),
{
    if !wants_kind(config, event.as_kind()) {
        let messages: Vec<(String, String)> = Vec::new();
        assert(args_view(messages@) =~= Seq::<(Seq<char>, Seq<char>)>::empty());
        return Routed { status: HookStatus::NoContent, messages };
    }
    let messages = match event {
        WebhookEvent::Issue(n) => one_message(handle_issue(config, n)),
        WebhookEvent::PullRequest(n) => one_message(handle_pull_request(config, n)),
        WebhookEvent::Push(n) => one_message(handle_push(config, n)),
        WebhookEvent::Star(s) => {
            let room = config.room_for_repo(s.repo_name.as_str());
            one_message(
                match room {
                    Some(room) => Some((room, s.sender.clone())),
                    None => None,
                },
            )
        },
        WebhookEvent::Ping(Some(zen)) => ping_to_all(&config.repos, zen),
        _ => {
            let none: Vec<(String, String)> = Vec::new();
            assert(args_view(none@) =~= Seq::<(Seq<char>, Seq<char>)>::empty());
            none
        },
    };
    Routed { status: HookStatus::Accepted, messages }
}


/// The server writes only to configured rooms: every message an event gives
/// goes to the room of one of the configured mappings.
pub proof fn law_messages_go_to_mapped_rooms(config: GithubConfig, event: WebhookEvent)
    ensures
        forall|i: int|
            0 <= i < spec_messages(config, event).len() ==> is_mapped_room(
                config.repos@,
                #[trigger] spec_messages(config, event)[i].0,
            ),
{
    let msgs = spec_messages(config, event);
    let repos = config.repos@;
    if wants(config, event.spec_kind()) {
        match event {
            WebhookEvent::Issue(n) => {
                lemma_room_for_repo_is_mapped(repos, n.repo_name@);
            },
            WebhookEvent::PullRequest(n) => {
                lemma_room_for_repo_is_mapped(repos, n.repo_name@);
            },
            WebhookEvent::Push(n) => {
                lemma_room_for_repo_is_mapped(repos, n.repo_name@);
            },
            WebhookEvent::Star(st) => {
                lemma_room_for_repo_is_mapped(repos, st.repo_name@);
            },
            WebhookEvent::Ping(Some(zen)) => {
                assert forall|i: int| 0 <= i < msgs.len() implies is_mapped_room(
                    repos,
                    #[trigger] msgs[i].0,
                ) by {
                    assert(msgs[i].0 == repos[i].room@);
                }
            },
            _ => {},
        }
    }
}


/// The state word of an issue message: `opened` for an open issue, `closed`
/// for a closed one and `<unknown>` otherwise; different states are told by
/// different words.
pub proof fn law_issue_state_words(a: IssueState, b: IssueState)
    ensures
        issue_state_text(IssueState::Open) == "opened"@,
        issue_state_text(IssueState::Closed) == "closed"@,
        issue_state_text(IssueState::Unknown) == "<unknown>"@,
        a != b ==> issue_state_text(a) != issue_state_text(b),
{
    reveal_strlit("opened");
    reveal_strlit("closed");
    reveal_strlit("<unknown>");
    if a != b {
        assert("opened"@[0] != "closed"@[0]);
        assert("opened"@.len() != "<unknown>"@.len());
        assert("closed"@.len() != "<unknown>"@.len());
    }
}

/// A closed pull request is told as merged exactly when the event says it
/// was merged (`merged` is `Some(true)`), and as closed without merging when
/// `merged` is `Some(false)` or absent.
pub proof fn law_closed_pull_request_text(n: PullRequestNotice)
    requires
        n.action is Closed,
    ensures
        n.merged == Some(true) ==> pull_action_text(n) == "PR was merged"@,
        n.merged != Some(true) ==> pull_action_text(n) == "PR was closed without merging"@,
        pull_action_text(n) == "PR was merged"@ <==> n.merged == Some(true),
{
    reveal_strlit("PR was merged");
    reveal_strlit("PR was closed without merging");
    assert("PR was merged"@.len() != "PR was closed without merging"@.len());
}

/// An assigned pull request is told with the assignee's login, or
/// `<unknown>` when the event names none.
pub proof fn law_assigned_pull_request_text(n: PullRequestNotice)
    requires
        n.action is Assigned,
    ensures
        pull_action_text(n) == "PR was assigned to "@ + match n.assignee {
            Some(a) => a@,
            None => "<unknown>"@,
        },
{
}

/// How mergeable a pull request is: the four combinations of mergeable and
/// rebaseable get four different texts, and an absent flag counts as false.
pub proof fn law_merge_state_texts(m1: bool, r1: bool, m2: bool, r2: bool)
    ensures
        merge_state_text(true, true) == "merge-able and rebase-able"@,
        merge_state_text(true, false) == "merge-able"@,
        merge_state_text(false, true) == "rebase-able"@,
        merge_state_text(false, false) == "in rough shape, neither rebase-able or merge-able"@,
        (m1, r1) != (m2, r2) ==> merge_state_text(m1, r1) != merge_state_text(m2, r2),
        or_false(None) == false,
{
    reveal_strlit("merge-able and rebase-able");
    reveal_strlit("merge-able");
    reveal_strlit("rebase-able");
    reveal_strlit("in rough shape, neither rebase-able or merge-able");
    if (m1, r1) != (m2, r2) {
        assert("merge-able"@[0] != "rebase-able"@[0]);
        assert("merge-able"@.len() != "merge-able and rebase-able"@.len());
        assert("rebase-able"@.len() != "merge-able and rebase-able"@.len());
        assert("merge-able"@[0] != "in rough shape, neither rebase-able or merge-able"@[0]);
        assert("rebase-able"@[0] != "in rough shape, neither rebase-able or merge-able"@[0]);
        assert("merge-able and rebase-able"@[0] != "in rough shape, neither rebase-able or merge-able"@[0]);
    }
}


/// The branch of a ref is what follows its last `/`: a ref without `/` is
/// its own branch, and `a/b` has the branch of `b`.
pub proof fn law_branch_after_last_slash(a: Seq<char>, b: Seq<char>)
    requires
        !b.contains('/'),
    ensures
        last_segment(a + seq!['/'] + b) == b,
        !a.contains('/') ==> last_segment(a) == a,
    decreases a.len() + b.len(),
{
    let s = a + seq!['/'] + b;
    if b.len() == 0 {
        assert(s.last() == '/');
        assert(s.len() > 0);
    } else {
        assert(b.last() != '/') by {
            assert(b[b.len() - 1] == b.last());
        }
        assert(s.last() == b.last());
        assert(!b.drop_last().contains('/')) by {
            if b.drop_last().contains('/') {
                let i = choose|i: int| 0 <= i < b.drop_last().len() && b.drop_last()[i] == '/';
                assert(b[i] == '/');
            }
        }
        assert(s.drop_last() =~= a + seq!['/'] + b.drop_last());
        law_branch_after_last_slash(a, b.drop_last());
        assert(b.drop_last().push(b.last()) =~= b);
    }
    if !a.contains('/') && a.len() > 0 {
        assert(a.last() != '/') by {
            assert(a[a.len() - 1] == a.last());
        }
        assert(!a.drop_last().contains('/')) by {
            if a.drop_last().contains('/') {
                let i = choose|i: int| 0 <= i < a.drop_last().len() && a.drop_last()[i] == '/';
                assert(a[i] == '/');
            }
        }
        law_branch_after_last_slash(a.drop_last(), Seq::empty());
        assert(a.drop_last().push(a.last()) =~= a);
    }
}

} // verus!
