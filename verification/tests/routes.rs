use magit::api::events::PullRequestAction;
use magit::api::{EventKind, IssueState};
use magit::routes::{
    branch_of_ref, index, route_breaks, HookStatus, IssueNotice, PullRequestNotice, PushNotice,
    StarNotice, WebhookEvent,
};
use magit::{Config, RepoRoomMap};

fn app_config() -> Config {
    let mut config = Config::debug();
    config.github.repos.push(RepoRoomMap {
        repo: "DevinR528/cargo-sort".to_owned(),
        room: "!aaa:aaa.com".to_owned(),
    });
    config.github.repos.push(RepoRoomMap {
        repo: "Codertocat/Hello-World".to_owned(),
        room: "!aaa:aaa.com".to_owned(),
    });
    config.github.events.push(EventKind::Star);
    config.github.events.push(EventKind::PullRequest);
    config.github.events.push(EventKind::Issues);
    config
}

fn hello_world_pull() -> PullRequestNotice {
    PullRequestNotice {
        repo_name: "Codertocat/Hello-World".to_owned(),
        username: "Codertocat".to_owned(),
        action: PullRequestAction::Opened,
        assignee: None,
        merged: None,
        current: "changes".to_owned(),
        base: "master".to_owned(),
        additions: 1,
        deletions: 1,
        changed_files: 1,
        commits: 1,
        mergeable: None,
        rebaseable: None,
        pull_url: "https://github.com/Codertocat/Hello-World/pull/2".to_owned(),
        title: "Update the README with new information.".to_owned(),
        body: "This is a pretty simple change that we need to pull into master.".to_owned(),
    }
}

fn hello_world_issue() -> IssueNotice {
    IssueNotice {
        repo_name: "Codertocat/Hello-World".to_owned(),
        username: "Codertocat".to_owned(),
        issue_number: 1,
        linked_pr_url: None,
        issue_url: "https://github.com/Codertocat/Hello-World/issues/1".to_owned(),
        title: "Spelling error in the README file".to_owned(),
        body: "It looks like you accidently spelled 'commit' with two 't's.".to_owned(),
        state: IssueState::Open,
    }
}

#[test]
fn stars() {
    let config = app_config();
    let event = WebhookEvent::Star(StarNotice {
        repo_name: "DevinR528/cargo-sort".to_owned(),
        sender: "DevinR528".to_owned(),
    });
    let routed = index(&config.github, &event);
    assert_eq!(routed.status, HookStatus::Accepted);
    assert_eq!("DevinR528", routed.messages[0].1);
    assert_eq!("!aaa:aaa.com", routed.messages[0].0);
}

#[test]
fn pull_request() {
    let config = app_config();
    let event = WebhookEvent::PullRequest(hello_world_pull());
    assert!(!route_breaks(&config.github, &event));
    let routed = index(&config.github, &event);
    assert_eq!(routed.status, HookStatus::Accepted);
    assert_eq!(routed.messages.len(), 1);
    assert_eq!(routed.messages[0].0, "!aaa:aaa.com");
    assert_eq!(
        routed.messages[0].1,
        "[Codertocat/Hello-World] Codertocat's PR has new activity: PR has been opened\n\
         [Check out the pull request!](https://github.com/Codertocat/Hello-World/pull/2)\n\
         Update the README with new information.\n\
         changes was opened against master, has 1 commits\n\
         ++ 1\n\
         -- 1\n\
         1 changed files\n\
         This PR is in rough shape, neither rebase-able or merge-able"
    );
}

#[test]
fn routes_issue() {
    let config = app_config();
    let event = WebhookEvent::Issue(hello_world_issue());
    let routed = index(&config.github, &event);
    assert_eq!(routed.status, HookStatus::Accepted);
    assert_eq!(routed.messages.len(), 1);
    assert_eq!(
        routed.messages[0].1,
        "[Codertocat/Hello-World] Codertocat opened issue #1\n\
         [Check out the issue!](https://github.com/Codertocat/Hello-World/issues/1)\n\
         Spelling error in the README file\n\
         It looks like you accidently spelled 'commit' with two 't's.\n\
         This PR has no linked pull request"
    );
}

#[test]
fn kinds_nobody_asked_for_get_no_content() {
    let config = app_config();
    let event = WebhookEvent::Push(PushNotice {
        username: "Codertocat".to_owned(),
        repo_name: "Codertocat/Hello-World".to_owned(),
        commits_url: "https://github.com/Codertocat/Hello-World/compare/a...b".to_owned(),
        commit_count: 2,
        git_ref: "refs/heads/main".to_owned(),
    });
    let routed = index(&config.github, &event);
    assert_eq!(routed.status, HookStatus::NoContent);
    assert!(routed.messages.is_empty());
}

#[test]
fn push_uses_branch_and_plural() {
    let mut config = app_config();
    config.github.events.push(EventKind::Push);
    let event = WebhookEvent::Push(PushNotice {
        username: "Codertocat".to_owned(),
        repo_name: "Codertocat/Hello-World".to_owned(),
        commits_url: "https://example.com/diff".to_owned(),
        commit_count: 2,
        git_ref: "refs/heads/main".to_owned(),
    });
    let routed = index(&config.github, &event);
    assert_eq!(routed.status, HookStatus::Accepted);
    assert_eq!(
        routed.messages[0].1,
        "[Codertocat/Hello-World] Codertocat pushed 2 commits to main.\n\
         [Check out the diff!](https://example.com/diff)"
    );
}

#[test]
fn configured_format_string_is_filled_in() {
    let mut config = app_config();
    config.github.events.push(EventKind::Push);
    config
        .github
        .format_strings
        .push(("push".to_owned(), "{username} -> {branch} ({commits_count} commit{plural})".to_owned()));
    let event = WebhookEvent::Push(PushNotice {
        username: "octo".to_owned(),
        repo_name: "DevinR528/cargo-sort".to_owned(),
        commits_url: "u".to_owned(),
        commit_count: 1,
        git_ref: "refs/heads/dev".to_owned(),
    });
    assert!(!route_breaks(&config.github, &event));
    let routed = index(&config.github, &event);
    assert_eq!(routed.messages, vec![("!aaa:aaa.com".to_owned(), "octo -> dev (1 commit)".to_owned())]);
}

#[test]
fn broken_format_string_is_detected() {
    let mut config = app_config();
    config.github.format_strings.push(("issues".to_owned(), "{title".to_owned()));
    let event = WebhookEvent::Issue(hello_world_issue());
    assert!(route_breaks(&config.github, &event));
}

#[test]
fn star_for_unmapped_repository_sends_nothing() {
    let config = app_config();
    let event = WebhookEvent::Star(StarNotice {
        repo_name: "someone/else".to_owned(),
        sender: "someone".to_owned(),
    });
    let routed = index(&config.github, &event);
    assert_eq!(routed.status, HookStatus::Accepted);
    assert!(routed.messages.is_empty());
}

#[test]
fn ping_reaches_every_room() {
    let mut config = app_config();
    config.github.events.push(EventKind::Ping);
    config.github.repos[1].room = "!bbb:bbb.com".to_owned();
    let routed = index(&config.github, &WebhookEvent::Ping(Some("Keep it simple.".to_owned())));
    assert_eq!(
        routed.messages,
        vec![
            ("!aaa:aaa.com".to_owned(), "Keep it simple.".to_owned()),
            ("!bbb:bbb.com".to_owned(), "Keep it simple.".to_owned()),
        ]
    );
    let silent = index(&config.github, &WebhookEvent::Ping(None));
    assert_eq!(silent.status, HookStatus::Accepted);
    assert!(silent.messages.is_empty());
}

#[test]
fn pull_request_actions_are_told() {
    let config = app_config();
    let mut pull = hello_world_pull();
    pull.action = PullRequestAction::Closed;
    pull.merged = Some(true);
    pull.mergeable = Some(true);
    pull.rebaseable = Some(true);
    let routed = index(&config.github, &WebhookEvent::PullRequest(pull));
    let text = &routed.messages[0].1;
    assert!(text.contains("PR has new activity: PR was merged\n"));
    assert!(text.ends_with("This PR is merge-able and rebase-able"));
}

#[test]
fn branch_is_last_ref_segment() {
    assert_eq!(branch_of_ref("refs/heads/feature"), "feature");
    assert_eq!(branch_of_ref("main"), "main");
    assert_eq!(branch_of_ref("refs/tags/"), "");
}
