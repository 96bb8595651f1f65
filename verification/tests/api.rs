use chrono::{DateTime, Utc};
use magit::api::common::{
    datetime, datetime_opt, true_fn, Links, LinksError, Permissions, RawTimestamp, UrlMap,
    UtcInstant,
};
use magit::api::events::{CheckAction, PullRequestAction, StatusState};
use magit::api::rest::{
    direction, opt_default, page, per_page, sort, ApplicationV3Json, AssigneeQuery, Direction,
    MergeMethod, MilestoneQuery, Sort, StateQuery, Type as RepoType,
};
use magit::api::{
    AuthorAssociation, CheckStatus, ConclusionStatus, EventKind, IssueState, LockReason,
    RepoCreationType, RepoPermission, Type,
};
use magit::cmds::GithubFailure;

fn entry(k: &str, v: Option<&str>) -> (String, Option<String>) {
    (k.to_owned(), v.map(|s| s.to_owned()))
}

#[test]
fn url_map_keeps_url_entries() {
    let map = UrlMap::from_entries(vec![
        entry("url", Some("https://api.github.com/repos/o/r")),
        entry("html_url", Some("https://github.com/o/r")),
        entry("events_url", None),
        entry("name", Some("r")),
        entry("issues_url", Some("first")),
        entry("issues_url", Some("second")),
    ]);
    assert_eq!(map.len(), 2);
    assert!(!map.is_empty());
    assert_eq!(map.get("html_url"), Some("https://github.com/o/r"));
    assert_eq!(map.get("issues_url"), Some("second"));
    assert_eq!(map.get("events_url"), None);
    assert_eq!(map.get("url"), None);
    assert_eq!(map.get("name"), None);
}

#[test]
fn empty_url_map() {
    let map = UrlMap::from_entries(vec![entry("id", Some("1"))]);
    assert!(map.is_empty());
    assert_eq!(map.len(), 0);
}

#[test]
fn links_are_read_by_key() {
    let links = Links::from_entries(vec![
        entry("self", Some("https://api.github.com/repos/o/r/pulls/1")),
        entry("html", Some("https://github.com/o/r/pull/1")),
        entry("statuses", None),
    ])
    .ok()
    .unwrap();
    assert_eq!(links.self_link.as_deref(), Some("https://api.github.com/repos/o/r/pulls/1"));
    assert_eq!(links.html_link.as_deref(), Some("https://github.com/o/r/pull/1"));
    assert_eq!(links.statuses_link, None);
    assert_eq!(links.pull_request_link, None);
}

#[test]
fn links_refuse_unknown_and_repeated_keys() {
    match Links::from_entries(vec![entry("self", Some("a")), entry("avatar", Some("b"))]) {
        Err(LinksError::UnknownField(k)) => assert_eq!(k, "avatar"),
        other => panic!("unexpected {:?}", other),
    }
    match Links::from_entries(vec![entry("html", Some("a")), entry("html", Some("b"))]) {
        Err(LinksError::DuplicateField(f)) => assert_eq!(f, "html_link"),
        other => panic!("unexpected {:?}", other),
    }
    // A link given as null may be given again.
    let links = Links::from_entries(vec![entry("commits", None), entry("commits", Some("c"))])
        .ok()
        .unwrap();
    assert_eq!(links.commits_link.as_deref(), Some("c"));
}

#[test]
fn listing_defaults() {
    assert_eq!(per_page(None), Ok(30));
    assert_eq!(per_page(Some(100)), Ok(100));
    assert_eq!(per_page(Some(101)), Err("per_page must be <= 100"));
    assert_eq!(page(None), 1);
    assert_eq!(page(Some(7)), 7);
    assert!(matches!(sort(None), Sort::Created));
    assert!(matches!(sort(Some(Sort::FullName)), Sort::FullName));
    assert!(matches!(direction(None), Direction::Desc));
    assert!(matches!(direction(Some(Direction::Asc)), Direction::Asc));
    assert_eq!(opt_default::<u64>(None), 0);
    assert_eq!(opt_default(Some(5u64)), 5);
}

#[test]
fn query_values() {
    assert_eq!(MilestoneQuery::Int(42).query_value(), "42");
    assert_eq!(MilestoneQuery::Wildcard.query_value(), "*");
    assert_eq!(MilestoneQuery::NoMilestone.query_value(), "none");
    assert_eq!(AssigneeQuery::Wildcard.query_value(), "*");
    assert_eq!(AssigneeQuery::NoAssignee.query_value(), "none");
    assert_eq!(ApplicationV3Json.as_str(), "application/vnd.github.v3+json");
    assert_eq!(Sort::FullName.as_str(), "full_name");
    assert_eq!(StateQuery::Close.as_str(), "close");
    assert_eq!(RepoType::from_name("sources").as_str(), "sources");
    assert!(matches!(RepoType::from_name("weird"), RepoType::_Custom(s) if s == "weird"));
    assert_eq!(MergeMethod::Squash.as_str(), "Squash");
    assert!(MergeMethod::from_name("merge").is_none());
}

#[test]
fn names_of_values() {
    assert_eq!(EventKind::PullRequestReviewComment.as_str(), "pull_request_review_comment");
    assert_eq!(EventKind::from_name("check_suite"), Some(EventKind::CheckSuite));
    assert_eq!(EventKind::from_name("Check_suite"), None);
    assert_eq!(LockReason::from_name("too heated"), Some(LockReason::TooHeated));
    assert_eq!(LockReason::OffTopic.as_str(), "off-topic");
    assert_eq!(Type::from_name("Organization"), Some(Type::Organization));
    assert_eq!(Type::from_name("Bot"), None);
    assert_eq!(IssueState::from_name("closed"), Some(IssueState::Closed));
    assert_eq!(AuthorAssociation::FirstTimeContributor.as_str(), "FIRST_TIME_CONTRIBUTOR");
    assert_eq!(RepoPermission::from_name("none"), Some(RepoPermission::NoAccess));
    assert_eq!(CheckAction::from_name("rerequested"), Some(CheckAction::Rerequested));
    assert_eq!(StatusState::from_name("success"), Some(StatusState::Success));
    assert!(matches!(PullRequestAction::from_name("opened"), PullRequestAction::Opened));
    assert_eq!(PullRequestAction::from_name("frobbed").as_str(), "frobbed");
}

#[test]
fn defaults_of_values() {
    assert_eq!(CheckStatus::default(), CheckStatus::Absent);
    assert_eq!(ConclusionStatus::default(), ConclusionStatus::Absent);
    assert_eq!(IssueState::default(), IssueState::Open);
    assert_eq!(AuthorAssociation::default(), AuthorAssociation::NoAssociation);
    assert_eq!(RepoPermission::default(), RepoPermission::NoAccess);
    assert_eq!(RepoCreationType::default(), RepoCreationType::All);
    assert!(matches!(RepoType::default(), RepoType::All));
    assert!(matches!(StateQuery::default(), StateQuery::Open));
    let p = Permissions::default();
    assert!(!p.admin && !p.push && !p.pull);
    assert!(true_fn());
}

#[test]
fn every_event_kind_name_reads_back() {
    let names = [
        "check_run", "check_suite", "commit_comment", "create", "delete", "installation",
        "issues", "issue_comment", "milestone", "ping", "pull_request", "pull_request_review",
        "pull_request_review_comment", "push", "release", "star", "status", "watch",
    ];
    for name in names {
        let kind = EventKind::from_name(name).expect(name);
        assert_eq!(kind.as_str(), name);
    }
}

#[test]
fn github_failure_message() {
    assert_eq!(GithubFailure::Fail.message(), "failed");
}

#[test]
fn timestamps_from_seconds() {
    assert_eq!(datetime(RawTimestamp::Secs(1431648000)), Ok(UtcInstant { secs: 1431648000, nanos: 0 }));
    assert_eq!(datetime(RawTimestamp::Secs(-1)), Ok(UtcInstant { secs: -1, nanos: 0 }));
    assert_eq!(datetime(RawTimestamp::Secs(i64::MAX)), Err("timestamp exceeded bounds".to_owned()));
}

#[test]
fn timestamps_from_text() {
    assert_eq!(
        datetime(RawTimestamp::Text("2015-09-18T23:56:04Z".to_owned())),
        Ok(UtcInstant { secs: 1442620564, nanos: 0 })
    );
    assert_eq!(
        datetime(RawTimestamp::Text("2019-05-15T15:20:30.5+02:00".to_owned())),
        Ok(UtcInstant { secs: 1557926430, nanos: 500_000_000 })
    );
    let expected = "yesterday".parse::<DateTime<Utc>>().unwrap_err().to_string();
    assert_eq!(datetime(RawTimestamp::Text("yesterday".to_owned())), Err(expected));
}

#[test]
fn optional_timestamps() {
    assert_eq!(datetime_opt(None), Ok(None));
    assert_eq!(datetime_opt(Some(RawTimestamp::Secs(0))), Ok(Some(UtcInstant { secs: 0, nanos: 0 })));
    assert!(datetime_opt(Some(RawTimestamp::Secs(i64::MIN))).is_err());
}

#[test]
fn url_map_len_counts_found_keys() {
    let map = UrlMap::from_entries(vec![
        entry("a_url", Some("x")),
        entry("b", Some("y")),
        entry("c_url", None),
        entry("a_url", Some("z")),
    ]);
    assert_eq!(map.len(), 1);
    let copy = map.clone();
    assert_eq!(copy.len(), 1);
    assert_eq!(copy.get("a_url"), Some("z"));
}

#[test]
fn timestamp_range_edges() {
    assert_eq!(
        datetime(RawTimestamp::Secs(8210266876799)),
        Ok(UtcInstant { secs: 8210266876799, nanos: 0 })
    );
    assert!(datetime(RawTimestamp::Secs(8210266876800)).is_err());
    assert_eq!(
        datetime(RawTimestamp::Secs(-8334601228800)),
        Ok(UtcInstant { secs: -8334601228800, nanos: 0 })
    );
    assert!(datetime(RawTimestamp::Secs(-8334601228801)).is_err());
}
