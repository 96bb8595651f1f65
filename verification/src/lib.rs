//! Matrix bot and webhook receiver for GitHub repositories: the verified core.
use vstd::prelude::*;

use crate::api::common::{find_pair, insert_pair, pairs_view};
use crate::api::EventKind;
use crate::strfmt::{
    distinct_names, find_key, insert_entry, lemma_insert_entry_distinct, lemma_lookup_insert, lookup,
};
use crate::text::{chars_of, string_of_range};

pub mod api;
pub mod cmd_request;
pub mod cmds;
pub mod from_data;
pub mod relay;
pub mod routes;
pub mod strfmt;
pub mod text;

verus! {

/// The owner and the name of a GitHub repository.
#[derive(Clone, Debug)]
pub struct RepoName {
    pub owner: String,
    pub repo: String,
}

/// `owner/repo`: the full name GitHub gives a repository.
pub open spec fn spec_full_name(owner: Seq<char>, repo: Seq<char>) -> Seq<char> {
    owner + seq!['/'] + repo
}

impl RepoName {
    /// The full name `owner/repo` of this repository.
    pub fn as_full_name(&self) -> (full: String)
        ensures
            full@ == spec_full_name(self.owner@, self.repo@),
    {
        let mut full = self.owner.clone();
        text::push_char(&mut full, '/');
        full.append(self.repo.as_str());
        full
    }
}

/// The position of the first `/` in `s`, if any.
pub open spec fn first_slash(s: Seq<char>) -> Option<int>
    decreases s.len(),
{
    if s.len() == 0 {
        None
    } else if s[0] == '/' {
        Some(0)
    } else {
        match first_slash(s.drop_first()) {
            Some(i) => Some(i + 1),
            None => None,
        }
    }
}

/// The text of `s` up to its first `/`, or all of it.
pub open spec fn before_slash(s: Seq<char>) -> Seq<char> {
    match first_slash(s) {
        Some(i) => s.take(i),
        None => s,
    }
}

/// The owner and repository that `owner/repo` names: the text before the
/// first `/` and the text after it up to the next `/`, if any.
pub open spec fn spec_parse_repo_name(s: Seq<char>) -> Option<(Seq<char>, Seq<char>)> {
    match first_slash(s) {
        None => None,
        Some(i) => Some((s.take(i), before_slash(s.skip(i + 1)))),
    }
}

proof fn lemma_first_slash(s: Seq<char>)
    ensures
        first_slash(s) matches Some(i) ==> 0 <= i < s.len() && s[i] == '/' && forall|j: int|
            0 <= j < i ==> s[j] != '/',
        first_slash(s) is None ==> forall|j: int| 0 <= j < s.len() ==> s[j] != '/',
    decreases s.len(),
{
    if s.len() > 0 {
        lemma_first_slash(s.drop_first());
        if s[0] != '/' {
            assert forall|j: int| 1 <= j < s.len() implies s[j] == s.drop_first()[j - 1] by {}
        }
    }
}

fn find_slash(chars: &[char], from: usize) -> (i: Option<usize>)
    requires
        from <= chars@.len(),
    ensures
        match first_slash(chars@.skip(from as int)) {
            Some(j) => i matches Some(x) && x == from + j,
            None => i is None,
        },
        i matches Some(x) ==> from <= x < chars@.len(),
{
    let mut i = from;
    while i < chars.len()
        invariant
            from <= i <= chars@.len(),
            forall|j: int| from <= j < i ==> chars@[j] != '/',
        decreases chars.len() - i,
    {
        if chars[i] == '/' {
            proof {
                let t = chars@.skip(from as int);
                lemma_first_slash(t);
                assert(t[i - from] == '/');
                assert forall|j: int| 0 <= j < i - from implies t[j] != '/' by {
                    assert(t[j] == chars@[from + j]);
                }
            }
            return Some(i);
        }
        i = i + 1;
    }
    proof {
        let t = chars@.skip(from as int);
        lemma_first_slash(t);
        assert forall|j: int| 0 <= j < t.len() implies t[j] != '/' by {
            assert(t[j] == chars@[from + j]);
        }
    }
    None
}

/// Reads `owner/repo` as a repository name.
pub fn parse_repo_name(s: &str) -> (r: Result<RepoName, &'static str>)
    ensures
        match spec_parse_repo_name(s@) {
            Some((owner, repo)) => r matches Ok(name) && name.owner@ == owner && name.repo@ == repo,
            None => r matches Err(e) && e@ == "repo not found"@,
        },
{
    let chars = chars_of(s);
    assert(chars@.skip(0) =~= chars@);
    let slash = match find_slash(chars.as_slice(), 0) {
        Some(i) => i,
        None => {
            return Err("repo not found");
        },
    };
    assert(chars@.len() == chars.len());
    let owner = string_of_range(chars.as_slice(), 0, slash);
    let end = match find_slash(chars.as_slice(), slash + 1) {
        Some(j) => j,
        None => chars.len(),
    };
    let repo = string_of_range(chars.as_slice(), slash + 1, end);
    proof {
        let rest = chars@.skip(slash + 1);
        assert(owner@ =~= chars@.take(slash as int));
        match first_slash(rest) {
            Some(j) => {
                assert(repo@ =~= rest.take(j));
            },
            None => {
                assert(repo@ =~= rest);
            },
        }
    }
    Ok(RepoName { owner, repo })
}

proof fn lemma_first_slash_at(s: Seq<char>, i: int)
    requires
        0 <= i < s.len(),
        s[i] == '/',
        forall|j: int| 0 <= j < i ==> s[j] != '/',
    ensures
        first_slash(s) == Some(i),
    decreases i,
{
    if i > 0 {
        lemma_first_slash_at(s.drop_first(), i - 1);
    }
}

proof fn lemma_no_slash(s: Seq<char>)
    requires
        forall|j: int| 0 <= j < s.len() ==> s[j] != '/',
    ensures
        first_slash(s) is None,
    decreases s.len(),
{
    if s.len() > 0 {
        lemma_no_slash(s.drop_first());
    }
}

/// Reading back the full name of a repository gives its owner and name,
/// when neither holds a `/`.
pub proof fn law_full_name_round_trip(owner: Seq<char>, repo: Seq<char>)
    requires
        !owner.contains('/'),
        !repo.contains('/'),
    ensures
        spec_parse_repo_name(spec_full_name(owner, repo)) == Some((owner, repo)),
{
    let s = spec_full_name(owner, repo);
    assert forall|j: int| 0 <= j < owner.len() implies s[j] != '/' by {
        assert(s[j] == owner[j]);
    }
    lemma_first_slash_at(s, owner.len() as int);
    assert(s.take(owner.len() as int) =~= owner);
    assert(s.skip(owner.len() + 1int) =~= repo);
    lemma_no_slash(repo);
}

/// A repository whose events go to a Matrix room.
#[derive(Clone, Debug)]
pub struct RepoRoomMap {
    /// The full name of the repository, `owner/repo`.
    pub repo: String,
    /// The Matrix room id.
    pub room: String,
}

/// The GitHub side of the configuration.
#[derive(Clone, Debug)]
pub struct GithubConfig {
    /// Which repository goes to which room.
    pub repos: Vec<RepoRoomMap>,
    /// The kinds of event the bot reports.
    pub events: Vec<EventKind>,
    /// The Matrix homeserver.
    pub homeserver: String,
    /// The bot's Matrix user.
    pub user_name: String,
    /// The bot's Matrix password.
    pub password: String,
    /// A GitHub token for REST requests.
    pub user_token: Option<String>,
    /// Format strings by event name (`issues`, `pull_request`, `push`): each
    /// name once (`format_names_distinct`), which `set_format_string` keeps.
    pub format_strings: Vec<(String, String)>,
}

/// The whole configuration.
#[derive(Clone, Debug)]
pub struct Config {
    /// The secret webhook bodies are signed with.
    pub secret_key: Option<String>,
    pub github: GithubConfig,
}

impl Config {
    /// A configuration for tests: secret `test`, no repositories, no events,
    /// no format strings.
    pub fn debug() -> (c: Config)
        ensures
            c.secret_key matches Some(k) && k@ == "test"@,
            c.github.repos@.len() == 0,
            c.github.events@.len() == 0,
            c.github.format_strings@.len() == 0,
            c.github.format_names_distinct(),
            c.github.homeserver@ == "foobar.com"@,
            c.github.user_name@ == "foobar.com"@,
            c.github.password@ == "foobar.com"@,
            c.github.user_token is None,
    {
        Config {
            secret_key: Some("test".to_owned()),
            github: GithubConfig {
                repos: Vec::new(),
                events: Vec::new(),
                homeserver: "foobar.com".to_owned(),
                user_name: "foobar.com".to_owned(),
                password: "foobar.com".to_owned(),
                user_token: None,
                format_strings: Vec::new(),
            },
        }
    }
}

/// The room of the first mapping for the repository `full_name`, if any.
pub open spec fn spec_room_for_repo(repos: Seq<RepoRoomMap>, full_name: Seq<char>) -> Option<Seq<char>>
    decreases repos.len(),
{
    if repos.len() == 0 {
        None
    } else if repos[0].repo@ == full_name {
        Some(repos[0].room@)
    } else {
        spec_room_for_repo(repos.drop_first(), full_name)
    }
}

/// Whether `room` is the room of one of the mappings `repos`.
pub open spec fn is_mapped_room(repos: Seq<RepoRoomMap>, room: Seq<char>) -> bool {
    exists|j: int| 0 <= j < repos.len() && #[trigger] repos[j].room@ == room
}

/// The room found for a repository is the room of a mapping of that repository.
pub proof fn lemma_room_for_repo_is_mapped(repos: Seq<RepoRoomMap>, full_name: Seq<char>)
    ensures
        spec_room_for_repo(repos, full_name) matches Some(r) ==> is_mapped_room(repos, r),
    decreases repos.len(),
{
    if repos.len() > 0 {
        lemma_room_for_repo_is_mapped(repos.drop_first(), full_name);
        if repos[0].repo@ == full_name {
            assert(repos[0].room@ == repos[0].room@);
        } else if let Some(r) = spec_room_for_repo(repos, full_name) {
            let j = choose|j: int| 0 <= j < repos.drop_first().len() && #[trigger] repos.drop_first()[j].room@ == r;
            assert(repos[j + 1].room@ == r);
        }
    }
}

/// The repository of the first mapping for the room `room`, if any.
pub open spec fn spec_repo_for_room(repos: Seq<RepoRoomMap>, room: Seq<char>) -> Option<Seq<char>>
    decreases repos.len(),
{
    if repos.len() == 0 {
        None
    } else if repos[0].room@ == room {
        Some(repos[0].repo@)
    } else {
        spec_repo_for_room(repos.drop_first(), room)
    }
}

impl GithubConfig {
    /// The room that events of the repository `full_name` go to.
    pub fn room_for_repo(&self, full_name: &str) -> (room: Option<String>)
        ensures
            match spec_room_for_repo(self.repos@, full_name@) {
                Some(r) => room matches Some(x) && x@ == r,
                None => room is None,
            },
    {
        let mut i: usize = 0;
        assert(self.repos@.skip(0) =~= self.repos@);
        while i < self.repos.len()
            invariant
                i <= self.repos@.len(),
                spec_room_for_repo(self.repos@, full_name@) == spec_room_for_repo(
                    self.repos@.skip(i as int),
                    full_name@,
                ),
            decreases self.repos.len() - i,
        {
            assert(self.repos@.skip(i as int)[0] == self.repos@[i as int]);
            assert(self.repos@.skip(i as int).drop_first() =~= self.repos@.skip(i + 1));
            if crate::text::str_eq(self.repos[i].repo.as_str(), full_name) {
                return Some(self.repos[i].room.clone());
            }
            i = i + 1;
        }
        None
    }

    /// The repository whose events go to `room`: where issues asked for in
    /// that room are filed.
    pub fn repo_for_room(&self, room: &str) -> (repo: Option<String>)
        ensures
            match spec_repo_for_room(self.repos@, room@) {
                Some(r) => repo matches Some(x) && x@ == r,
                None => repo is None,
            },
    {
        let mut i: usize = 0;
        assert(self.repos@.skip(0) =~= self.repos@);
        while i < self.repos.len()
            invariant
                i <= self.repos@.len(),
                spec_repo_for_room(self.repos@, room@) == spec_repo_for_room(
                    self.repos@.skip(i as int),
                    room@,
                ),
            decreases self.repos.len() - i,
        {
            assert(self.repos@.skip(i as int)[0] == self.repos@[i as int]);
            assert(self.repos@.skip(i as int).drop_first() =~= self.repos@.skip(i + 1));
            if crate::text::str_eq(self.repos[i].room.as_str(), room) {
                return Some(self.repos[i].repo.clone());
            }
            i = i + 1;
        }
        None
    }

    /// Whether each event name has at most one format string.
    pub open spec fn format_names_distinct(&self) -> bool {
        distinct_names(pairs_view(self.format_strings@))
    }

    /// Sets the format string of the event name `name`: a name already set
    /// takes the new string in its place, a new name goes last. Nothing else
    /// changes, and names stay distinct.
    pub fn set_format_string(&mut self, name: String, fmt: String)
        ensures
            pairs_view(final(self).format_strings@) == insert_entry(
                pairs_view(old(self).format_strings@),
                name@,
                fmt@,
            ),
            lookup(pairs_view(final(self).format_strings@), name@) == Some(fmt@),
            old(self).format_names_distinct() ==> final(self).format_names_distinct(),
            final(self).repos == old(self).repos,
            final(self).events == old(self).events,
            final(self).homeserver == old(self).homeserver,
            final(self).user_name == old(self).user_name,
            final(self).password == old(self).password,
            final(self).user_token == old(self).user_token,
    {
        let ghost before = pairs_view(self.format_strings@);
        let ghost n = name@;
        let ghost f = fmt@;
        insert_pair(&mut self.format_strings, name, fmt);
        proof {
            lemma_lookup_insert(before, n, f, n);
            if distinct_names(before) {
                lemma_insert_entry_distinct(before, n, f);
            }
        }
    }

    /// The format string configured for an event name, if any.
    pub fn format_string(&self, name: &str) -> (f: Option<String>)
        ensures
            match find_key(pairs_view(self.format_strings@), name@) {
                Some(i) => f matches Some(s) && s@ == pairs_view(self.format_strings@)[i].1,
                None => f is None,
            },
    {
        match find_pair(&self.format_strings, name) {
            Some(i) => {
                assert(pairs_view(self.format_strings@)[i as int].1 == self.format_strings@[i as int].1@);
                Some(self.format_strings[i].1.clone())
            },
            None => None,
        }
    }
}

} // verus!
