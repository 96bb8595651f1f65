//! Parameters of GitHub REST API requests, and their values in a query.
use vstd::prelude::*;

use crate::text::{decimal, spec_decimal, str_eq};

verus! {

/// The kinds of repository a listing returns.
#[derive(Clone, Debug)]
pub enum Type {
    All,
    Public,
    Private,
    Forks,
    Sources,
    Member,
    Internal,
    /// A name this library does not know, kept as it came.
    _Custom(String),
}

impl Type {
    /// The name of this variant in GitHub's JSON.
    pub open spec fn spec_name(&self) -> Seq<char> {
        match self {
            Type::All => "all"@,
            Type::Public => "public"@,
            Type::Private => "private"@,
            Type::Forks => "forks"@,
            Type::Sources => "sources"@,
            Type::Member => "member"@,
            Type::Internal => "internal"@,
            Type::_Custom(s) => s@,
        }
    }

    /// The variant a known name stands for.
    pub open spec fn spec_from_name(s: Seq<char>) -> Option<Self> {
        if s == "all"@ {
            Some(Type::All)
        } else if s == "public"@ {
            Some(Type::Public)
        } else if s == "private"@ {
            Some(Type::Private)
        } else if s == "forks"@ {
            Some(Type::Forks)
        } else if s == "sources"@ {
            Some(Type::Sources)
        } else if s == "member"@ {
            Some(Type::Member)
        } else if s == "internal"@ {
            Some(Type::Internal)
        } else {
            None
        }
    }

    /// The name of this variant in GitHub's JSON.
    pub fn as_str(&self) -> (s: &str)
        ensures
            s@ == self.spec_name(),
    {
        match self {
            Type::All => "all",
            Type::Public => "public",
            Type::Private => "private",
            Type::Forks => "forks",
            Type::Sources => "sources",
            Type::Member => "member",
            Type::Internal => "internal",
            Type::_Custom(s) => s.as_str(),
        }
    }

    /// The variant a name stands for; an unknown name is kept as it is.
    pub fn from_name(s: &str) -> (r: Self)
        ensures
            r.spec_name() == s@,
            Self::spec_from_name(s@) matches Some(k) ==> r == k,
            Self::spec_from_name(s@) is None ==> r is _Custom,
    {
        if str_eq(s, "all") {
            Type::All
        } else if str_eq(s, "public") {
            Type::Public
        } else if str_eq(s, "private") {
            Type::Private
        } else if str_eq(s, "forks") {
            Type::Forks
        } else if str_eq(s, "sources") {
            Type::Sources
        } else if str_eq(s, "member") {
            Type::Member
        } else if str_eq(s, "internal") {
            Type::Internal
        } else {
            Type::_Custom(s.to_owned())
        }
    }

    /// Reading the name of a known variant gives the variant back.
    pub proof fn law_name_round_trip(x: Self)
        requires
            !(x is _Custom),
        ensures
            Self::spec_from_name(x.spec_name()) == Some(x),
    {
        reveal_strlit("all");
        reveal_strlit("public");
        reveal_strlit("private");
        reveal_strlit("forks");
        reveal_strlit("sources");
        reveal_strlit("member");
        reveal_strlit("internal");
        assert("all"@.len() == 3);
        assert("public"@.len() == 6);
        assert("private"@.len() == 7);
        assert("forks"@.len() == 5);
        assert("sources"@.len() == 7);
        assert("member"@.len() == 6);
        assert("internal"@.len() == 8);
        assert("member"@[0] == 'm');
        assert("private"@[0] == 'p');
        assert("public"@[0] == 'p');
        assert("sources"@[0] == 's');
    }
}

impl Default for Type {
    fn default() -> (d: Self)
        ensures
            d is All,
    {
        Type::All
    }
}

/// The order of a listing: ascending or descending.
#[derive(Clone, Debug)]
pub enum Direction {
    Asc,
    Desc,
    /// A name this library does not know, kept as it came.
    _Custom(String),
}

impl Direction {
    /// The name of this variant in GitHub's JSON.
    pub open spec fn spec_name(&self) -> Seq<char> {
        match self {
            Direction::Asc => "asc"@,
            Direction::Desc => "desc"@,
            Direction::_Custom(s) => s@,
        }
    }

    /// The variant a known name stands for.
    pub open spec fn spec_from_name(s: Seq<char>) -> Option<Self> {
        if s == "asc"@ {
            Some(Direction::Asc)
        } else if s == "desc"@ {
            Some(Direction::Desc)
        } else {
            None
        }
    }

    /// The name of this variant in GitHub's JSON.
    pub fn as_str(&self) -> (s: &str)
        ensures
            s@ == self.spec_name(),
    {
        match self {
            Direction::Asc => "asc",
            Direction::Desc => "desc",
            Direction::_Custom(s) => s.as_str(),
        }
    }

    /// The variant a name stands for; an unknown name is kept as it is.
    pub fn from_name(s: &str) -> (r: Self)
        ensures
            r.spec_name() == s@,
            Self::spec_from_name(s@) matches Some(k) ==> r == k,
            Self::spec_from_name(s@) is None ==> r is _Custom,
    {
        if str_eq(s, "asc") {
            Direction::Asc
        } else if str_eq(s, "desc") {
            Direction::Desc
        } else {
            Direction::_Custom(s.to_owned())
        }
    }

    /// Reading the name of a known variant gives the variant back.
    pub proof fn law_name_round_trip(x: Self)
        requires
            !(x is _Custom),
        ensures
            Self::spec_from_name(x.spec_name()) == Some(x),
    {
        reveal_strlit("asc");
        reveal_strlit("desc");
        assert("asc"@.len() == 3);
        assert("desc"@.len() == 4);
    }
}

/// What a listing is sorted by.
#[derive(Clone, Debug)]
pub enum Sort {
    Created,
    Updated,
    Pushed,
    FullName,
    /// A name this library does not know, kept as it came.
    _Custom(String),
}

impl Sort {
    /// The name of this variant in GitHub's JSON.
    pub open spec fn spec_name(&self) -> Seq<char> {
        match self {
            Sort::Created => "created"@,
            Sort::Updated => "updated"@,
            Sort::Pushed => "pushed"@,
            Sort::FullName => "full_name"@,
            Sort::_Custom(s) => s@,
        }
    }

    /// The variant a known name stands for.
    pub open spec fn spec_from_name(s: Seq<char>) -> Option<Self> {
        if s == "created"@ {
            Some(Sort::Created)
        } else if s == "updated"@ {
            Some(Sort::Updated)
        } else if s == "pushed"@ {
            Some(Sort::Pushed)
        } else if s == "full_name"@ {
            Some(Sort::FullName)
        } else {
            None
        }
    }

    /// The name of this variant in GitHub's JSON.
    pub fn as_str(&self) -> (s: &str)
        ensures
            s@ == self.spec_name(),
    {
        match self {
            Sort::Created => "created",
            Sort::Updated => "updated",
            Sort::Pushed => "pushed",
            Sort::FullName => "full_name",
            Sort::_Custom(s) => s.as_str(),
        }
    }

    /// The variant a name stands for; an unknown name is kept as it is.
    pub fn from_name(s: &str) -> (r: Self)
        ensures
            r.spec_name() == s@,
            Self::spec_from_name(s@) matches Some(k) ==> r == k,
            Self::spec_from_name(s@) is None ==> r is _Custom,
    {
        if str_eq(s, "created") {
            Sort::Created
        } else if str_eq(s, "updated") {
            Sort::Updated
        } else if str_eq(s, "pushed") {
            Sort::Pushed
        } else if str_eq(s, "full_name") {
            Sort::FullName
        } else {
            Sort::_Custom(s.to_owned())
        }
    }

    /// Reading the name of a known variant gives the variant back.
    pub proof fn law_name_round_trip(x: Self)
        requires
            !(x is _Custom),
        ensures
            Self::spec_from_name(x.spec_name()) == Some(x),
    {
        reveal_strlit("created");
        reveal_strlit("updated");
        reveal_strlit("pushed");
        reveal_strlit("full_name");
        assert("created"@.len() == 7);
        assert("updated"@.len() == 7);
        assert("pushed"@.len() == 6);
        assert("full_name"@.len() == 9);
        assert("created"@[0] == 'c');
        assert("updated"@[0] == 'u');
    }
}

/// Which issues a listing returns, by state.
#[derive(Clone, Debug)]
pub enum StateQuery {
    Open,
    Close,
    All,
    /// A name this library does not know, kept as it came.
    _Custom(String),
}

impl StateQuery {
    /// The name of this variant in GitHub's JSON.
    pub open spec fn spec_name(&self) -> Seq<char> {
        match self {
            StateQuery::Open => "open"@,
            StateQuery::Close => "close"@,
            StateQuery::All => "all"@,
            StateQuery::_Custom(s) => s@,
        }
    }

    /// The variant a known name stands for.
    pub open spec fn spec_from_name(s: Seq<char>) -> Option<Self> {
        if s == "open"@ {
            Some(StateQuery::Open)
        } else if s == "close"@ {
            Some(StateQuery::Close)
        } else if s == "all"@ {
            Some(StateQuery::All)
        } else {
            None
        }
    }

    /// The name of this variant in GitHub's JSON.
    pub fn as_str(&self) -> (s: &str)
        ensures
            s@ == self.spec_name(),
    {
        match self {
            StateQuery::Open => "open",
            StateQuery::Close => "close",
            StateQuery::All => "all",
            StateQuery::_Custom(s) => s.as_str(),
        }
    }

    /// The variant a name stands for; an unknown name is kept as it is.
    pub fn from_name(s: &str) -> (r: Self)
        ensures
            r.spec_name() == s@,
            Self::spec_from_name(s@) matches Some(k) ==> r == k,
            Self::spec_from_name(s@) is None ==> r is _Custom,
    {
        if str_eq(s, "open") {
            StateQuery::Open
        } else if str_eq(s, "close") {
            StateQuery::Close
        } else if str_eq(s, "all") {
            StateQuery::All
        } else {
            StateQuery::_Custom(s.to_owned())
        }
    }

    /// Reading the name of a known variant gives the variant back.
    pub proof fn law_name_round_trip(x: Self)
        requires
            !(x is _Custom),
        ensures
            Self::spec_from_name(x.spec_name()) == Some(x),
    {
        reveal_strlit("open");
        reveal_strlit("close");
        reveal_strlit("all");
        assert("open"@.len() == 4);
        assert("close"@.len() == 5);
        assert("all"@.len() == 3);
    }
}

impl Default for StateQuery {
    fn default() -> (d: Self)
        ensures
            d is Open,
    {
        StateQuery::Open
    }
}

/// How a pull request is merged.
#[derive(Clone, Copy, Debug, PartialEq, Eq, Structural)]
pub enum MergeMethod {
    Merge,
    Squash,
    Rebase,
}

impl MergeMethod {
    /// The name of this variant in GitHub's JSON.
    pub open spec fn spec_name(&self) -> Seq<char> {
        match self {
            MergeMethod::Merge => "Merge"@,
            MergeMethod::Squash => "Squash"@,
            MergeMethod::Rebase => "Rebase"@,
        }
    }

    /// The variant a known name stands for.
    pub open spec fn spec_from_name(s: Seq<char>) -> Option<Self> {
        if s == "Merge"@ {
            Some(MergeMethod::Merge)
        } else if s == "Squash"@ {
            Some(MergeMethod::Squash)
        } else if s == "Rebase"@ {
            Some(MergeMethod::Rebase)
        } else {
            None
        }
    }

    /// The name of this variant in GitHub's JSON.
    pub fn as_str(&self) -> (s: &'static str)
        ensures
            s@ == self.spec_name(),
    {
        match self {
            MergeMethod::Merge => "Merge",
            MergeMethod::Squash => "Squash",
            MergeMethod::Rebase => "Rebase",
        }
    }

    /// The variant a name stands for, if the name is known.
    pub fn from_name(s: &str) -> (r: Option<Self>)
        ensures
            r == Self::spec_from_name(s@),
    {
        if str_eq(s, "Merge") {
            Some(MergeMethod::Merge)
        } else if str_eq(s, "Squash") {
            Some(MergeMethod::Squash)
        } else if str_eq(s, "Rebase") {
            Some(MergeMethod::Rebase)
        } else {
            None
        }
    }

    /// Reading the name of a known variant gives the variant back.
    pub proof fn law_name_round_trip(x: Self)
        ensures
            Self::spec_from_name(x.spec_name()) == Some(x),
    {
        reveal_strlit("Merge");
        reveal_strlit("Squash");
        reveal_strlit("Rebase");
        assert("Merge"@.len() == 5);
        assert("Squash"@.len() == 6);
        assert("Rebase"@.len() == 6);
        assert("Rebase"@[0] == 'R');
        assert("Squash"@[0] == 'S');
    }
}
/// A milestone filter for listing issues.
#[derive(Clone, Copy, Debug)]
pub enum MilestoneQuery {
    /// The milestone with this number.
    Int(u64),
    /// Any milestone, or none.
    Wildcard,
    /// Issues without a milestone (`none`).
    NoMilestone,
}

impl MilestoneQuery {
    /// The value of this filter in a query.
    pub open spec fn spec_query_value(&self) -> Seq<char> {
        match self {
            MilestoneQuery::Int(n) => spec_decimal(*n as nat),
            MilestoneQuery::Wildcard => "*"@,
            MilestoneQuery::NoMilestone => "none"@,
        }
    }

    /// The value of this filter in a query: the number, `*` or `none`.
    pub fn query_value(&self) -> (v: String)
        ensures
            v@ == self.spec_query_value(),
    {
        match self {
            MilestoneQuery::Int(n) => decimal(*n),
            MilestoneQuery::Wildcard => "*".to_owned(),
            MilestoneQuery::NoMilestone => "none".to_owned(),
        }
    }
}

/// An assignee filter for listing issues.
#[derive(Clone, Copy, Debug)]
pub enum AssigneeQuery {
    /// Any assignee.
    Wildcard,
    /// Issues without an assignee (`none`).
    NoAssignee,
}

impl AssigneeQuery {
    /// The value of this filter in a query: `*` or `none`.
    pub fn query_value(&self) -> (v: &'static str)
        ensures
            v@ == match self {
                AssigneeQuery::Wildcard => "*"@,
                AssigneeQuery::NoAssignee => "none"@,
            },
    {
        match self {
            AssigneeQuery::Wildcard => "*",
            AssigneeQuery::NoAssignee => "none",
        }
    }
}

/// The message given when more than 100 results per page are asked for.
pub open spec fn per_page_error() -> Seq<char> {
    "per_page must be <= 100"@
}

/// The number of results per page a listing asks for: 30 unless given,
/// and at most 100.
pub fn per_page(requested: Option<u64>) -> (r: Result<u64, &'static str>)
    ensures
        match requested {
            Some(p) => if p > 100 {
                r matches Err(e) && e@ == per_page_error()
            } else {
                r == Ok::<u64, &'static str>(p)
            },
            None => r == Ok::<u64, &'static str>(30),
        },
{
    match requested {
        Some(p) => {
            if p > 100 {
                Err("per_page must be <= 100")
            } else {
                Ok(p)
            }
        },
        None => Ok(30),
    }
}

/// The page of results a listing asks for: the first unless given.
pub fn page(requested: Option<u64>) -> (r: u64)
    ensures
        r == match requested {
            Some(p) => p,
            None => 1,
        },
{
    match requested {
        Some(p) => p,
        None => 1,
    }
}

/// The order a listing asks for: by creation unless given.
pub fn sort(requested: Option<Sort>) -> (r: Sort)
    ensures
        match requested {
            Some(s) => r == s,
            None => r is Created,
        },
{
    match requested {
        Some(s) => s,
        None => Sort::Created,
    }
}

/// The direction a listing asks for: descending unless given.
pub fn direction(dir: Option<Direction>) -> (r: Direction)
    ensures
        match dir {
            Some(d) => r == d,
            None => r is Desc,
        },
{
    match dir {
        Some(d) => d,
        None => Direction::Desc,
    }
}

/// The value given, or else the default of its type.
pub fn opt_default<T: Default>(opt: Option<T>) -> (r: T)
    ensures
        opt matches Some(v) ==> r == v,
        opt is None ==> call_ensures(T::default, (), r),
{
    match opt {
        Some(v) => v,
        None => T::default(),
    }
}

/// The media type that asks for version 3 of the REST API.
#[derive(Clone, Copy, Debug)]
pub struct ApplicationV3Json;

impl ApplicationV3Json {
    /// The media type as text.
    pub fn as_str(&self) -> (s: &'static str)
        ensures
            s@ == "application/vnd.github.v3+json"@,
    {
        "application/vnd.github.v3+json"
    }
}

/// The result of merging a pull request.
#[derive(Clone, Debug)]
pub struct Merge {
    /// The commit message.
    pub message: String,
    /// The SHA of the merge commit.
    pub sha: String,
    /// Was the merge successful.
    pub merged: bool,
}

/// The result of updating a pull request's branch.
#[derive(Clone, Debug)]
pub struct UpdateMerge {
    /// The message.
    pub message: String,
    /// The public url of the pull request.
    pub url: String,
}

} // verus!
