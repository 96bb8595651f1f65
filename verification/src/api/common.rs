//! Values shared by many webhook payloads.
use chrono::{DateTime, Utc};
use vstd::prelude::*;

use super::enums::RepoPermission;
use crate::strfmt::{
    args_view, copy_args,
    distinct_names, find_key, insert_entry, lemma_find_key_bounds, lemma_insert_entry_distinct,
    lemma_lookup_insert, lookup,
};
use crate::text::{ends_with, spec_ends_with, str_eq};

verus! {

/// The default of fields GitHub leaves out when they are true.
pub fn true_fn() -> (t: bool)
    ensures
        t,
{
    true
}

// ---------------------------------------------------------------------------
// Timestamps.
// ---------------------------------------------------------------------------

/// A timestamp as the JSON holds it: seconds since the Unix epoch, or text.
#[derive(Clone, Debug)]
pub enum RawTimestamp {
    Secs(i64),
    Text(String),
}

/// An instant in UTC: seconds since the Unix epoch and nanoseconds past them.
#[derive(Clone, Copy, Debug, PartialEq, Eq, Structural)]
pub struct UtcInstant {
    pub secs: i64,
    pub nanos: u32,
}

/// The first second chrono can hold: January 1, 262144 BCE, 00:00:00 UTC
/// (`NaiveDate::MIN`), in seconds since the Unix epoch.
pub open spec fn min_utc_secs() -> int {
    -8334601228800
}

/// The last second chrono can hold: December 31, 262142 CE, 23:59:59 UTC
/// (the last second of `NaiveDate::MAX`), in seconds since the Unix epoch.
pub open spec fn max_utc_secs() -> int {
    8210266876799
}

/// Whether `secs` seconds after the Unix epoch is a date chrono can hold:
/// a day between `NaiveDate::MIN` and `NaiveDate::MAX`.
pub open spec fn timestamp_in_range(secs: i64) -> bool {
    min_utc_secs() <= secs <= max_utc_secs()
}

/// What chrono's `FromStr` for `DateTime<Utc>` reads from `s` (a relaxed
/// RFC 3339 date and time): the instant, or the text of its parse error.
pub uninterp spec fn rfc3339_instant(s: Seq<char>) -> Result<(i64, u32), Seq<char>>;

/// `DateTime::<Utc>::from_timestamp(secs, 0)` (the check that
/// `NaiveDateTime::from_timestamp_opt` makes): `None` when the day of `secs`
/// falls outside `NaiveDate::MIN..=NaiveDate::MAX`, else that instant, whose
/// `timestamp()` is `secs` and whose nanoseconds are 0, as chrono documents.
#[verifier::external_body]
fn utc_from_timestamp(secs: i64) -> (r: Option<UtcInstant>)
    ensures
        r is Some <==> timestamp_in_range(secs),
        r matches Some(i) ==> i.secs == secs && i.nanos == 0,
{
    match DateTime::<Utc>::from_timestamp(secs, 0) {
        Some(dt) => Some(UtcInstant { secs: dt.timestamp(), nanos: dt.timestamp_subsec_nanos() }),
        None => None,
    }
}

/// `s.parse::<DateTime<Utc>>()`: the instant read, or the parse error as text.
#[verifier::external_body]
fn parse_utc(s: &str) -> (r: Result<UtcInstant, String>)
    ensures
        match r {
            Ok(i) => rfc3339_instant(s@) == Ok::<(i64, u32), Seq<char>>((i.secs, i.nanos)),
            Err(e) => rfc3339_instant(s@) == Err::<(i64, u32), Seq<char>>(e@),
        },
{
    match s.parse::<DateTime<Utc>>() {
        Ok(dt) => Ok(UtcInstant { secs: dt.timestamp(), nanos: dt.timestamp_subsec_nanos() }),
        Err(e) => Err(e.to_string()),
    }
}

/// What reading a timestamp gives: the instant, or why it could not be read.
pub open spec fn spec_datetime(ts: RawTimestamp) -> Result<(i64, u32), Seq<char>> {
    match ts {
        RawTimestamp::Secs(t) => if timestamp_in_range(t) {
            Ok((t, 0u32))
        } else {
            Err("timestamp exceeded bounds"@)
        },
        RawTimestamp::Text(s) => rfc3339_instant(s@),
    }
}

/// The instant a result stands for, as a pair.
pub open spec fn instant_view(r: Result<UtcInstant, String>) -> Result<(i64, u32), Seq<char>> {
    match r {
        Ok(i) => Ok((i.secs, i.nanos)),
        Err(e) => Err(e@),
    }
}

/// Reads a timestamp: seconds since the epoch, which must be in chrono's
/// range, or a date and time in text.
pub fn datetime(ts: RawTimestamp) -> (r: Result<UtcInstant, String>)
    ensures
        instant_view(r) == spec_datetime(ts),
{
    match ts {
        RawTimestamp::Secs(t) => match utc_from_timestamp(t) {
            Some(i) => Ok(i),
            None => Err("timestamp exceeded bounds".to_owned()),
        },
        RawTimestamp::Text(s) => parse_utc(s.as_str()),
    }
}

/// Reads an optional timestamp: a value that is neither seconds nor text
/// (`ts` is `None`) gives no instant; otherwise as [`datetime`].
pub fn datetime_opt(ts: Option<RawTimestamp>) -> (r: Result<Option<UtcInstant>, String>)
    ensures
        match ts {
            None => r == Ok::<Option<UtcInstant>, String>(None),
            Some(t) => match spec_datetime(t) {
                Ok((secs, nanos)) => r matches Ok(Some(i)) && i.secs == secs && i.nanos == nanos,
                Err(m) => r matches Err(e) && e@ == m,
            },
        },
{
    match ts {
        None => Ok(None),
        Some(t) => match datetime(t) {
            Ok(i) => Ok(Some(i)),
            Err(e) => Err(e),
        },
    }
}

// ---------------------------------------------------------------------------
// The map of API urls.
// ---------------------------------------------------------------------------

/// The GitHub API urls of an object: every `*_url` entry of its JSON.
#[derive(Debug)]
pub struct UrlMap {
    urls: Vec<(String, String)>,
}

/// The views of key and value pairs.
pub open spec fn pairs_view(v: Seq<(String, String)>) -> Seq<(Seq<char>, Seq<char>)> {
    v.map_values(|p: (String, String)| (p.0@, p.1@))
}

/// Whether an entry of a JSON object is kept as a url: its key ends with
/// `_url` and its value is not `null`.
pub open spec fn is_url_entry(entry: (Seq<char>, Option<Seq<char>>)) -> bool {
    spec_ends_with(entry.0, "_url"@) && entry.1 is Some
}

/// The urls of a JSON object whose entries are `entries`: later entries
/// replace earlier ones with the same key.
pub open spec fn url_entries(entries: Seq<(Seq<char>, Option<Seq<char>>)>) -> Seq<(Seq<char>, Seq<char>)>
    decreases entries.len(),
{
    if entries.len() == 0 {
        Seq::empty()
    } else {
        let earlier = url_entries(entries.drop_last());
        let e = entries.last();
        if is_url_entry(e) {
            insert_entry(earlier, e.0, e.1.unwrap())
        } else {
            earlier
        }
    }
}

/// The views of the entries of a JSON object.
pub open spec fn json_entries_view(v: Seq<(String, Option<String>)>) -> Seq<(Seq<char>, Option<Seq<char>>)> {
    v.map_values(
        |p: (String, Option<String>)|
            (
                p.0@,
                match p.1 {
                    Some(s) => Some(s@),
                    None => None,
                },
            ),
    )
}

/// The value of the last url entry whose key is `key`, if any.
pub open spec fn last_url(entries: Seq<(Seq<char>, Option<Seq<char>>)>, key: Seq<char>) -> Option<Seq<char>>
    decreases entries.len(),
{
    if entries.len() == 0 {
        None
    } else if is_url_entry(entries.last()) && entries.last().0 == key {
        entries.last().1
    } else {
        last_url(entries.drop_last(), key)
    }
}

/// Looking a key up among the urls of a JSON object gives the value of its
/// last url entry under that key: later entries replace earlier ones, and
/// `null` values and keys not ending in `_url` are left out.
pub proof fn law_url_is_last_given(entries: Seq<(Seq<char>, Option<Seq<char>>)>, key: Seq<char>)
    ensures
        lookup(url_entries(entries), key) == last_url(entries, key),
    decreases entries.len(),
{
    if entries.len() > 0 {
        law_url_is_last_given(entries.drop_last(), key);
        let e = entries.last();
        if is_url_entry(e) {
            lemma_lookup_insert(url_entries(entries.drop_last()), e.0, e.1.unwrap(), key);
        }
    }
}

impl View for UrlMap {
    type V = Seq<(Seq<char>, Seq<char>)>;

    closed spec fn view(&self) -> Seq<(Seq<char>, Seq<char>)> {
        pairs_view(self.urls@)
    }
}

proof fn lemma_url_entries_keys(entries: Seq<(Seq<char>, Option<Seq<char>>)>)
    ensures
        forall|i: int|
            0 <= i < url_entries(entries).len() ==> spec_ends_with(
                #[trigger] url_entries(entries)[i].0,
                "_url"@,
            ),
        distinct_names(url_entries(entries)),
    decreases entries.len(),
{
    if entries.len() > 0 {
        let earlier = url_entries(entries.drop_last());
        lemma_url_entries_keys(entries.drop_last());
        let e = entries.last();
        if is_url_entry(e) {
            lemma_find_key_bounds(earlier, e.0);
            lemma_insert_entry_distinct(earlier, e.0, e.1.unwrap());
        }
    }
}

impl Clone for UrlMap {
    fn clone(&self) -> (c: Self)
        ensures
            c@ == self@,
    {
        proof {
            use_type_invariant(self);
        }
        let urls = copy_args(&self.urls);
        assert(pairs_view(urls@) =~= pairs_view(self.urls@)) by {
            assert(pairs_view(urls@) =~= args_view(urls@));
            assert(pairs_view(self.urls@) =~= args_view(self.urls@));
        }
        UrlMap { urls }
    }
}

impl UrlMap {
    /// Each key is stored once.
    #[verifier::type_invariant]
    spec fn keys_distinct(self) -> bool {
        distinct_names(pairs_view(self.urls@))
    }

    /// The keys under which `get` finds a url.
    pub open spec fn found_keys(&self) -> Set<Seq<char>> {
        Set::new(|k: Seq<char>| find_key(self@, k) is Some)
    }

    /// The urls among the entries of a JSON object: entries whose key ends
    /// with `_url` and whose value is not `null`; a later entry replaces an
    /// earlier one with the same key.
    pub fn from_entries(entries: Vec<(String, Option<String>)>) -> (m: UrlMap)
        ensures
            m@ == url_entries(json_entries_view(entries@)),
            forall|i: int| 0 <= i < m@.len() ==> spec_ends_with(#[trigger] m@[i].0, "_url"@),
            distinct_names(m@),
    {
        let ghost views = json_entries_view(entries@);
        let mut urls: Vec<(String, String)> = Vec::new();
        let mut i: usize = 0;
        while i < entries.len()
            invariant
                i <= entries@.len(),
                views == json_entries_view(entries@),
                pairs_view(urls@) == url_entries(views.subrange(0, i as int)),
            decreases entries.len() - i,
        {
            assert(views.subrange(0, i + 1).drop_last() =~= views.subrange(0, i as int));
            let key = &entries[i].0;
            if ends_with(key.as_str(), "_url") {
                match &entries[i].1 {
                    Some(value) => {
                        insert_pair(&mut urls, key.clone(), value.clone());
                    },
                    None => {},
                }
            }
            i = i + 1;
        }
        assert(views.subrange(0, entries@.len() as int) =~= views);
        proof {
            lemma_url_entries_keys(views);
        }
        UrlMap { urls }
    }

    /// The url stored under `k`, if any.
    pub fn get(&self, k: &str) -> (v: Option<&str>)
        ensures
            match find_key(self@, k@) {
                Some(i) => v matches Some(s) && s@ == self@[i].1,
                None => v is None,
            },
    {
        assert(self@ == pairs_view(self.urls@));
        match find_pair(&self.urls, k) {
            Some(i) => {
                assert(pairs_view(self.urls@)[i as int].1 == self.urls@[i as int].1@);
                Some(self.urls[i].1.as_str())
            },
            None => None,
        }
    }

    /// The number of urls.
    pub fn len(&self) -> (n: usize)
        ensures
            n == self@.len(),
            n == self.found_keys().len(),
    {
        proof {
            use_type_invariant(self);
            let v = self@;
            let keys = v.map_values(|p: (Seq<char>, Seq<char>)| p.0);
            assert(keys.no_duplicates()) by {
                assert forall|i: int, j: int|
                    0 <= i < keys.len() && 0 <= j < keys.len() && i != j implies keys[i] != keys[j] by {
                    if i < j {
                        assert(v[i].0 != v[j].0);
                    } else {
                        assert(v[j].0 != v[i].0);
                    }
                }
            }
            keys.unique_seq_to_set();
            assert forall|k: Seq<char>| #[trigger] self.found_keys().contains(k) <==> keys.to_set().contains(k) by {
                lemma_find_key_bounds(v, k);
                if let Some(i) = find_key(v, k) {
                    assert(keys[i] == k);
                } else if keys.contains(k) {
                    let i = choose|i: int| 0 <= i < keys.len() && keys[i] == k;
                    assert(v[i].0 == k);
                }
            }
            assert(self.found_keys() =~= keys.to_set());
        }
        self.urls.len()
    }

    /// Whether there are no urls.
    pub fn is_empty(&self) -> (e: bool)
        ensures
            e == (self@.len() == 0),
    {
        self.urls.len() == 0
    }
}

/// The position of the pair whose key is `k`, the first if there are several.
pub(crate) fn find_pair(pairs: &Vec<(String, String)>, k: &str) -> (i: Option<usize>)
    ensures
        match find_key(pairs_view(pairs@), k@) {
            Some(j) => i matches Some(x) && x as int == j,
            None => i is None,
        },
        i matches Some(j) ==> j < pairs@.len(),
{
    let ghost v = pairs_view(pairs@);
    proof {
        lemma_find_key_bounds(v, k@);
    }
    assert(v.skip(0) =~= v);
    let mut i: usize = 0;
    while i < pairs.len()
        invariant
            i <= pairs@.len(),
            v == pairs_view(pairs@),
            find_key(v, k@) == match find_key(v.skip(i as int), k@) {
                Some(j) => Some(j + i),
                None => None,
            },
        decreases pairs.len() - i,
    {
        assert(v.skip(i as int)[0] == v[i as int]);
        assert(v.skip(i as int).drop_first() =~= v.skip(i + 1));
        if str_eq(pairs[i].0.as_str(), k) {
            return Some(i);
        }
        i = i + 1;
    }
    None
}

/// Inserts a pair: an existing key takes the new value in its place, a new
/// key goes last.
pub(crate) fn insert_pair(pairs: &mut Vec<(String, String)>, key: String, value: String)
    ensures
        pairs_view(final(pairs)@) == insert_entry(pairs_view(old(pairs)@), key@, value@),
{
    proof {
        assert(pairs_view(old(pairs)@).skip(0) =~= pairs_view(old(pairs)@));
    }
    let ghost kv = key@;
    let ghost vv = value@;
    let ghost old_view = pairs_view(pairs@);
    match find_pair(pairs, key.as_str()) {
        Some(i) => {
            let ghost before = pairs@;
            assert(find_key(old_view, kv) == Some(i as int));
            pairs.set(i, (key, value));
            assert(pairs_view(pairs@) =~= pairs_view(before).update(i as int, (kv, vv)));
            assert(insert_entry(old_view, kv, vv) == old_view.update(i as int, (kv, vv)));
        },
        None => {
            let ghost before = pairs@;
            assert(find_key(old_view, kv) is None);
            pairs.push((key, value));
            assert(pairs_view(pairs@) =~= pairs_view(before).push((kv, vv)));
        },
    }
}

// ---------------------------------------------------------------------------
// Links.
// ---------------------------------------------------------------------------

/// The links related to an issue or pull request.
#[derive(Clone, Debug)]
pub struct Links {
    pub self_link: Option<String>,
    pub html_link: Option<String>,
    pub issue_link: Option<String>,
    pub comments_link: Option<String>,
    pub review_comments_link: Option<String>,
    pub review_comment_link: Option<String>,
    pub commits_link: Option<String>,
    pub statuses_link: Option<String>,
    pub pull_request_link: Option<String>,
}

/// Why the links of a payload could not be read.
#[derive(Clone, Debug)]
pub enum LinksError {
    /// An entry whose key names no link.
    UnknownField(String),
    /// A link given twice; the name is that of the field.
    DuplicateField(String),
}

/// The keys of the links in the JSON object, in the order of the fields.
pub open spec fn link_key(slot: int) -> Seq<char> {
    if slot == 0 {
        "self"@
    } else if slot == 1 {
        "html"@
    } else if slot == 2 {
        "issue"@
    } else if slot == 3 {
        "comments"@
    } else if slot == 4 {
        "review_comments"@
    } else if slot == 5 {
        "review_comment"@
    } else if slot == 6 {
        "commits"@
    } else if slot == 7 {
        "statuses"@
    } else {
        "pull_request"@
    }
}

/// The names of the link fields, which a duplicate is reported by.
pub open spec fn link_field(slot: int) -> Seq<char> {
    if slot == 0 {
        "self_link"@
    } else if slot == 1 {
        "html_link"@
    } else if slot == 2 {
        "issue_link"@
    } else if slot == 3 {
        "comments_link"@
    } else if slot == 4 {
        "review_comments_link"@
    } else if slot == 5 {
        "review_comment_link"@
    } else if slot == 6 {
        "commits_link"@
    } else if slot == 7 {
        "statuses_link"@
    } else {
        "pull_request_link"@
    }
}

/// The slot a key names, the first among the keys that match.
pub open spec fn link_slot(key: Seq<char>) -> Option<int> {
    if key == link_key(0) {
        Some(0)
    } else if key == link_key(1) {
        Some(1)
    } else if key == link_key(2) {
        Some(2)
    } else if key == link_key(3) {
        Some(3)
    } else if key == link_key(4) {
        Some(4)
    } else if key == link_key(5) {
        Some(5)
    } else if key == link_key(6) {
        Some(6)
    } else if key == link_key(7) {
        Some(7)
    } else if key == link_key(8) {
        Some(8)
    } else {
        None
    }
}

/// A refusal to read links, as text.
pub enum LinksErrorView {
    UnknownField(Seq<char>),
    DuplicateField(Seq<char>),
}

/// Reading the entries of the links object one after the other, given the
/// nine link slots filled so far. A key seen before whose link was present
/// is a duplicate; an entry whose href is `null` leaves its slot empty.
pub open spec fn links_from(
    entries: Seq<(Seq<char>, Option<Seq<char>>)>,
    slots: Seq<Option<Seq<char>>>,
) -> Result<Seq<Option<Seq<char>>>, LinksErrorView>
    decreases entries.len(),
{
    if entries.len() == 0 {
        Ok(slots)
    } else {
        let (key, href) = entries[0];
        match link_slot(key) {
            None => Err(LinksErrorView::UnknownField(key)),
            Some(s) => if slots[s] is Some {
                Err(LinksErrorView::DuplicateField(link_field(s)))
            } else {
                links_from(entries.drop_first(), slots.update(s, href))
            },
        }
    }
}

/// Nine empty link slots.
pub open spec fn no_links() -> Seq<Option<Seq<char>>> {
    Seq::new(9, |i: int| None)
}

/// The characters of an optional string.
pub open spec fn opt_view(o: Option<String>) -> Option<Seq<char>> {
    match o {
        Some(s) => Some(s@),
        None => None,
    }
}

impl Links {
    /// The links in field order.
    pub open spec fn slots(&self) -> Seq<Option<Seq<char>>> {
        seq![
            opt_view(self.self_link),
            opt_view(self.html_link),
            opt_view(self.issue_link),
            opt_view(self.comments_link),
            opt_view(self.review_comments_link),
            opt_view(self.review_comment_link),
            opt_view(self.commits_link),
            opt_view(self.statuses_link),
            opt_view(self.pull_request_link),
        ]
    }

    /// Reads the links object of a payload from its entries: each a key and
    /// the `href` of the link object under it.
    pub fn from_entries(entries: Vec<(String, Option<String>)>) -> (r: Result<Links, LinksError>)
        ensures
            match links_from(json_entries_view(entries@), no_links()) {
                Ok(slots) => r matches Ok(links) && links.slots() == slots,
                Err(LinksErrorView::UnknownField(k)) => r matches Err(LinksError::UnknownField(
                    e,
                )) && e@ == k,
                Err(LinksErrorView::DuplicateField(f)) => r matches Err(
                    LinksError::DuplicateField(e),
                ) && e@ == f,
            },
    {
        let ghost views = json_entries_view(entries@);
        let mut slots: Vec<Option<String>> = Vec::new();
        let mut k: usize = 0;
        while k < 9
            invariant
                k <= 9,
                slots@.len() == k,
                forall|j: int| 0 <= j < k ==> #[trigger] slots@[j] is None,
            decreases 9 - k,
        {
            slots.push(None);
            k = k + 1;
        }
        assert(slots@.map_values(|o: Option<String>| opt_view(o)) =~= no_links());
        assert(views.skip(0) =~= views);
        let mut i: usize = 0;
        while i < entries.len()
            invariant
                i <= entries@.len(),
                views == json_entries_view(entries@),
                slots@.len() == 9,
                links_from(views, no_links()) == links_from(
                    views.skip(i as int),
                    slots@.map_values(|o: Option<String>| opt_view(o)),
                ),
            decreases entries.len() - i,
        {
            let ghost rest = views.skip(i as int);
            let ghost cur = slots@.map_values(|o: Option<String>| opt_view(o));
            assert(rest[0] == views[i as int]);
            assert(rest.drop_first() =~= views.skip(i + 1));
            let key = entries[i].0.as_str();
            let slot = match link_slot_of(key) {
                Some(s) => s,
                None => {
                    return Err(LinksError::UnknownField(entries[i].0.clone()));
                },
            };
            if slots[slot].is_some() {
                assert(cur[slot as int] is Some);
                return Err(LinksError::DuplicateField(link_field_name(slot).to_owned()));
            }
            let href = entries[i].1.clone();
            let ghost before = slots@;
            slots.set(slot, href);
            assert(slots@.map_values(|o: Option<String>| opt_view(o)) =~= cur.update(
                slot as int,
                views[i as int].1,
            ));
            i = i + 1;
        }
        assert(views.skip(i as int).len() == 0);
        let links = Links {
            self_link: slots[0].clone(),
            html_link: slots[1].clone(),
            issue_link: slots[2].clone(),
            comments_link: slots[3].clone(),
            review_comments_link: slots[4].clone(),
            review_comment_link: slots[5].clone(),
            commits_link: slots[6].clone(),
            statuses_link: slots[7].clone(),
            pull_request_link: slots[8].clone(),
        };
        assert(links.slots() =~= slots@.map_values(|o: Option<String>| opt_view(o)));
        Ok(links)
    }
}

fn link_slot_of(key: &str) -> (s: Option<usize>)
    ensures
        match link_slot(key@) {
            Some(i) => s == Some(i as usize),
            None => s is None,
        },
{
    if str_eq(key, "self") {
        Some(0)
    } else if str_eq(key, "html") {
        Some(1)
    } else if str_eq(key, "issue") {
        Some(2)
    } else if str_eq(key, "comments") {
        Some(3)
    } else if str_eq(key, "review_comments") {
        Some(4)
    } else if str_eq(key, "review_comment") {
        Some(5)
    } else if str_eq(key, "commits") {
        Some(6)
    } else if str_eq(key, "statuses") {
        Some(7)
    } else if str_eq(key, "pull_request") {
        Some(8)
    } else {
        None
    }
}

fn link_field_name(slot: usize) -> (name: &'static str)
    requires
        slot < 9,
    ensures
        name@ == link_field(slot as int),
{
    if slot == 0 {
        "self_link"
    } else if slot == 1 {
        "html_link"
    } else if slot == 2 {
        "issue_link"
    } else if slot == 3 {
        "comments_link"
    } else if slot == 4 {
        "review_comments_link"
    } else if slot == 5 {
        "review_comment_link"
    } else if slot == 6 {
        "commits_link"
    } else if slot == 7 {
        "statuses_link"
    } else {
        "pull_request_link"
    }
}

// ---------------------------------------------------------------------------
// Plain records.
// ---------------------------------------------------------------------------

/// Permissions given to an installed app for reaching metadata, contents, issues and more.
#[derive(Clone, Debug)]
pub struct AccessPermissions {
    pub actions: RepoPermission,
    pub administration: RepoPermission,
    pub checks: RepoPermission,
    pub contents: RepoPermission,
    pub content_references: RepoPermission,
    pub deployments: RepoPermission,
    pub discussions: RepoPermission,
    pub environments: RepoPermission,
    pub issues: RepoPermission,
    pub members: RepoPermission,
    pub metadata: RepoPermission,
    pub organization_administration: RepoPermission,
    pub organization_hooks: RepoPermission,
    pub organization_packages: RepoPermission,
    pub organization_plan: RepoPermission,
    pub organization_projects: RepoPermission,
    pub organization_secrets: RepoPermission,
    pub organization_self_hosted_runners: RepoPermission,
    pub organization_user_blocking: RepoPermission,
    pub pages: RepoPermission,
    pub packages: RepoPermission,
    pub pull_requests: RepoPermission,
    pub repository_hooks: RepoPermission,
    pub repository_projects: RepoPermission,
    pub secrets: RepoPermission,
    pub secret_scanning_alerts: RepoPermission,
    pub security_events: RepoPermission,
    pub single_file: RepoPermission,
    pub statuses: RepoPermission,
    pub team_discussions: RepoPermission,
    pub workflows: RepoPermission,
    pub vulnerability_alerts: RepoPermission,
}

/// The changes an edit made.
#[derive(Clone, Debug)]
pub struct Changes {
    /// The previous body (issues, pull requests and comments).
    pub body: Option<Body>,
    /// The previous title.
    pub title: Option<Body>,
    /// The previous name (releases).
    pub name: Option<Body>,
    /// The previous due date (milestones).
    pub due_on: Option<Body>,
    /// The previous description (milestones).
    pub description: Option<Body>,
}

/// A previous version of a changed text.
#[derive(Clone, Debug)]
pub struct Body {
    /// The text before the change.
    pub from: String,
}

/// The permissions a repository has.
#[derive(Clone, Debug)]
pub struct Permissions {
    /// Administrative privileges.
    pub admin: bool,
    /// Are pushes enabled.
    pub push: bool,
    /// Is pulling permitted.
    pub pull: bool,
}

impl Default for Permissions {
    fn default() -> (p: Self)
        ensures
            !p.admin && !p.push && !p.pull,
    {
        Permissions { admin: false, push: false, pull: false }
    }
}

/// Information about the verification of an object.
#[derive(Clone, Debug)]
pub struct Verification {
    /// Has this object been verified.
    pub verified: bool,
    /// Why: `valid` on success, an error otherwise.
    pub reason: String,
    /// The PGP signature of the commit.
    pub signature: Option<String>,
    /// The signed payload.
    pub payload: Option<String>,
}

} // verus!
