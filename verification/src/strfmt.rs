//! Format strings filled in at run time: the dynamic counterpart of `format!`.
//!
//! A format string holds literal text and placeholders. A placeholder is a
//! pair of braces; a name between them (`{repo_name}`) picks the argument of
//! that name, an empty placeholder (`{}`) takes the next argument in order.
use indexmap::IndexMap;
use vstd::prelude::*;

use crate::text::{chars_of, opt_string_view, push_char};

verus! {

// ---------------------------------------------------------------------------
// The arguments, held in an `IndexMap` from names to rendered values.
// ---------------------------------------------------------------------------

#[verifier::external_type_specification]
#[verifier::external_body]
#[verifier::reject_recursive_types(K)]
#[verifier::reject_recursive_types(V)]
#[verifier::reject_recursive_types(S)]
pub struct ExIndexMap<K, V, S>(IndexMap<K, V, S>);

/// The entries of an argument map, in their order: each a name and a value.
pub uninterp spec fn arg_map_entries(m: IndexMap<String, String>) -> Seq<(Seq<char>, Seq<char>)>;

/// The index of the entry named `key`, if any (the first, should there be several).
pub open spec fn find_key(entries: Seq<(Seq<char>, Seq<char>)>, key: Seq<char>) -> Option<int>
    decreases entries.len(),
{
    if entries.len() == 0 {
        None
    } else if entries[0].0 == key {
        Some(0)
    } else {
        match find_key(entries.drop_first(), key) {
            Some(i) => Some(i + 1),
            None => None,
        }
    }
}

/// Inserting into an `IndexMap`: an existing key keeps its place and takes
/// the new value; a new key goes last.
pub open spec fn insert_entry(
    entries: Seq<(Seq<char>, Seq<char>)>,
    key: Seq<char>,
    value: Seq<char>,
) -> Seq<(Seq<char>, Seq<char>)> {
    match find_key(entries, key) {
        Some(i) => entries.update(i, (key, value)),
        None => entries.push((key, value)),
    }
}

/// The entries of an `IndexMap` collected from `args`, in order.
pub open spec fn collect_entries(args: Seq<(Seq<char>, Seq<char>)>) -> Seq<(Seq<char>, Seq<char>)>
    decreases args.len(),
{
    if args.len() == 0 {
        Seq::empty()
    } else {
        insert_entry(collect_entries(args.drop_last()), args.last().0, args.last().1)
    }
}

pub proof fn lemma_find_key_bounds(entries: Seq<(Seq<char>, Seq<char>)>, key: Seq<char>)
    ensures
        find_key(entries, key) matches Some(i) ==> 0 <= i < entries.len() && entries[i].0 == key,
        find_key(entries, key) is None ==> forall|i: int|
            0 <= i < entries.len() ==> #[trigger] entries[i].0 != key,
    decreases entries.len(),
{
    if entries.len() > 0 {
        lemma_find_key_bounds(entries.drop_first(), key);
        if find_key(entries, key) is None {
            assert forall|i: int| 0 <= i < entries.len() implies #[trigger] entries[i].0 != key by {
                if i > 0 {
                    assert(entries[i] == entries.drop_first()[i - 1]);
                }
            }
        }
    }
}

/// Inserting into entries whose names are distinct keeps them distinct, and
/// the inserted name then finds the inserted value.
pub proof fn lemma_insert_entry_distinct(
    entries: Seq<(Seq<char>, Seq<char>)>,
    key: Seq<char>,
    value: Seq<char>,
)
    requires
        distinct_names(entries),
    ensures
        distinct_names(insert_entry(entries, key, value)),
        find_key(insert_entry(entries, key, value), key) matches Some(i) && insert_entry(
            entries,
            key,
            value,
        )[i].1 == value,
{
    lemma_find_key_bounds(entries, key);
    let r = insert_entry(entries, key, value);
    match find_key(entries, key) {
        Some(k) => {
            assert forall|i: int, j: int| 0 <= i < j < r.len() implies #[trigger] r[i].0
                != #[trigger] r[j].0 by {
                assert(r[i].0 == entries[i].0);
                assert(r[j].0 == entries[j].0);
            }
            lemma_find_key_bounds(r, key);
            assert(r[k] == (key, value));
            assert(r[k].0 == key);
            if let Some(m) = find_key(r, key) {
                if m < k {
                    assert(r[m].0 != r[k].0);
                } else if m > k {
                    assert(r[k].0 != r[m].0);
                }
            }
        },
        None => {
            assert forall|i: int, j: int| 0 <= i < j < r.len() implies #[trigger] r[i].0
                != #[trigger] r[j].0 by {
                if j == entries.len() {
                    assert(r[i].0 == entries[i].0);
                } else {
                    assert(r[i] == entries[i] && r[j] == entries[j]);
                }
            }
            lemma_find_key_bounds(r, key);
            let last = entries.len() as int;
            assert(r[last] == (key, value));
            assert(r[last].0 == key);
            if let Some(m) = find_key(r, key) {
                if m != last {
                    assert(r[m] == entries[m]);
                }
            }
        },
    }
}

/// Collected entries name each argument once.
pub proof fn lemma_collect_entries_distinct(args: Seq<(Seq<char>, Seq<char>)>)
    ensures
        distinct_names(collect_entries(args)),
    decreases args.len(),
{
    if args.len() > 0 {
        lemma_collect_entries_distinct(args.drop_last());
        lemma_insert_entry_distinct(collect_entries(args.drop_last()), args.last().0, args.last().1);
    }
}

/// The value stored under `key` in `entries`, if any.
pub open spec fn lookup(entries: Seq<(Seq<char>, Seq<char>)>, key: Seq<char>) -> Option<Seq<char>> {
    match find_key(entries, key) {
        Some(i) => Some(entries[i].1),
        None => None,
    }
}

/// The value of the last argument named `key`, if any.
pub open spec fn last_value(args: Seq<(Seq<char>, Seq<char>)>, key: Seq<char>) -> Option<Seq<char>>
    decreases args.len(),
{
    if args.len() == 0 {
        None
    } else if args.last().0 == key {
        Some(args.last().1)
    } else {
        last_value(args.drop_last(), key)
    }
}

proof fn lemma_find_key_same_keys(
    a: Seq<(Seq<char>, Seq<char>)>,
    b: Seq<(Seq<char>, Seq<char>)>,
    key: Seq<char>,
)
    requires
        a.len() == b.len(),
        forall|i: int| 0 <= i < a.len() ==> #[trigger] a[i].0 == b[i].0,
    ensures
        find_key(a, key) == find_key(b, key),
    decreases a.len(),
{
    if a.len() > 0 {
        assert(a[0].0 == b[0].0);
        assert forall|i: int| 0 <= i < a.drop_first().len() implies #[trigger] a.drop_first()[i].0
            == b.drop_first()[i].0 by {
            assert(a[i + 1].0 == b[i + 1].0);
        }
        lemma_find_key_same_keys(a.drop_first(), b.drop_first(), key);
    }
}

proof fn lemma_find_key_push(
    a: Seq<(Seq<char>, Seq<char>)>,
    e: (Seq<char>, Seq<char>),
    key: Seq<char>,
)
    ensures
        find_key(a.push(e), key) == match find_key(a, key) {
            Some(i) => Some(i),
            None => if e.0 == key {
                Some(a.len() as int)
            } else {
                None
            },
        },
    decreases a.len(),
{
    if a.len() > 0 {
        assert(a.push(e)[0] == a[0]);
        assert(a.push(e).drop_first() =~= a.drop_first().push(e));
        lemma_find_key_push(a.drop_first(), e, key);
    } else {
        assert(a.push(e)[0] == e);
        assert(a.push(e).drop_first() =~= Seq::<(Seq<char>, Seq<char>)>::empty());
        assert(find_key(Seq::<(Seq<char>, Seq<char>)>::empty(), key) is None);
    }
}

/// After inserting a value under a key, the key finds that value and every
/// other key finds what it found before.
pub proof fn lemma_lookup_insert(
    entries: Seq<(Seq<char>, Seq<char>)>,
    key: Seq<char>,
    value: Seq<char>,
    k: Seq<char>,
)
    ensures
        lookup(insert_entry(entries, key, value), k) == if k == key {
            Some(value)
        } else {
            lookup(entries, k)
        },
{
    lemma_find_key_bounds(entries, key);
    let r = insert_entry(entries, key, value);
    match find_key(entries, key) {
        Some(j) => {
            assert forall|i: int| 0 <= i < entries.len() implies #[trigger] entries[i].0 == r[i].0 by {}
            lemma_find_key_same_keys(entries, r, k);
            lemma_find_key_bounds(entries, k);
        },
        None => {
            lemma_find_key_push(entries, (key, value), k);
            lemma_find_key_bounds(entries, k);
        },
    }
}

/// The argument map built from a list of arguments holds, under each name,
/// the value of the last argument of that name.
pub proof fn law_named_argument_is_last_given(args: Seq<(Seq<char>, Seq<char>)>, name: Seq<char>)
    ensures
        lookup(collect_entries(args), name) == last_value(args, name),
    decreases args.len(),
{
    if args.len() > 0 {
        law_named_argument_is_last_given(args.drop_last(), name);
        lemma_lookup_insert(collect_entries(args.drop_last()), args.last().0, args.last().1, name);
    }
}

/// An empty `IndexMap` (`IndexMap::new`).
#[verifier::external_body]
fn arg_map_new() -> (m: IndexMap<String, String>)
    ensures
        arg_map_entries(m) == Seq::<(Seq<char>, Seq<char>)>::empty(),
{
    IndexMap::new()
}

/// `IndexMap::insert`: an existing key keeps its place and takes the new
/// value, a new key is added last.
#[verifier::external_body]
fn arg_map_insert(m: &mut IndexMap<String, String>, key: String, value: String)
    ensures
        arg_map_entries(*final(m)) == insert_entry(arg_map_entries(*old(m)), key@, value@),
{
    m.insert(key, value);
}

/// `IndexMap::get`: the value stored under `key`, if the map holds that key.
#[verifier::external_body]
fn arg_map_get<'a>(m: &'a IndexMap<String, String>, key: &str) -> (v: Option<&'a String>)
    ensures
        match find_key(arg_map_entries(*m), key@) {
            Some(i) => v matches Some(s) && s@ == arg_map_entries(*m)[i].1,
            None => v is None,
        },
{
    m.get(key)
}

/// `IndexMap::get_index`: the entry at position `i`, if there is one.
#[verifier::external_body]
fn arg_map_get_index<'a>(m: &'a IndexMap<String, String>, i: usize) -> (entry: Option<
    (&'a String, &'a String),
>)
    ensures
        match entry {
            Some((k, v)) => i < arg_map_entries(*m).len() && k@ == arg_map_entries(*m)[i as int].0
                && v@ == arg_map_entries(*m)[i as int].1,
            None => i >= arg_map_entries(*m).len(),
        },
{
    m.get_index(i)
}

/// `IndexMap::len`: the number of entries.
#[verifier::external_body]
fn arg_map_len(m: &IndexMap<String, String>) -> (n: usize)
    ensures
        n == arg_map_entries(*m).len(),
{
    m.len()
}

// ---------------------------------------------------------------------------
// What formatting gives.
// ---------------------------------------------------------------------------

/// The outcome of filling in a format string.
pub enum FmtOutcome {
    /// The filled-in text.
    Text(Seq<char>),
    /// Formatting fails: a `{` follows an opening brace, or the arguments run out.
    Failed,
    /// A brace is left without a partner at the end of the format string.
    Unbalanced,
}

/// The position of the first brace at or after `from`, if any.
pub open spec fn next_brace(fmt: Seq<char>, from: int) -> Option<int>
    decreases fmt.len() - from,
{
    if from < 0 || from >= fmt.len() {
        None
    } else if fmt[from] == '{' || fmt[from] == '}' {
        Some(from)
    } else {
        next_brace(fmt, from + 1)
    }
}

pub proof fn lemma_next_brace(fmt: Seq<char>, from: int)
    ensures
        next_brace(fmt, from) matches Some(b) ==> 0 <= from <= b < fmt.len() && (fmt[b] == '{'
            || fmt[b] == '}') && forall|j: int| from <= j < b ==> fmt[j] != '{' && fmt[j] != '}',
        next_brace(fmt, from) is None ==> forall|j: int|
            0 <= from <= j < fmt.len() ==> fmt[j] != '{' && fmt[j] != '}',
    decreases fmt.len() - from,
{
    if 0 <= from < fmt.len() && fmt[from] != '{' && fmt[from] != '}' {
        lemma_next_brace(fmt, from + 1);
    }
}

/// `text` written before what `rest` gives.
pub open spec fn prepend(text: Seq<char>, rest: FmtOutcome) -> FmtOutcome {
    match rest {
        FmtOutcome::Text(t) => FmtOutcome::Text(text + t),
        other => other,
    }
}

/// The argument a placeholder names, or else the next one in order: its value
/// and the position of the next argument in order afterwards.
pub open spec fn pick_arg(
    entries: Seq<(Seq<char>, Seq<char>)>,
    name: Option<Seq<char>>,
    cursor: int,
) -> Option<(Seq<char>, int)> {
    let found = match name {
        Some(a) => find_key(entries, a),
        None => None,
    };
    match found {
        Some(i) => Some((entries[i].1, cursor)),
        None => if 0 <= cursor < entries.len() {
            Some((entries[cursor].1, cursor + 1))
        } else {
            None
        },
    }
}

/// Filling in `fmt` from position `pos` on, where `name` is the last argument
/// name seen and `cursor` the position of the next argument in order.
///
/// Braces are taken two by two. Text up to the first brace of a pair is
/// written as it is; the text between the two braces, when not empty,
/// becomes the name looked up for this and later placeholders; the second
/// brace must be a `}`.
pub open spec fn fmt_from(
    fmt: Seq<char>,
    pos: int,
    name: Option<Seq<char>>,
    cursor: int,
    entries: Seq<(Seq<char>, Seq<char>)>,
) -> FmtOutcome
    decreases fmt.len() - pos,
{
    if pos < 0 || pos > fmt.len() {
        FmtOutcome::Failed
    } else {
        match next_brace(fmt, pos) {
            None => FmtOutcome::Text(fmt.subrange(pos, fmt.len() as int)),
            Some(b1) => {
                proof {
                    lemma_next_brace(fmt, pos);
                    lemma_next_brace(fmt, b1 + 1);
                }
                match next_brace(fmt, b1 + 1) {
                    None => FmtOutcome::Unbalanced,
                    Some(b2) => if fmt[b2] == '{' {
                        FmtOutcome::Failed
                    } else {
                        let between = fmt.subrange(b1 + 1, b2);
                        let name2 = if between.len() > 0 {
                            Some(between)
                        } else {
                            name
                        };
                        match pick_arg(entries, name2, cursor) {
                            None => FmtOutcome::Failed,
                            Some((value, cursor2)) => prepend(
                                fmt.subrange(pos, b1) + value,
                                fmt_from(fmt, b2 + 1, name2, cursor2, entries),
                            ),
                        }
                    },
                }
            },
        }
    }
}

/// Filling in `fmt` with the arguments `entries`.
pub open spec fn spec_format(fmt: Seq<char>, entries: Seq<(Seq<char>, Seq<char>)>) -> FmtOutcome {
    fmt_from(fmt, 0, None, 0, entries)
}

proof fn lemma_prepend_prepend(a: Seq<char>, b: Seq<char>, o: FmtOutcome)
    ensures
        prepend(a, prepend(b, o)) == prepend(a + b, o),
{
    if let FmtOutcome::Text(t) = o {
        assert(a + (b + t) =~= (a + b) + t);
    }
}

// ---------------------------------------------------------------------------
// The executable side.
// ---------------------------------------------------------------------------

/// The outcome of filling in a format string, as a value.
pub enum Rendered {
    Text(String),
    Failed,
    Unbalanced,
}

impl View for Rendered {
    type V = FmtOutcome;

    open spec fn view(&self) -> FmtOutcome {
        match self {
            Rendered::Text(s) => FmtOutcome::Text(s@),
            Rendered::Failed => FmtOutcome::Failed,
            Rendered::Unbalanced => FmtOutcome::Unbalanced,
        }
    }
}

/// Formatting a string failed (the counterpart of `fmt::Error`).
#[derive(Debug)]
pub struct FmtError;

/// Writes the characters `chars[from..to]` to `out`.
fn fmt_iter(out: &mut String, chars: &[char], from: usize, to: usize)
    requires
        from <= to <= chars@.len(),
    ensures
        final(out)@ == old(out)@ + chars@.subrange(from as int, to as int),
{
    let mut i: usize = from;
    while i < to
        invariant
            from <= i <= to <= chars@.len(),
            out@ == old(out)@ + chars@.subrange(from as int, i as int),
        decreases to - i,
    {
        push_char(out, chars[i]);
        assert(chars@.subrange(from as int, i + 1) =~= chars@.subrange(from as int, i as int).push(
            chars@[i as int],
        ));
        i = i + 1;
    }
}

/// The position of the first brace at or after `from`.
fn find_brace(chars: &[char], from: usize) -> (b: Option<usize>)
    requires
        from <= chars@.len(),
    ensures
        match next_brace(chars@, from as int) {
            Some(i) => b == Some(i as usize),
            None => b is None,
        },
{
    let mut i = from;
    while i < chars.len()
        invariant
            from <= i <= chars@.len(),
            next_brace(chars@, from as int) == next_brace(chars@, i as int),
        decreases chars.len() - i,
    {
        if chars[i] == '{' || chars[i] == '}' {
            return Some(i);
        }
        i = i + 1;
    }
    None
}

/// A format string together with its named arguments, whose values are
/// already rendered as text.
#[derive(Debug)]
pub struct Arguments {
    fmt: String,
    args: IndexMap<String, String>,
}

impl Arguments {
    /// The format string.
    pub closed spec fn spec_fmt(&self) -> Seq<char> {
        self.fmt@
    }

    /// The arguments: names and values, in order, each name once.
    pub closed spec fn spec_entries(&self) -> Seq<(Seq<char>, Seq<char>)> {
        arg_map_entries(self.args)
    }

    /// What filling in this format string gives.
    pub open spec fn spec_outcome(&self) -> FmtOutcome {
        spec_format(self.spec_fmt(), self.spec_entries())
    }

    /// Pairs a format string with its arguments. An argument whose name
    /// comes again keeps its first place and takes the later value.
    pub fn new(fmt: String, args: Vec<(String, String)>) -> (a: Self)
        ensures
            a.spec_fmt() == fmt@,
            a.spec_entries() == collect_entries(args@.map_values(|p: (String, String)| (p.0@, p.1@))),
            distinct_names(a.spec_entries()),
    {
        let ghost views = args@.map_values(|p: (String, String)| (p.0@, p.1@));
        let mut map = arg_map_new();
        let mut i: usize = 0;
        while i < args.len()
            invariant
                i <= args@.len(),
                views == args@.map_values(|p: (String, String)| (p.0@, p.1@)),
                arg_map_entries(map) == collect_entries(views.subrange(0, i as int)),
            decreases args.len() - i,
        {
            let key = args[i].0.clone();
            let value = args[i].1.clone();
            arg_map_insert(&mut map, key, value);
            assert(views.subrange(0, i + 1).drop_last() =~= views.subrange(0, i as int));
            i = i + 1;
        }
        assert(views.subrange(0, args@.len() as int) =~= views);
        proof {
            lemma_collect_entries_distinct(views);
        }
        Arguments { fmt, args: map }
    }

    /// Fills in the format string, telling formatting failures and unpartnered
    /// braces apart.
    pub fn render(&self) -> (r: Rendered)
        ensures
            r@ == self.spec_outcome(),
    {
        let chars = chars_of(self.fmt.as_str());
        let n = chars.len();
        let count = arg_map_len(&self.args);
        let ghost entries = self.spec_entries();
        let mut out = String::new();
        let mut pos: usize = 0;
        let mut name: Option<String> = None;
        let mut cursor: usize = 0;
        assert(out@ + Seq::<char>::empty() =~= Seq::<char>::empty());
        proof {
            if let FmtOutcome::Text(t) = self.spec_outcome() {
                assert(Seq::<char>::empty() + t =~= t);
            }
        }
        while pos <= n
            invariant
                n == chars@.len(),
                chars@ == self.spec_fmt(),
                count == entries.len(),
                entries == self.spec_entries(),
                cursor <= count,
                self.spec_outcome() == prepend(
                    out@,
                    fmt_from(
                        chars@,
                        pos as int,
                        opt_string_view(name),
                        cursor as int,
                        entries,
                    ),
                ),
            decreases n + 1 - pos,
        {
            let ghost name_view = opt_string_view(name);
            proof {
                lemma_next_brace(chars@, pos as int);
            }
            let b1 = match find_brace(chars.as_slice(), pos) {
                None => {
                    let ghost before = out@;
                    fmt_iter(&mut out, chars.as_slice(), pos, n);
                    proof {
                        lemma_prepend_prepend(before, chars@.subrange(pos as int, n as int), FmtOutcome::Text(Seq::empty()));
                        assert(out@ + Seq::<char>::empty() =~= out@);
                    }
                    return Rendered::Text(out);
                },
                Some(b) => b,
            };
            proof {
                lemma_next_brace(chars@, b1 + 1);
            }
            let b2 = match find_brace(chars.as_slice(), b1 + 1) {
                None => {
                    return Rendered::Unbalanced;
                },
                Some(b) => b,
            };
            if chars[b2] == '{' {
                return Rendered::Failed;
            }
            if b2 > b1 + 1 {
                let mut between = String::new();
                fmt_iter(&mut between, chars.as_slice(), b1 + 1, b2);
                assert(between@ =~= chars@.subrange(b1 + 1, b2 as int));
                name = Some(between);
            }
            let ghost name2 = opt_string_view(name);
            assert(name2 == (if chars@.subrange(b1 + 1, b2 as int).len() > 0 {
                Some(chars@.subrange(b1 + 1, b2 as int))
            } else {
                name_view
            }));
            let found: Option<&String> = match &name {
                Some(a) => arg_map_get(&self.args, a.as_str()),
                None => None,
            };
            proof {
                if let Some(a) = name2 {
                    lemma_find_key_bounds(entries, a);
                }
            }
            let ghost before = out@;
            let ghost picked = pick_arg(entries, name2, cursor as int);
            match found {
                Some(v) => {
                    fmt_iter(&mut out, chars.as_slice(), pos, b1);
                    out.append(v.as_str());
                },
                None => {
                    if cursor >= count {
                        return Rendered::Failed;
                    }
                    match arg_map_get_index(&self.args, cursor) {
                        Some((_, v)) => {
                            fmt_iter(&mut out, chars.as_slice(), pos, b1);
                            out.append(v.as_str());
                        },
                        None => {
                            return Rendered::Failed;
                        },
                    }
                    cursor = cursor + 1;
                },
            }
            proof {
                let (value, _) = picked.unwrap();
                assert(out@ == before + (chars@.subrange(pos as int, b1 as int) + value));
                lemma_prepend_prepend(
                    before,
                    chars@.subrange(pos as int, b1 as int) + value,
                    fmt_from(chars@, b2 + 1, name2, cursor as int, entries),
                );
            }
            pos = b2 + 1;
        }
        Rendered::Failed
    }

    /// Whether filling in the format string would leave a brace unpartnered.
    pub fn is_unbalanced(&self) -> (u: bool)
        ensures
            u == (self.spec_outcome() is Unbalanced),
    {
        match self.render() {
            Rendered::Unbalanced => true,
            _ => false,
        }
    }

    /// Fills in the format string: the text, or an error when filling in fails
    /// or leaves a brace unpartnered.
    pub fn fmt(&self) -> (r: Result<String, FmtError>)
        ensures
            match self.spec_outcome() {
                FmtOutcome::Text(t) => r matches Ok(s) && s@ == t,
                _ => r is Err,
            },
    {
        match self.render() {
            Rendered::Text(s) => Ok(s),
            _ => Err(FmtError),
        }
    }
}

/// The names and values of `args` as character sequences.
pub open spec fn args_view(args: Seq<(String, String)>) -> Seq<(Seq<char>, Seq<char>)> {
    args.map_values(|p: (String, String)| (p.0@, p.1@))
}

/// A copy of the name and value pairs `args`.
pub fn copy_args(args: &Vec<(String, String)>) -> (c: Vec<(String, String)>)
    ensures
        args_view(c@) == args_view(args@),
{
    let mut c: Vec<(String, String)> = Vec::new();
    let mut i: usize = 0;
    while i < args.len()
        invariant
            i <= args@.len(),
            c@.len() == i,
            args_view(c@) == args_view(args@).subrange(0, i as int),
        decreases args.len() - i,
    {
        let pair = (args[i].0.clone(), args[i].1.clone());
        c.push(pair);
        assert(args_view(c@)[i as int] == args_view(args@)[i as int]);
        assert(args_view(c@) =~= args_view(args@).subrange(0, i + 1));
        i = i + 1;
    }
    assert(args_view(args@).subrange(0, args@.len() as int) =~= args_view(args@));
    c
}

/// Filling in `fmt` with `args`, each a name and a rendered value.
pub open spec fn spec_str_fmt(fmt: Seq<char>, args: Seq<(Seq<char>, Seq<char>)>) -> FmtOutcome {
    spec_format(fmt, collect_entries(args))
}

/// Fills in the format string `fmt` with the arguments `args`, each a name
/// and a value already rendered as text. Filling in must succeed; use
/// `Arguments::render` to find out whether it does.
pub fn str_fmt(fmt: &str, args: Vec<(String, String)>) -> (s: String)
    requires
        spec_str_fmt(fmt@, args_view(args@)) is Text,
    ensures
        FmtOutcome::Text(s@) == spec_str_fmt(fmt@, args_view(args@)),
{
    let fmt_owned = fmt.to_owned();
    let a = Arguments::new(fmt_owned, args);
    match a.render() {
        Rendered::Text(s) => s,
        _ => String::new(),
    }
}

// ---------------------------------------------------------------------------
// Laws of formatting.
// ---------------------------------------------------------------------------

/// Text without braces.
pub open spec fn brace_free(p: Seq<char>) -> bool {
    forall|i: int| 0 <= i < p.len() ==> #[trigger] p[i] != '{' && p[i] != '}'
}

/// The pieces of text joined by empty placeholders `{}`.
pub open spec fn positional_fmt(pieces: Seq<Seq<char>>) -> Seq<char>
    decreases pieces.len(),
{
    if pieces.len() <= 1 {
        if pieces.len() == 1 {
            pieces[0]
        } else {
            Seq::empty()
        }
    } else {
        pieces[0] + seq!['{', '}'] + positional_fmt(pieces.drop_first())
    }
}

/// The pieces of text with the values between them.
pub open spec fn interleave(pieces: Seq<Seq<char>>, values: Seq<Seq<char>>) -> Seq<char>
    decreases pieces.len(),
{
    if pieces.len() <= 1 {
        if pieces.len() == 1 {
            pieces[0]
        } else {
            Seq::empty()
        }
    } else {
        pieces[0] + values[0] + interleave(pieces.drop_first(), values.drop_first())
    }
}

/// Whether no two arguments have the same name.
pub open spec fn distinct_names(args: Seq<(Seq<char>, Seq<char>)>) -> bool {
    forall|i: int, j: int| 0 <= i < j < args.len() ==> #[trigger] args[i].0 != #[trigger] args[j].0
}

/// The values of the arguments, in order.
pub open spec fn arg_values(args: Seq<(Seq<char>, Seq<char>)>) -> Seq<Seq<char>> {
    args.map_values(|p: (Seq<char>, Seq<char>)| p.1)
}

proof fn lemma_next_brace_skip(fmt: Seq<char>, pos: int, len: int)
    requires
        0 <= pos,
        0 <= len,
        pos + len <= fmt.len(),
        forall|i: int| pos <= i < pos + len ==> #[trigger] fmt[i] != '{' && fmt[i] != '}',
    ensures
        next_brace(fmt, pos) == next_brace(fmt, pos + len),
    decreases len,
{
    if len > 0 {
        lemma_next_brace_skip(fmt, pos + 1, len - 1);
    }
}

proof fn lemma_collect_distinct(args: Seq<(Seq<char>, Seq<char>)>)
    requires
        distinct_names(args),
    ensures
        collect_entries(args) == args,
    decreases args.len(),
{
    if args.len() > 0 {
        let init = args.drop_last();
        assert(distinct_names(init)) by {
            assert forall|i: int, j: int| 0 <= i < j < init.len() implies #[trigger] init[i].0
                != #[trigger] init[j].0 by {
                assert(init[i] == args[i] && init[j] == args[j]);
            }
        }
        lemma_collect_distinct(init);
        lemma_find_key_bounds(init, args.last().0);
        if let Some(i) = find_key(init, args.last().0) {
            assert(args[i].0 == args[args.len() - 1].0);
        }
        assert(init.push(args.last()) =~= args);
    }
}

proof fn lemma_positional_from(
    fmt: Seq<char>,
    pos: int,
    pieces: Seq<Seq<char>>,
    entries: Seq<(Seq<char>, Seq<char>)>,
    cursor: int,
)
    requires
        0 <= pos <= fmt.len(),
        pieces.len() >= 1,
        fmt.subrange(pos, fmt.len() as int) == positional_fmt(pieces),
        forall|i: int| 0 <= i < pieces.len() ==> brace_free(#[trigger] pieces[i]),
        0 <= cursor,
        cursor + pieces.len() - 1 == entries.len(),
    ensures
        fmt_from(fmt, pos, None, cursor, entries) == FmtOutcome::Text(
            interleave(pieces, arg_values(entries.subrange(cursor, entries.len() as int))),
        ),
    decreases pieces.len(),
{
    let s = fmt.subrange(pos, fmt.len() as int);
    let p0 = pieces[0];
    assert(brace_free(p0));
    assert(s.len() == fmt.len() - pos);
    if pieces.len() == 1 {
        assert(s == p0);
    } else {
        assert(s == p0 + seq!['{', '}'] + positional_fmt(pieces.drop_first()));
        assert(s.len() >= p0.len() + 2);
    }
    assert(p0.len() <= s.len());
    assert forall|i: int| pos <= i < pos + p0.len() implies #[trigger] fmt[i] != '{' && fmt[i] != '}' by {
        assert(fmt[i] == s[i - pos]);
        if pieces.len() == 1 {
            assert(s[i - pos] == p0[i - pos]);
        } else {
            assert(s[i - pos] == (p0 + seq!['{', '}'] + positional_fmt(pieces.drop_first()))[i - pos]);
            assert(s[i - pos] == p0[i - pos]);
        }
    }
    lemma_next_brace_skip(fmt, pos, p0.len() as int);
    let rest_values = arg_values(entries.subrange(cursor, entries.len() as int));
    if pieces.len() == 1 {
        assert(pos + p0.len() == fmt.len());
        assert(next_brace(fmt, pos + p0.len()) is None);
        assert(fmt.subrange(pos, fmt.len() as int) == p0);
    } else {
        let b1 = pos + p0.len();
        let tail = positional_fmt(pieces.drop_first());
        assert(s == p0 + seq!['{', '}'] + tail);
        assert(fmt[b1] == s[p0.len() as int]);
        assert(fmt[b1] == '{');
        assert(fmt[b1 + 1] == s[p0.len() + 1int]);
        assert(fmt[b1 + 1] == '}');
        assert(next_brace(fmt, b1) == Some(b1));
        assert(next_brace(fmt, b1 + 1) == Some(b1 + 1));
        assert(fmt.subrange(b1 + 1, b1 + 1).len() == 0);
        assert(pick_arg(entries, None, cursor) == Some((entries[cursor].1, cursor + 1)));
        assert(fmt.subrange(b1 + 2, fmt.len() as int) =~= tail) by {
            assert forall|i: int| 0 <= i < tail.len() implies fmt.subrange(b1 + 2, fmt.len() as int)[i]
                == tail[i] by {
                assert(fmt[b1 + 2 + i] == s[p0.len() + 2int + i]);
            }
        }
        assert forall|i: int| 0 <= i < pieces.drop_first().len() implies brace_free(
            #[trigger] pieces.drop_first()[i],
        ) by {
            assert(pieces.drop_first()[i] == pieces[i + 1]);
        }
        lemma_positional_from(fmt, b1 + 2, pieces.drop_first(), entries, cursor + 1);
        assert(fmt.subrange(pos, b1) =~= p0) by {
            assert forall|i: int| 0 <= i < p0.len() implies fmt.subrange(pos, b1)[i] == p0[i] by {
                assert(fmt[pos + i] == s[i]);
            }
        }
        let later = arg_values(entries.subrange(cursor + 1, entries.len() as int));
        assert(rest_values[0] == entries[cursor].1);
        assert(rest_values.drop_first() =~= later);
        assert(p0 + entries[cursor].1 + interleave(pieces.drop_first(), later) =~= interleave(
            pieces,
            rest_values,
        ));
    }
}

/// A format string of text pieces joined by empty placeholders `{}`, given
/// one differently named argument per placeholder, fills each placeholder
/// with the next argument in order.
pub proof fn law_positional_placeholders(
    pieces: Seq<Seq<char>>,
    args: Seq<(Seq<char>, Seq<char>)>,
)
    requires
        pieces.len() == args.len() + 1,
        forall|i: int| 0 <= i < pieces.len() ==> brace_free(#[trigger] pieces[i]),
        distinct_names(args),
    ensures
        spec_str_fmt(positional_fmt(pieces), args) == FmtOutcome::Text(
            interleave(pieces, arg_values(args)),
        ),
{
    lemma_collect_distinct(args);
    let fmt = positional_fmt(pieces);
    assert(fmt.subrange(0, fmt.len() as int) =~= fmt);
    lemma_positional_from(fmt, 0, pieces, args, 0);
    assert(args.subrange(0, args.len() as int) =~= args);
}

/// A format string without braces is written as it is, whatever the arguments.
pub proof fn law_brace_free_unchanged(fmt: Seq<char>, args: Seq<(Seq<char>, Seq<char>)>)
    requires
        brace_free(fmt),
    ensures
        spec_str_fmt(fmt, args) == FmtOutcome::Text(fmt),
{
    lemma_next_brace_skip(fmt, 0, fmt.len() as int);
    assert(fmt.subrange(0, fmt.len() as int) =~= fmt);
}

} // verus!
