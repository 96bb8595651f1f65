//! Commands that users give the bot in a Matrix room.
use vstd::prelude::*;

use crate::text::{
    chars_of, contains, is_whitespace, matches_at, spec_contains, spec_is_whitespace,
    spec_starts_with, str_eq, string_of, string_of_range,
};

use crate::RepoName;

verus! {

/// Why a command line could not be split into words.
#[derive(Clone, Copy, Debug, PartialEq, Eq, Structural)]
pub enum SplitError {
    /// A backslash at the end of the line, or before a character that has no escape.
    InvalidEscape,
    /// A quote was opened and never closed.
    MismatchedQuotes,
}

/// The message `split_cmd_words` gives for each error.
pub open spec fn split_error_text(e: SplitError) -> Seq<char> {
    match e {
        SplitError::InvalidEscape => "Invalid escape char"@,
        SplitError::MismatchedQuotes => "Mismatched quotes oops"@,
    }
}

/// The character a backslash escape stands for, if `c` may follow a backslash.
pub open spec fn spec_escape(c: char) -> Option<char> {
    if c == 'a' {
        Some('\u{07}')
    } else if c == 'b' {
        Some('\u{08}')
    } else if c == 'v' {
        Some('\u{0B}')
    } else if c == 'f' {
        Some('\u{0C}')
    } else if c == 'n' {
        Some('\n')
    } else if c == 'r' {
        Some('\r')
    } else if c == 't' {
        Some('\t')
    } else if c == 'e' || c == 'E' {
        Some('\u{1B}')
    } else if c == '\\' || c == '\'' || c == '"' || c == '$' || c == '`' || c == ' ' {
        Some(c)
    } else {
        None
    }
}

/// Whether `c` opens or closes a quoted part of a command line.
pub open spec fn is_quote(c: char) -> bool {
    c == '\'' || c == '"'
}

/// Splitting the rest `input` of a command line into words, given the words
/// `out` finished so far, the word `buff` being built and the open quote, if any.
pub open spec fn split_from(
    input: Seq<char>,
    out: Seq<Seq<char>>,
    buff: Seq<char>,
    quote: Option<char>,
) -> Result<Seq<Seq<char>>, SplitError>
    decreases input.len(),
{
    if input.len() == 0 {
        if quote is Some {
            Err(SplitError::MismatchedQuotes)
        } else if buff.len() > 0 {
            Ok(out.push(buff))
        } else {
            Ok(out)
        }
    } else {
        let c = input[0];
        let rest = input.drop_first();
        if spec_is_whitespace(c) && quote is None {
            split_from(rest, out.push(buff), Seq::empty(), None)
        } else if is_quote(c) {
            match quote {
                Some(q) => if q == c {
                    split_from(rest, out, buff, None)
                } else {
                    split_from(rest, out, buff.push(c), quote)
                },
                None => split_from(rest, out, buff, Some(c)),
            }
        } else if c == '\\' {
            if rest.len() == 0 {
                Err(SplitError::InvalidEscape)
            } else {
                match spec_escape(rest[0]) {
                    Some(e) => split_from(rest.drop_first(), out, buff.push(e), quote),
                    None => Err(SplitError::InvalidEscape),
                }
            }
        } else {
            split_from(rest, out, buff.push(c), quote)
        }
    }
}

/// The words of a command line, split the way a shell would.
pub open spec fn spec_split_cmd_words(cmd: Seq<char>) -> Result<Seq<Seq<char>>, SplitError> {
    split_from(cmd, Seq::empty(), Seq::empty(), None)
}

/// The views of a list of strings.
pub open spec fn strings_view(v: Seq<String>) -> Seq<Seq<char>> {
    v.map_values(|s: String| s@)
}

fn escape(c: char) -> (e: Option<char>)
    ensures
        e == spec_escape(c),
{
    match c {
        'a' => Some('\u{07}'),
        'b' => Some('\u{08}'),
        'v' => Some('\u{0B}'),
        'f' => Some('\u{0C}'),
        'n' => Some('\n'),
        'r' => Some('\r'),
        't' => Some('\t'),
        'e' | 'E' => Some('\u{1B}'),
        '\\' | '\'' | '"' | '$' | '`' | ' ' => Some(c),
        _ => None,
    }
}

/// Splits a command line into words.
///
/// Unquoted whitespace ends a word; single or double quotes group words;
/// a backslash escapes the next character.
pub fn split_cmd_words(cmd: &str) -> (res: Result<Vec<String>, &'static str>)
    ensures
        match spec_split_cmd_words(cmd@) {
            Ok(words) => res matches Ok(v) && strings_view(v@) == words,
            Err(e) => res matches Err(msg) && msg@ == split_error_text(e),
        },
{
    let chars = chars_of(cmd);
    let n = chars.len();
    let mut out: Vec<String> = Vec::new();
    let mut buff: Vec<char> = Vec::new();
    let mut quote: Option<char> = None;
    let mut i: usize = 0;
    assert(chars@.skip(0) =~= chars@);
    assert(strings_view(out@) =~= Seq::<Seq<char>>::empty());
    assert(buff@ =~= Seq::<char>::empty());
    while i < n
        invariant
            n == chars@.len(),
            chars@ == cmd@,
            i <= n,
            spec_split_cmd_words(cmd@) == split_from(
                chars@.skip(i as int),
                strings_view(out@),
                buff@,
                quote,
            ),
        decreases n - i,
    {
        let c = chars[i];
        let ghost rest = chars@.skip(i as int);
        assert(rest[0] == c);
        assert(rest.drop_first() =~= chars@.skip(i + 1));
        if is_whitespace(c) && quote.is_none() {
            let word = string_of(buff.as_slice());
            let ghost before = out@;
            out.push(word);
            assert(strings_view(out@) =~= strings_view(before).push(buff@));
            buff = Vec::new();
            i = i + 1;
        } else if c == '\'' || c == '"' {
            match quote {
                Some(q) => {
                    if q == c {
                        quote = None;
                    } else {
                        buff.push(c);
                    }
                },
                None => {
                    quote = Some(c);
                },
            }
            i = i + 1;
        } else if c == '\\' {
            if i + 1 >= n {
                return Err("Invalid escape char");
            }
            assert(rest.drop_first()[0] == chars@[i + 1]);
            assert(rest.drop_first().drop_first() =~= chars@.skip(i + 2));
            match escape(chars[i + 1]) {
                Some(e) => {
                    buff.push(e);
                },
                None => {
                    return Err("Invalid escape char");
                },
            }
            i = i + 2;
        } else {
            buff.push(c);
            i = i + 1;
        }
    }
    assert(chars@.skip(i as int).len() == 0);
    if quote.is_some() {
        return Err("Mismatched quotes oops");
    }
    if buff.len() > 0 {
        let word = string_of(buff.as_slice());
        let ghost before = out@;
        out.push(word);
        assert(strings_view(out@) =~= strings_view(before).push(buff@));
    }
    Ok(out)
}


/// A word that splits as itself: not empty, and without whitespace, quotes or backslashes.
pub open spec fn is_plain_word(w: Seq<char>) -> bool {
    &&& w.len() > 0
    &&& forall|i: int|
        0 <= i < w.len() ==> !spec_is_whitespace(#[trigger] w[i]) && !is_quote(w[i]) && w[i]
            != '\\'
}

/// Words joined by single spaces.
pub open spec fn join_words(ws: Seq<Seq<char>>) -> Seq<char>
    decreases ws.len(),
{
    if ws.len() == 0 {
        Seq::empty()
    } else if ws.len() == 1 {
        ws[0]
    } else {
        ws[0] + seq![' '] + join_words(ws.drop_first())
    }
}

proof fn lemma_split_plain_prefix(
    w: Seq<char>,
    rest: Seq<char>,
    out: Seq<Seq<char>>,
    buff: Seq<char>,
)
    requires
        forall|i: int|
            0 <= i < w.len() ==> !spec_is_whitespace(#[trigger] w[i]) && !is_quote(w[i]) && w[i]
                != '\\',
    ensures
        split_from(w + rest, out, buff, None) == split_from(rest, out, buff + w, None),
    decreases w.len(),
{
    if w.len() == 0 {
        assert(w + rest =~= rest);
        assert(buff + w =~= buff);
    } else {
        let c = w[0];
        assert((w + rest)[0] == c);
        assert((w + rest).drop_first() =~= w.drop_first() + rest);
        assert(!spec_is_whitespace(w[0]) && !is_quote(w[0]) && w[0] != '\\');
        lemma_split_plain_prefix(w.drop_first(), rest, out, buff.push(c));
        assert(buff.push(c) + w.drop_first() =~= buff + w);
    }
}

proof fn lemma_split_join(ws: Seq<Seq<char>>, out: Seq<Seq<char>>)
    requires
        forall|i: int| 0 <= i < ws.len() ==> is_plain_word(#[trigger] ws[i]),
    ensures
        split_from(join_words(ws), out, Seq::empty(), None) == Ok::<Seq<Seq<char>>, SplitError>(
            out + ws,
        ),
    decreases ws.len(),
{
    let empty = Seq::<char>::empty();
    if ws.len() == 0 {
        assert(out + ws =~= out);
    } else if ws.len() == 1 {
        assert(is_plain_word(ws[0]));
        lemma_split_plain_prefix(ws[0], empty, out, empty);
        assert(ws[0] + empty =~= ws[0]);
        assert(empty + ws[0] =~= ws[0]);
        assert(out + ws =~= out.push(ws[0]));
    } else {
        let w = ws[0];
        let tail = ws.drop_first();
        assert(is_plain_word(w));
        let rest = seq![' '] + join_words(tail);
        assert(w + seq![' '] + join_words(tail) =~= w + rest);
        lemma_split_plain_prefix(w, rest, out, empty);
        assert(empty + w =~= w);
        assert(rest[0] == ' ');
        assert(spec_is_whitespace(' '));
        assert(rest.drop_first() =~= join_words(tail));
        assert forall|i: int| 0 <= i < tail.len() implies is_plain_word(#[trigger] tail[i]) by {
            assert(tail[i] == ws[i + 1]);
        }
        lemma_split_join(tail, out.push(w));
        assert(out.push(w) + tail =~= out + ws);
    }
}

/// Splitting plain words joined by single spaces gives the words back.
pub proof fn law_split_of_joined_plain_words(ws: Seq<Seq<char>>)
    requires
        forall|i: int| 0 <= i < ws.len() ==> is_plain_word(#[trigger] ws[i]),
    ensures
        spec_split_cmd_words(join_words(ws)) == Ok::<Seq<Seq<char>>, SplitError>(ws),
{
    lemma_split_join(ws, Seq::empty());
    assert(Seq::<Seq<char>>::empty() + ws =~= ws);
}

/// Whether `w` holds no whitespace, quote or backslash (it may be empty).
pub open spec fn plain_chars(w: Seq<char>) -> bool {
    forall|i: int| 0 <= i < w.len() ==> !spec_is_whitespace(#[trigger] w[i]) && !is_quote(w[i]) && w[i] != '\\'
}

proof fn lemma_split_escape(w1: Seq<char>, c: char, t: char, w2: Seq<char>)
    requires
        plain_chars(w1),
        plain_chars(w2),
        spec_escape(c) == Some(t),
    ensures
        spec_split_cmd_words(w1 + seq!['\\', c] + w2) == Ok::<Seq<Seq<char>>, SplitError>(
            seq![w1.push(t) + w2],
        ),
{
    let empty = Seq::<char>::empty();
    let rest = seq!['\\', c] + w2;
    assert(w1 + seq!['\\', c] + w2 =~= w1 + rest);
    lemma_split_plain_prefix(w1, rest, Seq::empty(), empty);
    assert(empty + w1 =~= w1);
    assert(rest[0] == '\\');
    assert(!spec_is_whitespace('\\'));
    assert(rest.drop_first()[0] == c);
    assert(rest.drop_first().drop_first() =~= w2);
    assert(w2 =~= w2 + empty);
    lemma_split_plain_prefix(w2, empty, Seq::empty(), w1.push(t));
    assert((w1.push(t) + w2).len() > 0);
}

/// A backslash before `\`, `'`, `"`, `$`, a backquote or a space stands for
/// that character: between plain text it joins one word.
pub proof fn law_escaped_char_stands_for_itself(w1: Seq<char>, c: char, w2: Seq<char>)
    requires
        plain_chars(w1),
        plain_chars(w2),
        c == '\\' || c == '\'' || c == '"' || c == '$' || c == '`' || c == ' ',
    ensures
        spec_split_cmd_words(w1 + seq!['\\', c] + w2) == Ok::<Seq<Seq<char>>, SplitError>(
            seq![w1.push(c) + w2],
        ),
{
    lemma_split_escape(w1, c, c, w2);
}

/// A backslash before `a`, `b`, `v`, `f`, `n`, `r`, `t`, `e` or `E` stands
/// for the control character of that name (bell, backspace, vertical tab,
/// form feed, line feed, carriage return, tab, escape).
pub proof fn law_letter_escapes(w1: Seq<char>, c: char, t: char, w2: Seq<char>)
    requires
        plain_chars(w1),
        plain_chars(w2),
        (c == 'a' && t == '\u{07}') || (c == 'b' && t == '\u{08}') || (c == 'v' && t == '\u{0B}')
            || (c == 'f' && t == '\u{0C}') || (c == 'n' && t == '\n') || (c == 'r' && t == '\r')
            || (c == 't' && t == '\t') || (c == 'e' && t == '\u{1B}') || (c == 'E' && t == '\u{1B}'),
    ensures
        spec_split_cmd_words(w1 + seq!['\\', c] + w2) == Ok::<Seq<Seq<char>>, SplitError>(
            seq![w1.push(t) + w2],
        ),
{
    lemma_split_escape(w1, c, t, w2);
}

/// A backslash before any other character, or at the very end, is refused
/// as an invalid escape.
pub proof fn law_other_escapes_are_refused(w1: Seq<char>, c: char, w2: Seq<char>)
    requires
        plain_chars(w1),
        !(c == '\\' || c == '\'' || c == '"' || c == '$' || c == '`' || c == ' ' || c == 'a' || c
            == 'b' || c == 'v' || c == 'f' || c == 'n' || c == 'r' || c == 't' || c == 'e' || c
            == 'E'),
    ensures
        spec_split_cmd_words(w1 + seq!['\\', c] + w2) == Err::<Seq<Seq<char>>, SplitError>(
            SplitError::InvalidEscape,
        ),
        spec_split_cmd_words(w1 + seq!['\\']) == Err::<Seq<Seq<char>>, SplitError>(
            SplitError::InvalidEscape,
        ),
{
    let empty = Seq::<char>::empty();
    let rest = seq!['\\', c] + w2;
    assert(w1 + seq!['\\', c] + w2 =~= w1 + rest);
    lemma_split_plain_prefix(w1, rest, Seq::empty(), empty);
    assert(rest[0] == '\\');
    assert(!spec_is_whitespace('\\'));
    assert(rest.drop_first()[0] == c);
    lemma_split_plain_prefix(w1, seq!['\\'], Seq::empty(), empty);
    assert(seq!['\\'].drop_first().len() == 0);
}

proof fn lemma_split_in_quotes(
    q: Seq<char>,
    rest: Seq<char>,
    out: Seq<Seq<char>>,
    buff: Seq<char>,
    quote: char,
)
    requires
        is_quote(quote),
        forall|i: int| 0 <= i < q.len() ==> #[trigger] q[i] != quote && q[i] != '\\',
    ensures
        split_from(q + rest, out, buff, Some(quote)) == split_from(rest, out, buff + q, Some(quote)),
    decreases q.len(),
{
    if q.len() == 0 {
        assert(q + rest =~= rest);
        assert(buff + q =~= buff);
    } else {
        assert((q + rest)[0] == q[0]);
        assert((q + rest).drop_first() =~= q.drop_first() + rest);
        assert(q[0] != quote && q[0] != '\\');
        lemma_split_in_quotes(q.drop_first(), rest, out, buff.push(q[0]), quote);
        assert(buff.push(q[0]) + q.drop_first() =~= buff + q);
    }
}

/// Text in quotes is one piece of a word, whitespace and the other kind of
/// quote included; a quote left open is refused.
pub proof fn law_quotes_group(w1: Seq<char>, quote: char, q: Seq<char>, w2: Seq<char>)
    requires
        plain_chars(w1),
        plain_chars(w2),
        quote == '"' || quote == '\'',
        forall|i: int| 0 <= i < q.len() ==> #[trigger] q[i] != quote && q[i] != '\\',
        w1.len() + q.len() + w2.len() > 0,
    ensures
        spec_split_cmd_words(w1 + seq![quote] + q + seq![quote] + w2) == Ok::<
            Seq<Seq<char>>,
            SplitError,
        >(seq![w1 + q + w2]),
        spec_split_cmd_words(w1 + seq![quote] + q) == Err::<Seq<Seq<char>>, SplitError>(
            SplitError::MismatchedQuotes,
        ),
{
    let empty = Seq::<char>::empty();
    let none: Seq<Seq<char>> = Seq::empty();
    // The closed case.
    let tail = seq![quote] + w2;
    let rest = seq![quote] + (q + tail);
    assert(w1 + seq![quote] + q + seq![quote] + w2 =~= w1 + rest);
    lemma_split_plain_prefix(w1, rest, none, empty);
    assert(empty + w1 =~= w1);
    assert(rest[0] == quote);
    assert(rest.drop_first() =~= q + tail);
    lemma_split_in_quotes(q, tail, none, w1, quote);
    assert(tail[0] == quote);
    assert(tail.drop_first() =~= w2 + empty);
    lemma_split_plain_prefix(w2, empty, none, w1 + q);
    assert((w1 + q + w2).len() > 0);
    // The open case.
    let rest2 = seq![quote] + (q + empty);
    assert(w1 + seq![quote] + q =~= w1 + rest2);
    lemma_split_plain_prefix(w1, rest2, none, empty);
    assert(rest2[0] == quote);
    assert(rest2.drop_first() =~= q + empty);
    lemma_split_in_quotes(q, empty, none, w1, quote);
}

/// Whether a command line holds no quote and no backslash.
pub open spec fn quote_free(s: Seq<char>) -> bool {
    forall|i: int| 0 <= i < s.len() ==> !is_quote(#[trigger] s[i]) && s[i] != '\\'
}

/// The pieces of `s` between whitespace characters, after the pieces `out`
/// and the piece `buff` begun before it (what `str::split(char::is_whitespace)`
/// gives).
pub open spec fn pieces_from(s: Seq<char>, out: Seq<Seq<char>>, buff: Seq<char>) -> Seq<Seq<char>>
    decreases s.len(),
{
    if s.len() == 0 {
        out.push(buff)
    } else if spec_is_whitespace(s[0]) {
        pieces_from(s.drop_first(), out.push(buff), Seq::empty())
    } else {
        pieces_from(s.drop_first(), out, buff.push(s[0]))
    }
}

/// The pieces of `s` between whitespace characters, empty ones included.
pub open spec fn whitespace_pieces(s: Seq<char>) -> Seq<Seq<char>> {
    pieces_from(s, Seq::empty(), Seq::empty())
}

/// The pieces without a last piece that is empty.
pub open spec fn drop_empty_last(p: Seq<Seq<char>>) -> Seq<Seq<char>> {
    if p.len() > 0 && p.last().len() == 0 {
        p.drop_last()
    } else {
        p
    }
}

proof fn lemma_split_quote_free(s: Seq<char>, out: Seq<Seq<char>>, buff: Seq<char>)
    requires
        quote_free(s),
    ensures
        split_from(s, out, buff, None) == Ok::<Seq<Seq<char>>, SplitError>(
            drop_empty_last(pieces_from(s, out, buff)),
        ),
    decreases s.len(),
{
    if s.len() == 0 {
        assert(out.push(buff).drop_last() =~= out);
    } else {
        assert(!is_quote(s[0]) && s[0] != '\\');
        assert(quote_free(s.drop_first())) by {
            assert forall|i: int| 0 <= i < s.drop_first().len() implies !is_quote(
                #[trigger] s.drop_first()[i],
            ) && s.drop_first()[i] != '\\' by {
                assert(s.drop_first()[i] == s[i + 1]);
            }
        }
        if spec_is_whitespace(s[0]) {
            lemma_split_quote_free(s.drop_first(), out.push(buff), Seq::empty());
        } else {
            lemma_split_quote_free(s.drop_first(), out, buff.push(s[0]));
        }
    }
}

/// A command line without quotes or backslashes splits into its pieces
/// between whitespace characters, empty pieces included, except that an
/// empty last piece is dropped: `"a  b"` gives `a`, ``, `b` and `"a b "`
/// gives `a`, `b`.
pub proof fn law_split_of_quote_free(cmd: Seq<char>)
    requires
        quote_free(cmd),
    ensures
        spec_split_cmd_words(cmd) == Ok::<Seq<Seq<char>>, SplitError>(
            drop_empty_last(whitespace_pieces(cmd)),
        ),
{
    lemma_split_quote_free(cmd, Seq::empty(), Seq::empty());
}

/// All the commands the github bot can do.
#[derive(Clone, Debug)]
pub enum Command {
    /// Ask GitHub for an octocat saying the message.
    Octocat(String),
    /// File an issue with a title and an optional body.
    Create(String, Option<String>),
}

/// A command, with its strings taken as character sequences.
pub enum CommandView {
    Octocat(Seq<char>),
    Create(Seq<char>, Option<Seq<char>>),
}

impl View for Command {
    type V = CommandView;

    open spec fn view(&self) -> CommandView {
        match self {
            Command::Octocat(m) => CommandView::Octocat(m@),
            Command::Create(t, b) => CommandView::Create(
                t@,
                match b {
                    Some(b) => Some(b@),
                    None => None,
                },
            ),
        }
    }
}

/// The command the words of a `!github` message ask for, if any.
pub open spec fn spec_command_of_words(words: Seq<Seq<char>>) -> Option<CommandView> {
    if words.len() == 2 && words[0] == "party"@ {
        Some(CommandView::Octocat(words[1]))
    } else if words.len() == 3 && words[0] == "create"@ && words[1] == "issue"@ {
        Some(CommandView::Create(words[2], None))
    } else if words.len() == 4 && words[0] == "create"@ && words[1] == "issue"@ {
        Some(CommandView::Create(words[2], Some(words[3])))
    } else {
        None
    }
}

/// The command a room message gives the bot: messages starting with
/// `!github ` are split into words; a line that does not split gives no words.
pub open spec fn spec_parse_command(msg: Seq<char>) -> Option<CommandView> {
    if spec_starts_with(msg, "!github "@) {
        let words = match spec_split_cmd_words(msg.skip("!github "@.len() as int)) {
            Ok(w) => w,
            Err(_) => Seq::empty(),
        };
        spec_command_of_words(words)
    } else {
        None
    }
}

/// Reads the command in a message sent to a room the bot is in.
pub fn parse_command(msg: &str) -> (cmd: Option<Command>)
    ensures
        match cmd {
            Some(c) => spec_parse_command(msg@) == Some(c@),
            None => spec_parse_command(msg@) is None,
        },
{
    let m = chars_of(msg);
    let prefix = chars_of("!github ");
    if prefix.len() > m.len() || !matches_at(m.as_slice(), prefix.as_slice(), 0) {
        return None;
    }
    let rest = string_of_range(m.as_slice(), prefix.len(), m.len());
    assert(rest@ =~= msg@.skip("!github "@.len() as int));
    let words: Vec<String> = match split_cmd_words(rest.as_str()) {
        Ok(w) => w,
        Err(_) => Vec::new(),
    };
    let ghost wv = strings_view(words@);
    assert(wv.len() == words@.len());
    assert(forall|i: int| 0 <= i < words@.len() ==> wv[i] == #[trigger] words@[i]@);
    if words.len() == 2 && str_eq(words[0].as_str(), "party") {
        return Some(Command::Octocat(words[1].clone()));
    }
    if words.len() >= 3 && words.len() <= 4 && str_eq(words[0].as_str(), "create") && str_eq(
        words[1].as_str(),
        "issue",
    ) {
        if words.len() == 3 {
            return Some(Command::Create(words[2].clone(), None));
        } else {
            return Some(Command::Create(words[2].clone(), Some(words[3].clone())));
        }
    }
    None
}

/// The REST path that files an issue in a repository: `/repos/{owner}/{repo}/issues`.
pub open spec fn spec_issues_path(owner: Seq<char>, repo: Seq<char>) -> Seq<char> {
    "/repos/"@ + owner + "/"@ + repo + "/issues"@
}

/// The REST path that files an issue in `repo`.
pub fn issues_path(repo: &RepoName) -> (p: String)
    ensures
        p@ == spec_issues_path(repo.owner@, repo.repo@),
{
    let mut p = "/repos/".to_owned();
    p.append(repo.owner.as_str());
    p.append("/");
    p.append(repo.repo.as_str());
    p.append("/issues");
    p
}

proof fn lemma_command_words(ws: Seq<Seq<char>>)
    requires
        forall|i: int| 0 <= i < ws.len() ==> is_plain_word(#[trigger] ws[i]),
    ensures
        spec_parse_command("!github "@ + join_words(ws)) == spec_command_of_words(ws),
{
    reveal_strlit("!github ");
    let msg = "!github "@ + join_words(ws);
    assert(msg.subrange(0, 8) =~= "!github "@);
    assert(msg.skip(8) =~= join_words(ws));
    law_split_of_joined_plain_words(ws);
}

/// `!github party <msg>` asks for an octocat saying `msg`; a party with any
/// other number of words is no command.
pub proof fn law_party_command(ws: Seq<Seq<char>>)
    requires
        forall|i: int| 0 <= i < ws.len() ==> is_plain_word(#[trigger] ws[i]),
        ws.len() > 0,
        ws[0] == "party"@,
    ensures
        ws.len() == 2 ==> spec_parse_command("!github "@ + join_words(ws)) == Some(
            CommandView::Octocat(ws[1]),
        ),
        ws.len() != 2 ==> spec_parse_command("!github "@ + join_words(ws)) is None,
{
    lemma_command_words(ws);
    reveal_strlit("party");
    reveal_strlit("create");
    assert("party"@ != "create"@) by {
        assert("party"@[0] != "create"@[0]);
    }
}

/// `!github create issue <title>` files an issue with that title, and
/// `!github create issue <title> <body>` one with that body too; `create`
/// with anything else is no command.
pub proof fn law_create_issue_command(ws: Seq<Seq<char>>)
    requires
        forall|i: int| 0 <= i < ws.len() ==> is_plain_word(#[trigger] ws[i]),
        ws.len() > 0,
        ws[0] == "create"@,
    ensures
        ws.len() == 3 && ws[1] == "issue"@ ==> spec_parse_command("!github "@ + join_words(ws))
            == Some(CommandView::Create(ws[2], None)),
        ws.len() == 4 && ws[1] == "issue"@ ==> spec_parse_command("!github "@ + join_words(ws))
            == Some(CommandView::Create(ws[2], Some(ws[3]))),
        !((ws.len() == 3 || ws.len() == 4) && ws[1] == "issue"@) ==> spec_parse_command(
            "!github "@ + join_words(ws),
        ) is None,
{
    lemma_command_words(ws);
    reveal_strlit("party");
    reveal_strlit("create");
    assert("party"@ != "create"@) by {
        assert("party"@[0] != "create"@[0]);
    }
}

/// Words that start with neither `party` nor `create` are no command, and
/// neither is a message that does not start with `!github `.
pub proof fn law_other_messages_are_no_command(ws: Seq<Seq<char>>, msg: Seq<char>)
    requires
        forall|i: int| 0 <= i < ws.len() ==> is_plain_word(#[trigger] ws[i]),
        ws.len() == 0 || (ws[0] != "party"@ && ws[0] != "create"@),
    ensures
        spec_parse_command("!github "@ + join_words(ws)) is None,
        !spec_starts_with(msg, "!github "@) ==> spec_parse_command(msg) is None,
{
    lemma_command_words(ws);
}

/// Whether an invite whose state key is `state_key` is meant for the bot user `user`.
pub fn invite_is_for_user(state_key: &str, user: &str) -> (yes: bool)
    ensures
        yes == spec_contains(state_key@, user@),
{
    contains(state_key, user)
}

/// The longest wait, in seconds, before the bot gives up joining a room.
pub const MAX_JOIN_DELAY: u64 = 3600;

/// The first wait, in seconds, after a failed attempt to join a room.
pub const FIRST_JOIN_DELAY: u64 = 2;

/// The wait before the next attempt to join a room, after waiting `delay`
/// seconds: twice as long, or `None` when that passes `MAX_JOIN_DELAY` and
/// the bot gives up.
pub open spec fn spec_next_join_delay(delay: u64) -> Option<u64> {
    if 2 * delay > MAX_JOIN_DELAY {
        None
    } else {
        Some((2 * delay) as u64)
    }
}

/// The wait that follows `delay` seconds in the retry schedule for joining a room.
pub fn next_join_delay(delay: u64) -> (next: Option<u64>)
    ensures
        next == spec_next_join_delay(delay),
{
    if delay > MAX_JOIN_DELAY / 2 {
        None
    } else {
        Some(delay * 2)
    }
}

/// The wait after `k` failed attempts, starting from `FIRST_JOIN_DELAY`.
pub open spec fn join_delay_after(k: nat) -> Option<u64>
    decreases k,
{
    if k == 0 {
        Some(FIRST_JOIN_DELAY)
    } else {
        match join_delay_after((k - 1) as nat) {
            Some(d) => spec_next_join_delay(d),
            None => None,
        }
    }
}

/// Joining a room is retried a bounded number of times: the schedule waits
/// 2, 4, ..., 2048 seconds and then gives up.
pub proof fn law_join_retries_end()
    ensures
        forall|k: nat| k <= 10 ==> #[trigger] join_delay_after(k) == Some(vstd::arithmetic::power2::pow2(k + 1) as u64),
        join_delay_after(11) is None,
{
    reveal_with_fuel(join_delay_after, 12);
    vstd::arithmetic::power2::lemma2_to64();
    assert forall|k: nat| k <= 10 implies #[trigger] join_delay_after(k) == Some(vstd::arithmetic::power2::pow2(k + 1) as u64) by {
        vstd::arithmetic::power2::lemma2_to64();
    }
}

} // verus!
