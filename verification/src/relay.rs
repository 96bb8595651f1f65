//! Relaying webhook messages to Matrix: how a message is written there, and
//! how long the relay waits between looks at its queues.
use vstd::prelude::*;

use crate::text::{chars_of, push_char};

verus! {

/// The number of different waits the relay cycles through.
pub const BACKOFF: usize = 20;

/// A message as Matrix markdown: every line break becomes `<br>`.
pub open spec fn spec_markdown(s: Seq<char>) -> Seq<char>
    decreases s.len(),
{
    if s.len() == 0 {
        Seq::empty()
    } else if s.last() == '\n' {
        spec_markdown(s.drop_last()) + "<br>"@
    } else {
        spec_markdown(s.drop_last()).push(s.last())
    }
}

/// The message `msg` as Matrix markdown: every `\n` replaced by `<br>`.
pub fn to_markdown(msg: &str) -> (out: String)
    ensures
        out@ == spec_markdown(msg@),
{
    let chars = chars_of(msg);
    let mut out = String::new();
    let mut i: usize = 0;
    assert(chars@.subrange(0, 0) =~= Seq::<char>::empty());
    while i < chars.len()
        invariant
            i <= chars@.len(),
            chars@ == msg@,
            out@ == spec_markdown(chars@.subrange(0, i as int)),
        decreases chars.len() - i,
    {
        let ghost pre = chars@.subrange(0, i + 1);
        assert(pre.drop_last() =~= chars@.subrange(0, i as int));
        assert(pre.last() == chars@[i as int]);
        if chars[i] == '\n' {
            out.append("<br>");
        } else {
            push_char(&mut out, chars[i]);
        }
        i = i + 1;
    }
    assert(chars@.subrange(0, chars@.len() as int) =~= chars@);
    out
}

/// A message in markdown holds no line break.
pub proof fn law_markdown_has_no_line_breaks(s: Seq<char>)
    ensures
        !spec_markdown(s).contains('\n'),
    decreases s.len(),
{
    reveal_strlit("<br>");
    if s.len() > 0 {
        law_markdown_has_no_line_breaks(s.drop_last());
        let before = spec_markdown(s.drop_last());
        if s.last() == '\n' {
            assert forall|i: int| 0 <= i < spec_markdown(s).len() implies spec_markdown(s)[i] != '\n' by {
                if i >= before.len() {
                    assert(spec_markdown(s)[i] == "<br>"@[i - before.len()]);
                } else {
                    assert(spec_markdown(s)[i] == before[i]);
                }
            }
        } else {
            assert forall|i: int| 0 <= i < spec_markdown(s).len() implies spec_markdown(s)[i] != '\n' by {
                if i < before.len() {
                    assert(spec_markdown(s)[i] == before[i]);
                }
            }
        }
    }
}

/// A message without line breaks is written in markdown as it is.
pub proof fn law_markdown_keeps_single_lines(s: Seq<char>)
    requires
        !s.contains('\n'),
    ensures
        spec_markdown(s) == s,
    decreases s.len(),
{
    if s.len() > 0 {
        assert(!s.drop_last().contains('\n')) by {
            if s.drop_last().contains('\n') {
                let i = choose|i: int| 0 <= i < s.drop_last().len() && s.drop_last()[i] == '\n';
                assert(s[i] == '\n');
            }
        }
        law_markdown_keeps_single_lines(s.drop_last());
        assert(s[s.len() - 1] != '\n');
        assert(s.drop_last().push(s.last()) =~= s);
    }
}

/// How long the relay waits, in milliseconds, on its `step`-th idle turn:
/// 0, 50, ..., 950 ms, then round again.
pub fn backoff_millis(step: usize) -> (ms: u64)
    ensures
        ms == 50 * (step % BACKOFF) as int,
{
    let slot = step % BACKOFF;
    assert(slot < 20);
    50 * (slot as u64)
}

} // verus!
