//! Cutting text into lines.
//!
//! A line ends at each `'\n'`; a `'\r'` right before that `'\n'` belongs to
//! the terminator, not to the line. The last line need not be terminated, and
//! text that ends with a terminator has no empty line after it.

use vstd::prelude::*;
use crate::text::string_of;

verus! {

/// `raw` without one `'\r'` at its end, if it has one there.
pub open spec fn strip_cr(raw: Seq<char>) -> Seq<char> {
    if raw.len() > 0 && raw.last() == '\r' {
        raw.drop_last()
    } else {
        raw
    }
}

/// The lines of `text` that a `'\n'` has closed, and what follows the last one.
pub open spec fn cut(text: Seq<char>) -> (Seq<Seq<char>>, Seq<char>)
    decreases text.len(),
{
    if text.len() == 0 {
        (seq![], seq![])
    } else {
        let (closed, rest) = cut(text.drop_last());
        if text.last() == '\n' {
            (closed.push(strip_cr(rest)), seq![])
        } else {
            (closed, rest.push(text.last()))
        }
    }
}

/// The lines of `text`, without their terminators.
pub open spec fn lines_of(text: Seq<char>) -> Seq<Seq<char>> {
    let (closed, rest) = cut(text);
    if rest.len() == 0 {
        closed
    } else {
        closed.push(rest)
    }
}

/// Cuts `text` into its lines, in order.
pub fn split_lines(text: &str) -> (lines: Vec<String>)
    ensures
        lines.deep_view() == lines_of(text@),
{
    let mut closed: Vec<String> = Vec::new();
    let mut rest: Vec<char> = Vec::new();
    for c in it: text.chars()
        invariant
            it.seq() == text@,
            (closed.deep_view(), rest@) == cut(it.seq().take(it.index() as int)),
    {
        let ghost seen = it.seq().take(it.index() as int);
        let ghost next = it.seq().take(it.index() + 1);
        assert(next.drop_last() =~= seen);
        assert(next.last() == c);
        if c == '\n' {
            let ghost before = closed.deep_view();
            let n: usize = rest.len();
            if n > 0 && rest[n - 1] == '\r' {
                rest.pop();
            }
            closed.push(string_of(&rest));
            assert(closed.deep_view() =~= before.push(strip_cr(cut(seen).1)));
            rest = Vec::new();
            assert(rest@ =~= seq![]);
        } else {
            rest.push(c);
        }
    }
    assert(text@.take(text@.len() as int) =~= text@);
    if rest.len() > 0 {
        let ghost before = closed.deep_view();
        closed.push(string_of(&rest));
        assert(closed.deep_view() =~= before.push(cut(text@).1));
    }
    closed
}

} // verus!
