//! Which lines carry the marker.
//!
//! A line is flagged when its lowercase form contains `todox` and the line
//! itself does not contain the exact override `ALLOW TODOX`.

use vstd::prelude::*;
use crate::text::{chars_of, contains, contains_chars};

verus! {

/// The marker, in lowercase: `todox`.
pub open spec fn marker() -> Seq<char> {
    seq!['t', 'o', 'd', 'o', 'x']
}

/// The override token, matched exactly: `ALLOW TODOX`.
pub open spec fn override_token() -> Seq<char> {
    seq!['A', 'L', 'L', 'O', 'W', ' ', 'T', 'O', 'D', 'O', 'X']
}

/// What `str::to_lowercase` returns for a string with the characters `s`.
pub uninterp spec fn lower_of(s: Seq<char>) -> Seq<char>;

/// A line with the characters `line`, whose lowercase form is `folded`, is flagged.
pub open spec fn flagged(line: Seq<char>, folded: Seq<char>) -> bool {
    !contains(line, override_token()) && contains(folded, marker())
}

/// The line `line` is flagged.
pub open spec fn line_flagged(line: Seq<char>) -> bool {
    flagged(line, lower_of(line))
}

/// Relies on `str::to_lowercase`: the lowercase form of a string is a
/// function of its characters alone.
#[verifier::external_body]
fn lowercase(s: &str) -> (r: String)
    ensures
        r@ == lower_of(s@),
{
    s.to_lowercase()
}

/// Whether a line is flagged, given the line and its lowercase form.
pub fn is_flagged(line: &str, folded: &str) -> (r: bool)
    ensures
        r == flagged(line@, folded@),
{
    let token: Vec<char> = vec!['A', 'L', 'L', 'O', 'W', ' ', 'T', 'O', 'D', 'O', 'X'];
    assert(token@ =~= override_token());
    if contains_chars(&chars_of(line), &token) {
        return false;
    }
    let mark: Vec<char> = vec!['t', 'o', 'd', 'o', 'x'];
    assert(mark@ =~= marker());
    contains_chars(&chars_of(folded), &mark)
}

/// Whether the line `line` is flagged.
pub fn does_line_contain_todox(line: &str) -> (r: bool)
    ensures
        r == line_flagged(line@),
{
    let folded = lowercase(line);
    is_flagged(line, folded.as_str())
}

} // verus!
