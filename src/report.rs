//! Diagnostics for one file.

use vstd::prelude::*;
use vstd::string::StringExecFns;
use crate::lines::{lines_of, split_lines};
use crate::marker::{does_line_contain_todox, line_flagged};
use crate::text::push_char;

verus! {

/// The decimal digit for `d`.
pub open spec fn digit(d: nat) -> char {
    seq!['0', '1', '2', '3', '4', '5', '6', '7', '8', '9'][d as int]
}

/// The decimal numeral of `n`, without leading zeros.
pub open spec fn decimal(n: nat) -> Seq<char>
    decreases n,
{
    if n < 10 {
        seq![digit(n)]
    } else {
        decimal(n / 10).push(digit(n % 10))
    }
}

/// The diagnostic for line `number` of the file at `path`, with its terminator.
pub open spec fn diagnostic(path: Seq<char>, number: nat) -> Seq<char> {
    path + seq![':'] + decimal(number) + ": contains todox\n"@
}

/// The 1-based numbers of the flagged lines among `lines`, in increasing order.
pub open spec fn flagged_numbers(lines: Seq<Seq<char>>) -> Seq<nat>
    decreases lines.len(),
{
    if lines.len() == 0 {
        seq![]
    } else if line_flagged(lines.last()) {
        flagged_numbers(lines.drop_last()).push(lines.len())
    } else {
        flagged_numbers(lines.drop_last())
    }
}

/// The diagnostics for the lines `numbers` of the file at `path`, one after another.
pub open spec fn diagnostics(path: Seq<char>, numbers: Seq<nat>) -> Seq<char>
    decreases numbers.len(),
{
    if numbers.len() == 0 {
        seq![]
    } else {
        diagnostics(path, numbers.drop_last()) + diagnostic(path, numbers.last())
    }
}

/// What a scan writes for the file at `path` with the text `content`.
pub open spec fn file_report(path: Seq<char>, content: Seq<char>) -> Seq<char> {
    diagnostics(path, flagged_numbers(lines_of(content)))
}

/// Some line of `content` is flagged.
pub open spec fn file_dirty(content: Seq<char>) -> bool {
    flagged_numbers(lines_of(content)).len() > 0
}

/// The decimal digit for `d`.
fn digit_char(d: usize) -> (c: char)
    requires
        d < 10,
    ensures
        c == digit(d as nat),
{
    let digits: Vec<char> = vec!['0', '1', '2', '3', '4', '5', '6', '7', '8', '9'];
    assert(digits@ =~= seq!['0', '1', '2', '3', '4', '5', '6', '7', '8', '9']);
    digits[d]
}

/// Appends the decimal numeral of `n` to `out`.
pub fn push_decimal(out: &mut String, n: usize)
    ensures
        final(out)@ == old(out)@ + decimal(n as nat),
    decreases n,
{
    if n >= 10 {
        push_decimal(out, n / 10);
    }
    push_char(out, digit_char(n % 10));
    if n >= 10 {
        assert(decimal(n as nat) == decimal((n / 10) as nat).push(digit((n % 10) as nat)));
    }
    assert(final(out)@ =~= old(out)@ + decimal(n as nat));
}

/// Appends the diagnostic for line `number` of the file at `path` to `out`.
pub fn push_diagnostic(out: &mut String, path: &str, number: usize)
    ensures
        final(out)@ == old(out)@ + diagnostic(path@, number as nat),
{
    out.append(path);
    push_char(out, ':');
    push_decimal(out, number);
    out.append(": contains todox\n");
    assert(final(out)@ =~= old(out)@ + diagnostic(path@, number as nat));
}

/// Appends to `output` one diagnostic for each flagged line of `content`, the
/// text of the file at `path`, in line order; returns whether there was any.
pub fn does_file_contain_todox(output: &mut String, path: &str, content: &str) -> (dirty: bool)
    ensures
        final(output)@ == old(output)@ + file_report(path@, content@),
        dirty == file_dirty(content@),
{
    let lines = split_lines(content);
    let ghost all = lines.deep_view();
    let mut dirty = false;
    for i in 0..lines.len()
        invariant
            all == lines.deep_view(),
            all == lines_of(content@),
            output@ == old(output)@ + diagnostics(path@, flagged_numbers(all.take(i as int))),
            dirty == (flagged_numbers(all.take(i as int)).len() > 0),
    {
        assert(all.take(i + 1).drop_last() =~= all.take(i as int));
        assert(all.take(i + 1).last() == lines[i as int]@);
        if does_line_contain_todox(lines[i].as_str()) {
            push_diagnostic(output, path, i + 1);
            dirty = true;
            let ghost nums = flagged_numbers(all.take(i + 1));
            assert(nums == flagged_numbers(all.take(i as int)).push((i + 1) as nat));
            assert(nums.drop_last() =~= flagged_numbers(all.take(i as int)));
            assert(diagnostics(path@, nums) == diagnostics(path@, flagged_numbers(all.take(i as int)))
                + diagnostic(path@, (i + 1) as nat));
            assert(output@ =~= old(output)@ + diagnostics(path@, nums));
        }
    }
    assert(all.take(all.len() as int) =~= all);
    dirty
}

} // verus!
