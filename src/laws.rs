//! Properties of a scan, stated over the spec functions that the contracts use.

use vstd::prelude::*;
use crate::lines::lines_of;
use crate::marker::{flagged, line_flagged, marker, override_token};
use crate::report::{diagnostic, diagnostics, file_dirty, file_report, flagged_numbers};
use crate::scan::{tree_dirty, tree_report, tree_status};
use crate::text::{contains, occurs_at};

verus! {

/// Among `lines`, the flagged ones get exactly one number each: every number
/// names a flagged line (counting from 1), the numbers increase strictly, and
/// every flagged line has its number there.
pub proof fn lemma_one_number_per_flagged_line(lines: Seq<Seq<char>>)
    ensures
        forall|k: int| 0 <= k < flagged_numbers(lines).len() ==> {
            let n = #[trigger] flagged_numbers(lines)[k];
            1 <= n <= lines.len() && line_flagged(lines[n - 1])
        },
        forall|k1: int, k2: int|
            0 <= k1 < k2 < flagged_numbers(lines).len() ==> #[trigger] flagged_numbers(lines)[k1]
                < #[trigger] flagged_numbers(lines)[k2],
        forall|j: int|
            0 <= j < lines.len() && line_flagged(#[trigger] lines[j]) ==> exists|k: int|
                0 <= k < flagged_numbers(lines).len() && flagged_numbers(lines)[k] == j + 1,
    decreases lines.len(),
{
    if lines.len() > 0 {
        let prev = lines.drop_last();
        lemma_one_number_per_flagged_line(prev);
        let p = flagged_numbers(prev);
        let q = flagged_numbers(lines);
        assert forall|k: int| 0 <= k < p.len() implies 1 <= p[k] <= prev.len() && lines[p[k] - 1]
            == prev[p[k] - 1] by {}
        assert forall|j: int| 0 <= j < lines.len() && line_flagged(#[trigger] lines[j]) implies exists|
            k: int,
        | 0 <= k < q.len() && q[k] == j + 1 by {
            if j < prev.len() {
                assert(prev[j] == lines[j]);
                let k = choose|k: int| 0 <= k < p.len() && p[k] == j + 1;
                assert(q[k] == p[k]);
            } else {
                assert(q[q.len() - 1] == j + 1);
            }
        }
    }
}

/// The diagnostics for a non-empty list of line numbers are not empty.
proof fn lemma_diagnostics_empty(path: Seq<char>, numbers: Seq<nat>)
    ensures
        (diagnostics(path, numbers).len() == 0) == (numbers.len() == 0),
    decreases numbers.len(),
{
    if numbers.len() > 0 {
        lemma_diagnostics_empty(path, numbers.drop_last());
        assert(diagnostic(path, numbers.last()).len() > 0);
    }
}

/// A run writes nothing exactly when its status is 0, and its status is 1
/// exactly when some file has a flagged line.
pub proof fn lemma_silent_iff_clean(files: Seq<(String, String)>)
    ensures
        (tree_report(files).len() == 0) == (tree_status(files) == 0),
        (tree_status(files) == 1) == tree_dirty(files),
    decreases files.len(),
{
    if files.len() > 0 {
        let prev = files.drop_last();
        let last = files.last();
        lemma_silent_iff_clean(prev);
        lemma_diagnostics_empty(last.0@, flagged_numbers(lines_of(last.1@)));
        if tree_dirty(prev) {
            let k = choose|k: int| 0 <= k < prev.len() && file_dirty(#[trigger] prev[k].1@);
            assert(files[k] == prev[k]);
        }
        if tree_dirty(files) {
            let k = choose|k: int| 0 <= k < files.len() && file_dirty(#[trigger] files[k].1@);
            if k < prev.len() {
                assert(files[k] == prev[k]);
            }
        }
    }
}

/// When no line of any file is flagged, a run returns 0 and writes nothing.
pub proof fn lemma_clean_tree(files: Seq<(String, String)>)
    requires
        forall|i: int, j: int|
            0 <= i < files.len() && 0 <= j < lines_of(files[i].1@).len() ==> !line_flagged(
                #[trigger] lines_of(#[trigger] files[i].1@)[j],
            ),
    ensures
        tree_status(files) == 0,
        tree_report(files) == Seq::<char>::empty(),
{
    if tree_dirty(files) {
        let i = choose|i: int| 0 <= i < files.len() && file_dirty(#[trigger] files[i].1@);
        let lines = lines_of(files[i].1@);
        lemma_one_number_per_flagged_line(lines);
        let n = flagged_numbers(lines)[0];
        assert(line_flagged(lines[n - 1]));
    }
    lemma_silent_iff_clean(files);
}

/// When some line of some file is flagged, a run returns 1 and writes at
/// least one diagnostic; what it writes is each file's diagnostics in the
/// order the files come, and each file's diagnostics are one per flagged
/// line, in line order (see `lemma_one_number_per_flagged_line`).
pub proof fn lemma_dirty_tree(files: Seq<(String, String)>, i: int, j: int)
    requires
        0 <= i < files.len(),
        0 <= j < lines_of(files[i].1@).len(),
        line_flagged(lines_of(files[i].1@)[j]),
    ensures
        tree_status(files) == 1,
        tree_report(files).len() > 0,
        tree_report(files) == tree_report(files.drop_last()) + file_report(
            files.last().0@,
            files.last().1@,
        ),
        file_report(files[i].0@, files[i].1@) == diagnostics(
            files[i].0@,
            flagged_numbers(lines_of(files[i].1@)),
        ),
{
    let lines = lines_of(files[i].1@);
    lemma_one_number_per_flagged_line(lines);
    assert(file_dirty(files[i].1@));
    lemma_silent_iff_clean(files);
}

/// A line that holds the exact override token is never flagged, whatever its
/// lowercase form holds.
pub proof fn lemma_override_wins(line: Seq<char>, folded: Seq<char>)
    requires
        contains(line, override_token()),
    ensures
        !flagged(line, folded),
{
}

/// Without the exact override token, a line is flagged exactly when its
/// lowercase form holds `todox`: the marker test sees the line's case folded.
pub proof fn lemma_marker_on_folded_form(line: Seq<char>, folded: Seq<char>)
    requires
        !contains(line, override_token()),
    ensures
        flagged(line, folded) == contains(folded, marker()),
{
}

/// The override is case-sensitive: a line without an uppercase `A` does not
/// hold it, so a lowercase `allow todox` suppresses nothing.
pub proof fn lemma_override_needs_uppercase(line: Seq<char>)
    requires
        forall|i: int| 0 <= i < line.len() ==> line[i] != 'A',
    ensures
        !contains(line, override_token()),
{
    if contains(line, override_token()) {
        let i = choose|i: int| occurs_at(line, override_token(), i);
        assert(line.subrange(i, i + 11)[0] == 'A');
    }
}

/// Two runs over the same tracked files with the same texts write the same
/// diagnostics and return the same status.
pub proof fn lemma_run_repeatable(a: Seq<(String, String)>, b: Seq<(String, String)>)
    requires
        a.len() == b.len(),
        forall|i: int| #![trigger a[i]] 0 <= i < a.len() ==> a[i].0@ == b[i].0@ && a[i].1@ == b[i].1@,
    ensures
        tree_report(a) == tree_report(b),
        tree_status(a) == tree_status(b),
    decreases a.len(),
{
    if a.len() > 0 {
        lemma_run_repeatable(a.drop_last(), b.drop_last());
        assert(a[a.len() - 1].0@ == b[b.len() - 1].0@);
    }
    if tree_dirty(a) {
        let k = choose|k: int| 0 <= k < a.len() && file_dirty(#[trigger] a[k].1@);
        assert(b[k].1@ == a[k].1@);
    }
    if tree_dirty(b) {
        let k = choose|k: int| 0 <= k < b.len() && file_dirty(#[trigger] b[k].1@);
        assert(b[k].1@ == a[k].1@);
    }
}

} // verus!
