//! A whole run over the tracked files, and its status.

use vstd::prelude::*;
use crate::report::{does_file_contain_todox, file_dirty, file_report};

verus! {

/// What a run writes for `files`, each a path and the text of that file, in order.
pub open spec fn tree_report(files: Seq<(String, String)>) -> Seq<char>
    decreases files.len(),
{
    if files.len() == 0 {
        seq![]
    } else {
        tree_report(files.drop_last()) + file_report(files.last().0@, files.last().1@)
    }
}

/// Some file among `files` has a flagged line.
pub open spec fn tree_dirty(files: Seq<(String, String)>) -> bool {
    exists|i: int| 0 <= i < files.len() && file_dirty(#[trigger] files[i].1@)
}

/// The status of a run over `files`: 1 when some line was flagged, else 0.
pub open spec fn tree_status(files: Seq<(String, String)>) -> i32 {
    if tree_dirty(files) {
        1
    } else {
        0
    }
}

/// The state of a run: whether a diagnostic has been written so far.
/// Once dirty, a run stays dirty.
pub struct Scan {
    dirty: bool,
}

impl Scan {
    /// Some file scanned so far had a flagged line.
    pub closed spec fn is_dirty(&self) -> bool {
        self.dirty
    }

    /// A run that has scanned nothing yet.
    pub fn new() -> (s: Scan)
        ensures
            !s.is_dirty(),
    {
        Scan { dirty: false }
    }

    /// Scans the file at `path`, whose text is `content`: appends its
    /// diagnostics to `output` and returns whether it had any.
    pub fn scan_file(&mut self, output: &mut String, path: &str, content: &str) -> (dirty: bool)
        ensures
            final(output)@ == old(output)@ + file_report(path@, content@),
            dirty == file_dirty(content@),
            final(self).is_dirty() == (old(self).is_dirty() || dirty),
    {
        let dirty = does_file_contain_todox(output, path, content);
        if dirty {
            self.dirty = true;
        }
        dirty
    }

    /// The status of the run: 1 when dirty, else 0.
    pub fn status(&self) -> (code: i32)
        ensures
            code == (if self.is_dirty() { 1i32 } else { 0i32 }),
    {
        if self.dirty {
            1
        } else {
            0
        }
    }
}

/// Scans `files`, each a tracked path and the text of that file, in order:
/// appends every diagnostic to `output` and returns the status of the run.
pub fn run(output: &mut String, files: &Vec<(String, String)>) -> (status: i32)
    ensures
        final(output)@ == old(output)@ + tree_report(files@),
        status == tree_status(files@),
{
    let mut scan = Scan::new();
    for i in 0..files.len()
        invariant
            output@ == old(output)@ + tree_report(files@.take(i as int)),
            scan.is_dirty() == tree_dirty(files@.take(i as int)),
    {
        let ghost seen = files@.take(i as int);
        let ghost next = files@.take(i + 1);
        assert(next.drop_last() =~= seen);
        let file = &files[i];
        let dirty = scan.scan_file(output, file.0.as_str(), file.1.as_str());
        assert(output@ =~= old(output)@ + tree_report(next));
        if dirty {
            assert(next[i as int] == files@[i as int]);
        }
        proof {
            if tree_dirty(seen) {
                let k = choose|k: int| 0 <= k < seen.len() && file_dirty(#[trigger] seen[k].1@);
                assert(next[k] == seen[k]);
            }
        }
        assert(scan.is_dirty() == tree_dirty(next));
    }
    assert(files@.take(files@.len() as int) =~= files@);
    scan.status()
}

} // verus!
