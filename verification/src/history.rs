//! The session history: the ordered log of commits already displayed,
//! together with a cursor, enabling backward and forward browsing without
//! re-querying the commit source. Recording a new commit truncates any
//! "future" entries beyond the cursor, as an undo history would; replaying
//! from the history itself records nothing.

use vstd::prelude::*;

use crate::commit::CommitMetadata;

verus! {

/// The ordered log of displayed commits and the index of the current one.
/// The index is meaningful only once an entry exists.
pub struct History {
    pub entries: Vec<CommitMetadata>,
    pub index: usize,
}

/// The history state after moving one entry back; unchanged when no earlier
/// entry exists.
pub open spec fn history_prev(h: History) -> History {
    if h.index > 0 {
        History { entries: h.entries, index: (h.index - 1) as usize }
    } else {
        h
    }
}

/// The history state after moving one entry forward; unchanged when no later
/// entry exists.
pub open spec fn history_next(h: History) -> History {
    if h.entries@.len() > 0 && h.index + 1 < h.entries@.len() {
        History { entries: h.entries, index: (h.index + 1) as usize }
    } else {
        h
    }
}

/// Stepping back to the previous entry and forward again returns the history
/// to exactly its former state — in particular to the same current commit —
/// and involves no commit source at all. Symmetrically for forward then back.
pub proof fn lemma_history_round_trip(h: History)
    requires
        h.wf(),
    ensures
        h.index > 0 ==> history_next(history_prev(h)) == h,
        h.index + 1 < h.entries@.len() ==> history_prev(history_next(h)) == h,
{
    assert(h.entries.len() == h.entries@.len());
}

impl History {
    /// The cursor stays inside the log whenever the log is non-empty, and
    /// rests at zero while the log is empty.
    pub open spec fn wf(&self) -> bool {
        if self.entries@.len() > 0 {
            self.index < self.entries@.len()
        } else {
            self.index == 0
        }
    }

    /// An empty history: no commit has been displayed yet.
    pub fn new() -> (h: History)
        ensures
            h.wf(),
            h.entries@.len() == 0,
            h.index == 0,
    {
        History { entries: Vec::new(), index: 0 }
    }

    /// Whether an entry exists before the current one.
    pub fn has_prev(&self) -> (r: bool)
        requires
            self.wf(),
        ensures
            r == (self.entries@.len() > 0 && self.index > 0),
    {
        self.entries.len() > 0 && self.index > 0
    }

    /// Whether an entry exists after the current one.
    pub fn has_next(&self) -> (r: bool)
        requires
            self.wf(),
        ensures
            r == (self.entries@.len() > 0 && self.index + 1 < self.entries@.len()),
    {
        self.entries.len() > 0 && self.index + 1 < self.entries.len()
    }

    /// Records a newly displayed commit: any entries beyond the current one
    /// are dropped first (stale forward history), then the commit is appended
    /// and becomes current.
    pub fn record(&mut self, c: CommitMetadata)
        requires
            old(self).wf(),
        ensures
            final(self).wf(),
            final(self).entries@ == old(self).kept_entries().push(c),
            final(self).index + 1 == final(self).entries@.len(),
    {
        if self.entries.len() > 0 {
            self.entries.truncate(self.index + 1);
        }
        self.entries.push(c);
        self.index = self.entries.len() - 1;
        proof {
            assert(self.entries@ =~= old(self).kept_entries().push(c));
        }
    }

    /// The entries that recording keeps: everything up to and including the
    /// current one, or nothing while the history is empty.
    pub open spec fn kept_entries(&self) -> Seq<CommitMetadata> {
        if self.entries@.len() > 0 {
            self.entries@.subrange(0, self.index + 1)
        } else {
            self.entries@
        }
    }

    /// Moves back to the previous entry if one exists; replaying from history
    /// never touches the commit source.
    pub fn go_prev(&mut self) -> (moved: bool)
        requires
            old(self).wf(),
        ensures
            final(self).wf(),
            *final(self) == history_prev(*old(self)),
            moved == (old(self).entries@.len() > 0 && old(self).index > 0),
    {
        if self.entries.len() > 0 && self.index > 0 {
            self.index = self.index - 1;
            true
        } else {
            false
        }
    }

    /// Moves forward to the next entry if one exists; replaying from history
    /// never touches the commit source.
    pub fn go_next(&mut self) -> (moved: bool)
        requires
            old(self).wf(),
        ensures
            final(self).wf(),
            *final(self) == history_next(*old(self)),
            moved == (old(self).entries@.len() > 0 && old(self).index + 1
                < old(self).entries@.len()),
    {
        if self.entries.len() > 0 && self.index + 1 < self.entries.len() {
            self.index = self.index + 1;
            true
        } else {
            false
        }
    }

    /// The commit currently displayed, if any commit has been recorded.
    pub fn current(&self) -> (r: Option<&CommitMetadata>)
        requires
            self.wf(),
        ensures
            self.entries@.len() > 0 ==> r == Some(&self.entries@[self.index as int]),
            self.entries@.len() == 0 ==> r is None,
    {
        if self.entries.len() > 0 {
            Some(&self.entries[self.index])
        } else {
            None
        }
    }
}

} // verus!
