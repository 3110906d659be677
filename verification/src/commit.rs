//! The commit data handed to the playback engine: a commit's identifier and
//! summary, its changed files, and each file's classified diff lines.

use vstd::prelude::*;

verus! {

/// Classification of one diff line.
#[derive(Clone, Copy, Debug, PartialEq, Eq, Structural)]
pub enum LineKind {
    Context,
    Added,
    Removed,
    Blank,
}

/// One line of a file's diff: its classification and its text.
#[derive(Debug)]
pub struct DiffLine {
    pub kind: LineKind,
    pub text: String,
}

/// One changed file: its path and its diff lines, in order.
#[derive(Debug)]
pub struct FileChange {
    pub path: String,
    pub lines: Vec<DiffLine>,
}

/// One commit as delivered by the commit source: an identifier, a short
/// summary, and the changed files in order.
#[derive(Debug)]
pub struct CommitMetadata {
    pub id: String,
    pub summary: String,
    pub files: Vec<FileChange>,
}

/// Two file changes carry the same path and the same diff lines.
pub open spec fn file_like(a: FileChange, b: FileChange) -> bool {
    a.path == b.path && a.lines@ == b.lines@
}

/// Two commits carry the same identifier, summary and files.
pub open spec fn commit_like(a: CommitMetadata, b: CommitMetadata) -> bool {
    &&& a.id == b.id
    &&& a.summary == b.summary
    &&& a.files@.len() == b.files@.len()
    &&& forall|i: int| 0 <= i < a.files@.len() ==> file_like(a.files@[i], b.files@[i])
}

impl Clone for DiffLine {
    fn clone(&self) -> (r: Self)
        ensures
            r == *self,
    {
        DiffLine { kind: self.kind, text: self.text.clone() }
    }
}

impl Clone for FileChange {
    fn clone(&self) -> (r: Self)
        ensures
            file_like(r, *self),
    {
        let mut lines: Vec<DiffLine> = Vec::new();
        let mut i: usize = 0;
        while i < self.lines.len()
            invariant
                i <= self.lines.len(),
                lines@.len() == i as int,
                forall|j: int| 0 <= j < i ==> lines@[j] == self.lines@[j],
            decreases self.lines.len() - i,
        {
            lines.push(self.lines[i].clone());
            i = i + 1;
        }
        let r = FileChange { path: self.path.clone(), lines };
        proof {
            assert(r.lines@ =~= self.lines@);
        }
        r
    }
}

impl Clone for CommitMetadata {
    fn clone(&self) -> (r: Self)
        ensures
            commit_like(r, *self),
    {
        let mut files: Vec<FileChange> = Vec::new();
        let mut i: usize = 0;
        while i < self.files.len()
            invariant
                i <= self.files.len(),
                files@.len() == i as int,
                forall|j: int| 0 <= j < i ==> file_like(files@[j], self.files@[j]),
            decreases self.files.len() - i,
        {
            files.push(self.files[i].clone());
            i = i + 1;
        }
        CommitMetadata { id: self.id.clone(), summary: self.summary.clone(), files }
    }
}

} // verus!
