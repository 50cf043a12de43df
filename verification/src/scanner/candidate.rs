//! One scanned entry.

use vstd::prelude::*;

verus! {

/// What a scanned entry is; scanning alone never classifies it.
#[derive(Debug, Clone, Copy, PartialEq, Eq, Structural)]
pub enum CandidateKind {
    Unknown,
}

/// Whether an entry's metadata could be read.
#[derive(Debug, Clone, Copy, PartialEq, Eq, Structural)]
pub enum EntryStatus {
    Complete,
    /// Permission denied, vanished mid-walk, or an I/O error.
    Incomplete,
}

/// One entry found by a scan.
#[derive(Debug, Clone, PartialEq, Eq)]
pub struct ScanCandidate {
    pub path: String,
    pub logical_size_bytes: u64,
    pub depth: usize,
    pub kind: CandidateKind,
    pub status: EntryStatus,
}

impl ScanCandidate {
    /// A measured entry: `path`, `size` bytes, at `depth`.
    pub open spec fn spec_complete(path: String, size: u64, depth: usize) -> ScanCandidate {
        ScanCandidate {
            path,
            logical_size_bytes: size,
            depth,
            kind: CandidateKind::Unknown,
            status: EntryStatus::Complete,
        }
    }

    pub fn new(path: String, logical_size_bytes: u64, depth: usize) -> (c: ScanCandidate)
        ensures
            c.path == path,
            c.logical_size_bytes == logical_size_bytes,
            c.depth == depth,
            c.kind == CandidateKind::Unknown,
            c.status == EntryStatus::Complete,
    {
        ScanCandidate {
            path,
            logical_size_bytes,
            depth,
            kind: CandidateKind::Unknown,
            status: EntryStatus::Complete,
        }
    }

    /// An exact copy.
    pub fn duplicate(&self) -> (c: ScanCandidate)
        ensures
            c == *self,
    {
        ScanCandidate {
            path: self.path.clone(),
            logical_size_bytes: self.logical_size_bytes,
            depth: self.depth,
            kind: self.kind,
            status: self.status,
        }
    }

    /// An entry whose metadata could not be read: no size is claimed.
    pub fn incomplete(path: String, depth: usize) -> (c: ScanCandidate)
        ensures
            c.path == path,
            c.logical_size_bytes == 0,
            c.depth == depth,
            c.kind == CandidateKind::Unknown,
            c.status == EntryStatus::Incomplete,
    {
        ScanCandidate {
            path,
            logical_size_bytes: 0,
            depth,
            kind: CandidateKind::Unknown,
            status: EntryStatus::Incomplete,
        }
    }
}

} // verus!
