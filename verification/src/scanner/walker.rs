//! A bounded, streaming walk of one directory tree: its configuration,
//! its state and result, and the bounded record of entries whose metadata
//! could not be read. Symlinks are never followed: each is recorded as its
//! own small candidate. Reading directories and metadata is I/O done by
//! the caller, which hands each finding to [`ScanWalk`].

use vstd::prelude::*;

use super::budget::{budget_spent, spec_check, within_budget, BudgetTracker, ScanBudget, StopReason};
use super::candidate::ScanCandidate;
use super::topk::TopKCandidates;
use crate::evidence::time::TimeSpan;

verus! {

/// How many unreadable entries are kept as samples; the count itself is
/// always exact.
pub const MAX_INCOMPLETE_SAMPLES: usize = 256;

/// Configuration for one scan.
#[derive(Debug, Clone)]
pub struct ScanOptions {
    pub root: String,
    /// How many candidates to retain.
    pub top_k: usize,
    pub budget: ScanBudget,
}

impl ScanOptions {
    pub fn new(root: String, top_k: usize) -> (o: ScanOptions)
        ensures
            o.root == root,
            o.top_k == top_k,
            o.budget.spec_max_duration() is None,
            o.budget.spec_max_files_visited() is None,
    {
        ScanOptions { root, top_k, budget: ScanBudget::unlimited() }
    }

    pub fn with_budget(self, budget: ScanBudget) -> (o: ScanOptions)
        ensures
            o.root == self.root,
            o.top_k == self.top_k,
            o.budget == budget,
    {
        ScanOptions { root: self.root, top_k: self.top_k, budget }
    }
}

/// Result of one scan.
#[derive(Debug)]
pub struct ScanReport {
    /// The retained candidates, largest first.
    pub candidates: Vec<ScanCandidate>,
    pub stop_reason: StopReason,
    pub files_visited: u64,
    /// Exact count of entries whose metadata could not be read.
    pub incomplete_entries: u64,
    /// A bounded sample of those entries.
    pub incomplete_samples: Vec<ScanCandidate>,
}

/// How many samples a log of `count` unreadable entries keeps: all of
/// them, up to the bound.
pub open spec fn sample_len(count: u64) -> nat {
    if count < MAX_INCOMPLETE_SAMPLES {
        count as nat
    } else {
        MAX_INCOMPLETE_SAMPLES as nat
    }
}

/// The unreadable-entry record of a walk: an exact count and a bounded
/// sample of the first ones.
pub struct IncompleteLog {
    count: u64,
    samples: Vec<ScanCandidate>,
}

impl IncompleteLog {
    /// The sample holds as many entries as the bound allows.
    #[verifier::type_invariant]
    closed spec fn sample_matches_count(self) -> bool {
        self.samples@.len() == sample_len(self.count)
    }

    pub closed spec fn spec_count(self) -> u64 {
        self.count
    }

    pub closed spec fn spec_samples(self) -> Seq<ScanCandidate> {
        self.samples@
    }

    pub fn new() -> (l: IncompleteLog)
        ensures
            l.spec_count() == 0,
            l.spec_samples().len() == 0,
    {
        IncompleteLog { count: 0, samples: Vec::new() }
    }

    /// How many unreadable entries were recorded.
    pub fn count(&self) -> (n: u64)
        ensures
            n == self.spec_count(),
    {
        self.count
    }

    /// The first recorded entries, as many as the bound allows.
    pub fn samples(&self) -> (s: &Vec<ScanCandidate>)
        ensures
            s@ == self.spec_samples(),
            s@.len() == sample_len(self.spec_count()),
    {
        proof {
            use_type_invariant(self);
        }
        &self.samples
    }

    /// The count and the samples.
    pub fn into_parts(self) -> (r: (u64, Vec<ScanCandidate>))
        ensures
            r.0 == self.spec_count(),
            r.1@ == self.spec_samples(),
            r.1@.len() == sample_len(r.0),
    {
        proof {
            use_type_invariant(&self);
        }
        let IncompleteLog { count, samples } = self;
        (count, samples)
    }

    /// Record one unreadable entry.
    pub fn record(&mut self, path: String, depth: usize)
        requires
            old(self).spec_count() < u64::MAX,
        ensures
            final(self).spec_count() == old(self).spec_count() + 1,
            old(self).spec_samples().len() < MAX_INCOMPLETE_SAMPLES ==> final(self).spec_samples()
                == old(self).spec_samples().push(
                ScanCandidate {
                    path,
                    logical_size_bytes: 0,
                    depth,
                    kind: super::candidate::CandidateKind::Unknown,
                    status: super::candidate::EntryStatus::Incomplete,
                },
            ),
            old(self).spec_samples().len() >= MAX_INCOMPLETE_SAMPLES ==> final(self).spec_samples()
                == old(self).spec_samples(),
    {
        let mut taken = IncompleteLog::new();
        std::mem::swap(&mut taken, self);
        proof {
            use_type_invariant(&taken);
        }
        let IncompleteLog { count, mut samples } = taken;
        if samples.len() < MAX_INCOMPLETE_SAMPLES {
            samples.push(ScanCandidate::incomplete(path, depth));
        }
        *self = IncompleteLog { count: count + 1, samples };
    }
}

/// What reading one directory entry found.
pub enum EntryProbe {
    /// The entry itself could not be read.
    Unreadable,
    /// The entry's metadata could not be read.
    MetadataFailed(String),
    /// A symbolic link, with its own on-disk size; never followed.
    Symlink { path: String, size: u64 },
    /// A directory, to be walked in turn.
    Dir(String),
    /// Anything else, with its size.
    File { path: String, size: u64 },
}

/// The state of one walk: the directories still to read (a stack), the
/// visit budget, the largest candidates so far, the unreadable entries,
/// and why it stopped early, if it did.
pub struct ScanWalk {
    stack: Vec<(String, usize)>,
    tracker: BudgetTracker,
    topk: TopKCandidates,
    incomplete: IncompleteLog,
    stopped: Option<StopReason>,
}

impl ScanWalk {
    pub closed spec fn spec_stack(self) -> Seq<(String, usize)> {
        self.stack@
    }

    pub closed spec fn spec_stopped(self) -> Option<StopReason> {
        self.stopped
    }

    pub closed spec fn spec_budget(self) -> ScanBudget {
        self.tracker.spec_budget()
    }

    pub closed spec fn spec_files_visited(self) -> u64 {
        self.tracker.spec_files_visited()
    }

    /// Every candidate offered to the top-k buffer so far, in order.
    pub closed spec fn spec_offered(self) -> Seq<ScanCandidate> {
        self.topk.spec_offered()
    }

    pub closed spec fn spec_k(self) -> nat {
        self.topk.spec_k()
    }

    pub closed spec fn spec_incomplete_count(self) -> u64 {
        self.incomplete.spec_count()
    }

    pub closed spec fn spec_incomplete_samples(self) -> Seq<ScanCandidate> {
        self.incomplete.spec_samples()
    }

    /// A walk of `options.root` that has read nothing yet.
    pub fn start(options: &ScanOptions) -> (w: ScanWalk)
        ensures
            w.spec_stack() == seq![(options.root, 0usize)],
            w.spec_stopped() is None,
            w.spec_budget() == options.budget,
            w.spec_files_visited() == 0,
            w.spec_offered().len() == 0,
            w.spec_k() == options.top_k,
            w.spec_incomplete_count() == 0,
            w.spec_incomplete_samples().len() == 0,
    {
        let mut stack: Vec<(String, usize)> = Vec::new();
        stack.push((options.root.clone(), 0));
        ScanWalk {
            stack,
            tracker: options.budget.tracker(),
            topk: TopKCandidates::new(options.top_k),
            incomplete: IncompleteLog::new(),
            stopped: None,
        }
    }

    /// The next directory to read, with its depth. `None` when the walk
    /// is over: it stopped earlier, nothing is left, or the budget (checked
    /// against `elapsed`) says stop now, which is then recorded.
    pub fn next_dir(&mut self, elapsed: TimeSpan) -> (r: Option<(String, usize)>)
        ensures
            final(self).spec_budget() == old(self).spec_budget(),
            final(self).spec_files_visited() == old(self).spec_files_visited(),
            final(self).spec_offered() == old(self).spec_offered(),
            final(self).spec_k() == old(self).spec_k(),
            final(self).spec_incomplete_count() == old(self).spec_incomplete_count(),
            final(self).spec_incomplete_samples() == old(self).spec_incomplete_samples(),
            old(self).spec_stopped() is Some || old(self).spec_stack().len() == 0 ==> {
                &&& r is None
                &&& final(self).spec_stack() == old(self).spec_stack()
                &&& final(self).spec_stopped() == old(self).spec_stopped()
            },
            old(self).spec_stopped() is None && old(self).spec_stack().len() > 0 ==> {
                let check = spec_check(old(self).spec_budget(), old(self).spec_files_visited(), elapsed);
                &&& final(self).spec_stack() == old(self).spec_stack().drop_last()
                &&& final(self).spec_stopped() == check
                &&& match check {
                    Some(_) => r is None,
                    None => r == Some(old(self).spec_stack().last()),
                }
            },
    {
        if self.stopped.is_some() {
            return None;
        }
        let top = match self.stack.pop() {
            Some(t) => t,
            None => return None,
        };
        match self.tracker.check(elapsed) {
            Some(reason) => {
                self.stopped = Some(reason);
                None
            },
            None => Some(top),
        }
    }

    /// The directory `dir` (at `depth`) could not be read.
    pub fn dir_unreadable(&mut self, dir: String, depth: usize)
        requires
            old(self).spec_incomplete_count() < u64::MAX,
        ensures
            final(self).spec_stack() == old(self).spec_stack(),
            final(self).spec_stopped() == old(self).spec_stopped(),
            final(self).spec_budget() == old(self).spec_budget(),
            final(self).spec_files_visited() == old(self).spec_files_visited(),
            final(self).spec_offered() == old(self).spec_offered(),
            final(self).spec_k() == old(self).spec_k(),
            final(self).spec_incomplete_count() == old(self).spec_incomplete_count() + 1,
            old(self).spec_incomplete_samples().len() < MAX_INCOMPLETE_SAMPLES ==> final(self).spec_incomplete_samples() == old(self).spec_incomplete_samples().push(
                ScanCandidate {
                    path: dir,
                    logical_size_bytes: 0,
                    depth,
                    kind: super::candidate::CandidateKind::Unknown,
                    status: super::candidate::EntryStatus::Incomplete,
                },
            ),
            old(self).spec_incomplete_samples().len() >= MAX_INCOMPLETE_SAMPLES ==> final(self).spec_incomplete_samples() == old(self).spec_incomplete_samples(),
    {
        self.incomplete.record(dir, depth);
    }

    /// One entry of the directory `dir` (read at `depth`). The entry is
    /// counted against the budget first; when that stops the walk, the
    /// entry goes no further and `false` is returned. Otherwise an
    /// unreadable entry is recorded against `dir`, one whose metadata
    /// failed against itself, a directory is queued one level deeper, and
    /// a link or any other entry is offered as a candidate with its own
    /// size, one level deeper. A walk that stopped takes no more entries.
    pub fn entry(&mut self, dir: &str, depth: usize, probe: EntryProbe, elapsed: TimeSpan) -> (r: bool)
        requires
            old(self).spec_files_visited() < u64::MAX,
            old(self).spec_incomplete_count() < u64::MAX,
            depth < usize::MAX,
        ensures
            final(self).spec_budget() == old(self).spec_budget(),
            final(self).spec_k() == old(self).spec_k(),
            old(self).spec_stopped() is Some ==> {
                &&& !r
                &&& final(self).spec_stack() == old(self).spec_stack()
                &&& final(self).spec_stopped() == old(self).spec_stopped()
                &&& final(self).spec_files_visited() == old(self).spec_files_visited()
                &&& final(self).spec_offered() == old(self).spec_offered()
                &&& final(self).spec_incomplete_count() == old(self).spec_incomplete_count()
                &&& final(self).spec_incomplete_samples() == old(self).spec_incomplete_samples()
            },
            old(self).spec_stopped() is None && budget_spent(old(self).spec_budget(), old(self).spec_files_visited()) ==> {
                &&& !r
                &&& final(self).spec_files_visited() == old(self).spec_files_visited()
                &&& final(self).spec_stopped() == Some(StopReason::FileCountBudget)
                &&& final(self).spec_stack() == old(self).spec_stack()
                &&& final(self).spec_offered() == old(self).spec_offered()
                &&& final(self).spec_incomplete_count() == old(self).spec_incomplete_count()
                &&& final(self).spec_incomplete_samples() == old(self).spec_incomplete_samples()
            },
            old(self).spec_stopped() is None && !budget_spent(old(self).spec_budget(), old(self).spec_files_visited()) ==> {
                let check = spec_check(old(self).spec_budget(), (old(self).spec_files_visited() + 1) as u64, elapsed);
                &&& final(self).spec_files_visited() == old(self).spec_files_visited() + 1
                &&& final(self).spec_stopped() == check
                &&& r == (check is None)
            },
            old(self).spec_stopped() is None && !budget_spent(old(self).spec_budget(), old(self).spec_files_visited()) && spec_check(
                old(self).spec_budget(),
                (old(self).spec_files_visited() + 1) as u64,
                elapsed,
            ) is Some ==> {
                &&& final(self).spec_stack() == old(self).spec_stack()
                &&& final(self).spec_offered() == old(self).spec_offered()
                &&& final(self).spec_incomplete_count() == old(self).spec_incomplete_count()
                &&& final(self).spec_incomplete_samples() == old(self).spec_incomplete_samples()
            },
            r ==> match probe {
                EntryProbe::Unreadable => {
                    &&& final(self).spec_stack() == old(self).spec_stack()
                    &&& final(self).spec_offered() == old(self).spec_offered()
                    &&& final(self).spec_incomplete_count() == old(self).spec_incomplete_count() + 1
                    &&& old(self).spec_incomplete_samples().len() < MAX_INCOMPLETE_SAMPLES ==> final(self).spec_incomplete_samples().drop_last() == old(self).spec_incomplete_samples()
                        && final(self).spec_incomplete_samples().last().path@ == dir@
                        && final(self).spec_incomplete_samples().last().depth == depth
                        && final(self).spec_incomplete_samples().last().logical_size_bytes == 0
                        && final(self).spec_incomplete_samples().last().kind == super::candidate::CandidateKind::Unknown
                        && final(self).spec_incomplete_samples().last().status == super::candidate::EntryStatus::Incomplete
                    &&& old(self).spec_incomplete_samples().len() >= MAX_INCOMPLETE_SAMPLES ==> final(self).spec_incomplete_samples() == old(self).spec_incomplete_samples()
                },
                EntryProbe::MetadataFailed(path) => {
                    &&& final(self).spec_stack() == old(self).spec_stack()
                    &&& final(self).spec_offered() == old(self).spec_offered()
                    &&& final(self).spec_incomplete_count() == old(self).spec_incomplete_count() + 1
                    &&& old(self).spec_incomplete_samples().len() < MAX_INCOMPLETE_SAMPLES ==> final(self).spec_incomplete_samples().drop_last() == old(self).spec_incomplete_samples()
                        && final(self).spec_incomplete_samples().last().path == path
                        && final(self).spec_incomplete_samples().last().depth == depth + 1
                        && final(self).spec_incomplete_samples().last().logical_size_bytes == 0
                        && final(self).spec_incomplete_samples().last().kind == super::candidate::CandidateKind::Unknown
                        && final(self).spec_incomplete_samples().last().status == super::candidate::EntryStatus::Incomplete
                    &&& old(self).spec_incomplete_samples().len() >= MAX_INCOMPLETE_SAMPLES ==> final(self).spec_incomplete_samples() == old(self).spec_incomplete_samples()
                },
                EntryProbe::Dir(path) => {
                    &&& final(self).spec_stack() == old(self).spec_stack().push((path, (depth + 1) as usize))
                    &&& final(self).spec_offered() == old(self).spec_offered()
                    &&& final(self).spec_incomplete_count() == old(self).spec_incomplete_count()
                    &&& final(self).spec_incomplete_samples() == old(self).spec_incomplete_samples()
                },
                EntryProbe::Symlink { path, size } => {
                    &&& final(self).spec_stack() == old(self).spec_stack()
                    &&& final(self).spec_offered() == old(self).spec_offered().push(
                        ScanCandidate::spec_complete(path, size, (depth + 1) as usize),
                    )
                    &&& final(self).spec_incomplete_count() == old(self).spec_incomplete_count()
                    &&& final(self).spec_incomplete_samples() == old(self).spec_incomplete_samples()
                },
                EntryProbe::File { path, size } => {
                    &&& final(self).spec_stack() == old(self).spec_stack()
                    &&& final(self).spec_offered() == old(self).spec_offered().push(
                        ScanCandidate::spec_complete(path, size, (depth + 1) as usize),
                    )
                    &&& final(self).spec_incomplete_count() == old(self).spec_incomplete_count()
                    &&& final(self).spec_incomplete_samples() == old(self).spec_incomplete_samples()
                },
            },
    {
        if self.stopped.is_some() {
            return false;
        }
        match self.tracker.record_visit(elapsed) {
            Some(reason) => {
                self.stopped = Some(reason);
                return false;
            },
            None => {},
        }
        let child_depth = depth + 1;
        match probe {
            EntryProbe::Unreadable => {
                self.incomplete.record(crate::text::owned(dir), depth);
            },
            EntryProbe::MetadataFailed(path) => {
                self.incomplete.record(path, child_depth);
            },
            EntryProbe::Dir(path) => {
                self.stack.push((path, child_depth));
            },
            EntryProbe::Symlink { path, size } => {
                self.topk.offer(ScanCandidate::new(path, size, child_depth));
            },
            EntryProbe::File { path, size } => {
                self.topk.offer(ScanCandidate::new(path, size, child_depth));
            },
        }
        true
    }

    /// The walk's result: the retained candidates largest first, why it
    /// stopped (`Exhausted` when nothing stopped it early), how many
    /// entries it visited, and the unreadable entries.
    pub fn finish(self) -> (r: ScanReport)
        ensures
            r.stop_reason == match self.spec_stopped() {
                Some(reason) => reason,
                None => StopReason::Exhausted,
            },
            r.files_visited == self.spec_files_visited(),
            within_budget(self.spec_budget(), r.files_visited),
            r.incomplete_entries == self.spec_incomplete_count(),
            r.incomplete_samples@ == self.spec_incomplete_samples(),
            r.incomplete_samples@.len() == sample_len(r.incomplete_entries),
            r.candidates@.len() == super::topk::min_nat(self.spec_k(), self.spec_offered().len()),
            super::topk::size_sorted(r.candidates@),
            forall|x: ScanCandidate|
                #[trigger] r.candidates@.to_multiset().count(x) <= self.spec_offered().to_multiset().count(x),
            forall|x: ScanCandidate, y: ScanCandidate|
                super::topk::discarded(self.spec_offered().to_multiset(), r.candidates@.to_multiset(), x)
                    && r.candidates@.contains(y) ==> #[trigger] x.logical_size_bytes
                    <= #[trigger] y.logical_size_bytes,
    {
        let ScanWalk { stack, tracker, topk, incomplete, stopped } = self;
        let (incomplete_entries, incomplete_samples) = incomplete.into_parts();
        let stop_reason = match stopped {
            Some(reason) => reason,
            None => StopReason::Exhausted,
        };
        ScanReport {
            candidates: topk.into_sorted_vec(),
            stop_reason,
            files_visited: tracker.files_visited(),
            incomplete_entries,
            incomplete_samples,
        }
    }
}

} // verus!
