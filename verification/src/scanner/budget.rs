//! Scan budgets: a wall-clock limit, a visited-entry limit, or neither.

use vstd::prelude::*;

use crate::evidence::time::TimeSpan;

verus! {

/// Limits for one scan; `None` means unlimited on that axis.
#[derive(Debug, Clone, Copy)]
pub struct ScanBudget {
    max_duration: Option<TimeSpan>,
    max_files_visited: Option<u64>,
}

impl ScanBudget {
    pub closed spec fn spec_max_duration(self) -> Option<TimeSpan> {
        self.max_duration
    }

    pub closed spec fn spec_max_files_visited(self) -> Option<u64> {
        self.max_files_visited
    }

    pub fn unlimited() -> (b: ScanBudget)
        ensures
            b.spec_max_duration() is None,
            b.spec_max_files_visited() is None,
    {
        ScanBudget { max_duration: None, max_files_visited: None }
    }

    pub fn with_max_duration(self, max_duration: TimeSpan) -> (b: ScanBudget)
        ensures
            b.spec_max_duration() == Some(max_duration),
            b.spec_max_files_visited() == self.spec_max_files_visited(),
    {
        ScanBudget { max_duration: Some(max_duration), max_files_visited: self.max_files_visited }
    }

    pub fn with_max_files_visited(self, max_files_visited: u64) -> (b: ScanBudget)
        ensures
            b.spec_max_duration() == self.spec_max_duration(),
            b.spec_max_files_visited() == Some(max_files_visited),
    {
        ScanBudget { max_duration: self.max_duration, max_files_visited: Some(max_files_visited) }
    }

    /// A tracker for one walk under this budget, with nothing visited yet.
    pub fn tracker(&self) -> (t: BudgetTracker)
        ensures
            t.spec_budget() == *self,
            t.spec_files_visited() == 0,
            within_budget(t.spec_budget(), t.spec_files_visited()),
    {
        BudgetTracker { budget: *self, files_visited: 0 }
    }
}

impl Default for ScanBudget {
    fn default() -> (b: Self)
        ensures
            b.spec_max_duration() is None,
            b.spec_max_files_visited() is None,
    {
        ScanBudget::unlimited()
    }
}

/// Why a scan stopped.
#[derive(Debug, Clone, Copy, PartialEq, Eq, Structural)]
pub enum StopReason {
    /// The whole tree was walked.
    Exhausted,
    TimeBudget,
    FileCountBudget,
}

/// Counts visited entries against a budget. The elapsed time is read by
/// the caller and handed in.
pub struct BudgetTracker {
    budget: ScanBudget,
    files_visited: u64,
}

/// The verdict for a walk that has visited `visited` entries in `elapsed`:
/// the file-count limit first, then the time limit.
pub open spec fn spec_check(budget: ScanBudget, visited: u64, elapsed: TimeSpan) -> Option<StopReason> {
    if budget.spec_max_files_visited() matches Some(max) && visited >= max {
        Some(StopReason::FileCountBudget)
    } else if budget.spec_max_duration() matches Some(max) && elapsed.total_nanos()
        >= max.total_nanos() {
        Some(StopReason::TimeBudget)
    } else {
        None
    }
}

/// Whether a walk that has visited `visited` entries has used up its
/// file-count limit.
pub open spec fn budget_spent(budget: ScanBudget, visited: u64) -> bool {
    budget.spec_max_files_visited() matches Some(max) && visited >= max
}

/// The visit count is within the file-count limit, if there is one.
pub open spec fn within_budget(budget: ScanBudget, visited: u64) -> bool {
    budget.spec_max_files_visited() matches Some(max) ==> visited <= max
}

impl BudgetTracker {
    /// No visit is ever counted past the file-count limit.
    #[verifier::type_invariant]
    closed spec fn visits_within_limit(self) -> bool {
        within_budget(self.budget, self.files_visited)
    }

    pub closed spec fn spec_budget(self) -> ScanBudget {
        self.budget
    }

    pub closed spec fn spec_files_visited(self) -> u64 {
        self.files_visited
    }

    /// Whether the walk must stop now.
    pub fn check(&self, elapsed: TimeSpan) -> (r: Option<StopReason>)
        ensures
            r == spec_check(self.spec_budget(), self.spec_files_visited(), elapsed),
    {
        if let Some(max) = self.budget.max_files_visited {
            if self.files_visited >= max {
                return Some(StopReason::FileCountBudget);
            }
        }
        if let Some(max_duration) = self.budget.max_duration {
            if max_duration.le(&elapsed) {
                return Some(StopReason::TimeBudget);
            }
        }
        None
    }

    /// Count one more visited entry, then check. Once the file-count limit
    /// is used up, no further entry is admitted or counted.
    pub fn record_visit(&mut self, elapsed: TimeSpan) -> (r: Option<StopReason>)
        requires
            old(self).spec_files_visited() < u64::MAX,
        ensures
            final(self).spec_budget() == old(self).spec_budget(),
            within_budget(final(self).spec_budget(), final(self).spec_files_visited()),
            budget_spent(old(self).spec_budget(), old(self).spec_files_visited()) ==> {
                &&& final(self).spec_files_visited() == old(self).spec_files_visited()
                &&& r == Some(StopReason::FileCountBudget)
            },
            !budget_spent(old(self).spec_budget(), old(self).spec_files_visited()) ==> {
                &&& final(self).spec_files_visited() == old(self).spec_files_visited() + 1
                &&& r == spec_check(final(self).spec_budget(), final(self).spec_files_visited(), elapsed)
            },
    {
        proof {
            use_type_invariant(&*self);
        }
        if let Some(max) = self.budget.max_files_visited {
            if self.files_visited >= max {
                return Some(StopReason::FileCountBudget);
            }
        }
        self.files_visited = self.files_visited + 1;
        self.check(elapsed)
    }

    pub fn files_visited(&self) -> (n: u64)
        ensures
            n == self.spec_files_visited(),
            within_budget(self.spec_budget(), n),
    {
        proof {
            use_type_invariant(self);
        }
        self.files_visited
    }
}

} // verus!
