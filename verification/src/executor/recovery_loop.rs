//! Vocabulary of the bounded closed-loop recovery behind
//! `glomeris free --target <threshold>`: why a run stopped and what it
//! achieved. The loop only orchestrates measurement, discovery,
//! correlation, policy and the executor; it never bypasses policy, never
//! constructs an approval of its own, and never touches the filesystem
//! directly.

use vstd::prelude::*;

use crate::evidence::time::Timestamp;

verus! {

/// The current wall-clock time, as `classify` and `authorize` need it.
/// Distinct from the monotonic [`crate::monitor::clock::Clock`] that
/// measures the run's time budget.
pub trait WallClock {
    fn now(&self) -> Timestamp;
}

/// Why a recovery run stopped.
#[derive(Debug, Clone, PartialEq)]
pub enum StopReason {
    /// The free-space target was met.
    TargetReached,
    /// No `AutoSafe` candidate remains, and no `Ask` candidate remains or
    /// asking is not auto-approved.
    SafeExhausted,
    /// The iteration, action or time budget was reached.
    BudgetExceeded,
    /// Consecutive successful actions each freed nothing measurable.
    NoProgress,
    /// Measuring disk usage failed.
    Error(String),
}

/// Summary of one recovery run.
#[derive(Debug, Clone, PartialEq)]
pub struct RecoveryReport {
    pub stop_reason: StopReason,
    pub iterations_run: u32,
    pub actions_executed: u32,
    /// `Ask` candidates found but not executed, and candidates whose
    /// action failed or was aborted (skipped, never retried, for the rest
    /// of the run).
    pub actions_declined_or_skipped: u32,
    /// Sum of the actual (not expected) reclaimed bytes.
    pub total_bytes_freed: u64,
    pub started_free_bytes: u64,
    pub final_free_bytes: u64,
}

} // verus!
