//! [`ProbeOutcome`]: an observation attempt that either produced a value or
//! explains why it did not. Deliberately not `Result`: there is no default
//! that could turn a failed probe into a safe-looking value.

use vstd::prelude::*;

verus! {

/// The outcome of one attempt to observe something about a resource.
#[derive(Debug, Clone, PartialEq, Eq)]
pub enum ProbeOutcome<T> {
    Observed(T),
    Unavailable(ProbeReason),
}

/// Why a probe did not produce an observed value.
#[derive(Debug, Clone, Copy, PartialEq, Eq)]
pub enum ProbeReason {
    ToolAbsent,
    ToolNotRunning,
    PermissionDenied,
    TimedOut,
    Failed,
    NotAttempted,
}

impl<T> ProbeOutcome<T> {
    pub fn observed(&self) -> (r: Option<&T>)
        ensures
            match self {
                ProbeOutcome::Observed(t) => r == Some(t),
                ProbeOutcome::Unavailable(_) => r is None,
            },
    {
        match self {
            ProbeOutcome::Observed(t) => Some(t),
            ProbeOutcome::Unavailable(_) => None,
        }
    }

    pub fn is_observed(&self) -> (r: bool)
        ensures
            r == (self is Observed),
    {
        self.observed().is_some()
    }
}

} // verus!
