//! Tunable thresholds for [`crate::policy::engine::classify`].

use vstd::prelude::*;

use crate::evidence::time::TimeSpan;

verus! {

/// Thresholds `classify` consults.
#[derive(Debug, Clone, PartialEq)]
pub struct PolicyConfig {
    /// Evidence older than this (relative to the `now` given to `classify`)
    /// is stale.
    pub max_evidence_age: TimeSpan,
}

impl Default for PolicyConfig {
    /// Five minutes.
    fn default() -> (c: PolicyConfig)
        ensures
            c.max_evidence_age.secs == 300,
            c.max_evidence_age.nanos == 0,
    {
        PolicyConfig { max_evidence_age: TimeSpan::from_secs(5 * 60) }
    }
}

} // verus!
