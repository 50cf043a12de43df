//! The output of one [`crate::policy::engine::classify`] call.

use vstd::prelude::*;

use super::class::{PolicyClass, ReasonCode};
use crate::evidence::model::ResourceId;
use crate::evidence::time::Timestamp;

verus! {

/// One deterministic classification of a resource.
#[derive(Debug, Clone, PartialEq)]
pub struct PolicyDecision {
    pub resource: ResourceId,
    pub class: PolicyClass,
    /// Non-empty, most significant reason first.
    pub reasons: Vec<ReasonCode>,
    /// When the evidence this decision was computed from was collected.
    pub evidence_collected_at: Timestamp,
    /// The `now` that `classify` was given.
    pub evaluated_at: Timestamp,
    /// Bumped on any rule-semantics change to `classify`.
    pub policy_version: u32,
}

} // verus!
