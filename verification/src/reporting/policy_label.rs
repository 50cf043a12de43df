//! The report-facing label distinguishing `AUTO_SAFE` / `ASK` /
//! `PROTECTED` / `UNKNOWN_INCOMPLETE`.
//!
//! [`PolicyClass`] has three variants; `UNKNOWN_INCOMPLETE` is derived here
//! from the reason codes that mean "the evidence is not good enough to
//! judge", as opposed to an `Ask` reached because of an observed risk. It
//! is a read-only projection and never feeds back into classification.

use vstd::prelude::*;

use crate::policy::class::{PolicyClass, ReasonCode};
use crate::policy::decision::PolicyDecision;

verus! {

/// Report-facing classification label.
#[derive(Debug, Clone, Copy, PartialEq, Eq, Structural)]
pub enum PolicyLabel {
    AutoSafe,
    Ask,
    Protected,
    UnknownIncomplete,
}

impl PolicyLabel {
    pub open spec fn spec_as_str(self) -> Seq<char> {
        match self {
            PolicyLabel::AutoSafe => "AUTO_SAFE"@,
            PolicyLabel::Ask => "ASK"@,
            PolicyLabel::Protected => "PROTECTED"@,
            PolicyLabel::UnknownIncomplete => "UNKNOWN_INCOMPLETE"@,
        }
    }

    pub fn as_str(&self) -> (s: &'static str)
        ensures
            s@ == self.spec_as_str(),
    {
        match self {
            PolicyLabel::AutoSafe => "AUTO_SAFE",
            PolicyLabel::Ask => "ASK",
            PolicyLabel::Protected => "PROTECTED",
            PolicyLabel::UnknownIncomplete => "UNKNOWN_INCOMPLETE",
        }
    }
}

/// A reason that speaks of the evidence's quality (incomplete, stale, a
/// failed probe) rather than of the resource itself.
pub open spec fn is_evidence_quality_reason(r: ReasonCode) -> bool {
    r == ReasonCode::EvidenceIncomplete || r == ReasonCode::EvidenceProbeFailed
        || r == ReasonCode::EvidenceStale
}

/// An `Ask` with at least one evidence-quality reason is
/// `UNKNOWN_INCOMPLETE`; every other class maps to its own label.
pub open spec fn spec_label_for(class: PolicyClass, reasons: Seq<ReasonCode>) -> PolicyLabel {
    match class {
        PolicyClass::AutoSafe => PolicyLabel::AutoSafe,
        PolicyClass::Protected => PolicyLabel::Protected,
        PolicyClass::Ask => if exists|i: int|
            0 <= i < reasons.len() && #[trigger] is_evidence_quality_reason(reasons[i]) {
            PolicyLabel::UnknownIncomplete
        } else {
            PolicyLabel::Ask
        },
    }
}

/// The report-facing label of one decision.
pub fn label_for(decision: &PolicyDecision) -> (l: PolicyLabel)
    ensures
        l == spec_label_for(decision.class, decision.reasons@),
{
    let mut quality = false;
    let mut i: usize = 0;
    while i < decision.reasons.len()
        invariant
            0 <= i <= decision.reasons@.len(),
            quality == exists|j: int|
                0 <= j < i && #[trigger] is_evidence_quality_reason(decision.reasons@[j]),
        decreases decision.reasons@.len() - i,
    {
        let r = decision.reasons[i];
        let hit = r == ReasonCode::EvidenceIncomplete || r == ReasonCode::EvidenceProbeFailed
            || r == ReasonCode::EvidenceStale;
        assert(hit == is_evidence_quality_reason(decision.reasons@[i as int]));
        if hit {
            quality = true;
        }
        i = i + 1;
    }
    match decision.class {
        PolicyClass::AutoSafe => PolicyLabel::AutoSafe,
        PolicyClass::Protected => PolicyLabel::Protected,
        PolicyClass::Ask => if quality {
            PolicyLabel::UnknownIncomplete
        } else {
            PolicyLabel::Ask
        },
    }
}

} // verus!
