//! Deterministic `AUTO_SAFE`/`ASK`/`PROTECTED` classification.

use vstd::prelude::*;

use super::class::{PolicyClass, ReasonCode};
use super::config::PolicyConfig;
use super::decision::PolicyDecision;
use super::protected::{protected_reason, spec_protected_reason};
use crate::evidence::model::{Completeness, Evidence, EvidenceField, ResourceKind};
use crate::evidence::time::Timestamp;

verus! {

/// The evidence is fresh: collected no later than `now`, and no more than
/// `cfg.max_evidence_age` before it.
pub open spec fn spec_fresh(ev: Evidence, cfg: PolicyConfig, now: Timestamp) -> bool {
    let age = now.nanos_since_epoch() - ev.collected_at.nanos_since_epoch();
    0 <= age <= cfg.max_evidence_age.total_nanos()
}

/// The class and reasons `classify` reaches, in rule order:
/// 1. an `Unknown` kind is Protected, unconditionally;
/// 2. a protected path/pattern is Protected, whatever the evidence;
/// 3. stale (or future-dated) evidence is Ask;
/// 4. evidence with every required field missing is Ask (probe failed);
/// 5. evidence with some required field missing is Ask (incomplete);
/// 6. otherwise AutoSafe.
pub open spec fn spec_classify(ev: Evidence, cfg: PolicyConfig, now: Timestamp) -> (PolicyClass, Seq<ReasonCode>) {
    if ev.resource.kind == ResourceKind::Unknown {
        (PolicyClass::Protected, seq![ReasonCode::ProtectedUnknownResourceKind])
    } else if let Some(reason) = spec_protected_reason(ev.resource) {
        (PolicyClass::Protected, seq![reason])
    } else if !spec_fresh(ev, cfg, now) {
        (PolicyClass::Ask, seq![ReasonCode::EvidenceStale])
    } else if ev.spec_missing().len() != 0 && ev.spec_missing().len()
        == ev.resource.kind.spec_required_evidence().len() {
        (PolicyClass::Ask, seq![ReasonCode::EvidenceProbeFailed])
    } else if ev.spec_missing().len() != 0 {
        (PolicyClass::Ask, seq![ReasonCode::EvidenceIncomplete])
    } else {
        (PolicyClass::AutoSafe, seq![ReasonCode::EvidenceFreshAndComplete])
    }
}

/// Classify one piece of evidence against `cfg`, as of `now`. Pure: `now`
/// is a parameter, never read from a clock, so the same call on freshly
/// re-collected evidence at deletion time gives the same answer rules.
pub fn classify(ev: &Evidence, cfg: &PolicyConfig, now: Timestamp) -> (d: PolicyDecision)
    ensures
        d.resource == ev.resource,
        d.class == spec_classify(*ev, *cfg, now).0,
        d.reasons@ == spec_classify(*ev, *cfg, now).1,
        d.evidence_collected_at == ev.collected_at,
        d.evaluated_at == now,
        d.policy_version == 1,
{
    let resource = ev.resource.duplicate();
    let mut reasons: Vec<ReasonCode> = Vec::new();
    let class;
    if ev.resource.kind == ResourceKind::Unknown {
        class = PolicyClass::Protected;
        reasons.push(ReasonCode::ProtectedUnknownResourceKind);
    } else if let Some(reason) = protected_reason(&ev.resource) {
        class = PolicyClass::Protected;
        reasons.push(reason);
    } else {
        let now_nanos: i128 = (now.secs as i128) * 1_000_000_000i128 + (now.nanos as i128);
        let then_nanos: i128 = (ev.collected_at.secs as i128) * 1_000_000_000i128
            + (ev.collected_at.nanos as i128);
        let max_nanos: i128 = (cfg.max_evidence_age.secs as i128) * 1_000_000_000i128
            + (cfg.max_evidence_age.nanos as i128);
        let age: i128 = now_nanos - then_nanos;
        if age < 0 || age > max_nanos {
            class = PolicyClass::Ask;
            reasons.push(ReasonCode::EvidenceStale);
        } else {
            match ev.completeness() {
                Completeness::Failed => {
                    class = PolicyClass::Ask;
                    reasons.push(ReasonCode::EvidenceProbeFailed);
                },
                Completeness::Partial { .. } => {
                    class = PolicyClass::Ask;
                    reasons.push(ReasonCode::EvidenceIncomplete);
                },
                Completeness::Complete => {
                    class = PolicyClass::AutoSafe;
                    reasons.push(ReasonCode::EvidenceFreshAndComplete);
                },
            }
        }
    }
    assert(reasons@ =~= spec_classify(*ev, *cfg, now).1);
    PolicyDecision {
        resource,
        class,
        reasons,
        evidence_collected_at: ev.collected_at,
        evaluated_at: now,
        policy_version: 1,
    }
}


/// A protected resource (an `Unknown` kind, or a protected path or
/// pattern) classifies `Protected` whatever its evidence, its freshness
/// or the configuration: nothing upgrades it to safe.
pub proof fn lemma_protected_stays_protected(ev: Evidence, cfg: PolicyConfig, now: Timestamp)
    requires
        ev.resource.kind == ResourceKind::Unknown || spec_protected_reason(ev.resource) is Some,
    ensures
        spec_classify(ev, cfg, now).0 == PolicyClass::Protected,
{
}

/// `AutoSafe` is reached only for an unprotected resource whose evidence
/// is fresh and has every required field observed.
pub proof fn lemma_auto_safe_requires_fresh_complete_evidence(ev: Evidence, cfg: PolicyConfig, now: Timestamp)
    requires
        spec_classify(ev, cfg, now).0 == PolicyClass::AutoSafe,
    ensures
        ev.resource.kind != ResourceKind::Unknown,
        spec_protected_reason(ev.resource) is None,
        spec_fresh(ev, cfg, now),
        ev.spec_missing().len() == 0,
{
}


/// A kind whose owning tool runs as a daemon.
pub open spec fn is_daemon_kind(k: ResourceKind) -> bool {
    k == ResourceKind::XcodeDerivedData || k == ResourceKind::DockerBuildCache || k
        == ResourceKind::DockerImageCache
}

/// Every kind needs the six path and size fields; tool liveness is needed
/// exactly by the kinds whose owning tool runs as a daemon (Xcode's
/// DerivedData and both Docker caches).
pub proof fn lemma_required_evidence_fields(k: ResourceKind)
    ensures
        k.spec_required_evidence().contains(EvidenceField::LogicalBytes),
        k.spec_required_evidence().contains(EvidenceField::ReclaimableBytes),
        k.spec_required_evidence().contains(EvidenceField::LastModified),
        k.spec_required_evidence().contains(EvidenceField::OpenByProcess),
        k.spec_required_evidence().contains(EvidenceField::ProcessCwdMatch),
        k.spec_required_evidence().contains(EvidenceField::GitState),
        k.spec_required_evidence().contains(EvidenceField::ToolLiveness) <==> is_daemon_kind(k),
{
    let r = k.spec_required_evidence();
    assert(r[0] == EvidenceField::LogicalBytes);
    assert(r[1] == EvidenceField::ReclaimableBytes);
    assert(r[2] == EvidenceField::LastModified);
    assert(r[3] == EvidenceField::OpenByProcess);
    assert(r[4] == EvidenceField::ProcessCwdMatch);
    assert(r[5] == EvidenceField::GitState);
    if is_daemon_kind(k) {
        assert(r[6] == EvidenceField::ToolLiveness);
    } else {
        assert(r.len() == 6);
        assert forall|i: int| 0 <= i < r.len() implies r[i] != EvidenceField::ToolLiveness by {}
    }
}

/// Evidence of a daemon-owned kind (Xcode's DerivedData, either Docker
/// cache) whose tool liveness was not observed is missing that field: it is
/// never complete and never classifies `AutoSafe`.
pub proof fn lemma_daemon_kind_without_liveness_is_not_auto_safe(
    ev: Evidence,
    cfg: PolicyConfig,
    now: Timestamp,
)
    requires
        is_daemon_kind(ev.resource.kind),
        !(ev.tool_liveness is Observed),
    ensures
        ev.spec_missing().contains(EvidenceField::ToolLiveness),
        !ev.spec_completeness_is(Completeness::Complete),
        spec_classify(ev, cfg, now).0 != PolicyClass::AutoSafe,
{
    lemma_required_evidence_fields(ev.resource.kind);
    let r = ev.resource.kind.spec_required_evidence();
    let i = choose|i: int| 0 <= i < r.len() && r[i] == EvidenceField::ToolLiveness;
    let pred = |f: EvidenceField| !ev.field_observed(f);
    r.lemma_filter_contains(pred, i);
    assert(ev.spec_missing() == r.filter(pred));
    assert(ev.spec_missing().len() != 0);
}


/// A protected resource of a known kind is reported with exactly its
/// protected reason.
pub proof fn lemma_protected_reason_is_reported(ev: Evidence, cfg: PolicyConfig, now: Timestamp)
    requires
        ev.resource.kind != ResourceKind::Unknown,
        spec_protected_reason(ev.resource) is Some,
    ensures
        spec_classify(ev, cfg, now).0 == PolicyClass::Protected,
        spec_classify(ev, cfg, now).1 == seq![spec_protected_reason(ev.resource)->0],
{
}


/// An unprotected resource of a known kind whose evidence is at most
/// `max_evidence_age` old and has every required field observed classifies
/// `AutoSafe`, for that reason alone.
pub proof fn lemma_fresh_complete_unprotected_is_auto_safe(ev: Evidence, cfg: PolicyConfig, now: Timestamp)
    requires
        ev.resource.kind != ResourceKind::Unknown,
        spec_protected_reason(ev.resource) is None,
        0 <= now.nanos_since_epoch() - ev.collected_at.nanos_since_epoch()
            <= cfg.max_evidence_age.total_nanos(),
        forall|i: int|
            0 <= i < ev.resource.kind.spec_required_evidence().len() ==> ev.field_observed(
                #[trigger] ev.resource.kind.spec_required_evidence()[i],
            ),
    ensures
        spec_classify(ev, cfg, now) == (PolicyClass::AutoSafe, seq![ReasonCode::EvidenceFreshAndComplete]),
{
    let r = ev.resource.kind.spec_required_evidence();
    let pred = |f: EvidenceField| !ev.field_observed(f);
    r.filter_lemma(pred);
    if ev.spec_missing().len() > 0 {
        let x = ev.spec_missing()[0];
        assert(ev.spec_missing() == r.filter(pred));
        assert(pred(x));
        assert(r.filter(pred).contains(x));
        r.lemma_filter_contains_rev(pred, x);
        let i = choose|i: int| 0 <= i < r.len() && r[i] == x;
        assert(ev.field_observed(r[i]));
    }
}

/// Evidence older than `max_evidence_age` (or dated after `now`) of an
/// unprotected resource of a known kind is never trusted: `Ask`, stale.
pub proof fn lemma_stale_evidence_asks(ev: Evidence, cfg: PolicyConfig, now: Timestamp)
    requires
        ev.resource.kind != ResourceKind::Unknown,
        spec_protected_reason(ev.resource) is None,
        !(0 <= now.nanos_since_epoch() - ev.collected_at.nanos_since_epoch()
            <= cfg.max_evidence_age.total_nanos()),
    ensures
        spec_classify(ev, cfg, now) == (PolicyClass::Ask, seq![ReasonCode::EvidenceStale]),
{
}

} // verus!
