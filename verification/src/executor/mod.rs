//! Execution gate and reclaim accounting.
//!
//! The executor never trusts a previously computed decision: right before
//! mutating anything the caller re-collects evidence, and [`execute`]
//! re-runs classification on it and aborts unless the fresh read agrees
//! with what was approved. Filesystem reality wins. Running the plan's
//! steps is I/O done by the caller; what it reports back is accounted for
//! by [`PlanRun`], and the final identity guard before a deletion is
//! [`check_identity_unchanged`].

pub mod lock;
pub mod recovery_loop;

use vstd::prelude::*;

use crate::detectors::{discovery_evidence, DetectorId};
use crate::evidence::correlate::{merge_into, CorrelationResult};
use crate::evidence::model::{
    ActionId, Completeness, Evidence, NativeCleanup, Recoverability, ResourceId, ResourceLocator,
};
use crate::evidence::probe::{ProbeOutcome, ProbeReason};
use crate::evidence::time::Timestamp;
use crate::policy::approval::Approval;
use crate::policy::class::{PolicyClass, ReasonCode};
use crate::policy::config::PolicyConfig;
use crate::policy::decision::PolicyDecision;
use crate::policy::engine::{classify, spec_classify};
use crate::text::{decimal, push_decimal, push_str, string_from_chars};

verus! {

/// The outcome of one execution (or dry-run) attempt.
pub struct ExecutionReport {
    pub action: ActionId,
    pub resource: ResourceId,
    pub outcome: ExecutionOutcome,
    pub expected_reclaimed_bytes: ProbeOutcome<u64>,
    /// Measured after execution; never assumed equal to the expectation.
    pub actual_reclaimed_bytes: ProbeOutcome<u64>,
}

#[derive(Debug, PartialEq, Eq)]
pub enum ExecutionOutcome {
    /// Nothing was mutated; this is only the rendered plan.
    DryRun,
    Succeeded,
    Failed(String),
    /// The deletion-time revalidation tripped. Nothing was mutated.
    AbortedByRevalidation(AbortReason),
}

#[derive(Debug, Clone, Copy, PartialEq, Eq, Structural)]
pub enum AbortReason {
    /// The fingerprint changed between approval and execution: the
    /// resource was deleted, replaced or swapped.
    ResourceIdentityChanged,
    /// A fresh classification no longer gives the approved class.
    PolicyClassDowngraded,
    /// The fresh decision carries a reason the approved one did not:
    /// consent to one risk does not cover another.
    PolicyReasonsWidened,
    /// Fresh evidence is less complete than it was at plan time.
    EvidenceDegraded,
    RevalidationEvidenceStale,
}

/// Some fresh reason is absent from the planned ones.
pub open spec fn spec_reasons_widened(planned: Seq<ReasonCode>, fresh: Seq<ReasonCode>) -> bool {
    exists|i: int| 0 <= i < fresh.len() && !planned.contains(#[trigger] fresh[i])
}

fn contains_reason(v: &Vec<ReasonCode>, r: ReasonCode) -> (b: bool)
    ensures
        b == v@.contains(r),
{
    let mut i: usize = 0;
    while i < v.len()
        invariant
            0 <= i <= v@.len(),
            forall|j: int| 0 <= j < i ==> v@[j] != r,
        decreases v@.len() - i,
    {
        if v[i] == r {
            return true;
        }
        i = i + 1;
    }
    false
}

/// `Ask` is a heterogeneous bucket: a reason present in `fresh` but not in
/// `planned` means the consent granted against `planned` does not cover
/// the freshly observed risk.
pub fn reasons_widened(planned: &Vec<ReasonCode>, fresh: &Vec<ReasonCode>) -> (b: bool)
    ensures
        b == spec_reasons_widened(planned@, fresh@),
{
    let mut i: usize = 0;
    while i < fresh.len()
        invariant
            0 <= i <= fresh@.len(),
            forall|j: int| 0 <= j < i ==> planned@.contains(#[trigger] fresh@[j]),
        decreases fresh@.len() - i,
    {
        if !contains_reason(planned, fresh[i]) {
            return true;
        }
        i = i + 1;
    }
    false
}

/// The rank of a completeness: 0 complete, 1 partial, 2 failed.
pub open spec fn spec_completeness_rank(c: Completeness) -> int {
    match c {
        Completeness::Complete => 0,
        Completeness::Partial { .. } => 1,
        Completeness::Failed => 2,
    }
}

pub fn completeness_rank(completeness: &Completeness) -> (r: u8)
    ensures
        r as int == spec_completeness_rank(*completeness),
{
    match completeness {
        Completeness::Complete => 0,
        Completeness::Partial { .. } => 1,
        Completeness::Failed => 2,
    }
}

/// The completeness rank a decision implies: `AutoSafe` only comes from
/// complete evidence, and the partial and failed cases carry their own
/// reason codes.
pub open spec fn spec_rank_from_decision(class: PolicyClass, reasons: Seq<ReasonCode>) -> int {
    if class == PolicyClass::AutoSafe {
        0
    } else if reasons.contains(ReasonCode::EvidenceProbeFailed) {
        2
    } else if reasons.contains(ReasonCode::EvidenceIncomplete) {
        1
    } else {
        0
    }
}

pub fn completeness_rank_from_decision(decision: &PolicyDecision) -> (r: u8)
    ensures
        r as int == spec_rank_from_decision(decision.class, decision.reasons@),
{
    if decision.class == PolicyClass::AutoSafe {
        return 0;
    }
    if contains_reason(&decision.reasons, ReasonCode::EvidenceProbeFailed) {
        return 2;
    }
    if contains_reason(&decision.reasons, ReasonCode::EvidenceIncomplete) {
        return 1;
    }
    0
}

/// The rank of the completeness `ev` has.
pub open spec fn evidence_rank(ev: Evidence) -> int {
    let missing = ev.spec_missing().len();
    let required = ev.resource.kind.spec_required_evidence().len();
    if missing == 0 {
        0
    } else if missing == required {
        2
    } else {
        1
    }
}

/// The revalidation verdict, checks in order: the fingerprint must be
/// unchanged, the fresh class equal to the approved one, no reason may
/// have widened, and completeness must not have degraded.
pub open spec fn spec_revalidate(
    approved: PolicyDecision,
    approved_fingerprint: crate::evidence::model::ResourceFingerprint,
    fresh: Evidence,
    cfg: PolicyConfig,
    now: Timestamp,
) -> Option<AbortReason> {
    let (class, reasons) = spec_classify(fresh, cfg, now);
    if fresh.fingerprint@ != approved_fingerprint@ {
        Some(AbortReason::ResourceIdentityChanged)
    } else if class != approved.class {
        Some(AbortReason::PolicyClassDowngraded)
    } else if spec_reasons_widened(approved.reasons@, reasons) {
        Some(AbortReason::PolicyReasonsWidened)
    } else if evidence_rank(fresh) > spec_rank_from_decision(approved.class, approved.reasons@) {
        Some(AbortReason::EvidenceDegraded)
    } else {
        None
    }
}

/// The report of an attempt that revalidation aborted: nothing ran, so
/// neither byte figure is available.
pub fn aborted_report(action: ActionId, resource: ResourceId, reason: AbortReason) -> (r:
    ExecutionReport)
    ensures
        r.action == action,
        r.resource == resource,
        r.outcome == ExecutionOutcome::AbortedByRevalidation(reason),
        r.expected_reclaimed_bytes == ProbeOutcome::<u64>::Unavailable(ProbeReason::NotAttempted),
        r.actual_reclaimed_bytes == ProbeOutcome::<u64>::Unavailable(ProbeReason::NotAttempted),
{
    ExecutionReport {
        action,
        resource,
        outcome: ExecutionOutcome::AbortedByRevalidation(reason),
        expected_reclaimed_bytes: ProbeOutcome::Unavailable(ProbeReason::NotAttempted),
        actual_reclaimed_bytes: ProbeOutcome::Unavailable(ProbeReason::NotAttempted),
    }
}

/// The report of an attempt that failed with `message`.
pub fn failed_report(
    action: ActionId,
    resource: ResourceId,
    message: String,
    expected_reclaimed_bytes: ProbeOutcome<u64>,
) -> (r: ExecutionReport)
    ensures
        r.action == action,
        r.resource == resource,
        r.outcome == ExecutionOutcome::Failed(message),
        r.expected_reclaimed_bytes == expected_reclaimed_bytes,
        r.actual_reclaimed_bytes == ProbeOutcome::<u64>::Unavailable(ProbeReason::NotAttempted),
{
    ExecutionReport {
        action,
        resource,
        outcome: ExecutionOutcome::Failed(message),
        expected_reclaimed_bytes,
        actual_reclaimed_bytes: ProbeOutcome::Unavailable(ProbeReason::NotAttempted),
    }
}

/// The execution gate. `fresh_evidence` is the resource's evidence
/// re-collected right before mutation. Re-runs classification on it and
/// either aborts, with the report to return, or yields the fresh decision
/// that the plan is then built against. There is no way to proceed
/// without an [`Approval`].
pub fn execute(
    action: ActionId,
    approval: &Approval,
    fresh_evidence: &Evidence,
    cfg: &PolicyConfig,
    now: Timestamp,
) -> (r: Result<PolicyDecision, ExecutionReport>)
    ensures
        match r {
            Ok(d) => {
                &&& spec_revalidate(
                    approval.spec_decision(),
                    approval.spec_fingerprint(),
                    *fresh_evidence,
                    *cfg,
                    now,
                ) is None
                &&& d.resource == fresh_evidence.resource
                &&& d.class == spec_classify(*fresh_evidence, *cfg, now).0
                &&& d.reasons@ == spec_classify(*fresh_evidence, *cfg, now).1
            },
            Err(report) => {
                &&& spec_revalidate(
                    approval.spec_decision(),
                    approval.spec_fingerprint(),
                    *fresh_evidence,
                    *cfg,
                    now,
                ) == Some(report.outcome->AbortedByRevalidation_0)
                &&& report.outcome is AbortedByRevalidation
                &&& report.action == action
                &&& report.resource == approval.spec_decision().resource
                &&& report.expected_reclaimed_bytes == ProbeOutcome::<u64>::Unavailable(
                    ProbeReason::NotAttempted,
                )
                &&& report.actual_reclaimed_bytes == ProbeOutcome::<u64>::Unavailable(
                    ProbeReason::NotAttempted,
                )
            },
        },
        fresh_evidence.fingerprint@.dev_ino != approval.spec_fingerprint()@.dev_ino
            || fresh_evidence.fingerprint@.mtime != approval.spec_fingerprint()@.mtime
            || fresh_evidence.fingerprint@.tool_revision != approval.spec_fingerprint()@.tool_revision
            ==> (r matches Err(report) && report.outcome == ExecutionOutcome::AbortedByRevalidation(
            AbortReason::ResourceIdentityChanged,
        )),
        r matches Ok(_) ==> fresh_evidence.fingerprint@ == approval.spec_fingerprint()@,
{
    let approved = approval.decision();
    let resource = approved.resource.duplicate();
    if !fresh_evidence.fingerprint.same_as(approval.fingerprint()) {
        return Err(aborted_report(action, resource, AbortReason::ResourceIdentityChanged));
    }
    let fresh = classify(fresh_evidence, cfg, now);
    if fresh.class != approved.class {
        return Err(aborted_report(action, resource, AbortReason::PolicyClassDowngraded));
    }
    if reasons_widened(&approved.reasons, &fresh.reasons) {
        return Err(aborted_report(action, resource, AbortReason::PolicyReasonsWidened));
    }
    let planned_rank = completeness_rank_from_decision(approved);
    let fresh_rank = completeness_rank(&fresh_evidence.completeness());
    if fresh_rank > planned_rank {
        return Err(aborted_report(action, resource, AbortReason::EvidenceDegraded));
    }
    Ok(fresh)
}

/// The detector id revalidation evidence is stamped with.
pub open spec fn revalidation_detector() -> DetectorId {
    DetectorId("executor_revalidation")
}

/// The time budget, in seconds, of the correlation pass run for
/// revalidation, so a deletion never stalls indefinitely.
pub const REVALIDATION_TIMEOUT_SECS: u64 = 5;

/// What re-measuring a path-located resource found right before acting.
pub struct PathMeasurement {
    pub dev_ino: Option<(u64, u64)>,
    pub logical_bytes: ProbeOutcome<u64>,
    pub last_modified: ProbeOutcome<Timestamp>,
}

/// Evidence rebuilt at deletion time from a fresh measurement and a fresh
/// correlation pass, and stamped `now`. A path-located resource carries
/// the measurement, its reclaimable size being the same estimate as its
/// logical size; a tool-located one has nothing measured. Regenerability
/// comes from the kind, recoverability from the action about to run.
pub open spec fn is_fresh_evidence(
    e: Evidence,
    resource: ResourceId,
    m: PathMeasurement,
    recoverability: Recoverability,
    c: CorrelationResult,
    now: Timestamp,
) -> bool {
    let path_located = resource.locator is Path;
    let (dev_ino, bytes, mtime) = if path_located {
        (m.dev_ino, m.logical_bytes, m.last_modified)
    } else {
        (
            None,
            ProbeOutcome::Unavailable(ProbeReason::NotAttempted),
            ProbeOutcome::Unavailable(ProbeReason::NotAttempted),
        )
    };
    &&& e.resource == resource
    &&& e.fingerprint.dev_ino == dev_ino
    &&& e.fingerprint.mtime == crate::detectors::spec_observed(mtime)
    &&& e.fingerprint.tool_revision is None
    &&& e.detector == revalidation_detector()
    &&& e.logical_bytes == bytes
    &&& e.physical_bytes is None
    &&& e.reclaimable_bytes == bytes
    &&& !e.reclaimable_bytes_is_lower_bound
    &&& e.last_modified == mtime
    &&& e.last_accessed == ProbeOutcome::<Timestamp>::Unavailable(ProbeReason::NotAttempted)
    &&& e.regenerability == resource.kind.spec_regenerability()
    &&& e.recoverability == recoverability
    &&& e.native_cleanup == NativeCleanup::Unsupported
    &&& e.open_by_process == c.open_by_process
    &&& e.process_cwd_match == c.process_cwd_match
    &&& e.git_state == c.git_state
    &&& e.tool_liveness == c.tool_liveness
    &&& e.collected_at == now
    &&& e.sources@.len() == 0
}

/// The evidence revalidation classifies (see [`is_fresh_evidence`]).
pub fn build_fresh_evidence(
    resource: &ResourceId,
    measurement: PathMeasurement,
    recoverability: Recoverability,
    correlation: CorrelationResult,
    now: Timestamp,
) -> (e: Evidence)
    ensures
        is_fresh_evidence(e, *resource, measurement, recoverability, correlation, now),
{
    let ghost m0 = measurement;
    let (dev_ino, logical_bytes, last_modified) = match &resource.locator {
        ResourceLocator::Path(_) => (
            measurement.dev_ino,
            measurement.logical_bytes,
            measurement.last_modified,
        ),
        ResourceLocator::Tool { .. } => (
            None,
            ProbeOutcome::Unavailable(ProbeReason::NotAttempted),
            ProbeOutcome::Unavailable(ProbeReason::NotAttempted),
        ),
    };
    let reclaimable = crate::detectors::copy_bytes(&logical_bytes);
    let mut evidence = discovery_evidence(
        resource.duplicate(),
        DetectorId("executor_revalidation"),
        dev_ino,
        logical_bytes,
        reclaimable,
        false,
        last_modified,
        resource.kind.regenerability(),
        recoverability,
        NativeCleanup::Unsupported,
        now,
    );
    merge_into(&mut evidence, correlation);
    evidence.collected_at = now;
    evidence
}

/// A reason never widens against itself: re-approving the same reasons is
/// never refused on that ground.
pub proof fn lemma_same_reasons_never_widen(reasons: Seq<ReasonCode>)
    ensures
        !spec_reasons_widened(reasons, reasons),
{
    assert forall|i: int| 0 <= i < reasons.len() implies reasons.contains(#[trigger] reasons[i]) by {
    }
}

/// Revalidation passes when nothing changed: the same fingerprint, the
/// evidence classifies to the approved class and reasons, and it is no
/// less complete than the approved decision implies.
pub proof fn lemma_unchanged_resource_passes_revalidation(
    approved: PolicyDecision,
    fp: crate::evidence::model::ResourceFingerprint,
    fresh: Evidence,
    cfg: PolicyConfig,
    now: Timestamp,
)
    requires
        fresh.fingerprint@ == fp@,
        spec_classify(fresh, cfg, now).0 == approved.class,
        spec_classify(fresh, cfg, now).1 == approved.reasons@,
        evidence_rank(fresh) <= spec_rank_from_decision(approved.class, approved.reasons@),
    ensures
        spec_revalidate(approved, fp, fresh, cfg, now) is None,
{
    lemma_same_reasons_never_widen(approved.reasons@);
}

/// Accounting for one plan being run step by step by the caller.
pub struct PlanRun {
    pub action: ActionId,
    pub resource: ResourceId,
    pub expected_reclaimed_bytes: ProbeOutcome<u64>,
    /// Bytes removed by the deletion steps so far.
    pub deleted_bytes: u64,
    pub saw_run_tool: bool,
    pub saw_delete: bool,
}

/// What was actually reclaimed: unknowable once an external tool ran,
/// the measured total when only deletions ran, nothing when no step ran.
pub open spec fn spec_actual_reclaimed(saw_run_tool: bool, saw_delete: bool, total: u64) -> ProbeOutcome<u64> {
    if saw_run_tool {
        ProbeOutcome::Unavailable(ProbeReason::NotAttempted)
    } else if saw_delete {
        ProbeOutcome::Observed(total)
    } else {
        ProbeOutcome::Unavailable(ProbeReason::NotAttempted)
    }
}

/// A plan step that completed.
pub enum StepDone {
    /// An external tool exited successfully.
    ToolRan,
    /// A deletion removed this many bytes.
    PathDeleted(u64),
}

/// The run after one more completed step.
pub open spec fn after_step(run: PlanRun, step: StepDone) -> PlanRun {
    match step {
        StepDone::ToolRan => PlanRun { saw_run_tool: true, ..run },
        StepDone::PathDeleted(bytes) => PlanRun {
            saw_delete: true,
            deleted_bytes: if run.deleted_bytes + bytes > u64::MAX {
                u64::MAX
            } else {
                (run.deleted_bytes + bytes) as u64
            },
            ..run
        },
    }
}

/// The run after `steps` completed, in order.
pub open spec fn after_steps(run: PlanRun, steps: Seq<StepDone>) -> PlanRun
    decreases steps.len(),
{
    if steps.len() == 0 {
        run
    } else {
        after_step(after_steps(run, steps.drop_last()), steps.last())
    }
}

/// The bytes the deletion steps among `steps` removed.
pub open spec fn deleted_total(steps: Seq<StepDone>) -> int
    decreases steps.len(),
{
    if steps.len() == 0 {
        0
    } else {
        deleted_total(steps.drop_last()) + match steps.last() {
            StepDone::PathDeleted(bytes) => bytes as int,
            StepDone::ToolRan => 0,
        }
    }
}

/// What a plan reclaimed once `steps` all completed: unknowable when any
/// step ran an external tool, the sum of the deletions when only deletions
/// ran, nothing when there was no step.
pub proof fn lemma_plan_accounting(run: PlanRun, steps: Seq<StepDone>)
    requires
        !run.saw_run_tool,
        !run.saw_delete,
        run.deleted_bytes == 0,
        deleted_total(steps) <= u64::MAX,
    ensures
        after_steps(run, steps).action == run.action,
        after_steps(run, steps).resource == run.resource,
        after_steps(run, steps).expected_reclaimed_bytes == run.expected_reclaimed_bytes,
        spec_actual_reclaimed(
            after_steps(run, steps).saw_run_tool,
            after_steps(run, steps).saw_delete,
            after_steps(run, steps).deleted_bytes,
        ) == if exists|i: int| 0 <= i < steps.len() && #[trigger] steps[i] is ToolRan {
            ProbeOutcome::<u64>::Unavailable(ProbeReason::NotAttempted)
        } else if steps.len() > 0 {
            ProbeOutcome::Observed(deleted_total(steps) as u64)
        } else {
            ProbeOutcome::<u64>::Unavailable(ProbeReason::NotAttempted)
        },
{
    lemma_after_steps_fields(run, steps);
}

proof fn lemma_deleted_total_monotone(steps: Seq<StepDone>)
    ensures
        deleted_total(steps.drop_last()) <= deleted_total(steps) || steps.len() == 0,
        deleted_total(steps) >= 0,
    decreases steps.len(),
{
    if steps.len() > 0 {
        lemma_deleted_total_monotone(steps.drop_last());
    }
}

proof fn lemma_after_steps_fields(run: PlanRun, steps: Seq<StepDone>)
    requires
        !run.saw_run_tool,
        !run.saw_delete,
        run.deleted_bytes == 0,
        deleted_total(steps) <= u64::MAX,
    ensures
        after_steps(run, steps).action == run.action,
        after_steps(run, steps).resource == run.resource,
        after_steps(run, steps).expected_reclaimed_bytes == run.expected_reclaimed_bytes,
        after_steps(run, steps).saw_run_tool <==> exists|i: int| 0 <= i < steps.len() && #[trigger] steps[i] is ToolRan,
        after_steps(run, steps).saw_delete <==> exists|i: int| 0 <= i < steps.len() && #[trigger] steps[i] is PathDeleted,
        after_steps(run, steps).deleted_bytes == deleted_total(steps),
    decreases steps.len(),
{
    if steps.len() > 0 {
        let front = steps.drop_last();
        lemma_deleted_total_monotone(steps);
        lemma_after_steps_fields(run, front);
        assert forall|i: int| 0 <= i < front.len() implies front[i] == #[trigger] steps[i] by {}
        if exists|i: int| 0 <= i < steps.len() && #[trigger] steps[i] is ToolRan {
            let i = choose|i: int| 0 <= i < steps.len() && #[trigger] steps[i] is ToolRan;
            if i < front.len() {
                assert(front[i] is ToolRan);
            }
        }
        if exists|i: int| 0 <= i < steps.len() && #[trigger] steps[i] is PathDeleted {
            let i = choose|i: int| 0 <= i < steps.len() && #[trigger] steps[i] is PathDeleted;
            if i < front.len() {
                assert(front[i] is PathDeleted);
            }
        }
        if after_steps(run, front).saw_run_tool {
            let i = choose|i: int| 0 <= i < front.len() && #[trigger] front[i] is ToolRan;
            assert(steps[i] is ToolRan);
        }
        if after_steps(run, front).saw_delete {
            let i = choose|i: int| 0 <= i < front.len() && #[trigger] front[i] is PathDeleted;
            assert(steps[i] is PathDeleted);
        }
        assert(steps[steps.len() - 1] == steps.last());
    }
}

proof fn lemma_after_steps_keeps(run: PlanRun, steps: Seq<StepDone>)
    ensures
        after_steps(run, steps).action == run.action,
        after_steps(run, steps).resource == run.resource,
        after_steps(run, steps).expected_reclaimed_bytes == run.expected_reclaimed_bytes,
    decreases steps.len(),
{
    if steps.len() > 0 {
        lemma_after_steps_keeps(run, steps.drop_last());
    }
}

/// What performing one plan step gave.
pub enum StepResult {
    Completed(StepDone),
    Failed(String),
}

/// The step each outcome stands for, read as completed.
pub open spec fn done_step(o: StepResult) -> StepDone {
    match o {
        StepResult::Completed(d) => d,
        StepResult::Failed(_) => StepDone::ToolRan,
    }
}

/// The completed steps among `outcomes`, in order.
pub open spec fn completed_steps(outcomes: Seq<StepResult>) -> Seq<StepDone> {
    outcomes.map_values(|o: StepResult| done_step(o))
}

/// The report of a plan run that saw `outcomes`, in order: the first
/// failure ends it as `Failed` with nothing measured; otherwise it
/// succeeded with what the completed steps account for.
pub open spec fn plan_report(run: PlanRun, outcomes: Seq<StepResult>) -> ExecutionReport {
    if outcomes.len() > 0 && outcomes.last() is Failed {
        ExecutionReport {
            action: run.action,
            resource: run.resource,
            outcome: ExecutionOutcome::Failed(outcomes.last()->Failed_0),
            expected_reclaimed_bytes: run.expected_reclaimed_bytes,
            actual_reclaimed_bytes: ProbeOutcome::Unavailable(ProbeReason::NotAttempted),
        }
    } else {
        let end = after_steps(run, completed_steps(outcomes));
        ExecutionReport {
            action: run.action,
            resource: run.resource,
            outcome: ExecutionOutcome::Succeeded,
            expected_reclaimed_bytes: run.expected_reclaimed_bytes,
            actual_reclaimed_bytes: spec_actual_reclaimed(end.saw_run_tool, end.saw_delete, end.deleted_bytes),
        }
    }
}

/// `outcomes` are what `perform` gave for steps `0, 1, ...` in order: every
/// step but the last completed, and the run went on until a step failed or
/// all `count` steps ran.
pub open spec fn performed_in_order<F: Fn(usize) -> StepResult>(
    perform: F,
    count: nat,
    outcomes: Seq<StepResult>,
) -> bool {
    &&& outcomes.len() <= count
    &&& forall|i: int|
        0 <= i < outcomes.len() ==> call_ensures(perform, (i as usize,), #[trigger] outcomes[i])
    &&& forall|i: int| 0 <= i < outcomes.len() - 1 ==> #[trigger] outcomes[i] is Completed
    &&& outcomes.len() < count ==> outcomes.len() > 0 && outcomes.last() is Failed
}

/// Runs the `count` steps of a plan in order with `perform`, stopping at
/// the first step that fails; no later step is performed.
pub fn run_plan<F: Fn(usize) -> StepResult>(run: PlanRun, count: usize, perform: F) -> (r: ExecutionReport)
    requires
        forall|i: usize| i < count ==> call_requires(perform, (i,)),
    ensures
        exists|outcomes: Seq<StepResult>|
            performed_in_order(perform, count as nat, outcomes) && r == plan_report(run, outcomes),
{
    let ghost run0 = run;
    let mut cur = run;
    let ghost mut outcomes: Seq<StepResult> = Seq::empty();
    let mut i: usize = 0;
    assert(completed_steps(outcomes) =~= Seq::<StepDone>::empty());
    while i < count
        invariant
            i <= count,
            outcomes.len() == i,
            forall|k: usize| k < count ==> call_requires(perform, (k,)),
            forall|j: int| 0 <= j < i ==> call_ensures(perform, (j as usize,), #[trigger] outcomes[j]),
            forall|j: int| 0 <= j < i ==> #[trigger] outcomes[j] is Completed,
            cur == after_steps(run0, completed_steps(outcomes)),
            run0 == run,
        decreases count - i,
    {
        let res = perform(i);
        let ghost seen = res;
        let ghost before = outcomes;
        proof {
            outcomes = outcomes.push(seen);
            assert(completed_steps(outcomes) =~= completed_steps(before).push(done_step(seen)));
            assert(completed_steps(outcomes).drop_last() =~= completed_steps(before));
        }
        match res {
            StepResult::Failed(message) => {
                let r = cur.fail(message);
                proof {
                    lemma_after_steps_keeps(run0, completed_steps(before));
                    assert(performed_in_order(perform, count as nat, outcomes)) by {
                        assert forall|j: int| 0 <= j < outcomes.len() implies call_ensures(
                            perform,
                            (j as usize,),
                            #[trigger] outcomes[j],
                        ) by {
                            if j < i {
                                assert(outcomes[j] == before[j]);
                            }
                        }
                        assert forall|j: int| 0 <= j < outcomes.len() - 1 implies #[trigger] outcomes[j] is Completed by {
                            assert(outcomes[j] == before[j]);
                        }
                    }
                    assert(r == plan_report(run0, outcomes));
                }
                return r;
            },
            StepResult::Completed(step) => {
                match step {
                    StepDone::ToolRan => cur.tool_succeeded(),
                    StepDone::PathDeleted(bytes) => cur.path_deleted(bytes),
                }
            },
        }
        proof {
            assert forall|j: int| 0 <= j < i + 1 implies call_ensures(
                perform,
                (j as usize,),
                #[trigger] outcomes[j],
            ) by {
                if j < i {
                    assert(outcomes[j] == before[j]);
                }
            }
            assert forall|j: int| 0 <= j < i + 1 implies #[trigger] outcomes[j] is Completed by {
                if j < i {
                    assert(outcomes[j] == before[j]);
                }
            }
        }
        i = i + 1;
    }
    let r = cur.finish();
    proof {
        lemma_after_steps_keeps(run0, completed_steps(outcomes));
    }
    assert(performed_in_order(perform, count as nat, outcomes));
    assert(r == plan_report(run0, outcomes));
    r
}

impl PlanRun {
    pub fn start(action: ActionId, resource: ResourceId, expected_reclaimed_bytes: ProbeOutcome<u64>) -> (r: PlanRun)
        ensures
            r.action == action,
            r.resource == resource,
            r.expected_reclaimed_bytes == expected_reclaimed_bytes,
            r.deleted_bytes == 0,
            !r.saw_run_tool,
            !r.saw_delete,
    {
        PlanRun {
            action,
            resource,
            expected_reclaimed_bytes,
            deleted_bytes: 0,
            saw_run_tool: false,
            saw_delete: false,
        }
    }

    /// An external tool step exited successfully.
    pub fn tool_succeeded(&mut self)
        ensures
            *final(self) == after_step(*old(self), StepDone::ToolRan),
            final(self).saw_run_tool,
            final(self).saw_delete == old(self).saw_delete,
            final(self).deleted_bytes == old(self).deleted_bytes,
            final(self).action == old(self).action,
            final(self).resource == old(self).resource,
            final(self).expected_reclaimed_bytes == old(self).expected_reclaimed_bytes,
    {
        self.saw_run_tool = true;
    }

    /// A deletion step removed `bytes` bytes. The total saturates at
    /// `u64::MAX` rather than wrapping.
    pub fn path_deleted(&mut self, bytes: u64)
        ensures
            *final(self) == after_step(*old(self), StepDone::PathDeleted(bytes)),
            final(self).saw_delete,
            final(self).saw_run_tool == old(self).saw_run_tool,
            old(self).deleted_bytes + bytes <= u64::MAX ==> final(self).deleted_bytes == old(self).deleted_bytes + bytes,
            final(self).action == old(self).action,
            final(self).resource == old(self).resource,
            final(self).expected_reclaimed_bytes == old(self).expected_reclaimed_bytes,
    {
        self.saw_delete = true;
        self.deleted_bytes = self.deleted_bytes.saturating_add(bytes);
    }

    /// A step failed: the run stops with `message`.
    /// The run fails on a tool step that exited unsuccessfully: the
    /// message names the program, its exit status and what it wrote to
    /// stderr.
    pub fn tool_exited(self, program: &str, status: &str, stderr: &[u8]) -> (r: ExecutionReport)
        ensures
            r.action == self.action,
            r.resource == self.resource,
            r.outcome matches ExecutionOutcome::Failed(m) && m@ == program@ + " exited with "@ + status@
                + ": "@ + crate::evidence::correlate::utf8_lossy(stderr@),
            r.expected_reclaimed_bytes == self.expected_reclaimed_bytes,
            r.actual_reclaimed_bytes == ProbeOutcome::<u64>::Unavailable(ProbeReason::NotAttempted),
    {
        let text = crate::evidence::correlate::text_of_output(stderr);
        let mut out: Vec<char> = Vec::new();
        push_str(&mut out, program);
        push_str(&mut out, " exited with ");
        push_str(&mut out, status);
        push_str(&mut out, ": ");
        crate::text::push_chars(&mut out, &text);
        let message = string_from_chars(out.as_slice());
        self.fail(message)
    }

    /// The run fails on a tool step that could not be started.
    pub fn tool_spawn_failed(self, program: &str, error: &str) -> (r: ExecutionReport)
        ensures
            r.action == self.action,
            r.resource == self.resource,
            r.outcome matches ExecutionOutcome::Failed(m) && m@ == "failed to spawn "@ + program@
                + ": "@ + error@,
            r.expected_reclaimed_bytes == self.expected_reclaimed_bytes,
            r.actual_reclaimed_bytes == ProbeOutcome::<u64>::Unavailable(ProbeReason::NotAttempted),
    {
        let message = crate::detectors::failure_message("failed to spawn ", program, error);
        self.fail(message)
    }

    pub fn fail(self, message: String) -> (r: ExecutionReport)
        ensures
            r.action == self.action,
            r.resource == self.resource,
            r.outcome == ExecutionOutcome::Failed(message),
            r.expected_reclaimed_bytes == self.expected_reclaimed_bytes,
            r.actual_reclaimed_bytes == ProbeOutcome::<u64>::Unavailable(ProbeReason::NotAttempted),
    {
        failed_report(self.action, self.resource, message, self.expected_reclaimed_bytes)
    }

    /// Every step succeeded.
    pub fn finish(self) -> (r: ExecutionReport)
        ensures
            r.action == self.action,
            r.resource == self.resource,
            r.outcome == ExecutionOutcome::Succeeded,
            r.expected_reclaimed_bytes == self.expected_reclaimed_bytes,
            r.actual_reclaimed_bytes == spec_actual_reclaimed(
                self.saw_run_tool,
                self.saw_delete,
                self.deleted_bytes,
            ),
    {
        let actual = if self.saw_run_tool {
            ProbeOutcome::Unavailable(ProbeReason::NotAttempted)
        } else if self.saw_delete {
            ProbeOutcome::Observed(self.deleted_bytes)
        } else {
            ProbeOutcome::Unavailable(ProbeReason::NotAttempted)
        };
        ExecutionReport {
            action: self.action,
            resource: self.resource,
            outcome: ExecutionOutcome::Succeeded,
            expected_reclaimed_bytes: self.expected_reclaimed_bytes,
            actual_reclaimed_bytes: actual,
        }
    }
}

/// A live filesystem identity taken without following symlinks.
#[derive(Debug, Clone, Copy, PartialEq, Eq, Structural)]
pub struct IdentitySnapshot {
    pub dev: u64,
    pub ino: u64,
    pub is_symlink: bool,
    pub is_dir: bool,
}

/// The refusal when `path` has become a symlink.
pub open spec fn symlink_refusal(path: Seq<char>) -> Seq<char> {
    "refusing to act on "@ + path
        + ": resource identity changed immediately before mutation (path is now a symlink)"@
}

/// The refusal when `path` now names a different filesystem object.
pub open spec fn identity_refusal(path: Seq<char>, expected: IdentitySnapshot, found: IdentitySnapshot) -> Seq<char> {
    "refusing to act on "@ + path
        + ": resource identity changed immediately before mutation (expected dev="@
        + decimal(expected.dev as nat) + " ino="@ + decimal(expected.ino as nat) + ", found dev="@
        + decimal(found.dev as nat) + " ino="@ + decimal(found.ino as nat) + ")"@
}

/// The final guard before a destructive mutation: `current` (taken just
/// now) must be the very object `snapshot` (taken before revalidation)
/// was, and never a symlink, whatever the snapshot looked like.
pub fn check_identity_unchanged(path: &str, snapshot: &IdentitySnapshot, current: &IdentitySnapshot) -> (r:
    Result<(), String>)
    ensures
        r is Ok <==> (!current.is_symlink && current.dev == snapshot.dev && current.ino
            == snapshot.ino),
        r matches Err(m) ==> m@ == if current.is_symlink {
            symlink_refusal(path@)
        } else {
            identity_refusal(path@, *snapshot, *current)
        },
{
    let mut out: Vec<char> = Vec::new();
    push_str(&mut out, "refusing to act on ");
    push_str(&mut out, path);
    if current.is_symlink {
        push_str(
            &mut out,
            ": resource identity changed immediately before mutation (path is now a symlink)",
        );
        assert(out@ =~= symlink_refusal(path@));
        return Err(string_from_chars(out.as_slice()));
    }
    if current.dev != snapshot.dev || current.ino != snapshot.ino {
        push_str(&mut out, ": resource identity changed immediately before mutation (expected dev=");
        push_decimal(&mut out, snapshot.dev);
        push_str(&mut out, " ino=");
        push_decimal(&mut out, snapshot.ino);
        push_str(&mut out, ", found dev=");
        push_decimal(&mut out, current.dev);
        push_str(&mut out, " ino=");
        push_decimal(&mut out, current.ino);
        push_str(&mut out, ")");
        assert(out@ =~= identity_refusal(path@, *snapshot, *current));
        return Err(string_from_chars(out.as_slice()));
    }
    Ok(())
}


/// Whether a deletion step may go ahead at all, before anything is
/// measured: only on a path-located resource, and only with the identity
/// snapshot taken before revalidation to compare against.
pub fn delete_preconditions(path: &str, resource: &ResourceId, snapshot: Option<&IdentitySnapshot>) -> (r:
    Result<(), String>)
    ensures
        resource.locator is Tool ==> (r matches Err(m) && m@
            == "DeletePath step on a non-path resource"@),
        resource.locator is Path && snapshot is None ==> (r matches Err(m) && m@ == "refusing to delete "@
            + path@ + ": no verified resource identity snapshot available"@),
        resource.locator is Path && snapshot is Some ==> r is Ok,
{
    match &resource.locator {
        ResourceLocator::Path(_) => {},
        ResourceLocator::Tool { .. } => {
            return Err(crate::text::owned("DeletePath step on a non-path resource"));
        },
    }
    match snapshot {
        Some(_) => Ok(()),
        None => {
            let mut out: Vec<char> = Vec::new();
            push_str(&mut out, "refusing to delete ");
            push_str(&mut out, path);
            push_str(&mut out, ": no verified resource identity snapshot available");
            Err(string_from_chars(out.as_slice()))
        },
    }
}


/// Revalidation refuses a resource whose fingerprint changed in any part,
/// its device and inode, its modification time or its tool revision,
/// before anything else, and only then.
pub proof fn lemma_changed_fingerprint_is_refused(
    approved: PolicyDecision,
    approved_fingerprint: crate::evidence::model::ResourceFingerprint,
    fresh: Evidence,
    cfg: PolicyConfig,
    now: Timestamp,
)
    ensures
        fresh.fingerprint@.dev_ino != approved_fingerprint@.dev_ino || fresh.fingerprint@.mtime
            != approved_fingerprint@.mtime || fresh.fingerprint@.tool_revision
            != approved_fingerprint@.tool_revision ==> spec_revalidate(
            approved,
            approved_fingerprint,
            fresh,
            cfg,
            now,
        ) == Some(AbortReason::ResourceIdentityChanged),
        spec_revalidate(approved, approved_fingerprint, fresh, cfg, now) == Some(
            AbortReason::ResourceIdentityChanged,
        ) ==> fresh.fingerprint@ != approved_fingerprint@,
{
}


/// Revalidation lets an approval through only when nothing moved: the same
/// fingerprint, the same class, no reason that was not approved, and
/// evidence no less complete than when approved. With the fingerprint
/// unchanged, a changed class is refused as a downgrade, and with the class
/// unchanged too, any new reason is refused as a widening.
pub proof fn lemma_revalidation_passes_only_unchanged(
    approved: PolicyDecision,
    approved_fingerprint: crate::evidence::model::ResourceFingerprint,
    fresh: Evidence,
    cfg: PolicyConfig,
    now: Timestamp,
)
    ensures
        spec_revalidate(approved, approved_fingerprint, fresh, cfg, now) is None ==> {
            &&& fresh.fingerprint@ == approved_fingerprint@
            &&& spec_classify(fresh, cfg, now).0 == approved.class
            &&& forall|x: ReasonCode|
                #[trigger] spec_classify(fresh, cfg, now).1.contains(x) ==> approved.reasons@.contains(x)
            &&& fresh.spec_missing().len() == 0 || approved.class != PolicyClass::AutoSafe
        },
        fresh.fingerprint@ == approved_fingerprint@ && spec_classify(fresh, cfg, now).0
            != approved.class ==> spec_revalidate(approved, approved_fingerprint, fresh, cfg, now)
            == Some(AbortReason::PolicyClassDowngraded),
        fresh.fingerprint@ == approved_fingerprint@ && spec_classify(fresh, cfg, now).0
            == approved.class && (exists|x: ReasonCode|
            #[trigger] spec_classify(fresh, cfg, now).1.contains(x) && !approved.reasons@.contains(x))
            ==> spec_revalidate(approved, approved_fingerprint, fresh, cfg, now) == Some(
            AbortReason::PolicyReasonsWidened,
        ),
{
    let reasons = spec_classify(fresh, cfg, now).1;
    if spec_revalidate(approved, approved_fingerprint, fresh, cfg, now) is None {
        assert forall|x: ReasonCode| #[trigger] reasons.contains(x) implies approved.reasons@.contains(x) by {
            let i = choose|i: int| 0 <= i < reasons.len() && reasons[i] == x;
            assert(!(0 <= i < reasons.len() && !approved.reasons@.contains(reasons[i])));
        }
    }
    if exists|x: ReasonCode| #[trigger] reasons.contains(x) && !approved.reasons@.contains(x) {
        let x = choose|x: ReasonCode| #[trigger] reasons.contains(x) && !approved.reasons@.contains(x);
        let i = choose|i: int| 0 <= i < reasons.len() && reasons[i] == x;
        assert(spec_reasons_widened(approved.reasons@, reasons));
    }
}

} // verus!
