//! Emergency recovery: a degraded path that must produce a useful result
//! even when history and log writes fail, with no network and no
//! interaction. It never weakens the safety rule: only candidates policy
//! classifies `AutoSafe` are ever attempted, through the same approval
//! and execution gate as everything else. This module holds the report
//! and the bookkeeping; discovery, execution and file I/O run outside.

use vstd::prelude::*;

use crate::detectors::{DetectorId, DetectorStatus};
use crate::evidence::correlate::{merge_into, CorrelationResult};
use crate::evidence::model::{ActionId, Evidence, ResourceKind};
use crate::evidence::probe::ProbeOutcome;
use crate::evidence::time::{TimeSpan, Timestamp};
use crate::executor::{AbortReason, ExecutionOutcome};
use crate::policy::approval::{authorize, Approval};
use crate::policy::class::PolicyClass;
use crate::policy::config::PolicyConfig;
use crate::policy::engine::{classify, spec_classify};
use crate::text::{decimal, owned, push_decimal, push_str, string_from_chars};

verus! {

/// How many error messages a report keeps, so it stays bounded however
/// much fails.
pub const MAX_ERRORS: usize = 8;

/// Result of one emergency run: plain counters and messages, printable
/// even when every other subsystem has failed.
#[derive(Debug, Clone, PartialEq, Eq)]
pub struct EmergencyReport {
    pub actions_attempted: u32,
    pub actions_succeeded: u32,
    pub total_bytes_freed: u64,
    /// Candidates policy refused (classified other than `AutoSafe`).
    pub denied_candidates: u32,
    /// Non-fatal errors, at most [`MAX_ERRORS`].
    pub errors: Vec<String>,
}

impl Default for EmergencyReport {
    fn default() -> (r: Self)
        ensures
            r.actions_attempted == 0,
            r.actions_succeeded == 0,
            r.total_bytes_freed == 0,
            r.denied_candidates == 0,
            r.errors@.len() == 0,
    {
        EmergencyReport {
            actions_attempted: 0,
            actions_succeeded: 0,
            total_bytes_freed: 0,
            denied_candidates: 0,
            errors: Vec::new(),
        }
    }
}

/// One line per error, each `"    - <message>\n"`.
pub open spec fn error_lines(errors: Seq<Seq<char>>) -> Seq<char>
    decreases errors.len(),
{
    if errors.len() == 0 {
        Seq::empty()
    } else {
        error_lines(errors.drop_last()) + "    - "@ + errors.last() + "\n"@
    }
}

/// The views of a list of strings.
pub open spec fn string_views(v: Seq<String>) -> Seq<Seq<char>> {
    v.map_values(|s: String| s@)
}

impl EmergencyReport {
    /// Record a non-fatal error; dropped once [`MAX_ERRORS`] are held.
    pub fn push_error(&mut self, message: String)
        ensures
            old(self).errors@.len() < MAX_ERRORS ==> final(self).errors@ == old(self).errors@.push(message),
            old(self).errors@.len() >= MAX_ERRORS ==> final(self).errors@ == old(self).errors@,
            final(self).actions_attempted == old(self).actions_attempted,
            final(self).actions_succeeded == old(self).actions_succeeded,
            final(self).total_bytes_freed == old(self).total_bytes_freed,
            final(self).denied_candidates == old(self).denied_candidates,
    {
        if self.errors.len() < MAX_ERRORS {
            self.errors.push(message);
        }
    }

    /// The printed report.
    pub open spec fn spec_render(self) -> Seq<char> {
        "glomeris emergency report:\n"@ + "  actions attempted: "@ + decimal(self.actions_attempted as nat)
            + "\n"@ + "  actions succeeded: "@ + decimal(self.actions_succeeded as nat) + "\n"@
            + "  bytes freed:       "@ + decimal(self.total_bytes_freed as nat) + "\n"@
            + "  candidates denied: "@ + decimal(self.denied_candidates as nat) + "\n"@
            + if self.errors@.len() == 0 {
            "  errors:            none\n"@
        } else {
            "  errors ("@ + decimal(self.errors@.len()) + "):\n"@ + error_lines(
                string_views(self.errors@),
            )
        }
    }

    /// The printed report.
    pub fn render(&self) -> (s: String)
        ensures
            s@ == self.spec_render(),
    {
        let mut out: Vec<char> = Vec::new();
        push_str(&mut out, "glomeris emergency report:\n");
        push_str(&mut out, "  actions attempted: ");
        push_decimal(&mut out, self.actions_attempted as u64);
        push_str(&mut out, "\n");
        push_str(&mut out, "  actions succeeded: ");
        push_decimal(&mut out, self.actions_succeeded as u64);
        push_str(&mut out, "\n");
        push_str(&mut out, "  bytes freed:       ");
        push_decimal(&mut out, self.total_bytes_freed);
        push_str(&mut out, "\n");
        push_str(&mut out, "  candidates denied: ");
        push_decimal(&mut out, self.denied_candidates as u64);
        push_str(&mut out, "\n");
        let ghost head = out@;
        if self.errors.len() == 0 {
            push_str(&mut out, "  errors:            none\n");
        } else {
            push_str(&mut out, "  errors (");
            push_decimal(&mut out, self.errors.len() as u64);
            push_str(&mut out, "):\n");
            let ghost mid = out@;
            let mut i: usize = 0;
            while i < self.errors.len()
                invariant
                    0 <= i <= self.errors@.len(),
                    out@ == mid + error_lines(string_views(self.errors@.subrange(0, i as int))),
                decreases self.errors@.len() - i,
            {
                push_str(&mut out, "    - ");
                push_str(&mut out, self.errors[i].as_str());
                push_str(&mut out, "\n");
                proof {
                    let next = string_views(self.errors@.subrange(0, i + 1));
                    assert(next.drop_last() =~= string_views(self.errors@.subrange(0, i as int)));
                }
                i = i + 1;
                assert(out@ =~= mid + error_lines(string_views(self.errors@.subrange(0, i as int))));
            }
            assert(self.errors@.subrange(0, self.errors@.len() as int) =~= self.errors@);
        }
        assert(out@ =~= self.spec_render());
        string_from_chars(out.as_slice())
    }
}

/// The one pre-registered action that cleans up a kind, if any.
pub open spec fn spec_action_id_for_kind(kind: ResourceKind) -> Option<Seq<char>> {
    match kind {
        ResourceKind::CargoTargetDir => Some("cargo.clean.target_dir"@),
        ResourceKind::NodeModules => Some("node.clean.node_modules"@),
        ResourceKind::HomebrewCache => Some("homebrew.cleanup.cache"@),
        _ => None,
    }
}

pub fn action_id_for_kind(kind: ResourceKind) -> (r: Option<&'static str>)
    ensures
        match spec_action_id_for_kind(kind) {
            Some(id) => r matches Some(s) && s@ == id,
            None => r is None,
        },
{
    match kind {
        ResourceKind::CargoTargetDir => Some("cargo.clean.target_dir"),
        ResourceKind::NodeModules => Some("node.clean.node_modules"),
        ResourceKind::HomebrewCache => Some("homebrew.cleanup.cache"),
        _ => None,
    }
}

/// What to do with one freshly classified candidate.
#[derive(Debug, Clone, PartialEq, Eq)]
pub enum Triage {
    /// Policy refused it: counted, never attempted.
    Denied,
    /// `AutoSafe`, but no action is registered for its kind.
    NoAction,
    /// `AutoSafe`, to be attempted with this action.
    Attempt(&'static str),
}

/// Only `AutoSafe` candidates are ever attempted; the rest are denied.
pub fn triage(class: PolicyClass, kind: ResourceKind) -> (t: Triage)
    ensures
        class != PolicyClass::AutoSafe ==> t == Triage::Denied,
        class == PolicyClass::AutoSafe ==> match spec_action_id_for_kind(kind) {
            Some(id) => t matches Triage::Attempt(s) && s@ == id,
            None => t == Triage::NoAction,
        },
        class == PolicyClass::AutoSafe && kind == ResourceKind::CargoTargetDir ==> (t matches Triage::Attempt(
            s,
        ) && s@ == "cargo.clean.target_dir"@),
        class == PolicyClass::AutoSafe && kind == ResourceKind::NodeModules ==> (t matches Triage::Attempt(
            s,
        ) && s@ == "node.clean.node_modules"@),
        class == PolicyClass::AutoSafe && kind == ResourceKind::HomebrewCache ==> (t matches Triage::Attempt(
            s,
        ) && s@ == "homebrew.cleanup.cache"@),
{
    if class != PolicyClass::AutoSafe {
        return Triage::Denied;
    }
    match action_id_for_kind(kind) {
        Some(id) => Triage::Attempt(id),
        None => Triage::NoAction,
    }
}

/// The name of an abort reason.
pub open spec fn abort_reason_name(r: AbortReason) -> Seq<char> {
    match r {
        AbortReason::ResourceIdentityChanged => "ResourceIdentityChanged"@,
        AbortReason::PolicyClassDowngraded => "PolicyClassDowngraded"@,
        AbortReason::PolicyReasonsWidened => "PolicyReasonsWidened"@,
        AbortReason::EvidenceDegraded => "EvidenceDegraded"@,
        AbortReason::RevalidationEvidenceStale => "RevalidationEvidenceStale"@,
    }
}

pub fn abort_reason_str(r: AbortReason) -> (s: &'static str)
    ensures
        s@ == abort_reason_name(r),
{
    match r {
        AbortReason::ResourceIdentityChanged => "ResourceIdentityChanged",
        AbortReason::PolicyClassDowngraded => "PolicyClassDowngraded",
        AbortReason::PolicyReasonsWidened => "PolicyReasonsWidened",
        AbortReason::EvidenceDegraded => "EvidenceDegraded",
        AbortReason::RevalidationEvidenceStale => "RevalidationEvidenceStale",
    }
}

/// The message recorded for an attempted action that did not succeed.
pub open spec fn outcome_error(action_id: Seq<char>, outcome: ExecutionOutcome) -> Seq<char> {
    match outcome {
        ExecutionOutcome::Failed(m) => "action "@ + action_id + " failed: "@ + m@,
        ExecutionOutcome::AbortedByRevalidation(r) => "action "@ + action_id
            + " aborted by revalidation: "@ + abort_reason_name(r),
        _ => "action "@ + action_id + " unexpectedly returned DryRun from execute()"@,
    }
}

impl EmergencyReport {
    /// Count one policy refusal.
    pub fn deny(&mut self)
        requires
            old(self).denied_candidates < u32::MAX,
        ensures
            final(self).denied_candidates == old(self).denied_candidates + 1,
            final(self).actions_attempted == old(self).actions_attempted,
            final(self).actions_succeeded == old(self).actions_succeeded,
            final(self).total_bytes_freed == old(self).total_bytes_freed,
            final(self).errors@ == old(self).errors@,
    {
        self.denied_candidates = self.denied_candidates + 1;
    }

    /// Record one attempted execution and its outcome: a success counts,
    /// with the measured bytes when there are any; anything else is
    /// recorded as an error message.
    pub fn record_attempt(&mut self, action_id: &str, outcome: &ExecutionOutcome, actual: &ProbeOutcome<u64>)
        requires
            old(self).actions_attempted < u32::MAX,
            old(self).actions_succeeded < u32::MAX,
            actual matches ProbeOutcome::Observed(b) ==> old(self).total_bytes_freed + *b <= u64::MAX,
        ensures
            final(self).actions_attempted == old(self).actions_attempted + 1,
            final(self).denied_candidates == old(self).denied_candidates,
            *outcome == ExecutionOutcome::Succeeded ==> {
                &&& final(self).actions_succeeded == old(self).actions_succeeded + 1
                &&& final(self).total_bytes_freed == old(self).total_bytes_freed + match actual {
                    ProbeOutcome::Observed(b) => *b as int,
                    ProbeOutcome::Unavailable(_) => 0,
                }
                &&& final(self).errors@ == old(self).errors@
            },
            *outcome != ExecutionOutcome::Succeeded ==> {
                &&& final(self).actions_succeeded == old(self).actions_succeeded
                &&& final(self).total_bytes_freed == old(self).total_bytes_freed
                &&& old(self).errors@.len() < MAX_ERRORS ==> final(self).errors@.len() == old(
                    self,
                ).errors@.len() + 1 && final(self).errors@.last()@ == outcome_error(
                    action_id@,
                    *outcome,
                ) && final(self).errors@.drop_last() == old(self).errors@
                &&& old(self).errors@.len() >= MAX_ERRORS ==> final(self).errors@ == old(self).errors@
            },
    {
        self.actions_attempted = self.actions_attempted + 1;
        match outcome {
            ExecutionOutcome::Succeeded => {
                self.actions_succeeded = self.actions_succeeded + 1;
                if let ProbeOutcome::Observed(bytes) = actual {
                    self.total_bytes_freed = self.total_bytes_freed + *bytes;
                }
            },
            ExecutionOutcome::Failed(message) => {
                let mut out: Vec<char> = Vec::new();
                push_str(&mut out, "action ");
                push_str(&mut out, action_id);
                push_str(&mut out, " failed: ");
                push_str(&mut out, message.as_str());
                assert(out@ =~= outcome_error(action_id@, *outcome));
                self.push_error(string_from_chars(out.as_slice()));
            },
            ExecutionOutcome::AbortedByRevalidation(reason) => {
                let mut out: Vec<char> = Vec::new();
                push_str(&mut out, "action ");
                push_str(&mut out, action_id);
                push_str(&mut out, " aborted by revalidation: ");
                push_str(&mut out, abort_reason_str(*reason));
                assert(out@ =~= outcome_error(action_id@, *outcome));
                self.push_error(string_from_chars(out.as_slice()));
            },
            ExecutionOutcome::DryRun => {
                let mut out: Vec<char> = Vec::new();
                push_str(&mut out, "action ");
                push_str(&mut out, action_id);
                push_str(&mut out, " unexpectedly returned DryRun from execute()");
                assert(out@ =~= outcome_error(action_id@, *outcome));
                self.push_error(string_from_chars(out.as_slice()));
            },
        }
    }
}


/// What freeing the tool's own disposable state (its pressure-history
/// file) found. That step runs first and is never gated on policy: the
/// file is this tool's own append-only log.
pub enum SelfStateCleanup {
    /// The file does not exist: nothing to do, nothing fabricated.
    Missing,
    /// Reading its size failed; the text is the operating system's error.
    StatFailed(String),
    /// It was removed, freeing this many bytes.
    Removed(u64),
    /// Removing it failed; the text is the operating system's error.
    RemoveFailed(String),
}

/// Appends `m` to `errs` unless the bound is reached.
pub open spec fn push_bounded(errs: Seq<Seq<char>>, m: Seq<char>) -> Seq<Seq<char>> {
    if errs.len() < MAX_ERRORS {
        errs.push(m)
    } else {
        errs
    }
}

/// The messages `ms` recorded one after another into `errs`.
pub open spec fn push_all_bounded(errs: Seq<Seq<char>>, ms: Seq<Seq<char>>) -> Seq<Seq<char>>
    decreases ms.len(),
{
    if ms.len() == 0 {
        errs
    } else {
        push_bounded(push_all_bounded(errs, ms.drop_last()), ms.last())
    }
}

/// The evidence a discovery pass found, detector by detector, in order.
pub open spec fn found_evidence(results: Seq<(DetectorId, DetectorStatus)>) -> Seq<Evidence>
    decreases results.len(),
{
    if results.len() == 0 {
        Seq::empty()
    } else {
        found_evidence(results.drop_last()) + match results.last().1 {
            DetectorStatus::Found(v) => v@,
            _ => Seq::empty(),
        }
    }
}

/// The error messages a discovery pass's failed detectors leave, in order.
pub open spec fn detector_failures(results: Seq<(DetectorId, DetectorStatus)>) -> Seq<Seq<char>>
    decreases results.len(),
{
    if results.len() == 0 {
        Seq::empty()
    } else {
        detector_failures(results.drop_last()) + match results.last().1 {
            DetectorStatus::Failed(m) => seq!["detector failed: "@ + m@],
            _ => Seq::empty(),
        }
    }
}

/// The policy configuration emergency classification uses: the default,
/// five minutes of evidence age.
pub open spec fn emergency_policy() -> PolicyConfig {
    PolicyConfig { max_evidence_age: TimeSpan { secs: 300, nanos: 0 } }
}

/// `evidence` refreshed by a correlation pass just now: the four
/// correlation fields replaced and the collection time stamped, nothing
/// else changed.
pub open spec fn refreshed(before: Evidence, after: Evidence, c: CorrelationResult, now: Timestamp) -> bool {
    &&& after.open_by_process == c.open_by_process
    &&& after.process_cwd_match == c.process_cwd_match
    &&& after.git_state == c.git_state
    &&& after.tool_liveness == c.tool_liveness
    &&& after.collected_at == now
    &&& after.resource == before.resource
    &&& after.fingerprint == before.fingerprint
    &&& after.detector == before.detector
    &&& after.logical_bytes == before.logical_bytes
    &&& after.physical_bytes == before.physical_bytes
    &&& after.reclaimable_bytes == before.reclaimable_bytes
    &&& after.reclaimable_bytes_is_lower_bound == before.reclaimable_bytes_is_lower_bound
    &&& after.last_modified == before.last_modified
    &&& after.last_accessed == before.last_accessed
    &&& after.regenerability == before.regenerability
    &&& after.recoverability == before.recoverability
    &&& after.native_cleanup == before.native_cleanup
    &&& after.sources == before.sources
}

/// The message recorded for an `AutoSafe` candidate whose kind has no
/// registered cleanup action.
pub open spec fn no_action_message(ev: Evidence) -> Seq<char> {
    "no registered action for AutoSafe candidate "@ + ev.resource.spec_render()
}

impl EmergencyReport {
    /// Record the first step, freeing the tool's own disposable state at
    /// `path`: a missing file is no work and no error; a failed size read
    /// is an error and no attempt; otherwise it was an attempt, which
    /// either freed its bytes or is recorded as an error.
    pub fn record_self_state_cleanup(&mut self, path: &str, outcome: SelfStateCleanup)
        requires
            old(self).actions_attempted < u32::MAX,
            old(self).actions_succeeded < u32::MAX,
            outcome matches SelfStateCleanup::Removed(b) ==> old(self).total_bytes_freed + b <= u64::MAX,
        ensures
            final(self).denied_candidates == old(self).denied_candidates,
            match outcome {
                SelfStateCleanup::Missing => *final(self) == *old(self),
                SelfStateCleanup::StatFailed(e) => {
                    &&& final(self).actions_attempted == old(self).actions_attempted
                    &&& final(self).actions_succeeded == old(self).actions_succeeded
                    &&& final(self).total_bytes_freed == old(self).total_bytes_freed
                    &&& string_views(final(self).errors@) == push_bounded(
                        string_views(old(self).errors@),
                        "failed to stat self-owned disposable state "@ + path@ + ": "@ + e@,
                    )
                },
                SelfStateCleanup::Removed(b) => {
                    &&& final(self).actions_attempted == old(self).actions_attempted + 1
                    &&& final(self).actions_succeeded == old(self).actions_succeeded + 1
                    &&& final(self).total_bytes_freed == old(self).total_bytes_freed + b
                    &&& final(self).errors@ == old(self).errors@
                },
                SelfStateCleanup::RemoveFailed(e) => {
                    &&& final(self).actions_attempted == old(self).actions_attempted + 1
                    &&& final(self).actions_succeeded == old(self).actions_succeeded
                    &&& final(self).total_bytes_freed == old(self).total_bytes_freed
                    &&& string_views(final(self).errors@) == push_bounded(
                        string_views(old(self).errors@),
                        "failed to remove self-owned disposable state "@ + path@ + ": "@ + e@,
                    )
                },
            },
    {
        match outcome {
            SelfStateCleanup::Missing => {},
            SelfStateCleanup::StatFailed(e) => {
                let m = crate::detectors::failure_message(
                    "failed to stat self-owned disposable state ",
                    path,
                    e.as_str(),
                );
                let ghost before = self.errors@;
                self.push_error(m);
                assert(string_views(self.errors@) =~= push_bounded(string_views(before), m@));
            },
            SelfStateCleanup::Removed(b) => {
                self.actions_attempted = self.actions_attempted + 1;
                self.actions_succeeded = self.actions_succeeded + 1;
                self.total_bytes_freed = self.total_bytes_freed + b;
            },
            SelfStateCleanup::RemoveFailed(e) => {
                self.actions_attempted = self.actions_attempted + 1;
                let m = crate::detectors::failure_message(
                    "failed to remove self-owned disposable state ",
                    path,
                    e.as_str(),
                );
                let ghost before = self.errors@;
                self.push_error(m);
                assert(string_views(self.errors@) =~= push_bounded(string_views(before), m@));
            },
        }
    }

    /// Gather the candidates of a discovery pass: every detector's
    /// evidence, in order. A failed detector is recorded as an error; an
    /// absent tool is normal and recorded as nothing.
    pub fn collect_candidates(&mut self, results: Vec<(DetectorId, DetectorStatus)>) -> (r: Vec<Evidence>)
        ensures
            r@ == found_evidence(results@),
            string_views(final(self).errors@) == push_all_bounded(
                string_views(old(self).errors@),
                detector_failures(results@),
            ),
            final(self).actions_attempted == old(self).actions_attempted,
            final(self).actions_succeeded == old(self).actions_succeeded,
            final(self).total_bytes_freed == old(self).total_bytes_freed,
            final(self).denied_candidates == old(self).denied_candidates,
    {
        let ghost all = results@;
        let ghost errs0 = string_views(self.errors@);
        let n: usize = results.len();
        let mut rest = results;
        let mut out: Vec<Evidence> = Vec::new();
        let mut k: usize = 0;
        assert(all.take(0) =~= Seq::<(DetectorId, DetectorStatus)>::empty());
        assert(all.skip(0) =~= all);
        while rest.len() > 0
            invariant
                0 <= k <= all.len(),
                all.len() == n,
                rest@ == all.skip(k as int),
                out@ == found_evidence(all.take(k as int)),
                string_views(self.errors@) == push_all_bounded(errs0, detector_failures(all.take(k as int))),
                self.actions_attempted == old(self).actions_attempted,
                self.actions_succeeded == old(self).actions_succeeded,
                self.total_bytes_freed == old(self).total_bytes_freed,
                self.denied_candidates == old(self).denied_candidates,
            decreases rest@.len(),
        {
            let (_id, status) = rest.remove(0);
            proof {
                assert(all.take(k + 1).drop_last() =~= all.take(k as int));
                assert(all.take(k + 1).last() == all[k as int]);
                assert(all.skip(k + 1) =~= all.skip(k as int).remove(0));
            }
            let ghost prev_out = out@;
            let ghost prev_errs = string_views(self.errors@);
            match status {
                DetectorStatus::Found(mut evs) => {
                    out.append(&mut evs);
                    assert(string_views(self.errors@) =~= push_all_bounded(
                        errs0,
                        detector_failures(all.take(k + 1)),
                    )) by {
                        assert(detector_failures(all.take(k + 1)) =~= detector_failures(
                            all.take(k as int),
                        ));
                    }
                },
                DetectorStatus::ToolAbsent => {
                    assert(out@ =~= found_evidence(all.take(k + 1)));
                    assert(detector_failures(all.take(k + 1)) =~= detector_failures(
                        all.take(k as int),
                    ));
                },
                DetectorStatus::Failed(message) => {
                    let m = crate::detectors::joined_message("detector failed: ", message.as_str());
                    self.push_error(m);
                    proof {
                        let fs = detector_failures(all.take(k + 1));
                        assert(fs =~= detector_failures(all.take(k as int)).push(m@));
                        assert(fs.drop_last() =~= detector_failures(all.take(k as int)));
                        assert(string_views(self.errors@) =~= push_bounded(prev_errs, m@));
                    }
                    assert(out@ =~= found_evidence(all.take(k + 1)));
                },
            }
            k = k + 1;
        }
        assert(all.take(k as int) =~= all);
        out
    }

    /// Whether the candidate loop may go on: fewer than `max_actions`
    /// attempts so far and less than `max_duration` spent.
    pub fn may_continue(&self, max_actions: u32, elapsed: TimeSpan, max_duration: TimeSpan) -> (r: bool)
        ensures
            r == (self.actions_attempted < max_actions && elapsed.total_nanos()
                < max_duration.total_nanos()),
    {
        self.actions_attempted < max_actions && !max_duration.le(&elapsed)
    }

    /// Refresh one candidate with its correlation pass and decide it: the
    /// four correlation fields are replaced and the evidence stamped
    /// `now` (it was just observed), then classified with the default
    /// policy. Anything but `AutoSafe` is counted as denied; an `AutoSafe`
    /// kind with no registered action is recorded as an error (not a
    /// denial); otherwise the candidate is approved, with no consent, for
    /// that action.
    pub fn plan_candidate(&mut self, evidence: &mut Evidence, correlation: CorrelationResult, now: Timestamp) -> (r: Option<(ActionId, Approval)>)
        requires
            old(self).denied_candidates < u32::MAX,
        ensures
            refreshed(*old(evidence), *final(evidence), correlation, now),
            final(self).actions_attempted == old(self).actions_attempted,
            final(self).actions_succeeded == old(self).actions_succeeded,
            final(self).total_bytes_freed == old(self).total_bytes_freed,
            ({
                let d = spec_classify(*final(evidence), emergency_policy(), now);
                if d.0 != PolicyClass::AutoSafe {
                    &&& r is None
                    &&& final(self).denied_candidates == old(self).denied_candidates + 1
                    &&& final(self).errors@ == old(self).errors@
                } else {
                    match spec_action_id_for_kind(final(evidence).resource.kind) {
                        None => {
                            &&& r is None
                            &&& final(self).denied_candidates == old(self).denied_candidates
                            &&& string_views(final(self).errors@) == push_bounded(
                                string_views(old(self).errors@),
                                no_action_message(*final(evidence)),
                            )
                        },
                        Some(id) => {
                            &&& r matches Some((action, approval)) && action.0@ == id
                                && approval.spec_decision().resource == final(evidence).resource
                                && approval.spec_decision().class == PolicyClass::AutoSafe
                                && approval.spec_decision().reasons@ == d.1
                                && approval.spec_decision().evaluated_at == now
                                && approval.spec_fingerprint() == final(evidence).fingerprint
                            &&& final(self).denied_candidates == old(self).denied_candidates
                            &&& final(self).errors@ == old(self).errors@
                        },
                    }
                }
            }),
    {
        merge_into(evidence, correlation);
        evidence.collected_at = now;
        let cfg = PolicyConfig::default();
        assert(cfg == emergency_policy());
        let decision = classify(evidence, &cfg, now);
        match triage(decision.class, evidence.resource.kind) {
            Triage::Denied => {
                self.deny();
                None
            },
            Triage::NoAction => {
                let rendered = evidence.resource.render();
                let m = crate::detectors::joined_message(
                    "no registered action for AutoSafe candidate ",
                    rendered.as_str(),
                );
                let ghost before = self.errors@;
                self.push_error(m);
                assert(string_views(self.errors@) =~= push_bounded(string_views(before), m@));
                None
            },
            Triage::Attempt(id) => {
                let fingerprint = evidence.fingerprint.duplicate();
                match authorize(decision, fingerprint, None) {
                    Some(approval) => Some((ActionId(id), approval)),
                    None => {
                        self.deny();
                        None
                    },
                }
            },
        }
    }
}


/// The built-in cleanup actions: Cargo target directories, `node_modules`
/// directories and the Homebrew cache each map to their registered action
/// id, and no other kind has one.
pub proof fn lemma_builtin_action_ids(kind: ResourceKind)
    ensures
        kind == ResourceKind::CargoTargetDir ==> spec_action_id_for_kind(kind) == Some(
            "cargo.clean.target_dir"@,
        ),
        kind == ResourceKind::NodeModules ==> spec_action_id_for_kind(kind) == Some(
            "node.clean.node_modules"@,
        ),
        kind == ResourceKind::HomebrewCache ==> spec_action_id_for_kind(kind) == Some(
            "homebrew.cleanup.cache"@,
        ),
        kind != ResourceKind::CargoTargetDir && kind != ResourceKind::NodeModules && kind
            != ResourceKind::HomebrewCache ==> spec_action_id_for_kind(kind) is None,
{
}

/// Distinct kinds never share an action id.
pub proof fn lemma_action_ids_distinct(a: ResourceKind, b: ResourceKind)
    requires
        a != b,
        spec_action_id_for_kind(a) is Some,
    ensures
        spec_action_id_for_kind(a) != spec_action_id_for_kind(b),
{
    reveal_strlit("cargo.clean.target_dir");
    reveal_strlit("node.clean.node_modules");
    reveal_strlit("homebrew.cleanup.cache");
    if spec_action_id_for_kind(b) is Some {
        let x = spec_action_id_for_kind(a)->0;
        let y = spec_action_id_for_kind(b)->0;
        assert(x[0] != y[0]);
    }
}

} // verus!
