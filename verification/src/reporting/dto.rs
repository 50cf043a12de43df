//! Report records: small, explicit projections of the domain types
//! (`Evidence`, `PolicyDecision`, an execution outcome) that a report
//! renders. Every field is picked by hand, so adding a field to a domain
//! type changes no report until someone adds it here.

use vstd::prelude::*;

use crate::evidence::model::{
    ActionId, Completeness, Confidence, Evidence, NativeCleanup, ProcessRef, Regenerability,
};
use crate::evidence::probe::ProbeOutcome;
use crate::evidence::token::{encode_fingerprint_token, spec_token};
use crate::policy::class::{PolicyClass, ReasonCode};
use crate::policy::decision::PolicyDecision;
use crate::text::{decimal, owned, push_decimal, push_str, string_from_chars};

use super::bytes::{human_bytes, spec_human_bytes};
use super::impact::{
    classify_impact, default_thresholds, spec_classify_impact, ImpactContext, ImpactThresholds,
};
use super::policy_label::{label_for, spec_label_for, PolicyLabel};

verus! {

pub open spec fn spec_regenerability_tag(r: Regenerability) -> Seq<char> {
    match r {
        Regenerability::RegenerableByTool => "regenerable_by_tool"@,
        Regenerability::RegenerableByRebuild => "regenerable_by_rebuild"@,
        Regenerability::NotRegenerable => "not_regenerable"@,
        Regenerability::Unknown => "unknown"@,
    }
}

/// The report tag of a regenerability.
pub fn regenerability_tag(r: Regenerability) -> (s: &'static str)
    ensures
        s@ == spec_regenerability_tag(r),
{
    match r {
        Regenerability::RegenerableByTool => "regenerable_by_tool",
        Regenerability::RegenerableByRebuild => "regenerable_by_rebuild",
        Regenerability::NotRegenerable => "not_regenerable",
        Regenerability::Unknown => "unknown",
    }
}

pub open spec fn spec_completeness_tag(c: Completeness) -> Seq<char> {
    match c {
        Completeness::Complete => "complete"@,
        Completeness::Partial { .. } => "partial"@,
        Completeness::Failed => "failed"@,
    }
}

/// The report tag of a completeness.
pub fn completeness_tag(c: &Completeness) -> (s: &'static str)
    ensures
        s@ == spec_completeness_tag(*c),
{
    match c {
        Completeness::Complete => "complete",
        Completeness::Partial { .. } => "partial",
        Completeness::Failed => "failed",
    }
}

pub open spec fn spec_confidence_tag(c: Confidence) -> Seq<char> {
    match c {
        Confidence::High => "high"@,
        Confidence::Medium => "medium"@,
        Confidence::Low => "low"@,
    }
}

/// The report tag of a confidence.
pub fn confidence_tag(c: Confidence) -> (s: &'static str)
    ensures
        s@ == spec_confidence_tag(c),
{
    match c {
        Confidence::High => "high",
        Confidence::Medium => "medium",
        Confidence::Low => "low",
    }
}

/// One line of the progress stream emitted while discovery runs.
#[derive(Debug, Clone, PartialEq)]
pub enum ProgressEvent {
    /// One detector is about to run.
    DetectorStarted { detector: &'static str },
    /// The same detector has returned this many candidates (zero too when
    /// it found its tool absent or failed).
    DetectorFinished { detector: &'static str, candidates_found: usize },
}

/// One action a caller may offer the user for a resource. A caller reads
/// these computed fields instead of branching on the policy label itself.
#[derive(Debug, Clone, PartialEq)]
pub struct OfferedAction {
    pub action_id: String,
    /// `true` for `ASK` and `UNKNOWN_INCOMPLETE`, `false` for `AUTO_SAFE`.
    pub requires_confirmation: bool,
}

/// The refusal text for a protected resource: `"PROTECTED: "` and its
/// first reason's tag (or `"protected"` when it carries none).
pub open spec fn protected_refusal(reasons: Seq<ReasonCode>) -> Seq<char> {
    "PROTECTED: "@ + if reasons.len() > 0 {
        reasons[0].spec_as_str()
    } else {
        "protected"@
    }
}

/// The refusal text when no cleanup action is registered for the kind.
pub open spec fn no_action_refusal() -> Seq<char> {
    "no registered cleanup action for this resource kind"@
}

/// Executable exactly when the class is not `Protected` and an action was
/// resolved.
pub open spec fn spec_executable(class: PolicyClass, action: Option<ActionId>) -> bool {
    class != PolicyClass::Protected && action is Some
}

/// Whether running the offered action needs the user's confirmation.
pub open spec fn spec_requires_confirmation(decision: PolicyDecision) -> bool {
    let l = spec_label_for(decision.class, decision.reasons@);
    l == PolicyLabel::Ask || l == PolicyLabel::UnknownIncomplete
}

/// The refusal text set exactly when the resource is not executable.
pub open spec fn spec_refusal(decision: PolicyDecision, action: Option<ActionId>) -> Option<
    Seq<char>,
> {
    if decision.class == PolicyClass::Protected {
        Some(protected_refusal(decision.reasons@))
    } else if action is None {
        Some(no_action_refusal())
    } else {
        None
    }
}

/// The offered actions: none unless executable, else exactly the resolved
/// action with its confirmation flag.
pub open spec fn offered_actions_are(
    offered: Seq<OfferedAction>,
    decision: PolicyDecision,
    action: Option<ActionId>,
) -> bool {
    if spec_executable(decision.class, action) {
        let id: ActionId = action->0;
        &&& offered.len() == 1
        &&& offered[0].action_id@ == id.0@
        &&& offered[0].requires_confirmation == spec_requires_confirmation(decision)
    } else {
        offered.len() == 0
    }
}

/// The view of an optional string.
pub open spec fn opt_view(s: Option<String>) -> Option<Seq<char>> {
    match s {
        Some(t) => Some(t@),
        None => None,
    }
}

fn executable_fields(decision: &PolicyDecision, resolved_action: Option<ActionId>) -> (r: (
    bool,
    Vec<OfferedAction>,
    Option<String>,
))
    ensures
        r.0 == spec_executable(decision.class, resolved_action),
        offered_actions_are(r.1@, *decision, resolved_action),
        opt_view(r.2) == spec_refusal(*decision, resolved_action),
{
    if decision.class == PolicyClass::Protected {
        let mut out: Vec<char> = Vec::new();
        push_str(&mut out, "PROTECTED: ");
        if decision.reasons.len() > 0 {
            push_str(&mut out, decision.reasons[0].as_str());
        } else {
            push_str(&mut out, "protected");
        }
        assert(out@ =~= protected_refusal(decision.reasons@));
        return (false, Vec::new(), Some(string_from_chars(out.as_slice())));
    }
    let action = match resolved_action {
        None => {
            return (false, Vec::new(), Some(owned("no registered cleanup action for this resource kind")));
        },
        Some(a) => a,
    };
    let label = label_for(decision);
    let requires_confirmation = label == PolicyLabel::Ask || label == PolicyLabel::UnknownIncomplete;
    let mut offered: Vec<OfferedAction> = Vec::new();
    offered.push(OfferedAction { action_id: owned(action.0), requires_confirmation });
    (true, offered, None)
}

/// `"<command>(pid <pid>)"`.
pub open spec fn process_label(p: ProcessRef) -> Seq<char> {
    p.command@ + "(pid "@ + decimal(p.pid as nat) + ")"@
}

/// The labels of `ps`, separated by `", "`.
pub open spec fn join_labels(ps: Seq<ProcessRef>) -> Seq<char>
    decreases ps.len(),
{
    if ps.len() == 0 {
        Seq::empty()
    } else if ps.len() == 1 {
        process_label(ps[0])
    } else {
        join_labels(ps.drop_last()) + ", "@ + process_label(ps.last())
    }
}

/// The signal for a process probe: nothing unless it observed at least
/// one process.
pub open spec fn process_signal(o: ProbeOutcome<Vec<ProcessRef>>, heading: Seq<char>) -> Seq<
    Seq<char>,
> {
    match o {
        ProbeOutcome::Observed(ps) => if ps@.len() > 0 {
            seq![heading + join_labels(ps@)]
        } else {
            Seq::empty()
        },
        ProbeOutcome::Unavailable(_) => Seq::empty(),
    }
}

/// The git signals: a dirty working tree, then a linked worktree.
pub open spec fn git_signals(ev: Evidence) -> Seq<Seq<char>> {
    match ev.git_state {
        ProbeOutcome::Observed(Some(g)) => (if g.dirty {
            seq!["git: working tree dirty"@]
        } else {
            Seq::empty()
        }) + (if g.worktree {
            seq!["git: is a linked worktree"@]
        } else {
            Seq::empty()
        }),
        _ => Seq::empty(),
    }
}

/// The liveness signal: only an observed running tool.
pub open spec fn liveness_signals(ev: Evidence) -> Seq<Seq<char>> {
    match ev.tool_liveness {
        ProbeOutcome::Observed(true) => seq!["owning tool is currently running"@],
        _ => Seq::empty(),
    }
}

/// The active-use signals of `ev`, in a fixed order. Never inferred from
/// an unavailable probe.
pub open spec fn spec_active_use_signals(ev: Evidence) -> Seq<Seq<char>> {
    process_signal(ev.open_by_process, "open by process: "@) + process_signal(
        ev.process_cwd_match,
        "process cwd match: "@,
    ) + git_signals(ev) + liveness_signals(ev)
}

/// The views of a list of strings.
pub open spec fn views(v: Seq<String>) -> Seq<Seq<char>> {
    v.map_values(|s: String| s@)
}

fn push_process_label(out: &mut Vec<char>, p: &ProcessRef)
    ensures
        final(out)@ == old(out)@ + process_label(*p),
{
    push_str(out, p.command.as_str());
    push_str(out, "(pid ");
    push_decimal(out, p.pid as u64);
    push_str(out, ")");
    assert(out@ =~= old(out)@ + process_label(*p));
}

fn process_signal_line(heading: &str, ps: &Vec<ProcessRef>) -> (s: String)
    requires
        ps@.len() > 0,
    ensures
        s@ == heading@ + join_labels(ps@),
{
    let mut out: Vec<char> = Vec::new();
    push_str(&mut out, heading);
    let mut i: usize = 0;
    while i < ps.len()
        invariant
            0 <= i <= ps@.len(),
            out@ == heading@ + join_labels(ps@.subrange(0, i as int)),
        decreases ps@.len() - i,
    {
        let ghost before = out@;
        if i > 0 {
            push_str(&mut out, ", ");
        }
        push_process_label(&mut out, &ps[i]);
        proof {
            let pre = ps@.subrange(0, i as int);
            let next = ps@.subrange(0, i + 1);
            assert(next.drop_last() =~= pre);
            assert(next.last() == ps@[i as int]);
            if i == 0 {
                assert(join_labels(pre) =~= Seq::<char>::empty());
            }
        }
        i = i + 1;
        assert(out@ =~= heading@ + join_labels(ps@.subrange(0, i as int)));
    }
    assert(ps@.subrange(0, ps@.len() as int) =~= ps@);
    string_from_chars(out.as_slice())
}

/// Human-readable active-use signals for `explain`: empty when nothing
/// observed anything active.
pub fn active_use_signals(ev: &Evidence) -> (signals: Vec<String>)
    ensures
        views(signals@) == spec_active_use_signals(*ev),
{
    let mut signals: Vec<String> = Vec::new();
    let ghost mut expected: Seq<Seq<char>> = Seq::empty();
    if let ProbeOutcome::Observed(ps) = &ev.open_by_process {
        if ps.len() > 0 {
            signals.push(process_signal_line("open by process: ", ps));
        }
    }
    proof {
        expected = process_signal(ev.open_by_process, "open by process: "@);
        assert(views(signals@) =~= expected);
    }
    if let ProbeOutcome::Observed(ps) = &ev.process_cwd_match {
        if ps.len() > 0 {
            signals.push(process_signal_line("process cwd match: ", ps));
        }
    }
    proof {
        expected = expected + process_signal(ev.process_cwd_match, "process cwd match: "@);
        assert(views(signals@) =~= expected);
    }
    if let ProbeOutcome::Observed(Some(g)) = &ev.git_state {
        if g.dirty {
            signals.push(owned("git: working tree dirty"));
        }
        if g.worktree {
            signals.push(owned("git: is a linked worktree"));
        }
    }
    proof {
        expected = expected + git_signals(*ev);
        assert(views(signals@) =~= expected);
    }
    if let ProbeOutcome::Observed(true) = ev.tool_liveness {
        signals.push(owned("owning tool is currently running"));
    }
    proof {
        expected = expected + liveness_signals(*ev);
        assert(views(signals@) =~= expected);
        assert(expected =~= spec_active_use_signals(*ev));
    }
    signals
}

/// The tags of a decision's reasons, in order.
pub open spec fn reason_tags_are(tags: Seq<&'static str>, reasons: Seq<ReasonCode>) -> bool {
    &&& tags.len() == reasons.len()
    &&& forall|i: int| 0 <= i < tags.len() ==> (#[trigger] tags[i])@ == reasons[i].spec_as_str()
}

fn reason_tags(reasons: &Vec<ReasonCode>) -> (tags: Vec<&'static str>)
    ensures
        reason_tags_are(tags@, reasons@),
{
    let mut tags: Vec<&'static str> = Vec::new();
    let mut i: usize = 0;
    while i < reasons.len()
        invariant
            0 <= i <= reasons@.len(),
            reason_tags_are(tags@, reasons@.subrange(0, i as int)),
        decreases reasons@.len() - i,
    {
        tags.push(reasons[i].as_str());
        i = i + 1;
    }
    assert(reasons@.subrange(0, reasons@.len() as int) =~= reasons@);
    tags
}

/// The observed value of a byte-count probe.
pub open spec fn observed_bytes(o: ProbeOutcome<u64>) -> Option<u64> {
    match o {
        ProbeOutcome::Observed(b) => Some(b),
        ProbeOutcome::Unavailable(_) => None,
    }
}

/// The human rendering of an optional byte count.
pub open spec fn human_of(b: Option<u64>) -> Option<Seq<char>> {
    match b {
        Some(n) => Some(spec_human_bytes(n as nat)),
        None => None,
    }
}

fn human_opt(b: Option<u64>) -> (s: Option<String>)
    ensures
        opt_view(s) == human_of(b),
{
    match b {
        Some(n) => Some(human_bytes(n)),
        None => None,
    }
}

fn observed_u64(o: &ProbeOutcome<u64>) -> (b: Option<u64>)
    ensures
        b == observed_bytes(*o),
{
    match o {
        ProbeOutcome::Observed(b) => Some(*b),
        ProbeOutcome::Unavailable(_) => None,
    }
}

/// `glomeris daemon status` report. `loaded` (the job is registered) and
/// `heartbeat_age_secs` (the poll loop's own last write) stay separate:
/// a loaded but wedged daemon must remain distinguishable.
#[derive(Debug, Clone, PartialEq)]
pub struct DaemonStatusReport {
    pub plist_installed: bool,
    pub plist_path: String,
    pub loaded: bool,
    pub heartbeat_age_secs: Option<u64>,
}

/// One entry of the action history report.
#[derive(Debug, Clone, PartialEq)]
pub struct ActionHistoryEventReport {
    pub timestamp: u64,
    pub action_id: String,
    pub resource_id: String,
    pub policy_label: String,
    pub outcome: String,
    pub abort_reason: Option<String>,
    pub actual_reclaimed_bytes: Option<u64>,
    pub actual_reclaimed_human: Option<String>,
    pub source: String,
    /// 1-based rank when a model's plan named this resource.
    pub model_rank: Option<u32>,
}

/// The action history report: a bounded, oldest-first tail.
#[derive(Debug, Clone, PartialEq)]
pub struct ActionHistoryReport {
    pub events: Vec<ActionHistoryEventReport>,
}

/// One candidate line of a `detect` report.
#[derive(Debug, Clone, PartialEq)]
pub struct DetectCandidateReport {
    pub resource_id: String,
    pub kind: &'static str,
    pub reclaimable_bytes: Option<u64>,
    pub reclaimable_human: Option<String>,
    /// `true` when `reclaimable_bytes` is a truthful lower bound; always
    /// `false` when there is no figure.
    pub reclaimable_bytes_is_lower_bound: bool,
    /// `"unknown"`, `"normal"`, `"notable"` or `"large"`; independent of
    /// the policy label.
    pub impact_tier: &'static str,
    pub policy_label: &'static str,
    pub reasons: Vec<&'static str>,
    /// A registered action exists and the class does not forbid it.
    pub executable: bool,
    /// Empty unless executable; one entry otherwise.
    pub offered_actions: Vec<OfferedAction>,
    /// Set exactly when `executable` is `false`.
    pub refusal_reason: Option<String>,
}

impl DetectCandidateReport {
    /// The projection of one resource's evidence and decision. `impact`
    /// carries what is known of the free space; `ImpactContext::default()`
    /// where that is unavailable.
    pub fn from_evidence_and_decision(
        ev: &Evidence,
        decision: &PolicyDecision,
        resolved_action: Option<ActionId>,
        impact: ImpactContext,
    ) -> (r: Self)
        ensures
            r.resource_id@ == ev.resource.spec_render(),
            r.kind@ == ev.resource.kind.spec_tag(),
            r.reclaimable_bytes == observed_bytes(ev.reclaimable_bytes),
            opt_view(r.reclaimable_human) == human_of(observed_bytes(ev.reclaimable_bytes)),
            r.reclaimable_bytes_is_lower_bound == (ev.reclaimable_bytes is Observed
                && ev.reclaimable_bytes_is_lower_bound),
            r.impact_tier@ == spec_classify_impact(
                observed_bytes(ev.reclaimable_bytes),
                impact.free_bytes,
                default_thresholds(),
            ).spec_as_str(),
            r.policy_label@ == spec_label_for(decision.class, decision.reasons@).spec_as_str(),
            reason_tags_are(r.reasons@, decision.reasons@),
            r.executable == spec_executable(decision.class, resolved_action),
            offered_actions_are(r.offered_actions@, *decision, resolved_action),
            opt_view(r.refusal_reason) == spec_refusal(*decision, resolved_action),
    {
        let reclaimable = observed_u64(&ev.reclaimable_bytes);
        let (executable, offered_actions, refusal_reason) = executable_fields(
            decision,
            resolved_action,
        );
        let thresholds = ImpactThresholds::default();
        DetectCandidateReport {
            resource_id: ev.resource.render(),
            kind: ev.resource.kind_tag(),
            reclaimable_bytes: reclaimable,
            reclaimable_human: human_opt(reclaimable),
            reclaimable_bytes_is_lower_bound: reclaimable.is_some()
                && ev.reclaimable_bytes_is_lower_bound,
            impact_tier: classify_impact(reclaimable, impact, &thresholds).as_str(),
            policy_label: label_for(decision).as_str(),
            reasons: reason_tags(&decision.reasons),
            executable,
            offered_actions,
            refusal_reason,
        }
    }
}

/// `detect` report: one candidate line per discovered resource.
#[derive(Debug, Clone, PartialEq)]
pub struct DetectReport {
    pub candidates: Vec<DetectCandidateReport>,
}

impl Default for DetectReport {
    fn default() -> (r: Self)
        ensures
            r.candidates@.len() == 0,
    {
        DetectReport { candidates: Vec::new() }
    }
}

/// `explain` report: the full evidence-and-policy picture for one
/// resource.
#[derive(Debug, Clone, PartialEq)]
pub struct ExplainReport {
    pub resource_id: String,
    pub kind: &'static str,
    /// Which detector discovered the resource.
    pub detector: &'static str,
    /// Bounded provenance notes.
    pub sources: Vec<String>,
    /// Logical size as the filesystem reports it, distinct from the
    /// reclaimable estimate.
    pub logical_bytes: Option<u64>,
    pub logical_human: Option<String>,
    /// Estimated bytes an action would reclaim; not a measured result.
    pub reclaimable_bytes: Option<u64>,
    pub reclaimable_human: Option<String>,
    pub reclaimable_bytes_is_lower_bound: bool,
    pub completeness: &'static str,
    pub confidence: &'static str,
    pub active_use_signals: Vec<String>,
    pub regenerability: &'static str,
    pub policy_label: &'static str,
    pub reasons: Vec<&'static str>,
    pub native_cleanup_available: bool,
    pub native_cleanup_action_id: Option<&'static str>,
    /// Wire encoding of the fingerprint, so a later invocation can pin
    /// consent to this exact resource instance; `None` when the resource
    /// carries no fingerprint data at all.
    pub fingerprint_token: Option<String>,
    pub executable: bool,
    pub offered_actions: Vec<OfferedAction>,
    pub refusal_reason: Option<String>,
}

/// Whether a fingerprint carries anything worth encoding.
pub open spec fn has_fingerprint_data(ev: Evidence) -> bool {
    ev.fingerprint.dev_ino is Some || ev.fingerprint.mtime is Some
        || ev.fingerprint.tool_revision is Some
}

impl ExplainReport {
    pub fn from_evidence_and_decision(
        ev: &Evidence,
        decision: &PolicyDecision,
        resolved_action: Option<ActionId>,
    ) -> (r: Self)
        requires
            ev.fingerprint.mtime matches Some(t) ==> t.wf(),
        ensures
            r.resource_id@ == ev.resource.spec_render(),
            r.kind@ == ev.resource.kind.spec_tag(),
            r.detector == ev.detector.0,
            r.sources@ == ev.sources@,
            r.logical_bytes == observed_bytes(ev.logical_bytes),
            opt_view(r.logical_human) == human_of(observed_bytes(ev.logical_bytes)),
            r.reclaimable_bytes == observed_bytes(ev.reclaimable_bytes),
            opt_view(r.reclaimable_human) == human_of(observed_bytes(ev.reclaimable_bytes)),
            r.reclaimable_bytes_is_lower_bound == (ev.reclaimable_bytes is Observed
                && ev.reclaimable_bytes_is_lower_bound),
            exists|c: Completeness|
                ev.spec_completeness_is(c) && r.completeness@ == #[trigger] spec_completeness_tag(c),
            r.confidence@ == spec_confidence_tag(ev.spec_confidence()),
            views(r.active_use_signals@) == spec_active_use_signals(*ev),
            r.regenerability@ == spec_regenerability_tag(ev.regenerability),
            r.policy_label@ == spec_label_for(decision.class, decision.reasons@).spec_as_str(),
            reason_tags_are(r.reasons@, decision.reasons@),
            r.native_cleanup_available == (ev.native_cleanup is Available),
            r.native_cleanup_action_id == match ev.native_cleanup {
                NativeCleanup::Available(id) => Some(id.0),
                NativeCleanup::Unsupported => None,
            },
            opt_view(r.fingerprint_token) == if has_fingerprint_data(*ev) {
                Some(spec_token(ev.fingerprint@))
            } else {
                None
            },
            r.executable == spec_executable(decision.class, resolved_action),
            offered_actions_are(r.offered_actions@, *decision, resolved_action),
            opt_view(r.refusal_reason) == spec_refusal(*decision, resolved_action),
    {
        let logical = observed_u64(&ev.logical_bytes);
        let reclaimable = observed_u64(&ev.reclaimable_bytes);
        let (native_cleanup_available, native_cleanup_action_id) = match ev.native_cleanup {
            NativeCleanup::Available(id) => (true, Some(id.0)),
            NativeCleanup::Unsupported => (false, None),
        };
        let fingerprint_token = if ev.fingerprint.dev_ino.is_some() || ev.fingerprint.mtime.is_some()
            || ev.fingerprint.tool_revision.is_some() {
            Some(encode_fingerprint_token(&ev.fingerprint))
        } else {
            None
        };
        let (executable, offered_actions, refusal_reason) = executable_fields(
            decision,
            resolved_action,
        );
        let completeness = ev.completeness();
        let sources = ev.sources.clone();
        assert(sources@ =~= ev.sources@);
        ExplainReport {
            resource_id: ev.resource.render(),
            kind: ev.resource.kind_tag(),
            detector: ev.detector.0,
            sources,
            logical_bytes: logical,
            logical_human: human_opt(logical),
            reclaimable_bytes: reclaimable,
            reclaimable_human: human_opt(reclaimable),
            reclaimable_bytes_is_lower_bound: reclaimable.is_some()
                && ev.reclaimable_bytes_is_lower_bound,
            completeness: completeness_tag(&completeness),
            confidence: confidence_tag(ev.confidence()),
            active_use_signals: active_use_signals(ev),
            regenerability: regenerability_tag(ev.regenerability),
            policy_label: label_for(decision).as_str(),
            reasons: reason_tags(&decision.reasons),
            native_cleanup_available,
            native_cleanup_action_id,
            fingerprint_token,
            executable,
            offered_actions,
            refusal_reason,
        }
    }
}

/// One item of a `clean --dry-run` report.
#[derive(Debug, Clone, PartialEq)]
pub struct CleanDryRunItem {
    pub resource_id: String,
    pub policy_label: &'static str,
    pub action_id: Option<&'static str>,
    /// Rendered from the typed plan's explanation, never composed freely.
    pub explain: Option<String>,
    pub skip_reason: Option<String>,
}

/// `clean --dry-run` report.
#[derive(Debug, Clone, PartialEq)]
pub struct CleanDryRunReport {
    pub items: Vec<CleanDryRunItem>,
}

impl Default for CleanDryRunReport {
    fn default() -> (r: Self)
        ensures
            r.items@.len() == 0,
    {
        CleanDryRunReport { items: Vec::new() }
    }
}

/// One item of an advisory plan report. Only `priority` and
/// `model_reason` carry anything a model chose; every other field is this
/// machine's own finding, and `candidate` is the same projection `detect`
/// prints.
#[derive(Debug, Clone, PartialEq)]
pub struct LlmPlanItemReport {
    pub resource_id: String,
    pub policy_label: &'static str,
    pub requested_action_id: Option<&'static str>,
    pub priority: Option<u32>,
    /// The model's own rationale: a claim, not evidence.
    pub model_reason: Option<String>,
    pub explain: Option<String>,
    pub skip_reason: Option<String>,
    pub candidate: DetectCandidateReport,
    pub completeness: &'static str,
    pub confidence: &'static str,
}

/// Advisory plan report; nothing is executed from it.
#[derive(Debug, Clone, PartialEq)]
pub struct LlmPlanReport {
    pub items: Vec<LlmPlanItemReport>,
    pub dropped_unknown_resource: u32,
    pub dropped_unknown_action: u32,
    pub provider_error: Option<String>,
}

impl Default for LlmPlanReport {
    fn default() -> (r: Self)
        ensures
            r.items@.len() == 0,
            r.dropped_unknown_resource == 0,
            r.dropped_unknown_action == 0,
            r.provider_error is None,
    {
        LlmPlanReport {
            items: Vec::new(),
            dropped_unknown_resource: 0,
            dropped_unknown_action: 0,
            provider_error: None,
        }
    }
}

/// One wire-id to local-resource mapping of a payload report.
#[derive(Debug, Clone, PartialEq)]
pub struct LlmPayloadResourceAlias {
    pub wire_resource_id: String,
    pub local_resource_id: String,
}

/// The exact request a planning run would send, shown without sending it.
#[derive(Debug, Clone, PartialEq)]
pub struct LlmPayloadReport {
    pub system_prompt: String,
    pub user_prompt: String,
    pub resource_aliases: Vec<LlmPayloadResourceAlias>,
}

/// The outcome of one bounded round trip to the configured provider. Holds
/// no key and no host: only the request path.
#[derive(Debug, Clone, PartialEq)]
pub struct LlmCheckReport {
    /// `"ok"`, `"misconfigured"`, `"unreachable"`, `"rejected"` or
    /// `"unusable_response"`.
    pub outcome: &'static str,
    pub model: String,
    pub endpoint_path: String,
    pub error: Option<String>,
    pub response_excerpt: Option<String>,
}

/// `execute` report: a projection of an execution report.
#[derive(Debug, Clone, PartialEq)]
pub struct ExecuteReport {
    pub action_id: &'static str,
    pub resource_id: String,
    /// `"succeeded"`, `"failed"`, `"aborted_by_revalidation"` or
    /// `"dry_run"`.
    pub outcome: &'static str,
    pub failure_message: Option<String>,
    pub abort_reason: Option<String>,
    pub expected_reclaimed_bytes: Option<u64>,
    pub actual_reclaimed_bytes: Option<u64>,
}

/// A structured refusal of an `execute` request.
#[derive(Debug, Clone, PartialEq)]
pub struct ExecuteRefusalReport {
    pub reason: &'static str,
    pub message: String,
}

/// One registered action, as `actions list` reports it.
#[derive(Debug, Clone, PartialEq)]
pub struct ActionListItem {
    pub action_id: &'static str,
    pub applies_to: Vec<&'static str>,
}

/// `actions list` report.
#[derive(Debug, Clone, PartialEq)]
pub struct ActionListReport {
    pub actions: Vec<ActionListItem>,
}

} // verus!
