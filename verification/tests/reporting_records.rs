use glomeris::detectors::DetectorId;
use glomeris::evidence::model::{
    ActionId, Evidence, GitState, NativeCleanup, ProcessRef, Recoverability, Regenerability,
    ResourceFingerprint, ResourceId, ResourceKind, ResourceLocator,
};
use glomeris::evidence::probe::{ProbeOutcome, ProbeReason};
use glomeris::evidence::time::Timestamp;
use glomeris::policy::class::{PolicyClass, ReasonCode};
use glomeris::policy::decision::PolicyDecision;
use glomeris::reporting::dto::{active_use_signals, DetectCandidateReport, ExplainReport};
use glomeris::reporting::impact::ImpactContext;
use glomeris::reporting::policy_label::{label_for, PolicyLabel};

fn base_evidence() -> Evidence {
    Evidence {
        resource: ResourceId::new(
            ResourceKind::CargoTargetDir,
            ResourceLocator::Path("/tmp/proj/target".to_string()),
        ),
        fingerprint: ResourceFingerprint {
            dev_ino: None,
            mtime: None,
            tool_revision: None,
        },
        detector: DetectorId("test"),
        logical_bytes: ProbeOutcome::Observed(2048),
        physical_bytes: None,
        reclaimable_bytes: ProbeOutcome::Observed(1024),
        reclaimable_bytes_is_lower_bound: false,
        last_modified: ProbeOutcome::Observed(Timestamp::unix_epoch()),
        last_accessed: ProbeOutcome::Unavailable(ProbeReason::NotAttempted),
        regenerability: Regenerability::RegenerableByRebuild,
        recoverability: Recoverability::RegenerableByRebuild,
        native_cleanup: NativeCleanup::Unsupported,
        open_by_process: ProbeOutcome::Observed(Vec::new()),
        process_cwd_match: ProbeOutcome::Observed(Vec::new()),
        git_state: ProbeOutcome::Observed(None),
        tool_liveness: ProbeOutcome::Observed(false),
        collected_at: Timestamp::unix_epoch(),
        sources: Vec::new(),
    }
}

fn decision(class: PolicyClass, reasons: Vec<ReasonCode>) -> PolicyDecision {
    PolicyDecision {
        resource: ResourceId::new(
            ResourceKind::CargoTargetDir,
            ResourceLocator::Path("/tmp/proj/target".to_string()),
        ),
        class,
        reasons,
        evidence_collected_at: Timestamp::unix_epoch(),
        evaluated_at: Timestamp::unix_epoch(),
        policy_version: 1,
    }
}

fn cargo_action() -> ActionId {
    ActionId("cargo.clean.target_dir")
}

#[test]
fn detect_candidate_report_projects_expected_fields() {
    let ev = base_evidence();
    let d = decision(PolicyClass::AutoSafe, vec![ReasonCode::NoActiveUseObserved]);
    let report = DetectCandidateReport::from_evidence_and_decision(&ev, &d, None, ImpactContext::default());
    assert_eq!(report.resource_id, "cargo_target_dir:/tmp/proj/target");
    assert_eq!(report.kind, "cargo_target_dir");
    assert_eq!(report.reclaimable_bytes, Some(1024));
    assert_eq!(report.reclaimable_human.as_deref(), Some("1.0 KB"));
    assert!(!report.reclaimable_bytes_is_lower_bound);
    assert_eq!(report.policy_label, "AUTO_SAFE");
    assert_eq!(report.reasons, vec!["no_active_use_observed"]);
    assert_eq!(report.impact_tier, "normal");
}

#[test]
fn detect_candidate_report_handles_missing_reclaimable_bytes() {
    let mut ev = base_evidence();
    ev.reclaimable_bytes = ProbeOutcome::Unavailable(ProbeReason::NotAttempted);
    let d = decision(PolicyClass::Ask, vec![ReasonCode::EvidenceIncomplete]);
    let report = DetectCandidateReport::from_evidence_and_decision(&ev, &d, None, ImpactContext::default());
    assert_eq!(report.reclaimable_bytes, None);
    assert_eq!(report.reclaimable_human, None);
    assert_eq!(report.policy_label, "UNKNOWN_INCOMPLETE");
    assert_eq!(report.impact_tier, "unknown");
}

#[test]
fn detect_candidate_report_surfaces_lower_bound_flag() {
    let mut ev = base_evidence();
    ev.reclaimable_bytes_is_lower_bound = true;
    let d = decision(PolicyClass::AutoSafe, vec![ReasonCode::NoActiveUseObserved]);
    let report = DetectCandidateReport::from_evidence_and_decision(&ev, &d, None, ImpactContext::default());
    assert!(report.reclaimable_bytes_is_lower_bound);
}

#[test]
fn detect_candidate_report_lower_bound_flag_is_false_without_observed_bytes() {
    let mut ev = base_evidence();
    ev.reclaimable_bytes = ProbeOutcome::Unavailable(ProbeReason::NotAttempted);
    ev.reclaimable_bytes_is_lower_bound = true;
    let d = decision(PolicyClass::Ask, vec![ReasonCode::EvidenceIncomplete]);
    let report = DetectCandidateReport::from_evidence_and_decision(&ev, &d, None, ImpactContext::default());
    assert!(!report.reclaimable_bytes_is_lower_bound);
}

#[test]
fn detect_candidate_report_escalates_impact_with_free_space() {
    let mut ev = base_evidence();
    ev.reclaimable_bytes = ProbeOutcome::Observed(400 * 1024 * 1024);
    let d = decision(PolicyClass::AutoSafe, vec![ReasonCode::NoActiveUseObserved]);
    let report = DetectCandidateReport::from_evidence_and_decision(
        &ev,
        &d,
        None,
        ImpactContext::with_free_bytes(1600 * 1024 * 1024),
    );
    assert_eq!(report.impact_tier, "large");
    assert_eq!(report.reclaimable_human.as_deref(), Some("400.0 MB"));
}

#[test]
fn explain_report_distinguishes_logical_from_reclaimable_bytes() {
    let ev = base_evidence();
    let d = decision(PolicyClass::AutoSafe, vec![ReasonCode::NoActiveUseObserved]);
    let report = ExplainReport::from_evidence_and_decision(&ev, &d, None);
    assert_eq!(report.logical_bytes, Some(2048));
    assert_eq!(report.reclaimable_bytes, Some(1024));
    assert_ne!(report.logical_bytes, report.reclaimable_bytes);
    assert_eq!(report.logical_human.as_deref(), Some("2.0 KB"));
    assert_eq!(report.reclaimable_human.as_deref(), Some("1.0 KB"));
    assert!(!report.reclaimable_bytes_is_lower_bound);
}

#[test]
fn explain_report_surfaces_lower_bound_flag() {
    let mut ev = base_evidence();
    ev.reclaimable_bytes_is_lower_bound = true;
    let d = decision(PolicyClass::AutoSafe, vec![ReasonCode::NoActiveUseObserved]);
    let report = ExplainReport::from_evidence_and_decision(&ev, &d, None);
    assert!(report.reclaimable_bytes_is_lower_bound);
}

#[test]
fn explain_report_native_cleanup_available() {
    let mut ev = base_evidence();
    ev.native_cleanup = NativeCleanup::Available(ActionId("cargo.clean.target_dir"));
    let d = decision(PolicyClass::AutoSafe, vec![]);
    let report = ExplainReport::from_evidence_and_decision(&ev, &d, None);
    assert!(report.native_cleanup_available);
    assert_eq!(report.native_cleanup_action_id, Some("cargo.clean.target_dir"));
}

#[test]
fn explain_report_native_cleanup_unsupported() {
    let ev = base_evidence();
    let d = decision(PolicyClass::AutoSafe, vec![]);
    let report = ExplainReport::from_evidence_and_decision(&ev, &d, None);
    assert!(!report.native_cleanup_available);
    assert_eq!(report.native_cleanup_action_id, None);
}

#[test]
fn explain_report_tags_and_fingerprint_token() {
    let mut ev = base_evidence();
    ev.sources = vec!["walked /tmp/proj".to_string()];
    let d = decision(PolicyClass::AutoSafe, vec![]);
    let report = ExplainReport::from_evidence_and_decision(&ev, &d, None);
    assert_eq!(report.detector, "test");
    assert_eq!(report.sources, vec!["walked /tmp/proj".to_string()]);
    assert_eq!(report.regenerability, "regenerable_by_rebuild");
    assert_eq!(report.completeness, "complete");
    assert_eq!(report.fingerprint_token, None);

    ev.fingerprint.dev_ino = Some((1, 2));
    let report = ExplainReport::from_evidence_and_decision(&ev, &d, None);
    let token = report.fingerprint_token.expect("a fingerprint with data has a token");
    assert!(token.starts_with('v'));
}

#[test]
fn active_use_signals_empty_for_clean_evidence() {
    let ev = base_evidence();
    assert!(active_use_signals(&ev).is_empty());
}

#[test]
fn active_use_signals_reports_open_by_process() {
    let mut ev = base_evidence();
    ev.open_by_process = ProbeOutcome::Observed(vec![ProcessRef {
        pid: 42,
        command: "cargo".to_string(),
    }]);
    let signals = active_use_signals(&ev);
    assert_eq!(signals.len(), 1);
    assert!(signals[0].contains("cargo(pid 42)"));
}

#[test]
fn active_use_signals_joins_several_processes() {
    let mut ev = base_evidence();
    ev.process_cwd_match = ProbeOutcome::Observed(vec![
        ProcessRef { pid: 7, command: "zsh".to_string() },
        ProcessRef { pid: 1234, command: "vim".to_string() },
    ]);
    let signals = active_use_signals(&ev);
    assert_eq!(signals, vec!["process cwd match: zsh(pid 7), vim(pid 1234)".to_string()]);
}

#[test]
fn active_use_signals_reports_dirty_git_worktree() {
    let mut ev = base_evidence();
    ev.git_state = ProbeOutcome::Observed(Some(GitState {
        repo_root: "/tmp/proj".to_string(),
        dirty: true,
        untracked: false,
        worktree: false,
    }));
    let signals = active_use_signals(&ev);
    assert!(signals.iter().any(|s| s.contains("dirty")));
}

#[test]
fn active_use_signals_reports_tool_liveness() {
    let mut ev = base_evidence();
    ev.tool_liveness = ProbeOutcome::Observed(true);
    let signals = active_use_signals(&ev);
    assert!(signals.iter().any(|s| s.contains("running")));
}

#[test]
fn active_use_signals_never_infers_activity_from_unavailable_probes() {
    let mut ev = base_evidence();
    ev.open_by_process = ProbeOutcome::Unavailable(ProbeReason::Failed);
    ev.tool_liveness = ProbeOutcome::Unavailable(ProbeReason::Failed);
    assert!(active_use_signals(&ev).is_empty());
}

#[test]
fn protected_is_never_executable_and_offers_no_action_detect() {
    let ev = base_evidence();
    let d = decision(PolicyClass::Protected, vec![ReasonCode::ProtectedCredentialMaterial]);
    let report = DetectCandidateReport::from_evidence_and_decision(
        &ev,
        &d,
        Some(cargo_action()),
        ImpactContext::default(),
    );
    assert!(!report.executable);
    assert!(report.offered_actions.is_empty());
    assert!(report.refusal_reason.is_some());
    assert!(report
        .refusal_reason
        .as_deref()
        .unwrap()
        .contains("protected_credential_material"));
}

#[test]
fn protected_is_never_executable_and_offers_no_action_explain() {
    let ev = base_evidence();
    let d = decision(PolicyClass::Protected, vec![ReasonCode::ProtectedCredentialMaterial]);
    let report = ExplainReport::from_evidence_and_decision(&ev, &d, Some(cargo_action()));
    assert!(!report.executable);
    assert!(report.offered_actions.is_empty());
    assert!(report.refusal_reason.is_some());
}

#[test]
fn ask_with_resolvable_action_requires_confirmation_detect() {
    let ev = base_evidence();
    let d = decision(PolicyClass::Ask, vec![ReasonCode::ResourceInActiveUse]);
    let report = DetectCandidateReport::from_evidence_and_decision(
        &ev,
        &d,
        Some(cargo_action()),
        ImpactContext::default(),
    );
    assert!(report.executable);
    assert_eq!(report.offered_actions.len(), 1);
    assert_eq!(report.offered_actions[0].action_id, "cargo.clean.target_dir");
    assert!(report.offered_actions[0].requires_confirmation);
    assert!(report.refusal_reason.is_none());
}

#[test]
fn ask_with_resolvable_action_requires_confirmation_explain() {
    let ev = base_evidence();
    let d = decision(PolicyClass::Ask, vec![ReasonCode::ResourceInActiveUse]);
    let report = ExplainReport::from_evidence_and_decision(&ev, &d, Some(cargo_action()));
    assert!(report.executable);
    assert_eq!(report.offered_actions.len(), 1);
    assert!(report.offered_actions[0].requires_confirmation);
    assert!(report.refusal_reason.is_none());
}

#[test]
fn unknown_incomplete_with_resolvable_action_requires_confirmation_detect() {
    let ev = base_evidence();
    let d = decision(PolicyClass::Ask, vec![ReasonCode::EvidenceIncomplete]);
    assert_eq!(label_for(&d), PolicyLabel::UnknownIncomplete);
    let report = DetectCandidateReport::from_evidence_and_decision(
        &ev,
        &d,
        Some(cargo_action()),
        ImpactContext::default(),
    );
    assert!(report.executable);
    assert_eq!(report.offered_actions.len(), 1);
    assert!(report.offered_actions[0].requires_confirmation);
    assert!(report.refusal_reason.is_none());
}

#[test]
fn unknown_incomplete_with_resolvable_action_requires_confirmation_explain() {
    let ev = base_evidence();
    let d = decision(PolicyClass::Ask, vec![ReasonCode::EvidenceIncomplete]);
    assert_eq!(label_for(&d), PolicyLabel::UnknownIncomplete);
    let report = ExplainReport::from_evidence_and_decision(&ev, &d, Some(cargo_action()));
    assert!(report.executable);
    assert_eq!(report.offered_actions.len(), 1);
    assert!(report.offered_actions[0].requires_confirmation);
    assert!(report.refusal_reason.is_none());
}

#[test]
fn auto_safe_with_resolvable_action_does_not_require_confirmation_detect() {
    let ev = base_evidence();
    let d = decision(PolicyClass::AutoSafe, vec![ReasonCode::NoActiveUseObserved]);
    let report = DetectCandidateReport::from_evidence_and_decision(
        &ev,
        &d,
        Some(cargo_action()),
        ImpactContext::default(),
    );
    assert!(report.executable);
    assert_eq!(report.offered_actions.len(), 1);
    assert_eq!(report.offered_actions[0].action_id, "cargo.clean.target_dir");
    assert!(!report.offered_actions[0].requires_confirmation);
    assert!(report.refusal_reason.is_none());
}

#[test]
fn auto_safe_with_resolvable_action_does_not_require_confirmation_explain() {
    let ev = base_evidence();
    let d = decision(PolicyClass::AutoSafe, vec![ReasonCode::NoActiveUseObserved]);
    let report = ExplainReport::from_evidence_and_decision(&ev, &d, Some(cargo_action()));
    assert!(report.executable);
    assert_eq!(report.offered_actions.len(), 1);
    assert!(!report.offered_actions[0].requires_confirmation);
    assert!(report.refusal_reason.is_none());
}

#[test]
fn no_resolvable_action_is_never_executable_regardless_of_policy_class_detect() {
    let ev = base_evidence();
    let d = decision(PolicyClass::AutoSafe, vec![ReasonCode::NoActiveUseObserved]);
    let report = DetectCandidateReport::from_evidence_and_decision(&ev, &d, None, ImpactContext::default());
    assert!(!report.executable);
    assert!(report.offered_actions.is_empty());
    let reason = report.refusal_reason.expect("must set a refusal reason");
    assert!(!reason.contains("PROTECTED"));
    assert!(reason.contains("no registered cleanup action"));
}

#[test]
fn no_resolvable_action_is_never_executable_regardless_of_policy_class_explain() {
    let ev = base_evidence();
    let d = decision(PolicyClass::AutoSafe, vec![ReasonCode::NoActiveUseObserved]);
    let report = ExplainReport::from_evidence_and_decision(&ev, &d, None);
    assert!(!report.executable);
    assert!(report.offered_actions.is_empty());
    let reason = report.refusal_reason.expect("must set a refusal reason");
    assert!(!reason.contains("PROTECTED"));
    assert!(reason.contains("no registered cleanup action"));
}

#[test]
fn protected_and_no_action_refusal_reasons_are_distinguishable() {
    let ev = base_evidence();
    let protected = decision(PolicyClass::Protected, vec![ReasonCode::ProtectedCredentialMaterial]);
    let protected_report =
        DetectCandidateReport::from_evidence_and_decision(&ev, &protected, None, ImpactContext::default());
    let no_action = decision(PolicyClass::AutoSafe, vec![ReasonCode::NoActiveUseObserved]);
    let no_action_report =
        DetectCandidateReport::from_evidence_and_decision(&ev, &no_action, None, ImpactContext::default());
    assert_ne!(protected_report.refusal_reason, no_action_report.refusal_reason);
    assert_eq!(
        protected_report.refusal_reason.as_deref(),
        Some("PROTECTED: protected_credential_material")
    );
}
