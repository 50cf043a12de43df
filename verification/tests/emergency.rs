use glomeris::detectors::{DetectorId, DetectorStatus};
use glomeris::evidence::correlate::CorrelationResult;
use glomeris::evidence::model::{
    Evidence, NativeCleanup, Recoverability, Regenerability, ResourceFingerprint, ResourceId,
    ResourceKind, ResourceLocator,
};
use glomeris::evidence::probe::{ProbeOutcome, ProbeReason};
use glomeris::evidence::time::{TimeSpan, Timestamp};
use glomeris::emergency::{
    action_id_for_kind, triage, EmergencyReport, SelfStateCleanup, Triage, MAX_ERRORS,
};
use glomeris::executor::{AbortReason, ExecutionOutcome};
use glomeris::policy::class::PolicyClass;

#[test]
fn default_report_has_no_errors_and_is_all_zero() {
    let report = EmergencyReport::default();
    assert_eq!(report.actions_attempted, 0);
    assert_eq!(report.actions_succeeded, 0);
    assert_eq!(report.total_bytes_freed, 0);
    assert_eq!(report.denied_candidates, 0);
    assert!(report.errors.is_empty());
}

#[test]
fn push_error_is_bounded_at_max_errors() {
    let mut report = EmergencyReport::default();
    for i in 0..20 {
        report.push_error(format!("error-{i}"));
    }
    assert_eq!(report.errors.len(), MAX_ERRORS);
}

#[test]
fn display_renders_without_panicking_for_empty_and_populated_reports() {
    let empty = EmergencyReport::default();
    assert!(empty.render().contains("errors:            none"));
    let mut populated = EmergencyReport {
        actions_attempted: 2,
        actions_succeeded: 1,
        total_bytes_freed: 4096,
        denied_candidates: 1,
        ..EmergencyReport::default()
    };
    populated.push_error("something non-fatal happened".to_string());
    let rendered = populated.render();
    assert!(rendered.contains("actions attempted: 2"));
    assert!(rendered.contains("something non-fatal happened"));
    assert_eq!(
        rendered,
        "glomeris emergency report:\n  actions attempted: 2\n  actions succeeded: 1\n  bytes freed:       4096\n  candidates denied: 1\n  errors (1):\n    - something non-fatal happened\n"
    );
}

#[test]
fn only_auto_safe_candidates_are_attempted() {
    assert_eq!(triage(PolicyClass::Ask, ResourceKind::CargoTargetDir), Triage::Denied);
    assert_eq!(triage(PolicyClass::Protected, ResourceKind::NodeModules), Triage::Denied);
    assert_eq!(
        triage(PolicyClass::AutoSafe, ResourceKind::CargoTargetDir),
        Triage::Attempt("cargo.clean.target_dir")
    );
    assert_eq!(triage(PolicyClass::AutoSafe, ResourceKind::DockerBuildCache), Triage::NoAction);
    assert_eq!(action_id_for_kind(ResourceKind::HomebrewCache), Some("homebrew.cleanup.cache"));
    assert_eq!(action_id_for_kind(ResourceKind::Unknown), None);
}

#[test]
fn attempts_are_counted_and_failures_reported() {
    let mut report = EmergencyReport::default();
    report.record_attempt("node.clean.node_modules", &ExecutionOutcome::Succeeded, &ProbeOutcome::Observed(512));
    report.record_attempt(
        "node.clean.node_modules",
        &ExecutionOutcome::AbortedByRevalidation(AbortReason::ResourceIdentityChanged),
        &ProbeOutcome::Unavailable(ProbeReason::NotAttempted),
    );
    report.record_attempt(
        "cargo.clean.target_dir",
        &ExecutionOutcome::Failed("cargo exited 1".to_string()),
        &ProbeOutcome::Unavailable(ProbeReason::NotAttempted),
    );
    report.deny();
    assert_eq!(report.actions_attempted, 3);
    assert_eq!(report.actions_succeeded, 1);
    assert_eq!(report.total_bytes_freed, 512);
    assert_eq!(report.denied_candidates, 1);
    assert_eq!(
        report.errors,
        vec![
            "action node.clean.node_modules aborted by revalidation: ResourceIdentityChanged".to_string(),
            "action cargo.clean.target_dir failed: cargo exited 1".to_string(),
        ]
    );
}

fn candidate(kind: ResourceKind, path: &str) -> Evidence {
    Evidence {
        resource: ResourceId::new(kind, ResourceLocator::Path(path.to_string())),
        fingerprint: ResourceFingerprint { dev_ino: Some((1, 2)), mtime: None, tool_revision: None },
        detector: DetectorId("test"),
        logical_bytes: ProbeOutcome::Observed(4096),
        physical_bytes: None,
        reclaimable_bytes: ProbeOutcome::Observed(4096),
        reclaimable_bytes_is_lower_bound: false,
        last_modified: ProbeOutcome::Observed(Timestamp::unix_epoch()),
        last_accessed: ProbeOutcome::Unavailable(ProbeReason::NotAttempted),
        regenerability: Regenerability::RegenerableByRebuild,
        recoverability: Recoverability::RegenerableByRebuild,
        native_cleanup: NativeCleanup::Unsupported,
        open_by_process: ProbeOutcome::Unavailable(ProbeReason::NotAttempted),
        process_cwd_match: ProbeOutcome::Unavailable(ProbeReason::NotAttempted),
        git_state: ProbeOutcome::Unavailable(ProbeReason::NotAttempted),
        tool_liveness: ProbeOutcome::Unavailable(ProbeReason::NotAttempted),
        collected_at: Timestamp::unix_epoch(),
        sources: Vec::new(),
    }
}

fn quiet_correlation() -> CorrelationResult {
    CorrelationResult {
        open_by_process: ProbeOutcome::Observed(Vec::new()),
        process_cwd_match: ProbeOutcome::Observed(Vec::new()),
        git_state: ProbeOutcome::Observed(None),
        tool_liveness: ProbeOutcome::Observed(false),
    }
}

fn failed_correlation() -> CorrelationResult {
    CorrelationResult {
        open_by_process: ProbeOutcome::Unavailable(ProbeReason::Failed),
        process_cwd_match: ProbeOutcome::Unavailable(ProbeReason::Failed),
        git_state: ProbeOutcome::Unavailable(ProbeReason::Failed),
        tool_liveness: ProbeOutcome::Unavailable(ProbeReason::Failed),
    }
}

#[test]
fn auto_safe_candidate_is_planned_with_its_action() {
    let mut report = EmergencyReport::default();
    let mut ev = candidate(ResourceKind::CargoTargetDir, "/work/proj/target");
    let now = Timestamp::from_unix_secs(1_700_000_000);
    let planned = report.plan_candidate(&mut ev, quiet_correlation(), now);
    let (action, approval) = planned.expect("AutoSafe cargo target dir is planned");
    assert_eq!(action.0, "cargo.clean.target_dir");
    assert_eq!(approval.decision().class, glomeris::policy::class::PolicyClass::AutoSafe);
    assert_eq!(ev.collected_at, now);
    assert_eq!(ev.git_state, ProbeOutcome::Observed(None));
    assert_eq!(report.denied_candidates, 0);
    assert!(report.errors.is_empty());
}

#[test]
fn candidate_with_failed_correlation_is_denied() {
    let mut report = EmergencyReport::default();
    let mut ev = candidate(ResourceKind::CargoTargetDir, "/work/proj/target");
    let planned = report.plan_candidate(&mut ev, failed_correlation(), Timestamp::from_unix_secs(10));
    assert!(planned.is_none());
    assert_eq!(report.denied_candidates, 1);
    assert_eq!(report.actions_attempted, 0);
}

#[test]
fn auto_safe_kind_without_action_is_an_error_not_a_denial() {
    let mut report = EmergencyReport::default();
    let mut ev = candidate(ResourceKind::XcodeDerivedData, "/Users/me/DerivedData");
    let planned = report.plan_candidate(&mut ev, quiet_correlation(), Timestamp::from_unix_secs(10));
    assert!(planned.is_none());
    assert_eq!(report.denied_candidates, 0);
    assert_eq!(
        report.errors,
        vec!["no registered action for AutoSafe candidate xcode_derived_data:/Users/me/DerivedData"
            .to_string()]
    );
}

#[test]
fn protected_candidate_is_denied_even_under_pressure() {
    let mut report = EmergencyReport::default();
    let mut ev = candidate(ResourceKind::CargoTargetDir, "/Users/me/.ssh/target");
    let planned = report.plan_candidate(&mut ev, quiet_correlation(), Timestamp::from_unix_secs(10));
    assert!(planned.is_none());
    assert_eq!(report.denied_candidates, 1);
}

#[test]
fn self_state_cleanup_counts_only_real_work() {
    let mut report = EmergencyReport::default();
    report.record_self_state_cleanup("/h/history.tsv", SelfStateCleanup::Missing);
    assert_eq!(report, EmergencyReport::default());

    report.record_self_state_cleanup("/h/history.tsv", SelfStateCleanup::Removed(300));
    assert_eq!(report.actions_attempted, 1);
    assert_eq!(report.actions_succeeded, 1);
    assert_eq!(report.total_bytes_freed, 300);

    report.record_self_state_cleanup(
        "/h/history.tsv",
        SelfStateCleanup::RemoveFailed("busy".to_string()),
    );
    assert_eq!(report.actions_attempted, 2);
    assert_eq!(report.actions_succeeded, 1);
    assert_eq!(
        report.errors,
        vec!["failed to remove self-owned disposable state /h/history.tsv: busy".to_string()]
    );

    report.record_self_state_cleanup(
        "/h/history.tsv",
        SelfStateCleanup::StatFailed("denied".to_string()),
    );
    assert_eq!(report.actions_attempted, 2);
    assert_eq!(
        report.errors[1],
        "failed to stat self-owned disposable state /h/history.tsv: denied"
    );
}

#[test]
fn collect_candidates_keeps_evidence_and_reports_failed_detectors() {
    let mut report = EmergencyReport::default();
    let results = vec![
        (DetectorId("a"), DetectorStatus::ToolAbsent),
        (
            DetectorId("b"),
            DetectorStatus::Found(vec![candidate(ResourceKind::NodeModules, "/p/node_modules")]),
        ),
        (DetectorId("c"), DetectorStatus::Failed("boom".to_string())),
        (
            DetectorId("d"),
            DetectorStatus::Found(vec![candidate(ResourceKind::CargoTargetDir, "/p/target")]),
        ),
    ];
    let found = report.collect_candidates(results);
    assert_eq!(found.len(), 2);
    assert_eq!(found[0].resource.kind, ResourceKind::NodeModules);
    assert_eq!(found[1].resource.kind, ResourceKind::CargoTargetDir);
    assert_eq!(report.errors, vec!["detector failed: boom".to_string()]);
}

#[test]
fn candidate_loop_stops_at_the_action_or_time_budget() {
    let mut report = EmergencyReport::default();
    let limit = TimeSpan::from_secs(30);
    assert!(report.may_continue(1, TimeSpan::from_secs(29), limit));
    assert!(!report.may_continue(1, TimeSpan::from_secs(30), limit));
    report.actions_attempted = 1;
    assert!(!report.may_continue(1, TimeSpan::from_secs(0), limit));
}
