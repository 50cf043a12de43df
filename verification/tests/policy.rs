use glomeris::detectors::DetectorId;
use glomeris::evidence::model::{
    Evidence, NativeCleanup, OwningTool, Recoverability, ResourceFingerprint, ResourceId,
    ResourceKind, ResourceLocator,
};
use glomeris::evidence::probe::{ProbeOutcome, ProbeReason};
use glomeris::evidence::time::{TimeSpan, Timestamp};
use glomeris::policy::approval::{authorize, UserConsent};
use glomeris::policy::class::{PolicyClass, ReasonCode};
use glomeris::policy::config::PolicyConfig;
use glomeris::policy::decision::PolicyDecision;
use glomeris::policy::engine::classify;
use glomeris::policy::protected::protected_reason;

// ---- reason codes ----

#[test]
fn as_str_is_distinct_and_non_empty_for_every_variant() {
    let mut tags: Vec<&'static str> = ReasonCode::all().iter().map(|r| r.as_str()).collect();
    let original_len = tags.len();
    tags.sort_unstable();
    tags.dedup();
    assert_eq!(tags.len(), original_len);
    assert!(tags.iter().all(|t| !t.is_empty()));
}

#[test]
fn all_lists_every_variant_exactly_once() {
    for (index, reason) in ReasonCode::all().iter().enumerate() {
        let expected_index = match reason {
            ReasonCode::ProtectedCredentialMaterial => 0,
            ReasonCode::ProtectedGitInternals => 1,
            ReasonCode::ProtectedInfraState => 2,
            ReasonCode::ProtectedPersistentVolume => 3,
            ReasonCode::ProtectedUserDocuments => 4,
            ReasonCode::ProtectedSystemPath => 5,
            ReasonCode::ProtectedUnsafeMountOrSymlink => 6,
            ReasonCode::ProtectedUnknownResourceKind => 7,
            ReasonCode::EvidenceIncomplete => 8,
            ReasonCode::EvidenceStale => 9,
            ReasonCode::EvidenceProbeFailed => 10,
            ReasonCode::ResourceInActiveUse => 11,
            ReasonCode::GitWorktreeDirty => 12,
            ReasonCode::RebuildCostHigh => 13,
            ReasonCode::OwningToolLive => 14,
            ReasonCode::EvidenceFreshAndComplete => 15,
            ReasonCode::RegenerableByTool => 16,
            ReasonCode::NoActiveUseObserved => 17,
        };
        assert_eq!(index, expected_index, "{}", reason.as_str());
    }
    assert_eq!(ReasonCode::all().len(), 18);
}

#[test]
fn class_every_variant_round_trips_through_its_tag() {
    for reason in ReasonCode::all() {
        assert_eq!(ReasonCode::from_tag(reason.as_str()), Some(reason));
    }
}

#[test]
fn class_from_tag_rejects_near_misses_rather_than_guessing() {
    for near_miss in [
        "",
        "rebuild_cost",
        "rebuild-cost-high",
        "REBUILD_COST_HIGH",
        " rebuild_cost_high",
        "rebuild_cost_high ",
        "protected",
        "not_a_reason",
    ] {
        assert_eq!(ReasonCode::from_tag(near_miss), None, "{near_miss:?}");
    }
}

#[test]
fn default_max_evidence_age_is_five_minutes() {
    assert_eq!(PolicyConfig::default().max_evidence_age, TimeSpan::from_secs(300));
}

// ---- classify ----

fn at(secs: i64) -> Timestamp {
    Timestamp::from_unix_secs(secs)
}

fn complete_evidence(kind: ResourceKind, collected_at: Timestamp) -> Evidence {
    Evidence {
        resource: ResourceId::new(kind, ResourceLocator::Path("/tmp/x".to_string())),
        fingerprint: ResourceFingerprint {
            dev_ino: None,
            mtime: None,
            tool_revision: None,
        },
        detector: DetectorId("test"),
        logical_bytes: ProbeOutcome::Observed(1024),
        physical_bytes: None,
        reclaimable_bytes: ProbeOutcome::Observed(1024),
        reclaimable_bytes_is_lower_bound: false,
        last_modified: ProbeOutcome::Observed(Timestamp::unix_epoch()),
        last_accessed: ProbeOutcome::Unavailable(ProbeReason::NotAttempted),
        regenerability: kind.regenerability(),
        recoverability: Recoverability::RegenerableByRebuild,
        native_cleanup: NativeCleanup::Unsupported,
        open_by_process: ProbeOutcome::Observed(Vec::new()),
        process_cwd_match: ProbeOutcome::Observed(Vec::new()),
        git_state: ProbeOutcome::Observed(None),
        tool_liveness: ProbeOutcome::Observed(false),
        collected_at,
        sources: Vec::new(),
    }
}

fn cfg() -> PolicyConfig {
    PolicyConfig {
        max_evidence_age: TimeSpan::from_secs(300),
    }
}

#[test]
fn unknown_resource_kind_is_unconditionally_protected() {
    let ev = complete_evidence(ResourceKind::Unknown, at(0));
    let decision = classify(&ev, &cfg(), at(0));
    assert_eq!(decision.class, PolicyClass::Protected);
    assert_eq!(decision.reasons, vec![ReasonCode::ProtectedUnknownResourceKind]);
}

#[test]
fn protected_path_wins_even_with_stale_evidence() {
    let mut ev = complete_evidence(ResourceKind::CargoTargetDir, at(0));
    ev.resource = ResourceId::new(
        ResourceKind::CargoTargetDir,
        ResourceLocator::Path("/Users/x/.ssh/id_ed25519".to_string()),
    );
    let decision = classify(&ev, &cfg(), at(10_000));
    assert_eq!(decision.class, PolicyClass::Protected);
    assert_eq!(decision.reasons, vec![ReasonCode::ProtectedCredentialMaterial]);
}

#[test]
fn stale_evidence_is_ask() {
    let ev = complete_evidence(ResourceKind::CargoTargetDir, at(0));
    let decision = classify(&ev, &cfg(), at(301));
    assert_eq!(decision.class, PolicyClass::Ask);
    assert_eq!(decision.reasons, vec![ReasonCode::EvidenceStale]);
}

#[test]
fn evidence_exactly_at_the_age_limit_is_still_fresh() {
    let ev = complete_evidence(ResourceKind::CargoTargetDir, at(0));
    let decision = classify(&ev, &cfg(), at(300));
    assert_eq!(decision.class, PolicyClass::AutoSafe);
    assert_eq!(decision.reasons, vec![ReasonCode::EvidenceFreshAndComplete]);
}

#[test]
fn evidence_collected_after_now_is_ask_stale() {
    let ev = complete_evidence(ResourceKind::CargoTargetDir, at(10));
    let decision = classify(&ev, &cfg(), at(0));
    assert_eq!(decision.class, PolicyClass::Ask);
    assert_eq!(decision.reasons, vec![ReasonCode::EvidenceStale]);
}

#[test]
fn failed_completeness_is_ask_probe_failed_never_protected() {
    let mut ev = complete_evidence(ResourceKind::CargoTargetDir, at(0));
    ev.logical_bytes = ProbeOutcome::Unavailable(ProbeReason::NotAttempted);
    ev.reclaimable_bytes = ProbeOutcome::Unavailable(ProbeReason::NotAttempted);
    ev.last_modified = ProbeOutcome::Unavailable(ProbeReason::NotAttempted);
    ev.open_by_process = ProbeOutcome::Unavailable(ProbeReason::NotAttempted);
    ev.process_cwd_match = ProbeOutcome::Unavailable(ProbeReason::NotAttempted);
    ev.git_state = ProbeOutcome::Unavailable(ProbeReason::NotAttempted);
    let decision = classify(&ev, &cfg(), at(0));
    assert_eq!(decision.class, PolicyClass::Ask);
    assert_eq!(decision.reasons, vec![ReasonCode::EvidenceProbeFailed]);
}

#[test]
fn partial_completeness_is_ask_incomplete() {
    let mut ev = complete_evidence(ResourceKind::CargoTargetDir, at(0));
    ev.git_state = ProbeOutcome::Unavailable(ProbeReason::NotAttempted);
    let decision = classify(&ev, &cfg(), at(0));
    assert_eq!(decision.class, PolicyClass::Ask);
    assert_eq!(decision.reasons, vec![ReasonCode::EvidenceIncomplete]);
}

#[test]
fn policy_version_is_one() {
    let ev = complete_evidence(ResourceKind::CargoTargetDir, at(0));
    let decision = classify(&ev, &cfg(), at(0));
    assert_eq!(decision.policy_version, 1);
    assert_eq!(decision.evaluated_at, at(0));
    assert_eq!(decision.evidence_collected_at, at(0));
}

// ---- protected paths ----

fn path_resource(kind: ResourceKind, path: &str) -> ResourceId {
    ResourceId::new(kind, ResourceLocator::Path(path.to_string()))
}

#[test]
fn docker_image_cache_is_always_protected_persistent_volume() {
    let resource = ResourceId::new(
        ResourceKind::DockerImageCache,
        ResourceLocator::Tool {
            tool: OwningTool::Docker,
            id: "sha256:abc".to_string(),
        },
    );
    assert_eq!(protected_reason(&resource), Some(ReasonCode::ProtectedPersistentVolume));
}

#[test]
fn docker_build_cache_is_not_unconditionally_protected() {
    let resource = ResourceId::new(
        ResourceKind::DockerBuildCache,
        ResourceLocator::Tool {
            tool: OwningTool::Docker,
            id: "build_cache".to_string(),
        },
    );
    assert_eq!(protected_reason(&resource), None);
}

#[test]
fn ssh_dir_is_protected_credential_material() {
    let resource = path_resource(ResourceKind::CargoTargetDir, "/Users/x/.ssh/id_ed25519");
    assert_eq!(protected_reason(&resource), Some(ReasonCode::ProtectedCredentialMaterial));
}

#[test]
fn pem_file_is_protected_credential_material() {
    let resource = path_resource(ResourceKind::CargoTargetDir, "/Users/x/certs/site.pem");
    assert_eq!(protected_reason(&resource), Some(ReasonCode::ProtectedCredentialMaterial));
}

#[test]
fn dot_git_component_is_protected_git_internals() {
    let resource = path_resource(ResourceKind::CargoTargetDir, "/Users/x/proj/.git/objects/pack");
    assert_eq!(protected_reason(&resource), Some(ReasonCode::ProtectedGitInternals));
}

#[test]
fn tfstate_file_is_protected_infra_state() {
    let resource = path_resource(ResourceKind::CargoTargetDir, "/Users/x/infra/terraform.tfstate");
    assert_eq!(protected_reason(&resource), Some(ReasonCode::ProtectedInfraState));
}

#[test]
fn dot_terraform_dir_is_protected_infra_state() {
    let resource = path_resource(ResourceKind::CargoTargetDir, "/Users/x/infra/.terraform/providers");
    assert_eq!(protected_reason(&resource), Some(ReasonCode::ProtectedInfraState));
}

#[test]
fn usr_is_protected_system_path_but_usr_local_is_not() {
    let usr = path_resource(ResourceKind::CargoTargetDir, "/usr/lib/foo");
    assert_eq!(protected_reason(&usr), Some(ReasonCode::ProtectedSystemPath));
    let usr_local = path_resource(ResourceKind::CargoTargetDir, "/usr/local/bin/foo");
    assert_eq!(protected_reason(&usr_local), None);
}

#[test]
fn volumes_mount_is_protected_unsafe_mount() {
    let resource = path_resource(ResourceKind::CargoTargetDir, "/Volumes/External/target");
    assert_eq!(protected_reason(&resource), Some(ReasonCode::ProtectedUnsafeMountOrSymlink));
}

#[test]
fn ordinary_project_path_is_not_protected() {
    let resource = path_resource(ResourceKind::CargoTargetDir, "/Users/x/proj/target");
    assert_eq!(protected_reason(&resource), None);
}

// ---- approval ----

fn resource(path: &str) -> ResourceId {
    ResourceId::new(ResourceKind::CargoTargetDir, ResourceLocator::Path(path.to_string()))
}

fn fingerprint(mtime_secs: i64) -> ResourceFingerprint {
    ResourceFingerprint {
        dev_ino: None,
        mtime: Some(Timestamp::from_unix_secs(mtime_secs)),
        tool_revision: None,
    }
}

fn decision(resource: ResourceId, class: PolicyClass) -> PolicyDecision {
    PolicyDecision {
        resource,
        class,
        reasons: vec![ReasonCode::EvidenceFreshAndComplete],
        evidence_collected_at: Timestamp::unix_epoch(),
        evaluated_at: Timestamp::unix_epoch(),
        policy_version: 1,
    }
}

#[test]
fn auto_safe_always_authorizes_without_consent() {
    let r = resource("/tmp/target");
    let d = decision(r.clone(), PolicyClass::AutoSafe);
    assert!(authorize(d, fingerprint(1), None).is_some());
}

#[test]
fn protected_never_authorizes_even_with_matching_consent() {
    let r = resource("/tmp/target");
    let fp = fingerprint(1);
    let consent = UserConsent::new(r.clone(), fp.clone(), Timestamp::unix_epoch());
    let d = decision(r, PolicyClass::Protected);
    assert!(authorize(d, fp, Some(&consent)).is_none());
}

#[test]
fn ask_without_consent_does_not_authorize() {
    let r = resource("/tmp/target");
    let d = decision(r, PolicyClass::Ask);
    assert!(authorize(d, fingerprint(1), None).is_none());
}

#[test]
fn ask_with_matching_consent_authorizes() {
    let r = resource("/tmp/target");
    let fp = fingerprint(1);
    let consent = UserConsent::new(r.clone(), fp.clone(), Timestamp::unix_epoch());
    let d = decision(r, PolicyClass::Ask);
    assert!(authorize(d, fp, Some(&consent)).is_some());
}

#[test]
fn ask_consent_does_not_authorize_when_fingerprint_changed_since_grant() {
    let r = resource("/tmp/target");
    let consent = UserConsent::new(r.clone(), fingerprint(1), Timestamp::unix_epoch());
    let d = decision(r, PolicyClass::Ask);
    assert!(authorize(d, fingerprint(2), Some(&consent)).is_none());
}

#[test]
fn ask_consent_for_one_resource_does_not_authorize_a_different_resource() {
    let resource_a = resource("/tmp/a/target");
    let resource_b = resource("/tmp/b/target");
    let fp = fingerprint(1);
    let consent = UserConsent::new(resource_a, fp.clone(), Timestamp::unix_epoch());
    let d = decision(resource_b, PolicyClass::Ask);
    assert!(authorize(d, fp, Some(&consent)).is_none());
}

#[test]
fn approval_exposes_decision_and_fingerprint() {
    let r = resource("/tmp/target");
    let fp = fingerprint(1);
    let d = decision(r.clone(), PolicyClass::AutoSafe);
    let approval = authorize(d.clone(), fp.clone(), None).unwrap();
    assert_eq!(approval.decision(), &d);
    assert_eq!(approval.fingerprint(), &fp);
}
