use glomeris::detectors::DetectorId;
use glomeris::evidence::model::{
    Completeness, Confidence, Evidence, EvidenceField, NativeCleanup, OwningTool, Recoverability,
    Regenerability, ResourceFingerprint, ResourceId, ResourceKind, ResourceLocator, MAX_SOURCES,
};
use glomeris::evidence::probe::{ProbeOutcome, ProbeReason};
use glomeris::evidence::time::Timestamp;
use glomeris::evidence::token::{
    decode_fingerprint_token, encode_fingerprint_token, TokenErrorKind,
};
use glomeris::policy::approval::{authorize, UserConsent};
use glomeris::policy::class::{PolicyClass, ReasonCode};
use glomeris::policy::decision::PolicyDecision;

#[test]
fn all_lists_every_variant_exactly_once_in_declaration_order() {
    for (index, kind) in ResourceKind::all().iter().enumerate() {
        let expected_index = match kind {
            ResourceKind::XcodeDerivedData => 0,
            ResourceKind::HomebrewCache => 1,
            ResourceKind::CargoTargetDir => 2,
            ResourceKind::CargoRegistryCache => 3,
            ResourceKind::NodeModules => 4,
            ResourceKind::NodePackageManagerCache => 5,
            ResourceKind::DockerBuildCache => 6,
            ResourceKind::DockerImageCache => 7,
            ResourceKind::Unknown => 8,
        };
        assert_eq!(index, expected_index, "{} is at index {index}", kind.tag());
    }
    assert_eq!(ResourceKind::all().len(), 9);
}

#[test]
fn model_every_variant_round_trips_through_its_tag() {
    for kind in ResourceKind::all() {
        assert_eq!(ResourceKind::from_tag(kind.tag()), Some(kind), "tag {:?}", kind.tag());
    }
}

#[test]
fn model_from_tag_rejects_near_misses_rather_than_guessing() {
    for near_miss in [
        "",
        " cargo_target_dir",
        "cargo_target_dir ",
        "cargo_target",
        "cargo-target-dir",
        "CARGO_TARGET_DIR",
        "CargoTargetDir",
        "cargo_target_dirs",
        "not_a_kind",
    ] {
        assert_eq!(ResourceKind::from_tag(near_miss), None, "{near_miss:?}");
    }
}

fn base_evidence(kind: ResourceKind) -> Evidence {
    Evidence {
        resource: ResourceId::new(kind, ResourceLocator::Path("/tmp/x".to_string())),
        fingerprint: ResourceFingerprint {
            dev_ino: None,
            mtime: None,
            tool_revision: None,
        },
        detector: DetectorId("test"),
        logical_bytes: ProbeOutcome::Unavailable(ProbeReason::NotAttempted),
        physical_bytes: None,
        reclaimable_bytes: ProbeOutcome::Unavailable(ProbeReason::NotAttempted),
        reclaimable_bytes_is_lower_bound: false,
        last_modified: ProbeOutcome::Unavailable(ProbeReason::NotAttempted),
        last_accessed: ProbeOutcome::Unavailable(ProbeReason::NotAttempted),
        regenerability: Regenerability::Unknown,
        recoverability: Recoverability::Irreversible,
        native_cleanup: NativeCleanup::Unsupported,
        open_by_process: ProbeOutcome::Unavailable(ProbeReason::NotAttempted),
        process_cwd_match: ProbeOutcome::Unavailable(ProbeReason::NotAttempted),
        git_state: ProbeOutcome::Unavailable(ProbeReason::NotAttempted),
        tool_liveness: ProbeOutcome::Unavailable(ProbeReason::NotAttempted),
        collected_at: Timestamp::unix_epoch(),
        sources: Vec::new(),
    }
}

#[test]
fn resource_id_display_is_stable_kind_colon_locator() {
    let id = ResourceId::new(
        ResourceKind::CargoTargetDir,
        ResourceLocator::Path("/Users/x/proj/target".to_string()),
    );
    assert_eq!(id.render(), "cargo_target_dir:/Users/x/proj/target");
}

#[test]
fn resource_id_display_for_tool_locator() {
    let id = ResourceId::new(
        ResourceKind::DockerBuildCache,
        ResourceLocator::Tool {
            tool: OwningTool::Docker,
            id: "abc123".to_string(),
        },
    );
    assert_eq!(id.render(), "docker_build_cache:docker:abc123");
}

#[test]
fn resource_id_equality_ignores_source_project_root() {
    let id_a = ResourceId::new(
        ResourceKind::CargoTargetDir,
        ResourceLocator::Path("/tmp/proj/target".to_string()),
    )
    .with_source_project_root("/tmp/proj".to_string());
    let id_b = ResourceId::new(
        ResourceKind::CargoTargetDir,
        ResourceLocator::Path("/tmp/proj/target".to_string()),
    )
    .with_source_project_root("/tmp/proj/../proj".to_string());
    assert_ne!(id_a.source_project_root, id_b.source_project_root);
    assert_eq!(id_a, id_b);
    let id_c = ResourceId::new(
        ResourceKind::NodeModules,
        ResourceLocator::Path("/tmp/proj/target".to_string()),
    );
    assert_ne!(id_a, id_c);
}

#[test]
fn discovery_stage_evidence_with_no_correlation_is_never_complete() {
    let mut evidence = base_evidence(ResourceKind::CargoTargetDir);
    evidence.logical_bytes = ProbeOutcome::Observed(1024);
    match evidence.completeness() {
        Completeness::Complete => panic!("discovery-stage evidence must never be Complete"),
        Completeness::Partial { missing } => {
            assert!(missing.contains(&EvidenceField::OpenByProcess));
            assert!(missing.contains(&EvidenceField::GitState));
        }
        Completeness::Failed => {}
    }
    assert_eq!(evidence.confidence(), Confidence::Low);
}

#[test]
fn fully_observed_evidence_is_complete_and_high_confidence() {
    let mut evidence = base_evidence(ResourceKind::CargoTargetDir);
    evidence.logical_bytes = ProbeOutcome::Observed(1024);
    evidence.reclaimable_bytes = ProbeOutcome::Observed(1024);
    evidence.last_modified = ProbeOutcome::Observed(Timestamp::unix_epoch());
    evidence.open_by_process = ProbeOutcome::Observed(Vec::new());
    evidence.process_cwd_match = ProbeOutcome::Observed(Vec::new());
    evidence.git_state = ProbeOutcome::Observed(None);
    evidence.tool_liveness = ProbeOutcome::Observed(true);
    assert_eq!(evidence.completeness(), Completeness::Complete);
    assert_eq!(evidence.confidence(), Confidence::High);
}

#[test]
fn non_daemon_tool_kinds_reach_complete_despite_tool_liveness_unavailable() {
    for kind in [
        ResourceKind::CargoTargetDir,
        ResourceKind::CargoRegistryCache,
        ResourceKind::NodeModules,
        ResourceKind::NodePackageManagerCache,
        ResourceKind::HomebrewCache,
    ] {
        let mut evidence = base_evidence(kind);
        evidence.logical_bytes = ProbeOutcome::Observed(1024);
        evidence.reclaimable_bytes = ProbeOutcome::Observed(1024);
        evidence.last_modified = ProbeOutcome::Observed(Timestamp::unix_epoch());
        evidence.open_by_process = ProbeOutcome::Observed(Vec::new());
        evidence.process_cwd_match = ProbeOutcome::Observed(Vec::new());
        evidence.git_state = ProbeOutcome::Observed(None);
        evidence.tool_liveness = ProbeOutcome::Unavailable(ProbeReason::ToolNotRunning);
        assert_eq!(evidence.completeness(), Completeness::Complete, "{kind:?}");
    }
}

#[test]
fn evidence_with_nothing_observed_is_failed_completeness() {
    let evidence = base_evidence(ResourceKind::CargoTargetDir);
    assert_eq!(evidence.completeness(), Completeness::Failed);
    assert_eq!(evidence.confidence(), Confidence::Low);
}

#[test]
fn one_missing_field_is_partial_and_medium_confidence() {
    let mut evidence = base_evidence(ResourceKind::CargoTargetDir);
    evidence.logical_bytes = ProbeOutcome::Observed(1024);
    evidence.reclaimable_bytes = ProbeOutcome::Observed(1024);
    evidence.last_modified = ProbeOutcome::Observed(Timestamp::unix_epoch());
    evidence.open_by_process = ProbeOutcome::Observed(Vec::new());
    evidence.process_cwd_match = ProbeOutcome::Observed(Vec::new());
    assert_eq!(
        evidence.completeness(),
        Completeness::Partial { missing: vec![EvidenceField::GitState] }
    );
    assert_eq!(evidence.confidence(), Confidence::Medium);
}

#[test]
fn push_source_is_capped_at_max_sources() {
    let mut evidence = base_evidence(ResourceKind::CargoTargetDir);
    for i in 0..20 {
        evidence.push_source(format!("note-{i}"));
    }
    assert_eq!(evidence.sources.len(), MAX_SOURCES);
    assert_eq!(evidence.sources[0], "note-0");
    assert_eq!(evidence.sources[MAX_SOURCES - 1], format!("note-{}", MAX_SOURCES - 1));
}

#[test]
fn unknown_kind_regenerability_is_unknown() {
    assert_eq!(ResourceKind::Unknown.regenerability(), Regenerability::Unknown);
    assert_eq!(ResourceKind::Unknown.owning_tool(), OwningTool::NoTool);
}

fn sample_fingerprint(nanos: u32) -> ResourceFingerprint {
    ResourceFingerprint {
        dev_ino: Some((16_777_220, 9_876_543)),
        mtime: Some(Timestamp { secs: 1_725_000_000, nanos }),
        tool_revision: Some("v1.2.3-real".to_string()),
    }
}

#[test]
fn round_trip_preserves_fingerprint_exactly() {
    let fp = sample_fingerprint(123_456_789);
    let token = encode_fingerprint_token(&fp);
    let decoded = decode_fingerprint_token(&token).expect("token should decode");
    assert_eq!(decoded, fp);
}

#[test]
fn decode_then_reencode_matches_direct_encode() {
    let fp = sample_fingerprint(555_555_555);
    let token = encode_fingerprint_token(&fp);
    let decoded = decode_fingerprint_token(&token).expect("token should decode");
    assert_eq!(encode_fingerprint_token(&decoded), token);
}

#[test]
fn authorize_treats_decoded_fingerprint_as_real_substitute() {
    let fp = sample_fingerprint(987_654_321);
    let mut other_fp = sample_fingerprint(111);
    other_fp.dev_ino = Some((16_777_220, 1));
    let decoded = decode_fingerprint_token(&encode_fingerprint_token(&fp)).unwrap();
    assert_eq!(decoded, fp);
    let resource = ResourceId::new(
        ResourceKind::CargoTargetDir,
        ResourceLocator::Path("/tmp/fp/resource.bin".to_string()),
    );
    let consent = UserConsent::new(resource.clone(), fp.clone(), Timestamp::unix_epoch());
    let decision = || PolicyDecision {
        resource: resource.clone(),
        class: PolicyClass::Ask,
        reasons: vec![ReasonCode::EvidenceFreshAndComplete],
        evidence_collected_at: Timestamp::unix_epoch(),
        evaluated_at: Timestamp::unix_epoch(),
        policy_version: 1,
    };
    assert!(authorize(decision(), fp.clone(), Some(&consent)).is_some());
    assert!(authorize(decision(), decoded, Some(&consent)).is_some());
    let other_decoded = decode_fingerprint_token(&encode_fingerprint_token(&other_fp)).unwrap();
    assert!(authorize(decision(), other_fp, Some(&consent)).is_none());
    assert!(authorize(decision(), other_decoded, Some(&consent)).is_none());
}

#[test]
fn all_none_fingerprint_round_trips_and_reports_no_token_worthy_data() {
    let fp = ResourceFingerprint {
        dev_ino: None,
        mtime: None,
        tool_revision: None,
    };
    let token = encode_fingerprint_token(&fp);
    let decoded = decode_fingerprint_token(&token).expect("token should decode");
    assert_eq!(decoded, fp);
}

#[test]
fn decode_rejects_malformed_tokens() {
    assert!(decode_fingerprint_token("not-a-token").is_err());
    assert!(decode_fingerprint_token("v1:zz").is_err());
    assert!(decode_fingerprint_token("v1:0").is_err());
    assert!(decode_fingerprint_token("v2:00").is_err());
    assert!(decode_fingerprint_token("v1:").is_err());
}

#[test]
fn decode_errors_name_the_defect() {
    let err = decode_fingerprint_token("v2:00").unwrap_err();
    assert!(err.message().starts_with("invalid fingerprint token: "));
    let odd = decode_fingerprint_token("v1:0").unwrap_err();
    assert!(odd.message().contains("odd-length"));
}

#[test]
fn all_none_fingerprint_encodes_to_presence_byte_alone() {
    let fp = ResourceFingerprint {
        dev_ino: None,
        mtime: None,
        tool_revision: None,
    };
    assert_eq!(encode_fingerprint_token(&fp), "v1:00");
    assert_eq!(decode_fingerprint_token("v1:00").unwrap(), fp);
}

fn refusal(token: &str) -> TokenErrorKind {
    decode_fingerprint_token(token).unwrap_err().0
}

#[test]
fn decode_refuses_what_encode_never_writes() {
    assert_eq!(refusal("v1:08"), TokenErrorKind::UnknownFlagBits);
    assert_eq!(refusal("v1:ff"), TokenErrorKind::UnknownFlagBits);
    assert_eq!(refusal("v1:0000"), TokenErrorKind::TrailingBytes);
    assert_eq!(refusal("v1:01"), TokenErrorKind::TruncatedPayload);
    assert_eq!(refusal("v1:0A"), TokenErrorKind::InvalidHexByte);
    assert_eq!(refusal("v1:+0"), TokenErrorKind::InvalidHexByte);
    assert_eq!(refusal("v1:zz"), TokenErrorKind::InvalidHexByte);
    assert_eq!(refusal("v2:00"), TokenErrorKind::MissingVersionPrefix);
    assert_eq!(refusal("v1:0"), TokenErrorKind::OddLengthHex);
}

#[test]
fn decode_refuses_non_canonical_mtime() {
    // sign byte 2
    assert_eq!(
        refusal("v1:0202000000000000000000000000"),
        TokenErrorKind::InvalidMtimeSign
    );
    // "before the epoch" by zero nanoseconds
    assert_eq!(
        refusal("v1:0200000000000000000000000000"),
        TokenErrorKind::InvalidMtimeSign
    );
    // a whole second written as nanoseconds
    assert_eq!(
        refusal("v1:020100000000000000003b9aca00"),
        TokenErrorKind::MtimeOutOfRange
    );
    // the epoch itself, as the encoder writes it
    let epoch = decode_fingerprint_token("v1:0201000000000000000000000000").unwrap();
    assert_eq!(epoch.mtime, Some(Timestamp { secs: 0, nanos: 0 }));
}

#[test]
fn pre_epoch_mtime_round_trips_with_subsecond_precision() {
    let fp = ResourceFingerprint {
        dev_ino: None,
        mtime: Some(Timestamp { secs: -2, nanos: 500 }),
        tool_revision: None,
    };
    let token = encode_fingerprint_token(&fp);
    assert_eq!(token, "v1:02000000000000000001".to_string() + "3b9ac80c");
    assert_eq!(decode_fingerprint_token(&token).unwrap(), fp);
}

#[test]
fn every_refusal_message_names_its_defect() {
    let cases = [
        (TokenErrorKind::MissingVersionPrefix, "unsupported or missing version prefix"),
        (TokenErrorKind::OddLengthHex, "odd-length hex payload"),
        (TokenErrorKind::NonUtf8Hex, "non-UTF8 hex payload"),
        (TokenErrorKind::InvalidHexByte, "invalid hex byte"),
        (TokenErrorKind::UnknownFlagBits, "unknown presence flag bits"),
        (TokenErrorKind::LengthOverflow, "length overflow"),
        (TokenErrorKind::TruncatedPayload, "truncated payload"),
        (TokenErrorKind::InvalidMtimeSign, "invalid mtime sign"),
        (TokenErrorKind::MtimeOutOfRange, "mtime out of range"),
        (TokenErrorKind::InvalidUtf8ToolRevision, "invalid utf8 tool_revision"),
        (TokenErrorKind::TrailingBytes, "trailing bytes after payload"),
    ];
    for (kind, text) in cases {
        assert_eq!(kind.message(), format!("invalid fingerprint token: {}", text));
    }
}

#[test]
fn observed_returns_some_for_observed_variant() {
    let outcome = ProbeOutcome::Observed(42u64);
    assert_eq!(outcome.observed(), Some(&42));
    assert!(outcome.is_observed());
}

#[test]
fn observed_returns_none_for_unavailable_variant() {
    let outcome: ProbeOutcome<u64> = ProbeOutcome::Unavailable(ProbeReason::ToolAbsent);
    assert_eq!(outcome.observed(), None);
    assert!(!outcome.is_observed());
}

#[test]
fn resource_id_equality_and_hash_ignore_source_project_root() {
    let id_a = ResourceId::new(
        ResourceKind::CargoTargetDir,
        ResourceLocator::Path("/tmp/proj/target".to_string()),
    )
    .with_source_project_root("/tmp/proj".to_string());
    let id_b = ResourceId::new(
        ResourceKind::CargoTargetDir,
        ResourceLocator::Path("/tmp/proj/target".to_string()),
    )
    .with_source_project_root("/tmp/proj/../proj".to_string());

    assert_ne!(
        id_a.source_project_root, id_b.source_project_root,
        "test fixture must exercise genuinely different source_project_root strings"
    );
    assert_eq!(id_a, id_b);

    let mut set = std::collections::HashSet::new();
    set.insert(id_a);
    set.insert(id_b);
    assert_eq!(set.len(), 1);
}
