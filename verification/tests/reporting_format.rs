use glomeris::evidence::model::{ResourceId, ResourceKind, ResourceLocator};
use glomeris::evidence::time::Timestamp;
use glomeris::policy::class::{PolicyClass, ReasonCode};
use glomeris::policy::decision::PolicyDecision;
use glomeris::reporting::bytes::human_bytes;
use glomeris::reporting::impact::{
    classify_impact, ImpactContext, ImpactThresholds, StorageImpactTier,
};
use glomeris::reporting::policy_label::{label_for, PolicyLabel};

const KIB: u64 = 1024;
const MIB: u64 = 1024 * KIB;
const GIB: u64 = 1024 * MIB;

// ---- human_bytes ----

#[test]
fn zero_bytes_is_bare_zero() {
    assert_eq!(human_bytes(0), "0 B");
}

#[test]
fn below_1024_is_bare_byte_count() {
    assert_eq!(human_bytes(512), "512 B");
    assert_eq!(human_bytes(1023), "1023 B");
}

#[test]
fn exactly_1024_is_one_point_zero_kb() {
    assert_eq!(human_bytes(1024), "1.0 KB");
}

#[test]
fn megabytes_round_to_one_decimal() {
    assert_eq!(human_bytes(142_300_000), "135.7 MB");
}

#[test]
fn gigabytes_round_to_one_decimal() {
    assert_eq!(human_bytes(1_288_490_189), "1.2 GB");
}

#[test]
fn terabyte_boundary() {
    assert_eq!(human_bytes(1024u64.pow(4)), "1.0 TB");
}

#[test]
fn very_large_value_does_not_panic_and_caps_at_petabytes() {
    let s = human_bytes(u64::MAX);
    assert!(s.ends_with(" PB"), "expected a PB-suffixed value, got {s}");
}

#[test]
fn just_under_next_unit_boundary_stays_in_lower_unit() {
    assert_eq!(human_bytes(1024 * 1024 - 1), "1024.0 KB");
}

/// The integer rendering agrees with what a double-precision value and
/// `{:.1}` give, across units, rounding ties and the 2^53 boundary.
#[test]
fn human_bytes_matches_double_precision_formatting() {
    let units = ["B", "KB", "MB", "GB", "TB", "PB"];
    let reference = |bytes: u64| -> String {
        if bytes < 1024 {
            return format!("{bytes} B");
        }
        let mut value = bytes as f64;
        let mut unit = 0usize;
        while value >= 1024.0 && unit < units.len() - 1 {
            value /= 1024.0;
            unit += 1;
        }
        format!("{value:.1} {}", units[unit])
    };
    let mut samples: Vec<u64> = vec![
        1024,
        1025,
        1075,
        1126,
        1127,
        1587,
        1588,
        10_240,
        1_048_575,
        1_048_576,
        1_153_433,
        5_000_000_000,
        (1u64 << 53) - 1,
        1u64 << 53,
        (1u64 << 53) + 1,
        (1u64 << 53) + 3,
        (1u64 << 60) + 12_345,
        u64::MAX - 1,
        u64::MAX,
    ];
    let mut x: u64 = 0x9e37_79b9_7f4a_7c15;
    for _ in 0..2000 {
        x ^= x << 13;
        x ^= x >> 7;
        x ^= x << 17;
        samples.push(x >> (x % 60));
    }
    for b in samples {
        assert_eq!(human_bytes(b), reference(b), "for {b} bytes");
    }
}

#[test]
fn human_bytes_rounds_an_exact_half_to_even() {
    // 1024 + 51.2 bytes is not representable, but 1.25 KB (1280 bytes) is an
    // exact tie between 1.2 and 1.3; the even digit wins.
    assert_eq!(human_bytes(1280), "1.2 KB");
    // 1.75 KB (1792 bytes) is a tie between 1.7 and 1.8.
    assert_eq!(human_bytes(1792), "1.8 KB");
}

// ---- policy label ----

fn decision(class: PolicyClass, reasons: Vec<ReasonCode>) -> PolicyDecision {
    PolicyDecision {
        resource: ResourceId::new(
            ResourceKind::CargoTargetDir,
            ResourceLocator::Path("/tmp/x".to_string()),
        ),
        class,
        reasons,
        evidence_collected_at: Timestamp::unix_epoch(),
        evaluated_at: Timestamp::unix_epoch(),
        policy_version: 1,
    }
}

#[test]
fn auto_safe_maps_to_auto_safe_label() {
    let d = decision(PolicyClass::AutoSafe, vec![ReasonCode::EvidenceFreshAndComplete]);
    assert_eq!(label_for(&d), PolicyLabel::AutoSafe);
    assert_eq!(label_for(&d).as_str(), "AUTO_SAFE");
}

#[test]
fn protected_maps_to_protected_label_regardless_of_reasons() {
    let d = decision(PolicyClass::Protected, vec![ReasonCode::ProtectedCredentialMaterial]);
    assert_eq!(label_for(&d), PolicyLabel::Protected);
}

#[test]
fn ask_with_active_use_reason_stays_ask() {
    let d = decision(PolicyClass::Ask, vec![ReasonCode::ResourceInActiveUse]);
    assert_eq!(label_for(&d), PolicyLabel::Ask);
}

#[test]
fn ask_with_rebuild_cost_high_stays_ask() {
    let d = decision(PolicyClass::Ask, vec![ReasonCode::RebuildCostHigh]);
    assert_eq!(label_for(&d), PolicyLabel::Ask);
}

#[test]
fn ask_with_evidence_incomplete_is_unknown_incomplete() {
    let d = decision(PolicyClass::Ask, vec![ReasonCode::EvidenceIncomplete]);
    assert_eq!(label_for(&d), PolicyLabel::UnknownIncomplete);
    assert_eq!(label_for(&d).as_str(), "UNKNOWN_INCOMPLETE");
}

#[test]
fn ask_with_evidence_probe_failed_is_unknown_incomplete() {
    let d = decision(PolicyClass::Ask, vec![ReasonCode::EvidenceProbeFailed]);
    assert_eq!(label_for(&d), PolicyLabel::UnknownIncomplete);
}

#[test]
fn ask_with_evidence_stale_is_unknown_incomplete() {
    let d = decision(PolicyClass::Ask, vec![ReasonCode::EvidenceStale]);
    assert_eq!(label_for(&d), PolicyLabel::UnknownIncomplete);
}

#[test]
fn display_matches_as_str() {
    let d = decision(PolicyClass::AutoSafe, vec![]);
    assert_eq!(label_for(&d).as_str(), "AUTO_SAFE");
}

#[test]
fn a_quality_reason_after_another_reason_still_marks_unknown_incomplete() {
    let d = decision(
        PolicyClass::Ask,
        vec![ReasonCode::ResourceInActiveUse, ReasonCode::EvidenceStale],
    );
    assert_eq!(label_for(&d), PolicyLabel::UnknownIncomplete);
    assert_eq!(PolicyLabel::Ask.as_str(), "ASK");
    assert_eq!(PolicyLabel::Protected.as_str(), "PROTECTED");
}

// ---- impact tiers ----

fn no_disk_context() -> ImpactContext {
    ImpactContext::default()
}

#[test]
fn unmeasured_size_is_unknown_and_not_small() {
    let tier = classify_impact(None, no_disk_context(), &ImpactThresholds::default());
    assert_eq!(tier, StorageImpactTier::Unknown);
    assert_ne!(tier, StorageImpactTier::Normal);
}

#[test]
fn zero_bytes_is_normal_not_unknown() {
    assert_eq!(
        classify_impact(Some(0), no_disk_context(), &ImpactThresholds::default()),
        StorageImpactTier::Normal
    );
}

#[test]
fn absolute_thresholds_are_inclusive_at_their_boundary() {
    let t = ImpactThresholds::default();
    assert_eq!(
        classify_impact(Some(t.notable_bytes - 1), no_disk_context(), &t),
        StorageImpactTier::Normal
    );
    assert_eq!(
        classify_impact(Some(t.notable_bytes), no_disk_context(), &t),
        StorageImpactTier::Notable
    );
    assert_eq!(
        classify_impact(Some(t.large_bytes - 1), no_disk_context(), &t),
        StorageImpactTier::Notable
    );
    assert_eq!(
        classify_impact(Some(t.large_bytes), no_disk_context(), &t),
        StorageImpactTier::Large
    );
}

#[test]
fn a_very_large_candidate_stays_large() {
    assert_eq!(
        classify_impact(Some(3 * 1024 * GIB), no_disk_context(), &ImpactThresholds::default()),
        StorageImpactTier::Large
    );
}

#[test]
fn a_small_candidate_escalates_when_free_space_is_nearly_gone() {
    let t = ImpactThresholds::default();
    let bytes = 400 * MIB;
    assert_eq!(classify_impact(Some(bytes), no_disk_context(), &t), StorageImpactTier::Normal);
    assert_eq!(
        classify_impact(Some(bytes), ImpactContext::with_free_bytes(1600 * MIB), &t),
        StorageImpactTier::Large
    );
}

#[test]
fn relative_scale_never_demotes_a_large_candidate() {
    let t = ImpactThresholds::default();
    assert_eq!(
        classify_impact(Some(30 * GIB), ImpactContext::with_free_bytes(2048 * GIB), &t),
        StorageImpactTier::Large
    );
}

#[test]
fn relative_boundaries_are_inclusive() {
    let t = ImpactThresholds::default();
    let free = 100 * GIB;
    let relative_only = ImpactThresholds {
        notable_bytes: u64::MAX,
        large_bytes: u64::MAX,
        ..t
    };
    assert_eq!(
        classify_impact(Some(free / 100 * 5), ImpactContext::with_free_bytes(free), &relative_only),
        StorageImpactTier::Notable
    );
    assert_eq!(
        classify_impact(Some(free / 100 * 20), ImpactContext::with_free_bytes(free), &relative_only),
        StorageImpactTier::Large
    );
    assert_eq!(
        classify_impact(Some(free / 100 * 4), ImpactContext::with_free_bytes(free), &relative_only),
        StorageImpactTier::Normal
    );
}

#[test]
fn unknown_free_space_falls_back_to_the_absolute_scale_only() {
    let t = ImpactThresholds::default();
    assert_eq!(
        classify_impact(Some(400 * MIB), ImpactContext { free_bytes: None }, &t),
        StorageImpactTier::Normal
    );
}

#[test]
fn zero_free_space_does_not_make_every_candidate_large() {
    let t = ImpactThresholds::default();
    assert_eq!(
        classify_impact(Some(1), ImpactContext::with_free_bytes(0), &t),
        StorageImpactTier::Normal
    );
    assert_eq!(
        classify_impact(Some(50 * GIB), ImpactContext::with_free_bytes(0), &t),
        StorageImpactTier::Large
    );
}

#[test]
fn a_terabyte_scale_candidate_does_not_overflow_the_percentage() {
    let t = ImpactThresholds {
        notable_bytes: u64::MAX,
        large_bytes: u64::MAX,
        ..ImpactThresholds::default()
    };
    assert_eq!(
        classify_impact(Some(u64::MAX / 2), ImpactContext::with_free_bytes(u64::MAX), &t),
        StorageImpactTier::Large
    );
}

#[test]
fn every_tier_has_a_distinct_stable_token() {
    let tokens = [
        StorageImpactTier::Unknown.as_str(),
        StorageImpactTier::Normal.as_str(),
        StorageImpactTier::Notable.as_str(),
        StorageImpactTier::Large.as_str(),
    ];
    assert_eq!(tokens, ["unknown", "normal", "notable", "large"]);
    let mut unique = tokens.to_vec();
    unique.sort_unstable();
    unique.dedup();
    assert_eq!(unique.len(), tokens.len());
}

#[test]
fn tier_ordering_is_least_to_most_notable() {
    assert!(StorageImpactTier::Unknown < StorageImpactTier::Normal);
    assert!(StorageImpactTier::Normal < StorageImpactTier::Notable);
    assert!(StorageImpactTier::Notable < StorageImpactTier::Large);
}

#[test]
fn knowing_free_space_never_lowers_a_tier() {
    let t = ImpactThresholds::default();
    for bytes in [0, 1, 400 * MIB, GIB, 9 * GIB, 10 * GIB, 3 * 1024 * GIB] {
        let without = classify_impact(Some(bytes), no_disk_context(), &t);
        for free in [0, 1, MIB, GIB, 100 * GIB, u64::MAX] {
            let with = classify_impact(Some(bytes), ImpactContext::with_free_bytes(free), &t);
            assert!(with >= without, "{bytes} bytes with {free} free");
        }
    }
}
