use glomeris::detectors::cargo::CargoDetector;
use glomeris::detectors::docker::{parse_build_cache_size, DockerDetector};
use glomeris::detectors::homebrew::HomebrewDetector;
use glomeris::detectors::node::NodeDetector;
use glomeris::detectors::xcode::XcodeDetector;
use glomeris::detectors::{
    CommandOutcome, Detector, DetectorId, DetectorRegistry, DetectorStatus, DirProbe,
    DiscoveryContext, ProbedDir,
};
use glomeris::evidence::model::{
    NativeCleanup, OwningTool, Recoverability, Regenerability, ResourceKind, ResourceLocator,
};
use glomeris::evidence::model::Completeness;
use glomeris::evidence::probe::{ProbeOutcome, ProbeReason};
use glomeris::policy::class::PolicyClass;
use glomeris::policy::config::PolicyConfig;
use glomeris::policy::engine::classify;
use glomeris::evidence::time::Timestamp;

fn probed(path: &str, bytes: u64) -> ProbedDir {
    ProbedDir {
        canonical: path.to_string(),
        dev_ino: Some((7, 42)),
        logical_bytes: ProbeOutcome::Observed(bytes),
        bytes_is_lower_bound: false,
        lower_bound_note: None,
        last_modified: ProbeOutcome::Observed(Timestamp::from_unix_secs(1_700_000_000)),
    }
}

#[test]
fn cargo_no_known_project_roots_is_tool_absent() {
    let ctx = DiscoveryContext::new("/tmp".to_string());
    assert_eq!(
        CargoDetector.conclude(&ctx, &Vec::new(), Timestamp::unix_epoch()),
        DetectorStatus::ToolAbsent
    );
}

#[test]
fn node_no_known_project_roots_is_tool_absent() {
    let ctx = DiscoveryContext::new("/tmp".to_string());
    assert_eq!(
        NodeDetector.conclude(&ctx, &Vec::new(), Timestamp::unix_epoch()),
        DetectorStatus::ToolAbsent
    );
}

#[test]
fn cargo_candidate_dirs_join_target_under_each_root() {
    let ctx = DiscoveryContext::new("/tmp".to_string())
        .with_known_project_roots(vec!["/work/a".to_string(), "/work/b/".to_string()]);
    assert_eq!(
        CargoDetector.candidate_dirs(&ctx),
        vec!["/work/a/target".to_string(), "/work/b/target".to_string()]
    );
    assert_eq!(
        NodeDetector.candidate_dirs(&ctx),
        vec!["/work/a/node_modules".to_string(), "/work/b/node_modules".to_string()]
    );
}

#[test]
fn cargo_project_root_without_target_dir_is_tool_absent() {
    let ctx = DiscoveryContext::new("/tmp".to_string())
        .with_known_project_roots(vec!["/work/a".to_string()]);
    let status = CargoDetector.conclude(&ctx, &vec![DirProbe::NotFound], Timestamp::unix_epoch());
    assert_eq!(status, DetectorStatus::ToolAbsent);
}

#[test]
fn cargo_present_target_dir_yields_evidence_carrying_its_root() {
    let ctx = DiscoveryContext::new("/tmp".to_string()).with_known_project_roots(vec![
        "/work/a".to_string(),
        "/work/b".to_string(),
    ]);
    let probes = vec![DirProbe::NotFound, DirProbe::Present(probed("/real/b/target", 4096))];
    let t = Timestamp::from_unix_secs(1_800_000_000);
    match CargoDetector.conclude(&ctx, &probes, t) {
        DetectorStatus::Found(evidence) => {
            assert_eq!(evidence.len(), 1);
            let e = &evidence[0];
            assert_eq!(e.resource.kind, ResourceKind::CargoTargetDir);
            assert_eq!(e.resource.locator, ResourceLocator::Path("/real/b/target".to_string()));
            assert_eq!(e.resource.source_project_root, Some("/work/b".to_string()));
            assert_eq!(e.detector, DetectorId("cargo_target_dir"));
            assert_eq!(e.logical_bytes, ProbeOutcome::Observed(4096));
            assert_eq!(e.reclaimable_bytes, ProbeOutcome::Observed(4096));
            assert_eq!(e.fingerprint.dev_ino, Some((7, 42)));
            assert_eq!(e.fingerprint.mtime, Some(Timestamp::from_unix_secs(1_700_000_000)));
            assert_eq!(e.regenerability, Regenerability::RegenerableByRebuild);
            assert_eq!(e.native_cleanup, NativeCleanup::Unsupported);
            assert_eq!(
                e.open_by_process,
                ProbeOutcome::Unavailable(ProbeReason::NotAttempted)
            );
            assert_eq!(e.collected_at, t);
            assert!(e.sources.is_empty());
        }
        other => panic!("expected Found, got {other:?}"),
    }
}

#[test]
fn cargo_permission_denied_without_evidence_fails() {
    let ctx = DiscoveryContext::new("/tmp".to_string()).with_known_project_roots(vec![
        "/work/a".to_string(),
        "/work/b".to_string(),
    ]);
    let probes = vec![
        DirProbe::PermissionDenied("Permission denied (os error 13)".to_string()),
        DirProbe::NotFound,
    ];
    assert_eq!(
        CargoDetector.conclude(&ctx, &probes, Timestamp::unix_epoch()),
        DetectorStatus::Failed(
            "permission denied probing one or more known project roots".to_string()
        )
    );
}

#[test]
fn permission_denied_beside_found_evidence_still_reports_found() {
    let ctx = DiscoveryContext::new("/tmp".to_string()).with_known_project_roots(vec![
        "/work/a".to_string(),
        "/work/b".to_string(),
    ]);
    let probes = vec![
        DirProbe::PermissionDenied("denied".to_string()),
        DirProbe::Present(probed("/work/b/node_modules", 10)),
    ];
    match NodeDetector.conclude(&ctx, &probes, Timestamp::unix_epoch()) {
        DetectorStatus::Found(evidence) => {
            assert_eq!(evidence.len(), 1);
            assert_eq!(evidence[0].resource.kind, ResourceKind::NodeModules);
            assert_eq!(evidence[0].resource.source_project_root, None);
        }
        other => panic!("expected Found, got {other:?}"),
    }
}

#[test]
fn node_evidence_keeps_the_size_walk_note() {
    let ctx = DiscoveryContext::new("/tmp".to_string())
        .with_known_project_roots(vec!["/work/a".to_string()]);
    let mut dir = probed("/work/a/node_modules", 1 << 20);
    dir.bytes_is_lower_bound = true;
    dir.lower_bound_note = Some("size walk stopped early".to_string());
    match NodeDetector.conclude(&ctx, &vec![DirProbe::Present(dir)], Timestamp::unix_epoch()) {
        DetectorStatus::Found(evidence) => {
            assert!(evidence[0].reclaimable_bytes_is_lower_bound);
            assert_eq!(evidence[0].sources, vec!["size walk stopped early".to_string()]);
        }
        other => panic!("expected Found, got {other:?}"),
    }
}

#[test]
fn xcode_missing_derived_data_is_tool_absent() {
    let ctx = DiscoveryContext::new("/Users/me".to_string());
    assert_eq!(
        XcodeDetector.derived_data_dir(&ctx),
        "/Users/me/Library/Developer/Xcode/DerivedData"
    );
    assert_eq!(
        XcodeDetector.conclude(&ctx, DirProbe::NotFound, Timestamp::unix_epoch()),
        DetectorStatus::ToolAbsent
    );
}

#[test]
fn xcode_probe_failures_name_the_path_and_error() {
    let ctx = DiscoveryContext::new("/Users/me".to_string());
    assert_eq!(
        XcodeDetector.conclude(
            &ctx,
            DirProbe::PermissionDenied("Permission denied (os error 13)".to_string()),
            Timestamp::unix_epoch()
        ),
        DetectorStatus::Failed(
            "permission denied canonicalizing /Users/me/Library/Developer/Xcode/DerivedData: Permission denied (os error 13)"
                .to_string()
        )
    );
    assert_eq!(
        XcodeDetector.conclude(&ctx, DirProbe::Failed("boom".to_string()), Timestamp::unix_epoch()),
        DetectorStatus::Failed(
            "failed to canonicalize /Users/me/Library/Developer/Xcode/DerivedData: boom".to_string()
        )
    );
}

#[test]
fn xcode_existing_derived_data_yields_one_aggregate_evidence() {
    let ctx = DiscoveryContext::new("/Users/me".to_string());
    let dir = probed("/Users/me/Library/Developer/Xcode/DerivedData", 128);
    match XcodeDetector.conclude(&ctx, DirProbe::Present(dir), Timestamp::unix_epoch()) {
        DetectorStatus::Found(evidence) => {
            assert_eq!(evidence.len(), 1);
            assert_eq!(evidence[0].resource.kind, ResourceKind::XcodeDerivedData);
            assert_eq!(evidence[0].regenerability, Regenerability::RegenerableByRebuild);
            assert_eq!(evidence[0].native_cleanup, NativeCleanup::Unsupported);
        }
        other => panic!("expected Found, got {other:?}"),
    }
}

#[test]
fn resource_kinds_reports_homebrew_cache() {
    assert_eq!(HomebrewDetector.resource_kinds(), vec![ResourceKind::HomebrewCache]);
}

#[test]
fn homebrew_id_is_stable() {
    assert_eq!(HomebrewDetector.id(), DetectorId("homebrew_cache"));
}

#[test]
fn homebrew_cache_path_comes_from_trimmed_output() {
    let ok = CommandOutcome::Exited {
        success: true,
        status: "exit status: 0".to_string(),
        stdout: b"  /Users/me/Library/Caches/Homebrew\n".to_vec(),
    };
    assert_eq!(
        HomebrewDetector.cache_path(ok),
        Ok("/Users/me/Library/Caches/Homebrew".to_string())
    );
    let empty = CommandOutcome::Exited {
        success: true,
        status: "exit status: 0".to_string(),
        stdout: b"\n".to_vec(),
    };
    assert_eq!(
        HomebrewDetector.cache_path(empty),
        Err(DetectorStatus::Failed("brew --cache returned an empty path".to_string()))
    );
}

#[test]
fn homebrew_missing_or_failing_brew() {
    assert_eq!(
        HomebrewDetector.cache_path(CommandOutcome::NotInstalled),
        Err(DetectorStatus::ToolAbsent)
    );
    assert_eq!(
        HomebrewDetector.cache_path(CommandOutcome::SpawnFailed("busy".to_string())),
        Err(DetectorStatus::Failed("failed to spawn brew: busy".to_string()))
    );
    let failing = CommandOutcome::Exited {
        success: false,
        status: "exit status: 1".to_string(),
        stdout: Vec::new(),
    };
    assert_eq!(
        HomebrewDetector.cache_path(failing),
        Err(DetectorStatus::Failed("brew --cache exited with status exit status: 1".to_string()))
    );
}

#[test]
fn homebrew_conclude_covers_each_probe_outcome() {
    let t = Timestamp::unix_epoch();
    assert_eq!(
        HomebrewDetector.conclude("/c", DirProbe::NotFound, t),
        DetectorStatus::ToolAbsent
    );
    assert_eq!(
        HomebrewDetector.conclude("/c", DirProbe::PermissionDenied("no".to_string()), t),
        DetectorStatus::Failed("failed to canonicalize /c: no".to_string())
    );
    match HomebrewDetector.conclude("/c", DirProbe::Present(probed("/real/c", 9)), t) {
        DetectorStatus::Found(evidence) => {
            assert_eq!(evidence[0].resource.kind, ResourceKind::HomebrewCache);
            assert_eq!(evidence[0].regenerability, Regenerability::RegenerableByTool);
            assert_eq!(evidence[0].recoverability, Recoverability::RegenerableByTool);
        }
        other => panic!("expected Found, got {other:?}"),
    }
}

#[test]
fn resource_kinds_reports_docker_build_cache() {
    assert_eq!(DockerDetector.resource_kinds(), vec![ResourceKind::DockerBuildCache]);
}

#[test]
fn docker_id_is_stable() {
    assert_eq!(DockerDetector.id(), DetectorId("docker_build_cache"));
}

#[test]
fn parse_build_cache_size_extracts_size_field() {
    let stdout = "{\"Type\":\"Images\",\"Size\":\"3.4GB\"}\n{\"Type\":\"Build Cache\",\"Size\":\"512MB\"}\n";
    assert_eq!(parse_build_cache_size(stdout), Some("512MB".to_string()));
    let spaced = "{\"Type\": \"Build Cache\", \"Size\":  \"1.2GB\"}";
    assert_eq!(parse_build_cache_size(spaced), Some("1.2GB".to_string()));
}

#[test]
fn parse_build_cache_bytes_returns_none_without_a_build_cache_row() {
    let stdout = "{\"Type\":\"Images\",\"Size\":\"3.4GB\"}\n";
    assert_eq!(parse_build_cache_size(stdout), None);
}

#[test]
fn docker_daemon_down_is_tool_absent() {
    let down = CommandOutcome::Exited {
        success: false,
        status: "exit status: 1".to_string(),
        stdout: Vec::new(),
    };
    assert_eq!(DockerDetector.stdout_text(down), Err(DetectorStatus::ToolAbsent));
    assert_eq!(
        DockerDetector.stdout_text(CommandOutcome::NotInstalled),
        Err(DetectorStatus::ToolAbsent)
    );
    assert_eq!(
        DockerDetector.stdout_text(CommandOutcome::SpawnFailed("x".to_string())),
        Err(DetectorStatus::Failed("failed to spawn docker: x".to_string()))
    );
}

#[test]
fn docker_evidence_reports_the_size_or_a_failed_probe() {
    let t = Timestamp::unix_epoch();
    match DockerDetector.conclude(Some(512_000_000), t) {
        DetectorStatus::Found(evidence) => {
            assert_eq!(evidence.len(), 1);
            let e = &evidence[0];
            assert_eq!(
                e.resource.locator,
                ResourceLocator::Tool { tool: OwningTool::Docker, id: "build_cache".to_string() }
            );
            assert_eq!(e.logical_bytes, ProbeOutcome::Observed(512_000_000));
            assert_eq!(
                e.reclaimable_bytes,
                ProbeOutcome::Unavailable(ProbeReason::NotAttempted)
            );
            assert_eq!(
                e.sources,
                vec!["docker system df --format '{{json .}}'".to_string()]
            );
        }
        other => panic!("expected Found, got {other:?}"),
    }
    match DockerDetector.conclude(None, t) {
        DetectorStatus::Found(evidence) => {
            assert_eq!(
                evidence[0].logical_bytes,
                ProbeOutcome::Unavailable(ProbeReason::Failed)
            );
        }
        other => panic!("expected Found, got {other:?}"),
    }
}

struct StubDetector(DetectorStatus);

impl Detector for StubDetector {
    fn id(&self) -> DetectorId {
        DetectorId("stub")
    }

    fn resource_kinds(&self) -> Vec<ResourceKind> {
        Vec::new()
    }

    fn discover(&self, _ctx: &DiscoveryContext) -> DetectorStatus {
        match &self.0 {
            DetectorStatus::Found(evidence) => DetectorStatus::Found(evidence.clone()),
            DetectorStatus::ToolAbsent => DetectorStatus::ToolAbsent,
            DetectorStatus::Failed(msg) => DetectorStatus::Failed(msg.clone()),
        }
    }
}

#[test]
fn from_detectors_uses_exactly_the_given_detectors() {
    let registry =
        DetectorRegistry::from_detectors(vec![Box::new(StubDetector(DetectorStatus::ToolAbsent))]);
    let ctx = DiscoveryContext::new("/nonexistent-home-for-test".to_string());
    let results = registry.discover_all(&ctx);
    assert_eq!(results.len(), 1);
    assert_eq!(results[0].0, DetectorId("stub"));
}

#[test]
fn discover_all_returns_one_status_per_detector() {
    let registry = DetectorRegistry::from_detectors(vec![
        Box::new(StubDetector(DetectorStatus::ToolAbsent)),
        Box::new(StubDetector(DetectorStatus::Found(Vec::new()))),
        Box::new(StubDetector(DetectorStatus::Failed("boom".to_string()))),
    ]);
    let ctx = DiscoveryContext::new("/nonexistent-home-for-test".to_string());
    let results = registry.discover_all(&ctx);
    assert_eq!(results.len(), 3);
}

struct NamedStub(&'static str, &'static str);

impl Detector for NamedStub {
    fn id(&self) -> DetectorId {
        DetectorId(self.0)
    }

    fn resource_kinds(&self) -> Vec<ResourceKind> {
        Vec::new()
    }

    fn discover(&self, _ctx: &DiscoveryContext) -> DetectorStatus {
        DetectorStatus::Failed(self.1.to_string())
    }
}

#[test]
fn discover_all_pairs_each_id_with_its_own_status_in_order() {
    let registry = DetectorRegistry::from_detectors(vec![
        Box::new(NamedStub("first", "one")),
        Box::new(NamedStub("second", "two")),
        Box::new(NamedStub("third", "three")),
    ]);
    let ctx = DiscoveryContext::new("/nonexistent-home-for-test".to_string());
    let results = registry.discover_all(&ctx);
    assert_eq!(
        results,
        vec![
            (DetectorId("first"), DetectorStatus::Failed("one".to_string())),
            (DetectorId("second"), DetectorStatus::Failed("two".to_string())),
            (DetectorId("third"), DetectorStatus::Failed("three".to_string())),
        ]
    );
}

#[test]
fn discovery_evidence_is_never_auto_safe_before_correlation() {
    let ctx = DiscoveryContext::new("/tmp".to_string())
        .with_known_project_roots(vec!["/work/a".to_string()]);
    let t = Timestamp::from_unix_secs(1_700_000_000);
    let probes = vec![DirProbe::Present(probed("/work/a/target", 1 << 30))];
    match CargoDetector.conclude(&ctx, &probes, t) {
        DetectorStatus::Found(evidence) => {
            assert!(matches!(evidence[0].completeness(), Completeness::Partial { .. }));
            let decision = classify(&evidence[0], &PolicyConfig::default(), t);
            assert_ne!(decision.class, PolicyClass::AutoSafe);
        }
        other => panic!("expected Found, got {other:?}"),
    }
}

#[test]
fn parse_build_cache_bytes_extracts_size_field() {
    let stdout = "{\"Type\":\"Images\",\"Size\":\"3.4GB\"}\n{\"Type\":\"Build Cache\",\"Size\":\"512MB\"}\n";
    // The size text is the library's part; turning "512MB" into bytes is
    // floating-point work done by the program.
    assert_eq!(parse_build_cache_size(stdout), Some("512MB".to_string()));
}
