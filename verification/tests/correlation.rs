use glomeris::detectors::DetectorId;
use glomeris::evidence::correlate::default::DefaultEvidenceCollector;
use glomeris::evidence::correlate::git::{
    git_advance, git_start, is_linked_worktree, parse_status_porcelain, GitProbe, GitSession,
    GitStep,
};
use glomeris::evidence::correlate::open_files::{
    interpret_lsof_output, lsof_outcome, open_files_args, parse_lsof_field_output, OpenFileProbe,
};
use glomeris::evidence::correlate::process::{cwd_args, ProcessCwdProbe};
use glomeris::evidence::correlate::tool_liveness::{
    daemon_process_name, interpret_pgrep_output, pgrep_outcome, pgrep_target, ToolLivenessProbe,
};
use glomeris::evidence::correlate::{
    merge_into, CorrelationResult, EvidenceCollector, ProbeBudget, ToolRun,
};
use glomeris::evidence::model::{
    Evidence, GitState, NativeCleanup, OwningTool, ProcessRef, Recoverability, Regenerability,
    ResourceFingerprint, ResourceId, ResourceKind, ResourceLocator,
};
use glomeris::evidence::probe::{ProbeOutcome, ProbeReason};
use glomeris::evidence::time::{TimeSpan, Timestamp};

fn base_evidence() -> Evidence {
    Evidence {
        resource: ResourceId::new(ResourceKind::CargoTargetDir, ResourceLocator::Path("/tmp/x".to_string())),
        fingerprint: ResourceFingerprint { dev_ino: None, mtime: None, tool_revision: None },
        detector: DetectorId("test"),
        logical_bytes: ProbeOutcome::Observed(1024),
        physical_bytes: None,
        reclaimable_bytes: ProbeOutcome::Observed(1024),
        reclaimable_bytes_is_lower_bound: false,
        last_modified: ProbeOutcome::Observed(Timestamp::unix_epoch()),
        last_accessed: ProbeOutcome::Unavailable(ProbeReason::NotAttempted),
        regenerability: Regenerability::RegenerableByRebuild,
        recoverability: Recoverability::RegenerableByRebuild,
        native_cleanup: NativeCleanup::Unsupported,
        open_by_process: ProbeOutcome::Unavailable(ProbeReason::NotAttempted),
        process_cwd_match: ProbeOutcome::Unavailable(ProbeReason::NotAttempted),
        git_state: ProbeOutcome::Unavailable(ProbeReason::NotAttempted),
        tool_liveness: ProbeOutcome::Unavailable(ProbeReason::NotAttempted),
        collected_at: Timestamp::unix_epoch(),
        sources: Vec::new(),
    }
}

#[test]
fn merge_into_fills_all_four_correlation_fields() {
    let mut evidence = base_evidence();
    let result = CorrelationResult {
        open_by_process: ProbeOutcome::Observed(vec![ProcessRef { pid: 42, command: "cargo".to_string() }]),
        process_cwd_match: ProbeOutcome::Observed(Vec::new()),
        git_state: ProbeOutcome::Observed(None),
        tool_liveness: ProbeOutcome::Observed(false),
    };
    merge_into(&mut evidence, result);
    assert_eq!(
        evidence.open_by_process,
        ProbeOutcome::Observed(vec![ProcessRef { pid: 42, command: "cargo".to_string() }])
    );
    assert_eq!(evidence.process_cwd_match, ProbeOutcome::Observed(Vec::new()));
    assert_eq!(evidence.git_state, ProbeOutcome::Observed(None));
    assert_eq!(evidence.tool_liveness, ProbeOutcome::Observed(false));
}

#[test]
fn merge_into_downgrades_a_previously_observed_field_when_revalidation_fails() {
    let mut evidence = base_evidence();
    evidence.open_by_process = ProbeOutcome::Observed(vec![ProcessRef { pid: 1, command: "stale".to_string() }]);
    let result = CorrelationResult {
        open_by_process: ProbeOutcome::Unavailable(ProbeReason::TimedOut),
        process_cwd_match: ProbeOutcome::Unavailable(ProbeReason::TimedOut),
        git_state: ProbeOutcome::Unavailable(ProbeReason::TimedOut),
        tool_liveness: ProbeOutcome::Unavailable(ProbeReason::TimedOut),
    };
    merge_into(&mut evidence, result);
    assert_eq!(evidence.open_by_process, ProbeOutcome::Unavailable(ProbeReason::TimedOut));
}

struct FakeOpenFiles;
impl OpenFileProbe for FakeOpenFiles {
    fn processes_with_open_files_under(&self, _path: &str, _timeout: TimeSpan) -> ProbeOutcome<Vec<ProcessRef>> {
        ProbeOutcome::Observed(vec![ProcessRef { pid: 1, command: "open_files".to_string() }])
    }
}

struct FakeProcessCwd;
impl ProcessCwdProbe for FakeProcessCwd {
    fn processes_with_cwd_under(&self, _path: &str, _timeout: TimeSpan) -> ProbeOutcome<Vec<ProcessRef>> {
        ProbeOutcome::Observed(vec![ProcessRef { pid: 2, command: "cwd".to_string() }])
    }
}

struct FakeGit;
impl GitProbe for FakeGit {
    fn state_of(&self, path: &str, _timeout: TimeSpan) -> ProbeOutcome<Option<GitState>> {
        ProbeOutcome::Observed(Some(GitState {
            repo_root: path.to_string(),
            dirty: false,
            untracked: false,
            worktree: false,
        }))
    }
}

struct FakeToolLiveness;
impl ToolLivenessProbe for FakeToolLiveness {
    fn is_running(&self, _tool: OwningTool, _timeout: TimeSpan) -> ProbeOutcome<bool> {
        ProbeOutcome::Observed(true)
    }
}

fn fake_collector() -> DefaultEvidenceCollector<FakeOpenFiles, FakeProcessCwd, FakeGit, FakeToolLiveness> {
    DefaultEvidenceCollector::new(FakeOpenFiles, FakeProcessCwd, FakeGit, FakeToolLiveness)
}

#[test]
fn path_locator_runs_all_four_probes() {
    let collector = fake_collector();
    let id = ResourceId::new(ResourceKind::CargoTargetDir, ResourceLocator::Path("/tmp/example".to_string()));
    let result = collector.collect(&id, ProbeBudget { timeout: TimeSpan::from_secs(1) });
    assert_eq!(
        result.open_by_process,
        ProbeOutcome::Observed(vec![ProcessRef { pid: 1, command: "open_files".to_string() }])
    );
    assert_eq!(
        result.process_cwd_match,
        ProbeOutcome::Observed(vec![ProcessRef { pid: 2, command: "cwd".to_string() }])
    );
    assert!(matches!(result.git_state, ProbeOutcome::Observed(Some(_))));
    assert_eq!(result.tool_liveness, ProbeOutcome::Observed(true));
}

#[test]
fn tool_locator_skips_path_based_probes_but_still_checks_liveness() {
    let collector = fake_collector();
    let id = ResourceId::new(
        ResourceKind::DockerBuildCache,
        ResourceLocator::Tool { tool: OwningTool::Docker, id: "abc123".to_string() },
    );
    let result = collector.collect(&id, ProbeBudget { timeout: TimeSpan::from_secs(1) });
    assert_eq!(result.open_by_process, ProbeOutcome::Unavailable(ProbeReason::NotAttempted));
    assert_eq!(result.process_cwd_match, ProbeOutcome::Unavailable(ProbeReason::NotAttempted));
    assert_eq!(result.git_state, ProbeOutcome::Unavailable(ProbeReason::NotAttempted));
    assert_eq!(result.tool_liveness, ProbeOutcome::Observed(true));
}

#[test]
fn parse_status_porcelain_detects_dirty_and_untracked_independently() {
    assert_eq!(parse_status_porcelain(b""), (false, false));
    assert_eq!(parse_status_porcelain(b"?? new_file.txt\n"), (false, true));
    assert_eq!(parse_status_porcelain(b" M changed.txt\n"), (true, false));
    assert_eq!(parse_status_porcelain(b" M changed.txt\n?? new_file.txt\n"), (true, true));
}

#[test]
fn is_linked_worktree_true_when_git_dir_and_common_dir_differ() {
    assert!(is_linked_worktree(b"/repo/.git/worktrees/feature\n/repo/.git\n"));
}

#[test]
fn is_linked_worktree_false_when_git_dir_and_common_dir_match() {
    assert!(!is_linked_worktree(b".git\n.git\n"));
}

#[test]
fn is_linked_worktree_false_on_malformed_output() {
    assert!(!is_linked_worktree(b""));
    assert!(!is_linked_worktree(b"only_one_line\n"));
}

#[test]
fn crlf_lines_and_invalid_bytes_are_tolerated() {
    assert!(is_linked_worktree(b"a\r\nb\r\n"));
    assert!(!is_linked_worktree(b"a\r\na\n"));
    assert_eq!(parse_status_porcelain(b"\xff\xfe\n"), (true, false));
}

#[test]
fn parses_multiple_process_records() {
    let stdout = b"p123\ncsomeproc\nfcwd\nn/some/path\np456\ncother\nf3\nn/some/path/x\n";
    assert_eq!(
        parse_lsof_field_output(stdout),
        vec![
            ProcessRef { pid: 123, command: "someproc".to_string() },
            ProcessRef { pid: 456, command: "other".to_string() },
        ]
    );
}

#[test]
fn record_with_no_command_line_defaults_to_empty_string() {
    let stdout = b"p789\nfcwd\nn/some/path\n";
    assert_eq!(parse_lsof_field_output(stdout), vec![ProcessRef { pid: 789, command: String::new() }]);
}

#[test]
fn empty_stdout_parses_to_empty_vec() {
    assert_eq!(parse_lsof_field_output(b""), Vec::new());
}

#[test]
fn an_unparseable_pid_drops_its_record() {
    assert_eq!(
        parse_lsof_field_output(b"pnotanumber\nccmd\np7\ncok\n"),
        vec![ProcessRef { pid: 7, command: "ok".to_string() }]
    );
}

#[test]
fn lsof_and_pgrep_exit_statuses_are_interpreted() {
    assert_eq!(
        interpret_lsof_output(true, b"p1\nccmd\n", true),
        ProbeOutcome::Observed(vec![ProcessRef { pid: 1, command: "cmd".to_string() }])
    );
    assert_eq!(interpret_lsof_output(false, b"", true), ProbeOutcome::Observed(Vec::new()));
    assert_eq!(interpret_lsof_output(false, b"", false), ProbeOutcome::Unavailable(ProbeReason::Failed));
    assert_eq!(interpret_pgrep_output(true, false, true), ProbeOutcome::Observed(true));
    assert_eq!(interpret_pgrep_output(false, true, true), ProbeOutcome::Observed(false));
    assert_eq!(interpret_pgrep_output(false, true, false), ProbeOutcome::Unavailable(ProbeReason::Failed));
    assert_eq!(daemon_process_name(OwningTool::Docker), Some("com.docker.backend"));
    assert_eq!(daemon_process_name(OwningTool::Cargo), None);
}

fn completed(success: bool, stdout: &str, stderr: &str) -> ToolRun {
    ToolRun::Completed {
        success,
        stdout: stdout.as_bytes().to_vec(),
        stderr: stderr.as_bytes().to_vec(),
    }
}

#[test]
fn builds_lsof_command_with_cwd_selector_anded_to_path() {
    assert_eq!(
        cwd_args("/tmp/example"),
        vec!["-a", "-d", "cwd", "-F", "pcn", "+D", "/tmp/example"]
    );
    assert_eq!(open_files_args("/tmp/example"), vec!["-F", "pcn", "+D", "/tmp/example"]);
}

#[test]
fn unfinished_tool_runs_leave_the_probe_unanswered() {
    assert_eq!(lsof_outcome(ToolRun::NotFound), ProbeOutcome::Unavailable(ProbeReason::ToolAbsent));
    assert_eq!(lsof_outcome(ToolRun::TimedOut), ProbeOutcome::Unavailable(ProbeReason::TimedOut));
    assert_eq!(lsof_outcome(ToolRun::SpawnFailed), ProbeOutcome::Unavailable(ProbeReason::Failed));
    assert_eq!(pgrep_outcome(ToolRun::NotFound), ProbeOutcome::Unavailable(ProbeReason::ToolAbsent));
    assert_eq!(pgrep_outcome(ToolRun::TimedOut), ProbeOutcome::Unavailable(ProbeReason::TimedOut));
}

#[test]
fn completed_tool_runs_are_interpreted() {
    assert_eq!(
        lsof_outcome(completed(true, "p42\ncnode\n", "")),
        ProbeOutcome::Observed(vec![ProcessRef { pid: 42, command: "node".to_string() }])
    );
    assert_eq!(lsof_outcome(completed(false, "", "")), ProbeOutcome::Observed(Vec::new()));
    assert_eq!(
        lsof_outcome(completed(false, "", "lsof: error")),
        ProbeOutcome::Unavailable(ProbeReason::Failed)
    );
    assert_eq!(pgrep_outcome(completed(true, "123\n", "")), ProbeOutcome::Observed(true));
    assert_eq!(pgrep_outcome(completed(false, "", "")), ProbeOutcome::Observed(false));
    assert_eq!(
        pgrep_outcome(completed(false, "", "usage")),
        ProbeOutcome::Unavailable(ProbeReason::Failed)
    );
}

#[test]
fn git_pass_asks_three_questions_and_builds_the_state() {
    let (session, cmd) = git_start("/work/repo/target");
    assert_eq!(cmd.dir, "/work/repo/target");
    assert_eq!(cmd.args, vec!["rev-parse", "--show-toplevel"]);
    let (session, cmd) = match git_advance(session, completed(true, "/work/repo\n", "")) {
        GitStep::Next(s, c) => (s, c),
        GitStep::Done(_) => panic!("expected the status question"),
    };
    assert_eq!(cmd.dir, "/work/repo");
    assert_eq!(cmd.args, vec!["status", "--porcelain"]);
    let (session, cmd) = match git_advance(session, completed(true, " M src/lib.rs\n?? new.txt\n", "")) {
        GitStep::Next(s, c) => (s, c),
        GitStep::Done(_) => panic!("expected the worktree question"),
    };
    assert_eq!(cmd.args, vec!["rev-parse", "--git-dir", "--git-common-dir"]);
    match git_advance(session, completed(true, "/work/repo/.git\n/work/repo/.git\n", "")) {
        GitStep::Done(outcome) => assert_eq!(
            outcome,
            ProbeOutcome::Observed(Some(GitState {
                repo_root: "/work/repo".to_string(),
                dirty: true,
                untracked: true,
                worktree: false,
            }))
        ),
        GitStep::Next(..) => panic!("expected the final answer"),
    }
}

#[test]
fn git_outside_a_repository_is_an_observed_none() {
    let (session, _) = git_start("/tmp/x");
    match git_advance(session, completed(false, "", "fatal: not a git repository")) {
        GitStep::Done(outcome) => assert_eq!(outcome, ProbeOutcome::Observed(None)),
        GitStep::Next(..) => panic!("expected an answer"),
    }
}

#[test]
fn git_failures_leave_the_probe_unanswered() {
    let (session, _) = git_start("/tmp/x");
    match git_advance(session, ToolRun::NotFound) {
        GitStep::Done(outcome) => assert_eq!(outcome, ProbeOutcome::Unavailable(ProbeReason::ToolAbsent)),
        GitStep::Next(..) => panic!("expected an answer"),
    }
    let status = GitSession::Status { repo_root: "/r".to_string() };
    match git_advance(status, completed(false, "", "boom")) {
        GitStep::Done(outcome) => assert_eq!(outcome, ProbeOutcome::Unavailable(ProbeReason::Failed)),
        GitStep::Next(..) => panic!("expected an answer"),
    }
    let (session, _) = git_start("/tmp/x");
    let not_utf8 = ToolRun::Completed { success: true, stdout: vec![0xff, 0xfe], stderr: Vec::new() };
    match git_advance(session, not_utf8) {
        GitStep::Done(outcome) => assert_eq!(outcome, ProbeOutcome::Unavailable(ProbeReason::Failed)),
        GitStep::Next(..) => panic!("expected an answer"),
    }
}

#[test]
fn non_daemon_tools_are_unavailable_tool_not_running_without_shelling_out() {
    for tool in [
        OwningTool::Cargo,
        OwningTool::Npm,
        OwningTool::Pnpm,
        OwningTool::Yarn,
        OwningTool::Homebrew,
        OwningTool::NoTool,
    ] {
        assert_eq!(pgrep_target(tool), Err(ProbeOutcome::Unavailable(ProbeReason::ToolNotRunning)));
    }
    assert_eq!(pgrep_target(OwningTool::Docker), Ok("com.docker.backend"));
}

#[test]
fn path_probes_receive_the_resource_path() {
    let collector = fake_collector();
    let id = ResourceId::new(ResourceKind::NodeModules, ResourceLocator::Path("/work/app/node_modules".to_string()));
    let result = collector.collect(&id, ProbeBudget { timeout: TimeSpan::from_secs(2) });
    match result.git_state {
        ProbeOutcome::Observed(Some(state)) => assert_eq!(state.repo_root, "/work/app/node_modules"),
        other => panic!("expected an observed git state, got {other:?}"),
    }
}
