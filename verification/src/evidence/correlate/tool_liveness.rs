//! Whether the tool that owns a resource is running. Only tools with a
//! long-lived process are asked about; for the others there is nothing
//! to look for.

use vstd::prelude::*;

use crate::evidence::model::{EvidenceField, OwningTool, ResourceKind};
use crate::evidence::probe::{ProbeOutcome, ProbeReason};
use crate::evidence::time::TimeSpan;
use super::{unfinished_reason, ToolRun};

verus! {

/// Whether `tool` is running now.
pub trait ToolLivenessProbe {
    fn is_running(&self, tool: OwningTool, timeout: TimeSpan) -> ProbeOutcome<bool>;
}

pub open spec fn spec_daemon_process_name(tool: OwningTool) -> Option<Seq<char>> {
    match tool {
        OwningTool::Xcode => Some("Xcode"@),
        OwningTool::Docker => Some("com.docker.backend"@),
        _ => None,
    }
}

/// The exact process name to look for, for tools that have a daemon.
pub fn daemon_process_name(tool: OwningTool) -> (r: Option<&'static str>)
    ensures
        match spec_daemon_process_name(tool) {
            Some(n) => r matches Some(s) && s@ == n,
            None => r is None,
        },
{
    match tool {
        OwningTool::Xcode => Some("Xcode"),
        OwningTool::Docker => Some("com.docker.backend"),
        _ => None,
    }
}

/// The answer for a tool without a daemon: never shelled out for.
pub fn not_a_daemon() -> (r: ProbeOutcome<bool>)
    ensures
        r == ProbeOutcome::<bool>::Unavailable(ProbeReason::ToolNotRunning),
{
    ProbeOutcome::Unavailable(ProbeReason::ToolNotRunning)
}

/// What a completed `pgrep -x` run means: a match on success; a clean "no
/// match" when it exited non-zero without printing anything; otherwise the
/// probe failed.
pub fn interpret_pgrep_output(success: bool, stdout_empty: bool, stderr_empty: bool) -> (r:
    ProbeOutcome<bool>)
    ensures
        success ==> r == ProbeOutcome::<bool>::Observed(true),
        !success && stdout_empty && stderr_empty ==> r == ProbeOutcome::<bool>::Observed(false),
        !success && !(stdout_empty && stderr_empty) ==> r == ProbeOutcome::<bool>::Unavailable(
            ProbeReason::Failed,
        ),
{
    if success {
        ProbeOutcome::Observed(true)
    } else if stdout_empty && stderr_empty {
        ProbeOutcome::Observed(false)
    } else {
        ProbeOutcome::Unavailable(ProbeReason::Failed)
    }
}


/// The probe outcome of one `pgrep -x` run: unanswered when it did not
/// complete, otherwise what [`interpret_pgrep_output`] makes of it.
pub fn pgrep_outcome(run: ToolRun) -> (r: ProbeOutcome<bool>)
    ensures
        match run {
            ToolRun::Completed { success, stdout, stderr } => {
                &&& success ==> r == ProbeOutcome::<bool>::Observed(true)
                &&& !success && stdout@.len() == 0 && stderr@.len() == 0 ==> r
                    == ProbeOutcome::<bool>::Observed(false)
                &&& !success && !(stdout@.len() == 0 && stderr@.len() == 0) ==> r
                    == ProbeOutcome::<bool>::Unavailable(ProbeReason::Failed)
            },
            _ => r == ProbeOutcome::<bool>::Unavailable(unfinished_reason(run).unwrap()),
        },
{
    match run {
        ToolRun::NotFound => ProbeOutcome::Unavailable(ProbeReason::ToolAbsent),
        ToolRun::TimedOut => ProbeOutcome::Unavailable(ProbeReason::TimedOut),
        ToolRun::SpawnFailed => ProbeOutcome::Unavailable(ProbeReason::Failed),
        ToolRun::Completed { success, stdout, stderr } => interpret_pgrep_output(
            success,
            stdout.len() == 0,
            stderr.len() == 0,
        ),
    }
}


/// What to ask `pgrep -x` for `tool`: its daemon's exact process name, or,
/// for a tool without a daemon, the answer itself, with nothing to run.
pub fn pgrep_target(tool: OwningTool) -> (r: Result<&'static str, ProbeOutcome<bool>>)
    ensures
        match spec_daemon_process_name(tool) {
            Some(n) => r matches Ok(s) && s@ == n,
            None => r == Err::<&'static str, ProbeOutcome<bool>>(
                ProbeOutcome::Unavailable(ProbeReason::ToolNotRunning),
            ),
        },
{
    match daemon_process_name(tool) {
        Some(name) => Ok(name),
        None => Err(not_a_daemon()),
    }
}


/// The liveness probe looks for each daemon tool's own application
/// process: `Xcode` for Xcode and `com.docker.backend` for Docker; every
/// other tool has no daemon to look for.
pub proof fn lemma_daemon_process_names(tool: OwningTool)
    ensures
        tool == OwningTool::Xcode ==> spec_daemon_process_name(tool) == Some("Xcode"@),
        tool == OwningTool::Docker ==> spec_daemon_process_name(tool) == Some("com.docker.backend"@),
        tool != OwningTool::Xcode && tool != OwningTool::Docker ==> spec_daemon_process_name(tool) is None,
{
}

/// Tool liveness is required evidence exactly for the kinds whose owning
/// tool has a daemon process to look for.
pub proof fn lemma_liveness_required_iff_daemon(kind: ResourceKind)
    ensures
        kind.spec_required_evidence().contains(EvidenceField::ToolLiveness) <==> spec_daemon_process_name(
            kind.spec_owning_tool(),
        ) is Some,
{
    crate::policy::engine::lemma_required_evidence_fields(kind);
}

} // verus!
