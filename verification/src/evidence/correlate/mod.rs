//! Runtime and project correlation: the four correlation fields of an
//! [`Evidence`], gathered by already-installed system tools (`lsof`,
//! `git`, `pgrep`). Running those tools is I/O done outside the library
//! through the probe traits here; what their output means is decided by
//! the parsers in this module.
//!
//! Collection is single-resource on purpose: the executor calls the same
//! [`EvidenceCollector::collect`] right before a destructive action to
//! re-check liveness.

pub mod default;
pub mod git;
pub mod open_files;
pub mod process;
pub mod tool_liveness;

use vstd::prelude::*;
use vstd::utf8::*;

use crate::evidence::model::{Evidence, GitState, ProcessRef, ResourceId};
use crate::evidence::probe::{ProbeOutcome, ProbeReason};
use crate::evidence::time::TimeSpan;

verus! {

/// Time budget for one collection, applied to each underlying tool run.
#[derive(Debug, Clone, Copy)]
pub struct ProbeBudget {
    pub timeout: TimeSpan,
}

/// The four correlation fields as one bundle.
#[derive(Debug, PartialEq)]
pub struct CorrelationResult {
    pub open_by_process: ProbeOutcome<Vec<ProcessRef>>,
    pub process_cwd_match: ProbeOutcome<Vec<ProcessRef>>,
    pub git_state: ProbeOutcome<Option<GitState>>,
    pub tool_liveness: ProbeOutcome<bool>,
}

/// A single-resource correlation collector.
pub trait EvidenceCollector {
    fn collect(&self, id: &ResourceId, budget: ProbeBudget) -> CorrelationResult;
}

/// Merge a fresh correlation into existing evidence. All four fields are
/// overwritten, a newly `Unavailable` one too: a revalidation that finds a
/// probe failing must downgrade the field, never keep a stale `Observed`.
pub fn merge_into(evidence: &mut Evidence, result: CorrelationResult)
    ensures
        final(evidence).open_by_process == result.open_by_process,
        final(evidence).process_cwd_match == result.process_cwd_match,
        final(evidence).git_state == result.git_state,
        final(evidence).tool_liveness == result.tool_liveness,
        final(evidence).resource == old(evidence).resource,
        final(evidence).fingerprint == old(evidence).fingerprint,
        final(evidence).detector == old(evidence).detector,
        final(evidence).logical_bytes == old(evidence).logical_bytes,
        final(evidence).physical_bytes == old(evidence).physical_bytes,
        final(evidence).reclaimable_bytes == old(evidence).reclaimable_bytes,
        final(evidence).reclaimable_bytes_is_lower_bound == old(evidence).reclaimable_bytes_is_lower_bound,
        final(evidence).last_modified == old(evidence).last_modified,
        final(evidence).last_accessed == old(evidence).last_accessed,
        final(evidence).regenerability == old(evidence).regenerability,
        final(evidence).recoverability == old(evidence).recoverability,
        final(evidence).native_cleanup == old(evidence).native_cleanup,
        final(evidence).collected_at == old(evidence).collected_at,
        final(evidence).sources == old(evidence).sources,
{
    evidence.open_by_process = result.open_by_process;
    evidence.process_cwd_match = result.process_cwd_match;
    evidence.git_state = result.git_state;
    evidence.tool_liveness = result.tool_liveness;
}

/// What running one correlation tool under its time budget produced.
pub enum ToolRun {
    /// The tool is not installed.
    NotFound,
    /// It did not finish within the budget, and was stopped.
    TimedOut,
    /// It could not be started or waited for.
    SpawnFailed,
    /// It finished, with this exit status and output.
    Completed { success: bool, stdout: Vec<u8>, stderr: Vec<u8> },
}

/// Why a run that did not complete left its probe unanswered: an absent
/// tool, a timeout, or any other failure.
pub open spec fn unfinished_reason(run: ToolRun) -> Option<ProbeReason> {
    match run {
        ToolRun::NotFound => Some(ProbeReason::ToolAbsent),
        ToolRun::TimedOut => Some(ProbeReason::TimedOut),
        ToolRun::SpawnFailed => Some(ProbeReason::Failed),
        ToolRun::Completed { .. } => None,
    }
}


/// The characters `String::from_utf8_lossy` makes of a tool's raw output
/// (each ill-formed sequence replaced by U+FFFD).
pub uninterp spec fn utf8_lossy(b: Seq<u8>) -> Seq<char>;

/// `String::from_utf8_lossy`: the text of a tool's raw output, with every
/// ill-formed sequence replaced by U+FFFD; well-formed UTF-8 decodes to
/// exactly its characters.
#[verifier::external_body]
pub(crate) fn text_of_output(bytes: &[u8]) -> (r: Vec<char>)
    ensures
        r@ == utf8_lossy(bytes@),
        valid_utf8(bytes@) ==> r@ == decode_utf8(bytes@),
{
    String::from_utf8_lossy(bytes).chars().collect()
}

} // verus!
