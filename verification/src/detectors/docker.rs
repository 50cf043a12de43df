//! Docker's build cache, as `docker system df --format '{{json .}}'`
//! reports it.
//!
//! Detect-only: the evidence carries the reported build-cache size and no
//! cleanup action. Only the `Type: "Build Cache"` row is read; turning its
//! human size text (`"1.2GB"`) into bytes is floating-point work done
//! outside the library, which hands the figure back to [`DockerDetector::conclude`].

use vstd::prelude::*;

use super::{
    discovery_fields, joined_message, CommandOutcome, DetectorId, DetectorStatus,
    discovery_evidence,
};
use crate::evidence::correlate::{text_of_output, utf8_lossy};
use crate::evidence::model::{
    Evidence, LocatorView, NativeCleanup, OwningTool, Recoverability, Regenerability, ResourceId,
    ResourceKind, ResourceLocator,
};
use crate::evidence::probe::{ProbeOutcome, ProbeReason};
use crate::evidence::time::Timestamp;
use crate::parse::{
    char_vec_views, find_exec, find_from, is_ws, is_ws_exec, leading_ws, lemma_leading_ws, lines,
    lines_exec, subvec,
};
use crate::text::{chars_of, contains_exec, contains_seq, owned, string_from_chars};

verus! {

/// Reads the build-cache size from `docker system df`.
pub struct DockerDetector;

/// The Docker detector's stable id.
pub open spec fn docker_detector_id() -> DetectorId {
    DetectorId("docker_build_cache")
}

/// The provenance note every Docker evidence record carries.
pub const DOCKER_SOURCE: &'static str = "docker system df --format '{{json .}}'";

/// The quoted value of the first `"Size"` field in `line`: the text
/// between the quotes after the colon that follows the field name (white
/// space before the opening quote is skipped).
pub open spec fn size_value_of_line(line: Seq<char>) -> Option<Seq<char>> {
    match find_from(line, "\"Size\""@, 0) {
        None => None,
        Some(idx) => {
            let rest = line.skip(idx);
            match find_from(rest, ":"@, 0) {
                None => None,
                Some(c) => {
                    let after = rest.skip(c + 1);
                    let v = after.skip(leading_ws(after) as int);
                    if v.len() > 0 && v[0] == '"' {
                        let value = v.skip(1);
                        match find_from(value, "\""@, 0) {
                            Some(end) => Some(value.take(end)),
                            None => None,
                        }
                    } else {
                        None
                    }
                }
            }
        },
    }
}

/// Whether `line` is the build-cache row.
pub open spec fn is_build_cache_row(line: Seq<char>) -> bool {
    contains_seq(line, "\"Type\":\"Build Cache\""@) || contains_seq(
        line,
        "\"Type\": \"Build Cache\""@,
    )
}

/// The size text of the first build-cache row that has one.
pub open spec fn build_cache_size_in(ls: Seq<Seq<char>>) -> Option<Seq<char>>
    decreases ls.len(),
{
    if ls.len() == 0 {
        None
    } else if is_build_cache_row(ls[0]) && size_value_of_line(ls[0]) is Some {
        size_value_of_line(ls[0])
    } else {
        build_cache_size_in(ls.drop_first())
    }
}

fn size_value_of_line_exec(line: &Vec<char>) -> (r: Option<Vec<char>>)
    ensures
        match r {
            Some(v) => size_value_of_line(line@) == Some(v@),
            None => size_value_of_line(line@) is None,
        },
{
    let size_key = chars_of("\"Size\"");
    let idx = match find_exec(line, &size_key, 0) {
        None => return None,
        Some(i) => i,
    };
    let rest = subvec(line, idx, line.len());
    assert(rest@ =~= line@.skip(idx as int));
    let colon_key = chars_of(":");
    proof {
        reveal_strlit(":");
    }
    let c = match find_exec(&rest, &colon_key, 0) {
        None => return None,
        Some(c) => c,
    };
    let after = subvec(&rest, c + 1, rest.len());
    assert(after@ =~= rest@.skip(c + 1));
    let mut a: usize = 0;
    while a < after.len() && is_ws_exec(after[a])
        invariant
            0 <= a <= after@.len(),
            forall|j: int| 0 <= j < a ==> is_ws(after@[j]),
        decreases after@.len() - a,
    {
        a = a + 1;
    }
    proof {
        lemma_leading_ws(after@, a as int);
        let tail = after@.skip(a as int);
        if tail.len() > 0 {
            assert(tail[0] == after@[a as int]);
        }
        assert(leading_ws(tail) == 0);
    }
    let v = subvec(&after, a, after.len());
    assert(v@ =~= after@.skip(a as int));
    if v.len() == 0 || v[0] != '"' {
        return None;
    }
    let value = subvec(&v, 1, v.len());
    assert(value@ =~= v@.skip(1));
    let quote = chars_of("\"");
    match find_exec(&value, &quote, 0) {
        Some(end) => {
            let out = subvec(&value, 0, end);
            assert(out@ =~= value@.take(end as int));
            Some(out)
        },
        None => None,
    }
}

/// The size text (e.g. `"512MB"`) of the build-cache row in the output of
/// `docker system df --format '{{json .}}'`: the first line that is the
/// build-cache row and has a quoted `"Size"` value.
pub fn parse_build_cache_size(stdout: &str) -> (r: Option<String>)
    ensures
        match r {
            Some(s) => build_cache_size_in(lines(stdout@)) == Some(s@),
            None => build_cache_size_in(lines(stdout@)) is None,
        },
{
    let text = chars_of(stdout);
    let ls = lines_exec(&text);
    let row_a = chars_of("\"Type\":\"Build Cache\"");
    let row_b = chars_of("\"Type\": \"Build Cache\"");
    let ghost all = char_vec_views(ls@);
    let mut i: usize = 0;
    assert(all.skip(0) =~= all);
    while i < ls.len()
        invariant
            0 <= i <= ls@.len(),
            all == char_vec_views(ls@),
            all == lines(stdout@),
            row_a@ == "\"Type\":\"Build Cache\""@,
            row_b@ == "\"Type\": \"Build Cache\""@,
            build_cache_size_in(all) == build_cache_size_in(all.skip(i as int)),
        decreases ls@.len() - i,
    {
        let line = &ls[i];
        let ghost rest = all.skip(i as int);
        assert(rest[0] == line@);
        assert(rest.drop_first() =~= all.skip(i + 1));
        if contains_exec(line, &row_a) || contains_exec(line, &row_b) {
            match size_value_of_line_exec(line) {
                Some(v) => {
                    return Some(string_from_chars(v.as_slice()));
                },
                None => {},
            }
        }
        i = i + 1;
    }
    assert(all.skip(i as int).len() == 0);
    None
}

/// What running `docker system df` yields: its output text, or the
/// discovery status when there is none. Not installed is `ToolAbsent`, and
/// so is a failing exit status (the daemon is not running or not
/// reachable); a failed spawn is `Failed`.
pub open spec fn stdout_text_is(r: Result<String, DetectorStatus>, outcome: CommandOutcome) -> bool {
    match outcome {
        CommandOutcome::NotInstalled => r matches Err(DetectorStatus::ToolAbsent),
        CommandOutcome::SpawnFailed(e) => r matches Err(DetectorStatus::Failed(m)) && m@
            == "failed to spawn docker: "@ + e@,
        CommandOutcome::Exited { success, status, stdout } => if success {
            r matches Ok(s) && s@ == utf8_lossy(stdout@)
        } else {
            r matches Err(DetectorStatus::ToolAbsent)
        },
    }
}

/// The one evidence record for the build cache: located as Docker's
/// `build_cache`, sized by the reported figure when there was one, with no
/// reclaimable figure, regenerable by the tool, no cleanup action, and the
/// command as its provenance note.
pub open spec fn docker_status(r: DetectorStatus, build_cache_bytes: Option<u64>, collected_at: Timestamp) -> bool {
    r matches DetectorStatus::Found(ev) && ev@.len() == 1 && {
        let e = ev@[0];
        &&& e.resource.kind == ResourceKind::DockerBuildCache
        &&& e.resource.locator@ == LocatorView::Tool(OwningTool::Docker, "build_cache"@)
        &&& e.resource.source_project_root is None
        &&& discovery_fields(
            e,
            e.resource,
            docker_detector_id(),
            None,
            match build_cache_bytes {
                Some(b) => ProbeOutcome::Observed(b),
                None => ProbeOutcome::Unavailable(ProbeReason::Failed),
            },
            ProbeOutcome::Unavailable(ProbeReason::NotAttempted),
            false,
            ProbeOutcome::Unavailable(ProbeReason::NotAttempted),
            Regenerability::RegenerableByTool,
            Recoverability::RegenerableByTool,
            NativeCleanup::Unsupported,
            collected_at,
        )
        &&& e.sources@.len() == 1
        &&& e.sources@[0]@ == DOCKER_SOURCE@
    }
}

impl DockerDetector {
    pub fn id(&self) -> (r: DetectorId)
        ensures
            r == docker_detector_id(),
    {
        DetectorId("docker_build_cache")
    }

    pub fn resource_kinds(&self) -> (r: Vec<ResourceKind>)
        ensures
            r@ == seq![ResourceKind::DockerBuildCache],
    {
        let mut v: Vec<ResourceKind> = Vec::new();
        v.push(ResourceKind::DockerBuildCache);
        v
    }

    /// The output text of `docker system df`, or the status to report.
    pub fn stdout_text(&self, outcome: CommandOutcome) -> (r: Result<String, DetectorStatus>)
        ensures
            stdout_text_is(r, outcome),
    {
        match outcome {
            CommandOutcome::NotInstalled => Err(DetectorStatus::ToolAbsent),
            CommandOutcome::SpawnFailed(e) => Err(
                DetectorStatus::Failed(joined_message("failed to spawn docker: ", e.as_str())),
            ),
            CommandOutcome::Exited { success, status, stdout } => {
                if success {
                    let text = text_of_output(stdout.as_slice());
                    Ok(string_from_chars(text.as_slice()))
                } else {
                    Err(DetectorStatus::ToolAbsent)
                }
            },
        }
    }

    /// The discovery status, given the build cache's size in bytes when it
    /// could be read.
    pub fn conclude(&self, build_cache_bytes: Option<u64>, collected_at: Timestamp) -> (r: DetectorStatus)
        ensures
            docker_status(r, build_cache_bytes, collected_at),
    {
        let resource = ResourceId::new(
            ResourceKind::DockerBuildCache,
            ResourceLocator::Tool { tool: OwningTool::Docker, id: owned("build_cache") },
        );
        let logical = match build_cache_bytes {
            Some(b) => ProbeOutcome::Observed(b),
            None => ProbeOutcome::Unavailable(ProbeReason::Failed),
        };
        let mut e = discovery_evidence(
            resource,
            self.id(),
            None,
            logical,
            ProbeOutcome::Unavailable(ProbeReason::NotAttempted),
            false,
            ProbeOutcome::Unavailable(ProbeReason::NotAttempted),
            Regenerability::RegenerableByTool,
            Recoverability::RegenerableByTool,
            NativeCleanup::Unsupported,
            collected_at,
        );
        e.push_source(owned(DOCKER_SOURCE));
        let mut ev: Vec<Evidence> = Vec::new();
        ev.push(e);
        DetectorStatus::Found(ev)
    }
}

} // verus!
