//! Homebrew's download cache.
//!
//! The cache's location comes from `brew --cache` rather than a hard-coded
//! path: `HOMEBREW_CACHE` can move it, and the default differs between
//! Intel and Apple Silicon prefixes. The cache holds only bottles and
//! sources Homebrew fully owns and can download again, so its reclaimable
//! size is its logical size.

use vstd::prelude::*;

use super::{
    dir_evidence, failure_message, is_dir_evidence, joined_message, CommandOutcome, DetectorId,
    DetectorStatus, DirProbe,
};
use crate::evidence::correlate::{text_of_output, utf8_lossy};
use crate::evidence::model::{Evidence, Recoverability, Regenerability, ResourceKind};
use crate::evidence::time::Timestamp;
use crate::parse::{trim, trim_exec};
use crate::text::string_from_chars;

verus! {

/// Finds the directory `brew --cache` names.
pub struct HomebrewDetector;

/// The Homebrew detector's stable id.
pub open spec fn homebrew_detector_id() -> DetectorId {
    DetectorId("homebrew_cache")
}

/// What the text `brew --cache` printed names: the trimmed text, unless
/// that is empty.
pub open spec fn cache_path_from_text_is(r: Result<String, DetectorStatus>, text: Seq<char>) -> bool {
    if trim(text).len() == 0 {
        r matches Err(DetectorStatus::Failed(m)) && m@ == "brew --cache returned an empty path"@
    } else {
        r matches Ok(p) && p@ == trim(text)
    }
}

/// What running `brew --cache` yields: the cache path to probe, or the
/// discovery status when there is none. Not installed is `ToolAbsent`; a
/// failed spawn or a failing exit status is `Failed`.
pub open spec fn cache_path_is(r: Result<String, DetectorStatus>, outcome: CommandOutcome) -> bool {
    match outcome {
        CommandOutcome::NotInstalled => r matches Err(DetectorStatus::ToolAbsent),
        CommandOutcome::SpawnFailed(e) => r matches Err(DetectorStatus::Failed(m)) && m@
            == "failed to spawn brew: "@ + e@,
        CommandOutcome::Exited { success, status, stdout } => if success {
            cache_path_from_text_is(r, utf8_lossy(stdout@))
        } else {
            r matches Err(DetectorStatus::Failed(m)) && m@ == "brew --cache exited with status "@
                + status@
        },
    }
}

/// The status for the cache directory `raw_path`, given what probing it
/// found: absent is `ToolAbsent` (brew never populated a cache), any probe
/// failure is `Failed` with the path and the error, and an existing
/// directory is one evidence record.
pub open spec fn homebrew_status(r: DetectorStatus, raw_path: Seq<char>, probe: DirProbe, collected_at: Timestamp) -> bool {
    match probe {
        DirProbe::NotFound => r is ToolAbsent,
        DirProbe::PermissionDenied(e) => r matches DetectorStatus::Failed(m) && m@
            == "failed to canonicalize "@ + raw_path + ": "@ + e@,
        DirProbe::Failed(e) => r matches DetectorStatus::Failed(m) && m@ == "failed to canonicalize "@
            + raw_path + ": "@ + e@,
        DirProbe::Present(d) => r matches DetectorStatus::Found(ev) && ev@.len() == 1
            && is_dir_evidence(
            ev@[0],
            ResourceKind::HomebrewCache,
            homebrew_detector_id(),
            None,
            d,
            Regenerability::RegenerableByTool,
            Recoverability::RegenerableByTool,
            collected_at,
        ),
    }
}

impl HomebrewDetector {
    pub fn id(&self) -> (r: DetectorId)
        ensures
            r == homebrew_detector_id(),
    {
        DetectorId("homebrew_cache")
    }

    pub fn resource_kinds(&self) -> (r: Vec<ResourceKind>)
        ensures
            r@ == seq![ResourceKind::HomebrewCache],
    {
        let mut v: Vec<ResourceKind> = Vec::new();
        v.push(ResourceKind::HomebrewCache);
        v
    }

    /// The cache path named by the text `brew --cache` printed.
    pub fn cache_path_from_text(&self, text: &Vec<char>) -> (r: Result<String, DetectorStatus>)
        ensures
            cache_path_from_text_is(r, text@),
    {
        let t = trim_exec(text);
        if t.len() == 0 {
            return Err(DetectorStatus::Failed(crate::text::owned("brew --cache returned an empty path")));
        }
        Ok(string_from_chars(t.as_slice()))
    }

    /// The cache path to probe, from running `brew --cache`.
    pub fn cache_path(&self, outcome: CommandOutcome) -> (r: Result<String, DetectorStatus>)
        ensures
            cache_path_is(r, outcome),
    {
        match outcome {
            CommandOutcome::NotInstalled => Err(DetectorStatus::ToolAbsent),
            CommandOutcome::SpawnFailed(e) => Err(
                DetectorStatus::Failed(joined_message("failed to spawn brew: ", e.as_str())),
            ),
            CommandOutcome::Exited { success, status, stdout } => {
                if success {
                    let text = text_of_output(stdout.as_slice());
                    self.cache_path_from_text(&text)
                } else {
                    Err(
                        DetectorStatus::Failed(
                            joined_message("brew --cache exited with status ", status.as_str()),
                        ),
                    )
                }
            },
        }
    }

    /// The discovery status, given what probing the cache directory
    /// `raw_path` found.
    pub fn conclude(&self, raw_path: &str, probe: DirProbe, collected_at: Timestamp) -> (r: DetectorStatus)
        ensures
            homebrew_status(r, raw_path@, probe, collected_at),
    {
        match probe {
            DirProbe::NotFound => DetectorStatus::ToolAbsent,
            DirProbe::PermissionDenied(e) => DetectorStatus::Failed(
                failure_message("failed to canonicalize ", raw_path, e.as_str()),
            ),
            DirProbe::Failed(e) => DetectorStatus::Failed(
                failure_message("failed to canonicalize ", raw_path, e.as_str()),
            ),
            DirProbe::Present(d) => {
                let e = dir_evidence(
                    ResourceKind::HomebrewCache,
                    self.id(),
                    None,
                    d,
                    Regenerability::RegenerableByTool,
                    Recoverability::RegenerableByTool,
                    collected_at,
                );
                let mut ev: Vec<Evidence> = Vec::new();
                ev.push(e);
                DetectorStatus::Found(ev)
            },
        }
    }
}

} // verus!
