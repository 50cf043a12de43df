//! Cargo `target/` directories.
//!
//! This detector does not look for project roots itself (that would be a
//! full-disk walk, the scanner's job): it checks each root in
//! [`DiscoveryContext::known_project_roots`] for a `target/` directory.
//! With no known roots it reports `ToolAbsent`. A `target/` directory is
//! fully owned, regenerable build output, so its reclaimable size is its
//! logical size.

use vstd::prelude::*;

use super::{
    conclude_project_dirs, project_dirs_status, DetectorId, DetectorStatus, DirProbe,
    DiscoveryContext,
};
use crate::evidence::model::ResourceKind;
use crate::evidence::time::Timestamp;
use crate::path::{joined, path_join};

verus! {

/// Finds the `target/` directory of each known project root.
pub struct CargoDetector;

/// The Cargo detector's stable id.
pub open spec fn cargo_detector_id() -> DetectorId {
    DetectorId("cargo_target_dir")
}

impl CargoDetector {
    pub fn id(&self) -> (r: DetectorId)
        ensures
            r == cargo_detector_id(),
    {
        DetectorId("cargo_target_dir")
    }

    pub fn resource_kinds(&self) -> (r: Vec<ResourceKind>)
        ensures
            r@ == seq![ResourceKind::CargoTargetDir],
    {
        let mut v: Vec<ResourceKind> = Vec::new();
        v.push(ResourceKind::CargoTargetDir);
        v
    }

    /// The directory to probe under each known project root, in order.
    pub fn candidate_dirs(&self, ctx: &DiscoveryContext) -> (r: Vec<String>)
        ensures
            r@.len() == ctx.known_project_roots@.len(),
            forall|i: int|
                0 <= i < r@.len() ==> #[trigger] r@[i]@ == path_join(
                    ctx.known_project_roots@[i]@,
                    "target"@,
                ),
    {
        let mut out: Vec<String> = Vec::new();
        let mut i: usize = 0;
        while i < ctx.known_project_roots.len()
            invariant
                0 <= i <= ctx.known_project_roots@.len(),
                out@.len() == i,
                forall|j: int|
                    0 <= j < i ==> #[trigger] out@[j]@ == path_join(
                        ctx.known_project_roots@[j]@,
                        "target"@,
                    ),
            decreases ctx.known_project_roots@.len() - i,
        {
            out.push(joined(ctx.known_project_roots[i].as_str(), "target"));
            i = i + 1;
        }
        out
    }

    /// The discovery status, given what probing each candidate directory
    /// found (one probe per known project root, in order). The evidence
    /// records the project root each directory was found under.
    pub fn conclude(&self, ctx: &DiscoveryContext, probes: &Vec<DirProbe>, collected_at: Timestamp) -> (r: DetectorStatus)
        requires
            probes@.len() == ctx.known_project_roots@.len(),
        ensures
            project_dirs_status(
                r,
                ResourceKind::CargoTargetDir,
                cargo_detector_id(),
                true,
                ctx.known_project_roots@,
                probes@,
                collected_at,
            ),
    {
        conclude_project_dirs(
            ResourceKind::CargoTargetDir,
            self.id(),
            true,
            &ctx.known_project_roots,
            probes,
            collected_at,
        )
    }
}

} // verus!
