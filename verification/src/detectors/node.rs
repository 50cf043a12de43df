//! `node_modules/` directories.
//!
//! This detector does not look for project roots itself (that would be a
//! full-disk walk, the scanner's job): it checks each root in
//! [`DiscoveryContext::known_project_roots`] for a `node_modules/` directory.
//! With no known roots it reports `ToolAbsent`. A `node_modules/` directory is
//! fully owned, regenerable dependency output, so its reclaimable size is its
//! logical size.

use vstd::prelude::*;

use super::{
    conclude_project_dirs, project_dirs_status, DetectorId, DetectorStatus, DirProbe,
    DiscoveryContext,
};
use crate::evidence::model::ResourceKind;
use crate::evidence::time::Timestamp;
use crate::path::{joined, path_join};

verus! {

/// Finds the `node_modules/` directory of each known project root.
pub struct NodeDetector;

/// The `node_modules` detector's stable id.
pub open spec fn node_detector_id() -> DetectorId {
    DetectorId("node_modules")
}

impl NodeDetector {
    pub fn id(&self) -> (r: DetectorId)
        ensures
            r == node_detector_id(),
    {
        DetectorId("node_modules")
    }

    pub fn resource_kinds(&self) -> (r: Vec<ResourceKind>)
        ensures
            r@ == seq![ResourceKind::NodeModules],
    {
        let mut v: Vec<ResourceKind> = Vec::new();
        v.push(ResourceKind::NodeModules);
        v
    }

    /// The directory to probe under each known project root, in order.
    pub fn candidate_dirs(&self, ctx: &DiscoveryContext) -> (r: Vec<String>)
        ensures
            r@.len() == ctx.known_project_roots@.len(),
            forall|i: int|
                0 <= i < r@.len() ==> #[trigger] r@[i]@ == path_join(
                    ctx.known_project_roots@[i]@,
                    "node_modules"@,
                ),
    {
        let mut out: Vec<String> = Vec::new();
        let mut i: usize = 0;
        while i < ctx.known_project_roots.len()
            invariant
                0 <= i <= ctx.known_project_roots@.len(),
                out@.len() == i,
                forall|j: int|
                    0 <= j < i ==> #[trigger] out@[j]@ == path_join(
                        ctx.known_project_roots@[j]@,
                        "node_modules"@,
                    ),
            decreases ctx.known_project_roots@.len() - i,
        {
            out.push(joined(ctx.known_project_roots[i].as_str(), "node_modules"));
            i = i + 1;
        }
        out
    }

    /// The discovery status, given what probing each candidate directory
    /// found (one probe per known project root, in order).
    pub fn conclude(&self, ctx: &DiscoveryContext, probes: &Vec<DirProbe>, collected_at: Timestamp) -> (r: DetectorStatus)
        requires
            probes@.len() == ctx.known_project_roots@.len(),
        ensures
            project_dirs_status(
                r,
                ResourceKind::NodeModules,
                node_detector_id(),
                false,
                ctx.known_project_roots@,
                probes@,
                collected_at,
            ),
    {
        conclude_project_dirs(
            ResourceKind::NodeModules,
            self.id(),
            false,
            &ctx.known_project_roots,
            probes,
            collected_at,
        )
    }
}

} // verus!
