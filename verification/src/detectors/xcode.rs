//! Xcode's `DerivedData` directory.
//!
//! One aggregate evidence record for the whole directory rather than one
//! per project subdirectory: those are keyed by a hash suffix that changes
//! across Xcode versions and project moves, so they are no stable resource
//! handle. DerivedData is fully owned, regenerable build output, so its
//! reclaimable size is its logical size.

use vstd::prelude::*;

use super::{
    dir_evidence, failure_message, is_dir_evidence, DetectorId, DetectorStatus, DirProbe,
    DiscoveryContext,
};
use crate::evidence::model::{Evidence, Recoverability, Regenerability, ResourceKind};
use crate::evidence::time::Timestamp;
use crate::path::{joined, path_join};

verus! {

/// Finds `~/Library/Developer/Xcode/DerivedData`.
pub struct XcodeDetector;

/// The Xcode detector's stable id.
pub open spec fn xcode_detector_id() -> DetectorId {
    DetectorId("xcode_derived_data")
}

/// Where DerivedData lives, relative to the home directory.
pub const DERIVED_DATA_RELATIVE: &'static str = "Library/Developer/Xcode/DerivedData";

/// The status for the DerivedData directory at `path`, given what probing
/// it found: absent is `ToolAbsent` (Xcode never used), a probe failure is
/// `Failed` with the path and the error, and an existing directory is one
/// aggregate evidence record.
pub open spec fn xcode_status(r: DetectorStatus, path: Seq<char>, probe: DirProbe, collected_at: Timestamp) -> bool {
    match probe {
        DirProbe::NotFound => r is ToolAbsent,
        DirProbe::PermissionDenied(e) => r matches DetectorStatus::Failed(m) && m@
            == "permission denied canonicalizing "@ + path + ": "@ + e@,
        DirProbe::Failed(e) => r matches DetectorStatus::Failed(m) && m@ == "failed to canonicalize "@
            + path + ": "@ + e@,
        DirProbe::Present(d) => r matches DetectorStatus::Found(ev) && ev@.len() == 1
            && is_dir_evidence(
            ev@[0],
            ResourceKind::XcodeDerivedData,
            xcode_detector_id(),
            None,
            d,
            Regenerability::RegenerableByRebuild,
            Recoverability::RegenerableByRebuild,
            collected_at,
        ),
    }
}

impl XcodeDetector {
    pub fn id(&self) -> (r: DetectorId)
        ensures
            r == xcode_detector_id(),
    {
        DetectorId("xcode_derived_data")
    }

    pub fn resource_kinds(&self) -> (r: Vec<ResourceKind>)
        ensures
            r@ == seq![ResourceKind::XcodeDerivedData],
    {
        let mut v: Vec<ResourceKind> = Vec::new();
        v.push(ResourceKind::XcodeDerivedData);
        v
    }

    /// The directory to probe.
    pub fn derived_data_dir(&self, ctx: &DiscoveryContext) -> (r: String)
        ensures
            r@ == path_join(ctx.home_dir@, DERIVED_DATA_RELATIVE@),
    {
        joined(ctx.home_dir.as_str(), DERIVED_DATA_RELATIVE)
    }

    /// The discovery status, given what probing the DerivedData directory
    /// found.
    pub fn conclude(&self, ctx: &DiscoveryContext, probe: DirProbe, collected_at: Timestamp) -> (r: DetectorStatus)
        ensures
            xcode_status(r, path_join(ctx.home_dir@, DERIVED_DATA_RELATIVE@), probe, collected_at),
    {
        let path = self.derived_data_dir(ctx);
        match probe {
            DirProbe::NotFound => DetectorStatus::ToolAbsent,
            DirProbe::PermissionDenied(e) => DetectorStatus::Failed(
                failure_message("permission denied canonicalizing ", path.as_str(), e.as_str()),
            ),
            DirProbe::Failed(e) => DetectorStatus::Failed(
                failure_message("failed to canonicalize ", path.as_str(), e.as_str()),
            ),
            DirProbe::Present(d) => {
                let e = dir_evidence(
                    ResourceKind::XcodeDerivedData,
                    self.id(),
                    None,
                    d,
                    Regenerability::RegenerableByRebuild,
                    Recoverability::RegenerableByRebuild,
                    collected_at,
                );
                let mut ev: Vec<Evidence> = Vec::new();
                ev.push(e);
                DetectorStatus::Found(ev)
            },
        }
    }
}

} // verus!
