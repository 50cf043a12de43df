//! The filesystem capacity seam: one cheap observation of a mounted
//! filesystem, never a directory walk.

use vstd::prelude::*;

verus! {

/// One capacity observation.
#[derive(Debug, Clone, Copy, PartialEq, Eq, Structural)]
pub struct FsUsage {
    pub total_bytes: u64,
    pub free_bytes: u64,
}

impl FsUsage {
    pub fn new(total_bytes: u64, free_bytes: u64) -> (u: FsUsage)
        ensures
            u.total_bytes == total_bytes,
            u.free_bytes == free_bytes,
    {
        FsUsage { total_bytes, free_bytes }
    }
}

/// Cheap, constant-time capacity observation of the filesystem holding
/// `path`.
pub trait FsStat {
    fn stat(&self, path: &str) -> Result<FsUsage, std::io::Error>;
}

} // verus!
