//! Policy classification outcomes and reason codes.

use vstd::prelude::*;

use crate::text::str_eq;

verus! {

/// The three deterministic outcomes of policy classification. Missing,
/// stale or failed evidence maps to `Ask` or `Protected` with a specific
/// reason; it is never a fourth outcome.
#[derive(Debug, Clone, Copy, PartialEq, Eq, Structural)]
pub enum PolicyClass {
    AutoSafe,
    Ask,
    Protected,
}

/// Why a [`PolicyClass`] was reached.
#[derive(Debug, Clone, Copy, PartialEq, Eq, Hash, Structural)]
pub enum ReasonCode {
    ProtectedCredentialMaterial,
    ProtectedGitInternals,
    ProtectedInfraState,
    ProtectedPersistentVolume,
    ProtectedUserDocuments,
    ProtectedSystemPath,
    ProtectedUnsafeMountOrSymlink,
    ProtectedUnknownResourceKind,
    EvidenceIncomplete,
    EvidenceStale,
    EvidenceProbeFailed,
    ResourceInActiveUse,
    GitWorktreeDirty,
    RebuildCostHigh,
    OwningToolLive,
    EvidenceFreshAndComplete,
    RegenerableByTool,
    NoActiveUseObserved,
}

impl ReasonCode {
    /// Stable, snake_case tag for this reason code.
    pub open spec fn spec_as_str(self) -> Seq<char> {
        match self {
            ReasonCode::ProtectedCredentialMaterial => "protected_credential_material"@,
            ReasonCode::ProtectedGitInternals => "protected_git_internals"@,
            ReasonCode::ProtectedInfraState => "protected_infra_state"@,
            ReasonCode::ProtectedPersistentVolume => "protected_persistent_volume"@,
            ReasonCode::ProtectedUserDocuments => "protected_user_documents"@,
            ReasonCode::ProtectedSystemPath => "protected_system_path"@,
            ReasonCode::ProtectedUnsafeMountOrSymlink => "protected_unsafe_mount_or_symlink"@,
            ReasonCode::ProtectedUnknownResourceKind => "protected_unknown_resource_kind"@,
            ReasonCode::EvidenceIncomplete => "evidence_incomplete"@,
            ReasonCode::EvidenceStale => "evidence_stale"@,
            ReasonCode::EvidenceProbeFailed => "evidence_probe_failed"@,
            ReasonCode::ResourceInActiveUse => "resource_in_active_use"@,
            ReasonCode::GitWorktreeDirty => "git_worktree_dirty"@,
            ReasonCode::RebuildCostHigh => "rebuild_cost_high"@,
            ReasonCode::OwningToolLive => "owning_tool_live"@,
            ReasonCode::EvidenceFreshAndComplete => "evidence_fresh_and_complete"@,
            ReasonCode::RegenerableByTool => "regenerable_by_tool"@,
            ReasonCode::NoActiveUseObserved => "no_active_use_observed"@,
        }
    }

    pub fn as_str(&self) -> (s: &'static str)
        ensures
            s@ == self.spec_as_str(),
    {
        match self {
            ReasonCode::ProtectedCredentialMaterial => "protected_credential_material",
            ReasonCode::ProtectedGitInternals => "protected_git_internals",
            ReasonCode::ProtectedInfraState => "protected_infra_state",
            ReasonCode::ProtectedPersistentVolume => "protected_persistent_volume",
            ReasonCode::ProtectedUserDocuments => "protected_user_documents",
            ReasonCode::ProtectedSystemPath => "protected_system_path",
            ReasonCode::ProtectedUnsafeMountOrSymlink => "protected_unsafe_mount_or_symlink",
            ReasonCode::ProtectedUnknownResourceKind => "protected_unknown_resource_kind",
            ReasonCode::EvidenceIncomplete => "evidence_incomplete",
            ReasonCode::EvidenceStale => "evidence_stale",
            ReasonCode::EvidenceProbeFailed => "evidence_probe_failed",
            ReasonCode::ResourceInActiveUse => "resource_in_active_use",
            ReasonCode::GitWorktreeDirty => "git_worktree_dirty",
            ReasonCode::RebuildCostHigh => "rebuild_cost_high",
            ReasonCode::OwningToolLive => "owning_tool_live",
            ReasonCode::EvidenceFreshAndComplete => "evidence_fresh_and_complete",
            ReasonCode::RegenerableByTool => "regenerable_by_tool",
            ReasonCode::NoActiveUseObserved => "no_active_use_observed",
        }
    }

    /// The position of this code in declaration order.
    pub open spec fn spec_index(self) -> int {
        match self {
            ReasonCode::ProtectedCredentialMaterial => 0,
            ReasonCode::ProtectedGitInternals => 1,
            ReasonCode::ProtectedInfraState => 2,
            ReasonCode::ProtectedPersistentVolume => 3,
            ReasonCode::ProtectedUserDocuments => 4,
            ReasonCode::ProtectedSystemPath => 5,
            ReasonCode::ProtectedUnsafeMountOrSymlink => 6,
            ReasonCode::ProtectedUnknownResourceKind => 7,
            ReasonCode::EvidenceIncomplete => 8,
            ReasonCode::EvidenceStale => 9,
            ReasonCode::EvidenceProbeFailed => 10,
            ReasonCode::ResourceInActiveUse => 11,
            ReasonCode::GitWorktreeDirty => 12,
            ReasonCode::RebuildCostHigh => 13,
            ReasonCode::OwningToolLive => 14,
            ReasonCode::EvidenceFreshAndComplete => 15,
            ReasonCode::RegenerableByTool => 16,
            ReasonCode::NoActiveUseObserved => 17,
        }
    }

    /// Every reason code in declaration order (Protected, Ask, AutoSafe).
    pub open spec fn spec_all() -> Seq<ReasonCode> {
        seq![
            ReasonCode::ProtectedCredentialMaterial,
            ReasonCode::ProtectedGitInternals,
            ReasonCode::ProtectedInfraState,
            ReasonCode::ProtectedPersistentVolume,
            ReasonCode::ProtectedUserDocuments,
            ReasonCode::ProtectedSystemPath,
            ReasonCode::ProtectedUnsafeMountOrSymlink,
            ReasonCode::ProtectedUnknownResourceKind,
            ReasonCode::EvidenceIncomplete,
            ReasonCode::EvidenceStale,
            ReasonCode::EvidenceProbeFailed,
            ReasonCode::ResourceInActiveUse,
            ReasonCode::GitWorktreeDirty,
            ReasonCode::RebuildCostHigh,
            ReasonCode::OwningToolLive,
            ReasonCode::EvidenceFreshAndComplete,
            ReasonCode::RegenerableByTool,
            ReasonCode::NoActiveUseObserved,
        ]
    }

    /// Every reason code, in declaration order, each exactly once.
    pub fn all() -> (v: Vec<ReasonCode>)
        ensures
            v@ == Self::spec_all(),
    {
        let v = vec![
            ReasonCode::ProtectedCredentialMaterial,
            ReasonCode::ProtectedGitInternals,
            ReasonCode::ProtectedInfraState,
            ReasonCode::ProtectedPersistentVolume,
            ReasonCode::ProtectedUserDocuments,
            ReasonCode::ProtectedSystemPath,
            ReasonCode::ProtectedUnsafeMountOrSymlink,
            ReasonCode::ProtectedUnknownResourceKind,
            ReasonCode::EvidenceIncomplete,
            ReasonCode::EvidenceStale,
            ReasonCode::EvidenceProbeFailed,
            ReasonCode::ResourceInActiveUse,
            ReasonCode::GitWorktreeDirty,
            ReasonCode::RebuildCostHigh,
            ReasonCode::OwningToolLive,
            ReasonCode::EvidenceFreshAndComplete,
            ReasonCode::RegenerableByTool,
            ReasonCode::NoActiveUseObserved,
        ];
        assert(v@ =~= Self::spec_all());
        v
    }

    /// Parses a tag back into its reason code, or `None` for anything that
    /// is not exactly one of them.
    pub fn from_tag(tag: &str) -> (r: Option<ReasonCode>)
        ensures
            match r {
                Some(k) => k.spec_as_str() == tag@,
                None => forall|k: ReasonCode| k.spec_as_str() != tag@,
            },
    {
        let codes = Self::all();
        let mut i: usize = 0;
        while i < codes.len()
            invariant
                codes@ == Self::spec_all(),
                0 <= i <= codes@.len(),
                forall|j: int| 0 <= j < i ==> (#[trigger] codes@[j]).spec_as_str() != tag@,
            decreases codes@.len() - i,
        {
            let k = codes[i];
            if str_eq(k.as_str(), tag) {
                return Some(k);
            }
            i = i + 1;
        }
        assert forall|k: ReasonCode| k.spec_as_str() != tag@ by {
            assert(codes@[k.spec_index()] == k);
        }
        None
    }
}

/// Every reason code has its own non-empty tag: no two codes share one.
pub proof fn lemma_reason_tags_distinct(a: ReasonCode, b: ReasonCode)
    ensures
        a.spec_as_str().len() > 0,
        a != b ==> a.spec_as_str() != b.spec_as_str(),
{
    reveal_strlit("protected_credential_material");
    reveal_strlit("protected_git_internals");
    reveal_strlit("protected_infra_state");
    reveal_strlit("protected_persistent_volume");
    reveal_strlit("protected_user_documents");
    reveal_strlit("protected_system_path");
    reveal_strlit("protected_unsafe_mount_or_symlink");
    reveal_strlit("protected_unknown_resource_kind");
    reveal_strlit("evidence_incomplete");
    reveal_strlit("evidence_stale");
    reveal_strlit("evidence_probe_failed");
    reveal_strlit("resource_in_active_use");
    reveal_strlit("git_worktree_dirty");
    reveal_strlit("rebuild_cost_high");
    reveal_strlit("owning_tool_live");
    reveal_strlit("evidence_fresh_and_complete");
    reveal_strlit("regenerable_by_tool");
    reveal_strlit("no_active_use_observed");
    let sa = a.spec_as_str();
    let sb = b.spec_as_str();
    if a != b {
        assert(sa.len() != sb.len() || sa[0] != sb[0] || sa[10] != sb[10]);
    }
}

} // verus!
