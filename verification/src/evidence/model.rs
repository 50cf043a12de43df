//! What a detector observed about a resource: its kind, identity, instance
//! fingerprint and probe outcomes, plus the derived completeness and
//! confidence judgments.

use vstd::prelude::*;

use super::probe::ProbeOutcome;
use super::time::Timestamp;
use crate::detectors::DetectorId;
use crate::text::{chars_of, push_str, str_eq, string_from_chars};

verus! {

/// The kind of on-disk/tool-owned resource a detector found. `Unknown` is a
/// fail-closed sink that policy maps to `PROTECTED` unconditionally.
#[derive(Debug, Clone, Copy, PartialEq, Eq, Hash, Structural)]
pub enum ResourceKind {
    XcodeDerivedData,
    HomebrewCache,
    CargoTargetDir,
    CargoRegistryCache,
    NodeModules,
    NodePackageManagerCache,
    DockerBuildCache,
    DockerImageCache,
    Unknown,
}

/// Tool that owns/manages a resource.
#[derive(Debug, Clone, Copy, PartialEq, Eq, Hash, Structural)]
pub enum OwningTool {
    Xcode,
    Homebrew,
    Cargo,
    Npm,
    Pnpm,
    Yarn,
    Docker,
    NoTool,
}

/// Static, per-kind property: can this resource be regenerated, and how.
#[derive(Debug, Clone, Copy, PartialEq, Eq, Structural)]
pub enum Regenerability {
    RegenerableByTool,
    RegenerableByRebuild,
    NotRegenerable,
    Unknown,
}

/// Per-instance judgment of what happens if this resource is removed.
#[derive(Debug, Clone, Copy, PartialEq, Eq, Structural)]
pub enum Recoverability {
    RegenerableByTool,
    RegenerableByRebuild,
    Irreversible,
}

/// A stable identifier for a pre-registered, typed cleanup action.
#[derive(Debug, Clone, Copy, PartialEq, Eq, Hash)]
pub struct ActionId(pub &'static str);

/// Whether a detector knows of a native cleanup command for this resource.
#[derive(Debug, Clone, Copy, PartialEq, Eq)]
pub enum NativeCleanup {
    Available(ActionId),
    Unsupported,
}

/// One discrete field of evidence that a kind can require.
#[derive(Debug, Clone, Copy, PartialEq, Eq, Hash, Structural)]
pub enum EvidenceField {
    LogicalBytes,
    ReclaimableBytes,
    LastModified,
    OpenByProcess,
    ProcessCwdMatch,
    GitState,
    ToolLiveness,
}

impl ResourceKind {
    /// Tool that owns/manages this kind of resource.
    pub open spec fn spec_owning_tool(self) -> OwningTool {
        match self {
            ResourceKind::XcodeDerivedData => OwningTool::Xcode,
            ResourceKind::HomebrewCache => OwningTool::Homebrew,
            ResourceKind::CargoTargetDir | ResourceKind::CargoRegistryCache => OwningTool::Cargo,
            ResourceKind::NodeModules | ResourceKind::NodePackageManagerCache => OwningTool::Npm,
            ResourceKind::DockerBuildCache | ResourceKind::DockerImageCache => OwningTool::Docker,
            ResourceKind::Unknown => OwningTool::NoTool,
        }
    }

    pub fn owning_tool(&self) -> (t: OwningTool)
        ensures
            t == self.spec_owning_tool(),
    {
        match self {
            ResourceKind::XcodeDerivedData => OwningTool::Xcode,
            ResourceKind::HomebrewCache => OwningTool::Homebrew,
            ResourceKind::CargoTargetDir | ResourceKind::CargoRegistryCache => OwningTool::Cargo,
            ResourceKind::NodeModules | ResourceKind::NodePackageManagerCache => OwningTool::Npm,
            ResourceKind::DockerBuildCache | ResourceKind::DockerImageCache => OwningTool::Docker,
            ResourceKind::Unknown => OwningTool::NoTool,
        }
    }

    /// Static, per-kind regenerability.
    pub open spec fn spec_regenerability(self) -> Regenerability {
        match self {
            ResourceKind::XcodeDerivedData => Regenerability::RegenerableByRebuild,
            ResourceKind::HomebrewCache => Regenerability::RegenerableByTool,
            ResourceKind::CargoTargetDir => Regenerability::RegenerableByRebuild,
            ResourceKind::CargoRegistryCache => Regenerability::RegenerableByTool,
            ResourceKind::NodeModules => Regenerability::RegenerableByRebuild,
            ResourceKind::NodePackageManagerCache => Regenerability::RegenerableByTool,
            ResourceKind::DockerBuildCache => Regenerability::RegenerableByTool,
            ResourceKind::DockerImageCache => Regenerability::RegenerableByTool,
            ResourceKind::Unknown => Regenerability::Unknown,
        }
    }

    pub fn regenerability(&self) -> (r: Regenerability)
        ensures
            r == self.spec_regenerability(),
    {
        match self {
            ResourceKind::XcodeDerivedData => Regenerability::RegenerableByRebuild,
            ResourceKind::HomebrewCache => Regenerability::RegenerableByTool,
            ResourceKind::CargoTargetDir => Regenerability::RegenerableByRebuild,
            ResourceKind::CargoRegistryCache => Regenerability::RegenerableByTool,
            ResourceKind::NodeModules => Regenerability::RegenerableByRebuild,
            ResourceKind::NodePackageManagerCache => Regenerability::RegenerableByTool,
            ResourceKind::DockerBuildCache => Regenerability::RegenerableByTool,
            ResourceKind::DockerImageCache => Regenerability::RegenerableByTool,
            ResourceKind::Unknown => Regenerability::Unknown,
        }
    }

    /// Whether the owning tool has a real running-process signal, so that
    /// tool liveness is part of the evidence this kind needs.
    pub open spec fn needs_tool_liveness(self) -> bool {
        match self {
            ResourceKind::XcodeDerivedData
            | ResourceKind::DockerBuildCache
            | ResourceKind::DockerImageCache => true,
            _ => false,
        }
    }

    /// Evidence fields required for evidence of this kind to be complete,
    /// in this order.
    pub open spec fn spec_required_evidence(self) -> Seq<EvidenceField> {
        let base = seq![
            EvidenceField::LogicalBytes,
            EvidenceField::ReclaimableBytes,
            EvidenceField::LastModified,
            EvidenceField::OpenByProcess,
            EvidenceField::ProcessCwdMatch,
            EvidenceField::GitState,
        ];
        if self.needs_tool_liveness() {
            base.push(EvidenceField::ToolLiveness)
        } else {
            base
        }
    }

    pub fn required_evidence(&self) -> (r: Vec<EvidenceField>)
        ensures
            r@ == self.spec_required_evidence(),
    {
        let mut v: Vec<EvidenceField> = Vec::new();
        v.push(EvidenceField::LogicalBytes);
        v.push(EvidenceField::ReclaimableBytes);
        v.push(EvidenceField::LastModified);
        v.push(EvidenceField::OpenByProcess);
        v.push(EvidenceField::ProcessCwdMatch);
        v.push(EvidenceField::GitState);
        match self {
            ResourceKind::XcodeDerivedData
            | ResourceKind::DockerBuildCache
            | ResourceKind::DockerImageCache => {
                v.push(EvidenceField::ToolLiveness);
            },
            _ => {},
        }
        assert(v@ =~= self.spec_required_evidence());
        v
    }

    /// Stable, snake_case tag for this kind.
    pub open spec fn spec_tag(self) -> Seq<char> {
        match self {
            ResourceKind::XcodeDerivedData => "xcode_derived_data"@,
            ResourceKind::HomebrewCache => "homebrew_cache"@,
            ResourceKind::CargoTargetDir => "cargo_target_dir"@,
            ResourceKind::CargoRegistryCache => "cargo_registry_cache"@,
            ResourceKind::NodeModules => "node_modules"@,
            ResourceKind::NodePackageManagerCache => "node_package_manager_cache"@,
            ResourceKind::DockerBuildCache => "docker_build_cache"@,
            ResourceKind::DockerImageCache => "docker_image_cache"@,
            ResourceKind::Unknown => "unknown"@,
        }
    }

    pub fn tag(&self) -> (t: &'static str)
        ensures
            t@ == self.spec_tag(),
    {
        match self {
            ResourceKind::XcodeDerivedData => "xcode_derived_data",
            ResourceKind::HomebrewCache => "homebrew_cache",
            ResourceKind::CargoTargetDir => "cargo_target_dir",
            ResourceKind::CargoRegistryCache => "cargo_registry_cache",
            ResourceKind::NodeModules => "node_modules",
            ResourceKind::NodePackageManagerCache => "node_package_manager_cache",
            ResourceKind::DockerBuildCache => "docker_build_cache",
            ResourceKind::DockerImageCache => "docker_image_cache",
            ResourceKind::Unknown => "unknown",
        }
    }

    /// The position of this kind in declaration order.
    pub open spec fn spec_index(self) -> int {
        match self {
            ResourceKind::XcodeDerivedData => 0,
            ResourceKind::HomebrewCache => 1,
            ResourceKind::CargoTargetDir => 2,
            ResourceKind::CargoRegistryCache => 3,
            ResourceKind::NodeModules => 4,
            ResourceKind::NodePackageManagerCache => 5,
            ResourceKind::DockerBuildCache => 6,
            ResourceKind::DockerImageCache => 7,
            ResourceKind::Unknown => 8,
        }
    }

    /// Every kind, in declaration order.
    pub open spec fn spec_all() -> Seq<ResourceKind> {
        seq![
            ResourceKind::XcodeDerivedData,
            ResourceKind::HomebrewCache,
            ResourceKind::CargoTargetDir,
            ResourceKind::CargoRegistryCache,
            ResourceKind::NodeModules,
            ResourceKind::NodePackageManagerCache,
            ResourceKind::DockerBuildCache,
            ResourceKind::DockerImageCache,
            ResourceKind::Unknown,
        ]
    }

    /// Every kind, in declaration order, each exactly once.
    pub fn all() -> (v: Vec<ResourceKind>)
        ensures
            v@ == Self::spec_all(),
    {
        let v = vec![
            ResourceKind::XcodeDerivedData,
            ResourceKind::HomebrewCache,
            ResourceKind::CargoTargetDir,
            ResourceKind::CargoRegistryCache,
            ResourceKind::NodeModules,
            ResourceKind::NodePackageManagerCache,
            ResourceKind::DockerBuildCache,
            ResourceKind::DockerImageCache,
            ResourceKind::Unknown,
        ];
        assert(v@ =~= Self::spec_all());
        v
    }

    /// Parses a tag back into its kind, or `None` for any string that is
    /// not exactly one of them: no case folding, trimming or prefix
    /// matching.
    pub fn from_tag(tag: &str) -> (r: Option<ResourceKind>)
        ensures
            match r {
                Some(k) => k.spec_tag() == tag@,
                None => forall|k: ResourceKind| k.spec_tag() != tag@,
            },
    {
        let kinds = Self::all();
        let mut i: usize = 0;
        while i < kinds.len()
            invariant
                kinds@ == Self::spec_all(),
                0 <= i <= kinds@.len(),
                forall|j: int| 0 <= j < i ==> (#[trigger] kinds@[j]).spec_tag() != tag@,
            decreases kinds@.len() - i,
        {
            let k = kinds[i];
            if str_eq(k.tag(), tag) {
                return Some(k);
            }
            i = i + 1;
        }
        assert forall|k: ResourceKind| k.spec_tag() != tag@ by {
            assert(kinds@[k.spec_index()] == k);
        }
        None
    }
}

impl OwningTool {
    /// Lower-case display name of the tool.
    pub open spec fn spec_as_str(self) -> Seq<char> {
        match self {
            OwningTool::Xcode => "xcode"@,
            OwningTool::Homebrew => "homebrew"@,
            OwningTool::Cargo => "cargo"@,
            OwningTool::Npm => "npm"@,
            OwningTool::Pnpm => "pnpm"@,
            OwningTool::Yarn => "yarn"@,
            OwningTool::Docker => "docker"@,
            OwningTool::NoTool => "none"@,
        }
    }

    pub fn as_str(&self) -> (s: &'static str)
        ensures
            s@ == self.spec_as_str(),
    {
        match self {
            OwningTool::Xcode => "xcode",
            OwningTool::Homebrew => "homebrew",
            OwningTool::Cargo => "cargo",
            OwningTool::Npm => "npm",
            OwningTool::Pnpm => "pnpm",
            OwningTool::Yarn => "yarn",
            OwningTool::Docker => "docker",
            OwningTool::NoTool => "none",
        }
    }
}

impl EvidenceField {
    /// What the field is, in the words a user would use for it.
    pub open spec fn spec_describe(self) -> Seq<char> {
        match self {
            EvidenceField::LogicalBytes => "how big it is"@,
            EvidenceField::ReclaimableBytes => "how much space removing it would free"@,
            EvidenceField::LastModified => "when it was last changed"@,
            EvidenceField::OpenByProcess => "whether a running process has it open"@,
            EvidenceField::ProcessCwdMatch => "whether a running process is working inside it"@,
            EvidenceField::GitState => "the state of its git repository"@,
            EvidenceField::ToolLiveness => "whether the tool that owns it is running"@,
        }
    }

    pub fn describe(&self) -> (s: &'static str)
        ensures
            s@ == self.spec_describe(),
    {
        match self {
            EvidenceField::LogicalBytes => "how big it is",
            EvidenceField::ReclaimableBytes => "how much space removing it would free",
            EvidenceField::LastModified => "when it was last changed",
            EvidenceField::OpenByProcess => "whether a running process has it open",
            EvidenceField::ProcessCwdMatch => "whether a running process is working inside it",
            EvidenceField::GitState => "the state of its git repository",
            EvidenceField::ToolLiveness => "whether the tool that owns it is running",
        }
    }
}

/// How to locate a resource: a (canonicalized) filesystem path, or a
/// tool-native id with no single canonical path.
#[derive(Debug, Clone, PartialEq, Eq, Hash)]
pub enum ResourceLocator {
    Path(String),
    Tool { tool: OwningTool, id: String },
}

/// The plain content of a [`ResourceLocator`].
pub enum LocatorView {
    Path(Seq<char>),
    Tool(OwningTool, Seq<char>),
}

impl View for ResourceLocator {
    type V = LocatorView;

    open spec fn view(&self) -> LocatorView {
        match self {
            ResourceLocator::Path(p) => LocatorView::Path(p@),
            ResourceLocator::Tool { tool, id } => LocatorView::Tool(*tool, id@),
        }
    }
}

impl ResourceLocator {
    /// The display text: the path itself, or `"<tool>:<id>"`.
    pub open spec fn spec_render(self) -> Seq<char> {
        match self@ {
            LocatorView::Path(p) => p,
            LocatorView::Tool(tool, id) => tool.spec_as_str() + ":"@ + id,
        }
    }

    pub fn render(&self) -> (s: String)
        ensures
            s@ == self.spec_render(),
    {
        let mut out: Vec<char> = Vec::new();
        match self {
            ResourceLocator::Path(p) => {
                push_str(&mut out, p.as_str());
            },
            ResourceLocator::Tool { tool, id } => {
                push_str(&mut out, tool.as_str());
                push_str(&mut out, ":");
                push_str(&mut out, id.as_str());
            },
        }
        assert(out@ =~= self.spec_render());
        string_from_chars(out.as_slice())
    }

    /// An exact copy.
    pub fn duplicate(&self) -> (r: ResourceLocator)
        ensures
            r == *self,
    {
        match self {
            ResourceLocator::Path(p) => ResourceLocator::Path(p.clone()),
            ResourceLocator::Tool { tool, id } => ResourceLocator::Tool { tool: *tool, id: id.clone() },
        }
    }

    /// Whether two locators name the same place.
    pub fn same_as(&self, other: &ResourceLocator) -> (r: bool)
        ensures
            r == (self@ == other@),
    {
        match (self, other) {
            (ResourceLocator::Path(a), ResourceLocator::Path(b)) => str_eq(a.as_str(), b.as_str()),
            (
                ResourceLocator::Tool { tool: ta, id: ia },
                ResourceLocator::Tool { tool: tb, id: ib },
            ) => *ta == *tb && str_eq(ia.as_str(), ib.as_str()),
            _ => false,
        }
    }
}

/// Stable identity of one resource: its kind and locator. The project root
/// a detector discovered it under is provenance, not identity.
#[derive(Debug, Clone)]
pub struct ResourceId {
    pub kind: ResourceKind,
    pub locator: ResourceLocator,
    /// The project root a detector discovered this resource under, before
    /// any symlink resolution. Only the Cargo detector populates it.
    pub source_project_root: Option<String>,
}

impl ResourceId {
    /// Identity: the kind together with the locator's content.
    pub open spec fn same_resource(self, other: ResourceId) -> bool {
        self.kind == other.kind && self.locator@ == other.locator@
    }

    pub fn new(kind: ResourceKind, locator: ResourceLocator) -> (id: ResourceId)
        ensures
            id.kind == kind,
            id.locator == locator,
            id.source_project_root is None,
    {
        ResourceId { kind, locator, source_project_root: None }
    }

    /// Attach the project root this resource was actually discovered under.
    pub fn with_source_project_root(self, root: String) -> (id: ResourceId)
        ensures
            id.kind == self.kind,
            id.locator == self.locator,
            id.source_project_root == Some(root),
    {
        ResourceId { kind: self.kind, locator: self.locator, source_project_root: Some(root) }
    }

    pub fn kind_tag(&self) -> (t: &'static str)
        ensures
            t@ == self.kind.spec_tag(),
    {
        self.kind.tag()
    }

    /// The stable handle `"<kind_tag>:<locator>"`, e.g.
    /// `"cargo_target_dir:/Users/x/proj/target"`.
    pub open spec fn spec_render(self) -> Seq<char> {
        self.kind.spec_tag() + ":"@ + self.locator.spec_render()
    }

    pub fn render(&self) -> (s: String)
        ensures
            s@ == self.spec_render(),
    {
        let mut out: Vec<char> = Vec::new();
        push_str(&mut out, self.kind_tag());
        push_str(&mut out, ":");
        let loc = self.locator.render();
        push_str(&mut out, loc.as_str());
        assert(out@ =~= self.spec_render());
        string_from_chars(out.as_slice())
    }

    /// An exact copy.
    pub fn duplicate(&self) -> (r: ResourceId)
        ensures
            r == *self,
    {
        let root = match &self.source_project_root {
            Some(p) => Some(p.clone()),
            None => None,
        };
        ResourceId { kind: self.kind, locator: self.locator.duplicate(), source_project_root: root }
    }

    /// Identity comparison: kind and locator only.
    pub fn same_as(&self, other: &ResourceId) -> (r: bool)
        ensures
            r == self.same_resource(*other),
    {
        self.kind == other.kind && self.locator.same_as(&other.locator)
    }
}

impl PartialEq for ResourceId {
    fn eq(&self, other: &Self) -> (r: bool) {
        self.same_as(other)
    }
}

impl vstd::std_specs::cmp::PartialEqSpecImpl for ResourceId {
    open spec fn obeys_eq_spec() -> bool {
        true
    }

    open spec fn eq_spec(&self, other: &ResourceId) -> bool {
        self.same_resource(*other)
    }
}

impl Eq for ResourceId {}

/// Hashes the identity only (kind and locator), consistently with `==`.
impl core::hash::Hash for ResourceId {
    fn hash<H: core::hash::Hasher>(&self, state: &mut H) {
        hash_identity(&self.kind, &self.locator, state);
    }
}

/// Feeds the pair `(kind, locator)` to `state` through std's `Hash` impl
/// for tuples; nothing is claimed of the hasher's state afterwards.
#[verifier::external_body]
fn hash_identity<H: core::hash::Hasher>(kind: &ResourceKind, locator: &ResourceLocator, state: &mut H) {
    core::hash::Hash::hash(&(kind, locator), state);
}

/// Cheap identity fingerprint used to tell whether a resource observed
/// earlier is the same instance later.
#[derive(Debug, Clone, PartialEq, Eq)]
pub struct ResourceFingerprint {
    pub dev_ino: Option<(u64, u64)>,
    pub mtime: Option<Timestamp>,
    pub tool_revision: Option<String>,
}

/// The plain content of a [`ResourceFingerprint`].
pub struct FingerprintView {
    pub dev_ino: Option<(u64, u64)>,
    pub mtime: Option<Timestamp>,
    pub tool_revision: Option<Seq<char>>,
}

impl View for ResourceFingerprint {
    type V = FingerprintView;

    open spec fn view(&self) -> FingerprintView {
        FingerprintView {
            dev_ino: self.dev_ino,
            mtime: self.mtime,
            tool_revision: match self.tool_revision {
                Some(s) => Some(s@),
                None => None,
            },
        }
    }
}

impl ResourceFingerprint {
    /// An exact copy.
    pub fn duplicate(&self) -> (r: ResourceFingerprint)
        ensures
            r == *self,
    {
        let rev = match &self.tool_revision {
            Some(s) => Some(s.clone()),
            None => None,
        };
        ResourceFingerprint { dev_ino: self.dev_ino, mtime: self.mtime, tool_revision: rev }
    }

    /// Whether two fingerprints carry the same content.
    pub fn same_as(&self, other: &ResourceFingerprint) -> (r: bool)
        ensures
            r == (self@ == other@),
    {
        let dev_ino_eq = match (self.dev_ino, other.dev_ino) {
            (Some((d1, i1)), Some((d2, i2))) => d1 == d2 && i1 == i2,
            (None, None) => true,
            _ => false,
        };
        let mtime_eq = match (self.mtime, other.mtime) {
            (Some(a), Some(b)) => a.secs == b.secs && a.nanos == b.nanos,
            (None, None) => true,
            _ => false,
        };
        let rev_eq = match (&self.tool_revision, &other.tool_revision) {
            (Some(a), Some(b)) => str_eq(a.as_str(), b.as_str()),
            (None, None) => true,
            _ => false,
        };
        dev_ino_eq && mtime_eq && rev_eq
    }
}

/// A single process found to have a resource open, or as its working
/// directory.
#[derive(Debug, Clone, PartialEq, Eq)]
pub struct ProcessRef {
    pub pid: u32,
    pub command: String,
}

/// Git repository state for a resource's containing directory.
#[derive(Debug, Clone, PartialEq, Eq)]
pub struct GitState {
    pub repo_root: String,
    pub dirty: bool,
    pub untracked: bool,
    pub worktree: bool,
}

/// Bound on how many provenance notes an [`Evidence`] retains.
pub const MAX_SOURCES: usize = 8;

/// Everything one detector observed about one resource at one time.
#[derive(Debug, Clone, PartialEq)]
pub struct Evidence {
    pub resource: ResourceId,
    pub fingerprint: ResourceFingerprint,
    pub detector: DetectorId,
    pub logical_bytes: ProbeOutcome<u64>,
    /// Physical (on-disk block) size; not measured today.
    pub physical_bytes: Option<u64>,
    pub reclaimable_bytes: ProbeOutcome<u64>,
    /// `true` when `reclaimable_bytes` is a truthful lower bound from a
    /// size walk that stopped early, rather than a settled measurement.
    /// Never read by policy.
    pub reclaimable_bytes_is_lower_bound: bool,
    pub last_modified: ProbeOutcome<Timestamp>,
    pub last_accessed: ProbeOutcome<Timestamp>,
    pub regenerability: Regenerability,
    pub recoverability: Recoverability,
    pub native_cleanup: NativeCleanup,
    pub open_by_process: ProbeOutcome<Vec<ProcessRef>>,
    pub process_cwd_match: ProbeOutcome<Vec<ProcessRef>>,
    /// `Observed(None)`: determined not to be inside a git working tree.
    pub git_state: ProbeOutcome<Option<GitState>>,
    pub tool_liveness: ProbeOutcome<bool>,
    pub collected_at: Timestamp,
    /// Bounded provenance notes (at most `MAX_SOURCES`).
    pub sources: Vec<String>,
}

/// Derived completeness of one [`Evidence`] record.
#[derive(Debug, Clone, PartialEq, Eq)]
pub enum Completeness {
    Complete,
    Partial { missing: Vec<EvidenceField> },
    Failed,
}

/// Advisory confidence derived from [`Completeness`]; never consumed by
/// policy.
#[derive(Debug, Clone, Copy, PartialEq, Eq, Structural)]
pub enum Confidence {
    High,
    Medium,
    Low,
}

impl Evidence {
    /// Whether the probe behind `field` produced a value.
    pub open spec fn field_observed(self, field: EvidenceField) -> bool {
        match field {
            EvidenceField::LogicalBytes => self.logical_bytes is Observed,
            EvidenceField::ReclaimableBytes => self.reclaimable_bytes is Observed,
            EvidenceField::LastModified => self.last_modified is Observed,
            EvidenceField::OpenByProcess => self.open_by_process is Observed,
            EvidenceField::ProcessCwdMatch => self.process_cwd_match is Observed,
            EvidenceField::GitState => self.git_state is Observed,
            EvidenceField::ToolLiveness => self.tool_liveness is Observed,
        }
    }

    /// The required fields (for this kind, in required order) whose probe
    /// did not produce a value.
    pub open spec fn spec_missing(self) -> Seq<EvidenceField> {
        self.resource.kind.spec_required_evidence().filter(
            |f: EvidenceField| !self.field_observed(f),
        )
    }

    /// Complete when nothing required is missing, Failed when everything
    /// required is missing, Partial (listing what is missing) otherwise.
    pub open spec fn spec_completeness_is(self, c: Completeness) -> bool {
        let missing = self.spec_missing();
        let required = self.resource.kind.spec_required_evidence();
        match c {
            Completeness::Complete => missing.len() == 0,
            Completeness::Failed => missing.len() != 0 && missing.len() == required.len(),
            Completeness::Partial { missing: m } => {
                &&& missing.len() != 0
                &&& missing.len() != required.len()
                &&& m@ == missing
            },
        }
    }

    /// Push a provenance note, dropping it once `sources` holds
    /// `MAX_SOURCES` notes.
    pub fn push_source(&mut self, note: String)
        ensures
            old(self).sources@.len() < MAX_SOURCES ==> final(self).sources@ == old(self).sources@.push(note),
            old(self).sources@.len() >= MAX_SOURCES ==> final(self).sources@ == old(self).sources@,
            final(self).resource == old(self).resource,
            final(self).fingerprint == old(self).fingerprint,
            final(self).logical_bytes == old(self).logical_bytes,
            final(self).reclaimable_bytes == old(self).reclaimable_bytes,
            final(self).collected_at == old(self).collected_at,
            final(self).detector == old(self).detector,
            final(self).physical_bytes == old(self).physical_bytes,
            final(self).reclaimable_bytes_is_lower_bound == old(self).reclaimable_bytes_is_lower_bound,
            final(self).last_modified == old(self).last_modified,
            final(self).last_accessed == old(self).last_accessed,
            final(self).regenerability == old(self).regenerability,
            final(self).recoverability == old(self).recoverability,
            final(self).native_cleanup == old(self).native_cleanup,
            final(self).open_by_process == old(self).open_by_process,
            final(self).process_cwd_match == old(self).process_cwd_match,
            final(self).git_state == old(self).git_state,
            final(self).tool_liveness == old(self).tool_liveness,
    {
        if self.sources.len() < MAX_SOURCES {
            self.sources.push(note);
        }
    }

    fn field_is_observed(&self, field: EvidenceField) -> (r: bool)
        ensures
            r == self.field_observed(field),
    {
        match field {
            EvidenceField::LogicalBytes => self.logical_bytes.is_observed(),
            EvidenceField::ReclaimableBytes => self.reclaimable_bytes.is_observed(),
            EvidenceField::LastModified => self.last_modified.is_observed(),
            EvidenceField::OpenByProcess => self.open_by_process.is_observed(),
            EvidenceField::ProcessCwdMatch => self.process_cwd_match.is_observed(),
            EvidenceField::GitState => self.git_state.is_observed(),
            EvidenceField::ToolLiveness => self.tool_liveness.is_observed(),
        }
    }

    /// Derived, never stored: which required fields are missing.
    pub fn completeness(&self) -> (c: Completeness)
        ensures
            self.spec_completeness_is(c),
    {
        let required = self.resource.kind.required_evidence();
        let mut missing: Vec<EvidenceField> = Vec::new();
        let mut i: usize = 0;
        while i < required.len()
            invariant
                required@ == self.resource.kind.spec_required_evidence(),
                0 <= i <= required@.len(),
                missing@ == required@.subrange(0, i as int).filter(
                    |f: EvidenceField| !self.field_observed(f),
                ),
            decreases required@.len() - i,
        {
            let field = required[i];
            let observed = self.field_is_observed(field);
            proof {
                reveal(Seq::filter);
                assert(required@.subrange(0, i + 1).drop_last() =~= required@.subrange(0, i as int));
            }
            if !observed {
                missing.push(field);
            }
            i = i + 1;
        }
        assert(required@.subrange(0, required@.len() as int) =~= required@);
        if missing.len() == 0 {
            Completeness::Complete
        } else if missing.len() == required.len() {
            Completeness::Failed
        } else {
            Completeness::Partial { missing }
        }
    }

    /// Advisory confidence: High when complete, Medium when at most one
    /// required field is missing, Low otherwise.
    pub open spec fn spec_confidence(self) -> Confidence {
        let missing = self.spec_missing();
        let required = self.resource.kind.spec_required_evidence();
        if missing.len() == 0 {
            Confidence::High
        } else if missing.len() != required.len() && missing.len() <= 1 {
            Confidence::Medium
        } else {
            Confidence::Low
        }
    }

    pub fn confidence(&self) -> (c: Confidence)
        ensures
            c == self.spec_confidence(),
    {
        match self.completeness() {
            Completeness::Complete => Confidence::High,
            Completeness::Partial { missing } => {
                if missing.len() <= 1 {
                    Confidence::Medium
                } else {
                    Confidence::Low
                }
            },
            Completeness::Failed => Confidence::Low,
        }
    }
}

} // verus!
