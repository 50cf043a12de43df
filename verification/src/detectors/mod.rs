//! Detectors: bounded, shallow probes of known roots, one family of
//! tool-owned resources each. A detector's tool being absent is normal,
//! expected state, never an error.
//!
//! The probes themselves (canonicalizing a directory, measuring it,
//! running `brew`/`docker`) are I/O and run outside the library; what they
//! found comes back as a [`DirProbe`] or a [`CommandOutcome`], and each
//! detector's `conclude` turns that into the discovery pass's
//! [`DetectorStatus`].

pub mod cargo;
pub mod docker;
pub mod homebrew;
pub mod node;
pub mod xcode;

use vstd::prelude::*;

use crate::evidence::model::{
    Evidence, NativeCleanup, ProcessRef, GitState, Recoverability, Regenerability,
    ResourceFingerprint, ResourceId, ResourceKind, ResourceLocator,
};
use crate::evidence::probe::{ProbeOutcome, ProbeReason};
use crate::evidence::time::Timestamp;

verus! {

/// Stable identifier for one detector, e.g. `"cargo_target_dir"`.
#[derive(Debug, Clone, Copy, PartialEq, Eq, Hash)]
pub struct DetectorId(pub &'static str);

/// Outcome of running one detector's discovery pass.
///
/// `ToolAbsent` is normal, expected state. `Failed` is "we don't know",
/// never "nothing to clean up".
#[derive(Debug, PartialEq)]
pub enum DetectorStatus {
    Found(Vec<Evidence>),
    ToolAbsent,
    Failed(String),
}

/// Shared context passed to every detector's discovery pass.
pub struct DiscoveryContext {
    pub home_dir: String,
    /// Project roots to check for build/dependency directories. Empty by
    /// default: detectors that need this do nothing when it is empty rather
    /// than guessing at project locations.
    pub known_project_roots: Vec<String>,
}

impl DiscoveryContext {
    pub fn new(home_dir: String) -> (ctx: DiscoveryContext)
        ensures
            ctx.home_dir@ == home_dir@,
            ctx.known_project_roots@.len() == 0,
    {
        DiscoveryContext { home_dir, known_project_roots: Vec::new() }
    }

    pub fn with_known_project_roots(self, roots: Vec<String>) -> (ctx: DiscoveryContext)
        ensures
            ctx.home_dir == self.home_dir,
            ctx.known_project_roots == roots,
    {
        DiscoveryContext { home_dir: self.home_dir, known_project_roots: roots }
    }
}

/// What probing one candidate directory found.
pub enum DirProbe {
    /// The directory exists; what was measured of it.
    Present(ProbedDir),
    NotFound,
    /// Access was refused; the text is the operating system's error.
    PermissionDenied(String),
    /// Any other failure; the text is the operating system's error.
    Failed(String),
}

/// What was measured of one existing candidate directory.
pub struct ProbedDir {
    /// The directory's canonical (symlink-resolved, absolute) path.
    pub canonical: String,
    pub dev_ino: Option<(u64, u64)>,
    pub logical_bytes: ProbeOutcome<u64>,
    /// The size walk stopped early: `logical_bytes` is a lower bound.
    pub bytes_is_lower_bound: bool,
    /// A provenance note explaining an early-stopped size walk.
    pub lower_bound_note: Option<String>,
    pub last_modified: ProbeOutcome<Timestamp>,
}

/// What running one external command produced.
pub enum CommandOutcome {
    /// The program is not installed.
    NotInstalled,
    /// Spawning failed otherwise; the text is the operating system's error.
    SpawnFailed(String),
    /// The program ran to completion. `status` is its exit status as it
    /// displays, `stdout` the raw bytes it wrote.
    Exited { success: bool, status: String, stdout: Vec<u8> },
}

/// The value a probe produced, if it produced one.
pub open spec fn spec_observed<T>(o: ProbeOutcome<T>) -> Option<T> {
    match o {
        ProbeOutcome::Observed(v) => Some(v),
        ProbeOutcome::Unavailable(_) => None,
    }
}

/// Every field of a discovery-stage evidence record but its provenance
/// notes: the four correlation probes and `last_accessed` are not
/// attempted at discovery, and the fingerprint carries the identity and
/// the observed modification time.
pub open spec fn discovery_fields(
    e: Evidence,
    resource: ResourceId,
    detector: DetectorId,
    dev_ino: Option<(u64, u64)>,
    logical_bytes: ProbeOutcome<u64>,
    reclaimable_bytes: ProbeOutcome<u64>,
    reclaimable_is_lower_bound: bool,
    last_modified: ProbeOutcome<Timestamp>,
    regenerability: Regenerability,
    recoverability: Recoverability,
    native_cleanup: NativeCleanup,
    collected_at: Timestamp,
) -> bool {
    &&& e.resource == resource
    &&& e.fingerprint.dev_ino == dev_ino
    &&& e.fingerprint.mtime == spec_observed(last_modified)
    &&& e.fingerprint.tool_revision is None
    &&& e.detector == detector
    &&& e.logical_bytes == logical_bytes
    &&& e.physical_bytes is None
    &&& e.reclaimable_bytes == reclaimable_bytes
    &&& e.reclaimable_bytes_is_lower_bound == reclaimable_is_lower_bound
    &&& e.last_modified == last_modified
    &&& e.last_accessed == ProbeOutcome::<Timestamp>::Unavailable(ProbeReason::NotAttempted)
    &&& e.regenerability == regenerability
    &&& e.recoverability == recoverability
    &&& e.native_cleanup == native_cleanup
    &&& e.open_by_process == ProbeOutcome::<Vec<ProcessRef>>::Unavailable(ProbeReason::NotAttempted)
    &&& e.process_cwd_match == ProbeOutcome::<Vec<ProcessRef>>::Unavailable(
        ProbeReason::NotAttempted,
    )
    &&& e.git_state == ProbeOutcome::<Option<GitState>>::Unavailable(ProbeReason::NotAttempted)
    &&& e.tool_liveness == ProbeOutcome::<bool>::Unavailable(ProbeReason::NotAttempted)
    &&& e.collected_at == collected_at
}

/// A discovery-stage evidence record: the given observations, nothing
/// correlated yet, no provenance notes.
pub fn discovery_evidence(
    resource: ResourceId,
    detector: DetectorId,
    dev_ino: Option<(u64, u64)>,
    logical_bytes: ProbeOutcome<u64>,
    reclaimable_bytes: ProbeOutcome<u64>,
    reclaimable_is_lower_bound: bool,
    last_modified: ProbeOutcome<Timestamp>,
    regenerability: Regenerability,
    recoverability: Recoverability,
    native_cleanup: NativeCleanup,
    collected_at: Timestamp,
) -> (e: Evidence)
    ensures
        discovery_fields(
            e,
            resource,
            detector,
            dev_ino,
            logical_bytes,
            reclaimable_bytes,
            reclaimable_is_lower_bound,
            last_modified,
            regenerability,
            recoverability,
            native_cleanup,
            collected_at,
        ),
        e.sources@.len() == 0,
{
    let mtime = match &last_modified {
        ProbeOutcome::Observed(t) => Some(*t),
        ProbeOutcome::Unavailable(_) => None,
    };
    Evidence {
        resource,
        fingerprint: ResourceFingerprint { dev_ino, mtime, tool_revision: None },
        detector,
        logical_bytes,
        physical_bytes: None,
        reclaimable_bytes,
        reclaimable_bytes_is_lower_bound: reclaimable_is_lower_bound,
        last_modified,
        last_accessed: ProbeOutcome::Unavailable(ProbeReason::NotAttempted),
        regenerability,
        recoverability,
        native_cleanup,
        open_by_process: ProbeOutcome::Unavailable(ProbeReason::NotAttempted),
        process_cwd_match: ProbeOutcome::Unavailable(ProbeReason::NotAttempted),
        git_state: ProbeOutcome::Unavailable(ProbeReason::NotAttempted),
        tool_liveness: ProbeOutcome::Unavailable(ProbeReason::NotAttempted),
        collected_at,
        sources: Vec::new(),
    }
}

/// The provenance notes a probed directory contributes.
pub open spec fn note_sources(note: Option<String>) -> Seq<String> {
    match note {
        Some(n) => seq![n],
        None => Seq::empty(),
    }
}

/// The evidence for one existing directory: located by its canonical path,
/// with `reclaimable_bytes` equal to `logical_bytes` (the directory is
/// fully owned, regenerable output), and the size walk's note, if any, as
/// its one provenance note.
pub open spec fn is_dir_evidence(
    e: Evidence,
    kind: ResourceKind,
    detector: DetectorId,
    root: Option<String>,
    d: ProbedDir,
    regenerability: Regenerability,
    recoverability: Recoverability,
    collected_at: Timestamp,
) -> bool {
    &&& discovery_fields(
        e,
        ResourceId { kind, locator: ResourceLocator::Path(d.canonical), source_project_root: root },
        detector,
        d.dev_ino,
        d.logical_bytes,
        d.logical_bytes,
        d.bytes_is_lower_bound,
        d.last_modified,
        regenerability,
        recoverability,
        NativeCleanup::Unsupported,
        collected_at,
    )
    &&& e.sources@ == note_sources(d.lower_bound_note)
}

/// An exact copy of a size outcome.
pub fn copy_bytes(o: &ProbeOutcome<u64>) -> (r: ProbeOutcome<u64>)
    ensures
        r == *o,
{
    match o {
        ProbeOutcome::Observed(v) => ProbeOutcome::Observed(*v),
        ProbeOutcome::Unavailable(reason) => ProbeOutcome::Unavailable(*reason),
    }
}

fn copy_time(o: &ProbeOutcome<Timestamp>) -> (r: ProbeOutcome<Timestamp>)
    ensures
        r == *o,
{
    match o {
        ProbeOutcome::Observed(v) => ProbeOutcome::Observed(*v),
        ProbeOutcome::Unavailable(reason) => ProbeOutcome::Unavailable(*reason),
    }
}

fn copy_probed_dir(d: &ProbedDir) -> (r: ProbedDir)
    ensures
        r == *d,
{
    let note = match &d.lower_bound_note {
        Some(n) => Some(n.clone()),
        None => None,
    };
    ProbedDir {
        canonical: d.canonical.clone(),
        dev_ino: d.dev_ino,
        logical_bytes: copy_bytes(&d.logical_bytes),
        bytes_is_lower_bound: d.bytes_is_lower_bound,
        lower_bound_note: note,
        last_modified: copy_time(&d.last_modified),
    }
}

/// The evidence for one existing directory (see [`is_dir_evidence`]).
pub fn dir_evidence(
    kind: ResourceKind,
    detector: DetectorId,
    root: Option<String>,
    d: ProbedDir,
    regenerability: Regenerability,
    recoverability: Recoverability,
    collected_at: Timestamp,
) -> (e: Evidence)
    ensures
        is_dir_evidence(e, kind, detector, root, d, regenerability, recoverability, collected_at),
{
    let ghost d0 = d;
    let resource = ResourceId { kind, locator: ResourceLocator::Path(d.canonical), source_project_root: root };
    let reclaimable = copy_bytes(&d.logical_bytes);
    let mut e = discovery_evidence(
        resource,
        detector,
        d.dev_ino,
        d.logical_bytes,
        reclaimable,
        d.bytes_is_lower_bound,
        d.last_modified,
        regenerability,
        recoverability,
        NativeCleanup::Unsupported,
        collected_at,
    );
    match d.lower_bound_note {
        Some(n) => {
            e.push_source(n);
        },
        None => {},
    }
    assert(e.sources@ =~= note_sources(d0.lower_bound_note));
    e
}

/// The positions, among the first `n` probes, of those that found an
/// existing directory, in order.
pub open spec fn present_positions(probes: Seq<DirProbe>, n: int) -> Seq<int>
    decreases n,
{
    if n <= 0 {
        Seq::empty()
    } else if probes[n - 1] is Present {
        present_positions(probes, n - 1).push(n - 1)
    } else {
        present_positions(probes, n - 1)
    }
}

/// Whether some probe was refused access.
pub open spec fn any_permission_denied(probes: Seq<DirProbe>) -> bool {
    exists|i: int| 0 <= i < probes.len() && #[trigger] probes[i] is PermissionDenied
}

/// The message a project-root detector fails with when nothing was found
/// and some root could not be probed.
pub const PERMISSION_DENIED_ROOTS: &'static str = "permission denied probing one or more known project roots";

/// The status a project-root detector (one candidate directory under each
/// known project root) reports for `probes`, one per root: evidence for
/// each existing directory, in root order; with none, `Failed` when some
/// probe was refused access and `ToolAbsent` otherwise. `keep_root` says
/// whether the evidence records the root it was found under.
pub open spec fn project_dirs_status(
    r: DetectorStatus,
    kind: ResourceKind,
    detector: DetectorId,
    keep_root: bool,
    roots: Seq<String>,
    probes: Seq<DirProbe>,
    collected_at: Timestamp,
) -> bool {
    let pos = present_positions(probes, probes.len() as int);
    if pos.len() == 0 {
        if any_permission_denied(probes) {
            r matches DetectorStatus::Failed(m) && m@ == PERMISSION_DENIED_ROOTS@
        } else {
            r is ToolAbsent
        }
    } else {
        r matches DetectorStatus::Found(ev) && ev@.len() == pos.len() && forall|k: int|
            0 <= k < pos.len() ==> match #[trigger] probes[pos[k]] {
                DirProbe::Present(d) => is_dir_evidence(
                    ev@[k],
                    kind,
                    detector,
                    if keep_root {
                        Some(roots[pos[k]])
                    } else {
                        None
                    },
                    d,
                    Regenerability::RegenerableByRebuild,
                    Recoverability::RegenerableByRebuild,
                    collected_at,
                ),
                _ => false,
            }
    }
}

proof fn lemma_present_positions_bounded(probes: Seq<DirProbe>, n: int)
    requires
        0 <= n <= probes.len(),
    ensures
        present_positions(probes, n).len() <= n,
        forall|k: int|
            0 <= k < present_positions(probes, n).len() ==> 0 <= #[trigger] present_positions(
                probes,
                n,
            )[k] < n && probes[present_positions(probes, n)[k]] is Present,
    decreases n,
{
    if n > 0 {
        lemma_present_positions_bounded(probes, n - 1);
    }
}

/// The status of a project-root detector (see [`project_dirs_status`]).
pub fn conclude_project_dirs(
    kind: ResourceKind,
    detector: DetectorId,
    keep_root: bool,
    roots: &Vec<String>,
    probes: &Vec<DirProbe>,
    collected_at: Timestamp,
) -> (r: DetectorStatus)
    requires
        probes@.len() == roots@.len(),
    ensures
        project_dirs_status(r, kind, detector, keep_root, roots@, probes@, collected_at),
{
    let mut evidence: Vec<Evidence> = Vec::new();
    let mut saw_permission_error = false;
    let mut i: usize = 0;
    while i < probes.len()
        invariant
            probes@.len() == roots@.len(),
            0 <= i <= probes@.len(),
            evidence@.len() == present_positions(probes@, i as int).len(),
            forall|k: int|
                0 <= k < evidence@.len() ==> match #[trigger] probes@[present_positions(probes@, i as int)[k]] {
                    DirProbe::Present(d) => is_dir_evidence(
                        evidence@[k],
                        kind,
                        detector,
                        if keep_root {
                            Some(roots@[present_positions(probes@, i as int)[k]])
                        } else {
                            None
                        },
                        d,
                        Regenerability::RegenerableByRebuild,
                        Recoverability::RegenerableByRebuild,
                        collected_at,
                    ),
                    _ => false,
                },
            saw_permission_error == exists|j: int| 0 <= j < i && #[trigger] probes@[j] is PermissionDenied,
        decreases probes@.len() - i,
    {
        let ghost before = evidence@;
        proof {
            lemma_present_positions_bounded(probes@, i as int);
        }
        match &probes[i] {
            DirProbe::Present(d) => {
                let root = if keep_root {
                    Some(roots[i].clone())
                } else {
                    None
                };
                let e = dir_evidence(
                    kind,
                    detector,
                    root,
                    copy_probed_dir(d),
                    Regenerability::RegenerableByRebuild,
                    Recoverability::RegenerableByRebuild,
                    collected_at,
                );
                evidence.push(e);
            },
            DirProbe::PermissionDenied(_) => {
                saw_permission_error = true;
            },
            _ => {},
        }
        proof {
            let pos = present_positions(probes@, i as int);
            let pos1 = present_positions(probes@, i + 1);
            assert forall|k: int| 0 <= k < evidence@.len() implies match #[trigger] probes@[pos1[k]] {
                DirProbe::Present(d) => is_dir_evidence(
                    evidence@[k],
                    kind,
                    detector,
                    if keep_root {
                        Some(roots@[pos1[k]])
                    } else {
                        None
                    },
                    d,
                    Regenerability::RegenerableByRebuild,
                    Recoverability::RegenerableByRebuild,
                    collected_at,
                ),
                _ => false,
            } by {
                if k < pos.len() {
                    assert(pos1[k] == pos[k]);
                    assert(evidence@[k] == before[k]);
                    assert(probes@[pos[k]] == probes@[pos1[k]]);
                }
            }
        }
        i = i + 1;
    }
    if evidence.len() == 0 {
        if saw_permission_error {
            return DetectorStatus::Failed(crate::text::owned(PERMISSION_DENIED_ROOTS));
        }
        return DetectorStatus::ToolAbsent;
    }
    DetectorStatus::Found(evidence)
}

/// `prefix` followed by `tail`.
pub(crate) fn joined_message(prefix: &str, tail: &str) -> (r: String)
    ensures
        r@ == prefix@ + tail@,
{
    let mut out: Vec<char> = Vec::new();
    crate::text::push_str(&mut out, prefix);
    crate::text::push_str(&mut out, tail);
    crate::text::string_from_chars(out.as_slice())
}

/// `"<prefix><subject>: <err>"`.
pub(crate) fn failure_message(prefix: &str, subject: &str, err: &str) -> (r: String)
    ensures
        r@ == prefix@ + subject@ + ": "@ + err@,
{
    let mut out: Vec<char> = Vec::new();
    crate::text::push_str(&mut out, prefix);
    crate::text::push_str(&mut out, subject);
    crate::text::push_str(&mut out, ": ");
    crate::text::push_str(&mut out, err);
    assert(out@ =~= prefix@ + subject@ + ": "@ + err@);
    crate::text::string_from_chars(out.as_slice())
}


/// Discovery-stage evidence is never complete: the correlation probes
/// every kind requires are not attempted at discovery, so policy never
/// classifies it `AutoSafe` before a correlation pass has filled them in.
pub proof fn lemma_discovery_evidence_never_auto_safe(
    e: Evidence,
    resource: ResourceId,
    detector: DetectorId,
    dev_ino: Option<(u64, u64)>,
    logical_bytes: ProbeOutcome<u64>,
    reclaimable_bytes: ProbeOutcome<u64>,
    reclaimable_is_lower_bound: bool,
    last_modified: ProbeOutcome<Timestamp>,
    regenerability: Regenerability,
    recoverability: Recoverability,
    native_cleanup: NativeCleanup,
    collected_at: Timestamp,
    cfg: crate::policy::config::PolicyConfig,
    now: Timestamp,
)
    requires
        discovery_fields(
            e,
            resource,
            detector,
            dev_ino,
            logical_bytes,
            reclaimable_bytes,
            reclaimable_is_lower_bound,
            last_modified,
            regenerability,
            recoverability,
            native_cleanup,
            collected_at,
        ),
    ensures
        e.spec_missing().len() != 0,
        crate::policy::engine::spec_classify(e, cfg, now).0 != crate::policy::class::PolicyClass::AutoSafe,
{
    let required = e.resource.kind.spec_required_evidence();
    let p = |f: crate::evidence::model::EvidenceField| !e.field_observed(f);
    assert(required[3] == crate::evidence::model::EvidenceField::OpenByProcess);
    required.lemma_filter_contains(p, 3);
    assert(e.spec_missing() == required.filter(p));
    assert(e.spec_missing().contains(crate::evidence::model::EvidenceField::OpenByProcess));
}


/// One detector: a stable identity, the resource kinds it reports, and a
/// bounded discovery pass. Concrete detectors shell out to tools or read
/// directories, and live with the program around the library.
pub trait Detector {
    fn id(&self) -> DetectorId;

    fn resource_kinds(&self) -> Vec<ResourceKind>;

    fn discover(&self, ctx: &DiscoveryContext) -> DetectorStatus;
}

/// The detectors a discovery pass runs, in order.
pub struct DetectorRegistry {
    detectors: Vec<Box<dyn Detector>>,
}

impl DetectorRegistry {
    pub closed spec fn spec_len(self) -> nat {
        self.detectors@.len()
    }

    /// A registry running exactly `detectors`, in this order.
    pub fn from_detectors(detectors: Vec<Box<dyn Detector>>) -> (r: DetectorRegistry)
        ensures
            r.spec_len() == detectors@.len(),
            r.spec_detectors() == detectors@,
    {
        DetectorRegistry { detectors }
    }

    /// How many detectors are registered.
    pub fn len(&self) -> (n: usize)
        ensures
            n == self.spec_len(),
    {
        self.detectors.len()
    }

    /// The registered detectors, in order.
    pub closed spec fn spec_detectors(self) -> Seq<Box<dyn Detector>> {
        self.detectors@
    }

    /// Run every detector once, in order: one status per detector, paired
    /// with its id.
    pub fn discover_all(&self, ctx: &DiscoveryContext) -> (r: Vec<(DetectorId, DetectorStatus)>)
        ensures
            r@.len() == self.spec_len(),
            forall|i: int|
                0 <= i < r@.len() ==> #[trigger] ran_detector(&*self.spec_detectors()[i], ctx, r@[i]),
    {
        let mut out: Vec<(DetectorId, DetectorStatus)> = Vec::new();
        let mut i: usize = 0;
        while i < self.detectors.len()
            invariant
                0 <= i <= self.detectors@.len(),
                out@.len() == i,
                forall|j: int| 0 <= j < i ==> #[trigger] ran_detector(&*self.detectors@[j], ctx, out@[j]),
            decreases self.detectors@.len() - i,
        {
            let b: &Box<dyn Detector> = &self.detectors[i];
            let pair = run_boxed(b, ctx);
            let ghost before = out@;
            out.push(pair);
            proof {
                assert forall|j: int| 0 <= j < i + 1 implies #[trigger] ran_detector(
                    &*self.detectors@[j],
                    ctx,
                    out@[j],
                ) by {
                    if j < i {
                        assert(out@[j] == before[j]);
                    } else {
                        assert(out@[j] == pair);
                    }
                }
            }
            i = i + 1;
        }
        out
    }
}

/// `pair` is what one run of `d` gave: its id and the status its discovery
/// returned for `ctx`.
pub open spec fn ran_detector<D: Detector + ?Sized>(
    d: &D,
    ctx: &DiscoveryContext,
    pair: (DetectorId, DetectorStatus),
) -> bool {
    &&& call_ensures(D::id, (d,), pair.0)
    &&& call_ensures(D::discover, (d, ctx), pair.1)
}

/// Runs the detector `b` holds.
fn run_boxed<D: Detector + ?Sized>(b: &Box<D>, ctx: &DiscoveryContext) -> (pair: (DetectorId, DetectorStatus))
    ensures
        ran_detector(&**b, ctx, pair),
{
    run_detector(&**b, ctx)
}

/// Runs `d` once: its id, then its discovery for `ctx`.
fn run_detector<D: Detector + ?Sized>(d: &D, ctx: &DiscoveryContext) -> (pair: (DetectorId, DetectorStatus))
    ensures
        ran_detector(d, ctx, pair),
{
    let id_of = D::id;
    let discover_with = D::discover;
    (id_of(d), discover_with(d, ctx))
}

} // verus!
