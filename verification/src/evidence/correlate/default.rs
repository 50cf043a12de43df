//! The collector composed of the four probes.

use vstd::prelude::*;

use super::git::GitProbe;
use super::open_files::OpenFileProbe;
use super::process::ProcessCwdProbe;
use super::tool_liveness::ToolLivenessProbe;
use super::{CorrelationResult, EvidenceCollector, ProbeBudget};
use crate::evidence::model::{ResourceId, ResourceLocator};
use crate::evidence::probe::{ProbeOutcome, ProbeReason};
use crate::evidence::time::TimeSpan;

verus! {

/// Runs the three path-based probes for a path resource and the liveness
/// probe for every resource.
pub struct DefaultEvidenceCollector<O, P, G, T> {
    pub open_files: O,
    pub process_cwd: P,
    pub git: G,
    pub tool_liveness: T,
}

impl<O, P, G, T> DefaultEvidenceCollector<O, P, G, T> {
    pub fn new(open_files: O, process_cwd: P, git: G, tool_liveness: T) -> (c: Self)
        ensures
            c.open_files == open_files,
            c.process_cwd == process_cwd,
            c.git == git,
            c.tool_liveness == tool_liveness,
    {
        DefaultEvidenceCollector { open_files, process_cwd, git, tool_liveness }
    }
}

/// `r`'s three path-based fields are what the probes of `c` returned for a
/// path with the text of `path`.
pub open spec fn path_probes_ran<O: OpenFileProbe, P: ProcessCwdProbe, G: GitProbe, T: ToolLivenessProbe>(
    c: &DefaultEvidenceCollector<O, P, G, T>,
    path: &str,
    timeout: TimeSpan,
    r: CorrelationResult,
) -> bool {
    &&& call_ensures(O::processes_with_open_files_under, (&c.open_files, path, timeout), r.open_by_process)
    &&& call_ensures(P::processes_with_cwd_under, (&c.process_cwd, path, timeout), r.process_cwd_match)
    &&& call_ensures(G::state_of, (&c.git, path, timeout), r.git_state)
}

impl<O: OpenFileProbe, P: ProcessCwdProbe, G: GitProbe, T: ToolLivenessProbe> EvidenceCollector for DefaultEvidenceCollector<
    O,
    P,
    G,
    T,
> {
    /// A path resource gets the three path-based probes run on its path; a
    /// tool-located resource has no path to probe, so those fields are
    /// `NotAttempted`. The liveness probe runs for the resource's owning
    /// tool either way.
    fn collect(&self, id: &ResourceId, budget: ProbeBudget) -> (r: CorrelationResult)
        ensures
            id.locator is Tool ==> {
                &&& r.open_by_process == ProbeOutcome::<Vec<crate::evidence::model::ProcessRef>>::Unavailable(
                    ProbeReason::NotAttempted,
                )
                &&& r.process_cwd_match == ProbeOutcome::<Vec<crate::evidence::model::ProcessRef>>::Unavailable(
                    ProbeReason::NotAttempted,
                )
                &&& r.git_state == ProbeOutcome::<Option<crate::evidence::model::GitState>>::Unavailable(
                    ProbeReason::NotAttempted,
                )
            },
            id.locator matches ResourceLocator::Path(p) ==> exists|s: &str|
                s@ == p@ && #[trigger] path_probes_ran(self, s, budget.timeout, r),
            call_ensures(
                T::is_running,
                (&self.tool_liveness, id.kind.spec_owning_tool(), budget.timeout),
                r.tool_liveness,
            ),
    {
        let open_files_under = O::processes_with_open_files_under;
        let cwd_under = P::processes_with_cwd_under;
        let git_state_of = G::state_of;
        let liveness = T::is_running;
        match &id.locator {
            ResourceLocator::Path(p) => {
                let s: &str = p.as_str();
                let open_by_process = open_files_under(&self.open_files, s, budget.timeout);
                let process_cwd_match = cwd_under(&self.process_cwd, s, budget.timeout);
                let git_state = git_state_of(&self.git, s, budget.timeout);
                let tool_liveness = liveness(&self.tool_liveness, id.kind.owning_tool(), budget.timeout);
                let r = CorrelationResult { open_by_process, process_cwd_match, git_state, tool_liveness };
                assert(path_probes_ran(self, s, budget.timeout, r));
                r
            },
            ResourceLocator::Tool { .. } => {
                let tool_liveness = liveness(&self.tool_liveness, id.kind.owning_tool(), budget.timeout);
                CorrelationResult {
                    open_by_process: ProbeOutcome::Unavailable(ProbeReason::NotAttempted),
                    process_cwd_match: ProbeOutcome::Unavailable(ProbeReason::NotAttempted),
                    git_state: ProbeOutcome::Unavailable(ProbeReason::NotAttempted),
                    tool_liveness,
                }
            },
        }
    }
}

} // verus!
