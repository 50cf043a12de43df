//! The probe for processes whose working directory is inside a resource.

use vstd::prelude::*;

use crate::evidence::model::ProcessRef;
use crate::evidence::probe::ProbeOutcome;
use crate::evidence::time::TimeSpan;
use crate::text::owned;

verus! {

/// Which processes have their working directory under `path`.
pub trait ProcessCwdProbe {
    fn processes_with_cwd_under(&self, path: &str, timeout: TimeSpan) -> ProbeOutcome<Vec<ProcessRef>>;
}


/// The `lsof` arguments that list processes whose working directory is
/// under `path`: the `cwd` descriptor selector, and-ed with the path.
pub fn cwd_args(path: &str) -> (r: Vec<String>)
    ensures
        r@.len() == 7,
        r@[0]@ == "-a"@,
        r@[1]@ == "-d"@,
        r@[2]@ == "cwd"@,
        r@[3]@ == "-F"@,
        r@[4]@ == "pcn"@,
        r@[5]@ == "+D"@,
        r@[6]@ == path@,
{
    let mut v: Vec<String> = Vec::new();
    v.push(owned("-a"));
    v.push(owned("-d"));
    v.push(owned("cwd"));
    v.push(owned("-F"));
    v.push(owned("pcn"));
    v.push(owned("+D"));
    v.push(owned(path));
    v
}

} // verus!
