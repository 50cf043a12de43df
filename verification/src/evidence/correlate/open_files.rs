//! Which processes have files open under a resource, read from `lsof -F
//! pcn` field output (one tagged field per line).

use vstd::prelude::*;

use super::{text_of_output, unfinished_reason, utf8_lossy, ToolRun};
use crate::evidence::model::ProcessRef;
use crate::evidence::probe::{ProbeOutcome, ProbeReason};
use crate::evidence::time::TimeSpan;
use crate::parse::{char_vec_views, lines, lines_exec, parse_u64, parse_u64_exec};
use crate::text::{owned, string_from_chars};

verus! {

/// Which processes have files open under `path`.
pub trait OpenFileProbe {
    fn processes_with_open_files_under(&self, path: &str, timeout: TimeSpan) -> ProbeOutcome<
        Vec<ProcessRef>,
    >;
}

/// What `u32::from_str` accepts.
pub open spec fn parse_u32(s: Seq<char>) -> Option<u32> {
    match parse_u64(s) {
        Some(v) => if v <= u32::MAX {
            Some(v as u32)
        } else {
            None
        },
        None => None,
    }
}

/// Parsed records so far, and the record being read (its pid and
/// command, when a command line has been seen).
pub type LsofState = (Seq<(u32, Seq<char>)>, Option<(u32, Option<Seq<char>>)>);

/// The records so far with the current one (if any) closed.
pub open spec fn flush(st: LsofState) -> Seq<(u32, Seq<char>)> {
    match st.1 {
        Some((pid, c)) => st.0.push(
            (
                pid,
                match c {
                    Some(x) => x,
                    None => Seq::empty(),
                },
            ),
        ),
        None => st.0,
    }
}

/// One line of field output. A line whose first character is not a
/// one-byte (ASCII) tag is skipped; `p` closes the current record and
/// opens one for the pid when it parses; `c` names the current record's
/// command; every other tag is ignored.
pub open spec fn lsof_step(st: LsofState, line: Seq<char>) -> LsofState {
    if line.len() == 0 || (line[0] as u32) >= 128 {
        st
    } else if line[0] == 'p' {
        (
            flush(st),
            match parse_u32(line.drop_first()) {
                Some(pid) => Some((pid, None)),
                None => None,
            },
        )
    } else if line[0] == 'c' {
        (
            st.0,
            match st.1 {
                Some((pid, _)) => Some((pid, Some(line.drop_first()))),
                None => None,
            },
        )
    } else {
        st
    }
}

/// Every line in order.
pub open spec fn lsof_fold(ls: Seq<Seq<char>>, st: LsofState) -> LsofState
    decreases ls.len(),
{
    if ls.len() == 0 {
        st
    } else {
        lsof_fold(ls.drop_first(), lsof_step(st, ls[0]))
    }
}

/// The `(pid, command)` records of field-output text; a record with no
/// command line gets an empty command.
pub open spec fn spec_parse_lsof(text: Seq<char>) -> Seq<(u32, Seq<char>)> {
    flush(lsof_fold(lines(text), (Seq::empty(), None)))
}

/// The plain content of a list of process references.
pub open spec fn process_views(v: Seq<ProcessRef>) -> Seq<(u32, Seq<char>)> {
    v.map_values(|p: ProcessRef| (p.pid, p.command@))
}

fn parse_u32_exec(s: &Vec<char>) -> (r: Option<u32>)
    ensures
        r == parse_u32(s@),
{
    match parse_u64_exec(s) {
        Some(v) => if v <= 0xffff_ffff {
            Some(v as u32)
        } else {
            None
        },
        None => None,
    }
}

fn tail_chars(line: &Vec<char>) -> (r: Vec<char>)
    requires
        line@.len() > 0,
    ensures
        r@ == line@.drop_first(),
{
    let mut r: Vec<char> = Vec::new();
    let mut i: usize = 1;
    while i < line.len()
        invariant
            1 <= i <= line@.len(),
            r@ == line@.subrange(1, i as int),
        decreases line@.len() - i,
    {
        r.push(line[i]);
        i = i + 1;
        assert(r@ =~= line@.subrange(1, i as int));
    }
    assert(line@.drop_first() =~= line@.subrange(1, line@.len() as int));
    r
}

fn close_record(out: &mut Vec<ProcessRef>, current: Option<(u32, Option<Vec<char>>)>)
    ensures
        process_views(final(out)@) == flush(
            (
                process_views(old(out)@),
                match current {
                    Some((pid, c)) => Some(
                        (
                            pid,
                            match c {
                                Some(v) => Some(v@),
                                None => None,
                            },
                        ),
                    ),
                    None => None,
                },
            ),
        ),
{
    if let Some((pid, c)) = current {
        let command = match c {
            Some(v) => string_from_chars(v.as_slice()),
            None => string_from_chars(Vec::<char>::new().as_slice()),
        };
        out.push(ProcessRef { pid, command });
        assert(process_views(out@) =~= process_views(old(out)@).push(
            (
                pid,
                match c {
                    Some(v) => v@,
                    None => Seq::empty(),
                },
            ),
        ));
    }
}

/// The process records of `lsof -F pcn` text.
pub fn parse_lsof_text(text: &Vec<char>) -> (r: Vec<ProcessRef>)
    ensures
        process_views(r@) == spec_parse_lsof(text@),
{
    let ls = lines_exec(text);
    let ghost all = char_vec_views(ls@);
    let mut out: Vec<ProcessRef> = Vec::new();
    let mut current: Option<(u32, Option<Vec<char>>)> = None;
    let mut i: usize = 0;
    assert(all.skip(0) =~= all);
    assert(process_views(out@) =~= Seq::<(u32, Seq<char>)>::empty());
    while i < ls.len()
        invariant
            0 <= i <= ls@.len(),
            all == char_vec_views(ls@),
            all == lines(text@),
            lsof_fold(all, (Seq::empty(), None)) == lsof_fold(
                all.skip(i as int),
                (
                    process_views(out@),
                    match current {
                        Some((pid, c)) => Some(
                            (
                                pid,
                                match c {
                                    Some(v) => Some(v@),
                                    None => None,
                                },
                            ),
                        ),
                        None => None,
                    },
                ),
            ),
        decreases ls@.len() - i,
    {
        let line = &ls[i];
        assert(all[i as int] == line@);
        assert(all.skip(i as int).drop_first() =~= all.skip(i + 1));
        assert(all.skip(i as int)[0] == line@);
        if line.len() > 0 && (line[0] as u32) < 128 {
            if line[0] == 'p' {
                let taken = current;
                current = None;
                close_record(&mut out, taken);
                let rest = tail_chars(line);
                match parse_u32_exec(&rest) {
                    Some(pid) => {
                        current = Some((pid, None));
                    },
                    None => {},
                }
            } else if line[0] == 'c' {
                let rest = tail_chars(line);
                current = match current {
                    Some((pid, _)) => Some((pid, Some(rest))),
                    None => None,
                };
            }
        }
        i = i + 1;
    }
    close_record(&mut out, current);
    out
}

/// The process records of `lsof -F pcn` output.
pub fn parse_lsof_field_output(stdout: &[u8]) -> (r: Vec<ProcessRef>)
    ensures
        process_views(r@) == spec_parse_lsof(utf8_lossy(stdout@)),
{
    let text = text_of_output(stdout);
    parse_lsof_text(&text)
}

/// What a completed `lsof` run means. `lsof` exits non-zero when it
/// found nothing, so a non-zero exit with nothing on stderr is still an
/// observed (empty) answer; with stderr output, the probe failed.
pub fn interpret_lsof_output(success: bool, stdout: &[u8], stderr_empty: bool) -> (r: ProbeOutcome<
    Vec<ProcessRef>,
>)
    ensures
        (success || stderr_empty) ==> (r matches ProbeOutcome::Observed(ps) && process_views(ps@)
            == spec_parse_lsof(utf8_lossy(stdout@))),
        !(success || stderr_empty) ==> r == ProbeOutcome::<Vec<ProcessRef>>::Unavailable(
            ProbeReason::Failed,
        ),
{
    if success || stderr_empty {
        ProbeOutcome::Observed(parse_lsof_field_output(stdout))
    } else {
        ProbeOutcome::Unavailable(ProbeReason::Failed)
    }
}


/// The probe outcome of one `lsof -F pcn` run: unanswered when it did not
/// complete, otherwise what [`interpret_lsof_output`] makes of it.
pub fn lsof_outcome(run: ToolRun) -> (r: ProbeOutcome<Vec<ProcessRef>>)
    ensures
        match run {
            ToolRun::Completed { success, stdout, stderr } => {
                &&& (success || stderr@.len() == 0) ==> (r matches ProbeOutcome::Observed(ps)
                    && process_views(ps@) == spec_parse_lsof(utf8_lossy(stdout@)))
                &&& !(success || stderr@.len() == 0) ==> r == ProbeOutcome::<Vec<ProcessRef>>::Unavailable(
                    ProbeReason::Failed,
                )
            },
            _ => r == ProbeOutcome::<Vec<ProcessRef>>::Unavailable(unfinished_reason(run).unwrap()),
        },
{
    match run {
        ToolRun::NotFound => ProbeOutcome::Unavailable(ProbeReason::ToolAbsent),
        ToolRun::TimedOut => ProbeOutcome::Unavailable(ProbeReason::TimedOut),
        ToolRun::SpawnFailed => ProbeOutcome::Unavailable(ProbeReason::Failed),
        ToolRun::Completed { success, stdout, stderr } => interpret_lsof_output(
            success,
            stdout.as_slice(),
            stderr.len() == 0,
        ),
    }
}

/// The `lsof` arguments that list processes with files open under `path`.
pub fn open_files_args(path: &str) -> (r: Vec<String>)
    ensures
        r@.len() == 4,
        r@[0]@ == "-F"@,
        r@[1]@ == "pcn"@,
        r@[2]@ == "+D"@,
        r@[3]@ == path@,
{
    let mut v: Vec<String> = Vec::new();
    v.push(owned("-F"));
    v.push(owned("pcn"));
    v.push(owned("+D"));
    v.push(owned(path));
    v
}

} // verus!
