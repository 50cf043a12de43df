//! Whether a resource is inside a git working tree, and if so whether it
//! is dirty, has untracked files, or is a linked worktree. Running `git`
//! is I/O; reading its output is decided here.

use vstd::prelude::*;

use vstd::utf8::{decode_utf8, valid_utf8};

use super::{text_of_output, unfinished_reason, utf8_lossy, ToolRun};
use crate::evidence::model::GitState;
use crate::evidence::probe::{ProbeOutcome, ProbeReason};
use crate::evidence::time::TimeSpan;
use crate::parse::{char_vec_views, lines, lines_exec, trim, trim_exec};
use crate::text::{
    chars_eq, chars_of, owned, starts_with, starts_with_exec, string_from_chars, string_from_utf8,
};

verus! {

/// The git state of the working tree holding `path`. `Observed(None)`
/// is the complete answer "not inside a git working tree".
pub trait GitProbe {
    fn state_of(&self, path: &str, timeout: TimeSpan) -> ProbeOutcome<Option<GitState>>;
}

/// A porcelain status line reporting an untracked file.
pub open spec fn is_untracked_line(l: Seq<char>) -> bool {
    starts_with(l, "??"@)
}

/// Dirty: some non-empty line that is not an untracked-file line.
/// Untracked: some untracked-file line. The two are independent.
pub open spec fn spec_porcelain(text: Seq<char>) -> (bool, bool) {
    let ls = lines(text);
    (
        exists|i: int| 0 <= i < ls.len() && !is_untracked_line(#[trigger] ls[i]) && ls[i].len() > 0,
        exists|i: int| 0 <= i < ls.len() && is_untracked_line(#[trigger] ls[i]),
    )
}

/// The dirty and untracked flags of `git status --porcelain` text.
pub fn porcelain_flags(text: &Vec<char>) -> (r: (bool, bool))
    ensures
        r == spec_porcelain(text@),
{
    let ls = lines_exec(text);
    let ghost v = char_vec_views(ls@);
    let marker = crate::text::chars_of("??");
    let mut dirty = false;
    let mut untracked = false;
    let mut i: usize = 0;
    while i < ls.len()
        invariant
            0 <= i <= ls@.len(),
            v == char_vec_views(ls@),
            v == lines(text@),
            marker@ == "??"@,
            dirty == exists|j: int| 0 <= j < i && !is_untracked_line(#[trigger] v[j]) && v[j].len() > 0,
            untracked == exists|j: int| 0 <= j < i && is_untracked_line(#[trigger] v[j]),
        decreases ls@.len() - i,
    {
        let line = &ls[i];
        assert(v[i as int] == line@);
        if starts_with_exec(line, &marker) {
            untracked = true;
        } else if line.len() > 0 {
            dirty = true;
        }
        i = i + 1;
    }
    (dirty, untracked)
}

/// `git status --porcelain` output: whether the tree is dirty (a tracked
/// change, staged or not) and whether it has untracked files.
pub fn parse_status_porcelain(stdout: &[u8]) -> (r: (bool, bool))
    ensures
        r == spec_porcelain(utf8_lossy(stdout@)),
{
    let text = text_of_output(stdout);
    porcelain_flags(&text)
}

/// The first line, or empty when there is none.
pub open spec fn line_or_empty(ls: Seq<Seq<char>>, i: int) -> Seq<char> {
    if 0 <= i < ls.len() {
        ls[i]
    } else {
        Seq::empty()
    }
}

/// A linked worktree: `--git-dir` and `--git-common-dir` are both
/// present and differ.
pub open spec fn spec_linked_worktree(text: Seq<char>) -> bool {
    let ls = lines(text);
    let git_dir = line_or_empty(ls, 0);
    let common_dir = line_or_empty(ls, 1);
    git_dir.len() > 0 && common_dir.len() > 0 && git_dir != common_dir
}

/// Whether `git rev-parse --git-dir --git-common-dir` text describes a
/// linked worktree.
pub fn linked_worktree_of(text: &Vec<char>) -> (r: bool)
    ensures
        r == spec_linked_worktree(text@),
{
    let ls = lines_exec(text);
    let ghost v = char_vec_views(ls@);
    if ls.len() < 2 {
        return false;
    }
    assert(v[0] == ls@[0]@);
    assert(v[1] == ls@[1]@);
    let git_dir = &ls[0];
    let common_dir = &ls[1];
    git_dir.len() > 0 && common_dir.len() > 0 && !chars_eq(git_dir.as_slice(), common_dir.as_slice())
}

/// Whether `git rev-parse --git-dir --git-common-dir` output describes a
/// linked worktree rather than the main checkout. Malformed output is
/// "not a linked worktree".
pub fn is_linked_worktree(stdout: &[u8]) -> (r: bool)
    ensures
        r == spec_linked_worktree(utf8_lossy(stdout@)),
{
    let text = text_of_output(stdout);
    linked_worktree_of(&text)
}


/// One `git -C <dir> <args>` invocation.
pub struct GitCommand {
    pub dir: String,
    pub args: Vec<String>,
}

/// `cmd` runs `git -C dir` with exactly `args`.
pub open spec fn is_git_command(cmd: GitCommand, dir: Seq<char>, args: Seq<Seq<char>>) -> bool {
    &&& cmd.dir@ == dir
    &&& cmd.args@.len() == args.len()
    &&& forall|i: int| 0 <= i < args.len() ==> #[trigger] cmd.args@[i]@ == args[i]
}

/// Where one git correlation pass stands: the question its last command
/// asked. The pass asks for the repository root, then the working tree's
/// status, then whether the checkout is a linked worktree.
pub enum GitSession {
    FindRoot,
    Status { repo_root: String },
    Worktree { repo_root: String, dirty: bool, untracked: bool },
}

/// What the pass does next: run one more command, or answer.
pub enum GitStep {
    Next(GitSession, GitCommand),
    Done(ProbeOutcome<Option<GitState>>),
}

fn git_command(dir: &str, args: &[&str]) -> (c: GitCommand)
    ensures
        c.dir@ == dir@,
        c.args@.len() == args@.len(),
        forall|i: int| 0 <= i < args@.len() ==> #[trigger] c.args@[i]@ == args@[i]@,
{
    let mut v: Vec<String> = Vec::new();
    let mut i: usize = 0;
    while i < args.len()
        invariant
            0 <= i <= args@.len(),
            v@.len() == i,
            forall|j: int| 0 <= j < i ==> #[trigger] v@[j]@ == args@[j]@,
        decreases args@.len() - i,
    {
        v.push(owned(args[i]));
        i = i + 1;
    }
    GitCommand { dir: owned(dir), args: v }
}

/// The first command of a pass for `path`: `rev-parse --show-toplevel`.
pub fn git_start(path: &str) -> (r: (GitSession, GitCommand))
    ensures
        r.0 is FindRoot,
        is_git_command(r.1, path@, seq!["rev-parse"@, "--show-toplevel"@]),
{
    let args: [&str; 2] = ["rev-parse", "--show-toplevel"];
    let cmd = git_command(path, &args);
    (GitSession::FindRoot, cmd)
}

/// The next step after `run`, the outcome of the command `session` asked.
/// A run that did not complete leaves the probe unanswered (absent tool,
/// timeout, failure). Finding the root: a failing command means "not in a
/// git working tree"; output that is not UTF-8 fails the probe; otherwise
/// the trimmed output is the root, whose status is asked next. Status and
/// worktree questions fail the probe when their command fails; their
/// answers are read from the output, and the last completes the state.
pub open spec fn spec_git_advance(session: GitSession, run: ToolRun, r: GitStep) -> bool {
    match run {
        ToolRun::Completed { success, stdout, .. } => match session {
            GitSession::FindRoot => if !success {
                r matches GitStep::Done(o) && o == ProbeOutcome::<Option<GitState>>::Observed(None)
            } else if !valid_utf8(stdout@) {
                r matches GitStep::Done(o) && o == ProbeOutcome::<Option<GitState>>::Unavailable(
                    ProbeReason::Failed,
                )
            } else {
                r matches GitStep::Next(GitSession::Status { repo_root }, cmd) && repo_root@ == trim(
                    decode_utf8(stdout@),
                ) && is_git_command(cmd, repo_root@, seq!["status"@, "--porcelain"@])
            },
            GitSession::Status { repo_root } => if !success {
                r matches GitStep::Done(o) && o == ProbeOutcome::<Option<GitState>>::Unavailable(
                    ProbeReason::Failed,
                )
            } else {
                let flags = spec_porcelain(utf8_lossy(stdout@));
                r matches GitStep::Next(GitSession::Worktree { repo_root: root, dirty, untracked }, cmd)
                    && root == repo_root && dirty == flags.0 && untracked == flags.1 && is_git_command(
                    cmd,
                    repo_root@,
                    seq!["rev-parse"@, "--git-dir"@, "--git-common-dir"@],
                )
            },
            GitSession::Worktree { repo_root, dirty, untracked } => if !success {
                r matches GitStep::Done(o) && o == ProbeOutcome::<Option<GitState>>::Unavailable(
                    ProbeReason::Failed,
                )
            } else {
                r matches GitStep::Done(ProbeOutcome::Observed(Some(g))) && g.repo_root == repo_root
                    && g.dirty == dirty && g.untracked == untracked && g.worktree
                    == spec_linked_worktree(utf8_lossy(stdout@))
            },
        },
        _ => r matches GitStep::Done(o) && o == ProbeOutcome::<Option<GitState>>::Unavailable(
            unfinished_reason(run).unwrap(),
        ),
    }
}

/// Advance a pass by the outcome of its last command.
pub fn git_advance(session: GitSession, run: ToolRun) -> (r: GitStep)
    ensures
        spec_git_advance(session, run, r),
{
    let (success, stdout) = match run {
        ToolRun::NotFound => return GitStep::Done(ProbeOutcome::Unavailable(ProbeReason::ToolAbsent)),
        ToolRun::TimedOut => return GitStep::Done(ProbeOutcome::Unavailable(ProbeReason::TimedOut)),
        ToolRun::SpawnFailed => return GitStep::Done(ProbeOutcome::Unavailable(ProbeReason::Failed)),
        ToolRun::Completed { success, stdout, .. } => (success, stdout),
    };
    match session {
        GitSession::FindRoot => {
            if !success {
                return GitStep::Done(ProbeOutcome::Observed(None));
            }
            let text = match string_from_utf8(stdout) {
                Some(t) => t,
                None => return GitStep::Done(ProbeOutcome::Unavailable(ProbeReason::Failed)),
            };
            let chars = chars_of(text.as_str());
            let root_chars = trim_exec(&chars);
            let repo_root = string_from_chars(root_chars.as_slice());
            let args: [&str; 2] = ["status", "--porcelain"];
            let cmd = git_command(repo_root.as_str(), &args);
            GitStep::Next(GitSession::Status { repo_root }, cmd)
        },
        GitSession::Status { repo_root } => {
            if !success {
                return GitStep::Done(ProbeOutcome::Unavailable(ProbeReason::Failed));
            }
            let (dirty, untracked) = parse_status_porcelain(stdout.as_slice());
            let args: [&str; 3] = ["rev-parse", "--git-dir", "--git-common-dir"];
            let cmd = git_command(repo_root.as_str(), &args);
            GitStep::Next(GitSession::Worktree { repo_root, dirty, untracked }, cmd)
        },
        GitSession::Worktree { repo_root, dirty, untracked } => {
            if !success {
                return GitStep::Done(ProbeOutcome::Unavailable(ProbeReason::Failed));
            }
            let worktree = is_linked_worktree(stdout.as_slice());
            GitStep::Done(ProbeOutcome::Observed(Some(GitState { repo_root, dirty, untracked, worktree })))
        },
    }
}

} // verus!
