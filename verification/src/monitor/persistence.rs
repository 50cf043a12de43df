//! Best-effort persistence vocabulary: where pressure history goes, the
//! audit record of one real execution and who caused it, and the bounded
//! "last N entries" rule that every tail reader follows. The file I/O and
//! the line formats live outside the library.

use vstd::prelude::*;
use std::collections::VecDeque;

verus! {

/// Appends one line per pressure event to a plain text file at `path`.
pub struct FilePersistence {
    path: String,
}

impl FilePersistence {
    pub closed spec fn spec_path(self) -> Seq<char> {
        self.path@
    }

    pub fn new(path: String) -> (p: FilePersistence)
        ensures
            p.spec_path() == path@,
    {
        FilePersistence { path }
    }

    pub fn path(&self) -> (p: &str)
        ensures
            p@ == self.spec_path(),
    {
        self.path.as_str()
    }
}

/// Seconds and nanoseconds since the Unix epoch as the system clock reads
/// them now: `Ok` for an instant at or after the epoch, `Err` with the
/// distance before it otherwise.
#[verifier::external_body]
fn system_time_since_epoch() -> (r: Result<(u64, u32), (u64, u32)>) {
    match std::time::SystemTime::now().duration_since(std::time::UNIX_EPOCH) {
        Ok(d) => Ok((d.as_secs(), d.subsec_nanos())),
        Err(e) => Err((e.duration().as_secs(), e.duration().subsec_nanos())),
    }
}

/// Whole seconds since the Unix epoch of a clock reading (seconds and
/// nanoseconds, `Err` for a reading before the epoch): the whole seconds,
/// or 0 before the epoch.
pub fn secs_since_epoch(reading: Result<(u64, u32), (u64, u32)>) -> (secs: u64)
    ensures
        secs == match reading {
            Ok((s, _)) => s,
            Err(_) => 0,
        },
{
    match reading {
        Ok((s, _)) => s,
        Err(_) => 0,
    }
}

/// Current Unix time in whole seconds, or 0 if the system clock reads a
/// time before the epoch (never expected, never worth a panic). The
/// reading is whatever the system clock says now, so nothing is claimed
/// of the value; what is made of the reading is [`secs_since_epoch`].
pub fn unix_now_secs() -> (secs: u64) {
    secs_since_epoch(system_time_since_epoch())
}

/// One recorded real-execution attempt.
#[derive(Debug, Clone, PartialEq)]
pub struct AuditRecord {
    pub timestamp: u64,
    pub action_id: String,
    pub resource_id: String,
    /// The policy label at the moment the action was authorized.
    pub policy_label: String,
    /// `"succeeded"`, `"failed"` or `"aborted_by_revalidation"`; never a
    /// dry run.
    pub outcome: String,
    /// Set only for an aborted attempt.
    pub abort_reason: Option<String>,
    pub actual_reclaimed_bytes: Option<u64>,
    /// Which execution path produced the record (see [`ActionSource`]).
    pub source: String,
    /// 1-based rank in a model's plan, or `None` when no model named the
    /// resource.
    pub model_rank: Option<u32>,
}

/// The single producer of every [`AuditRecord::source`] value.
#[derive(Debug, Clone, Copy, PartialEq, Eq, Structural)]
pub enum ActionSource {
    Execute,
    Free,
    Emergency,
    AutopilotAutoSafe,
    AutopilotPreauthorizedAsk,
}

impl ActionSource {
    pub open spec fn spec_as_str(self) -> Seq<char> {
        match self {
            ActionSource::Execute => "execute"@,
            ActionSource::Free => "free"@,
            ActionSource::Emergency => "emergency"@,
            ActionSource::AutopilotAutoSafe => "autopilot_auto_safe"@,
            ActionSource::AutopilotPreauthorizedAsk => "autopilot_preauthorized_ask"@,
        }
    }

    pub fn as_str(&self) -> (s: &'static str)
        ensures
            s@ == self.spec_as_str(),
    {
        match self {
            ActionSource::Execute => "execute",
            ActionSource::Free => "free",
            ActionSource::Emergency => "emergency",
            ActionSource::AutopilotAutoSafe => "autopilot_auto_safe",
            ActionSource::AutopilotPreauthorizedAsk => "autopilot_preauthorized_ask",
        }
    }
}

/// The last `n` elements of `s` (all of them when there are fewer).
pub open spec fn last_n<T>(s: Seq<T>, n: nat) -> Seq<T> {
    if s.len() <= n {
        s
    } else {
        s.subrange(s.len() - n, s.len() as int)
    }
}

/// Keeps only the most recent `limit` entries pushed into it, oldest
/// first, without ever holding more than `limit`.
pub struct TailBuffer<T> {
    limit: usize,
    items: VecDeque<T>,
}

impl<T> TailBuffer<T> {
    #[verifier::type_invariant]
    closed spec fn inv(self) -> bool {
        self.items@.len() <= self.limit
    }

    pub closed spec fn spec_items(self) -> Seq<T> {
        self.items@
    }

    pub closed spec fn spec_limit(self) -> nat {
        self.limit as nat
    }

    pub fn new(limit: usize) -> (b: TailBuffer<T>)
        ensures
            b.spec_items().len() == 0,
            b.spec_limit() == limit,
    {
        TailBuffer { limit, items: VecDeque::new() }
    }

    /// Record one more entry; the oldest is dropped once `limit` are held,
    /// and nothing is kept when `limit` is zero.
    pub fn push(&mut self, item: T)
        ensures
            final(self).spec_limit() == old(self).spec_limit(),
            final(self).spec_items() == last_n(
                old(self).spec_items().push(item),
                old(self).spec_limit(),
            ),
    {
        proof {
            use_type_invariant(&*self);
        }
        if self.limit == 0 {
            return;
        }
        let mut taken = TailBuffer { limit: self.limit, items: VecDeque::new() };
        std::mem::swap(&mut taken, self);
        proof {
            use_type_invariant(&taken);
        }
        let TailBuffer { limit, mut items } = taken;
        let ghost before = items@;
        if items.len() == limit {
            let _oldest = items.pop_front();
        }
        items.push_back(item);
        assert(items@ =~= last_n(before.push(item), limit as nat));
        *self = TailBuffer { limit, items };
    }

    /// The entries held, oldest first.
    pub fn into_vec(self) -> (v: Vec<T>)
        ensures
            v@ == self.spec_items(),
    {
        let TailBuffer { limit: _, mut items } = self;
        let ghost all = items@;
        let mut out: Vec<T> = Vec::new();
        while items.len() > 0
            invariant
                out@ + items@ == all,
            decreases items@.len(),
        {
            let ghost rest = items@;
            match items.pop_front() {
                Some(x) => {
                    out.push(x);
                    assert(out@ + items@ =~= all) by {
                        assert(rest =~= seq![x] + items@);
                    }
                },
                None => {},
            }
        }
        assert(out@ =~= all);
        out
    }
}

/// Pushing into a tail buffer is the same as taking the tail of the whole
/// history: the last `n` of (the last `n` of `s`) then `x` are the last
/// `n` of `s` then `x`.
pub proof fn lemma_tail_of_tail<T>(s: Seq<T>, x: T, n: nat)
    ensures
        last_n(last_n(s, n).push(x), n) == last_n(s.push(x), n),
{
    assert(last_n(last_n(s, n).push(x), n) =~= last_n(s.push(x), n));
}

/// Every entry pushed in order: the buffer then holds exactly the last
/// `limit` of them.
pub open spec fn pushed_all<T>(start: Seq<T>, s: Seq<T>, n: nat) -> Seq<T>
    decreases s.len(),
{
    if s.len() == 0 {
        start
    } else {
        last_n(pushed_all(start, s.drop_last(), n).push(s.last()), n)
    }
}

/// A buffer fed a whole history from empty holds its last `n` entries.
pub proof fn lemma_tail_buffer_keeps_last_n<T>(s: Seq<T>, n: nat)
    ensures
        pushed_all(Seq::<T>::empty(), s, n) == last_n(s, n),
    decreases s.len(),
{
    if s.len() > 0 {
        lemma_tail_buffer_keeps_last_n(s.drop_last(), n);
        lemma_tail_of_tail(s.drop_last(), s.last(), n);
        assert(s.drop_last().push(s.last()) =~= s);
    } else {
        assert(last_n(s, n) =~= s);
    }
}

} // verus!
