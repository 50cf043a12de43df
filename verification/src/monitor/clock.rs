//! The clock seam: "how long since the clock started" and "wait for a
//! while". Production uses the system clock, outside the library; tests
//! use [`FakeClock`], which records sleeps instead of blocking.

use vstd::prelude::*;

use crate::evidence::time::TimeSpan;

verus! {

/// Abstraction over elapsed time and sleeping.
pub trait Clock {
    /// Time elapsed since the clock's own starting point.
    fn now(&self) -> TimeSpan;

    fn sleep(&mut self, duration: TimeSpan);
}

/// Total nanoseconds of a list of spans.
pub open spec fn sum_nanos(s: Seq<TimeSpan>) -> int
    decreases s.len(),
{
    if s.len() == 0 {
        0
    } else {
        sum_nanos(s.drop_last()) + s.last().total_nanos()
    }
}

/// `x`, capped at the longest representable span.
pub open spec fn capped(x: int) -> int {
    if x <= TimeSpan::max_total_nanos() {
        x
    } else {
        TimeSpan::max_total_nanos()
    }
}

/// A clock for tests: time advances only by the durations passed to
/// `sleep`, which never blocks and records every request.
#[derive(Debug)]
pub struct FakeClock {
    elapsed: TimeSpan,
    sleeps: Vec<TimeSpan>,
}

impl FakeClock {
    #[verifier::type_invariant]
    closed spec fn inv(self) -> bool {
        &&& self.elapsed.wf()
        &&& self.elapsed.total_nanos() == capped(sum_nanos(self.sleeps@))
    }

    /// Every duration passed to `sleep`, in order.
    pub closed spec fn spec_sleeps(self) -> Seq<TimeSpan> {
        self.sleeps@
    }

    /// The time elapsed so far.
    pub closed spec fn spec_elapsed(self) -> TimeSpan {
        self.elapsed
    }

    pub fn new() -> (c: FakeClock)
        ensures
            c.spec_sleeps().len() == 0,
            c.spec_elapsed().total_nanos() == 0,
    {
        FakeClock { elapsed: TimeSpan::from_secs(0), sleeps: Vec::new() }
    }

    /// All durations previously passed to `sleep`, in order.
    pub fn recorded_sleeps(&self) -> (v: Vec<TimeSpan>)
        ensures
            v@ == self.spec_sleeps(),
    {
        let mut v: Vec<TimeSpan> = Vec::new();
        let mut i: usize = 0;
        while i < self.sleeps.len()
            invariant
                0 <= i <= self.sleeps@.len(),
                v@ == self.sleeps@.subrange(0, i as int),
            decreases self.sleeps@.len() - i,
        {
            v.push(self.sleeps[i]);
            i = i + 1;
        }
        assert(self.sleeps@.subrange(0, self.sleeps@.len() as int) =~= self.sleeps@);
        v
    }

    /// How many times `sleep` has been called.
    pub fn sleep_count(&self) -> (n: usize)
        ensures
            n == self.spec_sleeps().len(),
    {
        self.sleeps.len()
    }
}

impl Clone for FakeClock {
    fn clone(&self) -> (c: Self)
        ensures
            c.spec_sleeps() == self.spec_sleeps(),
            c.spec_elapsed() == self.spec_elapsed(),
    {
        proof {
            use_type_invariant(self);
        }
        FakeClock { elapsed: self.elapsed, sleeps: self.recorded_sleeps() }
    }
}

impl Default for FakeClock {
    fn default() -> (c: Self)
        ensures
            c.spec_sleeps().len() == 0,
            c.spec_elapsed().total_nanos() == 0,
    {
        FakeClock::new()
    }
}

impl Clock for FakeClock {
    /// The total of every sleep so far (capped at the longest span).
    fn now(&self) -> (t: TimeSpan)
        ensures
            t == self.spec_elapsed(),
            t.wf(),
            t.total_nanos() == capped(sum_nanos(self.spec_sleeps())),
    {
        proof {
            use_type_invariant(self);
        }
        self.elapsed
    }

    fn sleep(&mut self, duration: TimeSpan)
        ensures
            final(self).spec_sleeps() == old(self).spec_sleeps().push(duration),
            final(self).spec_elapsed().total_nanos() == capped(
                old(self).spec_elapsed().total_nanos() + duration.total_nanos(),
            ),
    {
        proof {
            use_type_invariant(&*self);
        }
        let elapsed = self.elapsed.saturating_add(&duration);
        let mut sleeps = self.recorded_sleeps();
        sleeps.push(duration);
        proof {
            let s = sleeps@;
            assert(s.drop_last() =~= old(self).sleeps@);
        }
        *self = FakeClock { elapsed, sleeps };
    }
}

} // verus!
