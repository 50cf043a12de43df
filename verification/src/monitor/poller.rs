//! Polling configuration: which path to watch and how often. The loop
//! itself (stat, classify, notify, persist, sleep) runs outside the
//! library and drives the verified state machine.

use vstd::prelude::*;

use crate::evidence::time::TimeSpan;

verus! {

/// Poller configuration.
#[derive(Debug, Clone)]
pub struct PollConfig {
    pub watch_path: String,
    pub poll_interval: TimeSpan,
    /// Consecutive matching observations before a transition is confirmed.
    pub confirm_after: u32,
}

impl PollConfig {
    pub fn new(watch_path: String) -> (c: PollConfig)
        ensures
            c.watch_path == watch_path,
            c.poll_interval.secs == 60 && c.poll_interval.nanos == 0,
            c.confirm_after == 2,
    {
        PollConfig {
            watch_path,
            poll_interval: default_poll_interval(),
            confirm_after: default_confirm_after(),
        }
    }
}

/// Default cadence: one minute, one cheap `statfs` call per poll.
pub fn default_poll_interval() -> (d: TimeSpan)
    ensures
        d.secs == 60,
        d.nanos == 0,
{
    TimeSpan::from_secs(60)
}

/// Default debounce: two consecutive polls before a crossing is confirmed.
pub fn default_confirm_after() -> (n: u32)
    ensures
        n == 2,
{
    2
}

/// The polling loop's schedule: poll while the iteration budget allows,
/// and sleep after a poll only when another poll follows.
pub struct PollSchedule {
    iterations: u64,
    max_iterations: Option<u64>,
}

/// Whether a poll is due after `iterations` polls under `max_iterations`
/// (`None`: no bound).
pub open spec fn poll_due(iterations: u64, max_iterations: Option<u64>) -> bool {
    !(max_iterations matches Some(max) && iterations >= max)
}

impl PollSchedule {
    pub closed spec fn spec_iterations(self) -> u64 {
        self.iterations
    }

    pub closed spec fn spec_max_iterations(self) -> Option<u64> {
        self.max_iterations
    }

    /// A schedule with no poll made yet.
    pub fn new(max_iterations: Option<u64>) -> (s: PollSchedule)
        ensures
            s.spec_iterations() == 0,
            s.spec_max_iterations() == max_iterations,
    {
        PollSchedule { iterations: 0, max_iterations }
    }

    /// Whether to poll now.
    pub fn poll_due(&self) -> (r: bool)
        ensures
            r == poll_due(self.spec_iterations(), self.spec_max_iterations()),
    {
        match self.max_iterations {
            Some(max) => self.iterations < max,
            None => true,
        }
    }

    /// Records one finished poll and says whether to sleep before the
    /// next: exactly when another poll is due, so the loop never sleeps
    /// after its last poll. The count stops at `u64::MAX`.
    pub fn polled(&mut self) -> (sleep: bool)
        ensures
            final(self).spec_max_iterations() == old(self).spec_max_iterations(),
            old(self).spec_iterations() < u64::MAX ==> final(self).spec_iterations() == old(
                self,
            ).spec_iterations() + 1,
            old(self).spec_iterations() == u64::MAX ==> final(self).spec_iterations() == u64::MAX,
            sleep == poll_due(final(self).spec_iterations(), final(self).spec_max_iterations()),
    {
        self.iterations = self.iterations.saturating_add(1);
        self.poll_due()
    }
}

} // verus!
