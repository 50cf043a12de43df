//! Wall-clock instants and spans, as plain integers.
//!
//! [`Timestamp`] is an instant relative to the Unix epoch in the same
//! shape a Unix `SystemTime` holds (signed whole seconds plus a
//! nanosecond part below one second), so every instant the platform can
//! report is representable here exactly, sub-second precision included.

use vstd::prelude::*;

verus! {

/// Nanoseconds in one second.
pub const NANOS_PER_SEC: u32 = 1_000_000_000;

/// An instant: `secs` whole seconds after (or, when negative, before) the
/// Unix epoch, plus `nanos` nanoseconds. Well formed when
/// `nanos < 1_000_000_000`.
#[derive(Debug, Clone, Copy, PartialEq, Eq, Hash)]
pub struct Timestamp {
    pub secs: i64,
    pub nanos: u32,
}

/// A non-negative span of time: `secs` seconds plus `nanos` nanoseconds.
#[derive(Debug, Clone, Copy, PartialEq, Eq, Hash)]
pub struct TimeSpan {
    pub secs: u64,
    pub nanos: u32,
}

impl Timestamp {
    /// The nanosecond part is below one second.
    pub open spec fn wf(self) -> bool {
        self.nanos < NANOS_PER_SEC
    }

    /// Signed nanoseconds since the Unix epoch.
    pub open spec fn nanos_since_epoch(self) -> int {
        self.secs * 1_000_000_000 + self.nanos
    }

    /// The Unix epoch itself.
    pub fn unix_epoch() -> (t: Timestamp)
        ensures
            t.secs == 0,
            t.nanos == 0,
    {
        Timestamp { secs: 0, nanos: 0 }
    }

    /// The instant `secs` whole seconds after the epoch.
    pub fn from_unix_secs(secs: i64) -> (t: Timestamp)
        ensures
            t.secs == secs,
            t.nanos == 0,
    {
        Timestamp { secs, nanos: 0 }
    }

    /// `self - earlier` when `earlier` is not after `self`, or `None` when
    /// it is — the same answer `SystemTime::duration_since` gives.
    pub fn duration_since(&self, earlier: &Timestamp) -> (r: Option<TimeSpan>)
        requires
            self.wf(),
            earlier.wf(),
        ensures
            match r {
                Some(span) => {
                    &&& self.nanos_since_epoch() >= earlier.nanos_since_epoch()
                    &&& span.wf()
                    &&& span.total_nanos() == self.nanos_since_epoch() - earlier.nanos_since_epoch()
                },
                None => self.nanos_since_epoch() < earlier.nanos_since_epoch(),
            },
    {
        let a: i128 = (self.secs as i128) * 1_000_000_000i128 + (self.nanos as i128);
        let b: i128 = (earlier.secs as i128) * 1_000_000_000i128 + (earlier.nanos as i128);
        if a < b {
            None
        } else {
            let d: i128 = a - b;
            let secs: i128 = d / 1_000_000_000i128;
            let nanos: i128 = d % 1_000_000_000i128;
            assert(secs <= u64::MAX) by (nonlinear_arith)
                requires
                    d == a - b,
                    secs == d / 1_000_000_000i128,
                    a <= i64::MAX * 1_000_000_000 + 999_999_999,
                    b >= i64::MIN * 1_000_000_000,
            ;
            Some(TimeSpan { secs: secs as u64, nanos: nanos as u32 })
        }
    }
}

impl TimeSpan {
    /// The nanosecond part is below one second.
    pub open spec fn wf(self) -> bool {
        self.nanos < NANOS_PER_SEC
    }

    /// Total length in nanoseconds.
    pub open spec fn total_nanos(self) -> int {
        self.secs * 1_000_000_000 + self.nanos
    }

    /// A span of whole seconds.
    pub fn from_secs(secs: u64) -> (s: TimeSpan)
        ensures
            s.secs == secs,
            s.nanos == 0,
    {
        TimeSpan { secs, nanos: 0 }
    }

    /// The longest span: `u64::MAX` seconds and 999 999 999 nanoseconds.
    pub open spec fn max_total_nanos() -> int {
        u64::MAX * 1_000_000_000 + 999_999_999
    }

    /// `self + other`, saturating at the longest span; the result is
    /// normalised (nanoseconds below one second).
    pub fn saturating_add(&self, other: &TimeSpan) -> (r: TimeSpan)
        ensures
            r.wf(),
            r.total_nanos() == if self.total_nanos() + other.total_nanos() <= Self::max_total_nanos() {
                self.total_nanos() + other.total_nanos()
            } else {
                Self::max_total_nanos()
            },
    {
        let a: u128 = (self.secs as u128) * 1_000_000_000u128 + (self.nanos as u128);
        let b: u128 = (other.secs as u128) * 1_000_000_000u128 + (other.nanos as u128);
        let total: u128 = a + b;
        let max: u128 = (u64::MAX as u128) * 1_000_000_000u128 + 999_999_999u128;
        if total > max {
            return TimeSpan { secs: u64::MAX, nanos: 999_999_999 };
        }
        let secs: u128 = total / 1_000_000_000u128;
        let nanos: u128 = total % 1_000_000_000u128;
        assert(secs <= u64::MAX) by (nonlinear_arith)
            requires
                total <= max,
                max == u64::MAX * 1_000_000_000 + 999_999_999,
                secs == total / 1_000_000_000,
        ;
        TimeSpan { secs: secs as u64, nanos: nanos as u32 }
    }

    /// `self - earlier`, or `None` when `earlier` is the longer span.
    pub fn checked_sub(&self, earlier: &TimeSpan) -> (r: Option<TimeSpan>)
        requires
            self.wf(),
            earlier.wf(),
        ensures
            match r {
                Some(d) => d.wf() && earlier.total_nanos() <= self.total_nanos() && d.total_nanos()
                    == self.total_nanos() - earlier.total_nanos(),
                None => self.total_nanos() < earlier.total_nanos(),
            },
    {
        let a: u128 = (self.secs as u128) * 1_000_000_000u128 + (self.nanos as u128);
        let b: u128 = (earlier.secs as u128) * 1_000_000_000u128 + (earlier.nanos as u128);
        if a < b {
            return None;
        }
        let d: u128 = a - b;
        let secs: u128 = d / 1_000_000_000u128;
        let nanos: u128 = d % 1_000_000_000u128;
        assert(secs <= u64::MAX) by (nonlinear_arith)
            requires
                d <= a,
                a == self.secs * 1_000_000_000 + self.nanos,
                self.nanos < 1_000_000_000,
                self.secs <= u64::MAX,
                secs == d / 1_000_000_000,
        ;
        Some(TimeSpan { secs: secs as u64, nanos: nanos as u32 })
    }

    /// `self <= other` by length.
    pub fn le(&self, other: &TimeSpan) -> (r: bool)
        ensures
            r == (self.total_nanos() <= other.total_nanos()),
    {
        let a: u128 = (self.secs as u128) * 1_000_000_000u128 + (self.nanos as u128);
        let b: u128 = (other.secs as u128) * 1_000_000_000u128 + (other.nanos as u128);
        a <= b
    }
}

} // verus!
