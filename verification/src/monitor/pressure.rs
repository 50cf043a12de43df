//! Pressure states, ordered from least to most urgent.

use vstd::prelude::*;

verus! {

/// Disk-pressure classification, ordered from least to most urgent.
#[derive(Debug, Clone, Copy, PartialEq, Eq, PartialOrd, Ord, Hash, Structural)]
pub enum PressureState {
    Healthy,
    Warn,
    Pressured,
    Critical,
    Emergency,
}

impl PressureState {
    /// Position in ascending urgency.
    pub open spec fn urgency(self) -> int {
        match self {
            PressureState::Healthy => 0,
            PressureState::Warn => 1,
            PressureState::Pressured => 2,
            PressureState::Critical => 3,
            PressureState::Emergency => 4,
        }
    }

    pub open spec fn spec_all() -> Seq<PressureState> {
        seq![
            PressureState::Healthy,
            PressureState::Warn,
            PressureState::Pressured,
            PressureState::Critical,
            PressureState::Emergency,
        ]
    }

    /// All states in ascending urgency.
    pub fn all() -> (v: Vec<PressureState>)
        ensures
            v@ == Self::spec_all(),
    {
        let v = vec![
            PressureState::Healthy,
            PressureState::Warn,
            PressureState::Pressured,
            PressureState::Critical,
            PressureState::Emergency,
        ];
        assert(v@ =~= Self::spec_all());
        v
    }

    /// The state a set of threshold crossings puts the disk in: the most
    /// urgent level whose threshold is crossed, `Healthy` when none is.
    /// Whether each threshold is crossed (by used percentage or by free
    /// bytes) is measured outside the library.
    pub open spec fn spec_from_crossings(emergency: bool, critical: bool, pressured: bool, warn: bool) -> PressureState {
        if emergency {
            PressureState::Emergency
        } else if critical {
            PressureState::Critical
        } else if pressured {
            PressureState::Pressured
        } else if warn {
            PressureState::Warn
        } else {
            PressureState::Healthy
        }
    }

    pub fn from_crossings(emergency: bool, critical: bool, pressured: bool, warn: bool) -> (s: PressureState)
        ensures
            s == Self::spec_from_crossings(emergency, critical, pressured, warn),
    {
        if emergency {
            PressureState::Emergency
        } else if critical {
            PressureState::Critical
        } else if pressured {
            PressureState::Pressured
        } else if warn {
            PressureState::Warn
        } else {
            PressureState::Healthy
        }
    }

    pub open spec fn spec_as_str(self) -> Seq<char> {
        match self {
            PressureState::Healthy => "HEALTHY"@,
            PressureState::Warn => "WARN"@,
            PressureState::Pressured => "PRESSURED"@,
            PressureState::Critical => "CRITICAL"@,
            PressureState::Emergency => "EMERGENCY"@,
        }
    }

    /// Short, stable name used in logs, persistence and notifications.
    pub fn as_str(&self) -> (s: &'static str)
        ensures
            s@ == self.spec_as_str(),
    {
        match self {
            PressureState::Healthy => "HEALTHY",
            PressureState::Warn => "WARN",
            PressureState::Pressured => "PRESSURED",
            PressureState::Critical => "CRITICAL",
            PressureState::Emergency => "EMERGENCY",
        }
    }
}

} // verus!
