//! The units in which a duration can be reported.

use vstd::prelude::*;

verus! {

/// A unit of time.
#[derive(Debug, Clone, Copy, PartialEq, Eq, Structural)]
pub enum TimeUnits {
    NanoSeconds,
    MicroSeconds,
    MilliSeconds,
    Seconds,
    Minutes,
    Hours,
    Days,
    Weeks,
}

impl TimeUnits {
    /// The length of one unit, in nanoseconds.
    pub open spec fn spec_nanos(self) -> int {
        match self {
            TimeUnits::NanoSeconds => 1,
            TimeUnits::MicroSeconds => 1_000,
            TimeUnits::MilliSeconds => 1_000_000,
            TimeUnits::Seconds => 1_000_000_000,
            TimeUnits::Minutes => 60_000_000_000,
            TimeUnits::Hours => 3_600_000_000_000,
            TimeUnits::Days => 86_400_000_000_000,
            TimeUnits::Weeks => 604_800_000_000_000,
        }
    }

    /// The unit that is meant where none is given: milliseconds.
    pub open spec fn spec_or_default(unit: Option<TimeUnits>) -> TimeUnits {
        match unit {
            Some(u) => u,
            None => TimeUnits::MilliSeconds,
        }
    }

    /// Whether the unit is a millisecond or longer.
    pub open spec fn is_coarse(self) -> bool {
        self.spec_nanos() >= 1_000_000
    }

    /// The length of one unit, in nanoseconds.
    pub fn nanos(&self) -> (n: i128)
        ensures
            n == self.spec_nanos(),
    {
        match self {
            TimeUnits::NanoSeconds => 1,
            TimeUnits::MicroSeconds => 1_000,
            TimeUnits::MilliSeconds => 1_000_000,
            TimeUnits::Seconds => 1_000_000_000,
            TimeUnits::Minutes => 60_000_000_000,
            TimeUnits::Hours => 3_600_000_000_000,
            TimeUnits::Days => 86_400_000_000_000,
            TimeUnits::Weeks => 604_800_000_000_000,
        }
    }

    /// The given unit, or milliseconds where none is given.
    pub fn or_default(unit: Option<TimeUnits>) -> (u: TimeUnits)
        ensures
            u == TimeUnits::spec_or_default(unit),
    {
        match unit {
            Some(u) => u,
            None => TimeUnits::MilliSeconds,
        }
    }
}

} // verus!
