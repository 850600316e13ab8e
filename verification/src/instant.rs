//! Points in time, pairs of clock readings, and the signed time between two
//! points.

use vstd::prelude::*;
use crate::units::TimeUnits;

verus! {

/// The largest distance from the epoch, in seconds, that a [`Timestamp`] can
/// lie at: somewhat over 300,000 years.
pub const MAX_SECONDS: i64 = 10_000_000_000_000;

/// The number of nanoseconds in a second.
pub const NANOS_PER_SECOND: u32 = 1_000_000_000;

/// Whether `secs` whole seconds and `nanos` nanoseconds make a timestamp.
pub open spec fn in_range(secs: i64, nanos: u32) -> bool {
    -MAX_SECONDS <= secs <= MAX_SECONDS && nanos < NANOS_PER_SECOND
}

/// `a / b` rounded toward zero, for a positive `b`.
pub open spec fn div_toward_zero(a: int, b: int) -> int {
    if a >= 0 {
        a / b
    } else {
        -((-a) / b)
    }
}

/// A point in time: whole seconds since the epoch, and the nanoseconds into
/// the second that follows them.
#[derive(Debug, Clone, Copy, PartialEq, Eq)]
pub struct Timestamp {
    pub(crate) secs: i64,
    pub(crate) nanos: u32,
}

impl View for Timestamp {
    type V = int;

    /// The nanoseconds from the epoch to this point.
    open spec fn view(&self) -> int {
        self.spec_secs() * 1_000_000_000 + self.spec_subsec_nanos()
    }
}

impl Timestamp {
    /// The whole seconds since the epoch.
    pub closed spec fn spec_secs(&self) -> i64 {
        self.secs
    }

    /// The nanoseconds since the last whole second.
    pub closed spec fn spec_subsec_nanos(&self) -> u32 {
        self.nanos
    }

    /// Every timestamp lies within [`MAX_SECONDS`] of the epoch, and its
    /// nanoseconds stay below one second.
    #[verifier::type_invariant]
    pub open spec fn wf(self) -> bool {
        in_range(self.spec_secs(), self.spec_subsec_nanos())
    }

    /// A timestamp is its seconds and its nanoseconds, and nothing besides.
    pub proof fn lemma_equal_by_parts(self, other: Timestamp)
        requires
            self.spec_secs() == other.spec_secs(),
            self.spec_subsec_nanos() == other.spec_subsec_nanos(),
        ensures
            self == other,
    {
    }

    /// The timestamp `secs` seconds and `nanos` nanoseconds after the epoch,
    /// or `None` where these are out of range.
    pub fn new(secs: i64, nanos: u32) -> (r: Option<Timestamp>)
        ensures
            r is Some <==> in_range(secs, nanos),
            r matches Some(t) ==> t.wf() && t.spec_secs() == secs && t.spec_subsec_nanos() == nanos,
    {
        if -MAX_SECONDS <= secs && secs <= MAX_SECONDS && nanos < NANOS_PER_SECOND {
            Some(Timestamp { secs, nanos })
        } else {
            None
        }
    }

    /// The whole seconds since the epoch.
    #[verifier::when_used_as_spec(spec_secs)]
    pub fn secs(&self) -> (s: i64)
        ensures
            s == self.spec_secs(),
    {
        self.secs
    }

    /// The nanoseconds since the last whole second.
    #[verifier::when_used_as_spec(spec_subsec_nanos)]
    pub fn subsec_nanos(&self) -> (n: u32)
        ensures
            n == self.spec_subsec_nanos(),
            n < NANOS_PER_SECOND,
    {
        proof {
            use_type_invariant(self);
        }
        self.nanos
    }
}

/// What the two clocks showed at one moment.
#[derive(Debug, Clone, Copy, PartialEq, Eq)]
pub struct Reading {
    /// The time in UTC, counted from the Unix epoch.
    pub utc: Timestamp,
    /// The local wall-clock time, counted from midnight of 1 January 1970 on
    /// that clock.
    pub local: Timestamp,
}

impl Reading {
    /// Both timestamps are in range.
    pub open spec fn wf(self) -> bool {
        self.utc.wf() && self.local.wf()
    }
}

/// A signed length of time, in nanoseconds.
#[derive(Debug, Clone, Copy, PartialEq, Eq)]
pub struct Span {
    pub nanos: i128,
}

impl View for Span {
    type V = int;

    /// The length in nanoseconds.
    open spec fn view(&self) -> int {
        self.nanos as int
    }
}

impl Span {
    /// The time from `start` to `end`: negative where `end` is the earlier.
    pub open spec fn spec_between(start: Timestamp, end: Timestamp) -> Span {
        Span { nanos: (end@ - start@) as i128 }
    }

    /// The number of whole `unit`s in a span of `nanos` nanoseconds, rounded
    /// toward zero, or `None` where that number does not fit an `i64`.
    pub open spec fn whole_units(nanos: int, unit: TimeUnits) -> Option<i64> {
        let q = div_toward_zero(nanos, unit.spec_nanos());
        if i64::MIN <= q <= i64::MAX {
            Some(q as i64)
        } else {
            None
        }
    }

    /// The number of whole `unit`s in the span.
    pub open spec fn spec_whole(self, unit: TimeUnits) -> Option<i64> {
        Span::whole_units(self@, unit)
    }

    /// The time from `start` to `end`: negative where `end` is the earlier.
    pub fn between(start: &Timestamp, end: &Timestamp) -> (d: Span)
        ensures
            d == Span::spec_between(*start, *end),
            d@ == end@ - start@,
    {
        let secs: i128 = end.secs as i128 - start.secs as i128;
        let nanos: i128 = end.nanos as i128 - start.nanos as i128;
        Span { nanos: secs * 1_000_000_000 + nanos }
    }

    /// The number of whole `unit`s in the span, rounded toward zero, or
    /// `None` where that number does not fit an `i64`.
    pub fn whole(&self, unit: TimeUnits) -> (r: Option<i64>)
        ensures
            r == self.spec_whole(unit),
    {
        let q: i128 = self.nanos / unit.nanos();
        if i64::MIN as i128 <= q && q <= i64::MAX as i128 {
            Some(q as i64)
        } else {
            None
        }
    }
}

} // verus!
