//! The clocks of the host, read through `chrono`.

use vstd::prelude::*;
use crate::instant::{Reading, Timestamp};

verus! {

/// The current time in UTC, as `chrono::Utc::now` gives it, read off with
/// `DateTime::timestamp` and `DateTime::timestamp_subsec_nanos` as the
/// seconds since the Unix epoch and the nanoseconds into the current second.
///
/// Trusted: the result is in range. `chrono` builds this time from a count of
/// seconds and a number of nanoseconds below one second, and its calendar
/// ends well within [`crate::instant::MAX_SECONDS`] of the epoch. Nothing is
/// claimed of the time itself.
#[verifier::external_body]
pub(crate) fn utc_now() -> (t: Timestamp)
    ensures
        t.wf(),
{
    let now = chrono::Utc::now();
    Timestamp { secs: now.timestamp(), nanos: now.timestamp_subsec_nanos() }
}

/// The current local wall-clock time, as `chrono::Local::now` gives it and
/// `DateTime::naive_local` strips it of its zone, read off as the seconds
/// that this clock has counted since its own midnight of 1 January 1970, and
/// the nanoseconds into the current second.
///
/// Trusted: the result is in range, for the reasons given for [`utc_now`];
/// the shift to local time moves whole seconds only, by less than a day.
/// Nothing is claimed of the time itself.
#[verifier::external_body]
pub(crate) fn local_now() -> (t: Timestamp)
    ensures
        t.wf(),
{
    let now = chrono::Local::now().naive_local().and_utc();
    Timestamp { secs: now.timestamp(), nanos: now.timestamp_subsec_nanos() }
}

impl Reading {
    /// Reads both clocks, UTC first.
    pub fn now() -> (r: Reading)
        ensures
            r.wf(),
    {
        let utc = utc_now();
        let local = local_now();
        Reading { utc, local }
    }
}

} // verus!
