//! Points in time as plain values: seconds since the Unix epoch (UTC) and
//! the nanoseconds within that second.

use crate::trusted::{
    chrono_accepts_timestamp, duration_secs, duration_since_epoch, duration_subsec_nanos, system_now,
};
use vstd::prelude::*;

verus! {

/// Seconds in one day.
pub const SECONDS_PER_DAY: i64 = 86_400;

/// A UTC point in time: `secs` non-leap seconds since 1970-01-01T00:00:00Z
/// and `nanos` nanoseconds within that second.
#[derive(Clone, Copy, Debug, PartialEq, Eq, Structural)]
pub struct Timestamp {
    pub secs: i64,
    pub nanos: u32,
}

/// `a` is at or before `b` (the order of `chrono::DateTime`).
pub open spec fn ts_le(a: Timestamp, b: Timestamp) -> bool {
    a.secs < b.secs || (a.secs == b.secs && a.nanos <= b.nanos)
}

/// `t` moved forward by `days` whole days.
pub open spec fn ts_plus_days(t: Timestamp, days: nat) -> Timestamp {
    Timestamp { secs: (t.secs + days * 86_400) as i64, nanos: t.nanos }
}

/// Bound on the seconds of any time the clock reports.
pub open spec fn clock_secs_in_range(t: Timestamp) -> bool {
    0 <= t.secs < 10_000_000_000_000
}

impl Timestamp {
    /// Whether `self` is at or before `other`.
    pub fn is_at_or_before(&self, other: &Timestamp) -> (r: bool)
        ensures
            r == ts_le(*self, *other),
    {
        self.secs < other.secs || (self.secs == other.secs && self.nanos <= other.nanos)
    }

    /// `self` moved forward by `days` whole days.
    pub fn plus_days(&self, days: u32) -> (r: Timestamp)
        requires
            clock_secs_in_range(*self),
        ensures
            r == ts_plus_days(*self, days as nat),
            r.secs == self.secs + days * 86_400,
    {
        let add: i64 = (days as i64) * SECONDS_PER_DAY;
        Timestamp { secs: self.secs + add, nanos: self.nanos }
    }
}

/// A time moved forward by a positive number of days lies strictly after it.
pub proof fn lemma_plus_days_after(t: Timestamp, days: nat)
    requires
        clock_secs_in_range(t),
        0 < days <= 0xFFFF_FFFF,
    ensures
        !ts_le(ts_plus_days(t, days), t),
{
    assert(days * 86_400 <= 0xFFFF_FFFF * 86_400) by (nonlinear_arith)
        requires
            days <= 0xFFFF_FFFF,
    ;
    assert(days * 86_400 >= 86_400) by (nonlinear_arith)
        requires
            days >= 1,
    ;
}

/// The current UTC time from the system clock; `None` when the clock reads
/// before 1970 or beyond what chrono can represent.  Which instant comes back
/// is not known; one that does lies in the clock's range.
pub(crate) fn utc_now() -> (r: Option<Timestamp>)
    ensures
        r matches Some(t) ==> clock_secs_in_range(t) && t.nanos < 1_000_000_000,
{
    let now = system_now();
    let since = match duration_since_epoch(&now) {
        Some(d) => d,
        None => return None,
    };
    let secs = duration_secs(&since);
    if secs > 9_223_372_036_854_775_807u64 {
        return None;
    }
    let secs = secs as i64;
    let nanos = duration_subsec_nanos(&since);
    if chrono_accepts_timestamp(secs, nanos) {
        Some(Timestamp { secs, nanos })
    } else {
        None
    }
}

} // verus!
