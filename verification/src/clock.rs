//! Points in time, as the table stores them, and the wall clock that supplies them.

use vstd::prelude::*;

verus! {

/// A UTC instant without a time zone: whole seconds since the Unix epoch and
/// the nanoseconds into that second.
#[derive(Clone, Copy, Debug, PartialEq, Eq, Structural)]
pub struct Timestamp {
    pub secs: i64,
    pub nanos: u32,
}

impl Timestamp {
    /// `self` is strictly later than `other`: seconds decide, nanoseconds break ties.
    pub open spec fn after(self, other: Timestamp) -> bool {
        self.secs > other.secs || (self.secs == other.secs && self.nanos > other.nanos)
    }

    /// Whether `self` is strictly later than `other`.
    pub fn is_after(&self, other: &Timestamp) -> (later: bool)
        ensures
            later == self.after(*other),
    {
        self.secs > other.secs || (self.secs == other.secs && self.nanos > other.nanos)
    }
}

/// Reads the wall clock: `chrono::Utc::now()`, taken as a naive UTC date and
/// time. Nothing is proved of it. The contract claims only what chrono
/// documents of every date and time it can represent: the sub-second part
/// stays below two seconds' worth of nanoseconds (the upper half stands for a
/// leap second). Two readings need not increase. chrono panics where the
/// system clock stands before the Unix epoch.
#[verifier::external_body]
pub(crate) fn now_utc() -> (now: Timestamp)
    ensures
        now.nanos < 2_000_000_000,
{
    let naive = chrono::Utc::now().naive_utc();
    Timestamp { secs: naive.and_utc().timestamp(), nanos: naive.and_utc().timestamp_subsec_nanos() }
}

} // verus!
