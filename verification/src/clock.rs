//! The wall clock, and points in time as plain values.
use vstd::prelude::*;

verus! {

/// A point in UTC time: whole seconds since the Unix epoch, and the
/// nanoseconds past that second.
#[derive(Debug, Clone, Copy, PartialEq, Eq, Structural)]
pub struct Timestamp {
    pub secs: i64,
    pub nanos: u32,
}

/// `a` is strictly earlier than `b`.
pub open spec fn before(a: Timestamp, b: Timestamp) -> bool {
    a.secs < b.secs || (a.secs == b.secs && a.nanos < b.nanos)
}

impl Timestamp {
    /// Whether `self` is strictly earlier than `other`.
    pub fn is_before(&self, other: &Timestamp) -> (r: bool)
        ensures
            r == before(*self, *other),
    {
        self.secs < other.secs || (self.secs == other.secs && self.nanos < other.nanos)
    }
}

/// Calls `chrono::Utc::now().timestamp()`: the current Unix time in seconds.
/// The result depends on the time of the call, so nothing is stated of it.
#[verifier::external_body]
pub fn unix_now_secs() -> (r: i64) {
    chrono::Utc::now().timestamp()
}

/// Calls `chrono::Utc::now()` and splits the instant into its Unix seconds
/// (`timestamp`) and the nanoseconds past them (`timestamp_subsec_nanos`).
/// The result depends on the time of the call, so nothing is stated of it.
#[verifier::external_body]
pub fn now_timestamp() -> (r: Timestamp) {
    let now = chrono::Utc::now();
    Timestamp { secs: now.timestamp(), nanos: now.timestamp_subsec_nanos() }
}

} // verus!
