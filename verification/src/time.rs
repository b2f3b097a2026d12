//! Points in time as plain values, and the clock.
use vstd::prelude::*;

verus! {

/// A UTC instant: whole seconds since the Unix epoch and the nanoseconds
/// past that second (above 999,999,999 only during a leap second).
#[derive(Debug, Clone, Copy, PartialEq, Eq, Hash, Structural)]
pub struct Timestamp {
    pub secs: i64,
    pub nanos: u32,
}

impl Timestamp {
    /// The nanosecond part stays below two seconds' worth, as chrono keeps it.
    pub open spec fn valid(self) -> bool {
        self.nanos < 2_000_000_000
    }
}

/// Reads the system clock through `chrono::Utc::now`.
/// The contract claims of it only what its source shows of every reading:
/// the instant is not before the epoch and carries no leap nanoseconds.
#[verifier::external_body]
pub fn now() -> (r: Timestamp)
    ensures
        r.secs >= 0,
        r.nanos < 1_000_000_000,
{
    let t = chrono::Utc::now();
    Timestamp { secs: t.timestamp(), nanos: t.timestamp_subsec_nanos() }
}

} // verus!
