//! Points in time, as the engine records them.
use vstd::prelude::*;

verus! {

/// A UTC instant: whole seconds since the Unix epoch and the nanoseconds
/// past that second.
#[derive(Clone, Copy, Debug, PartialEq, Eq, Structural)]
pub struct Timestamp {
    pub secs: i64,
    pub nanos: u32,
}

impl Timestamp {
    /// The instant as a count of nanoseconds since the epoch.
    pub open spec fn total_nanos(self) -> int {
        self.secs * 1_000_000_000 + self.nanos
    }

    /// Signed nanoseconds from `earlier` to `self`.
    pub open spec fn nanos_since(self, earlier: Timestamp) -> int {
        self.total_nanos() - earlier.total_nanos()
    }

    /// Whether more than `limit_secs` whole seconds separate `earlier` from
    /// `self` (a negative gap never does).
    pub fn elapsed_exceeds(&self, earlier: &Timestamp, limit_secs: i64) -> (r: bool)
        ensures
            r == (self.nanos_since(*earlier) > limit_secs * 1_000_000_000),
            r == ((self.secs - earlier.secs) * 1_000_000_000 + (self.nanos - earlier.nanos)
                > limit_secs * 1_000_000_000),
    {
        let gap: i128 = (self.secs as i128 - earlier.secs as i128) * 1_000_000_000i128
            + (self.nanos as i128 - earlier.nanos as i128);
        gap > (limit_secs as i128) * 1_000_000_000i128
    }
}

/// The current instant, read with `chrono::Utc::now`.
///
/// Trusted: `Utc::now` builds its value from `SystemTime` with a sub-second
/// part below one second, so the nanoseconds never carry a leap second. Which
/// instant comes back depends on the machine's clock and is not stated.
#[verifier::external_body]
pub fn current_time() -> (t: Timestamp)
    ensures
        t.nanos < 1_000_000_000,
{
    let now = chrono::Utc::now();
    Timestamp { secs: now.timestamp(), nanos: now.timestamp_subsec_nanos() }
}

} // verus!
