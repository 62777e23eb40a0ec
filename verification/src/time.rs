//! Producer-assigned timestamps for staleness comparisons.

use vstd::prelude::*;

verus! {

/// A UTC instant, as whole microseconds since the Unix epoch.
///
/// The wire format carries it as an unsigned 64-bit count; instants before the
/// epoch are clamped to the epoch, which is monotonic enough for the staleness
/// comparisons the subscription cache makes.
#[derive(Clone, Copy, Debug, PartialEq, Eq, Structural)]
pub struct Timestamp {
    pub micros: u64,
}

impl Timestamp {
    /// The instant at the Unix epoch, the least possible timestamp.
    pub fn epoch() -> (r: Timestamp)
        ensures
            r.micros == 0,
    {
        Timestamp { micros: 0 }
    }

    /// Build a timestamp from a microsecond count.
    pub fn from_micros(micros: u64) -> (r: Timestamp)
        ensures
            r.micros == micros,
    {
        Timestamp { micros }
    }

    /// The current instant; a reading before the epoch comes back as the epoch.
    pub fn now() -> (r: Timestamp)
    {
        let raw = now_micros_utc();
        if raw >= 0 {
            Timestamp { micros: raw as u64 }
        } else {
            Timestamp { micros: 0 }
        }
    }

    /// Whether this instant lies strictly after `other`.
    pub fn is_newer_than(&self, other: &Timestamp) -> (r: bool)
        ensures
            r == (self.micros > other.micros),
    {
        self.micros > other.micros
    }
}

/// Relies on chrono's `Utc::now` and `DateTime::timestamp_micros` for the
/// current wall-clock reading; nothing can be promised of the value. Note
/// that `Utc::now` itself panics on a system clock set before 1970, so the
/// caller's epoch clamp only ever sees non-negative readings in practice.
#[verifier::external_body]
fn now_micros_utc() -> i64 {
    chrono::Utc::now().timestamp_micros()
}

} // verus!
