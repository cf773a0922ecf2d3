//! Wall-clock instants, as the messages carry them.

use vstd::prelude::*;

verus! {

/// An instant of UTC time: whole seconds since the Unix epoch, and the
/// nanoseconds past that second.
#[derive(Debug, Clone, Copy, PartialEq, Eq, Structural)]
pub struct Timestamp {
    pub secs: i64,
    pub nanos: u32,
}

impl Timestamp {
    /// Strict temporal order: by seconds, then by nanoseconds.
    pub open spec fn precedes(self, later: Timestamp) -> bool {
        self.secs < later.secs || (self.secs == later.secs && self.nanos < later.nanos)
    }

    /// Whether this instant lies strictly before `later`.
    pub fn is_before(&self, later: &Timestamp) -> (before: bool)
        ensures
            before == self.precedes(*later),
    {
        self.secs < later.secs || (self.secs == later.secs && self.nanos < later.nanos)
    }
}

/// `chrono::Utc::now`, taken apart by `DateTime::timestamp` and
/// `DateTime::timestamp_subsec_nanos`. Trusted, and nothing is claimed of the
/// reading: the system clock may stand still or step backwards.
#[verifier::external_body]
pub(crate) fn utc_now() -> Timestamp {
    let now = chrono::Utc::now();
    Timestamp { secs: now.timestamp(), nanos: now.timestamp_subsec_nanos() }
}

} // verus!
