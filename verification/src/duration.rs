//! Spans of time.

use vstd::prelude::*;

verus! {

/// A span of time: whole seconds, and the nanoseconds beyond them.
#[derive(Debug, Clone, Copy, PartialEq, Eq, Structural)]
pub struct Duration {
    pub secs: u64,
    pub nanos: u32,
}

impl Duration {
    /// Whether the nanoseconds are less than a second.
    pub open spec fn wf(self) -> bool {
        self.nanos < 1_000_000_000
    }

    /// The whole span in nanoseconds.
    pub open spec fn total_nanos(self) -> nat {
        (self.secs * 1_000_000_000 + self.nanos) as nat
    }

    /// The whole span in milliseconds, rounded down.
    pub open spec fn millis(self) -> nat {
        (self.secs * 1000 + self.nanos / 1_000_000) as nat
    }

    /// A span of whole seconds.
    pub fn from_secs(secs: u64) -> (d: Duration)
        ensures
            d == (Duration { secs, nanos: 0 }),
            d.wf(),
    {
        Duration { secs, nanos: 0 }
    }

    /// A span of whole milliseconds.
    pub fn from_millis(millis: u64) -> (d: Duration)
        ensures
            d.wf(),
            d.millis() == millis,
            d.total_nanos() == millis * 1_000_000,
    {
        Duration { secs: millis / 1000, nanos: ((millis % 1000) as u32) * 1_000_000 }
    }

    /// The span in milliseconds, rounded down.
    pub fn as_millis(&self) -> (n: u128)
        ensures
            n == self.millis(),
    {
        (self.secs as u128) * 1000 + (self.nanos / 1_000_000) as u128
    }

    /// The span that is longer by whole seconds; none where it is too long.
    pub fn checked_add_secs(&self, secs: u64) -> (d: Option<Duration>)
        ensures
            d == (if self.secs + secs <= u64::MAX {
                Some(Duration { secs: (self.secs + secs) as u64, nanos: self.nanos })
            } else {
                None
            }),
    {
        match self.secs.checked_add(secs) {
            Some(total) => Some(Duration { secs: total, nanos: self.nanos }),
            None => None,
        }
    }
}

} // verus!
