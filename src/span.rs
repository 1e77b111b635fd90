//! The clock of a periodically renewed tracing span.

use vstd::prelude::*;

verus! {

/// The clock of a tracing span that is closed and opened again every
/// `length` time units, counting how many times it was opened again.
///
/// Times are readings of a monotonic clock in a unit of the caller's
/// choosing.
#[derive(Debug, Clone, Copy, PartialEq, Eq, Structural)]
pub struct PeriodicSpan {
    pub length: u64,
    pub last_open: u64,
    pub counter: u64,
}

impl PeriodicSpan {
    /// A span opened at `now`, to be renewed after `length`.
    pub fn new(length: u64, now: u64) -> (r: Self)
        ensures
            r == (PeriodicSpan { length, last_open: now, counter: 0 }),
    {
        PeriodicSpan { length, last_open: now, counter: 0 }
    }

    /// Renews the span when more than its length has passed since it was
    /// opened; returns whether it did. A clock reading before the opening
    /// counts as no time passed.
    pub fn update(&mut self, now: u64) -> (reopened: bool)
        requires
            old(self).counter < u64::MAX,
        ensures
            reopened == (now > old(self).last_open && now - old(self).last_open > old(self).length),
            reopened ==> *final(self) == (PeriodicSpan {
                length: old(self).length,
                last_open: now,
                counter: (old(self).counter + 1) as u64,
            }),
            !reopened ==> *final(self) == *old(self),
    {
        if now > self.last_open && now - self.last_open > self.length {
            self.counter = self.counter + 1;
            self.last_open = now;
            true
        } else {
            false
        }
    }
}

} // verus!
