//! A repeating deadline: it fires at its scheduled instant, or at once when
//! that has passed, and each firing schedules the next one a period later.
//! Instants and periods are in milliseconds.

use vstd::prelude::*;

verus! {

/// A repeating deadline: its period and the instant it is next due.
#[derive(Copy, Clone, Debug, PartialEq, Eq, Structural)]
pub struct Deadline {
    pub every: u64,
    pub at: u64,
}

impl Deadline {
    /// A deadline of period `every`, created at `now`: due at once where
    /// `immediate`, else one period later.
    pub fn new(every: u64, immediate: bool, now: u64) -> (r: Deadline)
        requires
            now + every <= u64::MAX,
        ensures
            r.every == every,
            r.at == (if immediate { now } else { (now + every) as u64 }),
    {
        Deadline { every, at: if immediate { now } else { now + every } }
    }

    /// The instant the deadline fires: when it is due, or `now` where that has
    /// passed.
    pub fn next(&self, now: u64) -> (r: u64)
        ensures
            r == (if self.at <= now { now } else { self.at }),
    {
        if self.at <= now {
            now
        } else {
            self.at
        }
    }

    /// The deadline fired at `now`: it is next due a period later.
    pub fn advance(&mut self, now: u64)
        requires
            now + old(self).every <= u64::MAX,
        ensures
            final(self).every == old(self).every,
            final(self).at == now + old(self).every,
    {
        self.at = now + self.every;
    }
}

} // verus!
