//! The injected clock and delay capability, simulated.
//!
//! The drivers consult wall-clock time only to enforce the minimum
//! interval between reads and never inside the sampling loops. Both the
//! clock and the delay capability are injected: here they are one value
//! that reports the current instant in microseconds, advances when a
//! delay is requested, and keeps a log of every delay issued, so that a
//! caller can check exactly how long a read chose to suspend.

use vstd::prelude::*;

verus! {

/// A simulated microsecond clock with a log of requested delays.
pub struct SimClock {
    now: u64,
    delays: Vec<u64>,
}

impl SimClock {
    /// The current instant, in microseconds from an arbitrary origin.
    pub closed spec fn now(self) -> int {
        self.now as int
    }

    /// Every delay requested so far, oldest first, in microseconds.
    pub closed spec fn delays(self) -> Seq<u64> {
        self.delays@
    }

    /// A clock reading zero with an empty delay log.
    pub fn new() -> (r: SimClock)
        ensures
            r.now() == 0,
            r.delays() == Seq::<u64>::empty(),
    {
        SimClock { now: 0, delays: Vec::new() }
    }

    /// The current instant.
    pub fn current_time(&self) -> (r: u64)
        ensures
            r == self.now(),
    {
        self.now
    }

    /// Microseconds elapsed since the earlier instant `t`.
    pub fn elapsed_since(&self, t: u64) -> (r: u64)
        requires
            t <= self.now(),
        ensures
            r == self.now() - t,
    {
        self.now - t
    }

    /// Lets simulated time pass without a delay request, as between two
    /// calls into a driver.
    pub fn advance(&mut self, us: u64)
        requires
            old(self).now() + us <= u64::MAX,
        ensures
            final(self).now() == old(self).now() + us,
            final(self).delays() == old(self).delays(),
    {
        self.now = self.now + us;
    }

    /// Suspends for `us` microseconds: the instant advances by at least
    /// that much (saturating at the clock's end of time) and the request
    /// is logged.
    pub fn delay(&mut self, us: u64)
        ensures
            final(self).now() == if old(self).now() + us <= u64::MAX {
                old(self).now() + us
            } else {
                u64::MAX as int
            },
            final(self).delays() == old(self).delays().push(us),
            old(self).now() <= final(self).now(),
    {
        if us <= u64::MAX - self.now {
            self.now = self.now + us;
        } else {
            self.now = u64::MAX;
        }
        self.delays.push(us);
    }

    /// How many delays have been requested.
    pub fn delay_count(&self) -> (r: usize)
        ensures
            r == self.delays().len(),
    {
        self.delays.len()
    }

    /// The `i`-th requested delay, oldest first.
    pub fn delay_at(&self, i: usize) -> (r: u64)
        requires
            i < self.delays().len(),
        ensures
            r == self.delays()[i as int],
    {
        self.delays[i]
    }
}

} // verus!
