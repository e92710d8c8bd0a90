//! Cycle-debt bookkeeping for the per-frame loop.
//!
//! The coordinator keeps one `TickCoordinator` per stepped subsystem: a
//! signed debt of T-cycles. Each master tick decrements the debt; when it
//! reaches zero the subsystem is stepped and its returned cost becomes
//! the new debt. Wall-clock pacing lives with the host, not here.

use vstd::prelude::*;
use crate::ClockTicks;

verus! {

pub struct TickCoordinator {
    pub ticks_to_wait: isize,
}

impl TickCoordinator {
    /// A fresh coordinator is due on the first tick.
    pub fn new() -> (c: TickCoordinator)
        ensures
            c.ticks_to_wait == 1,
    {
        TickCoordinator { ticks_to_wait: 1 }
    }

    /// One master tick: the debt drops by one; returns whether the
    /// subsystem is now due.
    pub fn tick(&mut self) -> (due: bool)
        requires
            old(self).ticks_to_wait > isize::MIN,
        ensures
            final(self).ticks_to_wait == old(self).ticks_to_wait - 1,
            due == (final(self).ticks_to_wait <= 0),
    {
        self.ticks_to_wait = self.ticks_to_wait - 1;
        self.ticks_to_wait <= 0
    }

    /// Several master ticks at once.
    pub fn ticks(&mut self, ticks: ClockTicks) -> (due: bool)
        requires
            ticks <= 0x10000,
            old(self).ticks_to_wait > isize::MIN + 0x10000,
        ensures
            final(self).ticks_to_wait == old(self).ticks_to_wait - ticks,
            due == (final(self).ticks_to_wait <= 0),
    {
        self.ticks_to_wait = self.ticks_to_wait - (ticks as isize);
        self.ticks_to_wait <= 0
    }

    /// Clears the debt, returning how much of it was left.
    pub fn tick_all(&mut self) -> (rest: ClockTicks)
        ensures
            final(self).ticks_to_wait == (if old(self).ticks_to_wait <= 0 {
                old(self).ticks_to_wait
            } else {
                0
            }),
            rest == (if old(self).ticks_to_wait <= 0 {
                0
            } else {
                old(self).ticks_to_wait
            }),
    {
        if self.ticks_to_wait <= 0 {
            return 0;
        }
        let res = self.ticks_to_wait as usize;
        self.ticks_to_wait = 0;
        res
    }

    /// Sets the debt to the cost of the operation just performed.
    pub fn wait_for(&mut self, ticks: ClockTicks)
        requires
            ticks <= 0x10000,
        ensures
            final(self).ticks_to_wait == ticks,
    {
        self.ticks_to_wait = ticks as isize;
    }
}

} // verus!
