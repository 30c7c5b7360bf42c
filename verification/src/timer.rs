//! The two countdown timers of the machine.

use std::time::Instant;
use vstd::prelude::*;

use crate::clock::{due_after, is_due, MICROS_PER_SECOND};

verus! {

/// How many times per second a timer counts down.
pub const TIMER_DEC_PER_SECOND: u64 = 60;

/// The count of a timer after one tick, `elapsed_us` microseconds after its
/// last step: one less if the timer runs and a sixtieth of a second has
/// passed, else the same.
pub open spec fn ticked(count: u8, elapsed_us: u128) -> u8 {
    if count > 0 && due_after(elapsed_us, TIMER_DEC_PER_SECOND) {
        (count - 1) as u8
    } else {
        count
    }
}

/// The count of a timer after a run of ticks, one for each entry of
/// `elapsed`.
pub open spec fn ticked_all(count: u8, elapsed: Seq<u128>) -> u8
    decreases elapsed.len(),
{
    if elapsed.len() == 0 {
        count
    } else {
        ticked(ticked_all(count, elapsed.drop_last()), elapsed.last())
    }
}

/// A timer set to `count` reaches zero after `count` ticks that are due,
/// not before, and stays at zero whatever ticks follow.
pub proof fn lemma_timer_runs_down(count: u8, elapsed: Seq<u128>)
    requires
        forall|i: int|
            0 <= i < elapsed.len() ==> due_after(#[trigger] elapsed[i], TIMER_DEC_PER_SECOND),
    ensures
        ticked_all(count, elapsed) == if elapsed.len() >= count {
            0
        } else {
            count - elapsed.len()
        },
    decreases elapsed.len(),
{
    if elapsed.len() > 0 {
        lemma_timer_runs_down(count, elapsed.drop_last());
    }
}

/// A timer at zero stays at zero, however much time has passed.
pub proof fn lemma_timer_stays_at_zero(elapsed: Seq<u128>)
    ensures
        ticked_all(0, elapsed) == 0,
    decreases elapsed.len(),
{
    if elapsed.len() > 0 {
        lemma_timer_stays_at_zero(elapsed.drop_last());
    }
}

/// An 8-bit counter that counts down to zero, one step at a time, and
/// stays there.
#[derive(Debug)]
pub struct Timer {
    pub count: u8,
}

impl Timer {
    pub fn new(init_count: u8) -> (timer: Self)
        ensures
            timer.count == init_count,
    {
        Self { count: init_count }
    }

    pub fn set(&mut self, value: u8)
        ensures
            final(self).count == value,
    {
        self.count = value;
    }

    /// Counts down by one if the timer is running and the `elapsed_us`
    /// microseconds since the last step are at least a sixtieth of a
    /// second. The result tells whether it counted.
    pub fn tick(&mut self, elapsed_us: u128) -> (counted: bool)
        ensures
            counted == (old(self).count > 0 && elapsed_us * TIMER_DEC_PER_SECOND
                >= MICROS_PER_SECOND),
            final(self).count == ticked(old(self).count, elapsed_us),
    {
        if self.count == 0 {
            return false;
        }
        if is_due(elapsed_us, TIMER_DEC_PER_SECOND) {
            // past deadline
            self.count -= 1;
            true
        } else {
            false
        }
    }

    /// Counts down by one if the timer is running and the time since
    /// `last_updated` makes the next step due. The result tells whether it
    /// counted. A timer at zero stays at zero.
    pub fn sync(&mut self, last_updated: Instant) -> (counted: bool)
        ensures
            counted ==> old(self).count > 0,
            final(self).count == if counted {
                old(self).count - 1
            } else {
                old(self).count as int
            },
    {
        let elapsed_us = last_updated.elapsed().as_micros();
        self.tick(elapsed_us)
    }
}

} // verus!
