//! The fixed-rate schedule of the game: how often the snake moves and how
//! often food appears. Time is counted in microseconds.

use vstd::prelude::*;

verus! {

/// The time between two movement ticks: 0.150 s.
pub const MOVEMENT_INTERVAL: u64 = 150_000;

/// The time between two food ticks: 1 s.
pub const FOOD_INTERVAL: u64 = 1_000_000;

/// An accumulator of frame times that fires once it has reached its
/// interval.
#[derive(Debug, Clone, Copy, PartialEq, Eq, Structural)]
pub struct Timer {
    /// The time accumulated since the timer last fired.
    pub elapsed: u64,
    /// The accumulated time at which the timer fires.
    pub interval: u64,
}

impl Timer {
    /// Returns a timer for `interval` that has accumulated nothing.
    pub fn new(interval: u64) -> (r: Timer)
        ensures
            r == (Timer { elapsed: 0, interval }),
    {
        Timer { elapsed: 0, interval }
    }

    /// Whether the timer fires at the next frame.
    pub open spec fn due(&self) -> bool {
        self.elapsed >= self.interval
    }

    /// The timer after a frame that took `delta`. A timer that is due
    /// fires and starts again from nothing; the frame's own time is not
    /// counted then. Otherwise the frame's time is added; the sum stops at
    /// `u64::MAX`.
    pub open spec fn after(&self, delta: u64) -> Timer {
        if self.due() {
            Timer { elapsed: 0, ..*self }
        } else if self.elapsed + delta > u64::MAX {
            Timer { elapsed: u64::MAX, ..*self }
        } else {
            Timer { elapsed: (self.elapsed + delta) as u64, ..*self }
        }
    }

    /// Accounts for a frame that took `delta` and returns whether the
    /// timer fired at it.
    pub fn advance(&mut self, delta: u64) -> (fired: bool)
        ensures
            fired == old(self).due(),
            *final(self) == old(self).after(delta),
            final(self).interval == old(self).interval,
            fired ==> final(self).elapsed == 0,
            !fired && old(self).elapsed + delta <= u64::MAX ==> final(self).elapsed == old(
                self,
            ).elapsed + delta,
    {
        if self.elapsed >= self.interval {
            self.elapsed = 0;
            true
        } else {
            self.elapsed = self.elapsed.saturating_add(delta);
            false
        }
    }
}

/// What is due at a frame.
#[derive(Debug, Clone, Copy, PartialEq, Eq, Structural)]
pub struct Due {
    /// The snake eats and moves at this frame.
    pub movement: bool,
    /// Food appears at this frame.
    pub food: bool,
}

/// The two timers of a game. They run independently of each other.
#[derive(Debug, Clone, Copy, PartialEq, Eq, Structural)]
pub struct Clock {
    /// Fires when the snake is to eat and move.
    pub movement: Timer,
    /// Fires when food is to appear.
    pub food: Timer,
}

impl Clock {
    /// Returns the clock of a game that starts now: the movement timer
    /// with `MOVEMENT_INTERVAL`, the food timer with `FOOD_INTERVAL`,
    /// neither with any time accumulated.
    pub fn new() -> (r: Clock)
        ensures
            r == (Clock {
                movement: Timer { elapsed: 0, interval: MOVEMENT_INTERVAL },
                food: Timer { elapsed: 0, interval: FOOD_INTERVAL },
            }),
    {
        Clock { movement: Timer::new(MOVEMENT_INTERVAL), food: Timer::new(FOOD_INTERVAL) }
    }

    /// What is due at the next frame.
    pub open spec fn due(&self) -> Due {
        Due { movement: self.movement.due(), food: self.food.due() }
    }

    /// The clock after a frame that took `delta`.
    pub open spec fn after(&self, delta: u64) -> Clock {
        Clock { movement: self.movement.after(delta), food: self.food.after(delta) }
    }

    /// Accounts for a frame that took `delta` and returns what is due at
    /// it.
    pub fn advance(&mut self, delta: u64) -> (due: Due)
        ensures
            due == old(self).due(),
            *final(self) == old(self).after(delta),
    {
        let movement = self.movement.advance(delta);
        let food = self.food.advance(delta);
        Due { movement, food }
    }
}

/// A timer that is not due and is advanced by frames of `d1` and then `d2`
/// has accumulated their sum, as far as `u64` can hold it; it fires at the
/// frame after the one at which the sum reached the interval.
pub proof fn lemma_timer_accumulates(t: Timer, d1: u64, d2: u64)
    requires
        !t.due(),
        t.elapsed + d1 + d2 <= u64::MAX,
    ensures
        t.after(d1).elapsed == t.elapsed + d1,
        t.after(d1).due() <==> t.elapsed + d1 >= t.interval,
        !t.after(d1).due() ==> t.after(d1).after(d2).elapsed == t.elapsed + d1 + d2,
        t.after(d1).due() ==> t.after(d1).after(d2).elapsed == 0,
{
}

} // verus!
