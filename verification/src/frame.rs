//! One frame of the game loop: the decisions between reading the input
//! and drawing.

use vstd::prelude::*;
use crate::clock::Clock;
use crate::direction::Key;
use crate::game::Game;

verus! {

impl Game {
    /// Plays the game's part of one frame. `key` is what the input source
    /// reported for the frame and `delta` the time since the frame before,
    /// in microseconds.
    ///
    /// The key is taken first. Then the clock is advanced by `delta`; if
    /// its movement timer fired, the snake eats and moves. The result says
    /// whether the food timer fired: the caller then draws a cell of the
    /// grid at random and hands it to `food` before it draws the frame.
    pub fn frame(&mut self, clock: &mut Clock, key: Option<Key>, delta: u64) -> (spawn: bool)
        requires
            old(self)@.wf(),
        ensures
            final(self)@ == old(self)@.framed(key, old(clock).due().movement),
            final(self)@.wf(),
            *final(clock) == old(clock).after(delta),
            spawn == old(clock).due().food,
            !old(clock).due().movement ==> final(self)@ == old(self)@.pressed(key),
            old(clock).due().movement ==> final(self)@ == old(self)@.pressed(key).eaten().moved(),
    {
        self.input(key);
        let due = clock.advance(delta);
        if due.movement {
            self.tick();
        }
        due.food
    }
}

} // verus!
