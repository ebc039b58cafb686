//! The four directions in which the snake can travel, and the keys that
//! select them.

use vstd::prelude::*;

verus! {

/// A direction of travel on the grid. `Up` is towards smaller `y`,
/// `Left` towards smaller `x`.
#[derive(Debug, Clone, Copy, PartialEq, Eq, Structural)]
pub enum Direction {
    Up,
    Down,
    Left,
    Right,
}

impl Direction {
    /// The direction that points the other way.
    pub open spec fn spec_opposite(&self) -> Direction {
        match *self {
            Direction::Up => Direction::Down,
            Direction::Down => Direction::Up,
            Direction::Left => Direction::Right,
            Direction::Right => Direction::Left,
        }
    }

    /// Returns the direction that points the other way.
    #[verifier::when_used_as_spec(spec_opposite)]
    pub fn opposite(&self) -> (r: Direction)
        ensures
            r == self.spec_opposite(),
    {
        match self {
            Direction::Up => Direction::Down,
            Direction::Down => Direction::Up,
            Direction::Left => Direction::Right,
            Direction::Right => Direction::Left,
        }
    }

    /// The change in `x` of one step in this direction.
    pub open spec fn dx(&self) -> int {
        match *self {
            Direction::Left => -1,
            Direction::Right => 1,
            _ => 0,
        }
    }

    /// The change in `y` of one step in this direction.
    pub open spec fn dy(&self) -> int {
        match *self {
            Direction::Up => -1,
            Direction::Down => 1,
            _ => 0,
        }
    }
}

/// A key as the input source reports it: one of the four arrow keys, or
/// any other key.
#[derive(Debug, Clone, Copy, PartialEq, Eq, Structural)]
pub enum Key {
    Up,
    Down,
    Left,
    Right,
    Other,
}

impl Key {
    /// The direction that this key asks for, if it asks for one.
    pub open spec fn spec_direction(&self) -> Option<Direction> {
        match *self {
            Key::Up => Some(Direction::Up),
            Key::Down => Some(Direction::Down),
            Key::Left => Some(Direction::Left),
            Key::Right => Some(Direction::Right),
            Key::Other => None,
        }
    }

    /// Returns the direction that this key asks for: each arrow key asks
    /// for the direction of its name, every other key for none.
    #[verifier::when_used_as_spec(spec_direction)]
    pub fn direction(&self) -> (r: Option<Direction>)
        ensures
            r == self.spec_direction(),
    {
        match self {
            Key::Up => Some(Direction::Up),
            Key::Down => Some(Direction::Down),
            Key::Left => Some(Direction::Left),
            Key::Right => Some(Direction::Right),
            Key::Other => None,
        }
    }
}

/// Opposite directions are distinct, and the opposite of the opposite is
/// the direction itself.
pub proof fn lemma_opposite_involution(d: Direction)
    ensures
        d.opposite() != d,
        d.opposite().opposite() == d,
        d.opposite().dx() == -d.dx(),
        d.opposite().dy() == -d.dy(),
{
}

} // verus!
