//! Cells of the playing field and the field's dimensions.

use vstd::prelude::*;
use crate::direction::Direction;

verus! {

/// A cell of the grid, by its column `x` and its row `y`.
#[derive(Debug, Clone, Copy, PartialEq, Eq, Structural)]
pub struct Position {
    pub x: i32,
    pub y: i32,
}

impl Position {
    /// The cell one step from this one in direction `d`. It is meant for
    /// cells whose coordinates lie strictly between `i32::MIN` and
    /// `i32::MAX`.
    pub open spec fn spec_step(&self, d: Direction) -> Position {
        Position { x: (self.x + d.dx()) as i32, y: (self.y + d.dy()) as i32 }
    }

    /// Returns the cell one step from this one in direction `d`.
    #[verifier::when_used_as_spec(spec_step)]
    pub fn step(&self, d: Direction) -> (r: Position)
        requires
            i32::MIN < self.x < i32::MAX,
            i32::MIN < self.y < i32::MAX,
        ensures
            r == self.spec_step(d),
            r.x == self.x + d.dx(),
            r.y == self.y + d.dy(),
    {
        match d {
            Direction::Up => Position { x: self.x, y: self.y - 1 },
            Direction::Down => Position { x: self.x, y: self.y + 1 },
            Direction::Left => Position { x: self.x - 1, y: self.y },
            Direction::Right => Position { x: self.x + 1, y: self.y },
        }
    }

    /// Whether two cells are the same cell or share an edge.
    pub open spec fn touches(&self, other: Position) -> bool {
        let ax = if self.x >= other.x { self.x - other.x } else { other.x - self.x };
        let ay = if self.y >= other.y { self.y - other.y } else { other.y - self.y };
        ax + ay <= 1
    }
}

/// The dimensions of the playing field: its cells are those with
/// `0 <= x < width` and `0 <= y < height`.
#[derive(Debug, Clone, Copy, PartialEq, Eq, Structural)]
pub struct Grid {
    pub width: i32,
    pub height: i32,
}

impl Grid {
    /// A grid is valid when it has at least one cell.
    pub open spec fn spec_valid(&self) -> bool {
        self.width >= 1 && self.height >= 1
    }

    /// Returns whether the grid has at least one cell.
    #[verifier::when_used_as_spec(spec_valid)]
    pub fn valid(&self) -> (r: bool)
        ensures
            r == self.spec_valid(),
    {
        self.width >= 1 && self.height >= 1
    }

    /// Whether `p` is a cell of the grid.
    pub open spec fn spec_contains(&self, p: Position) -> bool {
        0 <= p.x < self.width && 0 <= p.y < self.height
    }

    /// Returns whether `p` is a cell of the grid.
    #[verifier::when_used_as_spec(spec_contains)]
    pub fn contains(&self, p: Position) -> (r: bool)
        ensures
            r == self.spec_contains(p),
    {
        0 <= p.x && p.x < self.width && 0 <= p.y && p.y < self.height
    }

    /// The cell in the middle of the grid: half the width and half the
    /// height, each rounded down.
    pub open spec fn spec_center(&self) -> Position {
        Position { x: (self.width / 2) as i32, y: (self.height / 2) as i32 }
    }

    /// Returns the cell in the middle of the grid.
    #[verifier::when_used_as_spec(spec_center)]
    pub fn center(&self) -> (r: Position)
        requires
            self.valid(),
        ensures
            r == self.spec_center(),
            self.contains(r),
    {
        Position { x: self.width / 2, y: self.height / 2 }
    }

    /// The cell with the largest coordinates.
    pub open spec fn spec_last_cell(&self) -> Position {
        Position { x: (self.width - 1) as i32, y: (self.height - 1) as i32 }
    }

    /// Returns the cell with the largest coordinates. A cell belongs to a
    /// valid grid exactly when each of its coordinates lies between 0 and
    /// that of this cell, both included.
    #[verifier::when_used_as_spec(spec_last_cell)]
    pub fn last_cell(&self) -> (r: Position)
        requires
            self.valid(),
        ensures
            r == self.spec_last_cell(),
            r.x == self.width - 1,
            r.y == self.height - 1,
            forall|p: Position|
                self.contains(p) <==> (0 <= p.x <= r.x && 0 <= p.y <= r.y),
    {
        Position { x: self.width - 1, y: self.height - 1 }
    }
}

} // verus!
