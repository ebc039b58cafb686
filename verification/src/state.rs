//! The game as a mathematical value, and its rules as functions from one
//! such value to the next.

use vstd::prelude::*;
use crate::direction::{Direction, Key};
use crate::grid::{Grid, Position};

verus! {

/// Everything the game remembers between two updates.
#[verifier::ext_equal]
pub struct GameState {
    /// The dimensions of the playing field.
    pub grid: Grid,
    /// The cells of the snake, head first.
    pub segments: Seq<Position>,
    /// The food on the field, oldest first. A cell may occur twice.
    pub food: Seq<Position>,
    /// The cell that the last segment left at the latest move.
    pub tail: Position,
    /// The direction of the next move.
    pub dir: Direction,
}

/// The index of the first entry of `s` that equals `p`, where `s` has one.
pub open spec fn first_index(s: Seq<Position>, p: Position) -> int {
    choose|i: int|
        0 <= i < s.len() && s[i] == p && forall|j: int| 0 <= j < i ==> s[j] != p
}

impl GameState {
    /// What holds of every state that the game reaches: the grid has a
    /// cell, the snake has at least two segments, and the segments, the
    /// food and the remembered tail all lie on the grid.
    pub open spec fn wf(&self) -> bool {
        &&& self.grid.valid()
        &&& self.segments.len() >= 2
        &&& forall|i: int|
            0 <= i < self.segments.len() ==> self.grid.contains(#[trigger] self.segments[i])
        &&& forall|i: int| 0 <= i < self.food.len() ==> self.grid.contains(#[trigger] self.food[i])
        &&& self.grid.contains(self.tail)
    }

    /// The state in which a game on `grid` starts: two segments in the
    /// middle of the grid, no food, heading up.
    pub open spec fn initial(grid: Grid) -> GameState {
        GameState {
            grid,
            segments: seq![grid.center(), grid.center()],
            food: Seq::empty(),
            tail: Position { x: 0, y: 0 },
            dir: Direction::Up,
        }
    }

    /// The snake's first segment.
    pub open spec fn head(&self) -> Position {
        self.segments[0]
    }

    /// The number of segments gained since the snake was last set up.
    pub open spec fn score(&self) -> int {
        self.segments.len() - 2
    }

    /// The state after a reset: the snake is two segments in the middle of
    /// the grid and the food is gone. Direction and remembered tail stay.
    pub open spec fn reset(&self) -> GameState {
        GameState {
            segments: seq![self.grid.center(), self.grid.center()],
            food: Seq::empty(),
            ..*self
        }
    }

    /// The state after a request to head in direction `requested`: the
    /// request is granted unless it asks for the reverse of the current
    /// direction.
    pub open spec fn turned(&self, requested: Direction) -> GameState {
        if requested != self.dir.opposite() {
            GameState { dir: requested, ..*self }
        } else {
            *self
        }
    }

    /// The state after the input source reported `key`: an arrow key is a
    /// request to head its way, any other key and no key change nothing.
    pub open spec fn pressed(&self, key: Option<Key>) -> GameState {
        match key {
            Some(k) => match k.direction() {
                Some(d) => self.turned(d),
                None => *self,
            },
            None => *self,
        }
    }

    /// The cell that the head enters at the next move.
    pub open spec fn candidate(&self) -> Position {
        self.head().step(self.dir)
    }

    /// Whether the next move runs into a wall or into the snake itself:
    /// the candidate cell lies off the grid, or a segment (the head
    /// included) occupies it now.
    pub open spec fn blocked(&self) -> bool {
        !self.grid.contains(self.candidate()) || self.segments.contains(self.candidate())
    }

    /// The state after an unobstructed move: the head enters the candidate
    /// cell, every other segment takes the place of the one before it, and
    /// the cell that the last segment left is remembered.
    pub open spec fn advanced(&self) -> GameState {
        GameState {
            segments: seq![self.candidate()] + self.segments.drop_last(),
            tail: self.segments.last(),
            ..*self
        }
    }

    /// The state after a move: a reset where the move is blocked, the
    /// advanced snake where it is not.
    pub open spec fn moved(&self) -> GameState {
        if self.blocked() {
            self.reset()
        } else {
            self.advanced()
        }
    }

    /// Whether some food lies under the head.
    pub open spec fn can_eat(&self) -> bool {
        self.food.contains(self.head())
    }

    /// The state after the snake tried to eat: where food lies under the
    /// head, the oldest such entry is gone and the remembered tail is the
    /// new last segment; otherwise nothing has changed.
    pub open spec fn eaten(&self) -> GameState {
        if self.can_eat() {
            GameState {
                food: self.food.remove(first_index(self.food, self.head())),
                segments: self.segments.push(self.tail),
                ..*self
            }
        } else {
            *self
        }
    }

    /// The state after food was offered on cell `p`: the food has `p` as
    /// its newest entry if `p` is a cell of the grid, and is unchanged if
    /// it is not. Whether the cell holds food or a segment already does
    /// not matter.
    pub open spec fn fed(&self, p: Position) -> GameState {
        if self.grid.contains(p) {
            GameState { food: self.food.push(p), ..*self }
        } else {
            *self
        }
    }

    /// The state after one movement tick: the snake first tries to eat
    /// where its head is, then moves.
    pub open spec fn ticked(&self) -> GameState {
        self.eaten().moved()
    }

    /// The state after the game's part of one frame: the key that the
    /// input source reported is taken first; then, if a movement tick is
    /// due, the snake eats and moves.
    pub open spec fn framed(&self, key: Option<Key>, tick: bool) -> GameState {
        if tick {
            self.pressed(key).ticked()
        } else {
            self.pressed(key)
        }
    }

    /// Whether each segment touches the next: the two share a cell or an
    /// edge.
    pub open spec fn is_path(&self) -> bool {
        forall|i: int|
            0 <= i < self.segments.len() - 1 ==> (#[trigger] self.segments[i]).touches(
                self.segments[i + 1],
            )
    }
}

/// Where `s` holds `p`, `first_index` is the index of an entry equal to `p`
/// with no such entry before it, and anything that is such an index is
/// `first_index`.
pub proof fn lemma_first_index(s: Seq<Position>, p: Position)
    requires
        s.contains(p),
    ensures
        0 <= first_index(s, p) < s.len(),
        s[first_index(s, p)] == p,
        forall|j: int| 0 <= j < first_index(s, p) ==> s[j] != p,
        forall|i: int|
            0 <= i < s.len() && s[i] == p && (forall|j: int| 0 <= j < i ==> s[j] != p)
                ==> i == first_index(s, p),
{
    s.index_of_first_ensures(p);
    let k = s.index_of_first(p)->0;
    assert(0 <= k < s.len() && s[k] == p && forall|j: int| 0 <= j < k ==> s[j] != p);
}

} // verus!
