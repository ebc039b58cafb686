//! The running game: the state in memory and the operations that update it.

use vstd::prelude::*;
use crate::direction::{Direction, Key};
use crate::grid::{Grid, Position};
use crate::laws::lemma_move_resets_iff_blocked;
use crate::state::{first_index, lemma_first_index, GameState};

verus! {

/// A game of snake. Its fields are private, so every game that a caller
/// holds came from `Game::new` and satisfies `GameState::wf`.
pub struct Game {
    grid: Grid,
    segments: Vec<Position>,
    food: Vec<Position>,
    tail: Position,
    dir: Direction,
}

impl View for Game {
    type V = GameState;

    closed spec fn view(&self) -> GameState {
        GameState {
            grid: self.grid,
            segments: self.segments@,
            food: self.food@,
            tail: self.tail,
            dir: self.dir,
        }
    }
}

impl Game {
    /// Starts a game on `grid`, or returns `None` where the grid has no
    /// cell.
    pub fn new(grid: Grid) -> (r: Option<Game>)
        ensures
            r.is_some() == grid.valid(),
            r matches Some(g) ==> g@ == GameState::initial(grid) && g@.wf(),
    {
        if !grid.valid() {
            return None;
        }
        let c = grid.center();
        let mut segments: Vec<Position> = Vec::new();
        segments.push(c);
        segments.push(c);
        let g = Game {
            grid,
            segments,
            food: Vec::new(),
            tail: Position { x: 0, y: 0 },
            dir: Direction::Up,
        };
        assert(g@ =~= GameState::initial(grid));
        Some(g)
    }

    /// Sets the snake up anew: two segments, both in the middle of the
    /// grid, and no food. The direction and the remembered tail stay as
    /// they are.
    pub fn init(&mut self)
        requires
            old(self)@.wf(),
        ensures
            final(self)@ == old(self)@.reset(),
            final(self)@.wf(),
            final(self)@.segments.len() == 2,
            final(self)@.segments[0] == old(self)@.grid.center(),
            final(self)@.segments[1] == old(self)@.grid.center(),
            final(self)@.food.len() == 0,
            final(self)@.dir == old(self)@.dir,
    {
        let c = self.grid.center();
        self.segments.clear();
        self.food.clear();
        self.segments.push(c);
        self.segments.push(c);
        assert(self@ =~= old(self)@.reset());
    }

    /// Moves the snake one cell in its direction. Where the cell ahead
    /// lies off the grid or holds a segment of the snake as it is before
    /// the move, the game is reset instead. Otherwise the head enters that
    /// cell, every other segment follows the one before it, and the cell
    /// that the last segment left is remembered as the tail.
    pub fn movement(&mut self)
        requires
            old(self)@.wf(),
        ensures
            final(self)@ == old(self)@.moved(),
            final(self)@.wf(),
            final(self)@ == old(self)@.reset() <==> old(self)@.blocked(),
            old(self)@.blocked() ==> final(self)@ == old(self)@.reset(),
            !old(self)@.blocked() ==> {
                &&& final(self)@ == old(self)@.advanced()
                &&& final(self)@.segments.len() == old(self)@.segments.len()
                &&& final(self)@.head() == old(self)@.candidate()
                &&& final(self)@.tail == old(self)@.segments.last()
                &&& forall|i: int|
                    1 <= i < old(self)@.segments.len() ==> final(self)@.segments[i] == old(
                        self,
                    )@.segments[i - 1]
                &&& final(self)@.food == old(self)@.food
                &&& final(self)@.dir == old(self)@.dir
                &&& (old(self)@.is_path() ==> final(self)@.is_path())
            },
    {
        proof {
            lemma_move_resets_iff_blocked(self@);
        }
        let head = self.segments[0];
        let next = head.step(self.dir);
        if !self.grid.contains(next) {
            self.init();
            return;
        }
        if occupies(&self.segments, next) {
            self.init();
            return;
        }
        let n: usize = self.segments.len();
        self.tail = self.segments[n - 1];
        let mut i: usize = n - 1;
        while i > 0
            invariant
                i < n,
                n == self.segments@.len(),
                n == old(self)@.segments.len(),
                self.grid == old(self).grid,
                self.food == old(self).food,
                self.dir == old(self).dir,
                self.tail == old(self)@.segments.last(),
                forall|j: int| 0 <= j <= i ==> self.segments@[j] == old(self)@.segments[j],
                forall|j: int| i < j < n ==> self.segments@[j] == old(self)@.segments[j - 1],
            decreases i,
        {
            let before = self.segments[i - 1];
            self.segments[i] = before;
            i -= 1;
        }
        self.segments[0] = next;
        assert(self@ =~= old(self)@.advanced());
    }

    /// Asks the snake to head in direction `requested`. The request is
    /// granted unless it asks for the reverse of the current direction,
    /// which would turn the head straight into the second segment; such a
    /// request is ignored.
    pub fn set_direction(&mut self, requested: Direction)
        requires
            old(self)@.wf(),
        ensures
            final(self)@ == old(self)@.turned(requested),
            final(self)@.wf(),
            final(self)@.dir == requested <==> requested != old(self)@.dir.opposite(),
            requested == old(self)@.dir.opposite() ==> final(self)@ == old(self)@,
            final(self)@.grid == old(self)@.grid,
            final(self)@.segments == old(self)@.segments,
            final(self)@.food == old(self)@.food,
            final(self)@.tail == old(self)@.tail,
    {
        if requested != self.dir.opposite() {
            self.dir = requested;
        }
    }

    /// Takes what the input source reported for this frame. An arrow key
    /// is a request to head its way, handled as `set_direction` handles
    /// it; any other key, and no key, leave the game as it is.
    pub fn input(&mut self, key: Option<Key>)
        requires
            old(self)@.wf(),
        ensures
            final(self)@ == old(self)@.pressed(key),
            final(self)@.wf(),
            key is None ==> final(self)@ == old(self)@,
            key == Some(Key::Other) ==> final(self)@ == old(self)@,
    {
        if let Some(k) = key {
            if let Some(d) = k.direction() {
                self.set_direction(d);
            }
        }
    }

    /// Lets the snake eat where its head is. The food is searched from
    /// the oldest entry on; the first entry on the head's cell is removed
    /// and the remembered tail becomes the snake's new last segment. Where
    /// no food lies under the head, nothing changes. At most one entry is
    /// eaten, however many lie there.
    pub fn eat(&mut self)
        requires
            old(self)@.wf(),
        ensures
            final(self)@ == old(self)@.eaten(),
            final(self)@.wf(),
            final(self)@.grid == old(self)@.grid,
            final(self)@.dir == old(self)@.dir,
            final(self)@.tail == old(self)@.tail,
            !old(self)@.can_eat() ==> final(self)@ == old(self)@,
            old(self)@.can_eat() ==> {
                let k = first_index(old(self)@.food, old(self)@.head());
                &&& 0 <= k < old(self)@.food.len()
                &&& old(self)@.food[k] == old(self)@.head()
                &&& forall|j: int| 0 <= j < k ==> old(self)@.food[j] != old(self)@.head()
                &&& final(self)@.food == old(self)@.food.remove(k)
                &&& final(self)@.food.len() == old(self)@.food.len() - 1
                &&& final(self)@.segments == old(self)@.segments.push(old(self)@.tail)
                &&& final(self)@.segments.len() == old(self)@.segments.len() + 1
                &&& final(self)@.segments.last() == old(self)@.tail
            },
    {
        let head = self.segments[0];
        let mut i: usize = 0;
        while i < self.food.len()
            invariant
                i <= self.food.len(),
                *self == *old(self),
                self@.wf(),
                head == self@.head(),
                forall|j: int| 0 <= j < i ==> self.food@[j] != head,
            decreases self.food.len() - i,
        {
            if self.food[i] == head {
                proof {
                    lemma_first_index(self.food@, head);
                }
                self.food.remove(i);
                self.segments.push(self.tail);
                assert(self@ =~= old(self)@.eaten());
                return;
            }
            i += 1;
        }
    }

    /// Puts food on cell `pos` and returns whether it did: it does so
    /// exactly when `pos` is a cell of the grid. Nothing else is asked of
    /// the cell: it may hold food already, or a segment of the snake. The
    /// caller draws the cell at random, each coordinate between 0 and that
    /// of `Grid::last_cell`, both included.
    pub fn food(&mut self, pos: Position) -> (placed: bool)
        requires
            old(self)@.wf(),
        ensures
            placed == old(self)@.grid.contains(pos),
            final(self)@ == old(self)@.fed(pos),
            final(self)@.wf(),
            placed ==> final(self)@.food == old(self)@.food.push(pos),
            !placed ==> final(self)@ == old(self)@,
            final(self)@.grid == old(self)@.grid,
            final(self)@.segments == old(self)@.segments,
            final(self)@.tail == old(self)@.tail,
            final(self)@.dir == old(self)@.dir,
    {
        if !self.grid.contains(pos) {
            return false;
        }
        self.food.push(pos);
        assert(self@ =~= old(self)@.fed(pos));
        true
    }

    /// One movement tick: the snake eats where its head is, then moves.
    /// Food that lies on the cell ahead is therefore eaten at the next
    /// tick, not at this one.
    pub fn tick(&mut self)
        requires
            old(self)@.wf(),
        ensures
            final(self)@ == old(self)@.ticked(),
            final(self)@ == old(self)@.eaten().moved(),
            final(self)@.wf(),
    {
        self.eat();
        self.movement();
    }

    /// Returns the dimensions of the playing field.
    pub fn grid(&self) -> (r: Grid)
        ensures
            r == self@.grid,
    {
        self.grid
    }

    /// Returns the direction of the next move.
    pub fn direction(&self) -> (r: Direction)
        ensures
            r == self@.dir,
    {
        self.dir
    }

    /// Returns the cell of the snake's first segment.
    pub fn head(&self) -> (r: Position)
        requires
            self@.wf(),
        ensures
            r == self@.head(),
    {
        self.segments[0]
    }

    /// Returns the cell that the last segment left at the latest move.
    pub fn tail(&self) -> (r: Position)
        ensures
            r == self@.tail,
    {
        self.tail
    }

    /// Returns the number of segments.
    pub fn len(&self) -> (r: usize)
        ensures
            r == self@.segments.len(),
    {
        self.segments.len()
    }

    /// Returns the score: the number of segments beyond the two that the
    /// snake starts with.
    pub fn score(&self) -> (r: usize)
        requires
            self@.wf(),
        ensures
            r == self@.score(),
            r == self@.segments.len() - 2,
    {
        self.segments.len() - 2
    }

    /// Returns the cells of the snake, head first.
    pub fn segments(&self) -> (r: &Vec<Position>)
        ensures
            r@ == self@.segments,
    {
        &self.segments
    }

    /// Returns the cells that hold food, oldest entry first.
    pub fn food_cells(&self) -> (r: &Vec<Position>)
        ensures
            r@ == self@.food,
    {
        &self.food
    }
}

/// Returns whether `p` is one of `cells`.
fn occupies(cells: &Vec<Position>, p: Position) -> (r: bool)
    ensures
        r == cells@.contains(p),
{
    let mut i: usize = 0;
    while i < cells.len()
        invariant
            i <= cells.len(),
            forall|j: int| 0 <= j < i ==> cells@[j] != p,
        decreases cells.len() - i,
    {
        if cells[i] == p {
            return true;
        }
        i += 1;
    }
    false
}

} // verus!
