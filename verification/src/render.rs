//! What a frame shows: a square for each entry of the food and for each
//! segment of the snake, placed on a screen of a given size, and the score.

use vstd::prelude::*;
use crate::game::Game;
use crate::grid::{Grid, Position};
use crate::state::GameState;

verus! {

/// What a square on the screen stands for.
#[derive(Debug, Clone, Copy, PartialEq, Eq, Structural)]
pub enum Sprite {
    Food,
    Head,
    Body,
}

impl Sprite {
    /// The side of the square, in pixels: food is smaller than a segment
    /// of the body, and the head is larger than one.
    pub open spec fn spec_side(&self) -> i32 {
        match *self {
            Sprite::Food => 26,
            Sprite::Body => 36,
            Sprite::Head => 46,
        }
    }

    /// Returns the side of the square, in pixels.
    #[verifier::when_used_as_spec(spec_side)]
    pub fn side(&self) -> (r: i32)
        ensures
            r == self.spec_side(),
    {
        match self {
            Sprite::Food => 26,
            Sprite::Body => 36,
            Sprite::Head => 46,
        }
    }
}

/// The size of the drawing area, in pixels.
#[derive(Debug, Clone, Copy, PartialEq, Eq, Structural)]
pub struct Screen {
    pub width: u16,
    pub height: u16,
}

/// A square to draw: its top left corner, its side and what it stands for.
#[derive(Debug, Clone, Copy, PartialEq, Eq, Structural)]
pub struct Square {
    pub x: i32,
    pub y: i32,
    pub side: i32,
    pub sprite: Sprite,
}

/// What to draw for one frame.
#[derive(Debug)]
pub struct Scene {
    /// The squares in the order in which they are drawn: the food, oldest
    /// entry first, then the snake, head first.
    pub squares: Vec<Square>,
    /// The score to show.
    pub score: usize,
}

/// Where the square of side `side` goes along one axis: `cell` is the
/// cell's coordinate on that axis and `tile` the length of a cell in
/// pixels. The middle of the square is the middle of the cell, the latter
/// rounded up to a whole pixel.
pub open spec fn offset(cell: int, tile: int, side: int) -> int {
    cell * tile + (tile - side / 2) - tile / 2
}

/// The square that stands for `sprite` on cell `cell`. A cell is as many
/// pixels wide as the screen's width holds the grid's width, and likewise
/// for its height.
pub open spec fn square_at(grid: Grid, screen: Screen, cell: Position, sprite: Sprite) -> Square {
    Square {
        x: offset(cell.x as int, screen.width as int / grid.width as int, sprite.side() as int) as i32,
        y: offset(
            cell.y as int,
            screen.height as int / grid.height as int,
            sprite.side() as int,
        ) as i32,
        side: sprite.side(),
        sprite,
    }
}

/// The sprite of the snake's segment with index `i`.
pub open spec fn segment_sprite(i: int) -> Sprite {
    if i == 0 {
        Sprite::Head
    } else {
        Sprite::Body
    }
}

impl GameState {
    /// The squares of a frame in drawing order: one for each entry of the
    /// food, then one for each segment of the snake.
    pub open spec fn squares(&self, screen: Screen) -> Seq<Square> {
        Seq::new(
            self.food.len(),
            |i: int| square_at(self.grid, screen, self.food[i], Sprite::Food),
        ) + Seq::new(
            self.segments.len(),
            |i: int| square_at(self.grid, screen, self.segments[i], segment_sprite(i)),
        )
    }
}

/// On a cell of a valid grid the offset of a square stays within `i32`:
/// it is at least minus half the side and at most the length of the
/// screen.
proof fn lemma_offset_bounds(cell: int, cells: int, pixels: int, side: int)
    requires
        0 <= cell < cells,
        0 <= pixels <= u16::MAX,
        0 <= side <= 46,
    ensures
        0 <= pixels / cells <= pixels,
        0 <= cell * (pixels / cells) <= pixels - pixels / cells,
        -(side / 2) <= offset(cell, pixels / cells, side) <= pixels,
{
    let tile = pixels / cells;
    assert(0 <= tile <= pixels && tile * cells <= pixels) by (nonlinear_arith)
        requires
            tile == pixels / cells,
            0 <= pixels,
            1 <= cells,
    ;
    assert(0 <= cell * tile <= pixels - tile) by (nonlinear_arith)
        requires
            0 <= cell < cells,
            0 <= tile,
            tile * cells <= pixels,
    ;
}

/// Returns the square that stands for `sprite` on cell `cell`.
fn place(grid: Grid, screen: Screen, cell: Position, sprite: Sprite) -> (r: Square)
    requires
        grid.valid(),
        grid.contains(cell),
    ensures
        r == square_at(grid, screen, cell, sprite),
{
    let side: i32 = sprite.side();
    proof {
        lemma_offset_bounds(cell.x as int, grid.width as int, screen.width as int, side as int);
        lemma_offset_bounds(cell.y as int, grid.height as int, screen.height as int, side as int);
    }
    let tile_w: i32 = screen.width as i32 / grid.width;
    let tile_h: i32 = screen.height as i32 / grid.height;
    Square {
        x: cell.x * tile_w + (tile_w - side / 2) - tile_w / 2,
        y: cell.y * tile_h + (tile_h - side / 2) - tile_h / 2,
        side,
        sprite,
    }
}

impl Game {
    /// Returns what to draw for the game as it is, on a screen of size
    /// `screen`: a square for each entry of the food, then one for each
    /// segment of the snake, the head's larger than the others, each with
    /// its middle on the middle of its cell; and the score.
    pub fn render(&self, screen: Screen) -> (scene: Scene)
        requires
            self@.wf(),
        ensures
            scene.squares@ == self@.squares(screen),
            scene.score == self@.score(),
            scene.squares@.len() == self@.food.len() + self@.segments.len(),
    {
        let grid = self.grid();
        let food = self.food_cells();
        let segments = self.segments();
        let mut squares: Vec<Square> = Vec::new();
        let mut i: usize = 0;
        while i < food.len()
            invariant
                self@.wf(),
                grid == self@.grid,
                food@ == self@.food,
                i <= food.len(),
                squares@ == Seq::new(
                    i as nat,
                    |k: int| square_at(grid, screen, food@[k], Sprite::Food),
                ),
            decreases food.len() - i,
        {
            squares.push(place(grid, screen, food[i], Sprite::Food));
            i += 1;
        }
        let ghost drawn_food = squares@;
        let mut j: usize = 0;
        while j < segments.len()
            invariant
                self@.wf(),
                grid == self@.grid,
                segments@ == self@.segments,
                j <= segments.len(),
                squares@ == drawn_food + Seq::new(
                    j as nat,
                    |k: int| square_at(grid, screen, segments@[k], segment_sprite(k)),
                ),
            decreases segments.len() - j,
        {
            let sprite = if j == 0 {
                Sprite::Head
            } else {
                Sprite::Body
            };
            squares.push(place(grid, screen, segments[j], sprite));
            j += 1;
        }
        Scene { squares, score: self.score() }
    }
}

/// The squares of a frame are as many as the food and the snake have
/// entries; food is drawn smaller than the body and the body smaller than
/// the head; only the snake's first segment is drawn as the head; and the
/// middle of each square is the middle of its cell.
pub proof fn lemma_squares(s: GameState, screen: Screen, i: int)
    requires
        s.wf(),
        0 <= i < s.food.len() + s.segments.len(),
    ensures
        s.squares(screen).len() == s.food.len() + s.segments.len(),
        Sprite::Food.side() < Sprite::Body.side() < Sprite::Head.side(),
        i < s.food.len() ==> s.squares(screen)[i] == square_at(
            s.grid,
            screen,
            s.food[i],
            Sprite::Food,
        ),
        i == s.food.len() ==> s.squares(screen)[i] == square_at(
            s.grid,
            screen,
            s.head(),
            Sprite::Head,
        ),
        i > s.food.len() ==> s.squares(screen)[i] == square_at(
            s.grid,
            screen,
            s.segments[i - s.food.len()],
            Sprite::Body,
        ),
        s.squares(screen)[i].side == s.squares(screen)[i].sprite.side(),
{
}

/// The middle of a square is the middle of its cell: on each axis, the
/// square's corner plus half its side is the cell's first pixel plus half
/// the cell's length, the half rounded up. The square lies at most half
/// its side before the screen's first pixel and starts no later than its
/// last.
pub proof fn lemma_square_centered(grid: Grid, screen: Screen, cell: Position, sprite: Sprite)
    requires
        grid.valid(),
        grid.contains(cell),
    ensures
        ({
            let q = square_at(grid, screen, cell, sprite);
            let tile_w = screen.width as int / grid.width as int;
            let tile_h = screen.height as int / grid.height as int;
            &&& q.x + q.side / 2 == cell.x * tile_w + (tile_w - tile_w / 2)
            &&& q.y + q.side / 2 == cell.y * tile_h + (tile_h - tile_h / 2)
            &&& -(q.side / 2) <= q.x <= screen.width
            &&& -(q.side / 2) <= q.y <= screen.height
        }),
{
    lemma_offset_bounds(cell.x as int, grid.width as int, screen.width as int, sprite.side() as int);
    lemma_offset_bounds(
        cell.y as int,
        grid.height as int,
        screen.height as int,
        sprite.side() as int,
    );
}

} // verus!
