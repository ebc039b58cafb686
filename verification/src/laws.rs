//! Properties of the rules, proved of every well-formed state.

use vstd::prelude::*;
use crate::direction::{lemma_opposite_involution, Direction, Key};
use crate::grid::Position;
use crate::state::{first_index, lemma_first_index, GameState};

verus! {

/// Every rule leads from a well-formed state to a well-formed state.
pub proof fn lemma_rules_keep_wf(s: GameState, requested: Direction, key: Option<Key>, p: Position)
    requires
        s.wf(),
    ensures
        GameState::initial(s.grid).wf(),
        s.reset().wf(),
        s.turned(requested).wf(),
        s.pressed(key).wf(),
        s.eaten().wf(),
        s.moved().wf(),
        s.ticked().wf(),
        s.fed(p).wf(),
{
    if s.can_eat() {
        lemma_first_index(s.food, s.head());
    }
    let e = s.eaten();
    assert(e.wf());
    assert(e.moved().wf());
}

/// A request changes the direction to the one asked for exactly when that
/// one is not the reverse of the current direction; a request for the
/// reverse changes nothing. The snake and the food are never touched.
pub proof fn lemma_turned(s: GameState, requested: Direction)
    ensures
        s.turned(requested).dir == requested <==> requested != s.dir.opposite(),
        requested == s.dir.opposite() ==> s.turned(requested) == s,
        s.turned(requested).segments == s.segments,
        s.turned(requested).food == s.food,
        s.turned(requested).tail == s.tail,
        s.turned(requested).grid == s.grid,
{
    lemma_opposite_involution(s.dir);
}

/// A reset leaves exactly two segments, both in the middle of the grid,
/// and no food. It does not depend on where the snake or the food were.
pub proof fn lemma_reset(s: GameState)
    requires
        s.wf(),
    ensures
        s.reset().segments.len() == 2,
        s.reset().segments[0] == s.grid.center(),
        s.reset().segments[1] == s.grid.center(),
        s.reset().segments[0].x == s.grid.width / 2,
        s.reset().segments[0].y == s.grid.height / 2,
        s.reset().food.len() == 0,
        s.reset().score() == 0,
        s.reset().dir == s.dir,
        s.reset().reset() == s.reset(),
{
}

/// A move that is not blocked keeps the number of segments; the new head
/// is the cell ahead of the old head and shares an edge with it; every
/// other segment is where the one before it was.
pub proof fn lemma_advance_keeps_length(s: GameState)
    requires
        s.wf(),
        !s.blocked(),
    ensures
        s.moved() == s.advanced(),
        s.moved().segments.len() == s.segments.len(),
        s.moved().score() == s.score(),
        s.moved().head() == s.candidate(),
        s.moved().head() != s.head(),
        s.moved().head().touches(s.head()),
        s.moved().tail == s.segments.last(),
        forall|i: int| 1 <= i < s.segments.len() ==> s.moved().segments[i] == s.segments[i - 1],
{
}

/// A move resets the game exactly when it is blocked: when the cell ahead
/// of the head lies off the grid or is one that a segment occupies before
/// the move. The two outcomes cannot be confused: after a reset the first
/// two segments share a cell, after an advance they do not.
pub proof fn lemma_move_resets_iff_blocked(s: GameState)
    requires
        s.wf(),
    ensures
        s.moved() == s.reset() <==> s.blocked(),
        s.moved() == s.advanced() <==> !s.blocked(),
        s.blocked() <==> !s.grid.contains(s.candidate()) || exists|i: int|
            0 <= i < s.segments.len() && s.segments[i] == s.candidate(),
        s.reset().segments[0] == s.reset().segments[1],
        !s.blocked() ==> s.advanced().segments[0] != s.advanced().segments[1],
{
    if !s.blocked() {
        assert(s.segments.contains(s.segments[0]));
        assert(s.advanced().segments[1] == s.segments[0]);
    }
}

/// A snake in which each segment touches the next is still one after a
/// move, blocked or not.
pub proof fn lemma_move_keeps_path(s: GameState)
    requires
        s.wf(),
        s.is_path(),
    ensures
        s.moved().is_path(),
        s.reset().is_path(),
{
    if !s.blocked() {
        let a = s.advanced();
        assert forall|i: int| 0 <= i < a.segments.len() - 1 implies (#[trigger] a.segments[i]).touches(
            a.segments[i + 1],
        ) by {
            if i >= 1 {
                assert(s.segments[i - 1].touches(s.segments[i]));
            }
        }
    }
}

/// A snake whose segments lie on cells of their own still has that
/// property after a move that is not blocked, and the cell that the last
/// segment left is then free of the snake.
pub proof fn lemma_advance_keeps_distinct(s: GameState)
    requires
        s.wf(),
        !s.blocked(),
        s.segments.no_duplicates(),
    ensures
        s.moved().segments.no_duplicates(),
        !s.moved().segments.contains(s.moved().tail),
{
    let a = s.advanced();
    assert forall|i: int, j: int|
        0 <= i < a.segments.len() && 0 <= j < a.segments.len() && i != j implies a.segments[i]
        != a.segments[j] by {
        if i == 0 {
            assert(s.segments.contains(s.segments[j - 1]));
        } else if j == 0 {
            assert(s.segments.contains(s.segments[i - 1]));
        }
    }
    assert(s.segments.contains(s.segments.last()));
}

/// Eating takes at most one entry from the food, and only one that lies
/// under the head: the oldest such entry. When it takes one, the snake
/// grows by one segment, which is the remembered tail, and every other
/// entry of the food stays, in its order.
pub proof fn lemma_eaten(s: GameState)
    requires
        s.wf(),
    ensures
        !s.can_eat() ==> s.eaten() == s,
        s.can_eat() ==> {
            let k = first_index(s.food, s.head());
            &&& 0 <= k < s.food.len()
            &&& s.food[k] == s.head()
            &&& s.eaten().food == s.food.remove(k)
            &&& s.eaten().food.len() == s.food.len() - 1
            &&& s.eaten().segments.len() == s.segments.len() + 1
            &&& s.eaten().segments.last() == s.tail
            &&& s.eaten().segments.drop_last() == s.segments
            &&& s.eaten().score() == s.score() + 1
        },
        s.food.len() - 1 <= s.eaten().food.len() <= s.food.len(),
        s.eaten().head() == s.head(),
{
    if s.can_eat() {
        lemma_first_index(s.food, s.head());
        assert(s.eaten().segments.drop_last() =~= s.segments);
    }
}

/// Food offered on a cell of the grid becomes the newest entry, behind
/// all that were there, whether or not the cell already holds food or a
/// segment; a cell off the grid is refused. Food offered under the head is
/// there to eat, and eating then makes the snake one segment longer.
pub proof fn lemma_fed(s: GameState, p: Position)
    requires
        s.wf(),
    ensures
        s.grid.contains(p) ==> s.fed(p).food == s.food.push(p),
        s.grid.contains(p) ==> s.fed(p).fed(p).food.len() == s.food.len() + 2,
        !s.grid.contains(p) ==> s.fed(p) == s,
        s.fed(p).segments == s.segments,
        s.fed(s.head()).can_eat(),
        s.fed(s.head()).eaten().segments == s.segments.push(s.tail),
        s.fed(s.head()).eaten().food.len() == s.food.len(),
        !s.can_eat() ==> s.fed(s.head()).eaten().food == s.food,
{
    let f = s.fed(s.head());
    assert(f.food[s.food.len() as int] == s.head());
    lemma_first_index(f.food, f.head());
    if !s.can_eat() {
        let k = first_index(f.food, f.head());
        if k < s.food.len() {
            assert(s.food[k] == s.head());
        }
        assert(f.food.remove(k) =~= s.food);
    }
}

/// A movement tick eats before it moves, so food under the head counts
/// at this tick: where the move that follows is not blocked, the snake is
/// one segment longer after the tick, and its last segment is where its
/// last segment was before. Without food under the head an unblocked tick
/// keeps the length.
pub proof fn lemma_tick_grows(s: GameState)
    requires
        s.wf(),
        !s.eaten().blocked(),
    ensures
        s.can_eat() ==> s.ticked().segments.len() == s.segments.len() + 1,
        s.can_eat() ==> s.ticked().segments.last() == s.segments.last(),
        s.can_eat() ==> s.ticked().tail == s.tail,
        !s.can_eat() ==> s.ticked().segments.len() == s.segments.len(),
        s.ticked().head() == s.candidate(),
{
    lemma_eaten(s);
}

} // verus!
