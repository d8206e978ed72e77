//! What holds of every snake, stated over the step relations that the
//! operations of the snake guarantee.

use vstd::prelude::*;
use crate::grid::{Coord, Direction, FieldSize, SnakeError};
use crate::snake::Snake;

verus! {

/// The middle of a valid field is the extent halved and rounded up, on each
/// axis, and so at least 1.
pub proof fn lemma_center_rounds_up(field_size: FieldSize)
    requires
        field_size.wf(),
    ensures
        ({
            let middle = Coord::spec_centered(field_size);
            &&& 2 * middle.x == field_size.cols || 2 * middle.x == field_size.cols + 1
            &&& 2 * middle.y == field_size.rows || 2 * middle.y == field_size.rows + 1
            &&& middle.x >= 1
            &&& middle.y >= 1
        }),
{
}

/// A snake spawned into a valid field is valid, and what is read of it is
/// the one middle cell of the field.
pub proof fn lemma_spawn_reads_center(snake: Snake, field_size: FieldSize, cells: Seq<Coord>)
    requires
        field_size.wf(),
        snake.is_spawn_of(field_size),
        cells == snake@,
    ensures
        snake.wf(),
        cells == seq![Coord::spec_centered(field_size)],
        cells.len() == 1,
        snake.size == 1,
{
}

/// Two reads of the body with no change of the snake in between give the
/// same cells.
pub proof fn lemma_read_twice(snake: Snake, first: Seq<Coord>, second: Seq<Coord>)
    requires
        first == snake@,
        second == snake@,
    ensures
        first == second,
{
}

/// Growing keeps a snake valid and adds one cell in front of the old body.
pub proof fn lemma_grow_adds_head(before: Snake, after: Snake)
    requires
        before.wf(),
        before.grows_into(after),
    ensures
        after.wf(),
        after@.len() == before@.len() + 1,
        after.head_cell().x == before.head_cell().x + before.direction.dx(),
        after.head_cell().y == before.head_cell().y + before.direction.dy(),
        after@.subrange(1, after@.len() as int) == before@,
{
    assert(after@.subrange(1, after@.len() as int) =~= before@);
}

/// Along any run of growth steps, the snake reached after `n` steps is
/// valid, has `n` cells more than the first, and its head lies `n` unit
/// steps from the first head in the direction that the run keeps. For a run
/// that starts at a fresh snake this is a size of `1 + n`.
pub proof fn lemma_growth_counts(run: Seq<Snake>, n: int)
    requires
        run.len() >= 1,
        run[0].wf(),
        forall|i: int| 0 <= i < run.len() - 1 ==> (#[trigger] run[i]).grows_into(run[i + 1]),
        0 <= n < run.len(),
    ensures
        run[n].wf(),
        run[n].size == run[0].size + n,
        run[n]@.len() == run[0]@.len() + n,
        run[n].direction == run[0].direction,
        run[n].head_cell().x == run[0].head_cell().x + n * run[0].direction.dx(),
        run[n].head_cell().y == run[0].head_cell().y + n * run[0].direction.dy(),
    decreases n,
{
    if n > 0 {
        lemma_growth_counts(run, n - 1);
        assert(run[n - 1].grows_into(run[n - 1 + 1]));
        lemma_grow_adds_head(run[n - 1], run[n]);
        let d = run[0].direction;
        assert((n - 1) * d.dx() + d.dx() == n * d.dx()) by (nonlinear_arith);
        assert((n - 1) * d.dy() + d.dy() == n * d.dy()) by (nonlinear_arith);
    }
}

/// Shrinking keeps a snake valid and never takes the head: every cell that
/// stays keeps its place.
pub proof fn lemma_shrink_keeps_head(before: Snake, after: Snake)
    requires
        before.wf(),
        before.shrinks_into(after),
    ensures
        after.wf(),
        after.head_cell() == before.head_cell(),
        forall|i: int| 0 <= i < after@.len() ==> after@[i] == before@[i],
        before.size > 1 ==> after@.len() == before@.len() - 1,
        before.size == 1 ==> after@ == before@,
{
}

/// A move that succeeds keeps the snake valid and its size, puts the head
/// one unit step further in the direction asked for, and lets every other
/// cell take the place of the cell that was before it.
pub proof fn lemma_move_shifts_body(
    before: Snake,
    direction: Direction,
    after: Snake,
    outcome: Result<(), SnakeError>,
)
    requires
        before.wf(),
        before.moves_into(direction, after, outcome),
        outcome is Ok,
    ensures
        after.wf(),
        after.size == before.size,
        after@.len() == before@.len(),
        after.head_cell().x == before.head_cell().x + direction.dx(),
        after.head_cell().y == before.head_cell().y + direction.dy(),
        after.head_cell().spec_within(before.field_size),
        forall|i: int| 1 <= i < after@.len() ==> after@[i] == before@[i - 1],
{
}

/// After a move that succeeds, the cell that the tail was on is free,
/// provided that no other cell of the body lay on it and the head did not
/// step onto it.
pub proof fn lemma_move_vacates_tail(
    before: Snake,
    direction: Direction,
    after: Snake,
    outcome: Result<(), SnakeError>,
)
    requires
        before.wf(),
        before.moves_into(direction, after, outcome),
        outcome is Ok,
        before.size > 1,
        !before@.drop_last().contains(before@.last()),
        before.head_after(direction) != Some(before@.last()),
    ensures
        !after@.contains(before@.last()),
{
    let tail = before@.last();
    if after@.contains(tail) {
        let i = choose|i: int| 0 <= i < after@.len() && after@[i] == tail;
        if i > 0 {
            assert(before@.drop_last()[i - 1] == tail);
        }
    }
}

/// A move reports a collision exactly when the step leaves the field, and
/// then the body and the size are what they were.
pub proof fn lemma_collision_keeps_body(
    before: Snake,
    direction: Direction,
    after: Snake,
    outcome: Result<(), SnakeError>,
)
    requires
        before.wf(),
        before.moves_into(direction, after, outcome),
    ensures
        after.wf(),
        outcome is Ok <==> before.can_advance(direction),
        outcome is Err ==> outcome == Err::<(), SnakeError>(SnakeError::BoundaryCollision)
            && after@ == before@ && after.size == before.size,
        after.direction == direction,
{
}

/// On the field of one row and one column, a fresh snake collides whichever
/// way it is moved.
pub proof fn lemma_unit_field_collides(
    snake: Snake,
    direction: Direction,
    after: Snake,
    outcome: Result<(), SnakeError>,
)
    requires
        snake.is_spawn_of(FieldSize { rows: 1, cols: 1 }),
        snake.moves_into(direction, after, outcome),
    ensures
        !snake.can_advance(direction),
        outcome == Err::<(), SnakeError>(SnakeError::BoundaryCollision),
        after@ == snake@,
{
}

} // verus!
