//! The pickup: a single cell that is placed anew from two random draws each
//! time it is consumed.

use vstd::prelude::*;
use crate::board::{Position, BOARD_HEIGHT, BOARD_WIDTH};

verus! {

/// The coordinate that one draw selects on an axis: the magnitude of the draw
/// reduced modulo the bound of the axis.
pub open spec fn axis_cell(draw: int, bound: int) -> int
    recommends
        bound > 0,
{
    (if draw < 0 {
        -draw
    } else {
        draw
    }) % bound
}

/// The cell that a pair of draws selects: the first draw reduced modulo the
/// width of the board gives the column, the second reduced modulo its height
/// gives the row.
pub open spec fn placement(draw_x: i32, draw_y: i32) -> Position {
    Position {
        x: axis_cell(draw_x as int, BOARD_WIDTH as int) as i32,
        y: axis_cell(draw_y as int, BOARD_HEIGHT as int) as i32,
    }
}

/// The cells that a stream of draw pairs selects, in the order of the stream.
pub open spec fn placements(draws: Seq<(i32, i32)>) -> Seq<Position> {
    Seq::new(draws.len(), |i: int| placement(draws[i].0, draws[i].1))
}

/// Reduces one draw to a coordinate below `bound`. The magnitude is taken in
/// a wider type, so the most negative draw is reduced like any other.
pub fn reduce_draw(draw: i32, bound: i32) -> (r: i32)
    requires
        bound > 0,
    ensures
        r == axis_cell(draw as int, bound as int),
        0 <= r < bound,
{
    let wide: i64 = draw as i64;
    let magnitude: i64 = if wide < 0 {
        -wide
    } else {
        wide
    };
    (magnitude % (bound as i64)) as i32
}

/// The pickup that the actor consumes to grow.
#[derive(Clone, Copy, Debug, PartialEq, Eq, Structural)]
pub struct Apple {
    pub position: Position,
}

impl Apple {
    /// The pickup after it was moved with the two draws. Where it lay before
    /// plays no part.
    pub open spec fn relocated(self, draw_x: i32, draw_y: i32) -> Apple {
        Apple { position: placement(draw_x, draw_y) }
    }

    /// Selects a cell from two draws of the random source.
    pub fn pick_random_pos(draw_x: i32, draw_y: i32) -> (r: Position)
        ensures
            r == placement(draw_x, draw_y),
            0 <= r.x < BOARD_WIDTH,
            0 <= r.y < BOARD_HEIGHT,
            r.on_board(),
    {
        let x: i32 = reduce_draw(draw_x, BOARD_WIDTH);
        let y: i32 = reduce_draw(draw_y, BOARD_HEIGHT);
        Position { x, y }
    }

    /// Moves the pickup to the cell that the two draws select. The cells of
    /// the actor are not consulted: the pickup may land on one of them.
    pub fn move_apple(&mut self, draw_x: i32, draw_y: i32)
        ensures
            *final(self) == old(self).relocated(draw_x, draw_y),
            final(self).position.on_board(),
    {
        self.position = Self::pick_random_pos(draw_x, draw_y);
    }

    /// Creates the pickup of a new round at the cell that the two draws
    /// select.
    pub fn new(draw_x: i32, draw_y: i32) -> (r: Apple)
        ensures
            r.position == placement(draw_x, draw_y),
            r.position.on_board(),
    {
        let mut apple = Apple { position: Position { x: 0, y: 0 } };
        apple.move_apple(draw_x, draw_y);
        apple
    }
}

/// Every cell that draws can select lies on the board.
pub proof fn lemma_placement_on_board(draw_x: i32, draw_y: i32)
    ensures
        placement(draw_x, draw_y).on_board(),
        0 <= placement(draw_x, draw_y).x < BOARD_WIDTH,
        0 <= placement(draw_x, draw_y).y < BOARD_HEIGHT,
{
}

/// Every cell of the board can be selected, the last column and the last row
/// included: a cell is selected by its own coordinates as draws, and by their
/// negatives.
pub proof fn lemma_placement_covers_board(cell: Position)
    requires
        cell.on_board(),
    ensures
        placement(cell.x, cell.y) == cell,
        placement((-cell.x) as i32, (-cell.y) as i32) == cell,
{
}

/// Draws that differ by the width of the board on the first axis, or by its
/// height on the second, select the same cell.
pub proof fn lemma_placement_is_periodic(draw_x: i32, draw_y: i32)
    requires
        0 <= draw_x <= i32::MAX - BOARD_WIDTH,
        0 <= draw_y <= i32::MAX - BOARD_HEIGHT,
    ensures
        placement((draw_x + BOARD_WIDTH) as i32, draw_y) == placement(draw_x, draw_y),
        placement(draw_x, (draw_y + BOARD_HEIGHT) as i32) == placement(draw_x, draw_y),
{
}

/// Where the pickup lands depends on the draws alone: two pickups that are
/// moved with the same draws end in the same cell, wherever they lay.
pub proof fn lemma_relocation_ignores_history(a: Apple, b: Apple, draw_x: i32, draw_y: i32)
    ensures
        a.relocated(draw_x, draw_y) == b.relocated(draw_x, draw_y),
{
}

/// Two runs of relocations that are fed the same stream of draws visit the
/// same cells in the same order.
pub proof fn lemma_relocation_deterministic(first: Seq<(i32, i32)>, second: Seq<(i32, i32)>)
    requires
        first == second,
    ensures
        placements(first) == placements(second),
{
}

/// Runs of relocations that are fed streams with a common beginning visit
/// the same cells for as long as the streams agree.
pub proof fn lemma_relocation_follows_stream(
    first: Seq<(i32, i32)>,
    second: Seq<(i32, i32)>,
    agree: nat,
)
    requires
        agree <= first.len(),
        agree <= second.len(),
        forall|i: int| 0 <= i < agree ==> first[i] == second[i],
    ensures
        forall|i: int| 0 <= i < agree ==> placements(first)[i] == placements(second)[i],
{
}

} // verus!
