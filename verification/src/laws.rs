//! What holds of the actor in every state and over every tick, stated over
//! its mathematical view.

use vstd::prelude::*;
use crate::board::{Position, BOARD_MAX_X, BOARD_MAX_Y};
use crate::direction::Direction;
use crate::snake::{SnakeView, TickResult};

verus! {

/// In a well-formed actor no two cells of the chain are the same.
pub proof fn lemma_cells_pairwise_distinct(v: SnakeView)
    requires
        v.wf(),
    ensures
        forall|i: int, j: int| 0 <= i < j < v.cells.len() ==> v.cells[i] != v.cells[j],
{
}

/// In a well-formed actor every cell of the chain lies within the fifteen
/// columns and ten rows of the board.
pub proof fn lemma_cells_within_board(v: SnakeView)
    requires
        v.wf(),
    ensures
        forall|i: int|
            0 <= i < v.cells.len() ==> 0 <= (#[trigger] v.cells[i]).x <= BOARD_MAX_X && 0
                <= v.cells[i].y <= BOARD_MAX_Y,
{
    assert forall|i: int| 0 <= i < v.cells.len() implies 0 <= (#[trigger] v.cells[i]).x
        <= BOARD_MAX_X && 0 <= v.cells[i].y <= BOARD_MAX_Y by {
        assert(v.cells[i].on_board());
    }
}

/// A request keeps the actor well formed.
pub proof fn lemma_request_keeps_wf(v: SnakeView, requested: Direction)
    requires
        v.wf(),
    ensures
        v.request(requested).wf(),
{
}

/// A request for the reverse of the heading changes nothing. With nothing
/// else buffered, the tick that follows keeps the heading, and if the actor
/// survives it the head has moved one cell along that heading.
pub proof fn lemma_reverse_request_dropped(v: SnakeView, pickup: Position)
    requires
        v.wf(),
        v.alive,
        v.pending is None,
    ensures
        v.request(v.heading.reverse()) == v,
        v.request(v.heading.reverse()).step(pickup).heading == v.heading,
        !v.collides() ==> {
            let head = v.request(v.heading.reverse()).step(pickup).cells[0];
            &&& head.x == v.cells[0].x + v.heading.offset().x
            &&& head.y == v.cells[0].y + v.heading.offset().y
        },
{
    assert(v.cells[0].on_board());
}

/// Of several requests before one tick the last one that is not dropped
/// decides the heading of that tick.
pub proof fn lemma_later_request_overwrites(v: SnakeView, first: Direction, second: Direction)
    requires
        second != v.heading.reverse(),
    ensures
        v.request(first).request(second).next_heading() == second,
        v.request(first).request(second) == v.request(second),
{
}

/// The heading never turns into its reverse from one tick to the next.
pub proof fn lemma_heading_never_reverses(v: SnakeView, pickup: Position)
    requires
        v.wf(),
    ensures
        v.step(pickup).heading != v.heading.reverse(),
{
}

/// A step that would take the head off the board is fatal: the tick reports
/// the death, the actor is dead after it and its cells are where they were.
pub proof fn lemma_leaving_board_is_fatal(v: SnakeView, pickup: Position)
    requires
        v.wf(),
        v.alive,
        !v.head_projection().on_board(),
    ensures
        v.outcome(pickup) == TickResult::Died,
        !v.step(pickup).alive,
        v.step(pickup).cells == v.cells,
{
}

/// With the head in the last column and the next step heading right, the
/// tick is fatal and leaves the cells where they were.
pub proof fn lemma_right_wall_is_fatal(v: SnakeView, pickup: Position)
    requires
        v.wf(),
        v.alive,
        v.cells[0].x == BOARD_MAX_X,
        v.next_heading() == Direction::RIGHT,
    ensures
        v.outcome(pickup) == TickResult::Died,
        !v.step(pickup).alive,
        v.step(pickup).cells == v.cells,
{
    assert(v.cells[0].on_board());
}

/// A step that would take the head into a cell of the chain, the tail
/// included, is fatal and leaves the cells where they were.
pub proof fn lemma_self_collision_is_fatal(v: SnakeView, pickup: Position, hit: int)
    requires
        v.wf(),
        v.alive,
        0 <= hit < v.cells.len(),
        v.cells[hit] == v.head_projection(),
    ensures
        v.outcome(pickup) == TickResult::Died,
        !v.step(pickup).alive,
        v.step(pickup).cells == v.cells,
{
}

/// A chain of one cell cannot run into itself: its next step is fatal only
/// if it leaves the board.
pub proof fn lemma_single_cell_dies_only_at_wall(v: SnakeView)
    requires
        v.wf(),
        v.cells.len() == 1,
    ensures
        v.collides() <==> !v.head_projection().on_board(),
{
    if v.cells.contains(v.head_projection()) {
        let i = choose|i: int| 0 <= i < v.cells.len() && v.cells[i] == v.head_projection();
        assert(v.cells[0] == v.head_projection());
    }
}

/// A dead actor does not move any more: every further tick reports the death
/// and leaves the actor as it is.
pub proof fn lemma_death_is_final(v: SnakeView, pickup: Position)
    requires
        !v.alive,
    ensures
        v.step(pickup) == v,
        v.outcome(pickup) == TickResult::Died,
{
}

/// A tick on which the head enters the cell of the pickup makes the chain
/// exactly one cell longer: the head is put in front and every cell stays.
pub proof fn lemma_growth_adds_one_cell(v: SnakeView, pickup: Position)
    requires
        v.wf(),
        v.alive,
        !v.collides(),
        v.head_projection() == pickup,
    ensures
        v.outcome(pickup) == TickResult::GrewAndMoved,
        v.step(pickup).cells == seq![pickup] + v.cells,
        v.step(pickup).cells.len() == v.cells.len() + 1,
        v.step(pickup).alive,
{
}

/// A tick that is neither fatal nor on the pickup keeps the length of the
/// chain: the head is put in front and the tail leaves.
pub proof fn lemma_move_keeps_length(v: SnakeView, pickup: Position)
    requires
        v.wf(),
        v.alive,
        !v.collides(),
        v.head_projection() != pickup,
    ensures
        v.outcome(pickup) == TickResult::Moved,
        v.step(pickup).cells == seq![v.head_projection()] + v.cells.drop_last(),
        v.step(pickup).cells.len() == v.cells.len(),
        v.step(pickup).alive,
{
}

/// Growing behind the tail and then shifting gives the same chain as putting
/// the head in front of the chain as it was: the cell that growth adds takes
/// the place of the old tail, whatever place it was given.
pub proof fn lemma_growth_then_shift(v: SnakeView, head: Position)
    requires
        v.cells.len() >= 2,
    ensures
        seq![head] + v.grown().cells.drop_last() == seq![head] + v.cells,
{
    assert(v.grown().cells.drop_last() =~= v.cells);
}

/// One thing that can happen to the actor.
pub enum Event {
    /// A heading is requested.
    Request(Direction),
    /// A tick passes, with the pickup at the given cell.
    Tick(Position),
    /// A frame of the head animation passes.
    Animate,
}

/// The actor after one event.
pub open spec fn after(v: SnakeView, event: Event) -> SnakeView {
    match event {
        Event::Request(requested) => v.request(requested),
        Event::Tick(pickup) => v.step(pickup),
        Event::Animate => v.animate(),
    }
}

/// The actor after a run of events, the first of them first.
pub open spec fn run(v: SnakeView, events: Seq<Event>) -> SnakeView
    decreases events.len(),
{
    if events.len() == 0 {
        v
    } else {
        after(run(v, events.drop_last()), events.last())
    }
}

/// Every state that a well-formed actor can reach is well formed: whatever
/// is requested of it and wherever the pickup lies at each tick, its chain
/// stays on the board and never holds a cell twice.
pub proof fn lemma_reachable_states_wf(v: SnakeView, events: Seq<Event>)
    requires
        v.wf(),
    ensures
        run(v, events).wf(),
    decreases events.len(),
{
    if events.len() > 0 {
        lemma_reachable_states_wf(v, events.drop_last());
        let before = run(v, events.drop_last());
        match events.last() {
            Event::Request(requested) => {},
            Event::Tick(pickup) => {
                crate::snake::lemma_step_keeps_wf(before, pickup);
            },
            Event::Animate => {
                vstd::arithmetic::div_mod::lemma_mod_bound(
                    before.animation_frame as int + 1,
                    before.animation_period() as int,
                );
            },
        }
    }
}

/// Death is final over every run: a dead actor stays dead, and its chain and
/// its heading stay as they were when it died.
pub proof fn lemma_dead_stays_dead(v: SnakeView, events: Seq<Event>)
    requires
        !v.alive,
    ensures
        !run(v, events).alive,
        run(v, events).cells == v.cells,
        run(v, events).heading == v.heading,
    decreases events.len(),
{
    if events.len() > 0 {
        lemma_dead_stays_dead(v, events.drop_last());
    }
}

/// The chain never gets shorter, and a run of events makes it longer by at
/// most one cell for each tick.
pub proof fn lemma_length_over_run(v: SnakeView, events: Seq<Event>)
    requires
        v.wf(),
    ensures
        v.cells.len() <= run(v, events).cells.len() <= v.cells.len() + events.len(),
    decreases events.len(),
{
    if events.len() > 0 {
        lemma_length_over_run(v, events.drop_last());
        lemma_reachable_states_wf(v, events.drop_last());
    }
}

} // verus!
