//! Headings and how a request for a new heading is resolved.

use vstd::prelude::*;
use crate::board::Position;

verus! {

/// One of the four headings the actor can take.
#[derive(Clone, Copy, Debug, PartialEq, Eq, Structural)]
pub enum Direction {
    UP,
    DOWN,
    LEFT,
    RIGHT,
}

impl Direction {
    /// The heading that points the opposite way.
    pub open spec fn reverse(self) -> Direction {
        match self {
            Direction::UP => Direction::DOWN,
            Direction::DOWN => Direction::UP,
            Direction::LEFT => Direction::RIGHT,
            Direction::RIGHT => Direction::LEFT,
        }
    }

    /// The unit displacement of one step along the heading. Rows grow downwards.
    pub open spec fn offset(self) -> Position {
        match self {
            Direction::UP => Position { x: 0, y: -1i32 },
            Direction::DOWN => Position { x: 0, y: 1 },
            Direction::LEFT => Position { x: -1i32, y: 0 },
            Direction::RIGHT => Position { x: 1, y: 0 },
        }
    }

    /// The heading asked for by the directional buttons that went down in one
    /// frame: the first of up, down, left, right that is pressed.
    pub open spec fn pressed(up: bool, down: bool, left: bool, right: bool) -> Option<Direction> {
        if up {
            Some(Direction::UP)
        } else if down {
            Some(Direction::DOWN)
        } else if left {
            Some(Direction::LEFT)
        } else if right {
            Some(Direction::RIGHT)
        } else {
            None
        }
    }

    /// Returns the heading that points the opposite way.
    pub fn opposite(self) -> (r: Direction)
        ensures
            r == self.reverse(),
    {
        match self {
            Direction::UP => Direction::DOWN,
            Direction::DOWN => Direction::UP,
            Direction::LEFT => Direction::RIGHT,
            Direction::RIGHT => Direction::LEFT,
        }
    }

    /// Picks the heading asked for in one frame from the four directional
    /// buttons, `None` when none of them went down.
    pub fn from_pressed(up: bool, down: bool, left: bool, right: bool) -> (r: Option<Direction>)
        ensures
            r == Direction::pressed(up, down, left, right),
    {
        if up {
            Some(Direction::UP)
        } else if down {
            Some(Direction::DOWN)
        } else if left {
            Some(Direction::LEFT)
        } else if right {
            Some(Direction::RIGHT)
        } else {
            None
        }
    }
}

/// Reversing a heading twice gives it back, and a heading is never its own
/// reverse.
pub proof fn lemma_reverse_involution(d: Direction)
    ensures
        d.reverse().reverse() == d,
        d.reverse() != d,
{
}

/// A step along a heading followed by a step along its reverse leads back.
pub proof fn lemma_reverse_offset_cancels(d: Direction)
    ensures
        d.offset().x + d.reverse().offset().x == 0,
        d.offset().y + d.reverse().offset().y == 0,
{
}

} // verus!
