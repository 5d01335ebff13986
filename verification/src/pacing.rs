//! The cadence of the game: how many frames pass between two ticks, and the
//! driver that counts them, buffers the input of each frame and advances the
//! actor when the window has elapsed.

use vstd::prelude::*;
use crate::apple::Apple;
use crate::direction::Direction;
use crate::snake::{Snake, SnakeView, TickResult};

verus! {

/// Frames between two ticks for the shortest chains.
pub const BASE_WINDOW: usize = 15;

/// Cells by which the chain has to grow to shorten the window by one frame.
pub const GROWTH_DIVISOR: usize = 5;

/// Frames between two ticks that no chain goes below.
pub const MIN_WINDOW: usize = 3;

/// The number of frames between two ticks for a chain of `length` cells: the
/// base window less one frame for every full five cells, but never less than
/// the minimum.
pub open spec fn window(length: nat) -> nat {
    let shortened = BASE_WINDOW as int - (length / GROWTH_DIVISOR as nat) as int;
    if shortened > MIN_WINDOW as int {
        shortened as nat
    } else {
        MIN_WINDOW as nat
    }
}

/// Computes the number of frames between two ticks for a chain of `length`
/// cells.
pub fn tick_window(length: usize) -> (r: usize)
    ensures
        r == window(length as nat),
        MIN_WINDOW <= r <= BASE_WINDOW,
{
    let ramp: usize = length / GROWTH_DIVISOR;
    if ramp >= BASE_WINDOW - MIN_WINDOW {
        MIN_WINDOW
    } else {
        BASE_WINDOW - ramp
    }
}

/// A longer chain never has a longer window: the game does not slow down as
/// the actor grows.
pub proof fn lemma_window_monotone(shorter: nat, longer: nat)
    requires
        shorter <= longer,
    ensures
        window(longer) <= window(shorter),
        MIN_WINDOW <= window(longer),
        window(shorter) <= BASE_WINDOW,
{
    assert(shorter / 5 <= longer / 5);
}

/// The actor after the input of one frame: a heading that was asked for is
/// requested of it.
pub open spec fn sampled(v: SnakeView, pressed: Option<Direction>) -> SnakeView {
    match pressed {
        Some(requested) => v.request(requested),
        None => v,
    }
}

/// What one frame did.
#[derive(Clone, Copy, Debug, PartialEq, Eq, Structural)]
pub struct FrameReport {
    /// Whether the head shows a new sprite and has to be drawn anew.
    pub redraw: bool,
    /// What the tick reported, if the frame ended a window.
    pub tick: Option<TickResult>,
}

/// Counts the frames of the current window.
#[derive(Debug)]
pub struct TickDriver {
    frames_left: usize,
}

impl View for TickDriver {
    type V = nat;

    /// The number of frames that the current window still lasts.
    closed spec fn view(&self) -> nat {
        self.frames_left as nat
    }
}

impl TickDriver {
    /// Whether the next frame ends the window.
    pub open spec fn due(&self) -> bool {
        self@ <= 1
    }

    /// Starts the first window of a round for a chain of `length` cells.
    pub fn new(length: usize) -> (r: TickDriver)
        ensures
            r@ == window(length as nat),
    {
        TickDriver { frames_left: tick_window(length) }
    }

    /// The number of frames that the current window still lasts.
    pub fn frames_left(&self) -> (r: usize)
        ensures
            r == self@,
    {
        self.frames_left
    }

    /// Plays one frame. The head animation advances; a heading that was asked
    /// for in this frame is requested of the actor. If the frame is the last
    /// of its window the actor is advanced by one tick, whose result is
    /// reported, and a new window starts for the length that the chain has
    /// then. Otherwise the window is one frame shorter and no tick is
    /// reported, so that the actor advances once per window.
    pub fn on_frame(&mut self, snake: &mut Snake, apple: &Apple, pressed: Option<Direction>) -> (r:
        FrameReport)
        requires
            old(snake)@.wf(),
        ensures
            r.redraw == old(snake)@.animate().at_sprite_start(),
            !old(self).due() ==> {
                &&& final(self)@ == old(self)@ - 1
                &&& final(snake)@ == sampled(old(snake)@.animate(), pressed)
                &&& r.tick is None
            },
            old(self).due() ==> {
                &&& final(snake)@ == sampled(old(snake)@.animate(), pressed).step(apple.position)
                &&& r.tick == Some(
                    sampled(old(snake)@.animate(), pressed).outcome(apple.position),
                )
                &&& final(self)@ == window(final(snake)@.cells.len())
            },
            final(snake)@.wf(),
    {
        let redraw = snake.frame_anim();
        match pressed {
            Some(requested) => {
                snake.apply_input(requested);
            },
            None => {},
        }
        if self.frames_left <= 1 {
            let result = snake.frame(apple);
            self.frames_left = tick_window(snake.length());
            FrameReport { redraw, tick: Some(result) }
        } else {
            self.frames_left = self.frames_left - 1;
            FrameReport { redraw, tick: None }
        }
    }
}

} // verus!
