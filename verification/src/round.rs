//! The course of the game: from the title picture to a round, from the round
//! to the death of the actor, and back to the title picture.

use vstd::prelude::*;
use crate::background::{FadeDirection, Mode};
use crate::snake::TickResult;

verus! {

/// Number of cells of the actor at the start of a round.
pub const INITIAL_LENGTH: u32 = 3;

/// Where the game stands.
#[derive(Clone, Copy, Debug, PartialEq, Eq, Structural)]
pub enum Phase {
    /// The title picture is shown; a button starts a round.
    Splash,
    /// A round is played.
    Playing,
    /// The actor has died; a button leads back to the title picture.
    Dead,
}

/// One thing that the display is asked to do when the phase changes.
#[derive(Clone, Copy, Debug, PartialEq, Eq, Structural)]
pub enum Step {
    /// Run a fade of the whole screen to its end.
    Fade(FadeDirection),
    /// Switch the backdrop to a mode.
    Show(Mode),
}

impl Phase {
    /// What the backdrop shows in this phase. The playing field stays on
    /// screen after the death of the actor.
    pub open spec fn mode(self) -> Mode {
        match self {
            Phase::Splash => Mode::SPLASH,
            Phase::Playing => Mode::GAME,
            Phase::Dead => Mode::GAME,
        }
    }

    /// The phase after any button went down: the title picture gives way to
    /// a round, the dead actor to the title picture; a round goes on.
    pub open spec fn after_button(self) -> Phase {
        match self {
            Phase::Splash => Phase::Playing,
            Phase::Playing => Phase::Playing,
            Phase::Dead => Phase::Splash,
        }
    }

    /// The phase after a tick reported `result`: a round ends with the death
    /// of the actor and with nothing else.
    pub open spec fn after_tick(self, result: TickResult) -> Phase {
        if self == Phase::Playing && result == TickResult::Died {
            Phase::Dead
        } else {
            self
        }
    }

    /// The phase in which the game starts.
    pub fn initial() -> (r: Phase)
        ensures
            r == Phase::Splash,
    {
        Phase::Splash
    }

    /// Tells what the backdrop shows in this phase.
    pub fn shown_mode(self) -> (r: Mode)
        ensures
            r == self.mode(),
    {
        match self {
            Phase::Splash => Mode::SPLASH,
            Phase::Playing => Mode::GAME,
            Phase::Dead => Mode::GAME,
        }
    }

    /// The phase after any button went down.
    pub fn on_any_button(self) -> (r: Phase)
        ensures
            r == self.after_button(),
    {
        match self {
            Phase::Splash => Phase::Playing,
            Phase::Playing => Phase::Playing,
            Phase::Dead => Phase::Splash,
        }
    }

    /// The phase after a tick reported `result`.
    pub fn on_tick(self, result: TickResult) -> (r: Phase)
        ensures
            r == self.after_tick(result),
    {
        match (self, result) {
            (Phase::Playing, TickResult::Died) => Phase::Dead,
            _ => self,
        }
    }
}

/// What the display does when the backdrop changes from `from` to `to`: with
/// the mode unchanged, nothing; otherwise it fades out, switches and fades in
/// again.
pub open spec fn switch_steps(from: Mode, to: Mode) -> Seq<Step> {
    if from == to {
        Seq::empty()
    } else {
        seq![Step::Fade(FadeDirection::FadeOut), Step::Show(to), Step::Fade(FadeDirection::FadeIn)]
    }
}

/// What the display does when the game is started: it shows the backdrop of
/// the first phase at once.
pub fn opening_steps() -> (r: Vec<Step>)
    ensures
        r@ == seq![Step::Show(Phase::Splash.mode())],
{
    let mut steps: Vec<Step> = Vec::new();
    steps.push(Step::Show(Phase::initial().shown_mode()));
    assert(steps@ =~= seq![Step::Show(Phase::Splash.mode())]);
    steps
}

/// What the display does when the phase changes from `from` to `to`.
pub fn transition_steps(from: Phase, to: Phase) -> (r: Vec<Step>)
    ensures
        r@ == switch_steps(from.mode(), to.mode()),
{
    let mut steps: Vec<Step> = Vec::new();
    let target = to.shown_mode();
    if from.shown_mode() != target {
        steps.push(Step::Fade(FadeDirection::FadeOut));
        steps.push(Step::Show(target));
        steps.push(Step::Fade(FadeDirection::FadeIn));
    }
    assert(steps@ =~= switch_steps(from.mode(), to.mode()));
    steps
}

/// The phases follow one another in a circle: a button leads from the title
/// picture to a round, only the death of the actor ends the round, and a
/// button then leads back to the title picture.
pub proof fn lemma_phase_cycle(result: TickResult)
    ensures
        Phase::Splash.after_button() == Phase::Playing,
        Phase::Playing.after_tick(TickResult::Died) == Phase::Dead,
        Phase::Dead.after_button() == Phase::Splash,
        result != TickResult::Died ==> Phase::Playing.after_tick(result) == Phase::Playing,
        Phase::Splash.after_tick(result) == Phase::Splash,
        Phase::Dead.after_tick(result) == Phase::Dead,
        Phase::Playing.after_button() == Phase::Playing,
{
}

/// The screen fades exactly when what the backdrop shows changes: on the way
/// into a round and on the way back to the title picture, not at the death
/// of the actor.
pub proof fn lemma_fades_frame_mode_changes(from: Phase, to: Phase)
    ensures
        switch_steps(from.mode(), to.mode()).len() == 0 <==> from.mode() == to.mode(),
        switch_steps(Phase::Playing.mode(), Phase::Dead.mode()).len() == 0,
        switch_steps(Phase::Splash.mode(), Phase::Playing.mode()) == seq![
            Step::Fade(FadeDirection::FadeOut),
            Step::Show(Mode::GAME),
            Step::Fade(FadeDirection::FadeIn),
        ],
        switch_steps(Phase::Dead.mode(), Phase::Splash.mode()) == seq![
            Step::Fade(FadeDirection::FadeOut),
            Step::Show(Mode::SPLASH),
            Step::Fade(FadeDirection::FadeIn),
        ],
{
}

} // verus!
