//! What the backdrop shows and how its decoration is chosen. The tiles, the
//! palette and the fade itself belong to the display; here are the decisions
//! that the display is asked to carry out.

use vstd::prelude::*;
use crate::board::{SCREEN_HEIGHT, SCREEN_WIDTH, TILE_SIZE};

verus! {

/// What the backdrop shows.
#[derive(Clone, Copy, Debug, PartialEq, Eq, Structural)]
pub enum Mode {
    /// The title picture.
    SPLASH,
    /// The playing field.
    GAME,
}

/// The direction of a fade of the whole screen.
#[derive(Clone, Copy, Debug, PartialEq, Eq, Structural)]
pub enum FadeDirection {
    /// From black to the picture.
    FadeIn,
    /// From the picture to black.
    FadeOut,
}

/// Number of different decoration tiles.
pub const NB_PROPS_TILES: i32 = 3;

/// Out of a hundred tiles of the playing field, how many are decorated on
/// average.
pub const PROPS_PERCENT: i32 = 2;

/// Number of tiles across the screen.
pub const N_TILES_X: u32 = 30;

/// Number of tiles down the screen.
pub const N_TILES_Y: u32 = 20;

impl Mode {
    /// Whether the layer of the title picture is visible in this mode.
    pub open spec fn splash_visible(self) -> bool {
        self == Mode::SPLASH
    }

    /// Tells whether the layer of the title picture is visible in this mode.
    pub fn shows_splash(self) -> (r: bool)
        ensures
            r == self.splash_visible(),
    {
        match self {
            Mode::SPLASH => true,
            Mode::GAME => false,
        }
    }
}

impl FadeDirection {
    /// Whether the screen is black when a fade in this direction starts.
    pub open spec fn begins_black(self) -> bool {
        self == FadeDirection::FadeIn
    }

    /// Tells whether the screen is black when a fade in this direction
    /// starts.
    pub fn starts_black(self) -> (r: bool)
        ensures
            r == self.begins_black(),
    {
        match self {
            FadeDirection::FadeIn => true,
            FadeDirection::FadeOut => false,
        }
    }
}

/// Whether a draw decorates the tile it was made for: its remainder modulo a
/// hundred is below the share of decorated tiles.
pub open spec fn decorates(draw: int) -> bool {
    draw % 100 < PROPS_PERCENT as int
}

/// The decoration tile that a draw selects: its remainder modulo the number
/// of decoration tiles.
pub open spec fn decoration(draw: int) -> int {
    draw % (NB_PROPS_TILES as int)
}

/// Tells whether the tile for which `draw` was made gets a decoration.
pub fn places_prop(draw: i32) -> (r: bool)
    ensures
        r == decorates(draw as int),
{
    match draw.checked_rem_euclid(100) {
        Some(remainder) => remainder < PROPS_PERCENT,
        None => false,
    }
}

/// Picks the decoration tile that `draw` selects.
pub fn prop_tile(draw: i32) -> (r: u16)
    ensures
        r == decoration(draw as int),
        r < NB_PROPS_TILES,
{
    match draw.checked_rem_euclid(NB_PROPS_TILES) {
        Some(remainder) => remainder as u16,
        None => 0,
    }
}

/// The tiles that are considered for decoration cover the screen exactly.
pub proof fn lemma_tiles_cover_screen()
    ensures
        N_TILES_X * TILE_SIZE == SCREEN_WIDTH,
        N_TILES_Y * TILE_SIZE == SCREEN_HEIGHT,
{
}

} // verus!
