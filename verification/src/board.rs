//! Board geometry: the fixed grid on which the game is played.

use vstd::prelude::*;

verus! {

/// Width of the screen in pixels.
pub const SCREEN_WIDTH: i32 = 240;

/// Height of the screen in pixels.
pub const SCREEN_HEIGHT: i32 = 160;

/// Side of a background tile in pixels.
pub const TILE_SIZE: i32 = 8;

/// Side of a board cell in pixels.
pub const OBJECTS_SIZE: i32 = 16;

/// Number of columns of the board: the whole cells that fit across the
/// screen.
pub const BOARD_WIDTH: i32 = 15;

/// Number of rows of the board: the whole cells that fit down the screen.
pub const BOARD_HEIGHT: i32 = 10;

/// Smallest column of the board.
pub const BOARD_MIN_X: i32 = 0;

/// Largest column of the board.
pub const BOARD_MAX_X: i32 = 14;

/// Smallest row of the board.
pub const BOARD_MIN_Y: i32 = 0;

/// Largest row of the board.
pub const BOARD_MAX_Y: i32 = 9;

/// A cell of the grid, or a displacement between two cells.
#[derive(Clone, Copy, Debug, PartialEq, Eq, Structural)]
pub struct Position {
    pub x: i32,
    pub y: i32,
}

impl Position {
    /// Whether the cell lies on the board.
    pub open spec fn on_board(self) -> bool {
        &&& BOARD_MIN_X <= self.x <= BOARD_MAX_X
        &&& BOARD_MIN_Y <= self.y <= BOARD_MAX_Y
    }

    /// The cell reached from `self` by the displacement `by`.
    pub open spec fn plus(self, by: Position) -> Position
        recommends
            i32::MIN <= self.x + by.x <= i32::MAX,
            i32::MIN <= self.y + by.y <= i32::MAX,
    {
        Position { x: (self.x + by.x) as i32, y: (self.y + by.y) as i32 }
    }

    /// The displacement that leads from `from` to `self`.
    pub open spec fn minus(self, from: Position) -> Position
        recommends
            i32::MIN <= self.x - from.x <= i32::MAX,
            i32::MIN <= self.y - from.y <= i32::MAX,
    {
        Position { x: (self.x - from.x) as i32, y: (self.y - from.y) as i32 }
    }

    /// The top-left pixel of the cell on the screen.
    pub open spec fn pixels(self) -> Position
        recommends
            i32::MIN <= self.x * OBJECTS_SIZE <= i32::MAX,
            i32::MIN <= self.y * OBJECTS_SIZE <= i32::MAX,
    {
        Position { x: (self.x * OBJECTS_SIZE) as i32, y: (self.y * OBJECTS_SIZE) as i32 }
    }

    /// Tells whether the cell lies on the board.
    pub fn is_on_board(self) -> (r: bool)
        ensures
            r == self.on_board(),
    {
        BOARD_MIN_X <= self.x && self.x <= BOARD_MAX_X && BOARD_MIN_Y <= self.y && self.y
            <= BOARD_MAX_Y
    }

    /// Moves the cell by a displacement.
    pub fn offset_by(self, by: Position) -> (r: Position)
        requires
            i32::MIN <= self.x + by.x <= i32::MAX,
            i32::MIN <= self.y + by.y <= i32::MAX,
        ensures
            r == self.plus(by),
            r.x == self.x + by.x,
            r.y == self.y + by.y,
    {
        Position { x: self.x + by.x, y: self.y + by.y }
    }

    /// The displacement that leads from `from` to this cell.
    pub fn offset_from(self, from: Position) -> (r: Position)
        requires
            i32::MIN <= self.x - from.x <= i32::MAX,
            i32::MIN <= self.y - from.y <= i32::MAX,
        ensures
            r == self.minus(from),
            r.x == self.x - from.x,
            r.y == self.y - from.y,
    {
        Position { x: self.x - from.x, y: self.y - from.y }
    }

    /// The top-left pixel at which a sprite for this cell is drawn.
    pub fn to_pixels(self) -> (r: Position)
        requires
            i32::MIN <= self.x * OBJECTS_SIZE <= i32::MAX,
            i32::MIN <= self.y * OBJECTS_SIZE <= i32::MAX,
        ensures
            r == self.pixels(),
            r.x == self.x * 16,
            r.y == self.y * 16,
    {
        Position { x: self.x * OBJECTS_SIZE, y: self.y * OBJECTS_SIZE }
    }
}

/// The board is the screen divided into cells: it has as many columns and
/// rows as whole cells fit, counted from zero, which makes fifteen columns
/// and ten rows.
pub proof fn lemma_board_extent()
    ensures
        BOARD_WIDTH == SCREEN_WIDTH / OBJECTS_SIZE,
        BOARD_HEIGHT == SCREEN_HEIGHT / OBJECTS_SIZE,
        BOARD_MAX_X == BOARD_WIDTH - 1,
        BOARD_MAX_Y == BOARD_HEIGHT - 1,
        forall|p: Position| p.on_board() <==> (0 <= p.x < BOARD_WIDTH && 0 <= p.y < BOARD_HEIGHT),
{
}

} // verus!
