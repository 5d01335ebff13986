//! The actor: a chain of cells that moves one step per tick, grows when it
//! consumes the pickup and dies when it leaves the board or runs into itself.

use vstd::prelude::*;
use crate::apple::Apple;
use crate::board::Position;
pub use crate::direction::Direction;

verus! {

/// Column of the head at the start of a round.
pub const START_X: i32 = 5;

/// Row of the whole chain at the start of a round.
pub const START_Y: i32 = 5;

/// The longest chain that a round can start with: the cells from the
/// starting column to the left wall.
pub const MAX_START_LENGTH: u32 = 6;

/// Number of frames for which each sprite of the head animation is shown.
pub const ANIMATION_SLOWDOWN_FACTOR: usize = 10;

/// What one tick did to the actor.
#[derive(Clone, Copy, Debug, PartialEq, Eq, Structural)]
pub enum TickResult {
    /// The actor moved one cell.
    Moved,
    /// The actor hit a wall or itself, or was dead already.
    Died,
    /// The actor moved onto the pickup and is one cell longer.
    GrewAndMoved,
}

/// Why an actor could not be constructed.
#[derive(Clone, Copy, Debug, PartialEq, Eq, Structural)]
pub enum ConfigError {
    /// The requested chain is empty, does not fit on the board, holds a cell
    /// twice, or the head animation has no usable number of sprites.
    InvalidConfiguration,
}

/// The actor as a mathematical value.
pub struct SnakeView {
    /// The cells of the chain, head first.
    pub cells: Seq<Position>,
    /// The heading of the last step.
    pub heading: Direction,
    /// The heading requested for the next step, if any.
    pub pending: Option<Direction>,
    /// Whether the actor still moves.
    pub alive: bool,
    /// The position within the head animation.
    pub animation_frame: nat,
    /// The number of sprites of the head animation.
    pub head_frames: nat,
}

impl SnakeView {
    /// The number of frames after which the head animation repeats.
    pub open spec fn animation_period(self) -> nat {
        self.head_frames * ANIMATION_SLOWDOWN_FACTOR as nat
    }

    /// What holds of every actor: the chain is not empty, lies on the board
    /// and holds no cell twice; the buffered request is not the reverse of
    /// the heading; the animation position lies within its period.
    pub open spec fn wf(self) -> bool {
        &&& self.cells.len() >= 1
        &&& forall|i: int| 0 <= i < self.cells.len() ==> (#[trigger] self.cells[i]).on_board()
        &&& self.cells.no_duplicates()
        &&& self.pending != Some(self.heading.reverse())
        &&& self.head_frames >= 1
        &&& self.animation_period() <= usize::MAX
        &&& self.animation_frame < self.animation_period()
    }

    /// The actor after a request for the heading `requested`: the request is
    /// buffered, replacing an earlier one, unless it is the reverse of the
    /// heading, in which case nothing changes.
    pub open spec fn request(self, requested: Direction) -> SnakeView {
        if requested == self.heading.reverse() {
            self
        } else {
            SnakeView { pending: Some(requested), ..self }
        }
    }

    /// The heading of the next step: the buffered request if there is one.
    pub open spec fn next_heading(self) -> Direction {
        match self.pending {
            Some(requested) => requested,
            None => self.heading,
        }
    }

    /// The cell that the head enters with the next step.
    pub open spec fn head_projection(self) -> Position {
        self.cells[0].plus(self.next_heading().offset())
    }

    /// Whether the next step is fatal: the head would leave the board or
    /// enter a cell of the chain as it lies before the step.
    pub open spec fn collides(self) -> bool {
        !self.head_projection().on_board() || self.cells.contains(self.head_projection())
    }

    /// The actor one animation frame later.
    pub open spec fn animate(self) -> SnakeView {
        SnakeView {
            animation_frame: (self.animation_frame + 1) % self.animation_period(),
            ..self
        }
    }

    /// Whether the animation stands at the first frame of a sprite.
    pub open spec fn at_sprite_start(self) -> bool {
        self.animation_frame % ANIMATION_SLOWDOWN_FACTOR as nat == 0
    }

    /// The chain with one more cell at the tail, placed where the tail would
    /// be had it come one step further along the line of the last two cells.
    pub open spec fn grown(self) -> SnakeView
        recommends
            self.cells.len() >= 2,
    {
        let tail = self.cells[self.cells.len() - 1];
        let before_tail = self.cells[self.cells.len() - 2];
        SnakeView { cells: self.cells.push(tail.plus(tail.minus(before_tail))), ..self }
    }

    /// What the next tick reports, with the pickup at `pickup`.
    pub open spec fn outcome(self, pickup: Position) -> TickResult {
        if !self.alive || self.collides() {
            TickResult::Died
        } else if self.head_projection() == pickup {
            TickResult::GrewAndMoved
        } else {
            TickResult::Moved
        }
    }

    /// The actor after the next tick, with the pickup at `pickup`.
    ///
    /// A dead actor stays as it is. Otherwise the buffered request becomes the
    /// heading. If the step is fatal the actor dies where it lies. If not, the
    /// head enters the projected cell and every other cell takes the place of
    /// the one before it; on the pickup the old tail stays as well, so the
    /// chain is one longer. A step that succeeds advances the animation.
    pub open spec fn step(self, pickup: Position) -> SnakeView {
        if !self.alive {
            self
        } else if self.collides() {
            SnakeView { heading: self.next_heading(), pending: None, alive: false, ..self }
        } else {
            let followers = if self.head_projection() == pickup {
                self.cells
            } else {
                self.cells.drop_last()
            };
            (SnakeView {
                cells: seq![self.head_projection()] + followers,
                heading: self.next_heading(),
                pending: None,
                ..self
            }).animate()
        }
    }
}

/// The actor of the game.
#[derive(Debug)]
pub struct Snake {
    body: Vec<Position>,
    direction: Direction,
    pending: Option<Direction>,
    animation_frame: usize,
    head_frames: usize,
    is_alive: bool,
}

impl View for Snake {
    type V = SnakeView;

    closed spec fn view(&self) -> SnakeView {
        SnakeView {
            cells: self.body@,
            heading: self.direction,
            pending: self.pending,
            alive: self.is_alive,
            animation_frame: self.animation_frame as nat,
            head_frames: self.head_frames as nat,
        }
    }
}

impl Snake {
    /// The number of cells of the chain.
    pub fn length(&self) -> (r: usize)
        ensures
            r == self@.cells.len(),
    {
        self.body.len()
    }

    /// Whether the actor still moves.
    pub fn is_alive(&self) -> (r: bool)
        ensures
            r == self@.alive,
    {
        self.is_alive
    }

    /// The heading of the last step.
    pub fn heading(&self) -> (r: Direction)
        ensures
            r == self@.heading,
    {
        self.direction
    }

    /// The heading requested for the next step, if any.
    pub fn pending_heading(&self) -> (r: Option<Direction>)
        ensures
            r == self@.pending,
    {
        self.pending
    }

    /// The cells of the chain, head first.
    pub fn cells(&self) -> (r: &Vec<Position>)
        ensures
            r@ == self@.cells,
    {
        &self.body
    }

    /// The cell of the head.
    pub fn head(&self) -> (r: Position)
        requires
            self@.wf(),
        ensures
            r == self@.cells[0],
    {
        self.body[0]
    }

    /// The position within the head animation.
    pub fn animation_frame(&self) -> (r: usize)
        ensures
            r == self@.animation_frame,
    {
        self.animation_frame
    }

    /// The sprite of the head animation that is shown now.
    pub fn head_sprite_index(&self) -> (r: usize)
        requires
            self@.wf(),
        ensures
            r == self@.animation_frame / ANIMATION_SLOWDOWN_FACTOR as nat,
            r < self@.head_frames,
    {
        self.animation_frame / ANIMATION_SLOWDOWN_FACTOR
    }

    /// The unit displacement of one step along `direction`.
    pub fn get_movement_offset(direction: &Direction) -> (r: Position)
        ensures
            r == direction.offset(),
    {
        match direction {
            Direction::UP => Position { x: 0, y: -1 },
            Direction::DOWN => Position { x: 0, y: 1 },
            Direction::LEFT => Position { x: -1, y: 0 },
            Direction::RIGHT => Position { x: 1, y: 0 },
        }
    }

    /// Takes a request for a new heading. The request is buffered for the
    /// next tick and replaces an earlier one; a request for the reverse of
    /// the heading is dropped.
    pub fn apply_input(&mut self, input: Direction)
        ensures
            final(self)@ == old(self)@.request(input),
            old(self)@.wf() ==> final(self)@.wf(),
    {
        if input != self.direction.opposite() {
            self.pending = Some(input);
        }
    }

    /// Tells whether `cell` is one of the cells of the chain.
    pub fn occupies(&self, cell: Position) -> (r: bool)
        ensures
            r == self@.cells.contains(cell),
    {
        let mut i: usize = 0;
        while i < self.body.len()
            invariant
                i <= self.body.len(),
                forall|j: int| 0 <= j < i ==> self.body@[j] != cell,
            decreases self.body.len() - i,
        {
            if self.body[i] == cell {
                return true;
            }
            i += 1;
        }
        false
    }

    /// Advances the head animation by one frame and tells whether a new
    /// sprite starts, so that the head has to be drawn anew.
    pub fn frame_anim(&mut self) -> (r: bool)
        requires
            old(self)@.wf(),
        ensures
            final(self)@ == old(self)@.animate(),
            r == final(self)@.at_sprite_start(),
            final(self)@.wf(),
    {
        proof {
            vstd::arithmetic::div_mod::lemma_mod_bound(
                self.animation_frame as int + 1,
                self@.animation_period() as int,
            );
        }
        let period: usize = self.head_frames * ANIMATION_SLOWDOWN_FACTOR;
        self.animation_frame = (self.animation_frame + 1) % period;
        self.animation_frame % ANIMATION_SLOWDOWN_FACTOR == 0
    }

    /// Adds one cell behind the tail, on the line through the last two cells.
    fn grow(&mut self)
        requires
            old(self)@.wf(),
            old(self)@.cells.len() >= 2,
        ensures
            final(self)@ == old(self)@.grown(),
    {
        let tail = self.body[self.body.len() - 1];
        let before_tail = self.body[self.body.len() - 2];
        assert(tail.on_board() && before_tail.on_board());
        let offset = tail.offset_from(before_tail);
        self.body.push(tail.offset_by(offset));
    }

    /// Marks the actor as dead. Its cells stay where they are.
    fn die(&mut self)
        ensures
            final(self)@ == (SnakeView { alive: false, ..old(self)@ }),
    {
        self.is_alive = false;
    }

    /// Advances the actor by one tick, with the pickup where `apple` lies.
    ///
    /// Returns `Died` when the step is fatal or the actor was dead already,
    /// `GrewAndMoved` when the head entered the cell of the pickup, which the
    /// caller then has to place anew, and `Moved` otherwise.
    pub fn frame(&mut self, apple: &Apple) -> (r: TickResult)
        requires
            old(self)@.wf(),
        ensures
            final(self)@ == old(self)@.step(apple.position),
            r == old(self)@.outcome(apple.position),
            final(self)@.wf(),
    {
        if !self.is_alive {
            return TickResult::Died;
        }
        match self.pending {
            Some(requested) => {
                self.direction = requested;
                self.pending = None;
            },
            None => {},
        }
        let head = self.body[0];
        assert(head.on_board());
        let head_projection = head.offset_by(Self::get_movement_offset(&self.direction));
        if !head_projection.is_on_board() || self.occupies(head_projection) {
            self.die();
            return TickResult::Died;
        }
        let grows = head_projection == apple.position;
        if grows {
            if self.body.len() >= 2 {
                self.grow();
            } else {
                self.body.push(head);
            }
        }
        shift_cells(&mut self.body, head_projection);
        proof {
            if grows {
                assert(self.body@ =~= seq![head_projection] + old(self)@.cells);
            }
            lemma_step_keeps_wf(old(self)@, apple.position);
        }
        self.frame_anim();
        if grows {
            TickResult::GrewAndMoved
        } else {
            TickResult::Moved
        }
    }
}

/// Moves every cell but the first to the place of the one before it, from the
/// tail towards the head, and puts `head` in front.
pub fn shift_cells(cells: &mut Vec<Position>, head: Position)
    requires
        old(cells)@.len() >= 1,
    ensures
        final(cells)@ == seq![head] + old(cells)@.drop_last(),
{
    let ghost before = cells@;
    let mut i: usize = cells.len() - 1;
    while i >= 1
        invariant
            cells@.len() == before.len(),
            i < cells@.len(),
            forall|j: int| 0 <= j <= i ==> cells@[j] == before[j],
            forall|j: int| i < j < cells@.len() ==> cells@[j] == before[j - 1],
        decreases i,
    {
        let moved = cells[i - 1];
        cells.set(i, moved);
        i -= 1;
    }
    cells.set(0, head);
    assert(cells@ =~= seq![head] + before.drop_last());
}

/// A tick keeps the actor well formed: after it the chain still lies on the
/// board and still holds no cell twice.
pub proof fn lemma_step_keeps_wf(v: SnakeView, pickup: Position)
    requires
        v.wf(),
    ensures
        v.step(pickup).wf(),
{
    if v.alive && !v.collides() {
        let target = v.head_projection();
        let followers = if target == pickup {
            v.cells
        } else {
            v.cells.drop_last()
        };
        let moved = SnakeView {
            cells: seq![target] + followers,
            heading: v.next_heading(),
            pending: None,
            ..v
        };
        assert forall|i: int| 0 <= i < moved.cells.len() implies (#[trigger] moved.cells[i]).on_board() by {
            if i > 0 {
                assert(moved.cells[i] == v.cells[i - 1]);
            }
        }
        assert forall|i: int, j: int|
            0 <= i < moved.cells.len() && 0 <= j < moved.cells.len() && i != j implies moved.cells[i]
            != moved.cells[j] by {
            if i > 0 {
                assert(moved.cells[i] == v.cells[i - 1]);
            }
            if j > 0 {
                assert(moved.cells[j] == v.cells[j - 1]);
            }
        }
        vstd::arithmetic::div_mod::lemma_mod_bound(
            v.animation_frame as int + 1,
            v.animation_period() as int,
        );
    }
}

/// The chain of a new round: `length` cells in the starting row, the head in
/// the starting column and each further cell one column to the left.
pub open spec fn starting_cells(length: nat) -> Seq<Position> {
    Seq::new(length, |i: int| Position { x: (START_X - i) as i32, y: START_Y })
}

/// A starting chain of the greatest length ends at the left wall, and every
/// starting chain that is not longer lies on the board.
pub proof fn lemma_starting_cells_fit(length: nat)
    requires
        1 <= length <= MAX_START_LENGTH,
    ensures
        MAX_START_LENGTH == START_X + 1,
        usable_chain(starting_cells(length)),
        starting_cells(length)[0] == (Position { x: START_X, y: START_Y }),
        starting_cells(MAX_START_LENGTH as nat)[MAX_START_LENGTH - 1].x == 0,
{
}

/// Whether a head animation of `head_frames` sprites can be counted through.
pub open spec fn usable_animation(head_frames: nat) -> bool {
    1 <= head_frames && head_frames * ANIMATION_SLOWDOWN_FACTOR as nat <= usize::MAX
}

/// Whether `cells` can be the chain of an actor: not empty, on the board and
/// free of repetitions.
pub open spec fn usable_chain(cells: Seq<Position>) -> bool {
    &&& cells.len() >= 1
    &&& forall|i: int| 0 <= i < cells.len() ==> (#[trigger] cells[i]).on_board()
    &&& cells.no_duplicates()
}

/// Tells whether a head animation of `head_frames` sprites can be counted
/// through.
fn check_animation(head_frames: usize) -> (r: bool)
    ensures
        r == usable_animation(head_frames as nat),
{
    1 <= head_frames && head_frames <= usize::MAX / ANIMATION_SLOWDOWN_FACTOR
}

/// Tells whether `cells` can be the chain of an actor.
fn check_chain(cells: &Vec<Position>) -> (r: bool)
    ensures
        r == usable_chain(cells@),
{
    if cells.len() == 0 {
        return false;
    }
    let mut i: usize = 0;
    while i < cells.len()
        invariant
            i <= cells.len(),
            forall|k: int| 0 <= k < i ==> (#[trigger] cells@[k]).on_board(),
            forall|k: int, l: int| 0 <= k < l < i ==> cells@[k] != cells@[l],
        decreases cells.len() - i,
    {
        if !cells[i].is_on_board() {
            return false;
        }
        let mut j: usize = 0;
        while j < i
            invariant
                j <= i < cells.len(),
                forall|k: int| 0 <= k < j ==> cells@[k] != cells@[i as int],
            decreases i - j,
        {
            if cells[j] == cells[i] {
                return false;
            }
            j += 1;
        }
        i += 1;
    }
    true
}

impl Snake {
    /// Creates the actor of a new round: `length` cells in the starting row,
    /// heading right, alive, with nothing buffered and the head animation of
    /// `head_frames` sprites at its start.
    ///
    /// Fails when the chain would be empty or would not fit between the
    /// starting column and the left wall, or when the animation is unusable.
    pub fn new(length: u32, head_frames: usize) -> (r: Result<Snake, ConfigError>)
        ensures
            r is Ok <==> 1 <= length <= MAX_START_LENGTH && usable_animation(head_frames as nat),
            r is Err ==> r == Err::<Snake, ConfigError>(ConfigError::InvalidConfiguration),
            r matches Ok(snake) ==> {
                &&& snake@ == (SnakeView {
                    cells: starting_cells(length as nat),
                    heading: Direction::RIGHT,
                    pending: None,
                    alive: true,
                    animation_frame: 0,
                    head_frames: head_frames as nat,
                })
                &&& snake@.wf()
            },
    {
        if length == 0 || length > MAX_START_LENGTH || !check_animation(head_frames) {
            return Err(ConfigError::InvalidConfiguration);
        }
        let mut body: Vec<Position> = Vec::new();
        let mut i: u32 = 0;
        while i < length
            invariant
                i <= length <= MAX_START_LENGTH,
                body@.len() == i,
                forall|k: int| 0 <= k < i ==> body@[k] == starting_cells(length as nat)[k],
            decreases length - i,
        {
            body.push(Position { x: START_X - (i as i32), y: START_Y });
            i += 1;
        }
        assert(body@ =~= starting_cells(length as nat));
        Ok(
            Snake {
                body,
                direction: Direction::RIGHT,
                pending: None,
                animation_frame: 0,
                head_frames,
                is_alive: true,
            },
        )
    }

    /// Creates an actor that lies on the given cells, head first, with the
    /// given heading, alive, with nothing buffered and the head animation of
    /// `head_frames` sprites at its start.
    ///
    /// Fails when the chain is empty, leaves the board or holds a cell twice,
    /// or when the animation is unusable.
    pub fn from_cells(cells: Vec<Position>, heading: Direction, head_frames: usize) -> (r: Result<
        Snake,
        ConfigError,
    >)
        ensures
            r is Ok <==> usable_chain(cells@) && usable_animation(head_frames as nat),
            r is Err ==> r == Err::<Snake, ConfigError>(ConfigError::InvalidConfiguration),
            r matches Ok(snake) ==> {
                &&& snake@ == (SnakeView {
                    cells: cells@,
                    heading,
                    pending: None,
                    alive: true,
                    animation_frame: 0,
                    head_frames: head_frames as nat,
                })
                &&& snake@.wf()
            },
    {
        if !check_chain(&cells) || !check_animation(head_frames) {
            return Err(ConfigError::InvalidConfiguration);
        }
        Ok(
            Snake {
                body: cells,
                direction: heading,
                pending: None,
                animation_frame: 0,
                head_frames,
                is_alive: true,
            },
        )
    }

    /// The pixel at which the sprite of each cell is drawn, head first.
    pub fn sprite_positions(&self) -> (r: Vec<Position>)
        requires
            self@.wf(),
        ensures
            r@.len() == self@.cells.len(),
            forall|i: int| 0 <= i < r@.len() ==> r@[i] == self@.cells[i].pixels(),
    {
        let mut pixels: Vec<Position> = Vec::new();
        let mut i: usize = 0;
        while i < self.body.len()
            invariant
                i <= self.body.len(),
                pixels@.len() == i,
                forall|k: int| 0 <= k < self.body.len() ==> (#[trigger] self.body@[k]).on_board(),
                forall|k: int| 0 <= k < i ==> pixels@[k] == self.body@[k].pixels(),
            decreases self.body.len() - i,
        {
            let cell = self.body[i];
            assert(cell.on_board());
            pixels.push(cell.to_pixels());
            i += 1;
        }
        pixels
    }
}

} // verus!
