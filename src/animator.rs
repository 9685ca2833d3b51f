use vstd::prelude::*;

use crate::geometry::{Canvas, SUBPIXELS, size_units, max_pos, axis_size_units};
use crate::motion::{axis_step, step_axis};

verus! {

/// Pixels that one directional key press moves the square.
pub const STEP_PIXELS: i64 = 20;

/// Velocity, in pixels per second on each axis, that a new square starts with.
pub const INITIAL_SPEED: i32 = 100;

/// The position, in units, that centres the square on an axis of `d`
/// pixels: half of what the square leaves free.
pub open spec fn centered_pos(d: nat) -> int {
    (d * SUBPIXELS - size_units(d)) / 2
}

/// A press that moves the square toward the near edge (up or left): one step
/// back, but never below 0.
pub open spec fn press_toward_near(pos: int) -> int {
    if pos - STEP_PIXELS * SUBPIXELS < 0 {
        0
    } else {
        pos - STEP_PIXELS * SUBPIXELS
    }
}

/// A press that moves the square toward the far edge (down or right): one
/// step on, but never so far that the far edge leaves an axis of `d` pixels.
pub open spec fn press_toward_far(pos: int, d: nat) -> int {
    if pos + STEP_PIXELS * SUBPIXELS > max_pos(d) {
        max_pos(d)
    } else {
        pos + STEP_PIXELS * SUBPIXELS
    }
}

/// The position, in units, that puts the square's centre on cursor
/// coordinate `c` along an axis of `d` pixels. It is not clamped.
pub open spec fn centered_on(c: nat, d: nat) -> int {
    c * SUBPIXELS - size_units(d) / 2
}

/// The four logical directions of the movement keys.
#[derive(Clone, Copy, Debug, PartialEq, Eq)]
pub enum Direction {
    Up,
    Left,
    Down,
    Right,
}

/// A discrete input that the square reacts to.
#[derive(Clone, Copy, Debug, PartialEq, Eq)]
pub enum Input {
    /// A movement key was pressed.
    Key(Direction),
    /// The cursor moved to pixel `(x, y)` of the canvas.
    CursorMoved { x: u32, y: u32 },
    /// The primary mouse button was pressed.
    PrimaryClick,
}

/// The square's state: position of its top-left corner in units
/// (`SUBPIXELS` per pixel), velocity in pixels per second, and the last
/// cursor position in pixels. Its size is not stored: it follows the canvas
/// handed to each call.
#[derive(Clone, Copy, Debug, PartialEq, Eq)]
pub struct SquareAnimator {
    pub x: i64,
    pub y: i64,
    pub vx: i32,
    pub vy: i32,
    pub cursor_x: u32,
    pub cursor_y: u32,
}

impl SquareAnimator {
    /// Both velocity components can be negated.
    pub open spec fn wf(&self) -> bool {
        self.vx != i32::MIN && self.vy != i32::MIN
    }

    /// A square centred on `canvas`, moving at `INITIAL_SPEED` on each axis,
    /// with the cursor at the origin.
    pub fn new(canvas: Canvas) -> (r: SquareAnimator)
        ensures
            r.wf(),
            r.x == centered_pos(canvas.width as nat),
            r.y == centered_pos(canvas.height as nat),
            r.vx == INITIAL_SPEED,
            r.vy == INITIAL_SPEED,
            r.cursor_x == 0,
            r.cursor_y == 0,
    {
        SquareAnimator {
            x: axis_center(canvas.width),
            y: axis_center(canvas.height),
            vx: INITIAL_SPEED,
            vy: INITIAL_SPEED,
            cursor_x: 0,
            cursor_y: 0,
        }
    }

    /// Reacts to one discrete input on `canvas` and says whether a redraw is
    /// wanted. A key press moves one step along its axis, clamped onto the
    /// canvas; a cursor move only records the cursor; a primary click centres
    /// the square on the recorded cursor without clamping. Every input but a
    /// cursor move asks for a redraw. Velocity is never changed.
    pub fn on_input(&mut self, canvas: Canvas, input: Input) -> (redraw: bool)
        ensures
            redraw == !(input is CursorMoved),
            final(self).vx == old(self).vx,
            final(self).vy == old(self).vy,
            match input {
                Input::Key(Direction::Up) => final(self).y == press_toward_near(old(self).y as int)
                    && final(self).x == old(self).x
                    && final(self).cursor_x == old(self).cursor_x
                    && final(self).cursor_y == old(self).cursor_y,
                Input::Key(Direction::Left) => final(self).x == press_toward_near(old(self).x as int)
                    && final(self).y == old(self).y
                    && final(self).cursor_x == old(self).cursor_x
                    && final(self).cursor_y == old(self).cursor_y,
                Input::Key(Direction::Down) => final(self).y == press_toward_far(
                    old(self).y as int,
                    canvas.height as nat,
                ) && final(self).x == old(self).x
                    && final(self).cursor_x == old(self).cursor_x
                    && final(self).cursor_y == old(self).cursor_y,
                Input::Key(Direction::Right) => final(self).x == press_toward_far(
                    old(self).x as int,
                    canvas.width as nat,
                ) && final(self).y == old(self).y
                    && final(self).cursor_x == old(self).cursor_x
                    && final(self).cursor_y == old(self).cursor_y,
                Input::CursorMoved { x, y } => final(self).cursor_x == x
                    && final(self).cursor_y == y
                    && final(self).x == old(self).x
                    && final(self).y == old(self).y,
                Input::PrimaryClick => final(self).x == centered_on(
                    old(self).cursor_x as nat,
                    canvas.width as nat,
                ) && final(self).y == centered_on(old(self).cursor_y as nat, canvas.height as nat)
                    && final(self).cursor_x == old(self).cursor_x
                    && final(self).cursor_y == old(self).cursor_y,
            },
    {
        match input {
            Input::Key(Direction::Up) => {
                self.y = step_toward_near(self.y);
                true
            },
            Input::Key(Direction::Left) => {
                self.x = step_toward_near(self.x);
                true
            },
            Input::Key(Direction::Down) => {
                let (_, max_y) = canvas.max_square_pos();
                self.y = step_toward_far(self.y, max_y);
                true
            },
            Input::Key(Direction::Right) => {
                let (max_x, _) = canvas.max_square_pos();
                self.x = step_toward_far(self.x, max_x);
                true
            },
            Input::CursorMoved { x, y } => {
                self.cursor_x = x;
                self.cursor_y = y;
                false
            },
            Input::PrimaryClick => {
                let (w, h) = canvas.square_extent();
                self.x = center_on(self.cursor_x, w);
                self.y = center_on(self.cursor_y, h);
                true
            },
        }
    }

    /// Advances the square by one frame of `elapsed_us` microseconds on
    /// `canvas`, each axis by `axis_step`: the square's size and bounds are
    /// those of this canvas, whatever it was before.
    pub fn on_frame(&mut self, canvas: Canvas, elapsed_us: u64)
        requires
            old(self).wf(),
        ensures
            final(self).wf(),
            final(self).x == axis_step(
                old(self).x as int,
                old(self).vx as int,
                elapsed_us as nat,
                canvas.width as nat,
            ).0,
            final(self).vx == axis_step(
                old(self).x as int,
                old(self).vx as int,
                elapsed_us as nat,
                canvas.width as nat,
            ).1,
            final(self).y == axis_step(
                old(self).y as int,
                old(self).vy as int,
                elapsed_us as nat,
                canvas.height as nat,
            ).0,
            final(self).vy == axis_step(
                old(self).y as int,
                old(self).vy as int,
                elapsed_us as nat,
                canvas.height as nat,
            ).1,
            final(self).cursor_x == old(self).cursor_x,
            final(self).cursor_y == old(self).cursor_y,
    {
        let (x, vx) = step_axis(self.x, self.vx, elapsed_us, canvas.width);
        let (y, vy) = step_axis(self.y, self.vy, elapsed_us, canvas.height);
        self.x = x;
        self.vx = vx;
        self.y = y;
        self.vy = vy;
    }
}

fn step_toward_near(pos: i64) -> (r: i64)
    ensures
        r == press_toward_near(pos as int),
{
    if pos <= STEP_PIXELS * SUBPIXELS {
        0
    } else {
        pos - STEP_PIXELS * SUBPIXELS
    }
}

fn step_toward_far(pos: i64, hi: i64) -> (r: i64)
    requires
        0 <= hi <= u32::MAX * SUBPIXELS,
    ensures
        r == if pos + STEP_PIXELS * SUBPIXELS > hi { hi as int } else { pos + STEP_PIXELS * SUBPIXELS },
{
    if pos >= hi - STEP_PIXELS * SUBPIXELS {
        hi
    } else {
        pos + STEP_PIXELS * SUBPIXELS
    }
}

fn center_on(c: u32, size: i64) -> (r: i64)
    requires
        0 <= size <= u32::MAX * 100,
    ensures
        r == c * SUBPIXELS - size / 2,
{
    c as i64 * SUBPIXELS - size / 2
}

fn axis_center(d: u32) -> (r: i64)
    ensures
        r == centered_pos(d as nat),
{
    let free: i64 = d as i64 * SUBPIXELS - axis_size_units(d);
    free / 2
}

} // verus!
