use vstd::prelude::*;

verus! {

/// Fixed-point units per pixel used for every square position.
pub const SUBPIXELS: i64 = 1000;

/// The square's side on each axis, as a percentage of the canvas on that axis.
pub const SIZE_PERCENT: u32 = 10;

/// The square's extent in whole pixels along an axis of `d` pixels: ten
/// percent, rounded down. This is the size of the drawn pixel rectangle.
pub open spec fn span(d: nat) -> nat {
    d * 10 / 100
}

/// The square's exact extent, in units, along an axis of `d` pixels: ten
/// percent of the axis, with no rounding.
pub open spec fn size_units(d: nat) -> int {
    d * SUBPIXELS * SIZE_PERCENT / 100
}

/// The largest position (in units) that keeps the far edge on the canvas:
/// the axis length less the exact square size.
pub open spec fn max_pos(d: nat) -> int {
    d * SUBPIXELS - size_units(d)
}

pub open spec fn clamp(v: int, lo: int, hi: int) -> int {
    if v < lo {
        lo
    } else if v > hi {
        hi
    } else {
        v
    }
}

/// The pixel column (or row) where the square starts along an axis of `d`
/// pixels: a negative position starts at 0, fractions are cut off, and the
/// start never lies past the canvas.
pub open spec fn pixel_start(pos: int, d: nat) -> int {
    if pos <= 0 {
        0
    } else if pos / SUBPIXELS as int > d {
        d as int
    } else {
        pos / SUBPIXELS as int
    }
}

/// The pixel just past the square's far edge, cut at the canvas.
pub open spec fn pixel_end(pos: int, d: nat) -> int {
    if pixel_start(pos, d) + span(d) > d {
        d as int
    } else {
        pixel_start(pos, d) + span(d)
    }
}

/// A canvas in physical pixels; each side is at least one pixel once built by
/// `Canvas::new`.
#[derive(Clone, Copy, Debug, PartialEq, Eq)]
pub struct Canvas {
    pub width: u32,
    pub height: u32,
}

impl Canvas {
    /// A canvas of the given size, each side raised to at least one pixel.
    pub fn new(width: u32, height: u32) -> (r: Canvas)
        ensures
            r.width == if width == 0 { 1 } else { width },
            r.height == if height == 0 { 1 } else { height },
    {
        Canvas {
            width: if width == 0 { 1 } else { width },
            height: if height == 0 { 1 } else { height },
        }
    }

    /// The square's size `(w, h)` in pixels for this canvas.
    pub fn square_size(&self) -> (r: (u32, u32))
        ensures
            r.0 == span(self.width as nat),
            r.1 == span(self.height as nat),
    {
        (axis_span(self.width), axis_span(self.height))
    }

    /// The square's exact size `(w, h)` in units: ten percent of each side.
    pub fn square_extent(&self) -> (r: (i64, i64))
        ensures
            r.0 == size_units(self.width as nat),
            r.1 == size_units(self.height as nat),
    {
        (axis_size_units(self.width), axis_size_units(self.height))
    }

    /// The largest position `(x, y)`, in units, at which the square's far
    /// edges still lie on the canvas.
    pub fn max_square_pos(&self) -> (r: (i64, i64))
        ensures
            r.0 == max_pos(self.width as nat),
            r.1 == max_pos(self.height as nat),
            0 <= r.0,
            0 <= r.1,
    {
        (axis_max_pos(self.width), axis_max_pos(self.height))
    }
}

/// Ten percent of `d`, rounded down, is a tenth of `d` and, on a non-empty
/// axis, leaves room for the square to move.
pub proof fn lemma_span_bounds(d: nat)
    ensures
        span(d) == d / 10,
        span(d) <= d,
        d >= 1 ==> span(d) < d,
{
    assert(d * 10 / 100 == d / 10) by (nonlinear_arith);
}

pub(crate) fn axis_span(d: u32) -> (r: u32)
    ensures
        r == span(d as nat),
        r <= d,
{
    proof {
        lemma_span_bounds(d as nat);
    }
    let r: u64 = d as u64 * SIZE_PERCENT as u64 / 100;
    r as u32
}

/// The exact size in units is a tenth of the axis, and the largest position
/// is nine tenths of it.
pub proof fn lemma_size_units(d: nat)
    ensures
        size_units(d) == d * 100,
        max_pos(d) == d * 900,
{
}

pub(crate) fn axis_size_units(d: u32) -> (r: i64)
    ensures
        r == size_units(d as nat),
        r == d * 100,
{
    proof {
        lemma_size_units(d as nat);
    }
    d as i64 * SUBPIXELS * SIZE_PERCENT as i64 / 100
}

pub(crate) fn axis_max_pos(d: u32) -> (r: i64)
    ensures
        r == max_pos(d as nat),
        r == d * 900,
{
    proof {
        lemma_size_units(d as nat);
    }
    d as i64 * SUBPIXELS - axis_size_units(d)
}

} // verus!
