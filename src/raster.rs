use vstd::prelude::*;

use crate::animator::SquareAnimator;
use crate::geometry::{Canvas, SUBPIXELS, pixel_start, pixel_end, axis_span};

verus! {

/// The colour of every pixel outside the square.
pub const BACKGROUND: u32 = 0x00202020;

/// The colour of every pixel of the square.
pub const FOREGROUND: u32 = 0x00FF00FF;

/// Whether pixel `(px, py)` of `canvas` lies in the square's rectangle, cut
/// at the canvas bounds.
pub open spec fn covers(s: SquareAnimator, canvas: Canvas, px: int, py: int) -> bool {
    &&& pixel_start(s.x as int, canvas.width as nat) <= px < pixel_end(s.x as int, canvas.width as nat)
    &&& pixel_start(s.y as int, canvas.height as nat) <= py < pixel_end(s.y as int, canvas.height as nat)
}

/// The colour of the pixel at row-major index `i` of `canvas`.
pub open spec fn color_at(s: SquareAnimator, canvas: Canvas, i: int) -> u32 {
    if covers(s, canvas, i % canvas.width as int, i / canvas.width as int) {
        FOREGROUND
    } else {
        BACKGROUND
    }
}

fn axis_start(pos: i64, d: u32) -> (r: u32)
    ensures
        r == pixel_start(pos as int, d as nat),
{
    if pos <= 0 {
        0
    } else if (pos as u64) / (SUBPIXELS as u64) > d as u64 {
        d
    } else {
        ((pos as u64) / (SUBPIXELS as u64)) as u32
    }
}

fn axis_end(pos: i64, d: u32) -> (r: u32)
    ensures
        r == pixel_end(pos as int, d as nat),
{
    let start = axis_start(pos, d);
    let s = axis_span(d);
    if start as u64 + s as u64 > d as u64 {
        d
    } else {
        start + s
    }
}

impl SquareAnimator {
    /// Draws the square into `buf`, a row-major canvas of
    /// `canvas.width * canvas.height` pixels: the square's pixels get
    /// `FOREGROUND`, all others `BACKGROUND`.
    pub fn render(&self, canvas: Canvas, buf: &mut Vec<u32>)
        requires
            old(buf)@.len() == canvas.width as int * canvas.height as int,
        ensures
            final(buf)@.len() == old(buf)@.len(),
            forall|i: int| 0 <= i < final(buf)@.len() ==> #[trigger] final(buf)@[i] == color_at(*self, canvas, i),
    {
        let w = canvas.width;
        let x0 = axis_start(self.x, w);
        let x1 = axis_end(self.x, w);
        let y0 = axis_start(self.y, canvas.height);
        let y1 = axis_end(self.y, canvas.height);
        let n = buf.len();
        let mut i: usize = 0;
        while i < n
            invariant
                n == buf@.len(),
                n == canvas.width as int * canvas.height as int,
                w == canvas.width,
                x0 == pixel_start(self.x as int, canvas.width as nat),
                x1 == pixel_end(self.x as int, canvas.width as nat),
                y0 == pixel_start(self.y as int, canvas.height as nat),
                y1 == pixel_end(self.y as int, canvas.height as nat),
                i <= n,
                forall|j: int| 0 <= j < i ==> #[trigger] buf@[j] == color_at(*self, canvas, j),
            decreases n - i,
        {
            assert(w > 0) by (nonlinear_arith)
                requires i < n, n == w as int * canvas.height as int, w >= 0;
            let px: u32 = (i % w as usize) as u32;
            let py: usize = i / w as usize;
            let inside = x0 <= px && px < x1 && y0 as usize <= py && py < y1 as usize;
            let color = if inside { FOREGROUND } else { BACKGROUND };
            buf.set(i, color);
            i = i + 1;
        }
    }
}

} // verus!
