use vstd::prelude::*;

use crate::animator::{SquareAnimator, centered_pos, press_toward_near, press_toward_far};
use crate::geometry::{Canvas, SUBPIXELS, size_units, max_pos, lemma_size_units};
use crate::motion::{MICROS_PER_SECOND, displacement, touches_edge, axis_step};

verus! {

/// The position after `n` presses toward the near edge, starting at `pos`.
pub open spec fn presses_toward_near(pos: int, n: nat) -> int
    decreases n,
{
    if n == 0 {
        pos
    } else {
        press_toward_near(presses_toward_near(pos, (n - 1) as nat))
    }
}

/// The position after `n` presses toward the far edge of an axis of `d`
/// pixels, starting at `pos`.
pub open spec fn presses_toward_far(pos: int, d: nat, n: nat) -> int
    decreases n,
{
    if n == 0 {
        pos
    } else {
        press_toward_far(presses_toward_far(pos, d, (n - 1) as nat), d)
    }
}

/// A new square lies wholly on the canvas, and its centre is exactly the
/// canvas centre on each axis.
pub proof fn lemma_initial_square_centered(canvas: Canvas)
    ensures
        0 <= centered_pos(canvas.width as nat),
        centered_pos(canvas.width as nat) + size_units(canvas.width as nat) <= canvas.width * SUBPIXELS,
        2 * centered_pos(canvas.width as nat) + size_units(canvas.width as nat) == canvas.width * SUBPIXELS,
        0 <= centered_pos(canvas.height as nat),
        centered_pos(canvas.height as nat) + size_units(canvas.height as nat) <= canvas.height * SUBPIXELS,
        2 * centered_pos(canvas.height as nat) + size_units(canvas.height as nat) == canvas.height * SUBPIXELS,
{
    lemma_size_units(canvas.width as nat);
    lemma_size_units(canvas.height as nat);
}

/// Pressing the key toward the near edge, any number of times from any
/// position, never leaves the near edge below 0; pressing the key toward the
/// far edge never puts the far edge past the canvas. From a position on the
/// canvas, either key keeps the square on it.
pub proof fn lemma_repeated_presses_stay_on_canvas(pos: int, d: nat, n: nat)
    requires
        n >= 1,
    ensures
        presses_toward_near(pos, n) >= 0,
        presses_toward_far(pos, d, n) <= max_pos(d),
        0 <= pos <= max_pos(d) ==> 0 <= presses_toward_near(pos, n) <= max_pos(d),
        0 <= pos <= max_pos(d) ==> 0 <= presses_toward_far(pos, d, n) <= max_pos(d),
    decreases n,
{
    lemma_size_units(d);
    assert(max_pos(d) >= 0);
    let m = (n - 1) as nat;
    assert(presses_toward_near(pos, 0) == pos);
    assert(presses_toward_far(pos, d, 0) == pos);
    if n > 1 {
        lemma_repeated_presses_stay_on_canvas(pos, d, m);
    }
    assert(presses_toward_near(pos, n) == press_toward_near(presses_toward_near(pos, m)));
    assert(presses_toward_far(pos, d, n) == press_toward_far(presses_toward_far(pos, d, m), d));
}

/// A frame of zero elapsed time leaves a square that lies strictly between
/// the edges exactly where it was, with the same velocity.
pub proof fn lemma_zero_elapsed_keeps_state(s: SquareAnimator, canvas: Canvas)
    requires
        0 < s.x < max_pos(canvas.width as nat),
        0 < s.y < max_pos(canvas.height as nat),
    ensures
        axis_step(s.x as int, s.vx as int, 0, canvas.width as nat) == (s.x as int, s.vx as int),
        axis_step(s.y as int, s.vy as int, 0, canvas.height as nat) == (s.y as int, s.vy as int),
{
    lemma_size_units(canvas.width as nat);
    lemma_size_units(canvas.height as nat);
    assert(displacement(s.vx as int, 0) == 0);
    assert(displacement(s.vy as int, 0) == 0);
}

/// A square whose far edge sits on the boundary while it moves toward it is
/// reflected by the next frame of any positive length: its velocity on that
/// axis is negated and its position is clamped onto the canvas.
pub proof fn lemma_far_edge_reflects(pos: int, v: int, dt: nat, d: nat)
    requires
        pos == max_pos(d),
        v > 0,
        dt > 0,
    ensures
        axis_step(pos, v, dt, d).1 == -v,
        0 <= axis_step(pos, v, dt, d).0 <= max_pos(d),
{
    lemma_size_units(d);
    assert(v * SUBPIXELS * dt / MICROS_PER_SECOND as int >= 0) by (nonlinear_arith)
        requires v > 0, dt > 0;
    let p = pos + displacement(v, dt);
    assert(touches_edge(p, d));
}

/// The square's size is recomputed from whatever canvas a call is given: on
/// each axis it is exactly ten percent of that canvas, so the sizes for two
/// canvases stand in the ratio of the canvases.
pub proof fn lemma_size_follows_canvas(d1: nat, d2: nat)
    ensures
        size_units(d2) * 10 == d2 * SUBPIXELS,
        size_units(d1) * d2 == size_units(d2) * d1,
{
    lemma_size_units(d1);
    lemma_size_units(d2);
    assert(d1 * 100 * d2 == d2 * 100 * d1) by (nonlinear_arith);
}

} // verus!
