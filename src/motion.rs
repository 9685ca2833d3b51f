use vstd::prelude::*;

use crate::geometry::{SUBPIXELS, size_units, max_pos, clamp, lemma_size_units};

verus! {

/// Microseconds in one second: elapsed time is measured in microseconds and
/// velocity in pixels per second.
pub const MICROS_PER_SECOND: u64 = 1_000_000;

/// How far, in units, a velocity of `v` pixels per second carries the square
/// in `dt` microseconds, truncated toward zero.
pub open spec fn displacement(v: int, dt: nat) -> int {
    if v >= 0 {
        v * SUBPIXELS * dt / MICROS_PER_SECOND as int
    } else {
        -((-v) * SUBPIXELS * dt / MICROS_PER_SECOND as int)
    }
}

/// Whether the square, at position `pos` (in units) on an axis of `d`
/// pixels, has its near edge at or below 0 or its far edge at or past the
/// canvas edge.
pub open spec fn touches_edge(pos: int, d: nat) -> bool {
    pos <= 0 || pos + size_units(d) >= d * SUBPIXELS
}

/// One frame of motion on one axis: integrate, then on contact with either
/// edge reverse the velocity and clamp the position onto the canvas.
/// Returns the new position and the new velocity.
pub open spec fn axis_step(pos: int, v: int, dt: nat, d: nat) -> (int, int) {
    let p = pos + displacement(v, dt);
    if touches_edge(p, d) {
        (clamp(p, 0, max_pos(d)), -v)
    } else {
        (p, v)
    }
}

proof fn lemma_displacement_bound(a: nat, dt: nat)
    requires
        a <= 0x8000_0000,
        dt < 0x1_0000_0000_0000_0000,
    ensures
        a * SUBPIXELS * dt < 0x1_0000_0000_0000_0000_0000_0000_0000,
        a * SUBPIXELS * dt / MICROS_PER_SECOND as int <= a * SUBPIXELS * dt,
        a * SUBPIXELS * dt / MICROS_PER_SECOND as int >= 0,
{
    assert(a * SUBPIXELS <= 0x8000_0000 * 1000) by (nonlinear_arith)
        requires a <= 0x8000_0000;
    assert(a * SUBPIXELS * dt <= 0x8000_0000 * 1000 * dt) by (nonlinear_arith)
        requires a * SUBPIXELS <= 0x8000_0000 * 1000;
    assert(0x8000_0000 * 1000 * dt < 0x1_0000_0000_0000_0000_0000_0000_0000) by (nonlinear_arith)
        requires dt < 0x1_0000_0000_0000_0000;
    assert(a * SUBPIXELS * dt >= 0) by (nonlinear_arith);
    assert(a * SUBPIXELS * dt / 1_000_000 <= a * SUBPIXELS * dt) by (nonlinear_arith)
        requires a * SUBPIXELS * dt >= 0;
}

/// Runs `axis_step` on machine integers: position in units, velocity in
/// pixels per second, elapsed time in microseconds, axis length in pixels.
pub fn step_axis(pos: i64, v: i32, dt: u64, d: u32) -> (r: (i64, i32))
    requires
        v != i32::MIN,
    ensures
        r.0 == axis_step(pos as int, v as int, dt as nat, d as nat).0,
        r.1 == axis_step(pos as int, v as int, dt as nat, d as nat).1,
{
    let speed: u128 = if v >= 0 { v as u128 } else { (-(v as i64)) as u128 };
    proof {
        lemma_displacement_bound(speed as nat, dt as nat);
    }
    let travel: u128 = speed * (SUBPIXELS as u128) * (dt as u128) / (MICROS_PER_SECOND as u128);
    let moved: i128 = if v >= 0 {
        pos as i128 + travel as i128
    } else {
        pos as i128 - travel as i128
    };
    assert(moved == pos + displacement(v as int, dt as nat));
    let hi: i64 = crate::geometry::axis_max_pos(d);
    proof {
        lemma_size_units(d as nat);
    }
    if moved <= 0 {
        (0, -v)
    } else if moved >= hi as i128 {
        (hi, -v)
    } else {
        (moved as i64, v)
    }
}

} // verus!
