//! A window-size-relative square: where it sits, how it moves under input and
//! bounce physics, and how it is drawn into a pixel canvas.
//!
//! Positions are fixed-point: one pixel is `SUBPIXELS` units, so that slow
//! movement accumulates across frames instead of being lost to rounding.

pub mod geometry;
pub mod motion;
pub mod animator;
pub mod raster;
pub mod laws;

pub use geometry::{Canvas, SUBPIXELS, SIZE_PERCENT};
pub use motion::{step_axis, MICROS_PER_SECOND};
pub use animator::{Direction, Input, SquareAnimator, STEP_PIXELS, INITIAL_SPEED};
pub use raster::{BACKGROUND, FOREGROUND};
