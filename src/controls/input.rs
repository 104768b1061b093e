//! What the controller reads from the engine each tick: key state, mouse
//! motion, and the sine and cosine of the angles it turns by.
use crate::fixed::SCALE;
use vstd::prelude::*;

verus! {

/// The movement keys as they stand this tick.
#[derive(Clone, Copy, Debug, PartialEq, Eq, Structural)]
pub struct KeyState {
    pub forward: bool,
    pub back: bool,
    pub left: bool,
    pub right: bool,
    /// The jump key went down this tick (it was up on the tick before).
    pub jump_just_pressed: bool,
}

/// One mouse motion sample, in millionths of a pixel.
#[derive(Clone, Copy, Debug, PartialEq, Eq, Structural)]
pub struct MouseMotion {
    pub dx: i64,
    pub dy: i64,
}

/// Sine and cosine of an angle, in millionths.
#[derive(Clone, Copy, Debug, PartialEq, Eq, Structural)]
pub struct SinCos {
    pub sin: i64,
    pub cos: i64,
}

impl SinCos {
    /// Both lie in `[-1, 1]`.
    pub open spec fn wf(self) -> bool {
        -SCALE <= self.sin <= SCALE && -SCALE <= self.cos <= SCALE
    }
}

} // verus!
