//! Fixed-point 2D vectors.

use vstd::prelude::*;

verus! {

/// A 2D vector whose components are fixed-point steps (`fixed::FP` per unit).
#[derive(Clone, Copy, Debug, PartialEq, Eq, Structural)]
pub struct Vec2 {
    pub x: i64,
    pub y: i64,
}

impl Vec2 {
    /// Both components have magnitude at most `bound`.
    pub open spec fn bounded(self, bound: int) -> bool {
        -bound <= self.x <= bound && -bound <= self.y <= bound
    }
}

} // verus!
