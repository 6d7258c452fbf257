//! The frame-loop abstraction a windowing layer drives.
//!
//! A renderer advances on audio data, reallocates on resize, and plans one
//! frame of GPU work at a time. Implementations carry an invariant that
//! all three operations preserve, so a frame loop can interleave them
//! freely (from a single calling context; none of this is locked).

use vstd::prelude::*;
use crate::chroma::Chroma;
use crate::fixed::{DELTA_LIMIT, FP};
use crate::plan::{FramePlan, ResizePlan};

verus! {

/// Something a per-frame loop can drive: update on audio, resize, render.
pub trait Renderer: Sized {
    /// State invariant preserved by every operation.
    spec fn inv(&self) -> bool;

    /// Resources are available for one more reallocation.
    spec fn can_resize(&self) -> bool;

    /// Advance the simulation by `delta` microseconds against frequency
    /// magnitudes in fixed-point `[0, FP]`.
    fn update(&mut self, delta: u64, data: &Vec<i64>)
        requires
            old(self).inv(),
            delta <= DELTA_LIMIT,
            1 <= data@.len(),
            forall|i: int| 0 <= i < data@.len() ==> 0 <= #[trigger] data@[i] <= FP,
        ensures
            final(self).inv(),
    ;

    /// Reallocate every size-dependent resource for the new frame size.
    fn resize(&mut self, width: u32, height: u32) -> (work: ResizePlan)
        requires
            old(self).inv(),
            old(self).can_resize(),
        ensures
            final(self).inv(),
    ;

    /// Plan one frame of GPU work.
    fn render(&mut self) -> (work: FramePlan)
        requires
            old(self).inv(),
        ensures
            final(self).inv(),
    ;
}

impl Renderer for Chroma {
    /// The engine's structural invariant.
    open spec fn inv(&self) -> bool {
        self.wf()
    }

    /// Four image ids are left to hand out.
    open spec fn can_resize(&self) -> bool {
        self.ids.next + 4 <= u64::MAX
    }

    fn update(&mut self, delta: u64, data: &Vec<i64>) {
        Chroma::update(self, delta, data);
    }

    fn resize(&mut self, width: u32, height: u32) -> (work: ResizePlan) {
        Chroma::resize(self, width, height)
    }

    fn render(&mut self) -> (work: FramePlan) {
        Chroma::render(self)
    }
}

} // verus!
