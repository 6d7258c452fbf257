//! Frame plans: the GPU work one frame asks for, as plain data.
//!
//! The engine decides what each render pass reads, writes, clears and
//! blends; the GPU layer walks the plan and records one pass per entry
//! into a command batch. Images are named by their crate-unique ids, and
//! the caller's destination image by [`Attachment::Destination`].

use vstd::prelude::*;
use crate::blur::BlurDirection;
use crate::particle::Particle;

verus! {

/// Where a pass writes: one of the engine's own images, or the
/// destination image the caller handed to `render`.
#[derive(Clone, Copy, Debug, PartialEq, Eq, Structural)]
pub enum Attachment {
    /// An engine-owned render target, by id.
    Image(u64),
    /// The caller-supplied destination image view.
    Destination,
}

/// How a pass treats the existing contents of its color attachment.
#[derive(Clone, Copy, Debug, PartialEq, Eq, Structural)]
pub enum LoadKind {
    /// Keep the existing contents.
    Keep,
    /// Clear to opaque black before drawing.
    ClearBlack,
    /// Clear to fully transparent before drawing.
    ClearTransparent,
}

/// Which draw pipeline a pass binds.
#[derive(Clone, Copy, Debug, PartialEq, Eq, Structural)]
pub enum PipelineKind {
    /// Instanced particle quads.
    Particles,
    /// One separable blur half-pass.
    Blur(BlurDirection),
    /// Full-screen blend replacing the destination.
    CompositeSolid,
    /// Full-screen blend accumulating onto the destination, weighted by a
    /// decay blend constant.
    CompositeTrail,
}

/// One render pass of a frame plan.
#[derive(Clone, Copy, Debug, PartialEq, Eq)]
pub struct PassDesc {
    /// Pipeline the pass binds.
    pub pipeline: PipelineKind,
    /// Treatment of the attachment's existing contents.
    pub load: LoadKind,
    /// Color attachment written by the pass.
    pub target: Attachment,
    /// Engine-owned image sampled by the pass, if any.
    pub source: Option<u64>,
    /// Trail decay in fixed-point `[0, FP]`, set as the blend constant;
    /// meaningful only for [`PipelineKind::CompositeTrail`].
    pub blend_constant: i64,
    /// Number of instances drawn (particle count for the particle pass,
    /// one for full-screen passes).
    pub instances: u64,
}

impl PassDesc {
    /// The pass does not sample the image it writes.
    pub open spec fn no_self_read(self) -> bool {
        match (self.source, self.target) {
            (Option::Some(s), Attachment::Image(t)) => s != t,
            _ => true,
        }
    }
}

/// One packed per-instance record of the particle draw: position, a
/// fade-weighted size, and hue, all in fixed-point steps. The GPU layer
/// converts each lane to a 32-bit float for upload.
#[derive(Clone, Copy, Debug, PartialEq, Eq, Structural)]
pub struct InstanceRecord {
    /// Horizontal position.
    pub x: i64,
    /// Vertical position.
    pub y: i64,
    /// Effective (fade-weighted) size.
    pub size: i64,
    /// Colour fraction in `[0, FP]`.
    pub hue: i64,
}

/// Everything one frame asks of the GPU layer: the per-instance particle
/// data to upload and the passes to record, in order.
#[derive(Debug)]
pub struct FramePlan {
    /// Per-instance particle records, in population iteration order.
    pub instances: Vec<InstanceRecord>,
    /// Render passes, in submission order.
    pub passes: Vec<PassDesc>,
}

/// Everything a resize asks of the GPU layer: the images to reallocate
/// (stale ids disappear with them) and the new frame size for the
/// particle vertex stage's uniform.
#[derive(Debug)]
pub struct ResizePlan {
    /// The engine's images after the resize, to be (re)created.
    pub targets: Vec<crate::render_target::RenderTarget>,
    /// New frame size for the particle-draw uniform.
    pub frame_size: (u32, u32),
}

/// A particle is dead once its age reaches its lifetime; its instance
/// record fades to size zero quadratically on the way there.
pub open spec fn fade_spec(size: int, age: int, lifetime: int) -> int {
    if lifetime == 0 {
        0
    } else {
        let progress = age * (crate::fixed::FP as int) / lifetime;
        if progress >= crate::fixed::FP {
            0
        } else {
            size * ((crate::fixed::FP as int) - progress * progress / (crate::fixed::FP as int))
                / (crate::fixed::FP as int)
        }
    }
}

/// The instance record a particle contributes under gravity `g`.
pub open spec fn record_spec(p: Particle, g: crate::vec2::Vec2) -> InstanceRecord {
    InstanceRecord {
        x: crate::particle::pos_coord(p.init_pos.x as int, p.init_vel.x as int, g.x as int, p.age as int) as i64,
        y: crate::particle::pos_coord(p.init_pos.y as int, p.init_vel.y as int, g.y as int, p.age as int) as i64,
        size: fade_spec(p.size as int, p.age as int, p.lifetime as int) as i64,
        hue: p.hue,
    }
}

} // verus!
