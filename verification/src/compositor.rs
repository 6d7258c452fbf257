//! Full-screen compositing passes and their blend semantics.
//!
//! Two blend contracts over a source and a destination image, both
//! full-screen quads with no depth test. "Solid" clears the destination to
//! transparent and writes the source with straight replace, materializing
//! a layer from scratch. "Trail" keeps the destination and accumulates the
//! source onto it, with a per-draw decay constant weighting how much of
//! the old contents persists — the motion-trail effect. The per-pixel
//! meaning of the trail blend state is modelled here so its properties can
//! be stated and proved.

use vstd::prelude::*;
use crate::fixed::FP;
use crate::plan::{Attachment, LoadKind, PassDesc, PipelineKind};
use crate::render_target::{PixelFormat, RenderTarget};

verus! {

/// One RGBA pixel in fixed-point steps, each channel in `[0, FP]`.
#[derive(Clone, Copy, Debug, PartialEq, Eq, Structural)]
pub struct Pixel {
    /// Red channel.
    pub r: i64,
    /// Green channel.
    pub g: i64,
    /// Blue channel.
    pub b: i64,
    /// Alpha channel.
    pub a: i64,
}

impl Pixel {
    /// Every channel lies in `[0, FP]`.
    pub open spec fn in_range(self) -> bool {
        &&& 0 <= self.r <= FP
        &&& 0 <= self.g <= FP
        &&& 0 <= self.b <= FP
        &&& 0 <= self.a <= FP
    }
}

/// One color channel of the trail blend: the source weighted by its own
/// alpha plus the destination weighted by the decay constant, saturating
/// at 1.0 as the unorm attachment does.
pub open spec fn trail_channel(s: int, sa: int, d: int, decay: int) -> int {
    let v = s * sa / (FP as int) + d * decay / (FP as int);
    if v > FP {
        FP as int
    } else {
        v
    }
}

/// The trail blend applied to one pixel: color channels accumulate with
/// the decay constant weighting the old contents; alpha is replaced by
/// the source alpha.
pub open spec fn trail_blend_spec(src: Pixel, dst: Pixel, decay: int) -> Pixel {
    Pixel {
        r: trail_channel(src.r as int, src.a as int, dst.r as int, decay) as i64,
        g: trail_channel(src.g as int, src.a as int, dst.g as int, decay) as i64,
        b: trail_channel(src.b as int, src.a as int, dst.b as int, decay) as i64,
        a: src.a,
    }
}

/// One color channel of the trail blend, executable.
fn trail_channel_x(s: i64, sa: i64, d: i64, decay: i64) -> (r: i64)
    requires
        0 <= s <= FP,
        0 <= sa <= FP,
        0 <= d <= FP,
        0 <= decay <= FP,
    ensures
        r == trail_channel(s as int, sa as int, d as int, decay as int),
        0 <= r <= FP,
{
    proof {
        assert(0 <= s * sa <= 1_000_000_000_000 && 0 <= d * decay <= 1_000_000_000_000)
            by (nonlinear_arith)
            requires
                0 <= s <= 1_000_000,
                0 <= sa <= 1_000_000,
                0 <= d <= 1_000_000,
                0 <= decay <= 1_000_000,
        ;
    }
    let v: u64 = (s as u64) * (sa as u64) / 1_000_000 + (d as u64) * (decay as u64) / 1_000_000;
    if v > 1_000_000 {
        1_000_000
    } else {
        v as i64
    }
}

/// The trail blend applied to one pixel, executable: the reference
/// semantics of the trail pass's blend state.
pub fn trail_blend(src: Pixel, dst: Pixel, decay: i64) -> (r: Pixel)
    requires
        src.in_range(),
        dst.in_range(),
        0 <= decay <= FP,
    ensures
        r == trail_blend_spec(src, dst, decay as int),
        r.in_range(),
{
    Pixel {
        r: trail_channel_x(src.r, src.a, dst.r, decay),
        g: trail_channel_x(src.g, src.a, dst.g, decay),
        b: trail_channel_x(src.b, src.a, dst.b, decay),
        a: src.a,
    }
}

/// Trail-decay idempotence at decay zero: with no persistence the
/// destination contributes nothing, so compositing the same source twice
/// yields exactly what compositing it once does.
pub proof fn law_trail_decay_zero_idempotent(src: Pixel, dst: Pixel)
    requires
        src.in_range(),
        dst.in_range(),
    ensures
        trail_blend_spec(src, trail_blend_spec(src, dst, 0), 0) == trail_blend_spec(src, dst, 0),
{
    let once = trail_blend_spec(src, dst, 0);
    assert(once.r as int == trail_channel(src.r as int, src.a as int, dst.r as int, 0));
    assert(trail_channel(src.r as int, src.a as int, dst.r as int, 0) == trail_channel(
        src.r as int,
        src.a as int,
        once.r as int,
        0,
    ));
    assert(trail_channel(src.g as int, src.a as int, dst.g as int, 0) == trail_channel(
        src.g as int,
        src.a as int,
        once.g as int,
        0,
    ));
    assert(trail_channel(src.b as int, src.a as int, dst.b as int, 0) == trail_channel(
        src.b as int,
        src.a as int,
        once.b as int,
        0,
    ));
}

/// The compositing stage: two fixed full-screen pipelines (solid and
/// trail) over one pixel format; no other state, re-entrant across frames.
pub struct Compositor {
    /// Pixel format both pipelines render to.
    pub format: PixelFormat,
}

impl Compositor {
    /// A compositor whose two pipelines target the given format.
    pub fn new(format: PixelFormat) -> (r: Compositor)
        ensures
            r.format == format,
    {
        Compositor { format }
    }

    /// The trail pass: keep the destination's contents and blend the
    /// source in, the old contents persisting in proportion to `decay`
    /// (0 keeps nothing, values near `FP` keep nearly everything).
    pub fn render_trail(&self, source: &RenderTarget, dest: Attachment, decay: i64) -> (r:
        PassDesc)
        requires
            0 <= decay <= FP,
            dest != Attachment::Image(source.id),
        ensures
            r == (PassDesc {
                pipeline: PipelineKind::CompositeTrail,
                load: LoadKind::Keep,
                target: dest,
                source: Option::Some(source.id),
                blend_constant: decay,
                instances: 1,
            }),
            r.no_self_read(),
    {
        PassDesc {
            pipeline: PipelineKind::CompositeTrail,
            load: LoadKind::Keep,
            target: dest,
            source: Option::Some(source.id),
            blend_constant: decay,
            instances: 1,
        }
    }

    /// The solid pass: clear the destination to transparent, then write
    /// the source with straight replace.
    pub fn render_solid(&self, source: &RenderTarget, dest: Attachment) -> (r: PassDesc)
        requires
            dest != Attachment::Image(source.id),
        ensures
            r == (PassDesc {
                pipeline: PipelineKind::CompositeSolid,
                load: LoadKind::ClearTransparent,
                target: dest,
                source: Option::Some(source.id),
                blend_constant: 0,
                instances: 1,
            }),
            r.no_self_read(),
    {
        PassDesc {
            pipeline: PipelineKind::CompositeSolid,
            load: LoadKind::ClearTransparent,
            target: dest,
            source: Option::Some(source.id),
            blend_constant: 0,
            instances: 1,
        }
    }
}

} // verus!
