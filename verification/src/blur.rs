//! Separable ping-pong blur over an internal render-target pair.
//!
//! An N×N blur kernel separates into a horizontal and a vertical 1×N pass,
//! turning O(N²) per-pixel work into O(N). Each pass pair reads the
//! current source of the internal pair and writes the other half, swapping
//! roles in between, so no third image is ever allocated; the final
//! vertical pass writes the caller-supplied destination instead. The pair
//! lives at reduced resolution: a cheaper, softer blur used as a glow
//! layer.

use vstd::prelude::*;
use crate::plan::{Attachment, LoadKind, PassDesc, PipelineKind};
use crate::render_target::{IdAlloc, PixelFormat, RenderTarget, SwapBufferPair};

verus! {

/// Direction of one separable blur half-pass.
#[derive(Clone, Copy, Debug, PartialEq, Eq, Structural)]
pub enum BlurDirection {
    /// Blur along the x axis.
    Horizontal,
    /// Blur along the y axis.
    Vertical,
}

/// The `k`-th half-pass of a blur over the pair `(s0, d0)` whose last
/// half-pass writes `dest`: even passes blur horizontally reading the
/// image the previous pass wrote, odd ones vertically, ping-ponging
/// between the two images.
pub open spec fn blur_pass_spec(
    k: int,
    s0: u64,
    d0: u64,
    dest: Attachment,
    passes: int,
) -> PassDesc {
    PassDesc {
        pipeline: if k % 2 == 0 {
            PipelineKind::Blur(BlurDirection::Horizontal)
        } else {
            PipelineKind::Blur(BlurDirection::Vertical)
        },
        load: LoadKind::Keep,
        target: if k == 2 * passes - 1 {
            dest
        } else {
            Attachment::Image(if k % 2 == 0 { d0 } else { s0 })
        },
        source: Option::Some(if k % 2 == 0 { s0 } else { d0 }),
        blend_constant: 0,
        instances: 1,
    }
}

/// `dest` is neither half of the pair, so no blur pass can read the image
/// it writes.
pub open spec fn dest_outside_pair(dest: Attachment, pair: SwapBufferPair) -> bool {
    match dest {
        Attachment::Image(t) => t != pair.source.id && t != pair.dest.id,
        Attachment::Destination => true,
    }
}

/// The blur stage: its internal reduced-resolution pair.
pub struct BlurRenderer {
    /// The ping-pong pair the blur passes read and write.
    pub swap_buffers: SwapBufferPair,
}

impl BlurRenderer {
    /// Both halves of the pair agree in size and format and are distinct.
    pub open spec fn wf(self) -> bool {
        self.swap_buffers.wf()
    }

    /// A blur stage over a fresh pair of `width` by `height` images.
    pub fn new(ids: &mut IdAlloc, width: u32, height: u32, format: PixelFormat) -> (r:
        BlurRenderer)
        requires
            old(ids).next + 2 <= u64::MAX,
        ensures
            r.wf(),
            r.swap_buffers.source.width == width,
            r.swap_buffers.source.height == height,
            r.swap_buffers.dest.width == width,
            r.swap_buffers.dest.height == height,
            r.swap_buffers.format == format,
            old(ids).next <= r.swap_buffers.source.id < final(ids).next,
            old(ids).next <= r.swap_buffers.dest.id < final(ids).next,
            final(ids).next == old(ids).next + 2,
    {
        BlurRenderer { swap_buffers: SwapBufferPair::new(ids, width, height, format) }
    }

    /// The image a producer must fill before the first blur pass reads it.
    pub fn source(&self) -> (r: &RenderTarget)
        ensures
            *r == self.swap_buffers.source,
    {
        &self.swap_buffers.source
    }

    /// Discard the pair and reallocate it at the new size under fresh ids.
    pub fn resize(&mut self, ids: &mut IdAlloc, width: u32, height: u32)
        requires
            old(ids).next + 2 <= u64::MAX,
        ensures
            final(self).wf(),
            final(self).swap_buffers.format == old(self).swap_buffers.format,
            final(self).swap_buffers.source.width == width,
            final(self).swap_buffers.source.height == height,
            final(self).swap_buffers.dest.width == width,
            final(self).swap_buffers.dest.height == height,
            old(ids).next <= final(self).swap_buffers.source.id < final(ids).next,
            old(ids).next <= final(self).swap_buffers.dest.id < final(ids).next,
            final(ids).next == old(ids).next + 2,
    {
        self.swap_buffers.resize(ids, width, height);
    }

    /// `passes` horizontal+vertical pass pairs over the internal pair; the
    /// final vertical output goes to `dest` instead. Every pass reads
    /// exactly the image the previous pass wrote and never the one it
    /// writes itself.
    pub fn render(&mut self, dest: Attachment, passes: u64) -> (r: Vec<PassDesc>)
        requires
            old(self).wf(),
            dest_outside_pair(dest, old(self).swap_buffers),
            passes <= 1_000_000,
        ensures
            final(self).wf(),
            r@.len() == 2 * passes,
            forall|k: int|
                0 <= k < r@.len() ==> r@[k] == blur_pass_spec(
                    k,
                    old(self).swap_buffers.source.id,
                    old(self).swap_buffers.dest.id,
                    dest,
                    passes as int,
                ),
            forall|k: int| 0 <= k < r@.len() ==> (#[trigger] r@[k]).no_self_read(),
            forall|k: int|
                1 <= k < r@.len() ==> r@[k - 1].target == Attachment::Image(
                    (#[trigger] r@[k]).source.unwrap(),
                ),
            if passes == 0 {
                final(self).swap_buffers == old(self).swap_buffers
            } else {
                final(self).swap_buffers == (SwapBufferPair {
                    source: old(self).swap_buffers.dest,
                    dest: old(self).swap_buffers.source,
                    format: old(self).swap_buffers.format,
                })
            },
    {
        let ghost pair0 = self.swap_buffers;
        let ghost s0 = self.swap_buffers.source.id;
        let ghost d0 = self.swap_buffers.dest.id;
        let mut r: Vec<PassDesc> = Vec::new();
        let mut i: u64 = 0;
        while i < passes
            invariant
                i <= passes,
                passes <= 1_000_000,
                pair0.wf(),
                s0 == pair0.source.id,
                d0 == pair0.dest.id,
                dest_outside_pair(dest, pair0),
                self.swap_buffers == if i < passes || passes == 0 {
                    pair0
                } else {
                    SwapBufferPair { source: pair0.dest, dest: pair0.source, format: pair0.format }
                },
                r@.len() == 2 * i,
                forall|k: int|
                    0 <= k < r@.len() ==> r@[k] == blur_pass_spec(k, s0, d0, dest, passes as int),
            decreases passes - i,
        {
            let horizontal = PassDesc {
                pipeline: PipelineKind::Blur(BlurDirection::Horizontal),
                load: LoadKind::Keep,
                target: Attachment::Image(self.swap_buffers.dest.id),
                source: Option::Some(self.swap_buffers.source.id),
                blend_constant: 0,
                instances: 1,
            };
            r.push(horizontal);
            self.swap_buffers.swap();
            let vertical = PassDesc {
                pipeline: PipelineKind::Blur(BlurDirection::Vertical),
                load: LoadKind::Keep,
                target: if i + 1 == passes {
                    dest
                } else {
                    Attachment::Image(self.swap_buffers.dest.id)
                },
                source: Option::Some(self.swap_buffers.source.id),
                blend_constant: 0,
                instances: 1,
            };
            r.push(vertical);
            if i + 1 < passes {
                self.swap_buffers.swap();
            }
            proof {
                assert(r@[2 * i as int] == blur_pass_spec(2 * i as int, s0, d0, dest, passes as int));
                assert(r@[2 * i as int + 1] == blur_pass_spec(
                    2 * i as int + 1,
                    s0,
                    d0,
                    dest,
                    passes as int,
                ));
            }
            i = i + 1;
        }
        r
    }
}

} // verus!
