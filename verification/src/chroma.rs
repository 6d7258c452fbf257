//! The top-level engine: one particle stage, one blur stage, one
//! compositor, and the intermediate images they share, wired into a fixed
//! per-frame pass sequence.
//!
//! Per frame: the accumulator (last frame's composite) is downsampled into
//! the blur pair, blurred back over the accumulator as a soft glow, the
//! live particles are drawn into their own target, trail-blended onto the
//! accumulator with the configured decay, and the accumulator is copied
//! onto the caller's destination. `update` and `render` are synchronous
//! and non-reentrant: one engine instance expects a single caller at a
//! time, as in a per-frame game loop, with no internal locking.

use vstd::prelude::*;
use crate::blur::{blur_pass_spec, BlurRenderer};
use crate::compositor::Compositor;
use crate::fixed::{DELTA_LIMIT, FP};
use crate::particle::{emit_rem, period_spec, ParticleRenderer, ParticleSettings};
use crate::plan::{Attachment, FramePlan, InstanceRecord, PassDesc, ResizePlan};
use crate::render_target::{IdAlloc, PixelFormat, RenderTarget};

verus! {

/// Session-wide configuration: the emission model plus the trail decay the
/// compositor applies each frame. Changing it means rebuilding the engine.
#[derive(Clone, Copy, Debug, PartialEq, Eq, Structural)]
pub struct ChromaSettings {
    /// Particle emission and physics configuration.
    pub particles: ParticleSettings,
    /// Trail persistence factor in fixed-point `[0, FP]`.
    pub decay: i64,
}

impl ChromaSettings {
    /// Valid emission settings and a decay within `[0, 1]`.
    pub open spec fn valid(self) -> bool {
        &&& self.particles.valid()
        &&& 0 <= self.decay <= FP
    }
}

/// The engine: owns every stage and every intermediate image.
pub struct Chroma {
    /// Session configuration.
    pub settings: ChromaSettings,
    /// Particle simulation and draw stage.
    pub particle_renderer: ParticleRenderer,
    /// Glow stage over a half-resolution pair.
    pub blur_renderer: BlurRenderer,
    /// Solid and trail compositing passes.
    pub compositor: Compositor,
    /// Full-resolution target the particle pass draws into each frame.
    pub particles_target: RenderTarget,
    /// Full-resolution accumulator carrying frame-to-frame trails.
    pub accumulator: RenderTarget,
    /// Source of crate-unique image ids.
    pub ids: IdAlloc,
    /// Current frame width in pixels.
    pub width: u32,
    /// Current frame height in pixels.
    pub height: u32,
}

impl Chroma {
    /// `id` names one of the images the engine currently owns.
    pub open spec fn owns(self, id: u64) -> bool {
        ||| id == self.particles_target.id
        ||| id == self.accumulator.id
        ||| id == self.blur_renderer.swap_buffers.source.id
        ||| id == self.blur_renderer.swap_buffers.dest.id
    }

    /// Every image the pass touches is currently owned (or the caller's
    /// destination).
    pub open spec fn pass_owned(self, p: PassDesc) -> bool {
        &&& match p.target {
            Attachment::Image(t) => self.owns(t),
            Attachment::Destination => true,
        }
        &&& match p.source {
            Option::Some(s) => self.owns(s),
            Option::None => true,
        }
    }

    /// Structural invariant: valid settings, well-formed stages, all
    /// images in one format, full-resolution targets at the frame size and
    /// the blur pair at half resolution, and four pairwise-distinct image
    /// ids, all below the allocator's watermark.
    pub open spec fn wf(self) -> bool {
        &&& self.settings.valid()
        &&& self.particle_renderer.wf()
        &&& self.particle_renderer.settings == self.settings.particles
        &&& self.blur_renderer.wf()
        &&& self.particles_target.format == self.compositor.format
        &&& self.accumulator.format == self.compositor.format
        &&& self.blur_renderer.swap_buffers.format == self.compositor.format
        &&& self.particles_target.width == self.width
        &&& self.particles_target.height == self.height
        &&& self.accumulator.width == self.width
        &&& self.accumulator.height == self.height
        &&& self.blur_renderer.swap_buffers.source.width == self.width / 2
        &&& self.blur_renderer.swap_buffers.source.height == self.height / 2
        &&& self.particles_target.id != self.accumulator.id
        &&& self.particles_target.id != self.blur_renderer.swap_buffers.source.id
        &&& self.particles_target.id != self.blur_renderer.swap_buffers.dest.id
        &&& self.accumulator.id != self.blur_renderer.swap_buffers.source.id
        &&& self.accumulator.id != self.blur_renderer.swap_buffers.dest.id
        &&& self.particles_target.id < self.ids.next
        &&& self.accumulator.id < self.ids.next
        &&& self.blur_renderer.swap_buffers.source.id < self.ids.next
        &&& self.blur_renderer.swap_buffers.dest.id < self.ids.next
    }

    /// Build an engine for a `width` by `height` destination of the given
    /// format. Allocation failure of the GPU layer is fatal to
    /// construction and is surfaced there, not here.
    pub fn new(width: u32, height: u32, format: PixelFormat, settings: ChromaSettings) -> (r:
        Chroma)
        requires
            settings.valid(),
        ensures
            r.wf(),
            r.settings == settings,
            r.width == width,
            r.height == height,
            r.compositor.format == format,
            r.particle_renderer.particle_system.parts().len() == 0,
            r.particle_renderer.time_since_last_emit == 0,
    {
        let mut ids = IdAlloc::new();
        let blur_renderer = BlurRenderer::new(&mut ids, width / 2, height / 2, format);
        let particles_target = RenderTarget::new(&mut ids, width, height, format);
        let accumulator = RenderTarget::new(&mut ids, width, height, format);
        Chroma {
            particle_renderer: ParticleRenderer::new(settings.particles),
            blur_renderer,
            compositor: Compositor::new(format),
            particles_target,
            accumulator,
            ids,
            width,
            height,
            settings,
        }
    }

    /// Advance the simulation by `delta` microseconds against the supplied
    /// frequency magnitudes (fixed-point values in `[0, FP]`, any length;
    /// bins are sampled by nearest index). Runs strictly before `render`
    /// in each frame. The live population stays below the configured cap.
    pub fn update(&mut self, delta: u64, data: &Vec<i64>)
        requires
            old(self).wf(),
            delta <= DELTA_LIMIT,
            1 <= data@.len(),
            forall|i: int| 0 <= i < data@.len() ==> 0 <= #[trigger] data@[i] <= FP,
        ensures
            final(self).wf(),
            final(self).settings == old(self).settings,
            final(self).blur_renderer == old(self).blur_renderer,
            final(self).particles_target == old(self).particles_target,
            final(self).accumulator == old(self).accumulator,
            final(self).ids == old(self).ids,
            final(self).width == old(self).width,
            final(self).height == old(self).height,
            final(self).particle_renderer.particle_system.parts().len() < old(
                self,
            ).settings.particles.max_particles,
            final(self).particle_renderer.time_since_last_emit == emit_rem(
                old(self).particle_renderer.time_since_last_emit as int,
                delta as int,
                period_spec(old(self).settings.particles),
            ),
            exists|mid: Seq<crate::particle::Particle>|
                crate::particle::gen_post(
                    old(self).particle_renderer.particle_system.parts(),
                    mid,
                    old(self).settings.particles,
                    old(self).particle_renderer.time_since_last_emit,
                    delta,
                ) && final(self).particle_renderer.particle_system.parts()
                    == crate::particle::purge_advance(mid, delta),
    {
        self.particle_renderer.update(delta, data);
    }

    /// Discard and reallocate every size-dependent image at the new size —
    /// full resolution for the particle target and the accumulator, half
    /// resolution for the blur pair — under fresh ids, and hand the GPU
    /// layer the list to (re)create. No image from before the resize is
    /// referenced again: every new id sits at or above the old watermark.
    pub fn resize(&mut self, width: u32, height: u32) -> (r: ResizePlan)
        requires
            old(self).wf(),
            old(self).ids.next + 4 <= u64::MAX,
        ensures
            final(self).wf(),
            final(self).width == width,
            final(self).height == height,
            final(self).settings == old(self).settings,
            final(self).particles_target.width == width,
            final(self).particles_target.height == height,
            final(self).accumulator.width == width,
            final(self).accumulator.height == height,
            final(self).blur_renderer.swap_buffers.source.width == width / 2,
            final(self).blur_renderer.swap_buffers.source.height == height / 2,
            final(self).blur_renderer.swap_buffers.dest.width == width / 2,
            final(self).blur_renderer.swap_buffers.dest.height == height / 2,
            old(self).ids.next <= final(self).particles_target.id,
            old(self).ids.next <= final(self).accumulator.id,
            old(self).ids.next <= final(self).blur_renderer.swap_buffers.source.id,
            old(self).ids.next <= final(self).blur_renderer.swap_buffers.dest.id,
            final(self).particle_renderer.particle_system == old(
                self,
            ).particle_renderer.particle_system,
            final(self).particle_renderer.time_since_last_emit == old(
                self,
            ).particle_renderer.time_since_last_emit,
            final(self).particle_renderer.frame_size == (width, height),
            r.targets@.len() == 4,
            r.targets@[0] == final(self).particles_target,
            r.targets@[1] == final(self).accumulator,
            r.targets@[2] == final(self).blur_renderer.swap_buffers.source,
            r.targets@[3] == final(self).blur_renderer.swap_buffers.dest,
            r.frame_size == (width, height),
    {
        self.particle_renderer.resize(width, height);
        self.blur_renderer.resize(&mut self.ids, width / 2, height / 2);
        self.particles_target = RenderTarget::new(&mut self.ids, width, height, self.compositor.format);
        self.accumulator = RenderTarget::new(&mut self.ids, width, height, self.compositor.format);
        self.width = width;
        self.height = height;
        ResizePlan {
            targets: vec![
                self.particles_target,
                self.accumulator,
                self.blur_renderer.swap_buffers.source,
                self.blur_renderer.swap_buffers.dest,
            ],
            frame_size: (width, height),
        }
    }

    /// Plan one frame, in six passes: downsample the accumulator into the
    /// blur pair, blur it horizontally then vertically back over the
    /// accumulator, draw the live particles into their own target, trail-
    /// blend them onto the accumulator with the configured decay, and copy
    /// the accumulator onto the caller's destination. Every pass reads and
    /// writes only currently-owned images (or the destination), and none
    /// samples the image it writes.
    pub fn render(&mut self) -> (r: FramePlan)
        requires
            old(self).wf(),
        ensures
            final(self).wf(),
            final(self).settings == old(self).settings,
            final(self).particle_renderer == old(self).particle_renderer,
            final(self).particles_target == old(self).particles_target,
            final(self).accumulator == old(self).accumulator,
            final(self).ids == old(self).ids,
            final(self).width == old(self).width,
            final(self).height == old(self).height,
            final(self).blur_renderer.swap_buffers.source == old(
                self,
            ).blur_renderer.swap_buffers.dest,
            final(self).blur_renderer.swap_buffers.dest == old(
                self,
            ).blur_renderer.swap_buffers.source,
            r.instances@.len() == old(self).particle_renderer.particle_system.parts().len(),
            forall|i: int|
                0 <= i < r.instances@.len() ==> r.instances@[i] == crate::plan::record_spec(
                    #[trigger] old(self).particle_renderer.particle_system.parts()[i],
                    old(self).settings.particles.gravity,
                ),
            r.passes@.len() == 6,
            r.passes@[0] == (PassDesc {
                pipeline: crate::plan::PipelineKind::CompositeSolid,
                load: crate::plan::LoadKind::ClearTransparent,
                target: Attachment::Image(old(self).blur_renderer.swap_buffers.source.id),
                source: Option::Some(old(self).accumulator.id),
                blend_constant: 0,
                instances: 1,
            }),
            r.passes@[1] == blur_pass_spec(
                0,
                old(self).blur_renderer.swap_buffers.source.id,
                old(self).blur_renderer.swap_buffers.dest.id,
                Attachment::Image(old(self).accumulator.id),
                1,
            ),
            r.passes@[2] == blur_pass_spec(
                1,
                old(self).blur_renderer.swap_buffers.source.id,
                old(self).blur_renderer.swap_buffers.dest.id,
                Attachment::Image(old(self).accumulator.id),
                1,
            ),
            r.passes@[3] == (PassDesc {
                pipeline: crate::plan::PipelineKind::Particles,
                load: crate::plan::LoadKind::ClearBlack,
                target: Attachment::Image(old(self).particles_target.id),
                source: Option::None,
                blend_constant: 0,
                instances: old(self).particle_renderer.particle_system.parts().len() as u64,
            }),
            r.passes@[4] == (PassDesc {
                pipeline: crate::plan::PipelineKind::CompositeTrail,
                load: crate::plan::LoadKind::Keep,
                target: Attachment::Image(old(self).accumulator.id),
                source: Option::Some(old(self).particles_target.id),
                blend_constant: old(self).settings.decay,
                instances: 1,
            }),
            r.passes@[5] == (PassDesc {
                pipeline: crate::plan::PipelineKind::CompositeSolid,
                load: crate::plan::LoadKind::ClearTransparent,
                target: Attachment::Destination,
                source: Option::Some(old(self).accumulator.id),
                blend_constant: 0,
                instances: 1,
            }),
            forall|k: int|
                0 <= k < r.passes@.len() ==> final(self).pass_owned(#[trigger] r.passes@[k]),
            forall|k: int| 0 <= k < r.passes@.len() ==> (#[trigger] r.passes@[k]).no_self_read(),
    {
        let mut passes: Vec<PassDesc> = Vec::new();
        let downsample = self.compositor.render_solid(
            &self.accumulator,
            Attachment::Image(self.blur_renderer.swap_buffers.source.id),
        );
        passes.push(downsample);
        let blur_passes = self.blur_renderer.render(Attachment::Image(self.accumulator.id), 1);
        passes.push(blur_passes[0]);
        passes.push(blur_passes[1]);
        let (instances, particle_pass) = self.particle_renderer.render(
            Attachment::Image(self.particles_target.id),
        );
        passes.push(particle_pass);
        let trail = self.compositor.render_trail(
            &self.particles_target,
            Attachment::Image(self.accumulator.id),
            self.settings.decay,
        );
        passes.push(trail);
        let present = self.compositor.render_solid(&self.accumulator, Attachment::Destination);
        passes.push(present);
        FramePlan { instances, passes }
    }
}

} // verus!
