use chromaviz::chroma::{Chroma, ChromaSettings};
use chromaviz::compositor::{trail_blend, Pixel};
use chromaviz::fixed::FP;
use chromaviz::particle::{Particle, ParticleRenderer, ParticleSettings, ParticleSystem, SizeRange};
use chromaviz::plan::{Attachment, LoadKind, PipelineKind};
use chromaviz::blur::{BlurDirection, BlurRenderer};
use chromaviz::render_target::{IdAlloc, PixelFormat, SwapBufferPair};
use chromaviz::renderer::Renderer;
use chromaviz::vec2::Vec2;

fn engine_settings() -> ChromaSettings {
    ChromaSettings {
        particles: ParticleSettings {
            gravity: Vec2 { x: 0, y: -3 * FP },
            frequencies: 32,
            frequencies_spread: FP,
            max_particles: 10_000,
            particles_per_second: 2_000,
            angular_spread: 5 * FP,
            velocity_spread: FP / 10,
            size_range: SizeRange { min: 4 * FP, max: 6 * FP },
        },
        decay: 900_000,
    }
}

#[test]
fn new_engine_owns_four_distinct_images() {
    let engine = Chroma::new(640, 480, PixelFormat::Bgra8UnormSrgb, engine_settings());
    let mut ids = vec![
        engine.particles_target.id,
        engine.accumulator.id,
        engine.blur_renderer.swap_buffers.source.id,
        engine.blur_renderer.swap_buffers.dest.id,
    ];
    ids.sort();
    ids.dedup();
    assert_eq!(ids.len(), 4);
    assert_eq!(engine.particles_target.width, 640);
    assert_eq!(engine.particles_target.height, 480);
    assert_eq!(engine.accumulator.width, 640);
    assert_eq!(engine.accumulator.height, 480);
    assert_eq!(engine.blur_renderer.swap_buffers.source.width, 320);
    assert_eq!(engine.blur_renderer.swap_buffers.source.height, 240);
}

#[test]
fn resize_reallocates_everything_fresh() {
    let mut engine = Chroma::new(640, 480, PixelFormat::Bgra8UnormSrgb, engine_settings());
    let watermark = engine.ids.next;
    let old_ids = vec![
        engine.particles_target.id,
        engine.accumulator.id,
        engine.blur_renderer.swap_buffers.source.id,
        engine.blur_renderer.swap_buffers.dest.id,
    ];
    let plan = engine.resize(800, 600);
    assert_eq!(plan.frame_size, (800, 600));
    assert_eq!(plan.targets.len(), 4);
    assert_eq!(plan.targets[0].width, 800);
    assert_eq!(plan.targets[0].height, 600);
    assert_eq!(plan.targets[1].width, 800);
    assert_eq!(plan.targets[1].height, 600);
    assert_eq!(plan.targets[2].width, 400);
    assert_eq!(plan.targets[2].height, 300);
    assert_eq!(plan.targets[3].width, 400);
    assert_eq!(plan.targets[3].height, 300);
    for t in &plan.targets {
        assert!(t.id >= watermark);
        assert!(!old_ids.contains(&t.id));
    }
    assert_eq!(engine.particle_renderer.frame_size, (800, 600));
}

#[test]
fn frame_plan_has_the_six_pass_sequence() {
    let mut engine = Chroma::new(640, 480, PixelFormat::Bgra8UnormSrgb, engine_settings());
    let particles_id = engine.particles_target.id;
    let accumulator_id = engine.accumulator.id;
    let blur_src = engine.blur_renderer.swap_buffers.source.id;
    let blur_dst = engine.blur_renderer.swap_buffers.dest.id;
    let plan = engine.render();
    assert_eq!(plan.passes.len(), 6);

    assert_eq!(plan.passes[0].pipeline, PipelineKind::CompositeSolid);
    assert_eq!(plan.passes[0].load, LoadKind::ClearTransparent);
    assert_eq!(plan.passes[0].source, Some(accumulator_id));
    assert_eq!(plan.passes[0].target, Attachment::Image(blur_src));

    assert_eq!(plan.passes[1].pipeline, PipelineKind::Blur(BlurDirection::Horizontal));
    assert_eq!(plan.passes[1].load, LoadKind::Keep);
    assert_eq!(plan.passes[1].source, Some(blur_src));
    assert_eq!(plan.passes[1].target, Attachment::Image(blur_dst));

    assert_eq!(plan.passes[2].pipeline, PipelineKind::Blur(BlurDirection::Vertical));
    assert_eq!(plan.passes[2].source, Some(blur_dst));
    assert_eq!(plan.passes[2].target, Attachment::Image(accumulator_id));

    assert_eq!(plan.passes[3].pipeline, PipelineKind::Particles);
    assert_eq!(plan.passes[3].load, LoadKind::ClearBlack);
    assert_eq!(plan.passes[3].source, None);
    assert_eq!(plan.passes[3].target, Attachment::Image(particles_id));
    assert_eq!(plan.passes[3].instances, 0);

    assert_eq!(plan.passes[4].pipeline, PipelineKind::CompositeTrail);
    assert_eq!(plan.passes[4].load, LoadKind::Keep);
    assert_eq!(plan.passes[4].source, Some(particles_id));
    assert_eq!(plan.passes[4].target, Attachment::Image(accumulator_id));
    assert_eq!(plan.passes[4].blend_constant, 900_000);

    assert_eq!(plan.passes[5].pipeline, PipelineKind::CompositeSolid);
    assert_eq!(plan.passes[5].source, Some(accumulator_id));
    assert_eq!(plan.passes[5].target, Attachment::Destination);

    // No pass samples the image it writes.
    for p in &plan.passes {
        if let (Some(s), Attachment::Image(t)) = (p.source, p.target) {
            assert_ne!(s, t);
        }
    }

    // The blur pair swapped roles; a second frame ping-pongs back.
    assert_eq!(engine.blur_renderer.swap_buffers.source.id, blur_dst);
    let plan2 = engine.render();
    assert_eq!(plan2.passes[1].source, Some(blur_dst));
    assert_eq!(plan2.passes[1].target, Attachment::Image(blur_src));
}

#[test]
fn engine_update_keeps_population_bounded() {
    let mut engine = Chroma::new(640, 480, PixelFormat::Bgra8UnormSrgb, engine_settings());
    let data: Vec<i64> = (0..32).map(|i| (i as i64) * FP / 31).collect();
    for _ in 0..50 {
        engine.update(16_000, &data);
        assert!(
            engine.particle_renderer.particle_system.count()
                < engine.settings.particles.max_particles as usize
        );
    }
    let plan = engine.render();
    assert_eq!(
        plan.instances.len(),
        engine.particle_renderer.particle_system.count()
    );
    assert_eq!(
        plan.passes[3].instances,
        engine.particle_renderer.particle_system.count() as u64
    );
    for rec in &plan.instances {
        assert!(rec.hue >= 0 && rec.hue <= FP);
        assert!(rec.size >= 0);
    }
}

#[test]
fn renderer_trait_drives_the_engine() {
    let mut engine = Chroma::new(320, 200, PixelFormat::Rgba8Unorm, engine_settings());
    let data = vec![FP / 2; 32];
    Renderer::update(&mut engine, 16_000, &data);
    let work = Renderer::resize(&mut engine, 640, 400);
    assert_eq!(work.frame_size, (640, 400));
    let frame = Renderer::render(&mut engine);
    assert_eq!(frame.passes.len(), 6);
}

#[test]
fn instance_records_fade_quadratically() {
    let lifetime: u64 = 1_000_000;
    let settings = engine_settings().particles;
    let mk = |age: u64| Particle {
        init_pos: Vec2 { x: 0, y: 0 },
        init_vel: Vec2 { x: 0, y: 0 },
        age,
        lifetime,
        hue: 0,
        size: FP,
    };
    let renderer = ParticleRenderer {
        settings,
        particle_system: ParticleSystem {
            max_particles: 10,
            particles: vec![mk(0), mk(lifetime / 2), mk(lifetime)],
        },
        time_since_last_emit: 0,
        frame_size: (640, 480),
        particle_buffer_size: settings.max_particles * 16,
    };
    let (records, pass) = renderer.render(Attachment::Image(9));
    assert_eq!(pass.instances, 3);
    // Fresh: full size. Halfway: 1 - 0.25 of it. Done: gone.
    assert_eq!(records[0].size, FP);
    assert_eq!(records[1].size, 750_000);
    assert_eq!(records[2].size, 0);
}

#[test]
fn blur_ping_pongs_between_its_pair() {
    let mut ids = IdAlloc::new();
    let mut blur = BlurRenderer::new(&mut ids, 320, 240, PixelFormat::Rgba8Unorm);
    let s0 = blur.swap_buffers.source.id;
    let d0 = blur.swap_buffers.dest.id;
    let passes = blur.render(Attachment::Destination, 2);
    assert_eq!(passes.len(), 4);
    // Chain: each half-pass reads exactly what the previous one wrote.
    assert_eq!(passes[0].source, Some(s0));
    assert_eq!(passes[0].target, Attachment::Image(d0));
    assert_eq!(passes[1].source, Some(d0));
    assert_eq!(passes[1].target, Attachment::Image(s0));
    assert_eq!(passes[2].source, Some(s0));
    assert_eq!(passes[2].target, Attachment::Image(d0));
    assert_eq!(passes[3].source, Some(d0));
    assert_eq!(passes[3].target, Attachment::Destination);
    for (k, p) in passes.iter().enumerate() {
        let dir = if k % 2 == 0 { BlurDirection::Horizontal } else { BlurDirection::Vertical };
        assert_eq!(p.pipeline, PipelineKind::Blur(dir));
        assert_eq!(p.load, LoadKind::Keep);
    }
    assert_eq!(blur.swap_buffers.source.id, d0);
    assert_eq!(blur.swap_buffers.dest.id, s0);
}

#[test]
fn blur_with_zero_passes_is_empty() {
    let mut ids = IdAlloc::new();
    let mut blur = BlurRenderer::new(&mut ids, 100, 100, PixelFormat::Rgba8Unorm);
    let s0 = blur.swap_buffers.source.id;
    let passes = blur.render(Attachment::Destination, 0);
    assert!(passes.is_empty());
    assert_eq!(blur.swap_buffers.source.id, s0);
}

#[test]
fn swap_pair_exchanges_roles_without_new_images() {
    let mut ids = IdAlloc::new();
    let mut pair = SwapBufferPair::new(&mut ids, 64, 64, PixelFormat::Bgra8Unorm);
    let (s, d) = (pair.source, pair.dest);
    pair.swap();
    assert_eq!(pair.source, d);
    assert_eq!(pair.dest, s);
    let watermark = ids.next;
    pair.resize(&mut ids, 128, 32);
    assert_eq!(pair.source.width, 128);
    assert_eq!(pair.source.height, 32);
    assert_eq!(pair.dest.width, 128);
    assert_eq!(pair.dest.height, 32);
    assert!(pair.source.id >= watermark);
    assert!(pair.dest.id >= watermark);
    assert_ne!(pair.source.id, pair.dest.id);
}

#[test]
fn trail_blend_accumulates_with_decay() {
    let src = Pixel { r: FP / 2, g: 0, b: FP, a: FP / 2 };
    let dst = Pixel { r: FP, g: FP / 4, b: FP, a: FP };
    let out = trail_blend(src, dst, FP / 2);
    // src * src.a + dst * decay, per channel, saturating at 1.0.
    assert_eq!(out.r, 250_000 + 500_000);
    assert_eq!(out.g, 0 + 125_000);
    assert_eq!(out.b, FP);
    assert_eq!(out.a, FP / 2);
}

#[test]
fn trail_decay_zero_composites_idempotently() {
    let src = Pixel { r: FP / 2, g: FP / 3, b: 0, a: 800_000 };
    let dst = Pixel { r: FP, g: FP, b: FP, a: FP };
    let once = trail_blend(src, dst, 0);
    let twice = trail_blend(src, once, 0);
    assert_eq!(once, twice);
    // And with no persistence the old contents really are gone.
    assert_eq!(once.r, 400_000);
    assert_eq!(once.g, 266_666);
    assert_eq!(once.b, 0);
    assert_eq!(once.a, 800_000);
}
