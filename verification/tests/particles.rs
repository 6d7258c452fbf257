use chromaviz::fixed::{isqrt_u64, FP};
use chromaviz::particle::{Particle, ParticleRenderer, ParticleSettings, ParticleSystem, SizeRange};
use chromaviz::vec2::Vec2;

fn base_settings() -> ParticleSettings {
    ParticleSettings {
        gravity: Vec2 { x: 0, y: -10 * FP },
        frequencies: 2,
        frequencies_spread: 0,
        max_particles: 100,
        particles_per_second: 1_000,
        angular_spread: 0,
        velocity_spread: 0,
        size_range: SizeRange { min: 5_000_000, max: 5_000_000 },
    }
}

fn half_magnitudes() -> Vec<i64> {
    vec![FP / 2, FP / 2, FP / 2, FP / 2]
}

#[test]
fn isqrt_exact_values() {
    assert_eq!(isqrt_u64(0), 0);
    assert_eq!(isqrt_u64(1), 1);
    assert_eq!(isqrt_u64(15), 3);
    assert_eq!(isqrt_u64(16), 4);
    assert_eq!(isqrt_u64(10_000_000_000_000), 3_162_277);
    assert_eq!(isqrt_u64(u64::MAX), 4_294_967_295);
}

#[test]
fn energy_conservation_launch_speed() {
    // gravity 10 units/s² downward, target height 0.5: speed is
    // sqrt(2 * 10 * 0.5) = sqrt(10) = 3.162277... units/s.
    let renderer = ParticleRenderer::new(base_settings());
    let data = vec![FP / 2];
    assert_eq!(renderer.velocity_for(0, &data), 3_162_277);
    assert_eq!(renderer.velocity_for(FP, &data), 3_162_277);
}

#[test]
fn nearest_bin_lookup() {
    let renderer = ParticleRenderer::new(base_settings());
    // Two bins: height 0.5 on the left, 0.125 on the right.
    let data = vec![FP / 2, FP / 8];
    // Fraction 0 and anything below 1.0 map to the left bin.
    assert_eq!(renderer.velocity_for(0, &data), 3_162_277);
    assert_eq!(renderer.velocity_for(FP / 2, &data), 3_162_277);
    // Fraction 1.0 maps to the right bin: sqrt(2 * 10 * 0.125) ≈ 1.5811.
    assert_eq!(renderer.velocity_for(FP, &data), 1_581_138);
}

#[test]
fn deterministic_emission_with_zero_spreads() {
    // With all jitter spreads zero and a flat spectrum, everything but the
    // sampled bin is deterministic; a misbehaving sampler would change the
    // size or push the hue outside the two bin fractions.
    let mut renderer = ParticleRenderer::new(base_settings());
    renderer.update(1_000, &half_magnitudes());
    let parts = renderer.particle_system.particles();
    assert_eq!(parts.len(), 1);
    let p = &parts[0];
    assert_eq!(p.size, 5_000_000);
    assert_eq!(p.init_vel.x, 0);
    assert_eq!(p.init_vel.y, 3_162_277);
    assert_eq!(p.lifetime, 316_227);
    assert_eq!(p.age, 2_000);
    assert_eq!(p.init_pos.y, 0);
    assert!(p.init_pos.x == 0 || p.init_pos.x == FP);
    assert_eq!(p.hue, p.init_pos.x);
}

#[test]
fn freshly_emitted_particles_are_alive() {
    let mut renderer = ParticleRenderer::new(base_settings());
    renderer.update(1_000, &half_magnitudes());
    for p in renderer.particle_system.particles() {
        assert!(p.age < p.lifetime);
    }
}

#[test]
fn silent_band_gives_zero_lifetime() {
    // A zero magnitude gives launch speed 0, so the derived lifetime is 0
    // and the newborn is purged by its own update's advance phase.
    let mut renderer = ParticleRenderer::new(base_settings());
    renderer.update(1_000, &vec![0, 0]);
    assert_eq!(renderer.particle_system.count(), 0);
}

#[test]
fn emission_phase_conservation() {
    // Period 0.1 s, delta 0.03 s: after 10 updates (0.3 s) exactly 3
    // particles have been emitted, with no drift from the remainders.
    let mut settings = base_settings();
    settings.particles_per_second = 10;
    let mut renderer = ParticleRenderer::new(settings);
    let data = vec![FP];
    let mut counts = Vec::new();
    for _ in 0..10 {
        renderer.update(30_000, &data);
        counts.push(renderer.particle_system.count());
    }
    // Lifetimes here are ~0.447 s, longer than the whole run: no purges.
    assert_eq!(counts, vec![0, 0, 0, 1, 1, 1, 2, 2, 2, 3]);
}

#[test]
fn population_stays_below_cap() {
    let mut settings = base_settings();
    settings.max_particles = 5;
    settings.particles_per_second = 1_000_000;
    let mut renderer = ParticleRenderer::new(settings);
    let data = vec![FP];
    for _ in 0..20 {
        renderer.update(10_000, &data);
        assert!(renderer.particle_system.count() < 5);
    }
}

#[test]
fn emit_particle_drops_at_one_below_cap() {
    let mut sys = ParticleSystem::new(2);
    let p = Particle {
        init_pos: Vec2 { x: 0, y: 0 },
        init_vel: Vec2 { x: 0, y: 1_000_000 },
        age: 0,
        lifetime: 100_000,
        hue: 0,
        size: FP,
    };
    sys.emit_particle(p);
    assert_eq!(sys.count(), 1);
    sys.emit_particle(p);
    assert_eq!(sys.count(), 1);
}

#[test]
fn purge_removes_dead_particles() {
    let mut sys = ParticleSystem::new(10);
    let dead = Particle {
        init_pos: Vec2 { x: 0, y: 0 },
        init_vel: Vec2 { x: 0, y: 1_000_000 },
        age: 5,
        lifetime: 5,
        hue: 0,
        size: FP,
    };
    let live = Particle { age: 1, lifetime: 1_000, ..dead };
    sys.emit_particle(dead);
    sys.emit_particle(live);
    assert_eq!(sys.count(), 2);
    sys.update(3);
    let parts = sys.particles();
    assert_eq!(parts.len(), 1);
    assert_eq!(parts[0].age, 4);
    assert_eq!(parts[0].lifetime, 1_000);
    assert!(!sys.is_empty());
}

#[test]
fn update_with_zero_delta_only_purges() {
    let mut sys = ParticleSystem::new(10);
    let live = Particle {
        init_pos: Vec2 { x: 0, y: 0 },
        init_vel: Vec2 { x: 0, y: 1_000_000 },
        age: 7,
        lifetime: 1_000,
        hue: 0,
        size: FP,
    };
    sys.emit_particle(live);
    sys.update(0);
    assert_eq!(sys.count(), 1);
    assert_eq!(sys.particles()[0].age, 7);
}

#[test]
fn projectile_round_trip_returns_to_launch_height() {
    // Launch at 3.162277 units/s under gravity (0, -10): the lifetime is
    // the apex time, so twice the lifetime is the full round trip, and the
    // vertical position lands back at the origin height, erring upward by
    // less than (2*vy + FP) / FP fixed-point steps.
    let lifetime: u64 = 316_227;
    let p = Particle {
        init_pos: Vec2 { x: 250_000, y: 0 },
        init_vel: Vec2 { x: 0, y: 3_162_277 },
        age: 2 * lifetime,
        lifetime,
        hue: 250_000,
        size: FP,
    };
    let pos = p.pos(Vec2 { x: 0, y: -10 * FP });
    let diff = pos.y - p.init_pos.y;
    assert!(diff >= 0);
    assert!(diff <= 7);
    assert_eq!(pos.x, p.init_pos.x);
}

#[test]
fn position_follows_signed_velocity_and_sideways_gravity() {
    // One second of flight: -1 unit/s drift left, 2 units/s² push right.
    let p = Particle {
        init_pos: Vec2 { x: 100_000, y: 0 },
        init_vel: Vec2 { x: -1_000_000, y: 3_000_000 },
        age: 1_000_000,
        lifetime: 2_000_000,
        hue: 0,
        size: FP,
    };
    let pos = p.pos(Vec2 { x: 2 * FP, y: -10 * FP });
    // x: 0.1 - 1*1 + 2*1²/2 = 0.1 exactly at whole-second boundaries.
    assert_eq!(pos.x, 100_000);
    // y: 3*1 - 10*1²/2 = -2 exactly.
    assert_eq!(pos.y, -2_000_000);
}

#[test]
fn position_at_apex_reaches_target_height() {
    // At the apex (age == lifetime) the particle sits near the sampled
    // target height 0.5 that its launch speed encodes.
    let p = Particle {
        init_pos: Vec2 { x: 0, y: 0 },
        init_vel: Vec2 { x: 0, y: 3_162_277 },
        age: 316_227,
        lifetime: 316_227,
        hue: 0,
        size: FP,
    };
    let pos = p.pos(Vec2 { x: 0, y: -10 * FP });
    assert!(pos.y >= 499_990 && pos.y <= 500_010);
}
