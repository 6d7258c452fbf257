//! Particle value type and the bounded particle population.
//!
//! A particle is emitted at a point on the ground line with a launch
//! velocity, and its position at any instant is derived on demand from
//! projectile motion; only its age is mutated, once per frame. The
//! population is a bounded collection: emission silently drops particles
//! once the population would reach `max_particles - 1`, and every frame
//! purges dead particles (age at or past lifetime) before aging the rest.

use vstd::prelude::*;
use crate::fixed::{
    cos_deg, isqrt_u64, mul_div_fp, sdiv, sdiv_i64, sin_deg, ANGLE_LIMIT, DELTA_LIMIT, FP, FP_U,
    FREQUENCIES_LIMIT, GRAVITY_LIMIT, GRAVITY_Y_MIN, LIFETIME_LIMIT, RATE_LIMIT, SIZE_LIMIT,
    SPREAD_LIMIT, VELOCITY_LIMIT,
};
use crate::vec2::Vec2;

verus! {

/// One live particle. Times are microseconds; all other fields are
/// fixed-point steps.
#[derive(Clone, Copy, Debug, PartialEq, Eq, Structural)]
pub struct Particle {
    /// Launch point: horizontal bin fraction in `[0, FP]`, vertical 0.
    pub init_pos: Vec2,
    /// Launch velocity, fixed-point units per second.
    pub init_vel: Vec2,
    /// Time since emission, in microseconds.
    pub age: u64,
    /// Time to live, in microseconds; fixed at emission.
    pub lifetime: u64,
    /// Colour fraction in `[0, FP]`; equals the launch bin fraction.
    pub hue: i64,
    /// Render size, fixed at emission.
    pub size: i64,
}

/// One coordinate of projectile motion at time `t` microseconds:
/// `p + v*t + g*t²/2`, with `v` and `g` in fixed-point units per second
/// and per second squared, truncating exactly as the executable code does.
pub open spec fn pos_coord(p: int, v: int, g: int, t: int) -> int {
    p + sdiv(v * t, FP as int) + sdiv(g * t * t, 2 * (FP as int) * (FP as int))
}

impl Particle {
    /// Field bounds established at emission and kept by aging: they keep
    /// every position computation inside 64-bit fixed-point range.
    pub open spec fn wf(self) -> bool {
        &&& self.init_pos.bounded(FP as int)
        &&& self.init_vel.bounded(VELOCITY_LIMIT as int)
        &&& self.lifetime <= LIFETIME_LIMIT
        &&& self.age <= self.lifetime + DELTA_LIMIT
        &&& 0 <= self.hue <= FP
        &&& 0 <= self.size <= SIZE_LIMIT
    }

    /// Current position under gravity `g`, from projectile motion at `t = age`.
    pub fn pos(&self, g: Vec2) -> (r: Vec2)
        requires
            self.wf(),
            g.bounded(GRAVITY_LIMIT as int),
        ensures
            r.x == pos_coord(self.init_pos.x as int, self.init_vel.x as int, g.x as int, self.age as int),
            r.y == pos_coord(self.init_pos.y as int, self.init_vel.y as int, g.y as int, self.age as int),
    {
        Vec2 {
            x: pos_axis(self.init_pos.x, self.init_vel.x, g.x, self.age),
            y: pos_axis(self.init_pos.y, self.init_vel.y, g.y, self.age),
        }
    }
}

/// One axis of `Particle::pos`, widened to 128 bits internally.
fn pos_axis(p: i64, v: i64, g: i64, t: u64) -> (r: i64)
    requires
        -FP <= p <= FP,
        -VELOCITY_LIMIT <= v <= VELOCITY_LIMIT,
        -GRAVITY_LIMIT <= g <= GRAVITY_LIMIT,
        t <= LIFETIME_LIMIT + DELTA_LIMIT,
    ensures
        r == pos_coord(p as int, v as int, g as int, t as int),
{
    let ti: i128 = t as i128;
    proof {
        assert(-10_001_000_000_000_000_000i128 <= (v as i128) * ti
            <= 10_001_000_000_000_000_000i128) by (nonlinear_arith)
            requires
                -100_000_000 <= v <= 100_000_000,
                0 <= ti <= 100_010_000_000i128,
        ;
    }
    let vt: i128 = (v as i128) * ti;
    let term_v: i128 = crate::fixed::sdiv_i128(vt, 1_000_000);
    proof {
        assert(-100_010_000_000_000_000_000i128 <= (g as i128) * ti
            <= 100_010_000_000_000_000_000i128) by (nonlinear_arith)
            requires
                -1_000_000_000 <= g <= 1_000_000_000,
                0 <= ti <= 100_010_000_000i128,
        ;
        assert((g as i128) * ti * ti <= 10_003_000_000_000_000_000_000_000_000_000i128
            && (g as i128) * ti * ti >= -10_003_000_000_000_000_000_000_000_000_000i128)
            by (nonlinear_arith)
            requires
                -1_000_000_000 <= g <= 1_000_000_000,
                0 <= ti <= 100_010_000_000i128,
        ;
    }
    let gtt: i128 = (g as i128) * ti * ti;
    let term_g: i128 = crate::fixed::sdiv_i128(gtt, 2_000_000_000_000);
    let sum: i128 = (p as i128) + term_v + term_g;
    sum as i64
}

/// The fade-weighted render size: a particle shrinks quadratically toward
/// the end of its life and vanishes at or past it (a soft despawn rather
/// than a pop).
fn fade(size: i64, age: u64, lifetime: u64) -> (r: i64)
    requires
        0 <= size <= SIZE_LIMIT,
        age <= LIFETIME_LIMIT + DELTA_LIMIT,
    ensures
        r == crate::plan::fade_spec(size as int, age as int, lifetime as int),
        0 <= r <= size,
{
    if lifetime == 0 {
        return 0;
    }
    proof {
        vstd::arithmetic::div_mod::lemma_div_nonincreasing(
            (age as int) * 1_000_000,
            lifetime as int,
        );
        vstd::arithmetic::div_mod::lemma_div_pos_is_pos(
            (age as int) * 1_000_000,
            lifetime as int,
        );
    }
    let lp: u64 = ((age as u128) * 1_000_000u128 / (lifetime as u128)) as u64;
    if lp >= 1_000_000 {
        return 0;
    }
    proof {
        assert(lp * lp < 1_000_000_000_000) by (nonlinear_arith)
            requires
                0 <= lp < 1_000_000,
        ;
    }
    let shrink: u64 = 1_000_000 - (lp * lp) / 1_000_000;
    proof {
        assert((size as int) * (shrink as int) <= (size as int) * 1_000_000) by (nonlinear_arith)
            requires
                0 <= size,
                0 <= shrink <= 1_000_000,
        ;
        vstd::arithmetic::div_mod::lemma_div_is_ordered(
            (size as int) * (shrink as int),
            (size as int) * 1_000_000,
            1_000_000,
        );
        vstd::arithmetic::div_mod::lemma_div_by_multiple(size as int, 1_000_000);
    }
    let scaled: u64 = (size as u64) * shrink / 1_000_000;
    scaled as i64
}

/// A particle is visually meaningful only while its age is below its
/// lifetime; anything else is garbage awaiting the next purge.
pub open spec fn alive(p: Particle) -> bool {
    p.age < p.lifetime
}

/// The particle `p` with its age advanced by `delta` microseconds.
pub open spec fn aged(p: Particle, delta: u64) -> Particle {
    Particle { age: (p.age + delta) as u64, ..p }
}

/// One frame step over a particle sequence: drop every dead particle,
/// then advance every survivor's age by `delta`.
pub open spec fn purge_advance(s: Seq<Particle>, delta: u64) -> Seq<Particle>
    decreases s.len(),
{
    if s.len() == 0 {
        Seq::empty()
    } else {
        let rest = purge_advance(s.drop_last(), delta);
        if alive(s.last()) {
            rest.push(aged(s.last(), delta))
        } else {
            rest
        }
    }
}

/// `q` is some particle of `s` that was alive, with its age advanced.
pub open spec fn is_aged_survivor(q: Particle, s: Seq<Particle>, delta: u64) -> bool {
    exists|i: int| 0 <= i < s.len() && alive(s[i]) && q == aged(s[i], delta)
}

/// A frame step never grows the population, and every survivor is an aged
/// copy of a particle that was alive before the step.
pub proof fn lemma_purge_advance_props(s: Seq<Particle>, delta: u64)
    ensures
        purge_advance(s, delta).len() <= s.len(),
        forall|j: int|
            0 <= j < purge_advance(s, delta).len() ==> is_aged_survivor(
                #[trigger] purge_advance(s, delta)[j],
                s,
                delta,
            ),
    decreases s.len(),
{
    if s.len() == 0 {
    } else {
        lemma_purge_advance_props(s.drop_last(), delta);
        let rest = purge_advance(s.drop_last(), delta);
        assert forall|j: int| 0 <= j < purge_advance(s, delta).len() implies is_aged_survivor(
            #[trigger] purge_advance(s, delta)[j],
            s,
            delta,
        ) by {
            if j < rest.len() {
                assert(purge_advance(s, delta)[j] == rest[j]);
                assert(is_aged_survivor(rest[j], s.drop_last(), delta));
                let i = choose|i: int|
                    0 <= i < s.drop_last().len() && alive(s.drop_last()[i]) && rest[j] == aged(
                        s.drop_last()[i],
                        delta,
                    );
                assert(s.drop_last()[i] == s[i]);
                assert(0 <= i < s.len() && alive(s[i]) && purge_advance(s, delta)[j] == aged(
                    s[i],
                    delta,
                ));
            } else {
                assert(alive(s.last()));
                let i = s.len() - 1;
                assert(purge_advance(s, delta)[j] == aged(s[i], delta));
                assert(0 <= i < s.len() && alive(s[i]) && purge_advance(s, delta)[j] == aged(
                    s[i],
                    delta,
                ));
            }
        }
    }
}

/// The bounded particle population. Iteration order is insertion order,
/// relevant only for deterministic upload; physics ignores it.
pub struct ParticleSystem {
    /// Hard cap on the live population (the population in fact stays
    /// strictly below it; see `pop_ok`).
    pub max_particles: usize,
    /// The live particles, in iteration order.
    pub particles: Vec<Particle>,
}

impl ParticleSystem {
    /// The live particles, as a sequence.
    pub open spec fn parts(self) -> Seq<Particle> {
        self.particles@
    }

    /// Population bound: the population is empty or strictly below the cap.
    /// Emission keeps it at `max_particles - 1` at most, by design.
    pub open spec fn pop_ok(self) -> bool {
        self.parts().len() == 0 || self.parts().len() < self.max_particles
    }

    /// An empty population with the given cap.
    pub fn new(max_particles: usize) -> (r: ParticleSystem)
        ensures
            r.parts() == Seq::<Particle>::empty(),
            r.max_particles == max_particles,
    {
        let particles: Vec<Particle> = Vec::new();
        proof {
            assert(particles@ =~= Seq::<Particle>::empty());
        }
        ParticleSystem { max_particles, particles }
    }

    /// Whether no particle is live.
    pub fn is_empty(&self) -> (r: bool)
        ensures
            r == (self.parts().len() == 0),
    {
        self.particles.len() == 0
    }

    /// Number of live particles.
    pub fn count(&self) -> (r: usize)
        ensures
            r == self.parts().len(),
    {
        self.particles.len()
    }

    /// Read access to the particles, in iteration order.
    pub fn particles(&self) -> (r: &Vec<Particle>)
        ensures
            r@ == self.parts(),
    {
        &self.particles
    }

    /// Append a particle unless that would lift the population to the cap;
    /// overflowing emissions are silently dropped, by design.
    pub fn emit_particle(&mut self, particle: Particle)
        ensures
            final(self).max_particles == old(self).max_particles,
            final(self).parts() == if old(self).parts().len() + 1 < old(self).max_particles {
                old(self).parts().push(particle)
            } else {
                old(self).parts()
            },
    {
        if self.max_particles >= 2 && self.particles.len() < self.max_particles - 1 {
            self.particles.push(particle);
        }
    }

    /// One frame step: purge every dead particle, then advance every
    /// survivor's age by `delta` microseconds.
    pub fn update(&mut self, delta: u64)
        requires
            forall|i: int|
                0 <= i < old(self).parts().len() ==> (#[trigger] old(self).parts()[i]).age + delta
                    <= u64::MAX,
        ensures
            final(self).max_particles == old(self).max_particles,
            final(self).parts() == purge_advance(old(self).parts(), delta),
    {
        let mut kept: Vec<Particle> = Vec::new();
        let n = self.particles.len();
        let mut i: usize = 0;
        proof {
            assert(old(self).parts().subrange(0, 0) =~= Seq::<Particle>::empty());
        }
        while i < n
            invariant
                i <= n,
                self.particles@ == old(self).parts(),
                n == old(self).parts().len(),
                forall|k: int|
                    0 <= k < n ==> (#[trigger] old(self).parts()[k]).age + delta <= u64::MAX,
                kept@ == purge_advance(old(self).parts().subrange(0, i as int), delta),
            decreases n - i,
        {
            let p = self.particles[i];
            if p.age < p.lifetime {
                let q = Particle { age: p.age + delta, ..p };
                kept.push(q);
            }
            proof {
                let s = old(self).parts();
                assert(s.subrange(0, i + 1).drop_last() =~= s.subrange(0, i as int));
                assert(s.subrange(0, i + 1).last() == s[i as int]);
            }
            i = i + 1;
        }
        proof {
            assert(old(self).parts().subrange(0, n as int) =~= old(self).parts());
        }
        self.particles = kept;
    }
}

/// Purge correctness: after a frame step every remaining particle was alive
/// at the start of the step — its age had not yet reached its lifetime
/// before the advance.
pub proof fn law_purge_correct(s: Seq<Particle>, delta: u64)
    requires
        forall|i: int| 0 <= i < s.len() ==> #[trigger] s[i].age + delta <= u64::MAX,
    ensures
        forall|j: int|
            0 <= j < purge_advance(s, delta).len() ==> delta <= (#[trigger] purge_advance(
                s,
                delta,
            )[j]).age && purge_advance(s, delta)[j].age - delta < purge_advance(s, delta)[j].lifetime,
{
    lemma_purge_advance_props(s, delta);
    assert forall|j: int| 0 <= j < purge_advance(s, delta).len() implies delta
        <= (#[trigger] purge_advance(s, delta)[j]).age && purge_advance(s, delta)[j].age - delta
        < purge_advance(s, delta)[j].lifetime by {
        assert(is_aged_survivor(purge_advance(s, delta)[j], s, delta));
        let i = choose|i: int|
            0 <= i < s.len() && alive(s[i]) && purge_advance(s, delta)[j] == aged(s[i], delta);
        assert(purge_advance(s, delta)[j] == aged(s[i], delta));
    }
}

/// Population bound: whenever the population invariant holds and the cap is
/// at least one, the live particle count is strictly below the cap.
pub proof fn law_population_bound(sys: ParticleSystem)
    requires
        sys.pop_ok(),
        1 <= sys.max_particles,
    ensures
        sys.parts().len() < sys.max_particles,
{
}

/// Inclusive particle size range, in fixed-point units.
#[derive(Clone, Copy, Debug, PartialEq, Eq, Structural)]
pub struct SizeRange {
    pub min: i64,
    pub max: i64,
}

/// Immutable-for-the-session emission configuration.
#[derive(Clone, Copy, Debug, PartialEq, Eq, Structural)]
pub struct ParticleSettings {
    /// Acceleration applied to every particle; `y` must be negative.
    pub gravity: Vec2,
    /// Number of discrete frequency bins the emitter samples from.
    pub frequencies: u64,
    /// Jitter applied to a sampled bin, in fixed-point bin units.
    pub frequencies_spread: i64,
    /// Hard cap on the live population.
    pub max_particles: u64,
    /// Emission rate, particles per second.
    pub particles_per_second: u64,
    /// Launch-angle jitter around straight up, fixed-point degrees.
    pub angular_spread: i64,
    /// Additive launch-speed jitter, fixed-point units per second.
    pub velocity_spread: i64,
    /// Particle size range sampled at emission.
    pub size_range: SizeRange,
}

impl ParticleSettings {
    /// Ranges under which every derived quantity stays in 64-bit
    /// fixed-point range.
    pub open spec fn valid(self) -> bool {
        &&& self.gravity.bounded(GRAVITY_LIMIT as int)
        &&& self.gravity.y <= -GRAVITY_Y_MIN
        &&& 2 <= self.frequencies <= FREQUENCIES_LIMIT
        &&& 0 <= self.frequencies_spread <= SPREAD_LIMIT
        &&& 1 <= self.max_particles <= 1_000_000_000
        &&& 1 <= self.particles_per_second <= RATE_LIMIT
        &&& 0 <= self.angular_spread <= ANGLE_LIMIT
        &&& 0 <= self.velocity_spread <= VELOCITY_LIMIT
        &&& 0 <= self.size_range.min <= self.size_range.max <= SIZE_LIMIT
    }
}

/// Emission period in microseconds: the reciprocal of the emission rate.
pub open spec fn period_spec(s: ParticleSettings) -> int {
    (FP_U as int) / (s.particles_per_second as int)
}

/// How many particles one tick emits: the whole periods contained in the
/// accumulated time.
pub open spec fn emit_count(acc: int, delta: int, period: int) -> int {
    (acc + delta) / period
}

/// The accumulated time carried to the next tick: the part of a period the
/// emissions of this tick did not consume. Never reset to zero, so the
/// emission phase survives across ticks of varying length.
pub open spec fn emit_rem(acc: int, delta: int, period: int) -> int {
    (acc + delta) % period
}

/// Lifetime derived at emission, in microseconds: the flight time to the
/// apex, `vy / |gy|` seconds, clamped to zero for downward launches.
pub open spec fn lifetime_spec(vy: int, gy: int) -> int
    recommends
        gy < 0,
{
    if vy <= 0 {
        0
    } else {
        vy * (FP as int) / (-gy)
    }
}

/// Projectile symmetry: the derived lifetime is the flight time to the
/// apex, so over a full round trip — twice the lifetime — the vertical
/// position returns to the launch height. Truncation makes the return
/// point err upward only, by fewer than `2·vy/FP + 1` fixed-point steps
/// (under a five-millionth of a unit per unit of launch speed).
pub proof fn law_projectile_symmetry(py: int, vy: int, gy: int)
    requires
        0 < vy,
        gy < 0,
    ensures
        0 <= pos_coord(py, vy, gy, 2 * lifetime_spec(vy, gy)) - py,
        (pos_coord(py, vy, gy, 2 * lifetime_spec(vy, gy)) - py) * (FP as int) < 2 * vy + FP,
{
    let fp = FP as int;
    let g = -gy;
    let l = lifetime_spec(vy, gy);
    let t = 2 * l;
    vstd::arithmetic::div_mod::lemma_div_pos_is_pos(vy * fp, g);
    assert(vy * fp > 0) by (nonlinear_arith)
        requires
            vy > 0,
            fp == 1_000_000,
    ;
    if l == 0 {
        assert(vy * t == 0 && gy * t * t == 0) by (nonlinear_arith)
            requires
                t == 0,
        ;
    } else {
        let e = (vy * fp) % g;
        vstd::arithmetic::div_mod::lemma_fundamental_div_mod(vy * fp, g);
        vstd::arithmetic::div_mod::lemma_mod_division_less_than_divisor(vy * fp, g);
        assert(vy * fp == g * l + e);
        let a = vy * t;
        let b = g * t * t;
        assert(a == 2 * vy * l && b == 4 * g * l * l && gy * t * t == -b) by (nonlinear_arith)
            requires
                t == 2 * l,
                g == -gy,
                a == vy * t,
                b == g * t * t,
        ;
        assert(a >= 0 && b >= 0) by (nonlinear_arith)
            requires
                a == 2 * vy * l,
                b == 4 * g * l * l,
                vy > 0,
                g > 0,
                l > 0,
        ;
        // The y displacement is a/fp - b/(2*fp*fp), both divisions truncating.
        assert(sdiv(vy * t, fp) == a / fp);
        assert(sdiv(gy * t * t, 2 * fp * fp) == -(b / (2 * fp * fp)));
        // Lower bound: the real displacement is nonnegative, and stays so
        // under truncation once both quotients share a denominator.
        vstd::arithmetic::div_mod::lemma_div_multiples_vanish_quotient(2 * fp, a, fp);
        assert(a / fp == (2 * fp * a) / (2 * fp * fp)) by {
            assert((2 * fp) * a == 2 * fp * a && (2 * fp) * fp == 2 * fp * fp)
                by (nonlinear_arith);
        }
        assert(2 * fp * a >= b) by (nonlinear_arith)
            requires
                a == 2 * vy * l,
                b == 4 * g * l * l,
                vy * fp >= g * l,
                l > 0,
        ;
        vstd::arithmetic::div_mod::lemma_div_is_ordered(b, 2 * fp * a, 2 * fp * fp);
        // Upper bound: the truncations slide the two quotients apart by
        // less than one whole step of the shared denominator.
        let qa = a / fp;
        let qb = b / (2 * fp * fp);
        vstd::arithmetic::div_mod::lemma_fundamental_div_mod(a, fp);
        vstd::arithmetic::div_mod::lemma_mod_division_less_than_divisor(a, fp);
        vstd::arithmetic::div_mod::lemma_fundamental_div_mod(b, 2 * fp * fp);
        vstd::arithmetic::div_mod::lemma_mod_division_less_than_divisor(b, 2 * fp * fp);
        assert(fp * qa <= a);
        assert(2 * fp * fp * qb > b - 2 * fp * fp);
        assert(2 * fp * a - b == 4 * l * e) by (nonlinear_arith)
            requires
                a == 2 * vy * l,
                b == 4 * g * l * l,
                vy * fp == g * l + e,
        ;
        assert(l * e <= vy * fp) by (nonlinear_arith)
            requires
                0 <= e < g,
                l > 0,
                g * l <= vy * fp,
        ;
        assert((qa - qb) * (2 * fp * fp) == 2 * fp * (fp * qa) - 2 * fp * fp * qb)
            by (nonlinear_arith);
        assert(2 * fp * (fp * qa) <= 2 * fp * a) by (nonlinear_arith)
            requires
                fp * qa <= a,
                fp > 0,
        ;
        assert((qa - qb) * (2 * fp * fp) < 4 * l * e + 2 * fp * fp);
        assert(4 * l * e <= 4 * (vy * fp)) by (nonlinear_arith)
            requires
                l * e <= vy * fp,
        ;
        assert((qa - qb) * (2 * fp * fp) < 4 * (vy * fp) + 2 * fp * fp);
        assert((qa - qb) * fp < 2 * vy + fp) by (nonlinear_arith)
            requires
                (qa - qb) * (2 * fp * fp) < 4 * (vy * fp) + 2 * fp * fp,
                fp > 0,
        ;
    }
}

/// Emission accumulator after `n` ticks of length `delta`, starting from
/// an empty accumulator.
pub open spec fn phase_after(n: nat, delta: int, period: int) -> int
    decreases n,
{
    if n == 0 {
        0
    } else {
        emit_rem(phase_after((n - 1) as nat, delta, period), delta, period)
    }
}

/// Total number of particles emitted over `n` ticks of length `delta`,
/// starting from an empty accumulator.
pub open spec fn emitted_after(n: nat, delta: int, period: int) -> int
    decreases n,
{
    if n == 0 {
        0
    } else {
        emitted_after((n - 1) as nat, delta, period) + emit_count(
            phase_after((n - 1) as nat, delta, period),
            delta,
            period,
        )
    }
}

/// Emission-phase conservation: because each tick subtracts only whole
/// periods from the accumulator, `n` ticks of length `delta` emit exactly
/// `floor(n * delta / period)` particles — the long-run rate is one
/// particle per period with no drift, whatever the tick length.
pub proof fn law_emission_phase_conservation(n: nat, delta: int, period: int)
    requires
        1 <= period,
        0 <= delta,
    ensures
        phase_after(n, delta, period) == (n * delta) % period,
        emitted_after(n, delta, period) == (n * delta) / period,
    decreases n,
{
    if n == 0 {
        assert((0int * delta) == 0) by (nonlinear_arith);
    } else {
        let m = (n - 1) as nat;
        law_emission_phase_conservation(m, delta, period);
        let a = m * delta;
        assert(n * delta == a + delta) by (nonlinear_arith)
            requires
                a == m * delta,
                n == m + 1,
        ;
        vstd::arithmetic::div_mod::lemma_add_mod_noop_right(delta, a, period);
        vstd::arithmetic::div_mod::lemma_fundamental_div_mod(a, period);
        vstd::arithmetic::div_mod::lemma_hoist_over_denominator(
            a % period + delta,
            a / period,
            period as nat,
        );
        assert(a % period + delta + (a / period) * period == a + delta);
    }
}

/// Relies on rand::random_range: a uniform draw over `0..n` returns a
/// value below `n`; the call panics only on an empty range, which the
/// precondition rules out.
#[verifier::external_body]
fn rand_below(n: u64) -> (r: u64)
    requires
        1 <= n,
    ensures
        r < n,
{
    rand::random_range(0..n)
}

/// A uniform fixed-point jitter in `[-1/2, 1/2]`.
fn jitter() -> (j: i64)
    ensures
        -500_000 <= j <= 500_000,
{
    let r = rand_below(FP_U + 1);
    (r as i64) - 500_000
}

/// Nearest-bin index for a fraction `freq` of `[0, FP]` over `len` bins.
pub open spec fn freq_index_spec(freq: int, len: int) -> int {
    freq * (len - 1) / (FP as int)
}

/// Nearest-bin lookup index: `freq` scaled over the last valid index.
fn freq_index(freq: i64, len: usize) -> (idx: usize)
    requires
        0 <= freq <= FP,
        1 <= len,
    ensures
        idx == freq_index_spec(freq as int, len as int),
        idx < len,
{
    proof {
        assert(0 <= (freq as int) * ((len - 1) as int) <= (FP as int) * ((len - 1) as int)
            && (FP as int) * ((len - 1) as int) < 0x1_0000_0000_0000_0000_0000_0000int)
            by (nonlinear_arith)
            requires
                0 <= freq <= FP as int,
                0 <= ((len - 1) as int) < 0x1_0000_0000_0000_0000int,
                FP == 1_000_000,
        ;
    }
    let prod: u128 = (freq as u128) * ((len - 1) as u128);
    proof {
        vstd::arithmetic::div_mod::lemma_div_is_ordered(
            prod as int,
            (FP as int) * (len - 1),
            FP as int,
        );
        vstd::arithmetic::div_mod::lemma_div_multiples_vanish((len - 1) as int, FP as int);
    }
    (prod / 1_000_000u128) as usize
}

/// What every newborn particle satisfies, relative to the settings and its
/// back-dated age.
pub open spec fn emitted_ok(p: Particle, s: ParticleSettings, age: u64) -> bool {
    &&& p.wf()
    &&& p.age == age
    &&& p.init_pos.y == 0
    &&& 0 <= p.init_pos.x <= FP
    &&& p.hue == p.init_pos.x
    &&& s.size_range.min <= p.size <= s.size_range.max
    &&& p.lifetime == lifetime_spec(p.init_vel.y as int, s.gravity.y as int)
}

/// Freshness at emission: a newborn whose derived flight time exceeds its
/// back-dated age is strictly alive, and its lifetime and age are never
/// negative. (A particle launched toward a silent band gets lifetime 0
/// and is purged by the next update.)
pub proof fn law_emission_freshness(p: Particle, s: ParticleSettings, age: u64)
    requires
        emitted_ok(p, s, age),
        age < lifetime_spec(p.init_vel.y as int, s.gravity.y as int),
    ensures
        0 <= p.age < p.lifetime,
        0 <= p.lifetime,
{
}

/// Couples the particle population to emission timing and the draw stage.
pub struct ParticleRenderer {
    /// Emission configuration, fixed at construction.
    pub settings: ParticleSettings,
    /// The bounded live population.
    pub particle_system: ParticleSystem,
    /// Emission accumulator, in microseconds; strictly below the period.
    pub time_since_last_emit: u64,
    /// Frame size consumed by the vertex stage; set on resize.
    pub frame_size: (u32, u32),
    /// Bytes of per-instance vertex buffer the draw stage allocates: one
    /// record of four 32-bit lanes per possible particle.
    pub particle_buffer_size: u64,
}

impl ParticleRenderer {
    /// Structural invariant tying the population and accumulator to the
    /// settings.
    pub open spec fn wf(self) -> bool {
        &&& self.settings.valid()
        &&& self.particle_system.pop_ok()
        &&& self.particle_system.max_particles == self.settings.max_particles
        &&& 0 <= self.time_since_last_emit < period_spec(self.settings)
        &&& forall|i: int|
            0 <= i < self.particle_system.parts().len() ==> (#[trigger] self.particle_system.parts()[i]).wf()
        &&& self.particle_buffer_size == self.settings.max_particles * 16
    }

    /// A renderer with an empty population and an empty accumulator.
    pub fn new(settings: ParticleSettings) -> (r: ParticleRenderer)
        requires
            settings.valid(),
        ensures
            r.wf(),
            r.settings == settings,
            r.particle_system.parts().len() == 0,
            r.time_since_last_emit == 0,
            r.frame_size == (0u32, 0u32),
    {
        proof {
            vstd::arithmetic::div_mod::lemma_div_non_zero(
                FP_U as int,
                settings.particles_per_second as int,
            );
        }
        ParticleRenderer {
            particle_buffer_size: settings.max_particles * 16,
            particle_system: ParticleSystem::new(settings.max_particles as usize),
            time_since_last_emit: 0,
            frame_size: (0, 0),
            settings,
        }
    }

    /// Launch speed for the band at `freq`: all launch kinetic energy
    /// converts to potential energy at the apex (`v²/2 = |g|·h`), so the
    /// speed is the integer square root of `2·|gravity.y|·h`, where `h` is
    /// the magnitude of the nearest bin.
    pub fn velocity_for(&self, freq: i64, freq_data: &Vec<i64>) -> (r: i64)
        requires
            self.settings.valid(),
            0 <= freq <= FP,
            1 <= freq_data@.len(),
            forall|i: int| 0 <= i < freq_data@.len() ==> 0 <= #[trigger] freq_data@[i] <= FP,
        ensures
            0 <= r <= 45_000_000,
            r * r <= 2 * (-(self.settings.gravity.y as int)) * freq_data@[freq_index_spec(
                freq as int,
                freq_data@.len() as int,
            )],
            2 * (-(self.settings.gravity.y as int)) * freq_data@[freq_index_spec(
                freq as int,
                freq_data@.len() as int,
            )] < (r + 1) * (r + 1),
    {
        let idx = freq_index(freq, freq_data.len());
        let target = freq_data[idx];
        let g_abs: u64 = (-self.settings.gravity.y) as u64;
        proof {
            assert(2 * (g_abs as int) * target <= 2_000_000_000_000_000) by (nonlinear_arith)
                requires
                    0 <= g_abs <= 1_000_000_000,
                    0 <= target <= 1_000_000,
            ;
        }
        let e: u64 = 2 * g_abs * (target as u64);
        let r = isqrt_u64(e);
        proof {
            assert(r <= 45_000_000) by (nonlinear_arith)
                requires
                    r * r <= 2_000_000_000_000_000,
            ;
        }
        r as i64
    }

    /// Build one newborn particle: sample a jittered bin for origin and
    /// hue, an energy-conserving launch speed with additive jitter, a
    /// launch angle around straight up, a size from the configured range,
    /// and derive the apex-time lifetime; its age is back-dated to `age`.
    fn make_particle(&self, age: u64, freq_data: &Vec<i64>) -> (p: Particle)
        requires
            self.settings.valid(),
            age <= DELTA_LIMIT,
            1 <= freq_data@.len(),
            forall|i: int| 0 <= i < freq_data@.len() ==> 0 <= #[trigger] freq_data@[i] <= FP,
        ensures
            emitted_ok(p, self.settings, age),
    {
        let n = self.settings.frequencies;
        let bin = rand_below(n);
        proof {
            assert((bin as int) * (FP as int) <= ((n - 1) as int) * (FP as int))
                by (nonlinear_arith)
                requires
                    bin <= n - 1,
            ;
            vstd::arithmetic::div_mod::lemma_div_is_ordered(
                (bin as int) * (FP as int),
                ((n - 1) as int) * (FP as int),
                (n - 1) as int,
            );
            vstd::arithmetic::div_mod::lemma_div_by_multiple(FP as int, (n - 1) as int);
            assert((FP as int) * ((n - 1) as int) == ((n - 1) as int) * (FP as int))
                by (nonlinear_arith);
        }
        let base: u64 = bin * FP_U / (n - 1);
        let j1 = jitter();
        proof {
            assert(-500_000_000_000_000 <= (j1 as int) * (self.settings.frequencies_spread as int)
                <= 500_000_000_000_000) by (nonlinear_arith)
                requires
                    -500_000 <= j1 <= 500_000,
                    0 <= self.settings.frequencies_spread <= 1_000_000_000,
            ;
        }
        let spread_fx = mul_div_fp(j1, self.settings.frequencies_spread);
        let spread_adj = sdiv_i64(spread_fx, n - 1);
        let mut fx: i64 = (base as i64) + spread_adj;
        if fx < 0 {
            fx = 0;
        }
        if fx > FP {
            fx = FP;
        }
        let speed0 = self.velocity_for(fx, freq_data);
        let j2 = jitter();
        proof {
            assert(-50_000_000_000_000 <= (j2 as int) * (self.settings.velocity_spread as int)
                <= 50_000_000_000_000) by (nonlinear_arith)
                requires
                    -500_000 <= j2 <= 500_000,
                    0 <= self.settings.velocity_spread <= 100_000_000,
            ;
        }
        let speed = speed0 + mul_div_fp(j2, self.settings.velocity_spread);
        let j3 = jitter();
        proof {
            assert(-90_000_000_000_000 <= (j3 as int) * (self.settings.angular_spread as int)
                <= 90_000_000_000_000) by (nonlinear_arith)
                requires
                    -500_000 <= j3 <= 500_000,
                    0 <= self.settings.angular_spread <= 180_000_000,
            ;
        }
        let off = mul_div_fp(j3, self.settings.angular_spread);
        let sin_v = sin_deg(off);
        let cos_v = cos_deg(off);
        proof {
            assert(-95_000_000_000_000 <= (speed as int) * (sin_v as int) <= 95_000_000_000_000
                && -95_000_000_000_000 <= (speed as int) * (cos_v as int) <= 95_000_000_000_000)
                by (nonlinear_arith)
                requires
                    -95_000_000 <= speed <= 95_000_000,
                    -1_000_000 <= sin_v <= 1_000_000,
                    -1_000_000 <= cos_v <= 1_000_000,
            ;
        }
        let vx = -mul_div_fp(speed, sin_v);
        let vy = mul_div_fp(speed, cos_v);
        let g_abs: u64 = (-self.settings.gravity.y) as u64;
        let lifetime: u64 = if vy <= 0 {
            0
        } else {
            proof {
                vstd::arithmetic::div_mod::lemma_div_is_ordered_by_denominator(
                    (vy as int) * (FP as int),
                    GRAVITY_Y_MIN as int,
                    g_abs as int,
                );
            }
            (vy as u64) * FP_U / g_abs
        };
        let span: u64 = (self.settings.size_range.max - self.settings.size_range.min) as u64;
        let size = self.settings.size_range.min + (rand_below(span + 1) as i64);
        Particle {
            init_pos: Vec2 { x: fx, y: 0 },
            init_vel: Vec2 { x: vx, y: vy },
            age,
            lifetime,
            hue: fx,
            size,
        }
    }
}

/// What one emission pass leaves behind: the population keeps its existing
/// particles, appends one newborn per whole period accumulated — back-dated
/// so the `i`-th newborn has already aged past its nominal emission
/// instant — and silently stops appending at one below the cap.
pub open spec fn gen_post(
    before: Seq<Particle>,
    after: Seq<Particle>,
    s: ParticleSettings,
    acc0: u64,
    delta: u64,
) -> bool {
    let count = emit_count(acc0 as int, delta as int, period_spec(s));
    let cap = s.max_particles - 1;
    &&& after.len() == if before.len() + count <= cap {
        before.len() + count
    } else if before.len() <= cap {
        cap
    } else {
        before.len() as int
    }
    &&& after.subrange(0, before.len() as int) == before
    &&& forall|j: int|
        before.len() <= j < after.len() ==> emitted_ok(
            #[trigger] after[j],
            s,
            (delta - (j - before.len()) * period_spec(s)) as u64,
        )
}

impl ParticleRenderer {
    /// One emission pass: accumulate `delta`, emit one particle per whole
    /// period accumulated, and carry the remainder to the next tick.
    fn gen_particles(&mut self, delta: u64, freq_data: &Vec<i64>)
        requires
            old(self).wf(),
            delta <= DELTA_LIMIT,
            1 <= freq_data@.len(),
            forall|i: int| 0 <= i < freq_data@.len() ==> 0 <= #[trigger] freq_data@[i] <= FP,
        ensures
            final(self).wf(),
            final(self).settings == old(self).settings,
            final(self).frame_size == old(self).frame_size,
            final(self).particle_buffer_size == old(self).particle_buffer_size,
            final(self).time_since_last_emit == emit_rem(
                old(self).time_since_last_emit as int,
                delta as int,
                period_spec(old(self).settings),
            ),
            gen_post(
                old(self).particle_system.parts(),
                final(self).particle_system.parts(),
                old(self).settings,
                old(self).time_since_last_emit,
                delta,
            ),
    {
        let ghost acc0 = self.time_since_last_emit;
        let ghost before = self.particle_system.parts();
        let period: u64 = FP_U / self.settings.particles_per_second;
        proof {
            vstd::arithmetic::div_mod::lemma_div_non_zero(
                FP_U as int,
                self.settings.particles_per_second as int,
            );
        }
        let acc: u64 = self.time_since_last_emit + delta;
        let count: u64 = acc / period;
        self.time_since_last_emit = acc % period;
        proof {
            vstd::arithmetic::div_mod::lemma_fundamental_div_mod(acc as int, period as int);
            assert((count as int) * (period as int) == (period as int) * (count as int))
                by (nonlinear_arith);
        }
        let ghost cap = self.settings.max_particles - 1;
        let mut i: u64 = 0;
        proof {
            assert(self.particle_system.parts().subrange(0, before.len() as int) =~= before);
        }
        while i < count
            invariant
                i <= count,
                self.settings == old(self).settings,
                self.settings.valid(),
                self.frame_size == old(self).frame_size,
                self.particle_buffer_size == old(self).particle_buffer_size,
                self.time_since_last_emit == emit_rem(
                    acc0 as int,
                    delta as int,
                    period_spec(old(self).settings),
                ),
                self.particle_system.max_particles == self.settings.max_particles,
                period == period_spec(self.settings),
                1 <= period,
                acc == acc0 + delta,
                acc0 < period,
                delta <= DELTA_LIMIT,
                count == emit_count(acc0 as int, delta as int, period as int),
                count * period <= acc,
                cap == self.settings.max_particles - 1,
                1 <= freq_data@.len(),
                forall|k: int| 0 <= k < freq_data@.len() ==> 0 <= #[trigger] freq_data@[k] <= FP,
                before.len() <= cap + 1,
                self.particle_system.parts().len() == if before.len() + i <= cap {
                    before.len() + i
                } else if before.len() <= cap {
                    cap as int
                } else {
                    before.len() as int
                },
                self.particle_system.parts().subrange(0, before.len() as int) == before,
                forall|j: int|
                    before.len() <= j < self.particle_system.parts().len() ==> emitted_ok(
                        #[trigger] self.particle_system.parts()[j],
                        self.settings,
                        (delta - (j - before.len()) * (period as int)) as u64,
                    ),
            decreases count - i,
        {
            proof {
                vstd::arithmetic::mul::lemma_mul_inequality(
                    i as int,
                    (count - 1) as int,
                    period as int,
                );
                assert((count - 1) as int * (period as int) == count * period - period)
                    by (nonlinear_arith);
            }
            let age: u64 = delta - i * period;
            let p = self.make_particle(age, freq_data);
            let ghost parts_before = self.particle_system.parts();
            self.particle_system.emit_particle(p);
            proof {
                let parts_new = self.particle_system.parts();
                let s = self.settings;
                assert(parts_new.subrange(0, before.len() as int) =~= parts_before.subrange(
                    0,
                    before.len() as int,
                ));
                if parts_before.len() + 1 < self.particle_system.max_particles {
                    assert(parts_new == parts_before.push(p));
                    assert(parts_before.len() == before.len() + i);
                    assert forall|j: int|
                        before.len() <= j < parts_new.len() implies emitted_ok(
                        #[trigger] parts_new[j],
                        s,
                        (delta - (j - before.len()) * (period as int)) as u64,
                    ) by {
                        if j < parts_before.len() {
                            assert(parts_new[j] == parts_before[j]);
                        } else {
                            assert(parts_new[j] == p);
                            assert(j - before.len() == i);
                            assert((delta - (j - before.len()) * (period as int)) as u64 == age);
                        }
                    }
                } else {
                    assert(parts_new == parts_before);
                }
            }
            i = i + 1;
        }
        proof {
            let parts_new = self.particle_system.parts();
            assert forall|k: int| 0 <= k < parts_new.len() implies (
            #[trigger] parts_new[k]).wf() by {
                if k < before.len() {
                    assert(parts_new[k] == parts_new.subrange(0, before.len() as int)[k]);
                    assert(parts_new[k] == old(self).particle_system.parts()[k]);
                } else {
                    assert(emitted_ok(
                        parts_new[k],
                        self.settings,
                        (delta - (k - before.len()) * (period as int)) as u64,
                    ));
                }
            }
        }
    }

    /// One frame step, strictly before any read for rendering: emit this
    /// tick's newborns, then purge the dead and advance every survivor by
    /// `delta`. The live population always stays below the configured cap.
    pub fn update(&mut self, delta: u64, freq_data: &Vec<i64>)
        requires
            old(self).wf(),
            delta <= DELTA_LIMIT,
            1 <= freq_data@.len(),
            forall|i: int| 0 <= i < freq_data@.len() ==> 0 <= #[trigger] freq_data@[i] <= FP,
        ensures
            final(self).wf(),
            final(self).settings == old(self).settings,
            final(self).frame_size == old(self).frame_size,
            final(self).time_since_last_emit == emit_rem(
                old(self).time_since_last_emit as int,
                delta as int,
                period_spec(old(self).settings),
            ),
            exists|mid: Seq<Particle>|
                gen_post(
                    old(self).particle_system.parts(),
                    mid,
                    old(self).settings,
                    old(self).time_since_last_emit,
                    delta,
                ) && final(self).particle_system.parts() == purge_advance(mid, delta),
            final(self).particle_system.parts().len() < old(self).settings.max_particles,
    {
        self.gen_particles(delta, freq_data);
        let ghost mid = self.particle_system.parts();
        proof {
            assert(forall|k: int|
                0 <= k < mid.len() ==> (#[trigger] mid[k]).age + delta <= u64::MAX);
        }
        self.particle_system.update(delta);
        proof {
            lemma_purge_advance_props(mid, delta);
            assert forall|k: int|
                0 <= k < self.particle_system.parts().len() implies (
            #[trigger] self.particle_system.parts()[k]).wf() by {
                assert(is_aged_survivor(self.particle_system.parts()[k], mid, delta));
                let w = choose|w: int|
                    0 <= w < mid.len() && alive(mid[w]) && self.particle_system.parts()[k] == aged(
                        mid[w],
                        delta,
                    );
                assert(mid[w].wf());
            }
        }
    }

    /// The per-instance data and the single instanced draw pass for this
    /// frame: one packed record per live particle — its current position,
    /// fade-weighted size and hue — drawn into `dest` after clearing it to
    /// black (this pass owns first-writer duty for its target).
    pub fn render(&self, dest: crate::plan::Attachment) -> (r: (
        Vec<crate::plan::InstanceRecord>,
        crate::plan::PassDesc,
    ))
        requires
            self.wf(),
        ensures
            r.0@.len() == self.particle_system.parts().len(),
            forall|i: int|
                0 <= i < r.0@.len() ==> r.0@[i] == crate::plan::record_spec(
                    #[trigger] self.particle_system.parts()[i],
                    self.settings.gravity,
                ),
            r.1 == (crate::plan::PassDesc {
                pipeline: crate::plan::PipelineKind::Particles,
                load: crate::plan::LoadKind::ClearBlack,
                target: dest,
                source: Option::None,
                blend_constant: 0,
                instances: self.particle_system.parts().len() as u64,
            }),
    {
        let particles = self.particle_system.particles();
        let n = particles.len();
        let mut records: Vec<crate::plan::InstanceRecord> = Vec::new();
        let mut i: usize = 0;
        while i < n
            invariant
                i <= n,
                n == self.particle_system.parts().len(),
                particles@ == self.particle_system.parts(),
                self.wf(),
                records@.len() == i,
                forall|j: int|
                    0 <= j < i ==> records@[j] == crate::plan::record_spec(
                        #[trigger] self.particle_system.parts()[j],
                        self.settings.gravity,
                    ),
            decreases n - i,
        {
            let p = particles[i];
            let pos = p.pos(self.settings.gravity);
            let size = fade(p.size, p.age, p.lifetime);
            records.push(crate::plan::InstanceRecord { x: pos.x, y: pos.y, size, hue: p.hue });
            i = i + 1;
        }
        let pass = crate::plan::PassDesc {
            pipeline: crate::plan::PipelineKind::Particles,
            load: crate::plan::LoadKind::ClearBlack,
            target: dest,
            source: Option::None,
            blend_constant: 0,
            instances: self.particle_system.count() as u64,
        };
        (records, pass)
    }

    /// Record the new frame size for the vertex stage; particle state is
    /// untouched.
    pub fn resize(&mut self, width: u32, height: u32)
        ensures
            final(self).frame_size == (width, height),
            final(self).settings == old(self).settings,
            final(self).particle_system == old(self).particle_system,
            final(self).time_since_last_emit == old(self).time_since_last_emit,
            final(self).particle_buffer_size == old(self).particle_buffer_size,
            old(self).wf() ==> final(self).wf(),
    {
        self.frame_size = (width, height);
    }
}

} // verus!
