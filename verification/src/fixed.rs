//! Fixed-point scalar arithmetic.
//!
//! One spatial unit, one second, and the value 1.0 are all represented by
//! [`FP`] fixed-point steps, so positions, velocities, fractions and times
//! share one scale and microsecond timestamps convert to seconds for free.
//! All divisions truncate toward zero, mirrored exactly by [`sdiv`].

use vstd::prelude::*;

verus! {

/// Fixed-point steps per 1.0 (and microseconds per second).
pub const FP: i64 = 1_000_000;

/// Unsigned copy of [`FP`] for time arithmetic.
pub const FP_U: u64 = 1_000_000;

/// Largest magnitude accepted for a gravity component (1000 units/s²).
pub const GRAVITY_LIMIT: i64 = 1_000_000_000;

/// Smallest magnitude accepted for the vertical gravity component
/// (0.001 units/s²); keeps computed lifetimes below [`LIFETIME_LIMIT`].
pub const GRAVITY_Y_MIN: i64 = 1_000;

/// Largest launch-speed magnitude a particle can be emitted with (100 units/s).
pub const VELOCITY_LIMIT: i64 = 100_000_000;

/// Largest lifetime a particle can be emitted with, in microseconds.
pub const LIFETIME_LIMIT: u64 = 100_000_000_000;

/// Largest time step accepted by one `update` call, in microseconds (10 s).
pub const DELTA_LIMIT: u64 = 10_000_000;

/// Largest particle size accepted by the settings (1000 units).
pub const SIZE_LIMIT: i64 = 1_000_000_000;

/// Largest frequency-jitter spread accepted by the settings (1000 bins).
pub const SPREAD_LIMIT: i64 = 1_000_000_000;

/// Largest launch-angle jitter accepted by the settings (180 degrees).
pub const ANGLE_LIMIT: i64 = 180_000_000;

/// Largest bin count accepted by the settings.
pub const FREQUENCIES_LIMIT: u64 = 1_000_000;

/// Largest emission rate accepted by the settings (one particle per µs).
pub const RATE_LIMIT: u64 = 1_000_000;

/// Integer division truncating toward zero, for a positive divisor.
pub open spec fn sdiv(a: int, d: int) -> int
    recommends
        d > 0,
{
    if a >= 0 {
        a / d
    } else {
        -((-a) / d)
    }
}

/// Integer square root: the largest `r` with `r * r <= n`.
pub fn isqrt_u64(n: u64) -> (r: u64)
    ensures
        r * r <= n,
        n < (r + 1) * (r + 1),
{
    if n == 0 {
        return 0;
    }
    let mut lo: u64 = 0;
    let mut hi: u64 = 0x1_0000_0000;
    if n < hi {
        hi = n + 1;
    }
    assert(n < hi * hi) by (nonlinear_arith)
        requires
            (hi == n + 1 && n >= 1) || (hi == 0x1_0000_0000u64 && n < 0x1_0000_0000_0000_0000),
    ;
    while lo + 1 < hi
        invariant
            lo < hi,
            hi <= 0x1_0000_0000,
            lo * lo <= n,
            n < hi * hi,
        decreases hi - lo,
    {
        let mid = lo + (hi - lo) / 2;
        assert(mid * mid < 0x1_0000_0000_0000_0000) by (nonlinear_arith)
            requires
                mid < 0x1_0000_0000,
        ;
        if mid * mid <= n {
            lo = mid;
        } else {
            hi = mid;
        }
    }
    lo
}

/// `a / d` on 128-bit integers, truncating toward zero.
pub fn sdiv_i128(a: i128, d: i128) -> (r: i128)
    requires
        1 <= d,
        -0x7fff_ffff_ffff_ffff_ffff_ffff_ffff_ffffi128 <= a,
    ensures
        r == sdiv(a as int, d as int),
{
    if a >= 0 {
        ((a as u128) / (d as u128)) as i128
    } else {
        let q: u128 = ((-a) as u128) / (d as u128);
        -(q as i128)
    }
}

/// `a / d` for a signed numerator and positive divisor, truncating toward
/// zero; the result never exceeds the numerator in magnitude.
pub fn sdiv_i64(a: i64, d: u64) -> (r: i64)
    requires
        1 <= d,
        i64::MIN < a,
    ensures
        r == sdiv(a as int, d as int),
        a >= 0 ==> 0 <= r <= a,
        a < 0 ==> a <= r <= 0,
{
    proof {
        if a >= 0 {
            vstd::arithmetic::div_mod::lemma_div_nonincreasing(a as int, d as int);
            vstd::arithmetic::div_mod::lemma_div_pos_is_pos(a as int, d as int);
        } else {
            vstd::arithmetic::div_mod::lemma_div_nonincreasing(-(a as int), d as int);
            vstd::arithmetic::div_mod::lemma_div_pos_is_pos(-(a as int), d as int);
        }
    }
    if a >= 0 {
        ((a as u64) / d) as i64
    } else {
        let q: u64 = ((-a) as u64) / d;
        -(q as i64)
    }
}

/// `a * b / FP`, truncating toward zero, with the product widened to 128 bits.
pub fn mul_div_fp(a: i64, b: i64) -> (r: i64)
    requires
        -0x7fff_ffff_ffff_ffff <= sdiv(a * b, FP as int) <= 0x7fff_ffff_ffff_ffff,
    ensures
        r == sdiv(a * b, FP as int),
{
    proof {
        assert((a as i128) * (b as i128) <= 0x4000_0000_0000_0000_0000_0000_0000_0000i128
            && (a as i128) * (b as i128) >= -0x4000_0000_0000_0000_0000_0000_0000_0000i128)
            by (nonlinear_arith);
    }
    let p: i128 = (a as i128) * (b as i128);
    if p >= 0 {
        let q: u128 = (p as u128) / 1_000_000u128;
        q as i64
    } else {
        let q: u128 = ((-p) as u128) / 1_000_000u128;
        -(q as i64)
    }
}

/// Quarter-wave sine in fixed-point degrees: the Bhaskara rational
/// approximation `4x(180 - x) / (40500 - x(180 - x))`, scaled so that the
/// argument is degrees times [`FP`] and the result is sine times [`FP`].
/// Exact at 0 and at 90 degrees.
pub open spec fn sin_q_spec(x: int) -> int {
    let a = x * (180 * (FP as int) - x);
    4 * a * (FP as int) / (40500 * (FP as int) * (FP as int) - a)
}

/// Sine of `x` fixed-point degrees for `0 <= x <= 90`, in fixed-point steps.
pub fn sin_q(x: i64) -> (r: i64)
    requires
        0 <= x <= 90 * FP,
    ensures
        r == sin_q_spec(x as int),
        0 <= r <= FP,
        x == 0 ==> r == 0,
        x == 90 * FP ==> r == FP,
{
    proof {
        assert(0 <= x * (180 * (FP as int) - x) <= 8100 * (FP as int) * (FP as int))
            by (nonlinear_arith)
            requires
                0 <= x <= 90 * FP,
                FP == 1_000_000,
        ;
    }
    let a: i64 = x * (180 * FP - x);
    let den: i64 = 40500 * FP * FP - a;
    let num: u128 = 4 * (a as u128) * (FP as u128);
    let q: u128 = num / (den as u128);
    proof {
        assert(num as int <= (den as int) * (FP as int)) by (nonlinear_arith)
            requires
                0 <= a <= 8100 * (FP as int) * (FP as int),
                num == 4 * (a as int) * (FP as int),
                den == 40500 * (FP as int) * (FP as int) - a,
                FP == 1_000_000,
        ;
        vstd::arithmetic::div_mod::lemma_div_is_ordered(
            num as int,
            (den as int) * (FP as int),
            den as int,
        );
        vstd::arithmetic::div_mod::lemma_div_multiples_vanish(FP as int, den as int);
        if x == 90 * FP {
            assert(a == 8100 * (FP as int) * (FP as int)) by (nonlinear_arith)
                requires
                    x == 90 * (FP as int),
                    a == x * (180 * (FP as int) - x),
                    FP == 1_000_000,
            ;
            assert(num as int == (den as int) * (FP as int)) by (nonlinear_arith)
                requires
                    a == 8100 * (FP as int) * (FP as int),
                    num == 4 * (a as int) * (FP as int),
                    den == 40500 * (FP as int) * (FP as int) - a,
                    FP == 1_000_000,
            ;
        }
    }
    q as i64
}

/// Sine of `x` fixed-point degrees for `-90 <= x <= 90`, odd in `x`.
pub open spec fn sin_deg_spec(x: int) -> int {
    if x >= 0 {
        sin_q_spec(x)
    } else {
        -sin_q_spec(-x)
    }
}

/// Cosine of `x` fixed-point degrees for `-90 <= x <= 90`, even in `x`.
pub open spec fn cos_deg_spec(x: int) -> int {
    if x >= 0 {
        sin_q_spec(90 * (FP as int) - x)
    } else {
        sin_q_spec(90 * (FP as int) + x)
    }
}

/// Sine of `x` fixed-point degrees, for arguments within a quarter turn.
pub fn sin_deg(x: i64) -> (r: i64)
    requires
        -90 * FP <= x <= 90 * FP,
    ensures
        r == sin_deg_spec(x as int),
        -FP <= r <= FP,
        x == 0 ==> r == 0,
{
    if x >= 0 {
        sin_q(x)
    } else {
        -sin_q(-x)
    }
}

/// Cosine of `x` fixed-point degrees, for arguments within a quarter turn.
pub fn cos_deg(x: i64) -> (r: i64)
    requires
        -90 * FP <= x <= 90 * FP,
    ensures
        r == cos_deg_spec(x as int),
        0 <= r <= FP,
        x == 0 ==> r == FP,
{
    if x >= 0 {
        sin_q(90 * FP - x)
    } else {
        sin_q(90 * FP + x)
    }
}

} // verus!
