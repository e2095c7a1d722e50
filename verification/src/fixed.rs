//! Fixed-point scalars and circle functions.
//!
//! Coordinates are `i64` values counting `1 / SCALE` fractions of a world
//! unit.  Angles are `u64` values counting `1 / FULL_TURN` fractions of a
//! full turn.  The sine is evaluated by a rational approximation whose
//! numerator and denominator are exact integer expressions, so every
//! geometric result of the library is a mathematical function of its inputs.

use vstd::arithmetic::div_mod::{
    lemma_div_pos_is_pos, lemma_mod_bound, lemma_multiply_divide_le, lemma_multiply_divide_lt,
};
use vstd::arithmetic::mul::lemma_mul_strict_inequality;
use vstd::prelude::*;

verus! {

/// One world unit, in coordinate steps.
pub const SCALE: i64 = 65536;

/// One full turn of the circle, in angle steps.
pub const FULL_TURN: u64 = 65536;

/// Half a turn, in angle steps.
pub const HALF_TURN: u64 = 32768;

/// A quarter turn, in angle steps.
pub const QUARTER_TURN: u64 = 16384;

/// Largest admitted polygon side count: keeps vertex counts within `u32`
/// indices and the angle arithmetic within `u64`.
pub const MAX_SIDES: usize = 65536;

/// Largest admitted coordinate magnitude (radius, size component or
/// position component): keeps every product with `SCALE` within `i64`.
pub const MAX_COORD: i64 = 0x1000_0000_0000;

/// Sine of `q` angle steps, for `0 <= q <= HALF_TURN`, scaled by `SCALE`:
/// the rational approximation `16 n / (5 H^2 - 4 n)` with `n = q (H - q)`
/// and `H = HALF_TURN`, which is exact at `0`, at `HALF_TURN` and at the
/// quarter turn.
pub open spec fn sin_half_spec(q: int) -> int {
    let n = q * (HALF_TURN as int - q);
    (16 * n * (SCALE as int)) / (5 * (HALF_TURN as int) * (HALF_TURN as int) - 4 * n)
}

/// Sine of `q` angle steps for `0 <= q < FULL_TURN`, scaled by `SCALE`:
/// odd symmetry over the half turn.
pub open spec fn sin_spec(q: int) -> int {
    if q <= HALF_TURN as int {
        sin_half_spec(q)
    } else {
        -sin_half_spec(q - HALF_TURN as int)
    }
}

/// Cosine of `q` angle steps for `0 <= q < FULL_TURN`, scaled by `SCALE`:
/// the sine shifted by a quarter turn.
pub open spec fn cos_spec(q: int) -> int {
    sin_spec((q + QUARTER_TURN as int) % (FULL_TURN as int))
}

/// `radius` scaled by the signed fraction `t / SCALE`, rounding the
/// magnitude down.
pub open spec fn scale_by(radius: int, t: int) -> int {
    if t >= 0 {
        (radius * t) / (SCALE as int)
    } else {
        -((radius * (-t)) / (SCALE as int))
    }
}

/// The angle `(i / sides)` of a turn, rounded down to a step, lies within
/// the first turn whenever `i < sides`.
pub proof fn angle_steps_lt_full(sides: int, i: int)
    requires
        1 <= sides,
        0 <= i < sides,
    ensures
        0 <= (i * (FULL_TURN as int)) / sides < FULL_TURN as int,
{
    lemma_mul_strict_inequality(i, sides, FULL_TURN as int);
    assert(i * (FULL_TURN as int) < sides * (FULL_TURN as int));
    lemma_multiply_divide_lt(i * (FULL_TURN as int), sides, FULL_TURN as int);
    assert(0 <= i * (FULL_TURN as int)) by (nonlinear_arith)
        requires
            0 <= i,
            0 < FULL_TURN as int,
    ;
    lemma_div_pos_is_pos(i * (FULL_TURN as int), sides);
}

/// The sine approximation stays within `[0, SCALE]` on the first half turn.
pub proof fn lemma_sin_half_bounds(q: int)
    requires
        0 <= q <= HALF_TURN as int,
    ensures
        0 <= sin_half_spec(q) <= SCALE,
{
    assert(0 <= q * (HALF_TURN as int - q) <= 0x1000_0000) by (nonlinear_arith)
        requires
            0 <= q <= HALF_TURN as int,
            HALF_TURN == 32768u64,
    ;
    let n = q * (HALF_TURN as int - q);
    let num = 16 * n * (SCALE as int);
    let den = 5 * (HALF_TURN as int) * (HALF_TURN as int) - 4 * n;
    lemma_div_pos_is_pos(num, den);
    lemma_multiply_divide_le(num, den, SCALE as int);
}

/// The sine stays within `[-SCALE, SCALE]` on the full turn.
pub proof fn lemma_sin_bounds(q: int)
    requires
        0 <= q < FULL_TURN as int,
    ensures
        -SCALE <= sin_spec(q) <= SCALE,
{
    if q <= HALF_TURN as int {
        lemma_sin_half_bounds(q);
    } else {
        lemma_sin_half_bounds(q - HALF_TURN as int);
    }
}

/// The cosine stays within `[-SCALE, SCALE]` on the full turn.
pub proof fn lemma_cos_bounds(q: int)
    requires
        0 <= q < FULL_TURN as int,
    ensures
        -SCALE <= cos_spec(q) <= SCALE,
{
    lemma_mod_bound(q + QUARTER_TURN as int, FULL_TURN as int);
    lemma_sin_bounds((q + QUARTER_TURN as int) % (FULL_TURN as int));
}

/// Scaling by a fraction within `[-SCALE, SCALE]` keeps the magnitude
/// within the radius.
pub proof fn lemma_scale_by_bounds(radius: int, t: int)
    requires
        0 < radius,
        -SCALE <= t <= SCALE,
    ensures
        -radius <= scale_by(radius, t) <= radius,
{
    if t >= 0 {
        assert(0 <= radius * t <= (SCALE as int) * radius) by (nonlinear_arith)
            requires
                0 <= t <= SCALE as int,
                0 < radius,
        ;
        lemma_div_pos_is_pos(radius * t, SCALE as int);
        lemma_multiply_divide_le(radius * t, SCALE as int, radius);
    } else {
        assert(0 <= radius * (-t) <= (SCALE as int) * radius) by (nonlinear_arith)
            requires
                0 <= -t <= SCALE as int,
                0 < radius,
        ;
        lemma_div_pos_is_pos(radius * (-t), SCALE as int);
        lemma_multiply_divide_le(radius * (-t), SCALE as int, radius);
    }
}

/// The sine and cosine take their exact values at the axes: the circle
/// starts at angle 0 with cosine `SCALE` and sine 0.
pub proof fn lemma_sin_cos_at_zero()
    ensures
        sin_spec(0) == 0,
        cos_spec(0) == SCALE,
{
    assert(0 * (HALF_TURN as int - 0) == 0) by (nonlinear_arith);
    assert(sin_half_spec(0) == 0);
    assert((0 + QUARTER_TURN as int) % (FULL_TURN as int) == 16384);
    assert(16384 * (HALF_TURN as int - 16384) == 0x1000_0000) by (nonlinear_arith)
        requires
            HALF_TURN == 32768u64,
    ;
    let n = 16384 * (HALF_TURN as int - 16384);
    assert(16 * n * (SCALE as int) == 0x1_0000_0000_0000);
    assert(5 * (HALF_TURN as int) * (HALF_TURN as int) - 4 * n == 0x1_0000_0000)
        by (nonlinear_arith)
        requires
            n == 0x1000_0000,
            HALF_TURN == 32768u64,
    ;
    assert(0x1_0000_0000_0000int / 0x1_0000_0000int == 0x1_0000) by {
        vstd::arithmetic::div_mod::lemma_div_multiples_vanish(0x1_0000, 0x1_0000_0000);
        assert(0x1_0000_0000int * 0x1_0000 == 0x1_0000_0000_0000) by (nonlinear_arith);
    }
    assert(sin_half_spec(16384) == SCALE);
}

fn sin_half(q: u64) -> (s: u64)
    requires
        q <= HALF_TURN,
    ensures
        s == sin_half_spec(q as int),
        s <= SCALE,
{
    proof {
        assert((q as int) * (HALF_TURN as int - q as int) <= 0x1000_0000) by (nonlinear_arith)
            requires
                0 <= q as int <= HALF_TURN as int,
                HALF_TURN == 32768u64,
        ;
    }
    let n: u64 = q * (HALF_TURN - q);
    let n16: u64 = 16 * n;
    let num: u64 = n16 * 65536;
    let den: u64 = 5 * (HALF_TURN * HALF_TURN) - 4 * n;
    proof {
        lemma_multiply_divide_le(num as int, den as int, SCALE as int);
    }
    num / den
}

/// Sine of `q` angle steps, scaled by `SCALE`.
pub fn sin_fx(q: u64) -> (s: i64)
    requires
        q < FULL_TURN,
    ensures
        s == sin_spec(q as int),
        -SCALE <= s <= SCALE,
{
    if q <= HALF_TURN {
        sin_half(q) as i64
    } else {
        -(sin_half(q - HALF_TURN) as i64)
    }
}

/// Cosine of `q` angle steps, scaled by `SCALE`.
pub fn cos_fx(q: u64) -> (c: i64)
    requires
        q < FULL_TURN,
    ensures
        c == cos_spec(q as int),
        -SCALE <= c <= SCALE,
{
    let shifted: u64 = (q + QUARTER_TURN) % FULL_TURN;
    sin_fx(shifted)
}

/// `radius` scaled by the signed fraction `t / SCALE`.
pub fn scale_by_fx(radius: i64, t: i64) -> (r: i64)
    requires
        0 < radius <= MAX_COORD,
        -SCALE <= t <= SCALE,
    ensures
        r == scale_by(radius as int, t as int),
        -radius <= r <= radius,
{
    proof {
        assert((radius as int) * (SCALE as int) <= 0x1000_0000_0000_0000_0000) by (nonlinear_arith)
            requires
                0 < radius as int <= MAX_COORD as int,
                MAX_COORD == 0x1000_0000_0000i64,
                SCALE == 65536i64,
        ;
    }
    if t >= 0 {
        proof {
            assert((radius as int) * (t as int) <= (SCALE as int) * (radius as int))
                by (nonlinear_arith)
                requires
                    0 <= t as int <= SCALE as int,
                    0 < radius as int,
            ;
        }
        let m: u64 = (radius as u64) * (t as u64) / (SCALE as u64);
        proof {
            lemma_multiply_divide_le(
                (radius as int) * (t as int),
                SCALE as int,
                radius as int,
            );
        }
        m as i64
    } else {
        let neg: i64 = -t;
        proof {
            assert((radius as int) * (neg as int) <= (SCALE as int) * (radius as int))
                by (nonlinear_arith)
                requires
                    0 <= neg as int <= SCALE as int,
                    0 < radius as int,
            ;
        }
        let m: u64 = (radius as u64) * (neg as u64) / (SCALE as u64);
        proof {
            lemma_multiply_divide_le(
                (radius as int) * (neg as int),
                SCALE as int,
                radius as int,
            );
        }
        -(m as i64)
    }
}

} // verus!
