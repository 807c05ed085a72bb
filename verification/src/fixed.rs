//! Fixed-point arithmetic for the viewport.
//!
//! Camera quantities (zoom, pan offsets, cursor coordinates, normalized
//! device coordinates) are carried as `i64` values scaled by `FP_SCALE`,
//! so a stored value `v` stands for the real number `v / FP_SCALE`.
//! All helpers here state their results exactly over mathematical integers.

use vstd::prelude::*;

verus! {

/// One whole unit in fixed-point representation (four decimal places).
pub const FP_SCALE: i64 = 10_000;

/// Largest magnitude accepted by `fpdiv` for its numerator, so that
/// `a * FP_SCALE` stays well inside `i64`.
pub const FPDIV_ARG_LIMIT: i64 = 100_000_000_000_000;

/// Flooring division of `a * FP_SCALE` by a positive `z`, extended to
/// negative `a` symmetrically (truncation toward zero, as the hardware
/// division behaves).
pub open spec fn fpdiv_spec(a: int, z: int) -> int {
    if a >= 0 {
        (a * FP_SCALE) / z
    } else {
        -(((-a) * FP_SCALE) / z)
    }
}

/// Divide a fixed-point value by a fixed-point value, producing the
/// fixed-point quotient: `(a / FP_SCALE) / (z / FP_SCALE)` scaled back up.
pub fn fpdiv(a: i64, z: i64) -> (r: i64)
    requires
        0 < z,
        -FPDIV_ARG_LIMIT <= a <= FPDIV_ARG_LIMIT,
    ensures
        r == fpdiv_spec(a as int, z as int),
        -FPDIV_ARG_LIMIT * FP_SCALE <= r <= FPDIV_ARG_LIMIT * FP_SCALE,
{
    if a >= 0 {
        let n: i64 = a * FP_SCALE;
        let q: i64 = n / z;
        proof {
            vstd::arithmetic::div_mod::lemma_div_pos_is_pos(n as int, z as int);
            vstd::arithmetic::div_mod::lemma_div_nonincreasing(n as int, z as int);
        }
        q
    } else {
        let n: i64 = (-a) * FP_SCALE;
        let q: i64 = n / z;
        proof {
            vstd::arithmetic::div_mod::lemma_div_pos_is_pos(n as int, z as int);
            vstd::arithmetic::div_mod::lemma_div_nonincreasing(n as int, z as int);
        }
        -q
    }
}

/// Magnitude of an integer.
pub open spec fn abs_spec(x: int) -> int {
    if x >= 0 {
        x
    } else {
        -x
    }
}

/// Restrict a value to a closed interval.
pub open spec fn clamp_spec(x: int, lo: int, hi: int) -> int {
    if x < lo {
        lo
    } else if x > hi {
        hi
    } else {
        x
    }
}

/// Restrict a value to a closed interval.
pub fn clamp_i64(x: i64, lo: i64, hi: i64) -> (r: i64)
    requires
        lo <= hi,
    ensures
        r == clamp_spec(x as int, lo as int, hi as int),
        lo <= r <= hi,
{
    if x < lo {
        lo
    } else if x > hi {
        hi
    } else {
        x
    }
}

/// A quotient of `fpdiv` is bounded once the numerator's magnitude is
/// bounded by `m` and the divisor is at least `zlo`.
pub proof fn lemma_fpdiv_abs_le(a: int, z: int, m: int, zlo: int)
    requires
        0 < zlo <= z,
        0 <= m,
        -m <= a <= m,
    ensures
        abs_spec(fpdiv_spec(a, z)) <= (m * FP_SCALE) / zlo,
{
    if a >= 0 {
        vstd::arithmetic::div_mod::lemma_div_pos_is_pos(a * FP_SCALE, z);
        vstd::arithmetic::mul::lemma_mul_inequality(a, m, FP_SCALE as int);
        vstd::arithmetic::div_mod::lemma_div_is_ordered(a * FP_SCALE, m * FP_SCALE, z);
        vstd::arithmetic::div_mod::lemma_div_is_ordered_by_denominator(m * FP_SCALE, zlo, z);
    } else {
        vstd::arithmetic::div_mod::lemma_div_pos_is_pos((-a) * FP_SCALE, z);
        vstd::arithmetic::mul::lemma_mul_inequality(-a, m, FP_SCALE as int);
        vstd::arithmetic::div_mod::lemma_div_is_ordered((-a) * FP_SCALE, m * FP_SCALE, z);
        vstd::arithmetic::div_mod::lemma_div_is_ordered_by_denominator(m * FP_SCALE, zlo, z);
    }
}

/// One easing step with a fixed interpolation weight of one fifth:
/// the integer form of `a + (b - a) * 0.2`, rounded toward `a`.
pub open spec fn lerp_spec(a: int, b: int) -> int {
    if b >= a {
        a + (b - a) / 5
    } else {
        a - (a - b) / 5
    }
}

/// The easing step never leaves the closed interval between its endpoints.
pub proof fn lemma_lerp_between(a: int, b: int)
    ensures
        b >= a ==> a <= lerp_spec(a, b) <= b,
        b < a ==> b <= lerp_spec(a, b) <= a,
{
    if b >= a {
        vstd::arithmetic::div_mod::lemma_div_pos_is_pos(b - a, 5);
        vstd::arithmetic::div_mod::lemma_div_nonincreasing(b - a, 5);
    } else {
        vstd::arithmetic::div_mod::lemma_div_pos_is_pos(a - b, 5);
        vstd::arithmetic::div_mod::lemma_div_nonincreasing(a - b, 5);
    }
}

/// Largest magnitude accepted by `lerp`, so that the span `b - a`
/// stays well inside `i64`.
pub const LERP_ARG_LIMIT: i64 = 1_000_000_000_000_000_000;

/// Move `a` one fifth of the way toward `b`.
pub fn lerp(a: i64, b: i64) -> (r: i64)
    requires
        -LERP_ARG_LIMIT <= a <= LERP_ARG_LIMIT,
        -LERP_ARG_LIMIT <= b <= LERP_ARG_LIMIT,
    ensures
        r == lerp_spec(a as int, b as int),
        b >= a ==> a <= r <= b,
        b < a ==> b <= r <= a,
{
    proof {
        lemma_lerp_between(a as int, b as int);
    }
    if b >= a {
        let d: i64 = b - a;
        a + d / 5
    } else {
        let d: i64 = a - b;
        a - d / 5
    }
}

} // verus!
