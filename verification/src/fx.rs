//! Fixed-point scalar arithmetic.
//!
//! Every physical quantity in the simulation (positions, velocities,
//! durations, tuning constants) is an `i64` counting units of `1 / SCALE`.
//! Multiplication and division rescale with truncation toward zero, the
//! rounding the hardware float unit applies to these magnitudes, so the
//! per-tick formulas can be written and proved exactly.

use vstd::prelude::*;
use vstd::arithmetic::div_mod::{
    lemma_div_is_ordered, lemma_div_nonincreasing, lemma_div_pos_is_pos,
};
use vstd::arithmetic::mul::lemma_mul_upper_bound;

verus! {

/// Raw steps per unit: quantities are counted in 1/65536ths.
pub const SCALE: i64 = 65536;

/// Magnitude cap on the operands of the rescaling operations.  Well above
/// anything the game's tuning values and level bounds can produce in a
/// tick, and small enough that every intermediate fits the machine words.
pub const FX_OP_BOUND: i64 = 0x8_0000_0000;

/// Magnitude cap on simulation state fed to the compound helpers; half of
/// `FX_OP_BOUND`, so sums and differences of two such values still fall
/// under the operand cap.
pub const FX_LIM: i64 = 0x2_0000_0000;

/// Magnitude cap on positions, velocities and tuning values at a tick
/// boundary (32768 units).  One tick of the integrator keeps every
/// intermediate under `FX_LIM`, so the helpers' operand caps hold
/// throughout the stage chain.
pub const SIM_LIM: i64 = 0x8000_0000;

/// Truncating division (round toward zero), positive divisor.
pub open spec fn div_trunc(a: int, b: int) -> int {
    if a >= 0 {
        a / b
    } else {
        -((-a) / b)
    }
}

/// The product of two fixed-point values, rescaled.
pub open spec fn fxmul(a: int, b: int) -> int {
    div_trunc(a * b, SCALE as int)
}

/// The quotient of two fixed-point values, rescaled.
pub open spec fn fxdiv(a: int, b: int) -> int {
    div_trunc(a * (SCALE as int), b)
}

pub open spec fn abs_i(a: int) -> int {
    if a >= 0 {
        a
    } else {
        -a
    }
}

pub open spec fn min_i(a: int, b: int) -> int {
    if a <= b {
        a
    } else {
        b
    }
}

pub open spec fn max_i(a: int, b: int) -> int {
    if a >= b {
        a
    } else {
        b
    }
}

/// `x` forced into `[lo, hi]`.
pub open spec fn clamp_i(x: int, lo: int, hi: int) -> int {
    if x < lo {
        lo
    } else if x > hi {
        hi
    } else {
        x
    }
}

/// Linear interpolation from `a` toward `b` by fraction `t` (fixed-point).
pub open spec fn fxlerp(a: int, b: int, t: int) -> int {
    a + fxmul(b - a, t)
}

/// Truncating division is exact on magnitudes: `|div_trunc(a, b)| == |a| / b`.
proof fn lemma_div_trunc_abs(a: int, b: int)
    requires
        b > 0,
    ensures
        abs_i(div_trunc(a, b)) == abs_i(a) / b,
        a >= 0 ==> div_trunc(a, b) >= 0,
        a <= 0 ==> div_trunc(a, b) <= 0,
{
    if a >= 0 {
        lemma_div_pos_is_pos(a, b);
    } else {
        lemma_div_pos_is_pos(-a, b);
    }
}

/// Scaling by a fraction `0 <= t <= SCALE` never increases magnitude and
/// never flips sign: `fxmul(a, t)` lies between `0` and `a`.
pub proof fn lemma_fxmul_fraction(a: int, t: int)
    requires
        0 <= t <= SCALE,
    ensures
        a >= 0 ==> 0 <= fxmul(a, t) <= a,
        a <= 0 ==> a <= fxmul(a, t) <= 0,
        abs_i(fxmul(a, t)) <= abs_i(a),
{
    let s = SCALE as int;
    lemma_div_trunc_abs(a * t, s);
    lemma_mul_upper_bound(abs_i(a), abs_i(a), t, s);
    assert(abs_i(a * t) == abs_i(a) * t) by (nonlinear_arith)
        requires
            t >= 0,
    ;
    lemma_div_is_ordered(abs_i(a) * t, abs_i(a) * s, s);
    assert(abs_i(a) * s / s == abs_i(a)) by (nonlinear_arith)
        requires
            s > 0,
            abs_i(a) >= 0,
    ;
    if a >= 0 {
        lemma_div_pos_is_pos(a * t, s);
        assert(a * t >= 0) by (nonlinear_arith)
            requires
                a >= 0,
                t >= 0,
        ;
    } else {
        assert(a * t <= 0) by (nonlinear_arith)
            requires
                a <= 0,
                t >= 0,
        ;
    }
}

/// Scaling by any factor of magnitude at most one never increases
/// magnitude.
pub proof fn lemma_fxmul_contraction(a: int, t: int)
    requires
        -SCALE <= t <= SCALE,
    ensures
        abs_i(fxmul(a, t)) <= abs_i(a),
{
    let s = SCALE as int;
    lemma_div_trunc_abs(a * t, s);
    assert(abs_i(a * t) == abs_i(a) * abs_i(t)) by (nonlinear_arith);
    lemma_mul_upper_bound(abs_i(a), abs_i(a), abs_i(t), s);
    lemma_div_is_ordered(abs_i(a) * abs_i(t), abs_i(a) * s, s);
    assert(abs_i(a) * s / s == abs_i(a)) by (nonlinear_arith)
        requires
            s > 0,
            abs_i(a) >= 0,
    ;
}

/// A quotient of nonnegative values is nonnegative.
pub proof fn lemma_fxdiv_nonneg(a: int, b: int)
    requires
        a >= 0,
        b > 0,
    ensures
        fxdiv(a, b) >= 0,
{
    assert(a * (SCALE as int) >= 0) by (nonlinear_arith)
        requires
            a >= 0,
            SCALE > 0,
    ;
    lemma_div_pos_is_pos(a * (SCALE as int), b);
}

/// A lerp by a fraction in `[0, SCALE]` lands between its endpoints, on the
/// same side of `b` as `a` was: each step of the smoothing law moves the
/// current value toward the target without overshooting.
pub proof fn lemma_fxlerp_between(a: int, b: int, t: int)
    requires
        0 <= t <= SCALE,
    ensures
        a <= b ==> a <= fxlerp(a, b, t) <= b,
        b <= a ==> b <= fxlerp(a, b, t) <= a,
        abs_i(b - fxlerp(a, b, t)) <= abs_i(b - a),
{
    lemma_fxmul_fraction(b - a, t);
}

/// Exec truncating multiply-and-rescale; exact per `fxmul`.
pub fn mul_fx(a: i64, b: i64) -> (r: i64)
    requires
        -FX_OP_BOUND <= a <= FX_OP_BOUND,
        -FX_OP_BOUND <= b <= FX_OP_BOUND,
    ensures
        r == fxmul(a as int, b as int),
        abs_i(r as int) <= abs_i((a as int) * (b as int)) / (SCALE as int),
{
    let neg: bool = (a < 0) != (b < 0);
    let aa: u64 = if a < 0 {
        (-a) as u64
    } else {
        a as u64
    };
    let bb: u64 = if b < 0 {
        (-b) as u64
    } else {
        b as u64
    };
    proof {
        lemma_mul_upper_bound(aa as int, FX_OP_BOUND as int, bb as int, FX_OP_BOUND as int);
    }
    let p: u128 = (aa as u128) * (bb as u128);
    let q: u128 = p / (SCALE as u128);
    proof {
        assert(p == abs_i((a as int) * (b as int))) by (nonlinear_arith)
            requires
                p == (aa as int) * (bb as int),
                aa == abs_i(a as int),
                bb == abs_i(b as int),
        ;
        lemma_mul_upper_bound(aa as int, FX_OP_BOUND as int, bb as int, FX_OP_BOUND as int);
        lemma_div_is_ordered(
            p as int,
            (FX_OP_BOUND as int) * (FX_OP_BOUND as int),
            SCALE as int,
        );
        lemma_div_trunc_abs((a as int) * (b as int), SCALE as int);
        assert((a as int) * (b as int) >= 0 ==> !neg || q == 0) by (nonlinear_arith)
            requires
                aa == abs_i(a as int),
                bb == abs_i(b as int),
                neg == ((a < 0) != (b < 0)),
                q == (aa as int) * (bb as int) / (SCALE as int),
                SCALE > 0,
        ;
        assert((a as int) * (b as int) < 0 ==> neg) by (nonlinear_arith)
            requires
                aa == abs_i(a as int),
                bb == abs_i(b as int),
                neg == ((a < 0) != (b < 0)),
        ;
    }
    if neg {
        -(q as i64)
    } else {
        q as i64
    }
}

/// Exec truncating divide-and-rescale; exact per `fxdiv`.
pub fn div_fx(a: i64, b: i64) -> (r: i64)
    requires
        -FX_OP_BOUND <= a <= FX_OP_BOUND,
        0 < b <= FX_OP_BOUND,
    ensures
        r == fxdiv(a as int, b as int),
        abs_i(r as int) <= abs_i((a as int) * (SCALE as int)) / (b as int),
{
    let neg: bool = a < 0;
    let aa: u64 = if a < 0 {
        (-a) as u64
    } else {
        a as u64
    };
    let p: u128 = (aa as u128) * (SCALE as u128);
    let q: u128 = p / (b as u128);
    proof {
        assert(p == abs_i((a as int) * (SCALE as int))) by (nonlinear_arith)
            requires
                p == (aa as int) * (SCALE as int),
                aa == abs_i(a as int),
                SCALE > 0,
        ;
        lemma_mul_upper_bound(aa as int, FX_OP_BOUND as int, SCALE as int, SCALE as int);
        lemma_div_nonincreasing(p as int, b as int);
        lemma_div_trunc_abs((a as int) * (SCALE as int), b as int);
        assert(a >= 0 ==> (a as int) * (SCALE as int) >= 0) by (nonlinear_arith);
        assert(a < 0 ==> (a as int) * (SCALE as int) <= 0) by (nonlinear_arith)
            requires
                SCALE > 0,
        ;
    }
    if neg {
        -(q as i64)
    } else {
        q as i64
    }
}

/// Exec clamp; exact per `clamp_i`.
pub fn clamp_fx(x: i64, lo: i64, hi: i64) -> (r: i64)
    requires
        lo <= hi,
    ensures
        r == clamp_i(x as int, lo as int, hi as int),
{
    if x < lo {
        lo
    } else if x > hi {
        hi
    } else {
        x
    }
}

/// Exec minimum.
pub fn min_fx(a: i64, b: i64) -> (r: i64)
    ensures
        r == min_i(a as int, b as int),
{
    if a <= b {
        a
    } else {
        b
    }
}

/// Exec maximum.
pub fn max_fx(a: i64, b: i64) -> (r: i64)
    ensures
        r == max_i(a as int, b as int),
{
    if a >= b {
        a
    } else {
        b
    }
}

/// Exec absolute value.
pub fn abs_fx(a: i64) -> (r: i64)
    requires
        a != i64::MIN,
    ensures
        r == abs_i(a as int),
{
    if a < 0 {
        -a
    } else {
        a
    }
}

/// Exec lerp from `a` toward `b` by fraction `t`; exact per `fxlerp`.
pub fn lerp_fx(a: i64, b: i64, t: i64) -> (r: i64)
    requires
        -FX_LIM <= a <= FX_LIM,
        -FX_LIM <= b <= FX_LIM,
        0 <= t <= SCALE,
    ensures
        r == fxlerp(a as int, b as int, t as int),
        a <= b ==> a <= r <= b,
        b <= a ==> b <= r <= a,
{
    proof {
        lemma_fxlerp_between(a as int, b as int, t as int);
    }
    let d = b - a;
    let step = mul_fx(d, t);
    proof {
        lemma_fxmul_fraction(d as int, t as int);
    }
    a + step
}

} // verus!
