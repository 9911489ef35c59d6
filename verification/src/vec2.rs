//! Plane vectors in fixed-point coordinates, with the exact integer square
//! root that backs length and normalization.

use vstd::prelude::*;
use vstd::arithmetic::mul::{lemma_mul_inequality, lemma_mul_upper_bound};
use crate::fx::{div_fx, div_trunc, fxdiv, FX_LIM, FX_OP_BOUND, SCALE};

verus! {

/// A 2D vector; both coordinates are fixed-point values.
#[derive(Clone, Copy, Debug, PartialEq, Eq, Structural)]
pub struct FxVec2 {
    pub x: i64,
    pub y: i64,
}

impl FxVec2 {
    /// The zero vector.
    pub fn zero() -> (r: FxVec2)
        ensures
            r.x == 0 && r.y == 0,
    {
        FxVec2 { x: 0, y: 0 }
    }

    pub fn new(x: i64, y: i64) -> (r: FxVec2)
        ensures
            r.x == x && r.y == y,
    {
        FxVec2 { x, y }
    }
}

/// The squared Euclidean norm, in raw units.
pub open spec fn norm_sq(x: int, y: int) -> int {
    x * x + y * y
}

/// The integer square root: the unique `r` with `r * r <= n < (r + 1) * (r + 1)`.
pub open spec fn sqrt_s(n: nat) -> nat
    decreases n,
{
    if n == 0 {
        0
    } else {
        let p = sqrt_s((n - 1) as nat);
        if (p + 1) * (p + 1) <= n {
            p + 1
        } else {
            p
        }
    }
}

pub proof fn lemma_sqrt_s_bounds(n: nat)
    ensures
        sqrt_s(n) * sqrt_s(n) <= n,
        n < (sqrt_s(n) + 1) * (sqrt_s(n) + 1),
    decreases n,
{
    if n > 0 {
        lemma_sqrt_s_bounds((n - 1) as nat);
        let p = sqrt_s((n - 1) as nat);
        if (p + 1) * (p + 1) <= n {
            assert(sqrt_s(n) == p + 1);
            assert(n == (p + 1) * (p + 1)) by (nonlinear_arith)
                requires
                    (n - 1) < (p + 1) * (p + 1),
                    (p + 1) * (p + 1) <= n,
            ;
            assert((p + 1) * (p + 1) < (p + 1 + 1) * (p + 1 + 1)) by (nonlinear_arith)
                requires
                    p >= 0,
            ;
        } else {
            assert(sqrt_s(n) == p);
        }
    } else {
        let s = sqrt_s(n);
        assert(s == 0);
        assert(s * s <= n && n < (s + 1) * (s + 1)) by (nonlinear_arith)
            requires
                s == 0,
                n == 0,
        ;
    }
}

/// Any `r` within the square-root bracket is the integer square root.
pub proof fn lemma_sqrt_s_unique(n: nat, r: nat)
    requires
        r * r <= n,
        n < (r + 1) * (r + 1),
    ensures
        r == sqrt_s(n),
{
    let s = sqrt_s(n);
    lemma_sqrt_s_bounds(n);
    if r < s {
        assert((r + 1) * (r + 1) <= s * s) by (nonlinear_arith)
            requires
                r + 1 <= s,
        ;
    }
    if s < r {
        assert((s + 1) * (s + 1) <= r * r) by (nonlinear_arith)
            requires
                s + 1 <= r,
        ;
    }
}

/// Exec integer square root by bisection.
pub fn isqrt(n: u128) -> (r: u64)
    requires
        (n as int) < 0x40000000000000000000000000000000,
    ensures
        r as nat == sqrt_s(n as nat),
        (r as int) * (r as int) <= n as int,
        (n as int) < (r as int + 1) * (r as int + 1),
{
    let mut lo: u128 = 0;
    let mut hi: u128 = 0x8000_0000_0000_0000;
    proof {
        assert((n as int) < (hi as int) * (hi as int)) by (nonlinear_arith)
            requires
                hi == 0x8000_0000_0000_0000,
                (n as int) < 0x40000000000000000000000000000000,
        ;
    }
    while lo + 1 < hi
        invariant
            lo < hi <= 0x8000_0000_0000_0000,
            (lo as int) * (lo as int) <= n as int,
            (n as int) < (hi as int) * (hi as int),
        decreases hi - lo,
    {
        let mid = lo + (hi - lo) / 2;
        proof {
            lemma_mul_upper_bound(
                mid as int,
                0x8000_0000_0000_0000,
                mid as int,
                0x8000_0000_0000_0000,
            );
        }
        if mid * mid <= n {
            lo = mid;
        } else {
            hi = mid;
        }
    }
    proof {
        lemma_sqrt_s_unique(n as nat, lo as nat);
    }
    lo as u64
}

/// The Euclidean length of a vector, rounded down to raw units.
pub open spec fn vlen(x: int, y: int) -> int {
    sqrt_s(norm_sq(x, y) as nat) as int
}

/// The unit vector along `(x, y)` in fixed-point, or zero for the zero
/// vector: each component is `c * SCALE / length`, truncated toward zero.
pub open spec fn normalize_s(x: int, y: int) -> (int, int) {
    if x == 0 && y == 0 {
        (0, 0)
    } else {
        (div_trunc(x * (SCALE as int), vlen(x, y)), div_trunc(y * (SCALE as int), vlen(x, y)))
    }
}

proof fn lemma_vlen_range(x: int, y: int)
    requires
        -FX_LIM <= x <= FX_LIM,
        -FX_LIM <= y <= FX_LIM,
    ensures
        0 <= vlen(x, y) <= FX_OP_BOUND,
        norm_sq(x, y) < 0x40000000000000000000000000000000,
        (x != 0 || y != 0) ==> vlen(x, y) >= 1,
{
    assert(0 <= x * x <= FX_LIM * FX_LIM) by (nonlinear_arith)
        requires
            -FX_LIM <= x <= FX_LIM,
    ;
    assert(0 <= y * y <= FX_LIM * FX_LIM) by (nonlinear_arith)
        requires
            -FX_LIM <= y <= FX_LIM,
    ;
    let n = norm_sq(x, y) as nat;
    lemma_sqrt_s_bounds(n);
    let s = sqrt_s(n);
    if s > FX_OP_BOUND {
        assert((FX_OP_BOUND + 1) * (FX_OP_BOUND + 1) <= s * s) by (nonlinear_arith)
            requires
                FX_OP_BOUND + 1 <= s,
        ;
    }
    if x != 0 || y != 0 {
        assert(norm_sq(x, y) >= 1) by (nonlinear_arith)
            requires
                x != 0 || y != 0,
        ;
        if s == 0 {
            assert((s + 1) * (s + 1) == 1) by (nonlinear_arith)
                requires
                    s == 0,
            ;
            assert(false);
        }
    }
}

/// A normalized vector is a unit vector: neither fixed-point component
/// exceeds one in magnitude.
pub proof fn lemma_normalize_unit(x: int, y: int)
    requires
        -FX_LIM <= x <= FX_LIM,
        -FX_LIM <= y <= FX_LIM,
    ensures
        -SCALE <= normalize_s(x, y).0 <= SCALE,
        -SCALE <= normalize_s(x, y).1 <= SCALE,
{
    if x == 0 && y == 0 {
    } else {
        lemma_vlen_range(x, y);
        let len = vlen(x, y);
        assert(norm_sq(x, y) >= x * x && norm_sq(x, y) >= y * y && norm_sq(x, y) >= 0)
            by (nonlinear_arith);
        lemma_component_le_len(x, x, y);
        lemma_component_le_len(y, x, y);
        lemma_norm_component(x, len);
        lemma_norm_component(y, len);
    }
}

/// Each coordinate's magnitude is at most the vector's length.
proof fn lemma_component_le_len(c: int, ox: int, oy: int)
    requires
        norm_sq(ox, oy) >= c * c,
        norm_sq(ox, oy) >= 0,
    ensures
        crate::fx::abs_i(c) <= vlen(ox, oy),
{
    let n = norm_sq(ox, oy) as nat;
    let len = vlen(ox, oy);
    lemma_sqrt_s_bounds(n);
    if crate::fx::abs_i(c) > len {
        assert((len + 1) * (len + 1) <= c * c) by (nonlinear_arith)
            requires
                len + 1 <= crate::fx::abs_i(c),
                len >= 0,
        ;
    }
}

/// A coordinate no larger than the length divides out to at most one.
proof fn lemma_norm_component(c: int, len: int)
    requires
        len >= 1,
        crate::fx::abs_i(c) <= len,
    ensures
        crate::fx::abs_i(div_trunc(c * (SCALE as int), len)) <= SCALE,
{
    let s = SCALE as int;
    assert(crate::fx::abs_i(c * s) == crate::fx::abs_i(c) * s) by (nonlinear_arith)
        requires
            s > 0,
    ;
    lemma_mul_inequality(crate::fx::abs_i(c), len, s);
    vstd::arithmetic::div_mod::lemma_div_is_ordered(crate::fx::abs_i(c) * s, len * s, len);
    vstd::arithmetic::div_mod::lemma_div_multiples_vanish(s, len);
    assert(len * s == s * len) by (nonlinear_arith);
    if c >= 0 {
        vstd::arithmetic::div_mod::lemma_div_pos_is_pos(c * s, len);
    } else {
        vstd::arithmetic::div_mod::lemma_div_pos_is_pos(-(c * s), len);
    }
}

/// The squared norm, computed without overflow in a wide word.
fn norm_sq_exec(v: FxVec2) -> (r: u128)
    requires
        -FX_LIM <= v.x <= FX_LIM,
        -FX_LIM <= v.y <= FX_LIM,
    ensures
        r as int == norm_sq(v.x as int, v.y as int),
        (r as int) < 0x40000000000000000000000000000000,
{
    proof {
        assert(0 <= (v.x as int) * (v.x as int) <= FX_LIM * FX_LIM) by (nonlinear_arith)
            requires
                -FX_LIM <= v.x <= FX_LIM,
        ;
        assert(0 <= (v.y as int) * (v.y as int) <= FX_LIM * FX_LIM) by (nonlinear_arith)
            requires
                -FX_LIM <= v.y <= FX_LIM,
        ;
    }
    let xsq: i128 = (v.x as i128) * (v.x as i128);
    let ysq: i128 = (v.y as i128) * (v.y as i128);
    (xsq + ysq) as u128
}

/// The unit vector along `v`, or zero for the zero vector; exact per
/// `normalize_s`.
pub fn normalize_or_zero(v: FxVec2) -> (r: FxVec2)
    requires
        -FX_LIM <= v.x <= FX_LIM,
        -FX_LIM <= v.y <= FX_LIM,
    ensures
        (r.x as int, r.y as int) == normalize_s(v.x as int, v.y as int),
{
    if v.x == 0 && v.y == 0 {
        FxVec2 { x: 0, y: 0 }
    } else {
        proof {
            lemma_vlen_range(v.x as int, v.y as int);
        }
        let len: u64 = isqrt(norm_sq_exec(v));
        let nx = div_fx(v.x, len as i64);
        let ny = div_fx(v.y, len as i64);
        FxVec2 { x: nx, y: ny }
    }
}

/// The Euclidean length in raw units, rounded down.
pub fn length(v: FxVec2) -> (r: i64)
    requires
        -FX_LIM <= v.x <= FX_LIM,
        -FX_LIM <= v.y <= FX_LIM,
    ensures
        r == vlen(v.x as int, v.y as int),
{
    proof {
        lemma_vlen_range(v.x as int, v.y as int);
    }
    let len: u64 = isqrt(norm_sq_exec(v));
    len as i64
}

} // verus!
