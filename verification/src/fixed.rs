//! Fixed-point scalars. Every real-valued quantity of the pipeline is an
//! `i64` counting units of `1 / FX_ONE`; all arithmetic truncates toward zero
//! and saturates at the `i64` range instead of overflowing.

use vstd::prelude::*;
use vstd::arithmetic::div_mod::{
    lemma_div_is_ordered_by_denominator, lemma_div_pos_is_pos, lemma_fundamental_div_mod,
    lemma_fundamental_div_mod_converse,
};
use vstd::arithmetic::mul::{lemma_mul_inequality, lemma_mul_nonnegative};

verus! {

/// Number of fixed-point units in one whole unit.
pub const FX_ONE: i64 = 65536;

/// Half of a whole unit, the threshold for rounding to nearest.
pub const FX_HALF: i64 = 32768;

/// Magnitude of an integer.
pub open spec fn sabs(x: int) -> int {
    if x >= 0 {
        x
    } else {
        -x
    }
}

/// Saturation of an unbounded integer into the `i64` range.
pub open spec fn clip_i64(x: int) -> int {
    if x > i64::MAX {
        i64::MAX as int
    } else if x < i64::MIN {
        i64::MIN as int
    } else {
        x
    }
}

/// Saturation of an unbounded integer into the `i32` range.
pub open spec fn clip_i32(x: int) -> int {
    if x > i32::MAX {
        i32::MAX as int
    } else if x < i32::MIN {
        i32::MIN as int
    } else {
        x
    }
}

/// Whether the quotient `a * b / d` of nonzero factors is negative.
pub open spec fn mul_div_neg(a: int, b: int, d: int) -> bool {
    ((a < 0) != (b < 0)) != (d < 0)
}

/// `a * b / d` under truncated (round-toward-zero) division, for `d != 0`.
pub open spec fn mul_div_val(a: int, b: int, d: int) -> int {
    if mul_div_neg(a, b, d) {
        -(sabs(a) * sabs(b) / sabs(d))
    } else {
        sabs(a) * sabs(b) / sabs(d)
    }
}

/// What `fx_mul_div(a, b, d)` returns: `a * b / d` truncated toward zero and
/// saturated at the `i64` range; a zero divisor saturates by the sign of the
/// product, with `0 / 0 == 0`.
pub open spec fn mul_div_spec(a: int, b: int, d: int) -> int {
    if d == 0 {
        if a == 0 || b == 0 {
            0
        } else if (a < 0) != (b < 0) {
            i64::MIN as int
        } else {
            i64::MAX as int
        }
    } else {
        clip_i64(mul_div_val(a, b, d))
    }
}

/// Fixed-point product: `a * b` scaled back down by one whole unit.
pub open spec fn fx_mul_spec(a: int, b: int) -> int {
    mul_div_spec(a, b, FX_ONE as int)
}

/// Fixed-point quotient: `a / b` scaled up by one whole unit.
pub open spec fn fx_div_spec(a: int, b: int) -> int {
    mul_div_spec(a, FX_ONE as int, b)
}

/// Saturating sum.
pub open spec fn add_spec(a: int, b: int) -> int {
    clip_i64(a + b)
}

/// Saturating difference.
pub open spec fn sub_spec(a: int, b: int) -> int {
    clip_i64(a - b)
}

/// Fixed-point value rounded to the nearest whole number, halves away from
/// zero.
pub open spec fn round_spec(v: int) -> int {
    if v >= 0 {
        (v + FX_HALF) / (FX_ONE as int)
    } else {
        -((-v + FX_HALF) / (FX_ONE as int))
    }
}

/// The magnitude of `a`, which always fits in a `u64`.
pub fn fx_abs(a: i64) -> (r: u64)
    ensures
        r as int == sabs(a as int),
{
    if a >= 0 {
        a as u64
    } else if a == i64::MIN {
        9223372036854775808u64
    } else {
        (-a) as u64
    }
}

/// `a * b / d` truncated toward zero and saturated at the `i64` range.
pub fn fx_mul_div(a: i64, b: i64, d: i64) -> (r: i64)
    ensures
        r as int == mul_div_spec(a as int, b as int, d as int),
{
    let na: u64 = fx_abs(a);
    let nb: u64 = fx_abs(b);
    proof {
        assert((na as int) * (nb as int) <= u128::MAX as int) by (nonlinear_arith)
            requires
                na <= u64::MAX,
                nb <= u64::MAX,
        ;
    }
    let prod: u128 = (na as u128) * (nb as u128);
    proof {
        assert(prod as int == sabs(a as int) * sabs(b as int));
        assert(prod == 0 <==> a == 0 || b == 0) by (nonlinear_arith)
            requires
                prod as int == sabs(a as int) * sabs(b as int),
        ;
    }
    if d == 0 {
        if prod == 0 {
            0
        } else if (a < 0) != (b < 0) {
            i64::MIN
        } else {
            i64::MAX
        }
    } else {
        let nd: u64 = fx_abs(d);
        let q: u128 = prod / (nd as u128);
        let neg: bool = ((a < 0) != (b < 0)) != (d < 0);
        if neg {
            if q >= 9223372036854775808u128 {
                i64::MIN
            } else {
                -(q as i64)
            }
        } else {
            if q > 9223372036854775807u128 {
                i64::MAX
            } else {
                q as i64
            }
        }
    }
}

/// Fixed-point product.
pub fn fx_mul(a: i64, b: i64) -> (r: i64)
    ensures
        r as int == fx_mul_spec(a as int, b as int),
{
    fx_mul_div(a, b, FX_ONE)
}

/// Fixed-point quotient.
pub fn fx_div(a: i64, b: i64) -> (r: i64)
    ensures
        r as int == fx_div_spec(a as int, b as int),
{
    fx_mul_div(a, FX_ONE, b)
}

/// Saturating sum.
pub fn fx_add(a: i64, b: i64) -> (r: i64)
    ensures
        r as int == add_spec(a as int, b as int),
{
    let s: i128 = a as i128 + b as i128;
    if s > i64::MAX as i128 {
        i64::MAX
    } else if s < i64::MIN as i128 {
        i64::MIN
    } else {
        s as i64
    }
}

/// Saturating difference.
pub fn fx_sub(a: i64, b: i64) -> (r: i64)
    ensures
        r as int == sub_spec(a as int, b as int),
{
    let s: i128 = a as i128 - b as i128;
    if s > i64::MAX as i128 {
        i64::MAX
    } else if s < i64::MIN as i128 {
        i64::MIN
    } else {
        s as i64
    }
}

/// Fixed-point value rounded to the nearest whole number, halves away from
/// zero.
pub fn fx_round(v: i64) -> (r: i64)
    ensures
        r as int == round_spec(v as int),
{
    if v >= 0 {
        let w: u64 = v as u64 + FX_HALF as u64;
        (w / FX_ONE as u64) as i64
    } else {
        let m: u64 = fx_abs(v);
        let w: u64 = m + FX_HALF as u64;
        -((w / FX_ONE as u64) as i64)
    }
}

/// Saturation into the `i32` range.
pub fn fx_sat_i32(x: i64) -> (r: i32)
    ensures
        r as int == clip_i32(x as int),
{
    if x > i32::MAX as i64 {
        i32::MAX
    } else if x < i32::MIN as i64 {
        i32::MIN
    } else {
        x as i32
    }
}

/// Fixed-point value rounded to the nearest whole number and saturated into
/// the `i32` range.
pub fn fx_round_i32(v: i64) -> (r: i32)
    ensures
        r as int == clip_i32(round_spec(v as int)),
{
    fx_sat_i32(fx_round(v))
}

/// Division truncated toward zero, for a positive divisor.
pub open spec fn tdiv_spec(n: int, m: int) -> int {
    if n >= 0 {
        n / m
    } else {
        -((-n) / m)
    }
}

/// The interpolation step from `a` toward `b` in `m` moves: the saturating
/// difference divided (truncated) by `m`.
pub open spec fn step_spec(a: int, b: int, m: int) -> int {
    tdiv_spec(sub_spec(b, a), m)
}

/// A start value advanced `i` times by a step, each move saturating.
pub open spec fn iter_add_spec(a: int, s: int, i: int) -> int
    decreases i,
{
    if i <= 0 {
        a
    } else {
        add_spec(iter_add_spec(a, s, i - 1), s)
    }
}

/// The interpolation step from `a` toward `b` in `m` moves.
pub fn fx_step(a: i64, b: i64, m: u64) -> (r: i64)
    requires
        m >= 1,
    ensures
        r as int == step_spec(a as int, b as int, m as int),
{
    let d: i64 = fx_sub(b, a);
    let dm: u64 = fx_abs(d);
    let q: u64 = dm / m;
    proof {
        lemma_div_is_ordered_by_denominator(dm as int, 1, m as int);
    }
    if d >= 0 {
        q as i64
    } else if q >= 9223372036854775808u64 {
        i64::MIN
    } else {
        -(q as i64)
    }
}

/// Walking `i` unclipped steps of `tdiv_spec(d, m)` stays between `0` and
/// `d`; the full `m` steps land within `m` units of `d`.
pub proof fn lemma_step_walk(d: int, m: int, i: int)
    requires
        1 <= m,
        0 <= i <= m,
    ensures
        sabs(i * tdiv_spec(d, m)) <= sabs(d),
        d >= 0 ==> 0 <= i * tdiv_spec(d, m) <= d,
        d < 0 ==> d <= i * tdiv_spec(d, m) <= 0,
        i == m ==> sabs(d - m * tdiv_spec(d, m)) < m,
{
    let q = sabs(d) / m;
    lemma_div_pos_is_pos(sabs(d), m);
    lemma_fundamental_div_mod(sabs(d), m);
    lemma_mul_nonnegative(i, q);
    lemma_mul_inequality(i, m, q);
    assert(m * q == q * m) by (nonlinear_arith);
    assert(i * q == q * i) by (nonlinear_arith);
    assert(0 <= i * q <= m * q <= sabs(d));
    assert(sabs(d) - m * q == sabs(d) % m);
    if d >= 0 {
        assert(tdiv_spec(d, m) == q);
        assert(i * tdiv_spec(d, m) == i * q);
    } else {
        assert(tdiv_spec(d, m) == -q);
        assert(i * (-q) == -(i * q)) by (nonlinear_arith);
        assert(m * (-q) == -(m * q)) by (nonlinear_arith);
    }
}

/// While every partial sum stays in the representable range, the saturating
/// walk equals the exact affine value `a + i * s`.
pub proof fn lemma_iter_add_exact(a: int, s: int, i: int)
    requires
        0 <= i,
        forall|j: int| 0 <= j <= i ==> i64::MIN <= a + #[trigger] (j * s) <= i64::MAX,
    ensures
        iter_add_spec(a, s, i) == a + i * s,
    decreases i,
{
    if i == 0 {
        assert(iter_add_spec(a, s, 0) == a);
        assert(0 * s == 0) by (nonlinear_arith);
    } else {
        lemma_iter_add_exact(a, s, i - 1);
        assert((i - 1) * s + s == i * s) by (nonlinear_arith);
        assert(iter_add_spec(a, s, i) == add_spec(a + (i - 1) * s, s));
        assert(i64::MIN <= a + i * s <= i64::MAX);
    }
}

/// Rounding an exact whole number of units gives back that number.
pub proof fn lemma_round_exact(x: int)
    ensures
        round_spec(x * (FX_ONE as int)) == x,
{
    if x >= 0 {
        lemma_fundamental_div_mod_converse(
            x * (FX_ONE as int) + FX_HALF as int,
            FX_ONE as int,
            x,
            FX_HALF as int,
        );
    } else {
        assert(-(x * (FX_ONE as int)) == (-x) * (FX_ONE as int)) by (nonlinear_arith);
        lemma_fundamental_div_mod_converse(
            (-x) * (FX_ONE as int) + FX_HALF as int,
            FX_ONE as int,
            -x,
            FX_HALF as int,
        );
    }
}

/// The floor of the square root of a nonnegative integer.
pub open spec fn sqrt_floor(n: int) -> int {
    choose|r: int| 0 <= r && #[trigger] (r * r) <= n && n < (r + 1) * (r + 1)
}

/// Two integer square-root floors of the same number are equal.
pub proof fn lemma_sqrt_floor_unique(n: int, r1: int, r2: int)
    requires
        0 <= r1,
        r1 * r1 <= n,
        n < ((r1 + 1) * (r1 + 1)),
        0 <= r2,
        r2 * r2 <= n,
        n < ((r2 + 1) * (r2 + 1)),
    ensures
        r1 == r2,
{
    assert(r1 == r2) by (nonlinear_arith)
        requires
            0 <= r1,
            r1 * r1 <= n,
            n < ((r1 + 1) * (r1 + 1)),
            0 <= r2,
            r2 * r2 <= n,
            n < ((r2 + 1) * (r2 + 1)),
    ;
}

/// The floor of the square root, by bisection.
pub fn sqrt_u128(n: u128) -> (r: u64)
    ensures
        (r as int) * (r as int) <= n as int,
        (n as int) < ((r as int + 1) * (r as int + 1)),
        (r as int) == sqrt_floor(n as int),
{
    let mut lo: u128 = 0;
    let mut hi: u128 = 0x10000000000000000u128;
    proof {
        assert((0x10000000000000000u128 as int) * (0x10000000000000000u128 as int) > u128::MAX as int)
            by (nonlinear_arith);
    }
    while lo + 1 < hi
        invariant
            lo < hi <= 0x10000000000000000u128,
            (lo as int) * (lo as int) <= n as int,
            (n as int) < ((hi as int) * (hi as int)),
        decreases hi - lo,
    {
        let mid: u128 = lo + (hi - lo) / 2;
        proof {
            assert((mid as int) * (mid as int) <= u128::MAX as int) by (nonlinear_arith)
                requires
                    mid < 0x10000000000000000u128,
            ;
        }
        if mid * mid <= n {
            lo = mid;
        } else {
            hi = mid;
        }
    }
    proof {
        let r = lo as int;
        assert(exists|q: int| 0 <= q && #[trigger] (q * q) <= n as int && (n as int) < (q + 1) * (q + 1)) by {
            assert(0 <= r && r * r <= n as int && (n as int) < (r + 1) * (r + 1));
        }
        lemma_sqrt_floor_unique(n as int, lo as int, sqrt_floor(n as int));
    }
    lo as u64
}

/// The fixed-point square root of a nonnegative fixed-point value, rounded
/// down.
pub open spec fn fx_sqrt_spec(a: int) -> int {
    sqrt_floor(a * (FX_ONE as int))
}

/// Fixed-point square root, rounded down.
pub fn fx_sqrt(a: i64) -> (r: i64)
    requires
        a >= 0,
    ensures
        r as int == fx_sqrt_spec(a as int),
        0 <= r < 0x10000000000,
{
    proof {
        assert((a as int) * 65536 <= 0x80000000000000000000u128 as int) by (nonlinear_arith)
            requires
                0 <= a <= 0x7fffffffffffffffi64,
        ;
    }
    let n: u128 = (a as u128) * (FX_ONE as u128);
    let r: u64 = sqrt_u128(n);
    proof {
        assert(r < 0x10000000000u64) by (nonlinear_arith)
            requires
                (r as int) * (r as int) <= n as int,
                n as int <= 0x80000000000000000000u128 as int,
        ;
    }
    r as i64
}

} // verus!
