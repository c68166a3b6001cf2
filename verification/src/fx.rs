//! Signed 16.16 fixed-point scalars.
//!
//! A scalar is an `i64` holding `value * 65536`.  Multiplication and
//! division truncate toward zero and saturate at the `i64` range, so every
//! operation is total and has an exact specification; the square root is the
//! floor of the real square root.

use vstd::prelude::*;
use vstd::arithmetic::div_mod::lemma_div_is_ordered;

verus! {

/// Number of raw units per unit scalar.
pub const SCALE: i64 = 65536;

/// The scalar one.
pub const FX_ONE: i64 = 65536;

/// The scalar two.
pub const FX_TWO: i64 = 131072;

/// The scalar four.
pub const FX_FOUR: i64 = 262144;

/// Pi, rounded to the nearest raw unit.
pub const FX_PI: i64 = 205887;

/// Saturate an unbounded integer into the `i64` range.
pub open spec fn clip64(v: int) -> int {
    if v > i64::MAX as int {
        i64::MAX as int
    } else if v < i64::MIN as int {
        i64::MIN as int
    } else {
        v
    }
}

/// Magnitude of an unbounded integer.
pub open spec fn iabs(v: int) -> int {
    if v < 0 {
        -v
    } else {
        v
    }
}

/// Division truncating toward zero.
pub open spec fn tdiv(n: int, d: int) -> int
    recommends
        d != 0,
{
    if (n < 0) != (d < 0) {
        -(iabs(n) / iabs(d))
    } else {
        iabs(n) / iabs(d)
    }
}

/// Fixed-point product: `a * b / SCALE`, truncated toward zero, saturated.
pub open spec fn fx_mul_s(a: int, b: int) -> int {
    clip64(tdiv(a * b, SCALE as int))
}

/// Fixed-point quotient: `a * SCALE / b`, truncated toward zero, saturated;
/// zero when the divisor is zero.
pub open spec fn fx_div_s(a: int, b: int) -> int {
    if b == 0 {
        0
    } else {
        clip64(tdiv(a * (SCALE as int), b))
    }
}

/// Saturating sum.
pub open spec fn fx_add_s(a: int, b: int) -> int {
    clip64(a + b)
}

/// Saturating difference.
pub open spec fn fx_sub_s(a: int, b: int) -> int {
    clip64(a - b)
}

/// Saturating negation.
pub open spec fn fx_neg_s(a: int) -> int {
    clip64(-a)
}

proof fn lemma_abs_mul(a: int, b: int)
    by (nonlinear_arith)
    ensures
        iabs(a * b) == iabs(a) * iabs(b),
        ((a < 0) != (b < 0)) ==> a * b <= 0,
        ((a < 0) == (b < 0)) ==> a * b >= 0,
{
}

/// Magnitude of an `i64`, wide enough to hold `|i64::MIN|`.
fn abs_mag(a: i64) -> (r: u128)
    ensures
        r as int == iabs(a as int),
{
    if a >= 0 {
        a as u128
    } else {
        let w: i128 = a as i128;
        (-w) as u128
    }
}

/// Saturate a wide signed value into an `i64`.
fn clamp64(v: i128) -> (r: i64)
    ensures
        r as int == clip64(v as int),
{
    if v > i64::MAX as i128 {
        i64::MAX
    } else if v < i64::MIN as i128 {
        i64::MIN
    } else {
        v as i64
    }
}

pub fn fx_add(a: i64, b: i64) -> (r: i64)
    ensures
        r as int == fx_add_s(a as int, b as int),
{
    clamp64(a as i128 + b as i128)
}

pub fn fx_sub(a: i64, b: i64) -> (r: i64)
    ensures
        r as int == fx_sub_s(a as int, b as int),
{
    clamp64(a as i128 - b as i128)
}

pub fn fx_neg(a: i64) -> (r: i64)
    ensures
        r as int == fx_neg_s(a as int),
{
    clamp64(-(a as i128))
}

pub fn fx_mul(a: i64, b: i64) -> (r: i64)
    ensures
        r as int == fx_mul_s(a as int, b as int),
{
    let neg: bool = (a < 0) != (b < 0);
    let am: u128 = abs_mag(a);
    let bm: u128 = abs_mag(b);
    proof {
        assert(am * bm <= 0x8000_0000_0000_0000u128 * 0x8000_0000_0000_0000u128)
            by (nonlinear_arith)
            requires
                am <= 0x8000_0000_0000_0000u128,
                bm <= 0x8000_0000_0000_0000u128,
        ;
    }
    let q: u128 = (am * bm) / (SCALE as u128);
    proof {
        lemma_abs_mul(a as int, b as int);
        assert(q as int == iabs((a as int) * (b as int)) / (SCALE as int));
    }
    let signed: i128 = if neg {
        -(q as i128)
    } else {
        q as i128
    };
    clamp64(signed)
}

pub fn fx_div(a: i64, b: i64) -> (r: i64)
    ensures
        r as int == fx_div_s(a as int, b as int),
{
    if b == 0 {
        return 0;
    }
    let neg: bool = (a < 0) != (b < 0);
    let am: u128 = abs_mag(a);
    let bm: u128 = abs_mag(b);
    let q: u128 = (am * (SCALE as u128)) / bm;
    proof {
        lemma_abs_mul(a as int, SCALE as int);
        assert(iabs((a as int) * (SCALE as int)) == iabs(a as int) * (SCALE as int));
        assert(((a as int) * (SCALE as int) < 0) == ((a as int) < 0)
            || (a as int) * (SCALE as int) == 0);
        assert(q as int == iabs((a as int) * (SCALE as int)) / iabs(b as int));
    }
    let signed: i128 = if neg {
        -(q as i128)
    } else {
        q as i128
    };
    clamp64(signed)
}

/// Floor of the square root of a nonnegative integer.
pub open spec fn sqrt_floor(n: int) -> int
    decreases n,
{
    if n <= 0 {
        0
    } else {
        let r: int = sqrt_floor(n - 1);
        if (r + 1) * (r + 1) <= n {
            r + 1
        } else {
            r
        }
    }
}

pub proof fn lemma_sqrt_floor(n: int)
    requires
        n >= 0,
    ensures
        0 <= sqrt_floor(n),
        sqrt_floor(n) * sqrt_floor(n) <= n,
        n < (sqrt_floor(n) + 1) * (sqrt_floor(n) + 1),
    decreases n,
{
    if n == 0 {
    } else {
        lemma_sqrt_floor(n - 1);
        let r: int = sqrt_floor(n - 1);
        assert(r * r <= n - 1);
        assert(n - 1 < (r + 1) * (r + 1));
        if (r + 1) * (r + 1) <= n {
            assert(sqrt_floor(n) == r + 1);
            assert(n < (r + 2) * (r + 2)) by (nonlinear_arith)
                requires
                    n <= (r + 1) * (r + 1),
                    r >= 0,
            ;
        } else {
            assert(sqrt_floor(n) == r);
        }
    }
}

pub proof fn lemma_sqrt_unique(n: int, r: int)
    requires
        0 <= r,
        r * r <= n,
        n < (r + 1) * (r + 1),
    ensures
        r == sqrt_floor(n),
{
    lemma_sqrt_floor(n);
    let s: int = sqrt_floor(n);
    if r < s {
        assert((r + 1) * (r + 1) <= s * s) by (nonlinear_arith)
            requires
                0 <= r,
                r + 1 <= s,
        ;
    }
    if s < r {
        assert((s + 1) * (s + 1) <= r * r) by (nonlinear_arith)
            requires
                0 <= s,
                s + 1 <= r,
        ;
    }
}

/// Floor square root by bisection.
fn isqrt_u128(n: u128) -> (r: u128)
    ensures
        (r as int) * (r as int) <= n as int,
        (n as int) < (r as int + 1) * (r as int + 1),
{
    let mut lo: u128 = 0;
    let mut hi: u128 = 0x1_0000_0000_0000_0000u128;
    proof {
        assert((hi as int) * (hi as int) > n as int) by (nonlinear_arith)
            requires
                hi as int == 0x1_0000_0000_0000_0000,
                n as int <= u128::MAX as int,
        ;
    }
    while lo + 1 < hi
        invariant
            lo < hi,
            hi <= 0x1_0000_0000_0000_0000u128,
            (lo as int) * (lo as int) <= n as int,
            (n as int) < (hi as int) * (hi as int),
        decreases hi - lo,
    {
        let mid: u128 = lo + (hi - lo) / 2;
        proof {
            assert(mid < hi);
            assert(mid * mid <= 0xFFFF_FFFF_FFFF_FFFFu128 * 0xFFFF_FFFF_FFFF_FFFFu128)
                by (nonlinear_arith)
                requires
                    mid <= 0xFFFF_FFFF_FFFF_FFFFu128,
            ;
        }
        if mid * mid <= n {
            lo = mid;
        } else {
            hi = mid;
        }
    }
    lo
}

/// Fixed-point square root: floor of the square root, zero on nonpositive
/// input.
pub open spec fn fx_sqrt_s(a: int) -> int {
    if a <= 0 {
        0
    } else {
        sqrt_floor(a * (SCALE as int))
    }
}

pub fn fx_sqrt(a: i64) -> (r: i64)
    ensures
        r as int == fx_sqrt_s(a as int),
{
    if a <= 0 {
        return 0;
    }
    proof {
        assert((a as u128) * (SCALE as u128) <= 0x7FFF_FFFF_FFFF_FFFFu128 * 0x1_0000u128)
            by (nonlinear_arith)
            requires
                a as u128 <= 0x7FFF_FFFF_FFFF_FFFFu128,
        ;
    }
    let n: u128 = (a as u128) * (SCALE as u128);
    let r = isqrt_u128(n);
    proof {
        lemma_sqrt_unique(n as int, r as int);
        assert(r as int <= 0x1_0000_0000_0000) by (nonlinear_arith)
            requires
                (r as int) * (r as int) <= n as int,
                n as int <= 0x8000_0000_0000_0000 * 0x1_0000,
        ;
    }
    r as i64
}

/// Integer part of a scalar, truncated toward zero.
pub open spec fn fx_trunc_s(a: int) -> int {
    tdiv(a, SCALE as int)
}

pub fn fx_trunc(a: i64) -> (r: i64)
    ensures
        r as int == fx_trunc_s(a as int),
{
    let am: u128 = abs_mag(a);
    let q: u128 = am / (SCALE as u128);
    proof {
        lemma_div_is_ordered(am as int, 0x8000_0000_0000_0000, SCALE as int);
    }
    if a < 0 {
        -(q as i64)
    } else {
        q as i64
    }
}

/// A nonnegative integer pixel count as a scalar, saturated.
pub open spec fn fx_of_int_s(v: int) -> int {
    clip64(v * (SCALE as int))
}

pub fn fx_of_usize(v: usize) -> (r: i64)
    ensures
        r as int == fx_of_int_s(v as int),
{
    proof {
        assert((v as u128) * (SCALE as u128) <= 0xFFFF_FFFF_FFFF_FFFFu128 * 0x1_0000u128)
            by (nonlinear_arith)
            requires
                v as u128 <= 0xFFFF_FFFF_FFFF_FFFFu128,
        ;
    }
    let wide: u128 = (v as u128) * (SCALE as u128);
    if wide > i64::MAX as u128 {
        i64::MAX
    } else {
        wide as i64
    }
}

/// Truncating division is monotone in the dividend, for a positive divisor.
pub proof fn lemma_tdiv_monotone(n1: int, n2: int, d: int)
    requires
        n1 <= n2,
        d > 0,
    ensures
        tdiv(n1, d) <= tdiv(n2, d),
{
    if n1 >= 0 {
        lemma_div_is_ordered(n1, n2, d);
    } else if n2 < 0 {
        lemma_div_is_ordered(-n2, -n1, d);
    } else {
        assert((-n1) / d >= 0) by {
            vstd::arithmetic::div_mod::lemma_div_pos_is_pos(-n1, d);
        }
        assert(n2 / d >= 0) by {
            vstd::arithmetic::div_mod::lemma_div_pos_is_pos(n2, d);
        }
    }
}

/// The fixed-point product is monotone in one factor when the other is
/// nonnegative.
pub proof fn lemma_fx_mul_monotone(a1: int, a2: int, b: int)
    requires
        a1 <= a2,
        0 <= b,
    ensures
        fx_mul_s(a1, b) <= fx_mul_s(a2, b),
{
    assert(a1 * b <= a2 * b) by (nonlinear_arith)
        requires
            a1 <= a2,
            0 <= b,
    ;
    lemma_tdiv_monotone(a1 * b, a2 * b, SCALE as int);
}

/// Maclaurin sine, truncated after the cubic term; adequate for the small
/// angles that navigation and the field of view produce.
pub open spec fn fx_sin_s(x: int) -> int {
    let x2: int = fx_mul_s(x, x);
    let x3: int = fx_mul_s(x2, x);
    fx_sub_s(x, fx_div_s(x3, 6 * (SCALE as int)))
}

pub fn fx_sin(x: i64) -> (r: i64)
    ensures
        r as int == fx_sin_s(x as int),
{
    let x2: i64 = fx_mul(x, x);
    let x3: i64 = fx_mul(x2, x);
    fx_sub(x, fx_div(x3, 6 * SCALE))
}

/// Maclaurin cosine, truncated after the quartic term.
pub open spec fn fx_cos_s(x: int) -> int {
    let x2: int = fx_mul_s(x, x);
    let x4: int = fx_mul_s(x2, x2);
    fx_add_s(fx_sub_s(FX_ONE as int, fx_div_s(x2, 2 * (SCALE as int))), fx_div_s(x4, 24 * (SCALE as int)))
}

pub fn fx_cos(x: i64) -> (r: i64)
    ensures
        r as int == fx_cos_s(x as int),
{
    let x2: i64 = fx_mul(x, x);
    let x4: i64 = fx_mul(x2, x2);
    fx_add(fx_sub(FX_ONE, fx_div(x2, 2 * SCALE)), fx_div(x4, 24 * SCALE))
}

} // verus!
