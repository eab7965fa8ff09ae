//! 16.16 fixed-point scalar arithmetic.
//!
//! A fixed-point value is an `i64` holding `round(x * 65536)` for a real
//! number `x`. Addition, subtraction, multiplication and division saturate at
//! the `i64` range and round toward zero, so every operation is total and has
//! an exact mathematical specification.

use vstd::prelude::*;
use vstd::arithmetic::div_mod::{
    lemma_fundamental_div_mod, lemma_fundamental_div_mod_converse,
    lemma_div_is_ordered_by_denominator, lemma_div_is_ordered,
};
use vstd::arithmetic::mul::lemma_mul_inequality;

verus! {

/// One in fixed-point form: 2^16.
pub const FX_ONE: i64 = 65536;

/// One half in fixed-point form.
pub const FX_HALF: i64 = 32768;

/// Absolute value over mathematical integers.
pub open spec fn abs_int(a: int) -> int {
    if a < 0 {
        -a
    } else {
        a
    }
}

/// Truncated (round-toward-zero) division; meaningful only for `b != 0`.
pub open spec fn tdiv(a: int, b: int) -> int {
    if (a < 0) == (b < 0) {
        abs_int(a) / abs_int(b)
    } else {
        -(abs_int(a) / abs_int(b))
    }
}

/// Saturation to the `i64` range.
pub open spec fn sat64(a: int) -> int {
    if a > i64::MAX {
        i64::MAX as int
    } else if a < i64::MIN {
        i64::MIN as int
    } else {
        a
    }
}

/// Clamping to a closed interval.
pub open spec fn spec_clamp(a: int, lo: int, hi: int) -> int {
    if a < lo {
        lo
    } else if a > hi {
        hi
    } else {
        a
    }
}

pub open spec fn spec_fx_add(a: int, b: int) -> int {
    sat64(a + b)
}

pub open spec fn spec_fx_sub(a: int, b: int) -> int {
    sat64(a - b)
}

pub open spec fn spec_fx_mul(a: int, b: int) -> int {
    sat64(tdiv(a * b, FX_ONE as int))
}

pub open spec fn spec_fx_div(a: int, b: int) -> int {
    sat64(tdiv(a * (FX_ONE as int), b))
}

pub open spec fn spec_fx_abs(a: int) -> int {
    sat64(abs_int(a))
}

/// Saturating narrowing of an `i128` to the `i64` range.
pub fn clamp_i128(s: i128) -> (r: i64)
    ensures
        r as int == sat64(s as int),
{
    if s > i64::MAX as i128 {
        i64::MAX
    } else if s < i64::MIN as i128 {
        i64::MIN
    } else {
        s as i64
    }
}

/// Truncated division of an `i128` by a positive divisor.
pub(crate) fn tdiv_i128(a: i128, b: i128) -> (r: i128)
    requires
        b > 0,
        a > i128::MIN,
    ensures
        r as int == tdiv(a as int, b as int),
{
    if a >= 0 {
        let q: u128 = (a as u128) / (b as u128);
        proof {
            lemma_div_is_ordered_by_denominator(a as int, 1, b as int);
        }
        q as i128
    } else {
        let m: u128 = (-a) as u128;
        let q: u128 = m / (b as u128);
        proof {
            lemma_div_is_ordered_by_denominator(m as int, 1, b as int);
        }
        -(q as i128)
    }
}

/// Truncated division of an `i128` by any nonzero divisor.
fn tdiv_i128_any(a: i128, b: i128) -> (r: i128)
    requires
        b != 0,
        a > i128::MIN,
        b > i128::MIN,
    ensures
        r as int == tdiv(a as int, b as int),
{
    let neg: bool = (a < 0) != (b < 0);
    let ma: u128 = if a >= 0 {
        a as u128
    } else {
        (-a) as u128
    };
    let mb: u128 = if b >= 0 {
        b as u128
    } else {
        (-b) as u128
    };
    let q: u128 = ma / mb;
    proof {
        lemma_div_is_ordered_by_denominator(ma as int, 1, mb as int);
    }
    if neg {
        -(q as i128)
    } else {
        q as i128
    }
}

/// Saturating fixed-point (and plain integer) addition.
pub fn fx_add(a: i64, b: i64) -> (r: i64)
    ensures
        r as int == spec_fx_add(a as int, b as int),
{
    let s: i128 = a as i128 + b as i128;
    clamp_i128(s)
}

/// Saturating fixed-point (and plain integer) subtraction.
pub fn fx_sub(a: i64, b: i64) -> (r: i64)
    ensures
        r as int == spec_fx_sub(a as int, b as int),
{
    let s: i128 = a as i128 - b as i128;
    clamp_i128(s)
}

/// Saturating fixed-point multiplication: `(a * b) / 2^16`, rounded toward zero.
pub fn fx_mul(a: i64, b: i64) -> (r: i64)
    ensures
        r as int == spec_fx_mul(a as int, b as int),
{
    proof {
        assert((a as int) * (b as int) <= i128::MAX && (a as int) * (b as int) > i128::MIN)
            by (nonlinear_arith)
            requires
                i64::MIN <= a <= i64::MAX,
                i64::MIN <= b <= i64::MAX,
        ;
    }
    let p: i128 = (a as i128) * (b as i128);
    let q: i128 = tdiv_i128(p, FX_ONE as i128);
    clamp_i128(q)
}

/// Saturating fixed-point division: `(a * 2^16) / b`, rounded toward zero.
pub fn fx_div(a: i64, b: i64) -> (r: i64)
    requires
        b != 0,
    ensures
        r as int == spec_fx_div(a as int, b as int),
{
    proof {
        assert((a as int) * (FX_ONE as int) > i128::MIN && (a as int) * (FX_ONE as int)
            <= i128::MAX) by (nonlinear_arith)
            requires
                i64::MIN <= a <= i64::MAX,
        ;
    }
    let p: i128 = (a as i128) * (FX_ONE as i128);
    let q: i128 = tdiv_i128_any(p, b as i128);
    clamp_i128(q)
}

/// Truncated division of an `i64` by a positive divisor.
pub fn tdiv64(a: i64, b: i64) -> (r: i64)
    requires
        b > 0,
    ensures
        r as int == tdiv(a as int, b as int),
        i64::MIN <= tdiv(a as int, b as int) <= i64::MAX,
{
    let q: i128 = tdiv_i128(a as i128, b as i128);
    proof {
        lemma_div_is_ordered_by_denominator(abs_int(a as int), 1, b as int);
    }
    q as i64
}

/// Saturating absolute value.
pub fn fx_abs(a: i64) -> (r: i64)
    ensures
        r as int == spec_fx_abs(a as int),
{
    if a == i64::MIN {
        i64::MAX
    } else if a < 0 {
        -a
    } else {
        a
    }
}

/// Clamping to a closed interval.
pub fn fx_clamp(a: i64, lo: i64, hi: i64) -> (r: i64)
    requires
        lo <= hi,
    ensures
        r as int == spec_clamp(a as int, lo as int, hi as int),
{
    if a < lo {
        lo
    } else if a > hi {
        hi
    } else {
        a
    }
}

/// Euclidean division and remainder of an `i64` by a positive divisor:
/// the quotient is the floor of the exact quotient and the remainder lies
/// in `[0, d)`.
pub fn fx_floor_rem(x: i64, d: i64) -> (r: (i64, i64))
    requires
        d > 0,
    ensures
        r.0 as int == (x as int) / (d as int),
        r.1 as int == (x as int) % (d as int),
        0 <= r.1 < d,
{
    if x >= 0 {
        let q: u64 = (x as u64) / (d as u64);
        let m: u64 = (x as u64) % (d as u64);
        (q as i64, m as i64)
    } else {
        let xm: u128 = (-(x as i128)) as u128;
        let qm: u128 = xm / (d as u128);
        let rm: u128 = xm % (d as u128);
        proof {
            lemma_fundamental_div_mod(xm as int, d as int);
            lemma_div_is_ordered_by_denominator(xm as int, 1, d as int);
            assert(xm as int == (d as int) * (qm as int) + (rm as int));
            if rm == 0 {
                assert(x as int == (-(qm as int)) * (d as int) + 0) by (nonlinear_arith)
                    requires
                        x as int == -((d as int) * (qm as int) + (rm as int)),
                        rm as int == 0,
                ;
                lemma_fundamental_div_mod_converse(x as int, d as int, -(qm as int), 0);
            } else {
                lemma_div_is_ordered_by_denominator(xm as int, 2, d as int);
                assert(x as int == (-(qm as int) - 1) * (d as int) + ((d as int) - (rm as int)))
                    by (nonlinear_arith)
                    requires
                        x as int == -((d as int) * (qm as int) + (rm as int)),
                ;
                lemma_fundamental_div_mod_converse(
                    x as int,
                    d as int,
                    -(qm as int) - 1,
                    d - rm as int,
                );
            }
        }
        if rm == 0 {
            (-(qm as i128) as i64, 0)
        } else {
            ((-(qm as i128) - 1) as i64, (d as u128 - rm) as i64)
        }
    }
}

/// Euclidean remainder of an `i128` by a positive divisor.
pub fn emod_i128(x: i128, d: i64) -> (r: i64)
    requires
        d > 0,
        x > i128::MIN,
    ensures
        r as int == (x as int) % (d as int),
        0 <= r < d,
{
    if x >= 0 {
        let m: u128 = (x as u128) % (d as u128);
        m as i64
    } else {
        let xm: u128 = (-x) as u128;
        let qm: u128 = xm / (d as u128);
        let rm: u128 = xm % (d as u128);
        proof {
            lemma_fundamental_div_mod(xm as int, d as int);
            lemma_div_is_ordered_by_denominator(xm as int, 1, d as int);
            assert(xm as int == (d as int) * (qm as int) + (rm as int));
            if rm == 0 {
                assert(x as int == (-(qm as int)) * (d as int) + 0) by (nonlinear_arith)
                    requires
                        x as int == -((d as int) * (qm as int) + (rm as int)),
                        rm as int == 0,
                ;
                lemma_fundamental_div_mod_converse(x as int, d as int, -(qm as int), 0);
            } else {
                assert(x as int == (-(qm as int) - 1) * (d as int) + ((d as int) - (rm as int)))
                    by (nonlinear_arith)
                    requires
                        x as int == -((d as int) * (qm as int) + (rm as int)),
                ;
                lemma_fundamental_div_mod_converse(
                    x as int,
                    d as int,
                    -(qm as int) - 1,
                    d - rm as int,
                );
            }
        }
        if rm == 0 {
            0
        } else {
            (d as u128 - rm) as i64
        }
    }
}

/// A fixed-point product whose exact value is bounded by `m` stays bounded
/// by `m` after the truncating division, and a nonnegative exact product
/// stays nonnegative.
pub proof fn lemma_fx_mul_bounded(a: int, b: int, m: int)
    requires
        -m * 65536 <= a * b <= m * 65536,
        0 <= m <= i64::MAX,
    ensures
        -m <= spec_fx_mul(a, b) <= m,
        0 <= a * b ==> spec_fx_mul(a, b) >= 0,
{
    let p = a * b;
    if p >= 0 {
        assert(tdiv(p, 65536) == p / 65536);
        lemma_div_is_ordered(p, m * 65536, 65536);
        vstd::arithmetic::div_mod::lemma_div_multiples_vanish(m, 65536);
        assert(m * 65536 == 65536 * m) by (nonlinear_arith);
        vstd::arithmetic::div_mod::lemma_div_pos_is_pos(p, 65536);
    } else {
        assert(tdiv(p, 65536) == -((-p) / 65536));
        lemma_div_is_ordered(-p, m * 65536, 65536);
        vstd::arithmetic::div_mod::lemma_div_multiples_vanish(m, 65536);
        assert(m * 65536 == 65536 * m) by (nonlinear_arith);
        vstd::arithmetic::div_mod::lemma_div_pos_is_pos(-p, 65536);
    }
}

/// Floor of the square root, defined recursively over the naturals.
pub open spec fn isqrt_spec(n: nat) -> nat
    decreases n,
{
    if n == 0 {
        0
    } else {
        let r = isqrt_spec((n - 1) as nat);
        if (r + 1) * (r + 1) <= n {
            r + 1
        } else {
            r
        }
    }
}

/// The recursive definition indeed brackets `n` between consecutive squares.
pub proof fn lemma_isqrt_bounds(n: nat)
    ensures
        isqrt_spec(n) * isqrt_spec(n) <= n,
        n < (isqrt_spec(n) + 1) * (isqrt_spec(n) + 1),
    decreases n,
{
    if n == 0 {
        assert(isqrt_spec(0) == 0);
        assert(isqrt_spec(n) * isqrt_spec(n) <= n);
        assert(n < (isqrt_spec(n) + 1) * (isqrt_spec(n) + 1)) by (nonlinear_arith)
            requires
                n == 0,
                isqrt_spec(n) == 0,
        ;
    } else {
        lemma_isqrt_bounds((n - 1) as nat);
        let r = isqrt_spec((n - 1) as nat);
        assert(r * r <= n - 1 && n - 1 < (r + 1) * (r + 1));
        if (r + 1) * (r + 1) <= n {
            assert(isqrt_spec(n) == r + 1);
            assert(n <= (r + 1) * (r + 1));
            assert((r + 1) * (r + 1) < (r + 2) * (r + 2)) by (nonlinear_arith);
        } else {
            assert(isqrt_spec(n) == r);
        }
    }
}

/// Any value bracketed between consecutive squares is the floor square root.
pub proof fn lemma_isqrt_unique(n: nat, r: nat)
    requires
        r * r <= n,
        n < (r + 1) * (r + 1),
    ensures
        r == isqrt_spec(n),
{
    let s = isqrt_spec(n);
    lemma_isqrt_bounds(n);
    if r < s {
        lemma_mul_inequality(r as int + 1, s as int, r as int + 1);
        lemma_mul_inequality(r as int + 1, s as int, s as int);
        assert(false);
    }
    if s < r {
        lemma_mul_inequality(s as int + 1, r as int, s as int + 1);
        lemma_mul_inequality(s as int + 1, r as int, r as int);
        assert(false);
    }
}

/// Floor square root of a `u128`, by binary search.
pub fn isqrt_u128(n: u128) -> (r: u64)
    ensures
        r as nat == isqrt_spec(n as nat),
{
    let mut lo: u128 = 0;
    let mut hi: u128 = 0x10000000000000000u128;
    proof {
        assert((0x10000000000000000u128 as int) * (0x10000000000000000u128 as int) > u128::MAX
            as int);
    }
    while lo + 1 < hi
        invariant
            lo < hi,
            hi <= 0x10000000000000000u128,
            (lo as int) * (lo as int) <= n as int,
            (n as int) < (hi as int) * (hi as int),
        decreases hi - lo,
    {
        let mid: u128 = lo + (hi - lo) / 2;
        proof {
            assert((mid as int) * (mid as int) <= u128::MAX as int) by (nonlinear_arith)
                requires
                    0 <= mid < 0x10000000000000000,
            ;
        }
        if mid * mid <= n {
            lo = mid;
        } else {
            hi = mid;
        }
    }
    proof {
        lemma_isqrt_unique(n as nat, lo as nat);
    }
    lo as u64
}

/// Fixed-point square root: `isqrt(s * 2^16)` so the result is again in
/// 16.16 form.
pub open spec fn spec_fx_sqrt(s: int) -> int {
    isqrt_spec((s * (FX_ONE as int)) as nat) as int
}

pub fn fx_sqrt(s: i64) -> (r: i64)
    requires
        s >= 0,
    ensures
        r as int == spec_fx_sqrt(s as int),
        r >= 0,
{
    proof {
        assert((s as int) * 65536 <= u128::MAX) by (nonlinear_arith)
            requires
                0 <= s as int <= i64::MAX,
        ;
    }
    let n: u128 = (s as u128) * (FX_ONE as u128);
    let r: u64 = isqrt_u128(n);
    proof {
        lemma_isqrt_bounds(n as nat);
        assert(n as int == (s as int) * 65536);
        assert((n as int) < 0x100000000000000000000) by (nonlinear_arith)
            requires
                n as int == (s as int) * 65536,
                0 <= s as int <= i64::MAX,
        ;
        assert((r as int) * (r as int) <= n as int);
        assert((r as int) < 0x10000000000) by (nonlinear_arith)
            requires
                (r as int) * (r as int) <= n as int,
                (n as int) < 0x100000000000000000000,
                r as int >= 0,
        ;
    }
    r as i64
}

} // verus!
