//! Fixed-point trigonometry: sine, cosine and two-argument arctangent.
//!
//! Angles are 16.16 fixed-point radians. Sine and cosine reduce the angle
//! into one period, fold it into the first quadrant and evaluate a truncated
//! Taylor polynomial; the result is clamped into `[-1, 1]`. The arctangent
//! uses an octant reduction and a short polynomial. Every function is an
//! exact mirror of its specification, so callers reason about the same
//! integer value the code computes.

use vstd::prelude::*;
use crate::fixed::{
    FX_ONE, abs_int, tdiv, sat64, spec_clamp, spec_fx_add, spec_fx_sub, spec_fx_mul, spec_fx_div,
    spec_fx_abs, fx_add, fx_sub, fx_mul, fx_div, fx_abs, fx_clamp, tdiv64, emod_i128,
};
use vstd::arithmetic::div_mod::{
    lemma_div_multiples_vanish, lemma_div_is_ordered, lemma_div_pos_is_pos,
};

verus! {

/// Pi in 16.16 form.
pub const FX_PI: i64 = 205887;

/// Two pi in 16.16 form (twice `FX_PI`).
pub const FX_TAU: i64 = 411774;

/// Half pi in 16.16 form.
pub const FX_HALF_PI: i64 = 102944;

/// Quarter pi in 16.16 form.
pub const FX_QUARTER_PI: i64 = 51472;

/// Polynomial coefficient for the arctangent approximation (0.273).
pub const ATAN_C: i64 = 17891;

/// Truncated Taylor polynomial for sine on the first quadrant:
/// `x - x^3/6 + x^5/120 - x^7/5040`.
pub open spec fn spec_sin_poly(x: int) -> int {
    let x2 = spec_fx_mul(x, x);
    let x3 = spec_fx_mul(x2, x);
    let x5 = spec_fx_mul(x3, x2);
    let x7 = spec_fx_mul(x5, x2);
    spec_fx_sub(spec_fx_add(spec_fx_sub(x, tdiv(x3, 6)), tdiv(x5, 120)), tdiv(x7, 5040))
}

fn sin_poly(x: i64) -> (r: i64)
    ensures
        r as int == spec_sin_poly(x as int),
{
    let x2: i64 = fx_mul(x, x);
    let x3: i64 = fx_mul(x2, x);
    let x5: i64 = fx_mul(x3, x2);
    let x7: i64 = fx_mul(x5, x2);
    fx_sub(fx_add(fx_sub(x, tdiv64(x3, 6)), tdiv64(x5, 120)), tdiv64(x7, 5040))
}

/// Sine over one reduced period `[0, 2*pi)`, folded into the first quadrant
/// and clamped into `[-1, 1]`.
pub open spec fn spec_sin_from_reduced(t: int) -> int {
    let v = if t < FX_PI {
        if t <= FX_HALF_PI {
            spec_sin_poly(t)
        } else {
            spec_sin_poly(FX_PI - t)
        }
    } else {
        let u = t - FX_PI;
        spec_fx_sub(
            0,
            if u <= FX_HALF_PI {
                spec_sin_poly(u)
            } else {
                spec_sin_poly(FX_PI - u)
            },
        )
    };
    spec_clamp(v, -FX_ONE as int, FX_ONE as int)
}

fn sin_from_reduced(t: i64) -> (r: i64)
    requires
        0 <= t < FX_TAU,
    ensures
        r as int == spec_sin_from_reduced(t as int),
        -FX_ONE <= r <= FX_ONE,
{
    let v: i64 = if t < FX_PI {
        if t <= FX_HALF_PI {
            sin_poly(t)
        } else {
            sin_poly(FX_PI - t)
        }
    } else {
        let u: i64 = t - FX_PI;
        let s: i64 = if u <= FX_HALF_PI {
            sin_poly(u)
        } else {
            sin_poly(FX_PI - u)
        };
        fx_sub(0, s)
    };
    fx_clamp(v, -FX_ONE, FX_ONE)
}

/// Sine of a fixed-point angle in radians.
pub open spec fn spec_fx_sin(a: int) -> int {
    spec_sin_from_reduced(a % (FX_TAU as int))
}

/// Cosine of a fixed-point angle in radians, as sine shifted a quarter turn.
pub open spec fn spec_fx_cos(a: int) -> int {
    let b = a % (FX_TAU as int);
    let c = b + FX_HALF_PI;
    spec_sin_from_reduced(
        if c >= FX_TAU {
            c - FX_TAU
        } else {
            c
        },
    )
}

pub fn fx_sin(a: i64) -> (r: i64)
    ensures
        r as int == spec_fx_sin(a as int),
        -FX_ONE <= r <= FX_ONE,
{
    let t: i64 = emod_i128(a as i128, FX_TAU);
    sin_from_reduced(t)
}

pub fn fx_cos(a: i64) -> (r: i64)
    ensures
        r as int == spec_fx_cos(a as int),
        -FX_ONE <= r <= FX_ONE,
{
    let b: i64 = emod_i128(a as i128, FX_TAU);
    let c: i64 = b + FX_HALF_PI;
    let d: i64 = if c >= FX_TAU {
        c - FX_TAU
    } else {
        c
    };
    sin_from_reduced(d)
}

/// Arctangent polynomial on `[0, 1]`:
/// `t * (pi/4 + 0.273 * (1 - t))`.
pub open spec fn spec_atan_poly(t: int) -> int {
    spec_fx_mul(t, spec_fx_add(FX_QUARTER_PI as int, spec_fx_mul(ATAN_C as int, spec_fx_sub(FX_ONE as int, t))))
}

fn atan_poly(t: i64) -> (r: i64)
    ensures
        r as int == spec_atan_poly(t as int),
{
    fx_mul(t, fx_add(FX_QUARTER_PI, fx_mul(ATAN_C, fx_sub(FX_ONE, t))))
}

/// Two-argument arctangent of fixed-point coordinates, by octant reduction.
/// Zero when both arguments are zero.
pub open spec fn spec_fx_atan2(y: int, x: int) -> int {
    let ay = spec_fx_abs(y);
    let ax = spec_fx_abs(x);
    if ay == 0 && ax == 0 {
        0
    } else {
        let base = if ay <= ax {
            spec_atan_poly(spec_fx_div(ay, ax))
        } else {
            spec_fx_sub(FX_HALF_PI as int, spec_atan_poly(spec_fx_div(ax, ay)))
        };
        let a1 = if x >= 0 {
            base
        } else {
            spec_fx_sub(FX_PI as int, base)
        };
        if y < 0 {
            spec_fx_sub(0, a1)
        } else {
            a1
        }
    }
}

pub fn fx_atan2(y: i64, x: i64) -> (r: i64)
    ensures
        r as int == spec_fx_atan2(y as int, x as int),
{
    let ay: i64 = fx_abs(y);
    let ax: i64 = fx_abs(x);
    if ay == 0 && ax == 0 {
        return 0;
    }
    let base: i64 = if ay <= ax {
        atan_poly(fx_div(ay, ax))
    } else {
        fx_sub(FX_HALF_PI, atan_poly(fx_div(ax, ay)))
    };
    let a1: i64 = if x >= 0 {
        base
    } else {
        fx_sub(FX_PI, base)
    };
    if y < 0 {
        fx_sub(0, a1)
    } else {
        a1
    }
}

} // verus!
