//! RGB color values with saturating channel arithmetic.
//!
//! Channels are `u8` values. Addition and scaling clamp each channel to
//! `[0, 255]` rather than wrap, and linear interpolation keeps every output
//! channel between the corresponding input channels. Packing into one integer
//! uses the fixed channel order red-green-blue from the high byte down
//! (the arithmetic form of `R<<16 | G<<8 | B`).

use vstd::prelude::*;
use crate::fixed::{FX_ONE, tdiv, sat64, spec_clamp, spec_fx_mul, fx_clamp, fx_floor_rem};
use vstd::arithmetic::div_mod::{lemma_div_is_ordered, lemma_div_multiples_vanish};

verus! {

/// An RGB triple; a pure value with no identity.
#[derive(Clone, Copy, PartialEq, Eq, Structural, Debug)]
pub struct Color {
    pub r: u8,
    pub g: u8,
    pub b: u8,
}

/// Saturating channel addition.
pub open spec fn spec_add_ch(a: int, b: int) -> int {
    if a + b > 255 {
        255
    } else {
        a + b
    }
}

/// Channel scaling by a nonnegative fixed-point factor, clamped to `[0, 255]`.
pub open spec fn spec_scale_ch(c: int, t: int) -> int {
    spec_clamp((c * t) / (FX_ONE as int), 0, 255)
}

/// Channel interpolation: the blend factor is clamped into `[0, 1]` and the
/// channel moves that fraction of the way from `a` to `b` (floor division).
pub open spec fn spec_lerp_ch(a: int, b: int, t: int) -> int {
    let tc = spec_clamp(t, 0, FX_ONE as int);
    a + ((b - a) * tc) / (FX_ONE as int)
}

/// Packed integer form: red in the high byte, then green, then blue.
pub open spec fn spec_to_hex(c: Color) -> int {
    (c.r as int) * 0x10000 + (c.g as int) * 0x100 + (c.b as int)
}

/// Saturating componentwise addition of two colors.
pub open spec fn spec_color_add(a: Color, b: Color) -> Color {
    Color {
        r: spec_add_ch(a.r as int, b.r as int) as u8,
        g: spec_add_ch(a.g as int, b.g as int) as u8,
        b: spec_add_ch(a.b as int, b.b as int) as u8,
    }
}

/// A color scaled by a fixed-point factor, channelwise.
pub open spec fn spec_color_scale(c: Color, t: int) -> Color {
    Color {
        r: spec_scale_ch(c.r as int, t) as u8,
        g: spec_scale_ch(c.g as int, t) as u8,
        b: spec_scale_ch(c.b as int, t) as u8,
    }
}

/// Channelwise linear interpolation between two colors.
pub open spec fn spec_color_lerp(a: Color, b: Color, t: int) -> Color {
    Color {
        r: spec_lerp_ch(a.r as int, b.r as int, t) as u8,
        g: spec_lerp_ch(a.g as int, b.g as int, t) as u8,
        b: spec_lerp_ch(a.b as int, b.b as int, t) as u8,
    }
}

/// An interpolated channel stays between its two endpoints, hence in
/// `[0, 255]`, for every blend factor.
pub proof fn lemma_lerp_channel_bounds(a: int, b: int, t: int)
    requires
        0 <= a <= 255,
        0 <= b <= 255,
    ensures
        a <= b ==> a <= spec_lerp_ch(a, b, t) <= b,
        b <= a ==> b <= spec_lerp_ch(a, b, t) <= a,
        0 <= spec_lerp_ch(a, b, t) <= 255,
{
    let tc = spec_clamp(t, 0, FX_ONE as int);
    let d = b - a;
    assert(d * 0 == 0 && d * 65536 == 65536 * d && d * tc == tc * d && 0 * tc == 0)
        by (nonlinear_arith);
    if d >= 0 {
        vstd::arithmetic::mul::lemma_mul_inequality(0, tc, d);
        vstd::arithmetic::mul::lemma_mul_inequality(tc, 65536, d);
        lemma_div_is_ordered(0, d * tc, 65536);
        lemma_div_is_ordered(d * tc, d * 65536, 65536);
        lemma_div_multiples_vanish(d, 65536);
    } else {
        vstd::arithmetic::mul::lemma_mul_inequality(tc, 65536, -d);
        vstd::arithmetic::mul::lemma_mul_inequality(0, tc, -d);
        assert((-d) * tc == -(d * tc) && (-d) * 65536 == -(d * 65536) && (-d) * 0 == 0)
            by (nonlinear_arith);
        lemma_div_is_ordered(d * 65536, d * tc, 65536);
        lemma_div_is_ordered(d * tc, 0, 65536);
        lemma_div_multiples_vanish(d, 65536);
    }
}

impl Color {
    pub fn new(r: u8, g: u8, b: u8) -> (c: Color)
        ensures
            c == (Color { r, g, b }),
    {
        Color { r, g, b }
    }

    pub fn black() -> (c: Color)
        ensures
            c == (Color { r: 0, g: 0, b: 0 }),
    {
        Color { r: 0, g: 0, b: 0 }
    }

    /// Saturating componentwise addition.
    pub fn add_c(self, o: Color) -> (c: Color)
        ensures
            c == spec_color_add(self, o),
            c.r as int == spec_add_ch(self.r as int, o.r as int),
            c.g as int == spec_add_ch(self.g as int, o.g as int),
            c.b as int == spec_add_ch(self.b as int, o.b as int),
    {
        Color {
            r: add_ch(self.r, o.r),
            g: add_ch(self.g, o.g),
            b: add_ch(self.b, o.b),
        }
    }

    /// Scaling by a nonnegative fixed-point factor; each channel saturates at
    /// 255.
    pub fn scale(self, t: i64) -> (c: Color)
        requires
            t >= 0,
        ensures
            c == spec_color_scale(self, t as int),
            c.r as int == spec_scale_ch(self.r as int, t as int),
            c.g as int == spec_scale_ch(self.g as int, t as int),
            c.b as int == spec_scale_ch(self.b as int, t as int),
    {
        Color {
            r: scale_ch(self.r, t),
            g: scale_ch(self.g, t),
            b: scale_ch(self.b, t),
        }
    }

    /// Linear interpolation from `self` toward `other` by a fixed-point blend
    /// factor, which is clamped into `[0, 1]`. Every output channel lies
    /// between the two input channels, hence in `[0, 255]`.
    pub fn lerp(self, other: &Color, t: i64) -> (c: Color)
        ensures
            c == spec_color_lerp(self, *other, t as int),
            c.r as int == spec_lerp_ch(self.r as int, other.r as int, t as int),
            c.g as int == spec_lerp_ch(self.g as int, other.g as int, t as int),
            c.b as int == spec_lerp_ch(self.b as int, other.b as int, t as int),
    {
        Color {
            r: lerp_ch(self.r, other.r, t),
            g: lerp_ch(self.g, other.g, t),
            b: lerp_ch(self.b, other.b, t),
        }
    }

    /// The packed integer form, red in the high byte.
    pub fn to_hex(self) -> (h: u32)
        ensures
            h as int == spec_to_hex(self),
    {
        (self.r as u32) * 0x10000 + (self.g as u32) * 0x100 + (self.b as u32)
    }
}

fn add_ch(a: u8, b: u8) -> (r: u8)
    ensures
        r as int == spec_add_ch(a as int, b as int),
{
    let s: u32 = a as u32 + b as u32;
    if s > 255 {
        255
    } else {
        s as u8
    }
}

fn scale_ch(c: u8, t: i64) -> (r: u8)
    requires
        t >= 0,
    ensures
        r as int == spec_scale_ch(c as int, t as int),
{
    proof {
        assert((c as int) * (t as int) <= 255 * (t as int) && 0 <= (c as int) * (t as int))
            by (nonlinear_arith)
            requires
                0 <= c <= 255,
                t >= 0,
        ;
    }
    let p: i128 = (c as i128) * (t as i128);
    let q: i128 = p / 65536;
    proof {
        lemma_div_is_ordered(0, p as int, 65536);
    }
    if q > 255 {
        255
    } else {
        q as u8
    }
}

fn lerp_ch(a: u8, b: u8, t: i64) -> (r: u8)
    ensures
        r as int == spec_lerp_ch(a as int, b as int, t as int),
        a <= b ==> a <= r <= b,
        b <= a ==> b <= r <= a,
{
    let tc: i64 = fx_clamp(t, 0, FX_ONE);
    let d: i64 = b as i64 - a as i64;
    proof {
        assert(-256 * 65536 <= (d as int) * (tc as int) <= 256 * 65536) by (nonlinear_arith)
            requires
                -255 <= d <= 255,
                0 <= tc <= 65536,
        ;
    }
    let (q, _rem): (i64, i64) = fx_floor_rem(d * tc, FX_ONE);
    proof {
        lemma_lerp_channel_bounds(a as int, b as int, t as int);
    }
    (a as i64 + q) as u8
}

} // verus!
