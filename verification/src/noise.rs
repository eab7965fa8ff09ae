//! Seeded coherent procedural noise.
//!
//! A deterministic, seeded pseudo-random function of fixed-point coordinates:
//! an integer hash assigns each lattice corner a value in `[-1, 1]`, and
//! sampling interpolates the surrounding corners linearly by the fractional
//! part of each coordinate. The source holds only its seed, so sampling is a
//! pure function that may be shared read-only across a whole frame.

use vstd::prelude::*;
use crate::fixed::{FX_ONE, fx_clamp, fx_floor_rem, spec_clamp};
use vstd::arithmetic::div_mod::{lemma_div_is_ordered, lemma_div_is_ordered_by_denominator};

verus! {

/// Multiplier used to fold each lattice coordinate into the hash state.
pub const HASH_KX: u64 = 0x9E3779B97F4A7C15;

pub const HASH_KY: u64 = 0xC2B2AE3D27D4EB4F;

pub const HASH_KZ: u64 = 0x165667B19E3779F9;

pub const MIX_K1: u64 = 0xFF51AFD7ED558CCD;

pub const MIX_K2: u64 = 0xC4CEB9FE1A85EC53;

/// The low 64 bits of a product.
pub open spec fn spec_mul_lo(a: u64, b: u64) -> u64 {
    (((a as int) * (b as int)) % 0x10000000000000000) as u64
}

fn mul_lo(a: u64, b: u64) -> (r: u64)
    ensures
        r == spec_mul_lo(a, b),
{
    proof {
        assert((a as int) * (b as int) <= u128::MAX) by (nonlinear_arith)
            requires
                0 <= (a as int) && (a as int) < 0x10000000000000000,
                0 <= (b as int) && (b as int) < 0x10000000000000000,
        ;
        assert(0 <= (a as int) * (b as int)) by (nonlinear_arith)
            requires
                0 <= a as int,
                0 <= b as int,
        ;
    }
    let p: u128 = (a as u128) * (b as u128);
    (p % 0x10000000000000000u128) as u64
}

/// A 64-bit finalizing mixer: xor-shifts alternating with multiplications.
pub open spec fn spec_mix(z: u64) -> u64 {
    let a = z ^ (z >> 33);
    let b = spec_mul_lo(a, MIX_K1);
    let c = b ^ (b >> 33);
    let d = spec_mul_lo(c, MIX_K2);
    d ^ (d >> 33)
}

fn mix(z: u64) -> (r: u64)
    ensures
        r == spec_mix(z),
{
    let a: u64 = z ^ (z >> 33);
    let b: u64 = mul_lo(a, MIX_K1);
    let c: u64 = b ^ (b >> 33);
    let d: u64 = mul_lo(c, MIX_K2);
    d ^ (d >> 33)
}

/// A signed lattice coordinate shifted into the unsigned 64-bit range.
pub open spec fn spec_shift_u64(v: i64) -> u64 {
    ((v as int) + 0x8000000000000000) as u64
}

fn shift_u64(v: i64) -> (r: u64)
    ensures
        r == spec_shift_u64(v),
{
    ((v as i128) + 0x8000000000000000i128) as u64
}

/// The pseudo-random corner value at a lattice point, in `[-1, 1]`
/// fixed-point form.
pub open spec fn spec_corner(seed: u64, ix: i64, iy: i64, iz: i64) -> int {
    let h = spec_mix(
        seed ^ spec_mul_lo(spec_shift_u64(ix), HASH_KX) ^ spec_mul_lo(spec_shift_u64(iy), HASH_KY)
            ^ spec_mul_lo(spec_shift_u64(iz), HASH_KZ),
    );
    (h as int) % 131073 - 65536
}

fn corner(seed: u64, ix: i64, iy: i64, iz: i64) -> (r: i64)
    ensures
        r as int == spec_corner(seed, ix, iy, iz),
        -FX_ONE <= r <= FX_ONE,
{
    let h: u64 = mix(
        seed ^ mul_lo(shift_u64(ix), HASH_KX) ^ mul_lo(shift_u64(iy), HASH_KY) ^ mul_lo(
            shift_u64(iz),
            HASH_KZ,
        ),
    );
    let m: u64 = h % 131073;
    (m as i64) - 65536
}

/// Linear interpolation between two corner values by a fraction in
/// `[0, 1)`, clamped into `[-1, 1]`.
pub open spec fn spec_nlerp(a: int, b: int, f: int) -> int {
    spec_clamp(a + ((b - a) * f) / (FX_ONE as int), -FX_ONE as int, FX_ONE as int)
}

fn nlerp(a: i64, b: i64, f: i64) -> (r: i64)
    requires
        -FX_ONE <= a <= FX_ONE,
        -FX_ONE <= b <= FX_ONE,
        0 <= f < FX_ONE,
    ensures
        r as int == spec_nlerp(a as int, b as int, f as int),
        -FX_ONE <= r <= FX_ONE,
{
    let d: i64 = b - a;
    proof {
        assert(-131072 * 65536 <= (d as int) * (f as int) <= 131072 * 65536) by (nonlinear_arith)
            requires
                -131072 <= d as int <= 131072,
                0 <= f as int <= 65536,
        ;
    }
    let (q, _rem): (i64, i64) = fx_floor_rem(d * f, FX_ONE);
    proof {
        lemma_div_is_ordered(-131072 * 65536, (d as int) * (f as int), 65536);
        lemma_div_is_ordered((d as int) * (f as int), 131072int * 65536int, 65536);
    }
    fx_clamp(a + q, -FX_ONE, FX_ONE)
}

/// The seeded coherent noise source. Sampling reads only the seed, so one
/// instance may serve every shading call of a frame.
#[derive(Clone, Copy, PartialEq, Eq, Structural, Debug)]
pub struct Noise {
    pub seed: u64,
}

/// Two-dimensional sample: bilinear interpolation of the four surrounding
/// lattice corners.
pub open spec fn spec_noise2(seed: u64, x: int, y: int) -> int {
    let cx = x / (FX_ONE as int);
    let fx = x % (FX_ONE as int);
    let cy = y / (FX_ONE as int);
    let fy = y % (FX_ONE as int);
    let v00 = spec_corner(seed, cx as i64, cy as i64, 0);
    let v10 = spec_corner(seed, (cx + 1) as i64, cy as i64, 0);
    let v01 = spec_corner(seed, cx as i64, (cy + 1) as i64, 0);
    let v11 = spec_corner(seed, (cx + 1) as i64, (cy + 1) as i64, 0);
    spec_nlerp(spec_nlerp(v00, v10, fx), spec_nlerp(v01, v11, fx), fy)
}

/// Three-dimensional sample: trilinear interpolation of the eight
/// surrounding lattice corners.
pub open spec fn spec_noise3(seed: u64, x: int, y: int, z: int) -> int {
    let cx = x / (FX_ONE as int);
    let fx = x % (FX_ONE as int);
    let cy = y / (FX_ONE as int);
    let fy = y % (FX_ONE as int);
    let cz = z / (FX_ONE as int);
    let fz = z % (FX_ONE as int);
    let v000 = spec_corner(seed, cx as i64, cy as i64, cz as i64);
    let v100 = spec_corner(seed, (cx + 1) as i64, cy as i64, cz as i64);
    let v010 = spec_corner(seed, cx as i64, (cy + 1) as i64, cz as i64);
    let v110 = spec_corner(seed, (cx + 1) as i64, (cy + 1) as i64, cz as i64);
    let v001 = spec_corner(seed, cx as i64, cy as i64, (cz + 1) as i64);
    let v101 = spec_corner(seed, (cx + 1) as i64, cy as i64, (cz + 1) as i64);
    let v011 = spec_corner(seed, cx as i64, (cy + 1) as i64, (cz + 1) as i64);
    let v111 = spec_corner(seed, (cx + 1) as i64, (cy + 1) as i64, (cz + 1) as i64);
    let front = spec_nlerp(spec_nlerp(v000, v100, fx), spec_nlerp(v010, v110, fx), fy);
    let back = spec_nlerp(spec_nlerp(v001, v101, fx), spec_nlerp(v011, v111, fx), fy);
    spec_nlerp(front, back, fz)
}

/// Lattice cell index and fractional part of a fixed-point coordinate.
fn cell_frac(v: i64) -> (r: (i64, i64))
    ensures
        r.0 as int == (v as int) / (FX_ONE as int),
        r.1 as int == (v as int) % (FX_ONE as int),
        0 <= r.1 < FX_ONE,
        r.0 < i64::MAX,
{
    let (c, f): (i64, i64) = fx_floor_rem(v, FX_ONE);
    proof {
        lemma_div_is_ordered(v as int, i64::MAX as int, 65536);
        lemma_div_is_ordered_by_denominator(i64::MAX as int, 2, 65536);
    }
    (c, f)
}

impl Noise {
    /// A noise source from a seed.
    pub fn with_seed(seed: u64) -> (n: Noise)
        ensures
            n.seed == seed,
    {
        Noise { seed }
    }

    /// Samples the noise at a two-dimensional fixed-point coordinate. The
    /// result is a pure function of seed and coordinates, in `[-1, 1]`.
    pub fn get_noise_2d(&self, x: i64, y: i64) -> (r: i64)
        ensures
            r as int == spec_noise2(self.seed, x as int, y as int),
            -FX_ONE <= r <= FX_ONE,
    {
        let (cx, fx): (i64, i64) = cell_frac(x);
        let (cy, fy): (i64, i64) = cell_frac(y);
        let v00: i64 = corner(self.seed, cx, cy, 0);
        let v10: i64 = corner(self.seed, cx + 1, cy, 0);
        let v01: i64 = corner(self.seed, cx, cy + 1, 0);
        let v11: i64 = corner(self.seed, cx + 1, cy + 1, 0);
        nlerp(nlerp(v00, v10, fx), nlerp(v01, v11, fx), fy)
    }

    /// Samples the noise at a three-dimensional fixed-point coordinate. The
    /// result is a pure function of seed and coordinates, in `[-1, 1]`.
    pub fn get_noise_3d(&self, x: i64, y: i64, z: i64) -> (r: i64)
        ensures
            r as int == spec_noise3(self.seed, x as int, y as int, z as int),
            -FX_ONE <= r <= FX_ONE,
    {
        let (cx, fx): (i64, i64) = cell_frac(x);
        let (cy, fy): (i64, i64) = cell_frac(y);
        let (cz, fz): (i64, i64) = cell_frac(z);
        let v000: i64 = corner(self.seed, cx, cy, cz);
        let v100: i64 = corner(self.seed, cx + 1, cy, cz);
        let v010: i64 = corner(self.seed, cx, cy + 1, cz);
        let v110: i64 = corner(self.seed, cx + 1, cy + 1, cz);
        let v001: i64 = corner(self.seed, cx, cy, cz + 1);
        let v101: i64 = corner(self.seed, cx + 1, cy, cz + 1);
        let v011: i64 = corner(self.seed, cx, cy + 1, cz + 1);
        let v111: i64 = corner(self.seed, cx + 1, cy + 1, cz + 1);
        let front: i64 = nlerp(nlerp(v000, v100, fx), nlerp(v010, v110, fx), fy);
        let back: i64 = nlerp(nlerp(v001, v101, fx), nlerp(v011, v111, fx), fy);
        nlerp(front, back, fz)
    }
}

/// The default seed for the cloud-like noise the shaders share.
pub const CLOUD_SEED: u64 = 1337;

/// The noise source the renderer uses for cloud-like procedural texture.
pub fn create_cloud_noise() -> (n: Noise)
    ensures
        n.seed == CLOUD_SEED,
{
    Noise::with_seed(CLOUD_SEED)
}

/// The renderer's shared noise source.
pub fn create_noise() -> (n: Noise)
    ensures
        n.seed == CLOUD_SEED,
{
    create_cloud_noise()
}

} // verus!
