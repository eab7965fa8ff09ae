//! The rasterizer: triangles to fragments.
//!
//! Each triangle is taken by its three transformed vertices. Pixels of the
//! triangle's integer bounding box are tested with the standard edge-function
//! barycentric formulation: a pixel is kept exactly when all three edge
//! weights are nonnegative, and a triangle whose doubled signed area is zero
//! or negative emits nothing. Depth, light intensity and the shader-space
//! position are interpolated affinely in screen space by the edge weights
//! (no perspective correction: that is the documented baseline behavior, not
//! an oversight). The emitted sequence is pinned exactly, and the fragment
//! count law is proved below: for a positive-area triangle the fragments are
//! precisely the pixels with all barycentric weights nonnegative, one each.

use vstd::prelude::*;
use crate::fixed::{
    FX_ONE, tdiv, sat64, spec_clamp, fx_clamp, fx_floor_rem, clamp_i128, tdiv_i128,
};
use crate::geometry::{Vec3Fx, Vertex, Fragment, spec_v3};
use vstd::arithmetic::div_mod::{lemma_fundamental_div_mod, lemma_div_is_ordered};

verus! {

/// Coordinate bound under which all rasterization arithmetic is exact.
pub const COORD_LIMIT: i64 = 0x10000000000;

/// The fixed light direction the per-vertex intensity is measured against.
pub open spec fn spec_light_dir() -> Vec3Fx {
    Vec3Fx { x: 0, y: 0, z: FX_ONE }
}

/// The minimum ambient intensity floor (0.1).
pub const AMBIENT: i64 = 6554;

/// Per-vertex light intensity: the transformed normal, normalized, dotted
/// against the fixed light direction and clamped to the ambient floor.
pub open spec fn spec_vertex_intensity(n: Vec3Fx) -> int {
    spec_clamp(n.spec_normalize().spec_dot(spec_light_dir()), AMBIENT as int, FX_ONE as int)
}

pub fn vertex_intensity(n: Vec3Fx) -> (r: i64)
    ensures
        r as int == spec_vertex_intensity(n),
        AMBIENT <= r <= FX_ONE,
{
    fx_clamp(n.normalize_v().dot_v(Vec3Fx::new(0, 0, FX_ONE)), AMBIENT, FX_ONE)
}

/// The standard edge function over mathematical integers.
pub open spec fn spec_edge(ax: int, ay: int, bx: int, by: int, px: int, py: int) -> int {
    (bx - ax) * (py - ay) - (by - ay) * (px - ax)
}

/// Twice the signed screen-space area of the triangle.
pub open spec fn spec_area_v(v0: Vertex, v1: Vertex, v2: Vertex) -> int {
    spec_edge(
        v0.transformed_position.x as int,
        v0.transformed_position.y as int,
        v1.transformed_position.x as int,
        v1.transformed_position.y as int,
        v2.transformed_position.x as int,
        v2.transformed_position.y as int,
    )
}

/// The edge weight of vertex 0 at the integer pixel `(px, py)`.
pub open spec fn spec_w0_at(v0: Vertex, v1: Vertex, v2: Vertex, px: int, py: int) -> int {
    spec_edge(
        v1.transformed_position.x as int,
        v1.transformed_position.y as int,
        v2.transformed_position.x as int,
        v2.transformed_position.y as int,
        px * (FX_ONE as int),
        py * (FX_ONE as int),
    )
}

/// The edge weight of vertex 1 at the integer pixel `(px, py)`.
pub open spec fn spec_w1_at(v0: Vertex, v1: Vertex, v2: Vertex, px: int, py: int) -> int {
    spec_edge(
        v2.transformed_position.x as int,
        v2.transformed_position.y as int,
        v0.transformed_position.x as int,
        v0.transformed_position.y as int,
        px * (FX_ONE as int),
        py * (FX_ONE as int),
    )
}

/// The edge weight of vertex 2 at the integer pixel `(px, py)`.
pub open spec fn spec_w2_at(v0: Vertex, v1: Vertex, v2: Vertex, px: int, py: int) -> int {
    spec_edge(
        v0.transformed_position.x as int,
        v0.transformed_position.y as int,
        v1.transformed_position.x as int,
        v1.transformed_position.y as int,
        px * (FX_ONE as int),
        py * (FX_ONE as int),
    )
}

/// A pixel center lies in the triangle exactly when all three barycentric
/// edge weights are nonnegative.
pub open spec fn spec_inside(v0: Vertex, v1: Vertex, v2: Vertex, px: int, py: int) -> bool {
    &&& spec_w0_at(v0, v1, v2, px, py) >= 0
    &&& spec_w1_at(v0, v1, v2, px, py) >= 0
    &&& spec_w2_at(v0, v1, v2, px, py) >= 0
}

pub open spec fn spec_min3(a: int, b: int, c: int) -> int {
    if a <= b && a <= c {
        a
    } else if b <= c {
        b
    } else {
        c
    }
}

pub open spec fn spec_max3(a: int, b: int, c: int) -> int {
    if a >= b && a >= c {
        a
    } else if b >= c {
        b
    } else {
        c
    }
}

/// First pixel column of the bounding box (floor of the least x).
pub open spec fn spec_x_lo(v0: Vertex, v1: Vertex, v2: Vertex) -> int {
    spec_min3(
        v0.transformed_position.x as int,
        v1.transformed_position.x as int,
        v2.transformed_position.x as int,
    ) / (FX_ONE as int)
}

/// Last pixel column of the bounding box (ceiling of the greatest x).
pub open spec fn spec_x_hi(v0: Vertex, v1: Vertex, v2: Vertex) -> int {
    (spec_max3(
        v0.transformed_position.x as int,
        v1.transformed_position.x as int,
        v2.transformed_position.x as int,
    ) + (FX_ONE as int) - 1) / (FX_ONE as int)
}

pub open spec fn spec_y_lo(v0: Vertex, v1: Vertex, v2: Vertex) -> int {
    spec_min3(
        v0.transformed_position.y as int,
        v1.transformed_position.y as int,
        v2.transformed_position.y as int,
    ) / (FX_ONE as int)
}

pub open spec fn spec_y_hi(v0: Vertex, v1: Vertex, v2: Vertex) -> int {
    (spec_max3(
        v0.transformed_position.y as int,
        v1.transformed_position.y as int,
        v2.transformed_position.y as int,
    ) + (FX_ONE as int) - 1) / (FX_ONE as int)
}

/// Affine interpolation by the three edge weights, truncated toward zero and
/// saturated to the fixed-point range.
pub open spec fn spec_interp(w0: int, w1: int, w2: int, area: int, f0: int, f1: int, f2: int) -> int {
    sat64(tdiv(w0 * f0 + w1 * f1 + w2 * f2, area))
}

/// The fragment emitted at pixel `(px, py)`: interpolated depth, intensity
/// (from the per-vertex normals against the fixed light) and shader-space
/// position (the interpolated object-space vertex position).
pub open spec fn spec_fragment_at(v0: Vertex, v1: Vertex, v2: Vertex, px: int, py: int) -> Fragment {
    let area = spec_area_v(v0, v1, v2);
    let w0 = spec_w0_at(v0, v1, v2, px, py);
    let w1 = spec_w1_at(v0, v1, v2, px, py);
    let w2 = spec_w2_at(v0, v1, v2, px, py);
    let i0 = spec_vertex_intensity(v0.transformed_normal);
    let i1 = spec_vertex_intensity(v1.transformed_normal);
    let i2 = spec_vertex_intensity(v2.transformed_normal);
    Fragment {
        x: px as i64,
        y: py as i64,
        depth: spec_interp(
            w0, w1, w2, area,
            v0.transformed_position.z as int,
            v1.transformed_position.z as int,
            v2.transformed_position.z as int,
        ) as i64,
        intensity: spec_interp(w0, w1, w2, area, i0, i1, i2) as i64,
        vertex_position: spec_v3(
            spec_interp(
                w0, w1, w2, area,
                v0.position.x as int, v1.position.x as int, v2.position.x as int,
            ),
            spec_interp(
                w0, w1, w2, area,
                v0.position.y as int, v1.position.y as int, v2.position.y as int,
            ),
            spec_interp(
                w0, w1, w2, area,
                v0.position.z as int, v1.position.z as int, v2.position.z as int,
            ),
        ),
    }
}

/// The fragments of one row: the first `n` pixels from `x_lo` in row `y`,
/// in order, keeping exactly the pixels inside the triangle.
pub open spec fn spec_raster_row(v0: Vertex, v1: Vertex, v2: Vertex, y: int, x_lo: int, n: nat) -> Seq<Fragment>
    decreases n,
{
    if n == 0 {
        Seq::empty()
    } else {
        let prev = spec_raster_row(v0, v1, v2, y, x_lo, (n - 1) as nat);
        let x = x_lo + n - 1;
        if spec_inside(v0, v1, v2, x, y) {
            prev.push(spec_fragment_at(v0, v1, v2, x, y))
        } else {
            prev
        }
    }
}

/// The fragments of the first `m` rows from `y_lo`, each row `width` pixels
/// wide from `x_lo`, concatenated in row-major order.
pub open spec fn spec_raster_rows(v0: Vertex, v1: Vertex, v2: Vertex, y_lo: int, x_lo: int, width: nat, m: nat) -> Seq<Fragment>
    decreases m,
{
    if m == 0 {
        Seq::empty()
    } else {
        spec_raster_rows(v0, v1, v2, y_lo, x_lo, width, (m - 1) as nat) + spec_raster_row(
            v0, v1, v2,
            y_lo + m - 1,
            x_lo,
            width,
        )
    }
}

/// Everything the rasterizer emits for one triangle: nothing for a zero or
/// negative area, else one fragment per inside pixel of the bounding box.
pub open spec fn spec_rasterize(v0: Vertex, v1: Vertex, v2: Vertex) -> Seq<Fragment> {
    if spec_area_v(v0, v1, v2) <= 0 {
        Seq::empty()
    } else {
        spec_raster_rows(
            v0, v1, v2,
            spec_y_lo(v0, v1, v2),
            spec_x_lo(v0, v1, v2),
            (spec_x_hi(v0, v1, v2) - spec_x_lo(v0, v1, v2) + 1) as nat,
            (spec_y_hi(v0, v1, v2) - spec_y_lo(v0, v1, v2) + 1) as nat,
        )
    }
}

/// All coordinates small enough that rasterization arithmetic is exact.
pub open spec fn spec_in_raster_range(v: Vertex) -> bool {
    &&& -COORD_LIMIT <= v.transformed_position.x <= COORD_LIMIT
    &&& -COORD_LIMIT <= v.transformed_position.y <= COORD_LIMIT
    &&& -COORD_LIMIT <= v.transformed_position.z <= COORD_LIMIT
    &&& -COORD_LIMIT <= v.position.x <= COORD_LIMIT
    &&& -COORD_LIMIT <= v.position.y <= COORD_LIMIT
    &&& -COORD_LIMIT <= v.position.z <= COORD_LIMIT
}

pub fn in_raster_range(v: &Vertex) -> (r: bool)
    ensures
        r == spec_in_raster_range(*v),
{
    -COORD_LIMIT <= v.transformed_position.x && v.transformed_position.x <= COORD_LIMIT
        && -COORD_LIMIT <= v.transformed_position.y && v.transformed_position.y <= COORD_LIMIT
        && -COORD_LIMIT <= v.transformed_position.z && v.transformed_position.z <= COORD_LIMIT
        && -COORD_LIMIT <= v.position.x && v.position.x <= COORD_LIMIT
        && -COORD_LIMIT <= v.position.y && v.position.y <= COORD_LIMIT
        && -COORD_LIMIT <= v.position.z && v.position.z <= COORD_LIMIT
}

/// The exact edge function, computed in 128-bit arithmetic.
fn edge_i128(ax: i64, ay: i64, bx: i64, by: i64, px: i64, py: i64) -> (r: i128)
    requires
        -0x20000000000 <= ax <= 0x20000000000,
        -0x20000000000 <= ay <= 0x20000000000,
        -0x20000000000 <= bx <= 0x20000000000,
        -0x20000000000 <= by <= 0x20000000000,
        -0x20000000000 <= px <= 0x20000000000,
        -0x20000000000 <= py <= 0x20000000000,
    ensures
        r as int == spec_edge(ax as int, ay as int, bx as int, by as int, px as int, py as int),
        -0x2000000000000000000000 <= r <= 0x2000000000000000000000,
{
    proof {
        assert(-0x1000000000000000000000 <= ((bx as int) - (ax as int)) * ((py as int) - (ay
            as int)) <= 0x1000000000000000000000) by (nonlinear_arith)
            requires
                -0x40000000000 <= (bx as int) - (ax as int) <= 0x40000000000,
                -0x40000000000 <= (py as int) - (ay as int) <= 0x40000000000,
        ;
        assert(-0x1000000000000000000000 <= ((by as int) - (ay as int)) * ((px as int) - (ax
            as int)) <= 0x1000000000000000000000) by (nonlinear_arith)
            requires
                -0x40000000000 <= (by as int) - (ay as int) <= 0x40000000000,
                -0x40000000000 <= (px as int) - (ax as int) <= 0x40000000000,
        ;
    }
    (bx as i128 - ax as i128) * (py as i128 - ay as i128) - (by as i128 - ay as i128) * (px
        as i128 - ax as i128)
}

/// Affine interpolation of one attribute by the edge weights.
fn interp(w0: i128, w1: i128, w2: i128, area: i128, f0: i64, f1: i64, f2: i64) -> (r: i64)
    requires
        area > 0,
        -0x2000000000000000000000 <= w0 <= 0x2000000000000000000000,
        -0x2000000000000000000000 <= w1 <= 0x2000000000000000000000,
        -0x2000000000000000000000 <= w2 <= 0x2000000000000000000000,
        -0x10000000000 <= f0 <= 0x10000000000,
        -0x10000000000 <= f1 <= 0x10000000000,
        -0x10000000000 <= f2 <= 0x10000000000,
    ensures
        r as int == spec_interp(
            w0 as int, w1 as int, w2 as int, area as int, f0 as int, f1 as int, f2 as int,
        ),
{
    proof {
        assert(-0x20000000000000000000000000000000 <= (w0 as int) * (f0 as int)
            <= 0x20000000000000000000000000000000) by (nonlinear_arith)
            requires
                -0x2000000000000000000000 <= w0 as int <= 0x2000000000000000000000,
                -0x10000000000 <= f0 as int <= 0x10000000000,
        ;
        assert(-0x20000000000000000000000000000000 <= (w1 as int) * (f1 as int)
            <= 0x20000000000000000000000000000000) by (nonlinear_arith)
            requires
                -0x2000000000000000000000 <= w1 as int <= 0x2000000000000000000000,
                -0x10000000000 <= f1 as int <= 0x10000000000,
        ;
        assert(-0x20000000000000000000000000000000 <= (w2 as int) * (f2 as int)
            <= 0x20000000000000000000000000000000) by (nonlinear_arith)
            requires
                -0x2000000000000000000000 <= w2 as int <= 0x2000000000000000000000,
                -0x10000000000 <= f2 as int <= 0x10000000000,
        ;
    }
    let p0: i128 = w0 * (f0 as i128);
    let p1: i128 = w1 * (f1 as i128);
    let p2: i128 = w2 * (f2 as i128);
    let num: i128 = p0 + p1 + p2;
    let q: i128 = tdiv_i128(num, area);
    clamp_i128(q)
}

fn min3(a: i64, b: i64, c: i64) -> (r: i64)
    ensures
        r as int == spec_min3(a as int, b as int, c as int),
{
    if a <= b && a <= c {
        a
    } else if b <= c {
        b
    } else {
        c
    }
}

fn max3(a: i64, b: i64, c: i64) -> (r: i64)
    ensures
        r as int == spec_max3(a as int, b as int, c as int),
{
    if a >= b && a >= c {
        a
    } else if b >= c {
        b
    } else {
        c
    }
}

/// Rasterizes one triangle into its fragment sequence: nothing when the
/// doubled signed area is zero or negative, else exactly the bounding-box
/// pixels whose barycentric weights are all nonnegative, row-major.
#[verifier::loop_isolation(false)]
pub fn triangle(v0: &Vertex, v1: &Vertex, v2: &Vertex) -> (frags: Vec<Fragment>)
    requires
        spec_in_raster_range(*v0),
        spec_in_raster_range(*v1),
        spec_in_raster_range(*v2),
    ensures
        frags@ == spec_rasterize(*v0, *v1, *v2),
{
    let a: Vec3Fx = v0.transformed_position;
    let b: Vec3Fx = v1.transformed_position;
    let c: Vec3Fx = v2.transformed_position;
    let area: i128 = edge_i128(a.x, a.y, b.x, b.y, c.x, c.y);
    let mut frags: Vec<Fragment> = Vec::new();
    if area <= 0 {
        return frags;
    }
    let i0: i64 = vertex_intensity(v0.transformed_normal);
    let i1: i64 = vertex_intensity(v1.transformed_normal);
    let i2: i64 = vertex_intensity(v2.transformed_normal);
    let (x_lo, _rx): (i64, i64) = fx_floor_rem(min3(a.x, b.x, c.x), FX_ONE);
    let (x_hi, _rxh): (i64, i64) = fx_floor_rem(max3(a.x, b.x, c.x) + (FX_ONE - 1), FX_ONE);
    let (y_lo, _ry): (i64, i64) = fx_floor_rem(min3(a.y, b.y, c.y), FX_ONE);
    let (y_hi, _ryh): (i64, i64) = fx_floor_rem(max3(a.y, b.y, c.y) + (FX_ONE - 1), FX_ONE);
    proof {
        lemma_fundamental_div_mod(spec_min3(a.x as int, b.x as int, c.x as int), 65536);
        lemma_fundamental_div_mod(
            spec_max3(a.x as int, b.x as int, c.x as int) + 65535,
            65536,
        );
        lemma_fundamental_div_mod(spec_min3(a.y as int, b.y as int, c.y as int), 65536);
        lemma_fundamental_div_mod(
            spec_max3(a.y as int, b.y as int, c.y as int) + 65535,
            65536,
        );
    }
    let width: Ghost<nat> = Ghost((x_hi - x_lo + 1) as nat);
    let mut y: i64 = y_lo;
    while y <= y_hi
        invariant
            y_lo <= y <= y_hi + 1,
            frags@ == spec_raster_rows(*v0, *v1, *v2, y_lo as int, x_lo as int, width@, (y - y_lo) as nat),
        decreases y_hi + 1 - y,
    {
        let mut x: i64 = x_lo;
        while x <= x_hi
            invariant
                x_lo <= x <= x_hi + 1,
                y_lo <= y <= y_hi,
                frags@ == spec_raster_rows(*v0, *v1, *v2, y_lo as int, x_lo as int, width@, (y - y_lo) as nat)
                    + spec_raster_row(*v0, *v1, *v2, y as int, x_lo as int, (x - x_lo) as nat),
            decreases x_hi + 1 - x,
        {
            let px: i64 = x * FX_ONE;
            let py: i64 = y * FX_ONE;
            let w0: i128 = edge_i128(b.x, b.y, c.x, c.y, px, py);
            let w1: i128 = edge_i128(c.x, c.y, a.x, a.y, px, py);
            let w2: i128 = edge_i128(a.x, a.y, b.x, b.y, px, py);
            if w0 >= 0 && w1 >= 0 && w2 >= 0 {
                let depth: i64 = interp(w0, w1, w2, area, a.z, b.z, c.z);
                let intensity: i64 = interp(w0, w1, w2, area, i0, i1, i2);
                let vp: Vec3Fx = Vec3Fx::new(
                    interp(w0, w1, w2, area, v0.position.x, v1.position.x, v2.position.x),
                    interp(w0, w1, w2, area, v0.position.y, v1.position.y, v2.position.y),
                    interp(w0, w1, w2, area, v0.position.z, v1.position.z, v2.position.z),
                );
                frags.push(
                    Fragment { x, y, depth, intensity, vertex_position: vp },
                );
            }
            x = x + 1;
        }
        y = y + 1;
    }
    frags
}

/// How many of the first `n` pixels of row `y` lie inside the triangle.
pub open spec fn spec_count_row(v0: Vertex, v1: Vertex, v2: Vertex, y: int, x_lo: int, n: nat) -> nat
    decreases n,
{
    if n == 0 {
        0
    } else {
        spec_count_row(v0, v1, v2, y, x_lo, (n - 1) as nat) + if spec_inside(
            v0, v1, v2,
            x_lo + n - 1,
            y,
        ) {
            1nat
        } else {
            0nat
        }
    }
}

/// How many pixels of the first `m` rows lie inside the triangle.
pub open spec fn spec_count_rows(v0: Vertex, v1: Vertex, v2: Vertex, y_lo: int, x_lo: int, width: nat, m: nat) -> nat
    decreases m,
{
    if m == 0 {
        0
    } else {
        spec_count_rows(v0, v1, v2, y_lo, x_lo, width, (m - 1) as nat) + spec_count_row(
            v0, v1, v2,
            y_lo + m - 1,
            x_lo,
            width,
        )
    }
}

proof fn lemma_row_len(v0: Vertex, v1: Vertex, v2: Vertex, y: int, x_lo: int, n: nat)
    ensures
        spec_raster_row(v0, v1, v2, y, x_lo, n).len() == spec_count_row(v0, v1, v2, y, x_lo, n),
    decreases n,
{
    if n > 0 {
        lemma_row_len(v0, v1, v2, y, x_lo, (n - 1) as nat);
    }
}

proof fn lemma_rows_len(v0: Vertex, v1: Vertex, v2: Vertex, y_lo: int, x_lo: int, width: nat, m: nat)
    ensures
        spec_raster_rows(v0, v1, v2, y_lo, x_lo, width, m).len() == spec_count_rows(
            v0, v1, v2, y_lo, x_lo, width, m,
        ),
    decreases m,
{
    if m > 0 {
        lemma_rows_len(v0, v1, v2, y_lo, x_lo, width, (m - 1) as nat);
        lemma_row_len(v0, v1, v2, y_lo + m - 1, x_lo, width);
    }
}

/// Shape of one row: each element is the pinned fragment of its pixel, the
/// pixel columns grow strictly left to right, and a pixel appears exactly
/// when it is inside.
proof fn lemma_row_props(v0: Vertex, v1: Vertex, v2: Vertex, y: int, x_lo: int, n: nat, px: int)
    requires
        -0x10000000 <= x_lo,
        x_lo + n <= 0x10000000,
        -0x10000000 <= y <= 0x10000000,
    ensures
        forall|i: int|
            0 <= i < spec_raster_row(v0, v1, v2, y, x_lo, n).len() ==> {
                let f = #[trigger] spec_raster_row(v0, v1, v2, y, x_lo, n)[i];
                f.y == y && x_lo <= f.x < x_lo + n && f == spec_fragment_at(
                    v0, v1, v2, f.x as int, y,
                ) && spec_inside(v0, v1, v2, f.x as int, y)
            },
        forall|i: int, j: int|
            0 <= i < j < spec_raster_row(v0, v1, v2, y, x_lo, n).len() ==> (#[trigger] spec_raster_row(
                v0, v1, v2, y, x_lo, n,
            )[i]).x < (#[trigger] spec_raster_row(v0, v1, v2, y, x_lo, n)[j]).x,
        (exists|i: int|
            0 <= i < spec_raster_row(v0, v1, v2, y, x_lo, n).len() && (#[trigger] spec_raster_row(
                v0, v1, v2, y, x_lo, n,
            )[i]).x == px) <==> (x_lo <= px < x_lo + n && spec_inside(v0, v1, v2, px, y)),
    decreases n,
{
    if n > 0 {
        lemma_row_props(v0, v1, v2, y, x_lo, (n - 1) as nat, px);
        let prev = spec_raster_row(v0, v1, v2, y, x_lo, (n - 1) as nat);
        let cur = spec_raster_row(v0, v1, v2, y, x_lo, n);
        let x = x_lo + n - 1;
        if spec_inside(v0, v1, v2, x, y) {
            assert(cur == prev.push(spec_fragment_at(v0, v1, v2, x, y)));
            assert(cur[prev.len() as int] == spec_fragment_at(v0, v1, v2, x, y));
            assert(forall|i: int| 0 <= i < prev.len() ==> cur[i] == prev[i]);
            if x_lo <= px < x_lo + n && spec_inside(v0, v1, v2, px, y) {
                if px == x {
                    assert(cur[prev.len() as int].x == px);
                } else {
                    assert(x_lo <= px < x_lo + n - 1);
                }
            }
        } else {
            assert(cur == prev);
            if x_lo <= px < x_lo + n && spec_inside(v0, v1, v2, px, y) {
                assert(px != x);
            }
        }
    }
}

/// Shape of the whole block of rows: every fragment records its own pixel,
/// pixels repeat nowhere, and a pixel appears exactly when it lies in the
/// box and inside the triangle.
proof fn lemma_rows_props(v0: Vertex, v1: Vertex, v2: Vertex, y_lo: int, x_lo: int, width: nat, m: nat, px: int, py: int)
    requires
        -0x10000000 <= x_lo,
        x_lo + width <= 0x10000000,
        -0x10000000 <= y_lo,
        y_lo + m <= 0x10000000,
    ensures
        forall|i: int|
            0 <= i < spec_raster_rows(v0, v1, v2, y_lo, x_lo, width, m).len() ==> {
                let f = #[trigger] spec_raster_rows(v0, v1, v2, y_lo, x_lo, width, m)[i];
                y_lo <= f.y < y_lo + m && x_lo <= f.x < x_lo + width && f == spec_fragment_at(
                    v0, v1, v2, f.x as int, f.y as int,
                ) && spec_inside(v0, v1, v2, f.x as int, f.y as int)
            },
        forall|i: int, j: int|
            0 <= i < j < spec_raster_rows(v0, v1, v2, y_lo, x_lo, width, m).len() ==> {
                let fi = #[trigger] spec_raster_rows(v0, v1, v2, y_lo, x_lo, width, m)[i];
                let fj = #[trigger] spec_raster_rows(v0, v1, v2, y_lo, x_lo, width, m)[j];
                fi.x != fj.x || fi.y != fj.y
            },
        (exists|i: int|
            0 <= i < spec_raster_rows(v0, v1, v2, y_lo, x_lo, width, m).len()
                && (#[trigger] spec_raster_rows(v0, v1, v2, y_lo, x_lo, width, m)[i]).x == px
                && spec_raster_rows(v0, v1, v2, y_lo, x_lo, width, m)[i].y == py) <==> (
        x_lo <= px < x_lo + width && y_lo <= py < y_lo + m && spec_inside(v0, v1, v2, px, py)),
    decreases m,
{
    if m > 0 {
        lemma_rows_props(v0, v1, v2, y_lo, x_lo, width, (m - 1) as nat, px, py);
        let y = y_lo + m - 1;
        lemma_row_props(v0, v1, v2, y, x_lo, width, px);
        let prev = spec_raster_rows(v0, v1, v2, y_lo, x_lo, width, (m - 1) as nat);
        let row = spec_raster_row(v0, v1, v2, y, x_lo, width);
        let cur = spec_raster_rows(v0, v1, v2, y_lo, x_lo, width, m);
        assert(cur == prev + row);
        assert(forall|i: int| 0 <= i < prev.len() ==> cur[i] == prev[i]);
        assert(forall|i: int|
            prev.len() <= i < cur.len() ==> cur[i] == row[i - prev.len()]);
        if x_lo <= px < x_lo + width && y_lo <= py < y_lo + m && spec_inside(v0, v1, v2, px, py) {
            if py == y {
                let i = choose|i: int| 0 <= i < row.len() && row[i].x == px;
                assert(cur[prev.len() + i].x == px && cur[prev.len() + i].y == py);
            } else {
                let i = choose|i: int|
                    0 <= i < prev.len() && prev[i].x == px && prev[i].y == py;
                assert(cur[i].x == px && cur[i].y == py);
            }
        }
    }
}

/// The fragment count law. A triangle with zero or negative doubled area
/// emits no fragments. A triangle with positive area emits exactly one
/// fragment for every integer pixel center of its rounded bounding box whose
/// barycentric edge weights are all nonnegative — each such pixel appears,
/// nothing else appears, and no pixel appears twice — so the number of
/// fragments equals the number of such pixel centers.
pub proof fn lemma_fragment_count(v0: Vertex, v1: Vertex, v2: Vertex, px: int, py: int)
    requires
        spec_in_raster_range(v0),
        spec_in_raster_range(v1),
        spec_in_raster_range(v2),
    ensures
        spec_area_v(v0, v1, v2) <= 0 ==> spec_rasterize(v0, v1, v2).len() == 0,
        spec_area_v(v0, v1, v2) > 0 ==> ((exists|i: int|
            0 <= i < spec_rasterize(v0, v1, v2).len() && (#[trigger] spec_rasterize(v0, v1, v2)[i]).x
                == px && spec_rasterize(v0, v1, v2)[i].y == py) <==> (spec_x_lo(v0, v1, v2) <= px
            <= spec_x_hi(v0, v1, v2) && spec_y_lo(v0, v1, v2) <= py <= spec_y_hi(v0, v1, v2)
            && spec_inside(v0, v1, v2, px, py))),
        forall|i: int, j: int|
            0 <= i < j < spec_rasterize(v0, v1, v2).len() ==> {
                let fi = #[trigger] spec_rasterize(v0, v1, v2)[i];
                let fj = #[trigger] spec_rasterize(v0, v1, v2)[j];
                fi.x != fj.x || fi.y != fj.y
            },
        spec_area_v(v0, v1, v2) > 0 ==> spec_rasterize(v0, v1, v2).len() == spec_count_rows(
            v0, v1, v2,
            spec_y_lo(v0, v1, v2),
            spec_x_lo(v0, v1, v2),
            (spec_x_hi(v0, v1, v2) - spec_x_lo(v0, v1, v2) + 1) as nat,
            (spec_y_hi(v0, v1, v2) - spec_y_lo(v0, v1, v2) + 1) as nat,
        ),
{
    if spec_area_v(v0, v1, v2) > 0 {
        let x_lo = spec_x_lo(v0, v1, v2);
        let x_hi = spec_x_hi(v0, v1, v2);
        let y_lo = spec_y_lo(v0, v1, v2);
        let y_hi = spec_y_hi(v0, v1, v2);
        lemma_fundamental_div_mod(
            spec_min3(
                v0.transformed_position.x as int,
                v1.transformed_position.x as int,
                v2.transformed_position.x as int,
            ),
            65536,
        );
        lemma_fundamental_div_mod(
            spec_max3(
                v0.transformed_position.x as int,
                v1.transformed_position.x as int,
                v2.transformed_position.x as int,
            ) + 65535,
            65536,
        );
        lemma_fundamental_div_mod(
            spec_min3(
                v0.transformed_position.y as int,
                v1.transformed_position.y as int,
                v2.transformed_position.y as int,
            ),
            65536,
        );
        lemma_fundamental_div_mod(
            spec_max3(
                v0.transformed_position.y as int,
                v1.transformed_position.y as int,
                v2.transformed_position.y as int,
            ) + 65535,
            65536,
        );
        lemma_div_is_ordered(
            spec_min3(
                v0.transformed_position.x as int,
                v1.transformed_position.x as int,
                v2.transformed_position.x as int,
            ),
            spec_max3(
                v0.transformed_position.x as int,
                v1.transformed_position.x as int,
                v2.transformed_position.x as int,
            ) + 65535,
            65536,
        );
        lemma_div_is_ordered(
            spec_min3(
                v0.transformed_position.y as int,
                v1.transformed_position.y as int,
                v2.transformed_position.y as int,
            ),
            spec_max3(
                v0.transformed_position.y as int,
                v1.transformed_position.y as int,
                v2.transformed_position.y as int,
            ) + 65535,
            65536,
        );
        let width = (x_hi - x_lo + 1) as nat;
        let height = (y_hi - y_lo + 1) as nat;
        lemma_rows_props(v0, v1, v2, y_lo, x_lo, width, height, px, py);
        lemma_rows_len(v0, v1, v2, y_lo, x_lo, width, height);
        let rows = spec_raster_rows(v0, v1, v2, y_lo, x_lo, width, height);
        assert(spec_rasterize(v0, v1, v2) == rows);
        assert(x_lo + width == x_hi + 1);
        assert(y_lo + height == y_hi + 1);
        if x_lo <= px <= x_hi && y_lo <= py <= y_hi && spec_inside(v0, v1, v2, px, py) {
            let i = choose|i: int|
                0 <= i < rows.len() && (#[trigger] rows[i]).x == px && rows[i].y == py;
            assert(0 <= i < spec_rasterize(v0, v1, v2).len() && spec_rasterize(v0, v1, v2)[i].x
                == px && spec_rasterize(v0, v1, v2)[i].y == py);
        }
        if exists|i: int|
            0 <= i < spec_rasterize(v0, v1, v2).len() && (#[trigger] spec_rasterize(
                v0, v1, v2,
            )[i]).x == px && spec_rasterize(v0, v1, v2)[i].y == py {
            let i = choose|i: int|
                0 <= i < spec_rasterize(v0, v1, v2).len() && (#[trigger] spec_rasterize(
                    v0, v1, v2,
                )[i]).x == px && spec_rasterize(v0, v1, v2)[i].y == py;
            assert(0 <= i < rows.len() && rows[i].x == px && rows[i].y == py);
        }
    }
}

} // verus!
