//! Geometric value types: fixed-point vectors, mesh vertices and fragments.

use vstd::prelude::*;
use crate::fixed::{
    FX_ONE, spec_fx_add, spec_fx_sub, spec_fx_mul, spec_fx_div, spec_fx_sqrt, fx_add, fx_sub,
    fx_mul, fx_div, fx_sqrt,
};
use crate::color::Color;
use vstd::arithmetic::div_mod::lemma_div_pos_is_pos;

verus! {

/// The squared norm of any vector is nonnegative: each squared component is
/// nonnegative and saturating sums of nonnegative terms stay nonnegative.
pub proof fn lemma_dot_self_nonneg(v: Vec3Fx)
    ensures
        v.spec_dot(v) >= 0,
{
    assert((v.x as int) * (v.x as int) >= 0 && (v.y as int) * (v.y as int) >= 0 && (v.z as int)
        * (v.z as int) >= 0) by (nonlinear_arith);
    lemma_div_pos_is_pos((v.x as int) * (v.x as int), 65536);
    lemma_div_pos_is_pos((v.y as int) * (v.y as int), 65536);
    lemma_div_pos_is_pos((v.z as int) * (v.z as int), 65536);
}

/// A two-component fixed-point vector (texture coordinates).
#[derive(Clone, Copy, PartialEq, Eq, Structural, Debug)]
pub struct Vec2Fx {
    pub x: i64,
    pub y: i64,
}

/// A three-component fixed-point vector.
#[derive(Clone, Copy, PartialEq, Eq, Structural, Debug)]
pub struct Vec3Fx {
    pub x: i64,
    pub y: i64,
    pub z: i64,
}

/// A four-component fixed-point vector (homogeneous coordinates).
#[derive(Clone, Copy, PartialEq, Eq, Structural, Debug)]
pub struct Vec4Fx {
    pub x: i64,
    pub y: i64,
    pub z: i64,
    pub w: i64,
}

pub open spec fn spec_v3(x: int, y: int, z: int) -> Vec3Fx {
    Vec3Fx { x: x as i64, y: y as i64, z: z as i64 }
}

impl Vec3Fx {
    pub fn new(x: i64, y: i64, z: i64) -> (r: Vec3Fx)
        ensures
            r == (Vec3Fx { x, y, z }),
    {
        Vec3Fx { x, y, z }
    }

    pub open spec fn spec_add(self, o: Vec3Fx) -> Vec3Fx {
        spec_v3(
            spec_fx_add(self.x as int, o.x as int),
            spec_fx_add(self.y as int, o.y as int),
            spec_fx_add(self.z as int, o.z as int),
        )
    }

    pub open spec fn spec_sub(self, o: Vec3Fx) -> Vec3Fx {
        spec_v3(
            spec_fx_sub(self.x as int, o.x as int),
            spec_fx_sub(self.y as int, o.y as int),
            spec_fx_sub(self.z as int, o.z as int),
        )
    }

    pub open spec fn spec_scale(self, s: int) -> Vec3Fx {
        spec_v3(
            spec_fx_mul(self.x as int, s),
            spec_fx_mul(self.y as int, s),
            spec_fx_mul(self.z as int, s),
        )
    }

    /// Fixed-point dot product.
    pub open spec fn spec_dot(self, o: Vec3Fx) -> int {
        spec_fx_add(
            spec_fx_add(
                spec_fx_mul(self.x as int, o.x as int),
                spec_fx_mul(self.y as int, o.y as int),
            ),
            spec_fx_mul(self.z as int, o.z as int),
        )
    }

    pub open spec fn spec_cross(self, o: Vec3Fx) -> Vec3Fx {
        spec_v3(
            spec_fx_sub(
                spec_fx_mul(self.y as int, o.z as int),
                spec_fx_mul(self.z as int, o.y as int),
            ),
            spec_fx_sub(
                spec_fx_mul(self.z as int, o.x as int),
                spec_fx_mul(self.x as int, o.z as int),
            ),
            spec_fx_sub(
                spec_fx_mul(self.x as int, o.y as int),
                spec_fx_mul(self.y as int, o.x as int),
            ),
        )
    }

    /// Euclidean norm: square root of the dot product with itself, provided
    /// that the squared norm did not saturate to a negative value.
    pub open spec fn spec_norm(self) -> int {
        spec_fx_sqrt(self.spec_dot(self))
    }

    /// Componentwise division by the norm; the zero vector stays zero.
    pub open spec fn spec_normalize(self) -> Vec3Fx {
        let n = self.spec_norm();
        if n == 0 {
            self
        } else {
            spec_v3(
                spec_fx_div(self.x as int, n),
                spec_fx_div(self.y as int, n),
                spec_fx_div(self.z as int, n),
            )
        }
    }

    pub fn add_v(self, o: Vec3Fx) -> (r: Vec3Fx)
        ensures
            r == self.spec_add(o),
    {
        Vec3Fx { x: fx_add(self.x, o.x), y: fx_add(self.y, o.y), z: fx_add(self.z, o.z) }
    }

    pub fn sub_v(self, o: Vec3Fx) -> (r: Vec3Fx)
        ensures
            r == self.spec_sub(o),
    {
        Vec3Fx { x: fx_sub(self.x, o.x), y: fx_sub(self.y, o.y), z: fx_sub(self.z, o.z) }
    }

    pub fn scale_v(self, s: i64) -> (r: Vec3Fx)
        ensures
            r == self.spec_scale(s as int),
    {
        Vec3Fx { x: fx_mul(self.x, s), y: fx_mul(self.y, s), z: fx_mul(self.z, s) }
    }

    pub fn dot_v(self, o: Vec3Fx) -> (r: i64)
        ensures
            r as int == self.spec_dot(o),
    {
        fx_add(fx_add(fx_mul(self.x, o.x), fx_mul(self.y, o.y)), fx_mul(self.z, o.z))
    }

    pub fn cross_v(self, o: Vec3Fx) -> (r: Vec3Fx)
        ensures
            r == self.spec_cross(o),
    {
        Vec3Fx {
            x: fx_sub(fx_mul(self.y, o.z), fx_mul(self.z, o.y)),
            y: fx_sub(fx_mul(self.z, o.x), fx_mul(self.x, o.z)),
            z: fx_sub(fx_mul(self.x, o.y), fx_mul(self.y, o.x)),
        }
    }

    /// Euclidean norm. The squared norm saturates at the `i64` range, so the
    /// result is meaningful for vectors whose squared norm does not overflow.
    pub fn norm_v(self) -> (r: i64)
        ensures
            r as int == self.spec_norm(),
            r >= 0,
    {
        proof {
            lemma_dot_self_nonneg(self);
        }
        fx_sqrt(self.dot_v(self))
    }

    pub fn normalize_v(self) -> (r: Vec3Fx)
        ensures
            r == self.spec_normalize(),
    {
        let n: i64 = self.norm_v();
        if n == 0 {
            self
        } else {
            Vec3Fx { x: fx_div(self.x, n), y: fx_div(self.y, n), z: fx_div(self.z, n) }
        }
    }
}

/// A mesh vertex: immutable object-space attributes plus two derived fields
/// that the transform stage fills in (screen-space position and the
/// world-oriented normal). The derived fields carry no meaning until the
/// vertex has passed through the transform stage.
#[derive(Clone, Copy, PartialEq, Eq, Structural, Debug)]
pub struct Vertex {
    pub position: Vec3Fx,
    pub normal: Vec3Fx,
    pub tex_coords: Vec2Fx,
    pub color: Color,
    pub transformed_position: Vec3Fx,
    pub transformed_normal: Vec3Fx,
}

impl Vertex {
    /// A fresh untransformed vertex; the derived fields start at zero.
    pub fn new(position: Vec3Fx, normal: Vec3Fx, tex_coords: Vec2Fx, color: Color) -> (r: Vertex)
        ensures
            r.position == position,
            r.normal == normal,
            r.tex_coords == tex_coords,
            r.color == color,
            r.transformed_position == (Vec3Fx { x: 0, y: 0, z: 0 }),
            r.transformed_normal == (Vec3Fx { x: 0, y: 0, z: 0 }),
    {
        Vertex {
            position,
            normal,
            tex_coords,
            color,
            transformed_position: Vec3Fx { x: 0, y: 0, z: 0 },
            transformed_normal: Vec3Fx { x: 0, y: 0, z: 0 },
        }
    }
}

/// One rasterized pixel sample: integer pixel coordinates plus interpolated
/// depth, light intensity and a shader-space position. Produced by the
/// rasterizer and consumed immediately by a shading function.
#[derive(Clone, Copy, PartialEq, Eq, Structural, Debug)]
pub struct Fragment {
    pub x: i64,
    pub y: i64,
    pub depth: i64,
    pub intensity: i64,
    pub vertex_position: Vec3Fx,
}

} // verus!
