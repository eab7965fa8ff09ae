//! The transform stage: model, view, projection and viewport matrices.
//!
//! Matrices are 4x4 (and 3x3 for normals) fixed-point arrays of named
//! fields. The model matrix composes translation and uniform scale with
//! Euler rotations applied Z, then Y, then X (composed right to left onto the
//! translate-scale); the view matrix is a standard look-at; the projection is
//! a perspective with a 45-degree vertical field of view and fixed near/far
//! planes; the viewport maps normalized device coordinates to pixels with the
//! Y axis flipped and depth passed through unchanged.

use vstd::prelude::*;
use crate::fixed::{
    FX_ONE, tdiv, spec_fx_add, spec_fx_sub, spec_fx_mul, spec_fx_div, fx_add, fx_sub, fx_mul,
    fx_div, tdiv64,
};
use crate::trig::{spec_fx_sin, spec_fx_cos, fx_sin, fx_cos};
use crate::geometry::{Vec3Fx, Vec4Fx, spec_v3};
use crate::noise::Noise;

verus! {

/// A 4x4 fixed-point matrix, row major: `mRC` is row R, column C.
#[derive(Clone, Copy, PartialEq, Eq, Structural, Debug)]
pub struct Mat4Fx {
    pub m00: i64, pub m01: i64, pub m02: i64, pub m03: i64,
    pub m10: i64, pub m11: i64, pub m12: i64, pub m13: i64,
    pub m20: i64, pub m21: i64, pub m22: i64, pub m23: i64,
    pub m30: i64, pub m31: i64, pub m32: i64, pub m33: i64,
}

/// A 3x3 fixed-point matrix, row major.
#[derive(Clone, Copy, PartialEq, Eq, Structural, Debug)]
pub struct Mat3Fx {
    pub m00: i64, pub m01: i64, pub m02: i64,
    pub m10: i64, pub m11: i64, pub m12: i64,
    pub m20: i64, pub m21: i64, pub m22: i64,
}

/// Fixed-point dot product of a matrix row with a column of four values.
pub open spec fn spec_dot4(a0: int, b0: int, a1: int, b1: int, a2: int, b2: int, a3: int, b3: int) -> int {
    spec_fx_add(
        spec_fx_add(spec_fx_add(spec_fx_mul(a0, b0), spec_fx_mul(a1, b1)), spec_fx_mul(a2, b2)),
        spec_fx_mul(a3, b3),
    )
}

fn dot4(a0: i64, b0: i64, a1: i64, b1: i64, a2: i64, b2: i64, a3: i64, b3: i64) -> (r: i64)
    ensures
        r as int == spec_dot4(
            a0 as int, b0 as int, a1 as int, b1 as int,
            a2 as int, b2 as int, a3 as int, b3 as int,
        ),
{
    fx_add(fx_add(fx_add(fx_mul(a0, b0), fx_mul(a1, b1)), fx_mul(a2, b2)), fx_mul(a3, b3))
}

/// Fixed-point dot product of three products.
pub open spec fn spec_dot3(a0: int, b0: int, a1: int, b1: int, a2: int, b2: int) -> int {
    spec_fx_add(spec_fx_add(spec_fx_mul(a0, b0), spec_fx_mul(a1, b1)), spec_fx_mul(a2, b2))
}

fn dot3(a0: i64, b0: i64, a1: i64, b1: i64, a2: i64, b2: i64) -> (r: i64)
    ensures
        r as int == spec_dot3(a0 as int, b0 as int, a1 as int, b1 as int, a2 as int, b2 as int),
{
    fx_add(fx_add(fx_mul(a0, b0), fx_mul(a1, b1)), fx_mul(a2, b2))
}

impl Mat4Fx {
    pub open spec fn spec_identity() -> Mat4Fx {
        Mat4Fx {
            m00: FX_ONE, m01: 0, m02: 0, m03: 0,
            m10: 0, m11: FX_ONE, m12: 0, m13: 0,
            m20: 0, m21: 0, m22: FX_ONE, m23: 0,
            m30: 0, m31: 0, m32: 0, m33: FX_ONE,
        }
    }

    pub fn identity() -> (r: Mat4Fx)
        ensures
            r == Mat4Fx::spec_identity(),
    {
        Mat4Fx {
            m00: FX_ONE, m01: 0, m02: 0, m03: 0,
            m10: 0, m11: FX_ONE, m12: 0, m13: 0,
            m20: 0, m21: 0, m22: FX_ONE, m23: 0,
            m30: 0, m31: 0, m32: 0, m33: FX_ONE,
        }
    }

    /// Matrix-vector product over homogeneous coordinates.
    pub open spec fn spec_mul_vec4(self, v: Vec4Fx) -> Vec4Fx {
        Vec4Fx {
            x: spec_dot4(
                self.m00 as int, v.x as int, self.m01 as int, v.y as int,
                self.m02 as int, v.z as int, self.m03 as int, v.w as int,
            ) as i64,
            y: spec_dot4(
                self.m10 as int, v.x as int, self.m11 as int, v.y as int,
                self.m12 as int, v.z as int, self.m13 as int, v.w as int,
            ) as i64,
            z: spec_dot4(
                self.m20 as int, v.x as int, self.m21 as int, v.y as int,
                self.m22 as int, v.z as int, self.m23 as int, v.w as int,
            ) as i64,
            w: spec_dot4(
                self.m30 as int, v.x as int, self.m31 as int, v.y as int,
                self.m32 as int, v.z as int, self.m33 as int, v.w as int,
            ) as i64,
        }
    }

    pub fn mul_vec4(&self, v: Vec4Fx) -> (r: Vec4Fx)
        ensures
            r == self.spec_mul_vec4(v),
    {
        Vec4Fx {
            x: dot4(self.m00, v.x, self.m01, v.y, self.m02, v.z, self.m03, v.w),
            y: dot4(self.m10, v.x, self.m11, v.y, self.m12, v.z, self.m13, v.w),
            z: dot4(self.m20, v.x, self.m21, v.y, self.m22, v.z, self.m23, v.w),
            w: dot4(self.m30, v.x, self.m31, v.y, self.m32, v.z, self.m33, v.w),
        }
    }

    /// Matrix product: row i of `self` against column j of `o`.
    pub open spec fn spec_mul_mat(self, o: Mat4Fx) -> Mat4Fx {
        Mat4Fx {
            m00: spec_dot4(self.m00 as int, o.m00 as int, self.m01 as int, o.m10 as int, self.m02 as int, o.m20 as int, self.m03 as int, o.m30 as int) as i64,
            m01: spec_dot4(self.m00 as int, o.m01 as int, self.m01 as int, o.m11 as int, self.m02 as int, o.m21 as int, self.m03 as int, o.m31 as int) as i64,
            m02: spec_dot4(self.m00 as int, o.m02 as int, self.m01 as int, o.m12 as int, self.m02 as int, o.m22 as int, self.m03 as int, o.m32 as int) as i64,
            m03: spec_dot4(self.m00 as int, o.m03 as int, self.m01 as int, o.m13 as int, self.m02 as int, o.m23 as int, self.m03 as int, o.m33 as int) as i64,
            m10: spec_dot4(self.m10 as int, o.m00 as int, self.m11 as int, o.m10 as int, self.m12 as int, o.m20 as int, self.m13 as int, o.m30 as int) as i64,
            m11: spec_dot4(self.m10 as int, o.m01 as int, self.m11 as int, o.m11 as int, self.m12 as int, o.m21 as int, self.m13 as int, o.m31 as int) as i64,
            m12: spec_dot4(self.m10 as int, o.m02 as int, self.m11 as int, o.m12 as int, self.m12 as int, o.m22 as int, self.m13 as int, o.m32 as int) as i64,
            m13: spec_dot4(self.m10 as int, o.m03 as int, self.m11 as int, o.m13 as int, self.m12 as int, o.m23 as int, self.m13 as int, o.m33 as int) as i64,
            m20: spec_dot4(self.m20 as int, o.m00 as int, self.m21 as int, o.m10 as int, self.m22 as int, o.m20 as int, self.m23 as int, o.m30 as int) as i64,
            m21: spec_dot4(self.m20 as int, o.m01 as int, self.m21 as int, o.m11 as int, self.m22 as int, o.m21 as int, self.m23 as int, o.m31 as int) as i64,
            m22: spec_dot4(self.m20 as int, o.m02 as int, self.m21 as int, o.m12 as int, self.m22 as int, o.m22 as int, self.m23 as int, o.m32 as int) as i64,
            m23: spec_dot4(self.m20 as int, o.m03 as int, self.m21 as int, o.m13 as int, self.m22 as int, o.m23 as int, self.m23 as int, o.m33 as int) as i64,
            m30: spec_dot4(self.m30 as int, o.m00 as int, self.m31 as int, o.m10 as int, self.m32 as int, o.m20 as int, self.m33 as int, o.m30 as int) as i64,
            m31: spec_dot4(self.m30 as int, o.m01 as int, self.m31 as int, o.m11 as int, self.m32 as int, o.m21 as int, self.m33 as int, o.m31 as int) as i64,
            m32: spec_dot4(self.m30 as int, o.m02 as int, self.m31 as int, o.m12 as int, self.m32 as int, o.m22 as int, self.m33 as int, o.m32 as int) as i64,
            m33: spec_dot4(self.m30 as int, o.m03 as int, self.m31 as int, o.m13 as int, self.m32 as int, o.m23 as int, self.m33 as int, o.m33 as int) as i64,
        }
    }

    pub fn mul_mat(&self, o: &Mat4Fx) -> (r: Mat4Fx)
        ensures
            r == self.spec_mul_mat(*o),
    {
        Mat4Fx {
            m00: dot4(self.m00, o.m00, self.m01, o.m10, self.m02, o.m20, self.m03, o.m30),
            m01: dot4(self.m00, o.m01, self.m01, o.m11, self.m02, o.m21, self.m03, o.m31),
            m02: dot4(self.m00, o.m02, self.m01, o.m12, self.m02, o.m22, self.m03, o.m32),
            m03: dot4(self.m00, o.m03, self.m01, o.m13, self.m02, o.m23, self.m03, o.m33),
            m10: dot4(self.m10, o.m00, self.m11, o.m10, self.m12, o.m20, self.m13, o.m30),
            m11: dot4(self.m10, o.m01, self.m11, o.m11, self.m12, o.m21, self.m13, o.m31),
            m12: dot4(self.m10, o.m02, self.m11, o.m12, self.m12, o.m22, self.m13, o.m32),
            m13: dot4(self.m10, o.m03, self.m11, o.m13, self.m12, o.m23, self.m13, o.m33),
            m20: dot4(self.m20, o.m00, self.m21, o.m10, self.m22, o.m20, self.m23, o.m30),
            m21: dot4(self.m20, o.m01, self.m21, o.m11, self.m22, o.m21, self.m23, o.m31),
            m22: dot4(self.m20, o.m02, self.m21, o.m12, self.m22, o.m22, self.m23, o.m32),
            m23: dot4(self.m20, o.m03, self.m21, o.m13, self.m22, o.m23, self.m23, o.m33),
            m30: dot4(self.m30, o.m00, self.m31, o.m10, self.m32, o.m20, self.m33, o.m30),
            m31: dot4(self.m30, o.m01, self.m31, o.m11, self.m32, o.m21, self.m33, o.m31),
            m32: dot4(self.m30, o.m02, self.m31, o.m12, self.m32, o.m22, self.m33, o.m32),
            m33: dot4(self.m30, o.m03, self.m31, o.m13, self.m32, o.m23, self.m33, o.m33),
        }
    }
}

impl Mat3Fx {
    pub open spec fn spec_identity() -> Mat3Fx {
        Mat3Fx {
            m00: FX_ONE, m01: 0, m02: 0,
            m10: 0, m11: FX_ONE, m12: 0,
            m20: 0, m21: 0, m22: FX_ONE,
        }
    }

    /// The upper-left 3x3 block of a 4x4 matrix.
    pub open spec fn spec_from_mat4(m: Mat4Fx) -> Mat3Fx {
        Mat3Fx {
            m00: m.m00, m01: m.m01, m02: m.m02,
            m10: m.m10, m11: m.m11, m12: m.m12,
            m20: m.m20, m21: m.m21, m22: m.m22,
        }
    }

    pub fn from_mat4(m: &Mat4Fx) -> (r: Mat3Fx)
        ensures
            r == Mat3Fx::spec_from_mat4(*m),
    {
        Mat3Fx {
            m00: m.m00, m01: m.m01, m02: m.m02,
            m10: m.m10, m11: m.m11, m12: m.m12,
            m20: m.m20, m21: m.m21, m22: m.m22,
        }
    }

    pub open spec fn spec_transpose(self) -> Mat3Fx {
        Mat3Fx {
            m00: self.m00, m01: self.m10, m02: self.m20,
            m10: self.m01, m11: self.m11, m12: self.m21,
            m20: self.m02, m21: self.m12, m22: self.m22,
        }
    }

    pub fn transpose(&self) -> (r: Mat3Fx)
        ensures
            r == self.spec_transpose(),
    {
        Mat3Fx {
            m00: self.m00, m01: self.m10, m02: self.m20,
            m10: self.m01, m11: self.m11, m12: self.m21,
            m20: self.m02, m21: self.m12, m22: self.m22,
        }
    }

    /// Fixed-point determinant by cofactor expansion along the first row.
    pub open spec fn spec_det(self) -> int {
        let c0 = spec_fx_sub(
            spec_fx_mul(self.m11 as int, self.m22 as int),
            spec_fx_mul(self.m12 as int, self.m21 as int),
        );
        let c1 = spec_fx_sub(
            spec_fx_mul(self.m10 as int, self.m22 as int),
            spec_fx_mul(self.m12 as int, self.m20 as int),
        );
        let c2 = spec_fx_sub(
            spec_fx_mul(self.m10 as int, self.m21 as int),
            spec_fx_mul(self.m11 as int, self.m20 as int),
        );
        spec_fx_add(
            spec_fx_sub(spec_fx_mul(self.m00 as int, c0), spec_fx_mul(self.m01 as int, c1)),
            spec_fx_mul(self.m02 as int, c2),
        )
    }

    pub fn det(&self) -> (r: i64)
        ensures
            r as int == self.spec_det(),
    {
        let c0: i64 = fx_sub(fx_mul(self.m11, self.m22), fx_mul(self.m12, self.m21));
        let c1: i64 = fx_sub(fx_mul(self.m10, self.m22), fx_mul(self.m12, self.m20));
        let c2: i64 = fx_sub(fx_mul(self.m10, self.m21), fx_mul(self.m11, self.m20));
        fx_add(fx_sub(fx_mul(self.m00, c0), fx_mul(self.m01, c1)), fx_mul(self.m02, c2))
    }

    /// The inverse by adjugate over determinant; the identity when the
    /// fixed-point determinant is zero (the deliberate singular fallback).
    pub open spec fn spec_inverse(self) -> Mat3Fx {
        let d = self.spec_det();
        if d == 0 {
            Mat3Fx::spec_identity()
        } else {
            Mat3Fx {
                m00: spec_fx_div(spec_fx_sub(spec_fx_mul(self.m11 as int, self.m22 as int), spec_fx_mul(self.m12 as int, self.m21 as int)), d) as i64,
                m01: spec_fx_div(spec_fx_sub(spec_fx_mul(self.m02 as int, self.m21 as int), spec_fx_mul(self.m01 as int, self.m22 as int)), d) as i64,
                m02: spec_fx_div(spec_fx_sub(spec_fx_mul(self.m01 as int, self.m12 as int), spec_fx_mul(self.m02 as int, self.m11 as int)), d) as i64,
                m10: spec_fx_div(spec_fx_sub(spec_fx_mul(self.m12 as int, self.m20 as int), spec_fx_mul(self.m10 as int, self.m22 as int)), d) as i64,
                m11: spec_fx_div(spec_fx_sub(spec_fx_mul(self.m00 as int, self.m22 as int), spec_fx_mul(self.m02 as int, self.m20 as int)), d) as i64,
                m12: spec_fx_div(spec_fx_sub(spec_fx_mul(self.m02 as int, self.m10 as int), spec_fx_mul(self.m00 as int, self.m12 as int)), d) as i64,
                m20: spec_fx_div(spec_fx_sub(spec_fx_mul(self.m10 as int, self.m21 as int), spec_fx_mul(self.m11 as int, self.m20 as int)), d) as i64,
                m21: spec_fx_div(spec_fx_sub(spec_fx_mul(self.m01 as int, self.m20 as int), spec_fx_mul(self.m00 as int, self.m21 as int)), d) as i64,
                m22: spec_fx_div(spec_fx_sub(spec_fx_mul(self.m00 as int, self.m11 as int), spec_fx_mul(self.m01 as int, self.m10 as int)), d) as i64,
            }
        }
    }

    pub fn inverse(&self) -> (r: Mat3Fx)
        ensures
            r == self.spec_inverse(),
    {
        let d: i64 = self.det();
        if d == 0 {
            Mat3Fx {
                m00: FX_ONE, m01: 0, m02: 0,
                m10: 0, m11: FX_ONE, m12: 0,
                m20: 0, m21: 0, m22: FX_ONE,
            }
        } else {
            Mat3Fx {
                m00: fx_div(fx_sub(fx_mul(self.m11, self.m22), fx_mul(self.m12, self.m21)), d),
                m01: fx_div(fx_sub(fx_mul(self.m02, self.m21), fx_mul(self.m01, self.m22)), d),
                m02: fx_div(fx_sub(fx_mul(self.m01, self.m12), fx_mul(self.m02, self.m11)), d),
                m10: fx_div(fx_sub(fx_mul(self.m12, self.m20), fx_mul(self.m10, self.m22)), d),
                m11: fx_div(fx_sub(fx_mul(self.m00, self.m22), fx_mul(self.m02, self.m20)), d),
                m12: fx_div(fx_sub(fx_mul(self.m02, self.m10), fx_mul(self.m00, self.m12)), d),
                m20: fx_div(fx_sub(fx_mul(self.m10, self.m21), fx_mul(self.m11, self.m20)), d),
                m21: fx_div(fx_sub(fx_mul(self.m01, self.m20), fx_mul(self.m00, self.m21)), d),
                m22: fx_div(fx_sub(fx_mul(self.m00, self.m11), fx_mul(self.m01, self.m10)), d),
            }
        }
    }

    pub open spec fn spec_mul_vec3(self, v: Vec3Fx) -> Vec3Fx {
        spec_v3(
            spec_dot3(self.m00 as int, v.x as int, self.m01 as int, v.y as int, self.m02 as int, v.z as int),
            spec_dot3(self.m10 as int, v.x as int, self.m11 as int, v.y as int, self.m12 as int, v.z as int),
            spec_dot3(self.m20 as int, v.x as int, self.m21 as int, v.y as int, self.m22 as int, v.z as int),
        )
    }

    pub fn mul_vec3(&self, v: Vec3Fx) -> (r: Vec3Fx)
        ensures
            r == self.spec_mul_vec3(v),
    {
        Vec3Fx {
            x: dot3(self.m00, v.x, self.m01, v.y, self.m02, v.z),
            y: dot3(self.m10, v.x, self.m11, v.y, self.m12, v.z),
            z: dot3(self.m20, v.x, self.m21, v.y, self.m22, v.z),
        }
    }
}

/// The read-only per-object, per-frame bundle handed to every transform and
/// shading call: the four pipeline matrices, the frame counter and the shared
/// noise source. Immutable for the duration of one object's render call.
#[derive(Clone, Copy, PartialEq, Eq, Structural, Debug)]
pub struct Uniforms {
    pub model_matrix: Mat4Fx,
    pub view_matrix: Mat4Fx,
    pub projection_matrix: Mat4Fx,
    pub viewport_matrix: Mat4Fx,
    pub time: u32,
    pub noise: Noise,
}

/// Rotation about the X axis from a sine/cosine pair.
pub open spec fn spec_rot_x(s: int, c: int) -> Mat4Fx {
    Mat4Fx {
        m00: FX_ONE, m01: 0, m02: 0, m03: 0,
        m10: 0, m11: c as i64, m12: spec_fx_sub(0, s) as i64, m13: 0,
        m20: 0, m21: s as i64, m22: c as i64, m23: 0,
        m30: 0, m31: 0, m32: 0, m33: FX_ONE,
    }
}

/// Rotation about the Y axis from a sine/cosine pair.
pub open spec fn spec_rot_y(s: int, c: int) -> Mat4Fx {
    Mat4Fx {
        m00: c as i64, m01: 0, m02: s as i64, m03: 0,
        m10: 0, m11: FX_ONE, m12: 0, m13: 0,
        m20: spec_fx_sub(0, s) as i64, m21: 0, m22: c as i64, m23: 0,
        m30: 0, m31: 0, m32: 0, m33: FX_ONE,
    }
}

/// Rotation about the Z axis from a sine/cosine pair.
pub open spec fn spec_rot_z(s: int, c: int) -> Mat4Fx {
    Mat4Fx {
        m00: c as i64, m01: spec_fx_sub(0, s) as i64, m02: 0, m03: 0,
        m10: s as i64, m11: c as i64, m12: 0, m13: 0,
        m20: 0, m21: 0, m22: FX_ONE, m23: 0,
        m30: 0, m31: 0, m32: 0, m33: FX_ONE,
    }
}

/// Uniform scale on the diagonal with the translation in the last column.
pub open spec fn spec_translate_scale(t: Vec3Fx, s: int) -> Mat4Fx {
    Mat4Fx {
        m00: s as i64, m01: 0, m02: 0, m03: t.x,
        m10: 0, m11: s as i64, m12: 0, m13: t.y,
        m20: 0, m21: 0, m22: s as i64, m23: t.z,
        m30: 0, m31: 0, m32: 0, m33: FX_ONE,
    }
}

/// The model matrix: translation and uniform scale composed with the Euler
/// rotations, `(T*S) * (Rz * Ry * Rx)`.
pub open spec fn spec_create_model_matrix(translation: Vec3Fx, scale: int, rotation: Vec3Fx) -> Mat4Fx {
    let rx = spec_rot_x(spec_fx_sin(rotation.x as int), spec_fx_cos(rotation.x as int));
    let ry = spec_rot_y(spec_fx_sin(rotation.y as int), spec_fx_cos(rotation.y as int));
    let rz = spec_rot_z(spec_fx_sin(rotation.z as int), spec_fx_cos(rotation.z as int));
    let r = rz.spec_mul_mat(ry).spec_mul_mat(rx);
    spec_translate_scale(translation, scale).spec_mul_mat(r)
}

pub fn create_model_matrix(translation: Vec3Fx, scale: i64, rotation: Vec3Fx) -> (r: Mat4Fx)
    ensures
        r == spec_create_model_matrix(translation, scale as int, rotation),
{
    let sin_x: i64 = fx_sin(rotation.x);
    let cos_x: i64 = fx_cos(rotation.x);
    let sin_y: i64 = fx_sin(rotation.y);
    let cos_y: i64 = fx_cos(rotation.y);
    let sin_z: i64 = fx_sin(rotation.z);
    let cos_z: i64 = fx_cos(rotation.z);

    let rotation_matrix_x: Mat4Fx = Mat4Fx {
        m00: FX_ONE, m01: 0, m02: 0, m03: 0,
        m10: 0, m11: cos_x, m12: fx_sub(0, sin_x), m13: 0,
        m20: 0, m21: sin_x, m22: cos_x, m23: 0,
        m30: 0, m31: 0, m32: 0, m33: FX_ONE,
    };
    let rotation_matrix_y: Mat4Fx = Mat4Fx {
        m00: cos_y, m01: 0, m02: sin_y, m03: 0,
        m10: 0, m11: FX_ONE, m12: 0, m13: 0,
        m20: fx_sub(0, sin_y), m21: 0, m22: cos_y, m23: 0,
        m30: 0, m31: 0, m32: 0, m33: FX_ONE,
    };
    let rotation_matrix_z: Mat4Fx = Mat4Fx {
        m00: cos_z, m01: fx_sub(0, sin_z), m02: 0, m03: 0,
        m10: sin_z, m11: cos_z, m12: 0, m13: 0,
        m20: 0, m21: 0, m22: FX_ONE, m23: 0,
        m30: 0, m31: 0, m32: 0, m33: FX_ONE,
    };

    let rotation_matrix: Mat4Fx = rotation_matrix_z.mul_mat(&rotation_matrix_y).mul_mat(
        &rotation_matrix_x,
    );

    let transform_matrix: Mat4Fx = Mat4Fx {
        m00: scale, m01: 0, m02: 0, m03: translation.x,
        m10: 0, m11: scale, m12: 0, m13: translation.y,
        m20: 0, m21: 0, m22: scale, m23: translation.z,
        m30: 0, m31: 0, m32: 0, m33: FX_ONE,
    };

    transform_matrix.mul_mat(&rotation_matrix)
}

/// The look-at view matrix from eye, center and up.
pub open spec fn spec_create_view_matrix(eye: Vec3Fx, center: Vec3Fx, up: Vec3Fx) -> Mat4Fx {
    let f = center.spec_sub(eye).spec_normalize();
    let s = f.spec_cross(up).spec_normalize();
    let u = s.spec_cross(f);
    Mat4Fx {
        m00: s.x, m01: s.y, m02: s.z, m03: spec_fx_sub(0, s.spec_dot(eye)) as i64,
        m10: u.x, m11: u.y, m12: u.z, m13: spec_fx_sub(0, u.spec_dot(eye)) as i64,
        m20: spec_fx_sub(0, f.x as int) as i64, m21: spec_fx_sub(0, f.y as int) as i64,
        m22: spec_fx_sub(0, f.z as int) as i64, m23: f.spec_dot(eye) as i64,
        m30: 0, m31: 0, m32: 0, m33: FX_ONE,
    }
}

pub fn create_view_matrix(eye: Vec3Fx, center: Vec3Fx, up: Vec3Fx) -> (r: Mat4Fx)
    ensures
        r == spec_create_view_matrix(eye, center, up),
{
    let f: Vec3Fx = center.sub_v(eye).normalize_v();
    let s: Vec3Fx = f.cross_v(up).normalize_v();
    let u: Vec3Fx = s.cross_v(f);
    Mat4Fx {
        m00: s.x, m01: s.y, m02: s.z, m03: fx_sub(0, s.dot_v(eye)),
        m10: u.x, m11: u.y, m12: u.z, m13: fx_sub(0, u.dot_v(eye)),
        m20: fx_sub(0, f.x), m21: fx_sub(0, f.y), m22: fx_sub(0, f.z), m23: f.dot_v(eye),
        m30: 0, m31: 0, m32: 0, m33: FX_ONE,
    }
}

/// Cotangent of half the fixed 45-degree vertical field of view.
pub const PERSP_F: i64 = 158218;

/// The near clip plane (0.1).
pub const PERSP_NEAR: i64 = 6554;

/// The far clip plane (1000).
pub const PERSP_FAR: i64 = 65536000;

/// The perspective projection for the fixed field of view and clip planes,
/// with the aspect ratio taken from the fixed-point window dimensions.
pub open spec fn spec_create_perspective_matrix(window_width: int, window_height: int) -> Mat4Fx {
    let aspect = spec_fx_div(window_width, window_height);
    Mat4Fx {
        m00: spec_fx_div(PERSP_F as int, aspect) as i64, m01: 0, m02: 0, m03: 0,
        m10: 0, m11: PERSP_F, m12: 0, m13: 0,
        m20: 0, m21: 0,
        m22: spec_fx_div(
            spec_fx_sub(0, spec_fx_add(PERSP_FAR as int, PERSP_NEAR as int)),
            spec_fx_sub(PERSP_FAR as int, PERSP_NEAR as int),
        ) as i64,
        m23: spec_fx_div(
            spec_fx_sub(0, spec_fx_mul(2 * FX_ONE, spec_fx_mul(PERSP_FAR as int, PERSP_NEAR as int))),
            spec_fx_sub(PERSP_FAR as int, PERSP_NEAR as int),
        ) as i64,
        m30: 0, m31: 0, m32: (-(FX_ONE as int)) as i64, m33: 0,
    }
}

pub fn create_perspective_matrix(window_width: i64, window_height: i64) -> (r: Mat4Fx)
    requires
        window_width > 0,
        window_height > 0,
        (window_width as int) * (FX_ONE as int) >= window_height as int,
    ensures
        r == spec_create_perspective_matrix(window_width as int, window_height as int),
{
    let aspect: i64 = fx_div(window_width, window_height);
    proof {
        vstd::arithmetic::div_mod::lemma_div_pos_is_pos(
            (window_width as int) * (FX_ONE as int),
            window_height as int,
        );
        assert((window_width as int) * (FX_ONE as int) / (window_height as int) >= 1) by {
            vstd::arithmetic::div_mod::lemma_div_is_ordered(
                window_height as int,
                (window_width as int) * (FX_ONE as int),
                window_height as int,
            );
            vstd::arithmetic::div_mod::lemma_div_by_self(window_height as int);
        }
    }
    Mat4Fx {
        m00: fx_div(PERSP_F, aspect), m01: 0, m02: 0, m03: 0,
        m10: 0, m11: PERSP_F, m12: 0, m13: 0,
        m20: 0, m21: 0,
        m22: fx_div(fx_sub(0, fx_add(PERSP_FAR, PERSP_NEAR)), fx_sub(PERSP_FAR, PERSP_NEAR)),
        m23: fx_div(
            fx_sub(0, fx_mul(2 * FX_ONE, fx_mul(PERSP_FAR, PERSP_NEAR))),
            fx_sub(PERSP_FAR, PERSP_NEAR),
        ),
        m30: 0, m31: 0, m32: -FX_ONE, m33: 0,
    }
}

/// The viewport matrix: maps normalized device coordinates to pixel
/// coordinates with the Y axis flipped (screen Y grows downward) and depth
/// passed through unchanged.
pub open spec fn spec_create_viewport_matrix(width: int, height: int) -> Mat4Fx {
    let half_w = tdiv(width, 2);
    let half_h = tdiv(height, 2);
    Mat4Fx {
        m00: half_w as i64, m01: 0, m02: 0, m03: half_w as i64,
        m10: 0, m11: spec_fx_sub(0, half_h) as i64, m12: 0, m13: half_h as i64,
        m20: 0, m21: 0, m22: FX_ONE, m23: 0,
        m30: 0, m31: 0, m32: 0, m33: FX_ONE,
    }
}

pub fn create_viewport_matrix(width: i64, height: i64) -> (r: Mat4Fx)
    ensures
        r == spec_create_viewport_matrix(width as int, height as int),
{
    let half_w: i64 = tdiv64(width, 2);
    let half_h: i64 = tdiv64(height, 2);
    Mat4Fx {
        m00: half_w, m01: 0, m02: 0, m03: half_w,
        m10: 0, m11: fx_sub(0, half_h), m12: 0, m13: half_h,
        m20: 0, m21: 0, m22: FX_ONE, m23: 0,
        m30: 0, m31: 0, m32: 0, m33: FX_ONE,
    }
}

} // verus!
