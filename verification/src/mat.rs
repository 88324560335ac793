//! Fixed-point 3x3 and 4x4 matrices, row-major, entries scaled by `SCALE`.
//!
//! A product entry is the integer dot product of a row and a column, divided
//! by `SCALE` rounding toward zero (`quot`). Every executable operation is
//! proved to compute exactly that formula, so derived matrices are a pure
//! function of the pose they come from.

use vstd::prelude::*;

verus! {

use crate::angle::{
    cos_fx, cos_spec, is_angle, lemma_cos_bounds, lemma_half_sine_pos, lemma_sin_bounds, sin_fx,
    sin_spec,
};
use crate::fixed::{div_fx, div_nn, lemma_quot_bound, quot};
use crate::vec3::{vec3_bounded, Vec3Fx, Vec3V};

/// A 3x3 matrix with fixed-point entries (`mRC`: row `R`, column `C`).
#[derive(Debug, Clone, Copy, PartialEq, Eq, Structural)]
pub struct Mat3 {
    pub m00: i64,
    pub m01: i64,
    pub m02: i64,
    pub m10: i64,
    pub m11: i64,
    pub m12: i64,
    pub m20: i64,
    pub m21: i64,
    pub m22: i64,
}

/// The mathematical value of a 3x3 matrix.
pub ghost struct Mat3V {
    pub m00: int,
    pub m01: int,
    pub m02: int,
    pub m10: int,
    pub m11: int,
    pub m12: int,
    pub m20: int,
    pub m21: int,
    pub m22: int,
}

impl View for Mat3 {
    type V = Mat3V;

    open spec fn view(&self) -> Mat3V {
        Mat3V {
            m00: self.m00 as int,
            m01: self.m01 as int,
            m02: self.m02 as int,
            m10: self.m10 as int,
            m11: self.m11 as int,
            m12: self.m12 as int,
            m20: self.m20 as int,
            m21: self.m21 as int,
            m22: self.m22 as int,
        }
    }
}

/// A 4x4 matrix with fixed-point entries.
#[derive(Debug, Clone, Copy, PartialEq, Eq, Structural)]
pub struct Mat4 {
    pub m00: i64,
    pub m01: i64,
    pub m02: i64,
    pub m03: i64,
    pub m10: i64,
    pub m11: i64,
    pub m12: i64,
    pub m13: i64,
    pub m20: i64,
    pub m21: i64,
    pub m22: i64,
    pub m23: i64,
    pub m30: i64,
    pub m31: i64,
    pub m32: i64,
    pub m33: i64,
}

/// The mathematical value of a 4x4 matrix.
pub ghost struct Mat4V {
    pub m00: int,
    pub m01: int,
    pub m02: int,
    pub m03: int,
    pub m10: int,
    pub m11: int,
    pub m12: int,
    pub m13: int,
    pub m20: int,
    pub m21: int,
    pub m22: int,
    pub m23: int,
    pub m30: int,
    pub m31: int,
    pub m32: int,
    pub m33: int,
}

impl View for Mat4 {
    type V = Mat4V;

    open spec fn view(&self) -> Mat4V {
        Mat4V {
            m00: self.m00 as int,
            m01: self.m01 as int,
            m02: self.m02 as int,
            m03: self.m03 as int,
            m10: self.m10 as int,
            m11: self.m11 as int,
            m12: self.m12 as int,
            m13: self.m13 as int,
            m20: self.m20 as int,
            m21: self.m21 as int,
            m22: self.m22 as int,
            m23: self.m23 as int,
            m30: self.m30 as int,
            m31: self.m31 as int,
            m32: self.m32 as int,
            m33: self.m33 as int,
        }
    }
}

/// Every entry of `m` lies within `[-b, b]`.
pub open spec fn mat3_bounded(m: Mat3V, b: int) -> bool {
    &&& -b <= m.m00 <= b
    &&& -b <= m.m01 <= b
    &&& -b <= m.m02 <= b
    &&& -b <= m.m10 <= b
    &&& -b <= m.m11 <= b
    &&& -b <= m.m12 <= b
    &&& -b <= m.m20 <= b
    &&& -b <= m.m21 <= b
    &&& -b <= m.m22 <= b
}

/// Every entry of `m` lies within `[-b, b]`.
pub open spec fn mat4_bounded(m: Mat4V, b: int) -> bool {
    &&& -b <= m.m00 <= b
    &&& -b <= m.m01 <= b
    &&& -b <= m.m02 <= b
    &&& -b <= m.m03 <= b
    &&& -b <= m.m10 <= b
    &&& -b <= m.m11 <= b
    &&& -b <= m.m12 <= b
    &&& -b <= m.m13 <= b
    &&& -b <= m.m20 <= b
    &&& -b <= m.m21 <= b
    &&& -b <= m.m22 <= b
    &&& -b <= m.m23 <= b
    &&& -b <= m.m30 <= b
    &&& -b <= m.m31 <= b
    &&& -b <= m.m32 <= b
    &&& -b <= m.m33 <= b
}

/// Dot product of three-component rows and columns.
pub open spec fn dot3(a0: int, a1: int, a2: int, b0: int, b1: int, b2: int) -> int {
    a0 * b0 + a1 * b1 + a2 * b2
}

/// Dot product of four-component rows and columns.
pub open spec fn dot4(
    a0: int,
    a1: int,
    a2: int,
    a3: int,
    b0: int,
    b1: int,
    b2: int,
    b3: int,
) -> int {
    a0 * b0 + a1 * b1 + a2 * b2 + a3 * b3
}

/// Bounds on a three-term dot product and each of its partial sums.
pub proof fn lemma_dot3_fits(
    a0: int,
    a1: int,
    a2: int,
    b0: int,
    b1: int,
    b2: int,
    ba: int,
    bb: int,
)
    by (nonlinear_arith)
    requires
        0 <= ba,
        0 <= bb,
        -ba <= a0 <= ba,
        -ba <= a1 <= ba,
        -ba <= a2 <= ba,
        -bb <= b0 <= bb,
        -bb <= b1 <= bb,
        -bb <= b2 <= bb,
    ensures
        -(ba * bb) <= a0 * b0 <= ba * bb,
        -(ba * bb) <= a1 * b1 <= ba * bb,
        -(ba * bb) <= a2 * b2 <= ba * bb,
        -(3 * ba * bb) <= dot3(a0, a1, a2, b0, b1, b2) <= 3 * ba * bb,
{
}

/// Bounds on a four-term dot product and each of its partial sums.
#[verifier::rlimit(60)]
pub proof fn lemma_dot4_fits(
    a0: int,
    a1: int,
    a2: int,
    a3: int,
    b0: int,
    b1: int,
    b2: int,
    b3: int,
    ba: int,
    bb: int,
)
    by (nonlinear_arith)
    requires
        0 <= ba,
        0 <= bb,
        -ba <= a0 <= ba,
        -ba <= a1 <= ba,
        -ba <= a2 <= ba,
        -ba <= a3 <= ba,
        -bb <= b0 <= bb,
        -bb <= b1 <= bb,
        -bb <= b2 <= bb,
        -bb <= b3 <= bb,
    ensures
        -(ba * bb) <= a0 * b0 <= ba * bb,
        -(ba * bb) <= a1 * b1 <= ba * bb,
        -(ba * bb) <= a2 * b2 <= ba * bb,
        -(ba * bb) <= a3 * b3 <= ba * bb,
        -(4 * ba * bb) <= dot4(a0, a1, a2, a3, b0, b1, b2, b3) <= 4 * ba * bb,
{
}

/// The columns of `m` have squared norm `SCALE * SCALE` and are mutually
/// orthogonal: `m` is an exact scaled orthonormal matrix.
pub open spec fn mat3_orthonormal(m: Mat3V) -> bool {
    &&& dot3(m.m00, m.m10, m.m20, m.m00, m.m10, m.m20) == 1000000
    &&& dot3(m.m01, m.m11, m.m21, m.m01, m.m11, m.m21) == 1000000
    &&& dot3(m.m02, m.m12, m.m22, m.m02, m.m12, m.m22) == 1000000
    &&& dot3(m.m00, m.m10, m.m20, m.m01, m.m11, m.m21) == 0
    &&& dot3(m.m00, m.m10, m.m20, m.m02, m.m12, m.m22) == 0
    &&& dot3(m.m01, m.m11, m.m21, m.m02, m.m12, m.m22) == 0
}

/// The identity: `SCALE` on the diagonal.
pub open spec fn mat3_identity() -> Mat3V {
    Mat3V { m00: 1000, m01: 0, m02: 0, m10: 0, m11: 1000, m12: 0, m20: 0, m21: 0, m22: 1000 }
}

/// The identity: `SCALE` on the diagonal.
pub open spec fn mat4_identity() -> Mat4V {
    Mat4V {
        m00: 1000,
        m01: 0,
        m02: 0,
        m03: 0,
        m10: 0,
        m11: 1000,
        m12: 0,
        m13: 0,
        m20: 0,
        m21: 0,
        m22: 1000,
        m23: 0,
        m30: 0,
        m31: 0,
        m32: 0,
        m33: 1000,
    }
}

/// Build the executable 3x3 identity.
pub fn mat3_ident() -> (r: Mat3)
    ensures
        r@ == mat3_identity(),
{
    Mat3 { m00: 1000, m01: 0, m02: 0, m10: 0, m11: 1000, m12: 0, m20: 0, m21: 0, m22: 1000 }
}

/// Build the executable 4x4 identity.
pub fn mat4_ident() -> (r: Mat4)
    ensures
        r@ == mat4_identity(),
{
    Mat4 {
        m00: 1000,
        m01: 0,
        m02: 0,
        m03: 0,
        m10: 0,
        m11: 1000,
        m12: 0,
        m13: 0,
        m20: 0,
        m21: 0,
        m22: 1000,
        m23: 0,
        m30: 0,
        m31: 0,
        m32: 0,
        m33: 1000,
    }
}

/// Rotation about the world X axis by `a` deci-degrees.
pub open spec fn rotation_x_spec(a: int) -> Mat3V {
    Mat3V {
        m00: 1000,
        m01: 0,
        m02: 0,
        m10: 0,
        m11: cos_spec(a),
        m12: -sin_spec(a),
        m20: 0,
        m21: sin_spec(a),
        m22: cos_spec(a),
    }
}

/// Rotation about the world Y axis by `a` deci-degrees.
pub open spec fn rotation_y_spec(a: int) -> Mat3V {
    Mat3V {
        m00: cos_spec(a),
        m01: 0,
        m02: sin_spec(a),
        m10: 0,
        m11: 1000,
        m12: 0,
        m20: -sin_spec(a),
        m21: 0,
        m22: cos_spec(a),
    }
}

/// Build the rotation about X from a normalized angle.
pub fn rotation_x(a: i64) -> (r: Mat3)
    requires
        is_angle(a as int),
    ensures
        r@ == rotation_x_spec(a as int),
        mat3_bounded(r@, 1000),
{
    let s = sin_fx(a);
    let c = cos_fx(a);
    Mat3 { m00: 1000, m01: 0, m02: 0, m10: 0, m11: c, m12: -s, m20: 0, m21: s, m22: c }
}

/// Build the rotation about Y from a normalized angle.
pub fn rotation_y(a: i64) -> (r: Mat3)
    requires
        is_angle(a as int),
    ensures
        r@ == rotation_y_spec(a as int),
        mat3_bounded(r@, 1000),
{
    let s = sin_fx(a);
    let c = cos_fx(a);
    Mat3 { m00: c, m01: 0, m02: s, m10: 0, m11: 1000, m12: 0, m20: -s, m21: 0, m22: c }
}

/// Fixed-point product of two 3x3 matrices.
pub open spec fn mat3_mul_spec(a: Mat3V, b: Mat3V) -> Mat3V {
    Mat3V {
        m00: quot(dot3(a.m00, a.m01, a.m02, b.m00, b.m10, b.m20), 1000),
        m01: quot(dot3(a.m00, a.m01, a.m02, b.m01, b.m11, b.m21), 1000),
        m02: quot(dot3(a.m00, a.m01, a.m02, b.m02, b.m12, b.m22), 1000),
        m10: quot(dot3(a.m10, a.m11, a.m12, b.m00, b.m10, b.m20), 1000),
        m11: quot(dot3(a.m10, a.m11, a.m12, b.m01, b.m11, b.m21), 1000),
        m12: quot(dot3(a.m10, a.m11, a.m12, b.m02, b.m12, b.m22), 1000),
        m20: quot(dot3(a.m20, a.m21, a.m22, b.m00, b.m10, b.m20), 1000),
        m21: quot(dot3(a.m20, a.m21, a.m22, b.m01, b.m11, b.m21), 1000),
        m22: quot(dot3(a.m20, a.m21, a.m22, b.m02, b.m12, b.m22), 1000),
    }
}

/// Multiply two bounded 3x3 matrices; the result is the exact fixed-point
/// product.
pub fn mat3_mul(a: &Mat3, b: &Mat3) -> (r: Mat3)
    requires
        mat3_bounded(a@, 1_000_000),
        mat3_bounded(b@, 1_000_000),
    ensures
        r@ == mat3_mul_spec(a@, b@),
        mat3_bounded(r@, 3_000_000_000),
{
    proof {
        lemma_dot3_fits(a@.m00, a@.m01, a@.m02, b@.m00, b@.m10, b@.m20, 1_000_000, 1_000_000);
        lemma_dot3_fits(a@.m00, a@.m01, a@.m02, b@.m01, b@.m11, b@.m21, 1_000_000, 1_000_000);
        lemma_dot3_fits(a@.m00, a@.m01, a@.m02, b@.m02, b@.m12, b@.m22, 1_000_000, 1_000_000);
        lemma_dot3_fits(a@.m10, a@.m11, a@.m12, b@.m00, b@.m10, b@.m20, 1_000_000, 1_000_000);
        lemma_dot3_fits(a@.m10, a@.m11, a@.m12, b@.m01, b@.m11, b@.m21, 1_000_000, 1_000_000);
        lemma_dot3_fits(a@.m10, a@.m11, a@.m12, b@.m02, b@.m12, b@.m22, 1_000_000, 1_000_000);
        lemma_dot3_fits(a@.m20, a@.m21, a@.m22, b@.m00, b@.m10, b@.m20, 1_000_000, 1_000_000);
        lemma_dot3_fits(a@.m20, a@.m21, a@.m22, b@.m01, b@.m11, b@.m21, 1_000_000, 1_000_000);
        lemma_dot3_fits(a@.m20, a@.m21, a@.m22, b@.m02, b@.m12, b@.m22, 1_000_000, 1_000_000);
        lemma_quot_bound(dot3(a@.m00, a@.m01, a@.m02, b@.m00, b@.m10, b@.m20), 1000, 3_000_000_000);
        lemma_quot_bound(dot3(a@.m00, a@.m01, a@.m02, b@.m01, b@.m11, b@.m21), 1000, 3_000_000_000);
        lemma_quot_bound(dot3(a@.m00, a@.m01, a@.m02, b@.m02, b@.m12, b@.m22), 1000, 3_000_000_000);
        lemma_quot_bound(dot3(a@.m10, a@.m11, a@.m12, b@.m00, b@.m10, b@.m20), 1000, 3_000_000_000);
        lemma_quot_bound(dot3(a@.m10, a@.m11, a@.m12, b@.m01, b@.m11, b@.m21), 1000, 3_000_000_000);
        lemma_quot_bound(dot3(a@.m10, a@.m11, a@.m12, b@.m02, b@.m12, b@.m22), 1000, 3_000_000_000);
        lemma_quot_bound(dot3(a@.m20, a@.m21, a@.m22, b@.m00, b@.m10, b@.m20), 1000, 3_000_000_000);
        lemma_quot_bound(dot3(a@.m20, a@.m21, a@.m22, b@.m01, b@.m11, b@.m21), 1000, 3_000_000_000);
        lemma_quot_bound(dot3(a@.m20, a@.m21, a@.m22, b@.m02, b@.m12, b@.m22), 1000, 3_000_000_000);
    }
    Mat3 {
        m00: div_fx(a.m00 * b.m00 + a.m01 * b.m10 + a.m02 * b.m20, 1000),
        m01: div_fx(a.m00 * b.m01 + a.m01 * b.m11 + a.m02 * b.m21, 1000),
        m02: div_fx(a.m00 * b.m02 + a.m01 * b.m12 + a.m02 * b.m22, 1000),
        m10: div_fx(a.m10 * b.m00 + a.m11 * b.m10 + a.m12 * b.m20, 1000),
        m11: div_fx(a.m10 * b.m01 + a.m11 * b.m11 + a.m12 * b.m21, 1000),
        m12: div_fx(a.m10 * b.m02 + a.m11 * b.m12 + a.m12 * b.m22, 1000),
        m20: div_fx(a.m20 * b.m00 + a.m21 * b.m10 + a.m22 * b.m20, 1000),
        m21: div_fx(a.m20 * b.m01 + a.m21 * b.m11 + a.m22 * b.m21, 1000),
        m22: div_fx(a.m20 * b.m02 + a.m21 * b.m12 + a.m22 * b.m22, 1000),
    }
}

/// Fixed-point product of two 4x4 matrices.
pub open spec fn mat4_mul_spec(a: Mat4V, b: Mat4V) -> Mat4V {
    Mat4V {
        m00: quot(dot4(a.m00, a.m01, a.m02, a.m03, b.m00, b.m10, b.m20, b.m30), 1000),
        m01: quot(dot4(a.m00, a.m01, a.m02, a.m03, b.m01, b.m11, b.m21, b.m31), 1000),
        m02: quot(dot4(a.m00, a.m01, a.m02, a.m03, b.m02, b.m12, b.m22, b.m32), 1000),
        m03: quot(dot4(a.m00, a.m01, a.m02, a.m03, b.m03, b.m13, b.m23, b.m33), 1000),
        m10: quot(dot4(a.m10, a.m11, a.m12, a.m13, b.m00, b.m10, b.m20, b.m30), 1000),
        m11: quot(dot4(a.m10, a.m11, a.m12, a.m13, b.m01, b.m11, b.m21, b.m31), 1000),
        m12: quot(dot4(a.m10, a.m11, a.m12, a.m13, b.m02, b.m12, b.m22, b.m32), 1000),
        m13: quot(dot4(a.m10, a.m11, a.m12, a.m13, b.m03, b.m13, b.m23, b.m33), 1000),
        m20: quot(dot4(a.m20, a.m21, a.m22, a.m23, b.m00, b.m10, b.m20, b.m30), 1000),
        m21: quot(dot4(a.m20, a.m21, a.m22, a.m23, b.m01, b.m11, b.m21, b.m31), 1000),
        m22: quot(dot4(a.m20, a.m21, a.m22, a.m23, b.m02, b.m12, b.m22, b.m32), 1000),
        m23: quot(dot4(a.m20, a.m21, a.m22, a.m23, b.m03, b.m13, b.m23, b.m33), 1000),
        m30: quot(dot4(a.m30, a.m31, a.m32, a.m33, b.m00, b.m10, b.m20, b.m30), 1000),
        m31: quot(dot4(a.m30, a.m31, a.m32, a.m33, b.m01, b.m11, b.m21, b.m31), 1000),
        m32: quot(dot4(a.m30, a.m31, a.m32, a.m33, b.m02, b.m12, b.m22, b.m32), 1000),
        m33: quot(dot4(a.m30, a.m31, a.m32, a.m33, b.m03, b.m13, b.m23, b.m33), 1000),
    }
}

/// Multiply two bounded 4x4 matrices; the result is the exact fixed-point
/// product.
pub fn mat4_mul(a: &Mat4, b: &Mat4) -> (r: Mat4)
    requires
        mat4_bounded(a@, 1_000_000_000),
        mat4_bounded(b@, 1_000_000_000),
    ensures
        r@ == mat4_mul_spec(a@, b@),
        mat4_bounded(r@, 4_000_000_000_000_000),
{
    proof {
        lemma_dot4_fits(a@.m00, a@.m01, a@.m02, a@.m03, b@.m00, b@.m10, b@.m20, b@.m30, 1_000_000_000, 1_000_000_000);
        lemma_dot4_fits(a@.m00, a@.m01, a@.m02, a@.m03, b@.m01, b@.m11, b@.m21, b@.m31, 1_000_000_000, 1_000_000_000);
        lemma_dot4_fits(a@.m00, a@.m01, a@.m02, a@.m03, b@.m02, b@.m12, b@.m22, b@.m32, 1_000_000_000, 1_000_000_000);
        lemma_dot4_fits(a@.m00, a@.m01, a@.m02, a@.m03, b@.m03, b@.m13, b@.m23, b@.m33, 1_000_000_000, 1_000_000_000);
        lemma_dot4_fits(a@.m10, a@.m11, a@.m12, a@.m13, b@.m00, b@.m10, b@.m20, b@.m30, 1_000_000_000, 1_000_000_000);
        lemma_dot4_fits(a@.m10, a@.m11, a@.m12, a@.m13, b@.m01, b@.m11, b@.m21, b@.m31, 1_000_000_000, 1_000_000_000);
        lemma_dot4_fits(a@.m10, a@.m11, a@.m12, a@.m13, b@.m02, b@.m12, b@.m22, b@.m32, 1_000_000_000, 1_000_000_000);
        lemma_dot4_fits(a@.m10, a@.m11, a@.m12, a@.m13, b@.m03, b@.m13, b@.m23, b@.m33, 1_000_000_000, 1_000_000_000);
        lemma_dot4_fits(a@.m20, a@.m21, a@.m22, a@.m23, b@.m00, b@.m10, b@.m20, b@.m30, 1_000_000_000, 1_000_000_000);
        lemma_dot4_fits(a@.m20, a@.m21, a@.m22, a@.m23, b@.m01, b@.m11, b@.m21, b@.m31, 1_000_000_000, 1_000_000_000);
        lemma_dot4_fits(a@.m20, a@.m21, a@.m22, a@.m23, b@.m02, b@.m12, b@.m22, b@.m32, 1_000_000_000, 1_000_000_000);
        lemma_dot4_fits(a@.m20, a@.m21, a@.m22, a@.m23, b@.m03, b@.m13, b@.m23, b@.m33, 1_000_000_000, 1_000_000_000);
        lemma_dot4_fits(a@.m30, a@.m31, a@.m32, a@.m33, b@.m00, b@.m10, b@.m20, b@.m30, 1_000_000_000, 1_000_000_000);
        lemma_dot4_fits(a@.m30, a@.m31, a@.m32, a@.m33, b@.m01, b@.m11, b@.m21, b@.m31, 1_000_000_000, 1_000_000_000);
        lemma_dot4_fits(a@.m30, a@.m31, a@.m32, a@.m33, b@.m02, b@.m12, b@.m22, b@.m32, 1_000_000_000, 1_000_000_000);
        lemma_dot4_fits(a@.m30, a@.m31, a@.m32, a@.m33, b@.m03, b@.m13, b@.m23, b@.m33, 1_000_000_000, 1_000_000_000);
        lemma_quot_bound(dot4(a@.m00, a@.m01, a@.m02, a@.m03, b@.m00, b@.m10, b@.m20, b@.m30), 1000, 4_000_000_000_000_000);
        lemma_quot_bound(dot4(a@.m00, a@.m01, a@.m02, a@.m03, b@.m01, b@.m11, b@.m21, b@.m31), 1000, 4_000_000_000_000_000);
        lemma_quot_bound(dot4(a@.m00, a@.m01, a@.m02, a@.m03, b@.m02, b@.m12, b@.m22, b@.m32), 1000, 4_000_000_000_000_000);
        lemma_quot_bound(dot4(a@.m00, a@.m01, a@.m02, a@.m03, b@.m03, b@.m13, b@.m23, b@.m33), 1000, 4_000_000_000_000_000);
        lemma_quot_bound(dot4(a@.m10, a@.m11, a@.m12, a@.m13, b@.m00, b@.m10, b@.m20, b@.m30), 1000, 4_000_000_000_000_000);
        lemma_quot_bound(dot4(a@.m10, a@.m11, a@.m12, a@.m13, b@.m01, b@.m11, b@.m21, b@.m31), 1000, 4_000_000_000_000_000);
        lemma_quot_bound(dot4(a@.m10, a@.m11, a@.m12, a@.m13, b@.m02, b@.m12, b@.m22, b@.m32), 1000, 4_000_000_000_000_000);
        lemma_quot_bound(dot4(a@.m10, a@.m11, a@.m12, a@.m13, b@.m03, b@.m13, b@.m23, b@.m33), 1000, 4_000_000_000_000_000);
        lemma_quot_bound(dot4(a@.m20, a@.m21, a@.m22, a@.m23, b@.m00, b@.m10, b@.m20, b@.m30), 1000, 4_000_000_000_000_000);
        lemma_quot_bound(dot4(a@.m20, a@.m21, a@.m22, a@.m23, b@.m01, b@.m11, b@.m21, b@.m31), 1000, 4_000_000_000_000_000);
        lemma_quot_bound(dot4(a@.m20, a@.m21, a@.m22, a@.m23, b@.m02, b@.m12, b@.m22, b@.m32), 1000, 4_000_000_000_000_000);
        lemma_quot_bound(dot4(a@.m20, a@.m21, a@.m22, a@.m23, b@.m03, b@.m13, b@.m23, b@.m33), 1000, 4_000_000_000_000_000);
        lemma_quot_bound(dot4(a@.m30, a@.m31, a@.m32, a@.m33, b@.m00, b@.m10, b@.m20, b@.m30), 1000, 4_000_000_000_000_000);
        lemma_quot_bound(dot4(a@.m30, a@.m31, a@.m32, a@.m33, b@.m01, b@.m11, b@.m21, b@.m31), 1000, 4_000_000_000_000_000);
        lemma_quot_bound(dot4(a@.m30, a@.m31, a@.m32, a@.m33, b@.m02, b@.m12, b@.m22, b@.m32), 1000, 4_000_000_000_000_000);
        lemma_quot_bound(dot4(a@.m30, a@.m31, a@.m32, a@.m33, b@.m03, b@.m13, b@.m23, b@.m33), 1000, 4_000_000_000_000_000);
    }
    Mat4 {
        m00: div_fx(a.m00 * b.m00 + a.m01 * b.m10 + a.m02 * b.m20 + a.m03 * b.m30, 1000),
        m01: div_fx(a.m00 * b.m01 + a.m01 * b.m11 + a.m02 * b.m21 + a.m03 * b.m31, 1000),
        m02: div_fx(a.m00 * b.m02 + a.m01 * b.m12 + a.m02 * b.m22 + a.m03 * b.m32, 1000),
        m03: div_fx(a.m00 * b.m03 + a.m01 * b.m13 + a.m02 * b.m23 + a.m03 * b.m33, 1000),
        m10: div_fx(a.m10 * b.m00 + a.m11 * b.m10 + a.m12 * b.m20 + a.m13 * b.m30, 1000),
        m11: div_fx(a.m10 * b.m01 + a.m11 * b.m11 + a.m12 * b.m21 + a.m13 * b.m31, 1000),
        m12: div_fx(a.m10 * b.m02 + a.m11 * b.m12 + a.m12 * b.m22 + a.m13 * b.m32, 1000),
        m13: div_fx(a.m10 * b.m03 + a.m11 * b.m13 + a.m12 * b.m23 + a.m13 * b.m33, 1000),
        m20: div_fx(a.m20 * b.m00 + a.m21 * b.m10 + a.m22 * b.m20 + a.m23 * b.m30, 1000),
        m21: div_fx(a.m20 * b.m01 + a.m21 * b.m11 + a.m22 * b.m21 + a.m23 * b.m31, 1000),
        m22: div_fx(a.m20 * b.m02 + a.m21 * b.m12 + a.m22 * b.m22 + a.m23 * b.m32, 1000),
        m23: div_fx(a.m20 * b.m03 + a.m21 * b.m13 + a.m22 * b.m23 + a.m23 * b.m33, 1000),
        m30: div_fx(a.m30 * b.m00 + a.m31 * b.m10 + a.m32 * b.m20 + a.m33 * b.m30, 1000),
        m31: div_fx(a.m30 * b.m01 + a.m31 * b.m11 + a.m32 * b.m21 + a.m33 * b.m31, 1000),
        m32: div_fx(a.m30 * b.m02 + a.m31 * b.m12 + a.m32 * b.m22 + a.m33 * b.m32, 1000),
        m33: div_fx(a.m30 * b.m03 + a.m31 * b.m13 + a.m32 * b.m23 + a.m33 * b.m33, 1000),
    }
}

/// The fixed-point view matrix: the homogeneous rotation times the
/// translation by `pos`, written out entrywise. The upper-left block is the
/// rotation unchanged; the last column is the rotation applied to `pos`.
pub open spec fn view_mat4_spec(rot: Mat3V, pos: Vec3V) -> Mat4V {
    Mat4V {
        m00: rot.m00,
        m01: rot.m01,
        m02: rot.m02,
        m03: quot(dot3(rot.m00, rot.m01, rot.m02, pos.x, pos.y, pos.z), 1000),
        m10: rot.m10,
        m11: rot.m11,
        m12: rot.m12,
        m13: quot(dot3(rot.m10, rot.m11, rot.m12, pos.x, pos.y, pos.z), 1000),
        m20: rot.m20,
        m21: rot.m21,
        m22: rot.m22,
        m23: quot(dot3(rot.m20, rot.m21, rot.m22, pos.x, pos.y, pos.z), 1000),
        m30: 0,
        m31: 0,
        m32: 0,
        m33: 1000,
    }
}

/// Build the view matrix from a rotation and a position.
pub fn view_matrix(rot: &Mat3, pos: &Vec3Fx) -> (r: Mat4)
    requires
        mat3_bounded(rot@, 3300),
        vec3_bounded(pos@, 100_000_000),
    ensures
        r@ == view_mat4_spec(rot@, pos@),
        mat4_bounded(r@, 1_000_000_000),
{
    proof {
        lemma_dot3_fits(rot@.m00, rot@.m01, rot@.m02, pos@.x, pos@.y, pos@.z, 3300, 100_000_000);
        lemma_dot3_fits(rot@.m10, rot@.m11, rot@.m12, pos@.x, pos@.y, pos@.z, 3300, 100_000_000);
        lemma_dot3_fits(rot@.m20, rot@.m21, rot@.m22, pos@.x, pos@.y, pos@.z, 3300, 100_000_000);
        lemma_quot_bound(dot3(rot@.m00, rot@.m01, rot@.m02, pos@.x, pos@.y, pos@.z), 1000, 990_000_000);
        lemma_quot_bound(dot3(rot@.m10, rot@.m11, rot@.m12, pos@.x, pos@.y, pos@.z), 1000, 990_000_000);
        lemma_quot_bound(dot3(rot@.m20, rot@.m21, rot@.m22, pos@.x, pos@.y, pos@.z), 1000, 990_000_000);
    }
    Mat4 {
        m00: rot.m00,
        m01: rot.m01,
        m02: rot.m02,
        m03: div_fx(rot.m00 * pos.x + rot.m01 * pos.y + rot.m02 * pos.z, 1000),
        m10: rot.m10,
        m11: rot.m11,
        m12: rot.m12,
        m13: div_fx(rot.m10 * pos.x + rot.m11 * pos.y + rot.m12 * pos.z, 1000),
        m20: rot.m20,
        m21: rot.m21,
        m22: rot.m22,
        m23: div_fx(rot.m20 * pos.x + rot.m21 * pos.y + rot.m22 * pos.z, 1000),
        m30: 0,
        m31: 0,
        m32: 0,
        m33: 1000,
    }
}

/// The fixed-point perspective projection. `aspect` is width over height in
/// milliunits, `fovy` the vertical field of view in deci-degrees, `znear` and
/// `zfar` the clip planes in milliunits.
pub open spec fn perspective_spec(aspect: int, fovy: int, znear: int, zfar: int) -> Mat4V {
    let tanh = quot(sin_spec(fovy / 2) * 1000, cos_spec(fovy / 2));
    let f = quot(1_000_000, tanh);
    Mat4V {
        m00: quot(f * 1000, aspect),
        m01: 0,
        m02: 0,
        m03: 0,
        m10: 0,
        m11: f,
        m12: 0,
        m13: 0,
        m20: 0,
        m21: 0,
        m22: -quot((zfar + znear) * 1000, zfar - znear),
        m23: -quot(2 * zfar * znear, zfar - znear),
        m30: 0,
        m31: 0,
        m32: -1000,
        m33: 0,
    }
}

/// Build the perspective projection from bounded parameters.
pub fn perspective(aspect: i64, fovy: i64, znear: i64, zfar: i64) -> (r: Mat4)
    requires
        1 <= aspect <= 100_000_000,
        100 <= fovy <= 1700,
        1 <= znear,
        2 * znear <= zfar <= 2_000_000,
    ensures
        r@ == perspective_spec(aspect as int, fovy as int, znear as int, zfar as int),
        mat4_bounded(r@, 1_000_000_000),
{
    let half = div_nn(fovy, 2);
    proof {
        lemma_half_sine_pos(half as int);
        lemma_half_sine_pos(half as int + 900);
        lemma_sin_bounds(half as int);
        lemma_cos_bounds(half as int);
        assert(sin_spec(half as int) == crate::angle::half_sine(half as int));
        assert(cos_spec(half as int) == crate::angle::half_sine(half as int + 900));
    }
    let s = sin_fx(half);
    let c = cos_fx(half);
    let tanh = div_nn(s * 1000, c);
    proof {
        vstd::arithmetic::div_mod::lemma_div_is_ordered(c as int, s as int * 1000, c as int);
        vstd::arithmetic::div_mod::lemma_div_by_self(c as int);
        lemma_quot_bound(s as int * 1000, c as int, 1_000_000);
    }
    let f = div_nn(1_000_000, tanh);
    proof {
        vstd::arithmetic::div_mod::lemma_div_is_ordered(tanh as int, 1_000_000, tanh as int);
        vstd::arithmetic::div_mod::lemma_div_by_self(tanh as int);
        lemma_quot_bound(1_000_000, tanh as int, 1_000_000);
    }
    let m00 = div_nn(f * 1000, aspect);
    proof {
        lemma_quot_bound(f as int * 1000, aspect as int, 1_000_000_000);
    }
    let m22 = div_nn((zfar + znear) * 1000, zfar - znear);
    proof {
        lemma_quot_bound((zfar + znear) as int * 1000, zfar as int - znear as int, 3000);
        assert(2 * zfar as int * znear as int <= 4_000_000_000_000 && 0 <= 2 * zfar as int
            * znear as int && 2 * zfar as int * znear as int <= 4 * znear as int * (zfar as int
            - znear as int)) by (nonlinear_arith)
            requires
                1 <= znear,
                2 * znear <= zfar <= 2_000_000,
        ;
        assert(4 * znear as int * (zfar as int - znear as int) <= 4_000_000 * (zfar as int
            - znear as int)) by (nonlinear_arith)
            requires
                1 <= znear,
                2 * znear <= zfar <= 2_000_000,
        ;
    }
    let m23 = div_nn(2 * zfar * znear, zfar - znear);
    proof {
        lemma_quot_bound(2 * zfar as int * znear as int, zfar as int - znear as int, 4_000_000);
    }
    Mat4 {
        m00,
        m01: 0,
        m02: 0,
        m03: 0,
        m10: 0,
        m11: f,
        m12: 0,
        m13: 0,
        m20: 0,
        m21: 0,
        m22: -m22,
        m23: -m23,
        m30: 0,
        m31: 0,
        m32: -1000,
        m33: 0,
    }
}

} // verus!
