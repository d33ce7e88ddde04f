//! Fixed-point 4x4 and 3x3 matrices.
//!
//! Row-major, with one named field per element so that every product has
//! an exact spec mirror.  The 3x3 matrix exists for the normal transform:
//! the inverse of the transposed upper-left block of the model matrix,
//! falling back to the identity when the determinant is zero.

use vstd::prelude::*;

use crate::fx::{fx_add, fx_add_s, fx_div, fx_div_s, fx_mul, fx_mul_s, fx_sub, fx_sub_s, FX_ONE};
use crate::vec3::{SpecVec3, SpecVec4, Vec3, Vec4};

verus! {

/// A row-major 4x4 fixed-point matrix.
#[derive(Clone, Copy, PartialEq, Eq, Structural, Debug)]
pub struct Mat4 {
    pub m00: i64,
    pub m01: i64,
    pub m02: i64,
    pub m03: i64,
    pub m10: i64,
    pub m11: i64,
    pub m12: i64,
    pub m13: i64,
    pub m20: i64,
    pub m21: i64,
    pub m22: i64,
    pub m23: i64,
    pub m30: i64,
    pub m31: i64,
    pub m32: i64,
    pub m33: i64,
}

/// The mathematical view of a [`Mat4`].
pub ghost struct SpecMat4 {
    pub m00: int,
    pub m01: int,
    pub m02: int,
    pub m03: int,
    pub m10: int,
    pub m11: int,
    pub m12: int,
    pub m13: int,
    pub m20: int,
    pub m21: int,
    pub m22: int,
    pub m23: int,
    pub m30: int,
    pub m31: int,
    pub m32: int,
    pub m33: int,
}

impl View for Mat4 {
    type V = SpecMat4;

    open spec fn view(&self) -> SpecMat4 {
        SpecMat4 {
            m00: self.m00 as int,
            m01: self.m01 as int,
            m02: self.m02 as int,
            m03: self.m03 as int,
            m10: self.m10 as int,
            m11: self.m11 as int,
            m12: self.m12 as int,
            m13: self.m13 as int,
            m20: self.m20 as int,
            m21: self.m21 as int,
            m22: self.m22 as int,
            m23: self.m23 as int,
            m30: self.m30 as int,
            m31: self.m31 as int,
            m32: self.m32 as int,
            m33: self.m33 as int,
        }
    }
}

/// Saturating fixed-point four-term dot product.
pub open spec fn dot4_s(a0: int, b0: int, a1: int, b1: int, a2: int, b2: int, a3: int, b3: int) -> int {
    fx_add_s(
        fx_add_s(fx_add_s(fx_mul_s(a0, b0), fx_mul_s(a1, b1)), fx_mul_s(a2, b2)),
        fx_mul_s(a3, b3),
    )
}

fn dot4(a0: i64, b0: i64, a1: i64, b1: i64, a2: i64, b2: i64, a3: i64, b3: i64) -> (r: i64)
    ensures
        r == dot4_s(a0 as int, b0 as int, a1 as int, b1 as int, a2 as int, b2 as int, a3 as int, b3 as int),
{
    fx_add(fx_add(fx_add(fx_mul(a0, b0), fx_mul(a1, b1)), fx_mul(a2, b2)), fx_mul(a3, b3))
}

/// The identity matrix's view.
pub open spec fn spec_m4_identity() -> SpecMat4 {
    SpecMat4 {
        m00: FX_ONE as int,
        m01: 0,
        m02: 0,
        m03: 0,
        m10: 0,
        m11: FX_ONE as int,
        m12: 0,
        m13: 0,
        m20: 0,
        m21: 0,
        m22: FX_ONE as int,
        m23: 0,
        m30: 0,
        m31: 0,
        m32: 0,
        m33: FX_ONE as int,
    }
}

/// The matrix product's view, row times column with saturating scalars.
pub open spec fn spec_m4_mul(a: SpecMat4, b: SpecMat4) -> SpecMat4 {
    SpecMat4 {
        m00: dot4_s(a.m00, b.m00, a.m01, b.m10, a.m02, b.m20, a.m03, b.m30),
        m01: dot4_s(a.m00, b.m01, a.m01, b.m11, a.m02, b.m21, a.m03, b.m31),
        m02: dot4_s(a.m00, b.m02, a.m01, b.m12, a.m02, b.m22, a.m03, b.m32),
        m03: dot4_s(a.m00, b.m03, a.m01, b.m13, a.m02, b.m23, a.m03, b.m33),
        m10: dot4_s(a.m10, b.m00, a.m11, b.m10, a.m12, b.m20, a.m13, b.m30),
        m11: dot4_s(a.m10, b.m01, a.m11, b.m11, a.m12, b.m21, a.m13, b.m31),
        m12: dot4_s(a.m10, b.m02, a.m11, b.m12, a.m12, b.m22, a.m13, b.m32),
        m13: dot4_s(a.m10, b.m03, a.m11, b.m13, a.m12, b.m23, a.m13, b.m33),
        m20: dot4_s(a.m20, b.m00, a.m21, b.m10, a.m22, b.m20, a.m23, b.m30),
        m21: dot4_s(a.m20, b.m01, a.m21, b.m11, a.m22, b.m21, a.m23, b.m31),
        m22: dot4_s(a.m20, b.m02, a.m21, b.m12, a.m22, b.m22, a.m23, b.m32),
        m23: dot4_s(a.m20, b.m03, a.m21, b.m13, a.m22, b.m23, a.m23, b.m33),
        m30: dot4_s(a.m30, b.m00, a.m31, b.m10, a.m32, b.m20, a.m33, b.m30),
        m31: dot4_s(a.m30, b.m01, a.m31, b.m11, a.m32, b.m21, a.m33, b.m31),
        m32: dot4_s(a.m30, b.m02, a.m31, b.m12, a.m32, b.m22, a.m33, b.m32),
        m33: dot4_s(a.m30, b.m03, a.m31, b.m13, a.m32, b.m23, a.m33, b.m33),
    }
}

/// The matrix-vector product's view.
pub open spec fn spec_m4_mul_vec4(m: SpecMat4, v: SpecVec4) -> SpecVec4 {
    SpecVec4 {
        x: dot4_s(m.m00, v.x, m.m01, v.y, m.m02, v.z, m.m03, v.w),
        y: dot4_s(m.m10, v.x, m.m11, v.y, m.m12, v.z, m.m13, v.w),
        z: dot4_s(m.m20, v.x, m.m21, v.y, m.m22, v.z, m.m23, v.w),
        w: dot4_s(m.m30, v.x, m.m31, v.y, m.m32, v.z, m.m33, v.w),
    }
}

impl Mat4 {
    /// The identity matrix.
    pub fn identity() -> (r: Mat4)
        ensures
            r@ == spec_m4_identity(),
    {
        Mat4 {
            m00: FX_ONE,
            m01: 0,
            m02: 0,
            m03: 0,
            m10: 0,
            m11: FX_ONE,
            m12: 0,
            m13: 0,
            m20: 0,
            m21: 0,
            m22: FX_ONE,
            m23: 0,
            m30: 0,
            m31: 0,
            m32: 0,
            m33: FX_ONE,
        }
    }

    /// Matrix product `self * other`.
    pub fn mul_mat(&self, other: &Mat4) -> (r: Mat4)
        ensures
            r@ == spec_m4_mul(self@, other@),
    {
        Mat4 {
            m00: dot4(self.m00, other.m00, self.m01, other.m10, self.m02, other.m20, self.m03, other.m30),
            m01: dot4(self.m00, other.m01, self.m01, other.m11, self.m02, other.m21, self.m03, other.m31),
            m02: dot4(self.m00, other.m02, self.m01, other.m12, self.m02, other.m22, self.m03, other.m32),
            m03: dot4(self.m00, other.m03, self.m01, other.m13, self.m02, other.m23, self.m03, other.m33),
            m10: dot4(self.m10, other.m00, self.m11, other.m10, self.m12, other.m20, self.m13, other.m30),
            m11: dot4(self.m10, other.m01, self.m11, other.m11, self.m12, other.m21, self.m13, other.m31),
            m12: dot4(self.m10, other.m02, self.m11, other.m12, self.m12, other.m22, self.m13, other.m32),
            m13: dot4(self.m10, other.m03, self.m11, other.m13, self.m12, other.m23, self.m13, other.m33),
            m20: dot4(self.m20, other.m00, self.m21, other.m10, self.m22, other.m20, self.m23, other.m30),
            m21: dot4(self.m20, other.m01, self.m21, other.m11, self.m22, other.m21, self.m23, other.m31),
            m22: dot4(self.m20, other.m02, self.m21, other.m12, self.m22, other.m22, self.m23, other.m32),
            m23: dot4(self.m20, other.m03, self.m21, other.m13, self.m22, other.m23, self.m23, other.m33),
            m30: dot4(self.m30, other.m00, self.m31, other.m10, self.m32, other.m20, self.m33, other.m30),
            m31: dot4(self.m30, other.m01, self.m31, other.m11, self.m32, other.m21, self.m33, other.m31),
            m32: dot4(self.m30, other.m02, self.m31, other.m12, self.m32, other.m22, self.m33, other.m32),
            m33: dot4(self.m30, other.m03, self.m31, other.m13, self.m32, other.m23, self.m33, other.m33),
        }
    }

    /// Matrix-vector product `self * v`.
    pub fn mul_vec4(&self, v: &Vec4) -> (r: Vec4)
        ensures
            r@ == spec_m4_mul_vec4(self@, v@),
    {
        Vec4 {
            x: dot4(self.m00, v.x, self.m01, v.y, self.m02, v.z, self.m03, v.w),
            y: dot4(self.m10, v.x, self.m11, v.y, self.m12, v.z, self.m13, v.w),
            z: dot4(self.m20, v.x, self.m21, v.y, self.m22, v.z, self.m23, v.w),
            w: dot4(self.m30, v.x, self.m31, v.y, self.m32, v.z, self.m33, v.w),
        }
    }
}

/// A row-major 3x3 fixed-point matrix, used for the normal transform.
#[derive(Clone, Copy, PartialEq, Eq, Structural, Debug)]
pub struct Mat3 {
    pub m00: i64,
    pub m01: i64,
    pub m02: i64,
    pub m10: i64,
    pub m11: i64,
    pub m12: i64,
    pub m20: i64,
    pub m21: i64,
    pub m22: i64,
}

/// The mathematical view of a [`Mat3`].
pub ghost struct SpecMat3 {
    pub m00: int,
    pub m01: int,
    pub m02: int,
    pub m10: int,
    pub m11: int,
    pub m12: int,
    pub m20: int,
    pub m21: int,
    pub m22: int,
}

impl View for Mat3 {
    type V = SpecMat3;

    open spec fn view(&self) -> SpecMat3 {
        SpecMat3 {
            m00: self.m00 as int,
            m01: self.m01 as int,
            m02: self.m02 as int,
            m10: self.m10 as int,
            m11: self.m11 as int,
            m12: self.m12 as int,
            m20: self.m20 as int,
            m21: self.m21 as int,
            m22: self.m22 as int,
        }
    }
}

/// The identity 3x3 matrix's view.
pub open spec fn spec_m3_identity() -> SpecMat3 {
    SpecMat3 {
        m00: FX_ONE as int,
        m01: 0,
        m02: 0,
        m10: 0,
        m11: FX_ONE as int,
        m12: 0,
        m20: 0,
        m21: 0,
        m22: FX_ONE as int,
    }
}

/// The upper-left 3x3 block of a 4x4 matrix.
pub open spec fn spec_m4_to_m3(m: SpecMat4) -> SpecMat3 {
    SpecMat3 {
        m00: m.m00,
        m01: m.m01,
        m02: m.m02,
        m10: m.m10,
        m11: m.m11,
        m12: m.m12,
        m20: m.m20,
        m21: m.m21,
        m22: m.m22,
    }
}

/// The transpose's view.
pub open spec fn spec_m3_transpose(m: SpecMat3) -> SpecMat3 {
    SpecMat3 {
        m00: m.m00,
        m01: m.m10,
        m02: m.m20,
        m10: m.m01,
        m11: m.m11,
        m12: m.m21,
        m20: m.m02,
        m21: m.m12,
        m22: m.m22,
    }
}

/// The saturating fixed-point determinant.
pub open spec fn spec_m3_det(m: SpecMat3) -> int {
    fx_add_s(
        fx_sub_s(
            fx_mul_s(m.m00, fx_sub_s(fx_mul_s(m.m11, m.m22), fx_mul_s(m.m12, m.m21))),
            fx_mul_s(m.m01, fx_sub_s(fx_mul_s(m.m10, m.m22), fx_mul_s(m.m12, m.m20))),
        ),
        fx_mul_s(m.m02, fx_sub_s(fx_mul_s(m.m10, m.m21), fx_mul_s(m.m11, m.m20))),
    )
}

/// The inverse's view: adjugate over determinant.  Only applied under a
/// non-zero determinant; a zero determinant would make every entry 0
/// through the guarded division.
pub open spec fn spec_m3_inverse(m: SpecMat3) -> SpecMat3 {
    let det = spec_m3_det(m);
    SpecMat3 {
        m00: fx_div_s(fx_sub_s(fx_mul_s(m.m11, m.m22), fx_mul_s(m.m12, m.m21)), det),
        m01: fx_div_s(fx_sub_s(fx_mul_s(m.m02, m.m21), fx_mul_s(m.m01, m.m22)), det),
        m02: fx_div_s(fx_sub_s(fx_mul_s(m.m01, m.m12), fx_mul_s(m.m02, m.m11)), det),
        m10: fx_div_s(fx_sub_s(fx_mul_s(m.m12, m.m20), fx_mul_s(m.m10, m.m22)), det),
        m11: fx_div_s(fx_sub_s(fx_mul_s(m.m00, m.m22), fx_mul_s(m.m02, m.m20)), det),
        m12: fx_div_s(fx_sub_s(fx_mul_s(m.m02, m.m10), fx_mul_s(m.m00, m.m12)), det),
        m20: fx_div_s(fx_sub_s(fx_mul_s(m.m10, m.m21), fx_mul_s(m.m11, m.m20)), det),
        m21: fx_div_s(fx_sub_s(fx_mul_s(m.m01, m.m20), fx_mul_s(m.m00, m.m21)), det),
        m22: fx_div_s(fx_sub_s(fx_mul_s(m.m00, m.m11), fx_mul_s(m.m01, m.m10)), det),
    }
}

/// The matrix applied to a direction vector.
pub open spec fn spec_m3_mul_vec3(m: SpecMat3, v: SpecVec3) -> SpecVec3 {
    SpecVec3 {
        x: fx_add_s(fx_add_s(fx_mul_s(m.m00, v.x), fx_mul_s(m.m01, v.y)), fx_mul_s(m.m02, v.z)),
        y: fx_add_s(fx_add_s(fx_mul_s(m.m10, v.x), fx_mul_s(m.m11, v.y)), fx_mul_s(m.m12, v.z)),
        z: fx_add_s(fx_add_s(fx_mul_s(m.m20, v.x), fx_mul_s(m.m21, v.y)), fx_mul_s(m.m22, v.z)),
    }
}

/// The normal matrix: inverse of the transposed upper-left model block,
/// or the identity when that block is singular.
pub open spec fn spec_normal_matrix(model: SpecMat4) -> SpecMat3 {
    let t = spec_m3_transpose(spec_m4_to_m3(model));
    if spec_m3_det(t) == 0 {
        spec_m3_identity()
    } else {
        spec_m3_inverse(t)
    }
}

impl Mat3 {
    /// The identity matrix.
    pub fn identity() -> (r: Mat3)
        ensures
            r@ == spec_m3_identity(),
    {
        Mat3 { m00: FX_ONE, m01: 0, m02: 0, m10: 0, m11: FX_ONE, m12: 0, m20: 0, m21: 0, m22: FX_ONE }
    }

    /// Transpose.
    pub fn transpose(&self) -> (r: Mat3)
        ensures
            r@ == spec_m3_transpose(self@),
    {
        Mat3 {
            m00: self.m00,
            m01: self.m10,
            m02: self.m20,
            m10: self.m01,
            m11: self.m11,
            m12: self.m21,
            m20: self.m02,
            m21: self.m12,
            m22: self.m22,
        }
    }

    /// Saturating fixed-point determinant.
    pub fn det(&self) -> (r: i64)
        ensures
            r == spec_m3_det(self@),
    {
        fx_add(
            fx_sub(
                fx_mul(self.m00, fx_sub(fx_mul(self.m11, self.m22), fx_mul(self.m12, self.m21))),
                fx_mul(self.m01, fx_sub(fx_mul(self.m10, self.m22), fx_mul(self.m12, self.m20))),
            ),
            fx_mul(self.m02, fx_sub(fx_mul(self.m10, self.m21), fx_mul(self.m11, self.m20))),
        )
    }

    /// Adjugate over determinant.
    pub fn inverse(&self) -> (r: Mat3)
        ensures
            r@ == spec_m3_inverse(self@),
    {
        let det = self.det();
        Mat3 {
            m00: fx_div(fx_sub(fx_mul(self.m11, self.m22), fx_mul(self.m12, self.m21)), det),
            m01: fx_div(fx_sub(fx_mul(self.m02, self.m21), fx_mul(self.m01, self.m22)), det),
            m02: fx_div(fx_sub(fx_mul(self.m01, self.m12), fx_mul(self.m02, self.m11)), det),
            m10: fx_div(fx_sub(fx_mul(self.m12, self.m20), fx_mul(self.m10, self.m22)), det),
            m11: fx_div(fx_sub(fx_mul(self.m00, self.m22), fx_mul(self.m02, self.m20)), det),
            m12: fx_div(fx_sub(fx_mul(self.m02, self.m10), fx_mul(self.m00, self.m12)), det),
            m20: fx_div(fx_sub(fx_mul(self.m10, self.m21), fx_mul(self.m11, self.m20)), det),
            m21: fx_div(fx_sub(fx_mul(self.m01, self.m20), fx_mul(self.m00, self.m21)), det),
            m22: fx_div(fx_sub(fx_mul(self.m00, self.m11), fx_mul(self.m01, self.m10)), det),
        }
    }

    /// The matrix applied to a direction vector.
    pub fn mul_vec3(&self, v: &Vec3) -> (r: Vec3)
        ensures
            r@ == spec_m3_mul_vec3(self@, v@),
    {
        Vec3 {
            x: fx_add(fx_add(fx_mul(self.m00, v.x), fx_mul(self.m01, v.y)), fx_mul(self.m02, v.z)),
            y: fx_add(fx_add(fx_mul(self.m10, v.x), fx_mul(self.m11, v.y)), fx_mul(self.m12, v.z)),
            z: fx_add(fx_add(fx_mul(self.m20, v.x), fx_mul(self.m21, v.y)), fx_mul(self.m22, v.z)),
        }
    }
}

/// The upper-left 3x3 block of a 4x4 matrix.
pub fn mat4_to_mat3(m: &Mat4) -> (r: Mat3)
    ensures
        r@ == spec_m4_to_m3(m@),
{
    Mat3 {
        m00: m.m00,
        m01: m.m01,
        m02: m.m02,
        m10: m.m10,
        m11: m.m11,
        m12: m.m12,
        m20: m.m20,
        m21: m.m21,
        m22: m.m22,
    }
}

/// The normal matrix of a model matrix: inverse-transpose of its
/// rotation/scale block, identity when singular.
pub fn normal_matrix(model: &Mat4) -> (r: Mat3)
    ensures
        r@ == spec_normal_matrix(model@),
{
    let t = mat4_to_mat3(model).transpose();
    let det = t.det();
    if det == 0 {
        Mat3::identity()
    } else {
        t.inverse()
    }
}

} // verus!
