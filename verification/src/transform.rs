//! Builders for the pipeline's transform stack: model, view,
//! perspective and viewport matrices.

use vstd::prelude::*;

use crate::fx::{fx_add_s, fx_div, fx_div_s, fx_mul, fx_mul_s, fx_neg, fx_neg_s, FX_HALF, FX_ONE};
use crate::mat4::{spec_m4_mul, Mat4, SpecMat4};
use crate::trig::{cos_fx, cos_s, sin_fx, sin_s};
use crate::vec3::{
    spec_v3_cross, spec_v3_dot, spec_v3_normalize, spec_v3_sub, SpecVec3, Vec3,
};

verus! {

/// Half of the fixed 45-degree field of view, in fixed-point radians.
pub const HALF_FOV_RAD: i64 = 25736;

/// The near plane distance (0.1 units).
pub const NEAR_PLANE: i64 = 6554;

/// The far plane distance (1000 units).
pub const FAR_PLANE: i64 = 65536000;

/// Rotation about the x axis by `a`.
pub open spec fn spec_rot_x(a: int) -> SpecMat4 {
    SpecMat4 {
        m00: FX_ONE as int,
        m01: 0,
        m02: 0,
        m03: 0,
        m10: 0,
        m11: cos_s(a),
        m12: -sin_s(a),
        m13: 0,
        m20: 0,
        m21: sin_s(a),
        m22: cos_s(a),
        m23: 0,
        m30: 0,
        m31: 0,
        m32: 0,
        m33: FX_ONE as int,
    }
}

/// Rotation about the y axis by `a`.
pub open spec fn spec_rot_y(a: int) -> SpecMat4 {
    SpecMat4 {
        m00: cos_s(a),
        m01: 0,
        m02: sin_s(a),
        m03: 0,
        m10: 0,
        m11: FX_ONE as int,
        m12: 0,
        m13: 0,
        m20: -sin_s(a),
        m21: 0,
        m22: cos_s(a),
        m23: 0,
        m30: 0,
        m31: 0,
        m32: 0,
        m33: FX_ONE as int,
    }
}

/// Rotation about the z axis by `a`.
pub open spec fn spec_rot_z(a: int) -> SpecMat4 {
    SpecMat4 {
        m00: cos_s(a),
        m01: -sin_s(a),
        m02: 0,
        m03: 0,
        m10: sin_s(a),
        m11: cos_s(a),
        m12: 0,
        m13: 0,
        m20: 0,
        m21: 0,
        m22: FX_ONE as int,
        m23: 0,
        m30: 0,
        m31: 0,
        m32: 0,
        m33: FX_ONE as int,
    }
}

/// Uniform scale plus translation.
pub open spec fn spec_scale_translate(t: SpecVec3, scale: int) -> SpecMat4 {
    SpecMat4 {
        m00: scale,
        m01: 0,
        m02: 0,
        m03: t.x,
        m10: 0,
        m11: scale,
        m12: 0,
        m13: t.y,
        m20: 0,
        m21: 0,
        m22: scale,
        m23: t.z,
        m30: 0,
        m31: 0,
        m32: 0,
        m33: FX_ONE as int,
    }
}

/// The model matrix: scale-translate times the z-y-x rotation product.
pub open spec fn spec_model_matrix(t: SpecVec3, scale: int, r: SpecVec3) -> SpecMat4 {
    spec_m4_mul(
        spec_scale_translate(t, scale),
        spec_m4_mul(spec_m4_mul(spec_rot_z(r.z), spec_rot_y(r.y)), spec_rot_x(r.x)),
    )
}

/// Builds the model matrix from translation, uniform scale and per-axis
/// rotation angles.
pub fn create_model_matrix(translation: Vec3, scale: i64, rotation: Vec3) -> (m: Mat4)
    ensures
        m@ == spec_model_matrix(translation@, scale as int, rotation@),
{
    let sin_x = sin_fx(rotation.x);
    let cos_x = cos_fx(rotation.x);
    let sin_y = sin_fx(rotation.y);
    let cos_y = cos_fx(rotation.y);
    let sin_z = sin_fx(rotation.z);
    let cos_z = cos_fx(rotation.z);
    let rotation_x = Mat4 {
        m00: FX_ONE,
        m01: 0,
        m02: 0,
        m03: 0,
        m10: 0,
        m11: cos_x,
        m12: -sin_x,
        m13: 0,
        m20: 0,
        m21: sin_x,
        m22: cos_x,
        m23: 0,
        m30: 0,
        m31: 0,
        m32: 0,
        m33: FX_ONE,
    };
    let rotation_y = Mat4 {
        m00: cos_y,
        m01: 0,
        m02: sin_y,
        m03: 0,
        m10: 0,
        m11: FX_ONE,
        m12: 0,
        m13: 0,
        m20: -sin_y,
        m21: 0,
        m22: cos_y,
        m23: 0,
        m30: 0,
        m31: 0,
        m32: 0,
        m33: FX_ONE,
    };
    let rotation_z = Mat4 {
        m00: cos_z,
        m01: -sin_z,
        m02: 0,
        m03: 0,
        m10: sin_z,
        m11: cos_z,
        m12: 0,
        m13: 0,
        m20: 0,
        m21: 0,
        m22: FX_ONE,
        m23: 0,
        m30: 0,
        m31: 0,
        m32: 0,
        m33: FX_ONE,
    };
    let rotation_matrix = rotation_z.mul_mat(&rotation_y).mul_mat(&rotation_x);
    let transform_matrix = Mat4 {
        m00: scale,
        m01: 0,
        m02: 0,
        m03: translation.x,
        m10: 0,
        m11: scale,
        m12: 0,
        m13: translation.y,
        m20: 0,
        m21: 0,
        m22: scale,
        m23: translation.z,
        m30: 0,
        m31: 0,
        m32: 0,
        m33: FX_ONE,
    };
    transform_matrix.mul_mat(&rotation_matrix)
}

/// The look-at view matrix: camera basis rows over the negated eye
/// offsets.
pub open spec fn spec_view_matrix(eye: SpecVec3, center: SpecVec3, up: SpecVec3) -> SpecMat4 {
    let f = spec_v3_normalize(spec_v3_sub(center, eye));
    let s = spec_v3_normalize(spec_v3_cross(f, up));
    let u = spec_v3_cross(s, f);
    SpecMat4 {
        m00: s.x,
        m01: s.y,
        m02: s.z,
        m03: fx_neg_s(spec_v3_dot(s, eye)),
        m10: u.x,
        m11: u.y,
        m12: u.z,
        m13: fx_neg_s(spec_v3_dot(u, eye)),
        m20: fx_neg_s(f.x),
        m21: fx_neg_s(f.y),
        m22: fx_neg_s(f.z),
        m23: spec_v3_dot(f, eye),
        m30: 0,
        m31: 0,
        m32: 0,
        m33: FX_ONE as int,
    }
}

/// Builds the view matrix looking from `eye` toward `center`.
pub fn create_view_matrix(eye: Vec3, center: Vec3, up: Vec3) -> (m: Mat4)
    ensures
        m@ == spec_view_matrix(eye@, center@, up@),
{
    let f = center.sub(&eye).normalize();
    let s = f.cross(&up).normalize();
    let u = s.cross(&f);
    Mat4 {
        m00: s.x,
        m01: s.y,
        m02: s.z,
        m03: fx_neg(s.dot(&eye)),
        m10: u.x,
        m11: u.y,
        m12: u.z,
        m13: fx_neg(u.dot(&eye)),
        m20: fx_neg(f.x),
        m21: fx_neg(f.y),
        m22: fx_neg(f.z),
        m23: f.dot(&eye),
        m30: 0,
        m31: 0,
        m32: 0,
        m33: FX_ONE,
    }
}

/// The perspective matrix for the fixed 45-degree field of view and the
/// fixed near and far planes, at the given aspect ratio.
pub open spec fn spec_perspective_matrix(window_width: int, window_height: int) -> SpecMat4 {
    let aspect = fx_div_s(window_width, window_height);
    let tan_half = fx_div_s(sin_s(HALF_FOV_RAD as int), cos_s(HALF_FOV_RAD as int));
    SpecMat4 {
        m00: fx_div_s(FX_ONE as int, fx_mul_s(aspect, tan_half)),
        m01: 0,
        m02: 0,
        m03: 0,
        m10: 0,
        m11: fx_div_s(FX_ONE as int, tan_half),
        m12: 0,
        m13: 0,
        m20: 0,
        m21: 0,
        m22: fx_neg_s(
            fx_div_s(
                fx_add_s(FAR_PLANE as int, NEAR_PLANE as int),
                (FAR_PLANE - NEAR_PLANE) as int,
            ),
        ),
        m23: fx_neg_s(
            fx_div_s(
                fx_mul_s(2 * FX_ONE, fx_mul_s(FAR_PLANE as int, NEAR_PLANE as int)),
                (FAR_PLANE - NEAR_PLANE) as int,
            ),
        ),
        m30: 0,
        m31: 0,
        m32: -FX_ONE as int,
        m33: 0,
    }
}

/// Builds the perspective matrix from the window dimensions (fixed
/// point), with the fixed field of view and depth planes.
pub fn create_perspective_matrix(window_width: i64, window_height: i64) -> (m: Mat4)
    ensures
        m@ == spec_perspective_matrix(window_width as int, window_height as int),
{
    let aspect = fx_div(window_width, window_height);
    let tan_half = fx_div(sin_fx(HALF_FOV_RAD), cos_fx(HALF_FOV_RAD));
    Mat4 {
        m00: fx_div(FX_ONE, fx_mul(aspect, tan_half)),
        m01: 0,
        m02: 0,
        m03: 0,
        m10: 0,
        m11: fx_div(FX_ONE, tan_half),
        m12: 0,
        m13: 0,
        m20: 0,
        m21: 0,
        m22: fx_neg(fx_div(FAR_PLANE + NEAR_PLANE, FAR_PLANE - NEAR_PLANE)),
        m23: fx_neg(fx_div(fx_mul(2 * FX_ONE, fx_mul(FAR_PLANE, NEAR_PLANE)), FAR_PLANE - NEAR_PLANE)),
        m30: 0,
        m31: 0,
        m32: -FX_ONE,
        m33: 0,
    }
}

/// The viewport matrix: scales and offsets normalized device
/// coordinates into pixel space, flipping y.
pub open spec fn spec_viewport_matrix(width: int, height: int) -> SpecMat4 {
    SpecMat4 {
        m00: fx_mul_s(width, FX_HALF as int),
        m01: 0,
        m02: 0,
        m03: fx_mul_s(width, FX_HALF as int),
        m10: 0,
        m11: fx_neg_s(fx_mul_s(height, FX_HALF as int)),
        m12: 0,
        m13: fx_mul_s(height, FX_HALF as int),
        m20: 0,
        m21: 0,
        m22: FX_ONE as int,
        m23: 0,
        m30: 0,
        m31: 0,
        m32: 0,
        m33: FX_ONE as int,
    }
}

/// Builds the viewport matrix from the framebuffer dimensions (fixed
/// point).
pub fn create_viewport_matrix(width: i64, height: i64) -> (m: Mat4)
    ensures
        m@ == spec_viewport_matrix(width as int, height as int),
{
    let half_w = fx_mul(width, FX_HALF);
    let half_h = fx_mul(height, FX_HALF);
    Mat4 {
        m00: half_w,
        m01: 0,
        m02: 0,
        m03: half_w,
        m10: 0,
        m11: fx_neg(half_h),
        m12: 0,
        m13: half_h,
        m20: 0,
        m21: 0,
        m22: FX_ONE,
        m23: 0,
        m30: 0,
        m31: 0,
        m32: 0,
        m33: FX_ONE,
    }
}

} // verus!
