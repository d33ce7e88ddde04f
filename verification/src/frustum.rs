//! The frustum culler: a coarse per-object visibility predicate.
//!
//! An object is rejected when its distance lies outside `[near, far]`;
//! otherwise it is visible exactly when the angle between the camera's
//! forward vector and the direction to the object fits within half the
//! field of view plus an angular allowance `asin(radius / distance)`,
//! which widens the effective cone for larger or nearer objects.

use vstd::prelude::*;

use vstd::arithmetic::div_mod::{lemma_div_is_ordered, lemma_div_pos_is_pos};

use crate::fx::{
    fx_add, fx_add_s, fx_div, fx_div_s, fx_min, fx_min_s, fx_mul, fx_mul_s, FX_ONE, FX_PI,
};
use crate::trig::{acos_fx, acos_s, asin_fx, asin_s, lemma_asin_unit_mono};
use crate::vec3::{spec_v3_dot, spec_v3_norm, spec_v3_normalize, spec_v3_sub, SpecVec3, Vec3};

verus! {

/// The camera's viewing volume parameters: field of view in fixed-point
/// degrees, near and far plane distances, and the aspect ratio.
#[derive(Clone, Copy, PartialEq, Eq, Structural, Debug)]
pub struct Frustum {
    pub fov: i64,
    pub near: i64,
    pub far: i64,
    pub aspect: i64,
}

/// Half the field of view, converted from fixed-point degrees to
/// radians: `fov * pi / 360`.
pub open spec fn spec_half_fov_rad(fov: int) -> int {
    fx_div_s(fx_mul_s(fov, FX_PI as int), 360 * FX_ONE)
}

/// The angular allowance for an object of `radius` at `dist`: the
/// arcsine of their ratio, capped at a quarter turn.
pub open spec fn spec_allowance(radius: int, dist: int) -> int {
    asin_s(fx_min_s(FX_ONE as int, fx_div_s(radius, dist)))
}

/// The visibility predicate: distance inside `[near, far]`, and the
/// angle to the object within the widened half-cone.
pub open spec fn spec_is_visible(
    frustum: Frustum,
    camera_pos: SpecVec3,
    camera_forward: SpecVec3,
    object_pos: SpecVec3,
    object_radius: int,
) -> bool {
    let to_object = spec_v3_sub(object_pos, camera_pos);
    let dist = spec_v3_norm(to_object);
    if dist < frustum.near || dist > frustum.far {
        false
    } else {
        let direction = spec_v3_normalize(to_object);
        let angle = acos_s(spec_v3_dot(camera_forward, direction));
        let apparent = fx_add_s(
            spec_half_fov_rad(frustum.fov as int),
            spec_allowance(object_radius, dist),
        );
        angle <= apparent
    }
}

impl Frustum {
    /// A frustum from its parameters.
    pub fn new(fov: i64, near: i64, far: i64, aspect: i64) -> (f: Frustum)
        ensures
            f == (Frustum { fov, near, far, aspect }),
    {
        Frustum { fov, near, far, aspect }
    }

    /// Tests whether an object at `object_pos` with the given apparent
    /// radius lies inside the camera's effective viewing cone.
    pub fn is_visible(
        &self,
        camera_pos: &Vec3,
        camera_forward: &Vec3,
        object_pos: &Vec3,
        object_radius: i64,
    ) -> (visible: bool)
        ensures
            visible == spec_is_visible(
                *self,
                camera_pos@,
                camera_forward@,
                object_pos@,
                object_radius as int,
            ),
    {
        let to_object = object_pos.sub(camera_pos);
        let dist = to_object.norm();
        if dist < self.near || dist > self.far {
            return false;
        }
        let direction = to_object.normalize();
        let angle = acos_fx(camera_forward.dot(&direction));
        let half_fov = fx_div(fx_mul(self.fov, FX_PI), 360 * FX_ONE);
        let allowance = asin_fx(fx_min(FX_ONE, fx_div(object_radius, dist)));
        let apparent = fx_add(half_fov, allowance);
        angle <= apparent
    }
}

/// Frustum visibility is monotonic in apparent size: for a fixed
/// distance and angle, increasing the radius never makes a visible
/// object invisible.
pub proof fn lemma_visibility_monotonic(
    frustum: Frustum,
    camera_pos: SpecVec3,
    camera_forward: SpecVec3,
    object_pos: SpecVec3,
    r1: int,
    r2: int,
)
    requires
        0 <= r1 <= r2,
        spec_is_visible(frustum, camera_pos, camera_forward, object_pos, r1),
    ensures
        spec_is_visible(frustum, camera_pos, camera_forward, object_pos, r2),
{
    let to_object = spec_v3_sub(object_pos, camera_pos);
    let dist = spec_v3_norm(to_object);
    assert(!(dist < frustum.near || dist > frustum.far));
    assert(dist >= 0);
    let q1 = fx_div_s(r1, dist);
    let q2 = fx_div_s(r2, dist);
    assert(0 <= q1 <= q2) by {
        if dist == 0 {
        } else {
            assert(r1 * FX_ONE <= r2 * FX_ONE) by (nonlinear_arith)
                requires
                    r1 <= r2,
                    FX_ONE > 0,
            ;
            assert(r1 * FX_ONE >= 0) by (nonlinear_arith)
                requires
                    r1 >= 0,
                    FX_ONE > 0,
            ;
            lemma_div_is_ordered(r1 * FX_ONE, r2 * FX_ONE, dist);
            lemma_div_pos_is_pos(r1 * FX_ONE, dist);
        }
    };
    let c1 = fx_min_s(FX_ONE as int, q1);
    let c2 = fx_min_s(FX_ONE as int, q2);
    assert(0 <= c1 <= c2 <= FX_ONE);
    lemma_asin_unit_mono(c1, c2);
}

} // verus!
