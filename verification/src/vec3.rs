//! Fixed-point 3- and 4-component vectors.
//!
//! `Vec3`/`Vec4` carry 16.16 fixed-point coordinates; their views
//! `SpecVec3`/`SpecVec4` carry unbounded integers, and every operation's
//! contract equates the executable result's view with a spec-level
//! counterpart built from the saturating scalar model in [`crate::fx`].

use vstd::prelude::*;

use crate::fx::{
    fx_add, fx_add_s, fx_div, fx_div_s, fx_mul, fx_mul_s, fx_sub, fx_sub_s,
};
use crate::trig::{sqrt_fx, sqrt_fx_s};

verus! {

/// A texture coordinate with 16.16 fixed-point components.
#[derive(Clone, Copy, PartialEq, Eq, Structural, Debug)]
pub struct Vec2 {
    pub x: i64,
    pub y: i64,
}

impl Vec2 {
    /// Builds a coordinate pair from its components.
    pub fn new(x: i64, y: i64) -> (r: Vec2)
        ensures
            r == (Vec2 { x, y }),
    {
        Vec2 { x, y }
    }
}

/// A point or direction with 16.16 fixed-point components.
#[derive(Clone, Copy, PartialEq, Eq, Structural, Debug)]
pub struct Vec3 {
    pub x: i64,
    pub y: i64,
    pub z: i64,
}

/// The mathematical view of a [`Vec3`].
pub ghost struct SpecVec3 {
    pub x: int,
    pub y: int,
    pub z: int,
}

impl View for Vec3 {
    type V = SpecVec3;

    open spec fn view(&self) -> SpecVec3 {
        SpecVec3 { x: self.x as int, y: self.y as int, z: self.z as int }
    }
}

/// A homogeneous coordinate with 16.16 fixed-point components.
#[derive(Clone, Copy, PartialEq, Eq, Structural, Debug)]
pub struct Vec4 {
    pub x: i64,
    pub y: i64,
    pub z: i64,
    pub w: i64,
}

/// The mathematical view of a [`Vec4`].
pub ghost struct SpecVec4 {
    pub x: int,
    pub y: int,
    pub z: int,
    pub w: int,
}

impl View for Vec4 {
    type V = SpecVec4;

    open spec fn view(&self) -> SpecVec4 {
        SpecVec4 { x: self.x as int, y: self.y as int, z: self.z as int, w: self.w as int }
    }
}

pub open spec fn spec_v3_add(a: SpecVec3, b: SpecVec3) -> SpecVec3 {
    SpecVec3 { x: fx_add_s(a.x, b.x), y: fx_add_s(a.y, b.y), z: fx_add_s(a.z, b.z) }
}

pub open spec fn spec_v3_sub(a: SpecVec3, b: SpecVec3) -> SpecVec3 {
    SpecVec3 { x: fx_sub_s(a.x, b.x), y: fx_sub_s(a.y, b.y), z: fx_sub_s(a.z, b.z) }
}

pub open spec fn spec_v3_scale(v: SpecVec3, s: int) -> SpecVec3 {
    SpecVec3 { x: fx_mul_s(v.x, s), y: fx_mul_s(v.y, s), z: fx_mul_s(v.z, s) }
}

pub open spec fn spec_v3_dot(a: SpecVec3, b: SpecVec3) -> int {
    fx_add_s(fx_add_s(fx_mul_s(a.x, b.x), fx_mul_s(a.y, b.y)), fx_mul_s(a.z, b.z))
}

pub open spec fn spec_v3_cross(a: SpecVec3, b: SpecVec3) -> SpecVec3 {
    SpecVec3 {
        x: fx_sub_s(fx_mul_s(a.y, b.z), fx_mul_s(a.z, b.y)),
        y: fx_sub_s(fx_mul_s(a.z, b.x), fx_mul_s(a.x, b.z)),
        z: fx_sub_s(fx_mul_s(a.x, b.y), fx_mul_s(a.y, b.x)),
    }
}

/// Euclidean length: the fixed-point square root of the dot square.
pub open spec fn spec_v3_norm(v: SpecVec3) -> int {
    sqrt_fx_s(spec_v3_dot(v, v))
}

/// Normalization divides by the length; a zero (or saturated) length
/// degrades to the zero vector through the guarded division.
pub open spec fn spec_v3_normalize(v: SpecVec3) -> SpecVec3 {
    let n = spec_v3_norm(v);
    SpecVec3 { x: fx_div_s(v.x, n), y: fx_div_s(v.y, n), z: fx_div_s(v.z, n) }
}

/// Linear interpolation `a + (b - a) * t`, per component.
pub open spec fn spec_v3_lerp(a: SpecVec3, b: SpecVec3, t: int) -> SpecVec3 {
    SpecVec3 {
        x: fx_add_s(a.x, fx_mul_s(fx_sub_s(b.x, a.x), t)),
        y: fx_add_s(a.y, fx_mul_s(fx_sub_s(b.y, a.y), t)),
        z: fx_add_s(a.z, fx_mul_s(fx_sub_s(b.z, a.z), t)),
    }
}

impl Vec3 {
    /// Builds a vector from its components.
    pub fn new(x: i64, y: i64, z: i64) -> (r: Vec3)
        ensures
            r@ == (SpecVec3 { x: x as int, y: y as int, z: z as int }),
    {
        Vec3 { x, y, z }
    }

    /// The zero vector.
    pub fn zero() -> (r: Vec3)
        ensures
            r@ == (SpecVec3 { x: 0, y: 0, z: 0 }),
    {
        Vec3 { x: 0, y: 0, z: 0 }
    }

    /// Component-wise saturating addition.
    pub fn add(&self, other: &Vec3) -> (r: Vec3)
        ensures
            r@ == spec_v3_add(self@, other@),
    {
        Vec3 { x: fx_add(self.x, other.x), y: fx_add(self.y, other.y), z: fx_add(
            self.z,
            other.z,
        ) }
    }

    /// Component-wise saturating subtraction.
    pub fn sub(&self, other: &Vec3) -> (r: Vec3)
        ensures
            r@ == spec_v3_sub(self@, other@),
    {
        Vec3 { x: fx_sub(self.x, other.x), y: fx_sub(self.y, other.y), z: fx_sub(
            self.z,
            other.z,
        ) }
    }

    /// Scaling by a fixed-point factor.
    pub fn scale(&self, s: i64) -> (r: Vec3)
        ensures
            r@ == spec_v3_scale(self@, s as int),
    {
        Vec3 { x: fx_mul(self.x, s), y: fx_mul(self.y, s), z: fx_mul(self.z, s) }
    }

    /// Fixed-point dot product.
    pub fn dot(&self, other: &Vec3) -> (r: i64)
        ensures
            r == spec_v3_dot(self@, other@),
    {
        fx_add(
            fx_add(fx_mul(self.x, other.x), fx_mul(self.y, other.y)),
            fx_mul(self.z, other.z),
        )
    }

    /// Fixed-point cross product.
    pub fn cross(&self, other: &Vec3) -> (r: Vec3)
        ensures
            r@ == spec_v3_cross(self@, other@),
    {
        Vec3 {
            x: fx_sub(fx_mul(self.y, other.z), fx_mul(self.z, other.y)),
            y: fx_sub(fx_mul(self.z, other.x), fx_mul(self.x, other.z)),
            z: fx_sub(fx_mul(self.x, other.y), fx_mul(self.y, other.x)),
        }
    }

    /// Euclidean length.
    pub fn norm(&self) -> (r: i64)
        ensures
            r == spec_v3_norm(self@),
            r >= 0,
    {
        let d = self.dot(self);
        sqrt_fx(d)
    }

    /// Unit vector in the same direction; the zero vector stays zero.
    pub fn normalize(&self) -> (r: Vec3)
        ensures
            r@ == spec_v3_normalize(self@),
    {
        let n = self.norm();
        Vec3 { x: fx_div(self.x, n), y: fx_div(self.y, n), z: fx_div(self.z, n) }
    }

    /// Linear interpolation toward `other` by the fixed-point factor `t`.
    pub fn lerp(&self, other: &Vec3, t: i64) -> (r: Vec3)
        ensures
            r@ == spec_v3_lerp(self@, other@, t as int),
    {
        Vec3 {
            x: fx_add(self.x, fx_mul(fx_sub(other.x, self.x), t)),
            y: fx_add(self.y, fx_mul(fx_sub(other.y, self.y), t)),
            z: fx_add(self.z, fx_mul(fx_sub(other.z, self.z), t)),
        }
    }
}

impl Vec4 {
    /// Builds a homogeneous coordinate from its components.
    pub fn new(x: i64, y: i64, z: i64, w: i64) -> (r: Vec4)
        ensures
            r@ == (SpecVec4 { x: x as int, y: y as int, z: z as int, w: w as int }),
    {
        Vec4 { x, y, z, w }
    }

    /// Drops the homogeneous coordinate.
    pub fn xyz(&self) -> (r: Vec3)
        ensures
            r@ == (SpecVec3 { x: self@.x, y: self@.y, z: self@.z }),
    {
        Vec3 { x: self.x, y: self.y, z: self.z }
    }
}

} // verus!
