//! Fragments: candidate pixels produced by rasterizing one triangle.

use vstd::prelude::*;

use crate::color::Color;
use crate::fx::{fx_max_s, FX_ONE};
use crate::vec3::{spec_v3_dot, spec_v3_normalize, SpecVec3, Vec3};

verus! {

/// A candidate pixel with interpolated attributes: integer screen
/// position, fixed-point depth, interpolated normal, interpolated
/// model-space position (so surface patterns stay stable under camera
/// motion), interpolated base color, and a diffuse intensity.
#[derive(Clone, Copy, PartialEq, Eq, Structural, Debug)]
pub struct Fragment {
    pub x: usize,
    pub y: usize,
    pub depth: i64,
    pub normal: Vec3,
    pub vertex_position: Vec3,
    pub color: Color,
    pub intensity: i64,
}

/// The fixed light direction that diffuse intensity is measured against.
pub open spec fn spec_light_dir() -> SpecVec3 {
    SpecVec3 { x: 0, y: 0, z: FX_ONE as int }
}

/// Diffuse intensity of a fragment: `max(0, normal_hat . light)` where
/// `normal_hat` is the interpolated normal, normalized.
pub open spec fn spec_intensity(normal: SpecVec3) -> int {
    fx_max_s(0, spec_v3_dot(spec_v3_normalize(normal), spec_light_dir()))
}

} // verus!
