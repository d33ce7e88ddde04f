//! The per-frame uniform bundle shared by all shading calls of a frame.

use vstd::prelude::*;

use crate::mat4::Mat4;
use crate::noise::NoiseField;
use crate::vec3::Vec3;

verus! {

/// Read-only per-frame parameters: the transform stack, the frame
/// counter, the injected noise field, and the camera's world position.
pub struct Uniforms<N: NoiseField> {
    pub model_matrix: Mat4,
    pub view_matrix: Mat4,
    pub projection_matrix: Mat4,
    pub viewport_matrix: Mat4,
    pub time: u32,
    pub noise: N,
    pub camera_position: Vec3,
}

} // verus!
