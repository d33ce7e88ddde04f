//! Vertex records carried through the pipeline stages.

use vstd::prelude::*;

use crate::color::Color;
use crate::vec3::{Vec2, Vec3};

verus! {

/// A mesh vertex: model-space attributes, plus the screen-space position
/// and transformed normal that vertex shading derives (never an
/// accumulating mutation — the vertex shader returns a fresh record).
#[derive(Clone, Copy, PartialEq, Eq, Structural, Debug)]
pub struct Vertex {
    pub position: Vec3,
    pub normal: Vec3,
    pub tex_coords: Vec2,
    pub color: Color,
    pub transformed_position: Vec3,
    pub transformed_normal: Vec3,
}

impl Vertex {
    /// A vertex from its model-space attributes; the derived fields start
    /// equal to the model-space ones until vertex shading replaces them.
    pub fn new(position: Vec3, normal: Vec3, tex_coords: Vec2, color: Color) -> (v: Vertex)
        ensures
            v == (Vertex {
                position,
                normal,
                tex_coords,
                color,
                transformed_position: position,
                transformed_normal: normal,
            }),
    {
        Vertex {
            position,
            normal,
            tex_coords,
            color,
            transformed_position: position,
            transformed_normal: normal,
        }
    }
}

} // verus!
