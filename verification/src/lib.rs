//! A software 3D renderer for a procedurally shaded planetary scene.
//!
//! The pipeline transforms mesh vertices through model/view/projection/
//! viewport stages, assembles and rasterizes triangles into per-pixel
//! fragments, depth-tests and composites those fragments, and shades each
//! object kind procedurally from layered coherent noise.  All scalar
//! quantities are 16.16 fixed-point integers (see [`fx`]), so every stage
//! is total and verified: malformed input degrades to fewer or zero
//! fragments, never a crash.

pub mod body;
pub mod camera;
pub mod color;
pub mod fragment;
pub mod framebuffer;
pub mod frustum;
pub mod fx;
pub mod mat4;
pub mod noise;
pub mod pipeline;
pub mod planet_type;
pub mod raster;
pub mod shaders;
pub mod skybox;
pub mod transform;
pub mod trig;
pub mod uniforms;
pub mod vec3;
pub mod vertex;
