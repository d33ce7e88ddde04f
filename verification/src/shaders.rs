//! The vertex shader and the procedural shading model.
//!
//! `fragment_shader` is a pure dispatch over the closed tag set.  Each
//! body's shader splits in two: a sampling half that asks the injected
//! noise field for one or two values at tag-specific frequencies, and a
//! pure half (`*_color`) that maps fragment, time and samples to a color
//! with an exact contract.  The sampling half promises that its result is
//! the pure half applied to some in-range samples — all that can be said
//! of an injected field beyond its range.

use vstd::prelude::*;

use crate::color::{spec_color_lerp, spec_color_scale, Color};
use crate::fragment::Fragment;
use crate::fx::{
    abs_s, fx_abs, fx_add, fx_add_s, fx_div, fx_div_s, fx_max, fx_max_s, fx_min, fx_min_s,
    fx_mul, fx_mul_s, fx_sat_s, fx_sub, fx_sub_s, FX_HALF, FX_ONE,
};
use crate::mat4::{normal_matrix, spec_m3_mul_vec3, spec_m4_mul, spec_m4_mul_vec4, spec_normal_matrix};
use crate::noise::NoiseField;
use crate::planet_type::PlanetType;
use crate::trig::{atan2_fx, atan2_s, sin_fx, sin_s, sqrt_fx, sqrt_fx_s};
use crate::uniforms::Uniforms;
use crate::vec3::{SpecVec3, SpecVec4, Vec3, Vec4};
use crate::vertex::Vertex;

verus! {

/// The vertex after shading: clip position from the
/// projection-view-model product, perspective divide by `w` (guarded:
/// zero `w` degrades to zero coordinates), viewport mapping, and the
/// normal taken through the inverse-transpose of the model's
/// rotation/scale block (identity when singular).
pub open spec fn spec_vertex_shader(
    vertex: Vertex,
    model: crate::mat4::SpecMat4,
    view: crate::mat4::SpecMat4,
    projection: crate::mat4::SpecMat4,
    viewport: crate::mat4::SpecMat4,
) -> Vertex {
    let pos4 = SpecVec4 {
        x: vertex.position@.x,
        y: vertex.position@.y,
        z: vertex.position@.z,
        w: FX_ONE as int,
    };
    let clip = spec_m4_mul_vec4(spec_m4_mul(spec_m4_mul(projection, view), model), pos4);
    let ndc = SpecVec4 {
        x: fx_div_s(clip.x, clip.w),
        y: fx_div_s(clip.y, clip.w),
        z: fx_div_s(clip.z, clip.w),
        w: FX_ONE as int,
    };
    let screen = spec_m4_mul_vec4(viewport, ndc);
    let tn = spec_m3_mul_vec3(spec_normal_matrix(model), vertex.normal@);
    Vertex {
        position: vertex.position,
        normal: vertex.normal,
        tex_coords: vertex.tex_coords,
        color: vertex.color,
        transformed_position: Vec3 { x: screen.x as i64, y: screen.y as i64, z: screen.z as i64 },
        transformed_normal: Vec3 { x: tn.x as i64, y: tn.y as i64, z: tn.z as i64 },
    }
}

/// Transforms one vertex through the model/view/projection/viewport
/// stages and derives its screen position and transformed normal.
pub fn vertex_shader<N: NoiseField>(vertex: &Vertex, uniforms: &Uniforms<N>) -> (r: Vertex)
    ensures
        r == spec_vertex_shader(
            *vertex,
            uniforms.model_matrix@,
            uniforms.view_matrix@,
            uniforms.projection_matrix@,
            uniforms.viewport_matrix@,
        ),
{
    let pos4 = Vec4 {
        x: vertex.position.x,
        y: vertex.position.y,
        z: vertex.position.z,
        w: FX_ONE,
    };
    let pv = uniforms.projection_matrix.mul_mat(&uniforms.view_matrix);
    let pvm = pv.mul_mat(&uniforms.model_matrix);
    let clip = pvm.mul_vec4(&pos4);
    let ndc = Vec4 {
        x: fx_div(clip.x, clip.w),
        y: fx_div(clip.y, clip.w),
        z: fx_div(clip.z, clip.w),
        w: FX_ONE,
    };
    let screen = uniforms.viewport_matrix.mul_vec4(&ndc);
    let nmat = normal_matrix(&uniforms.model_matrix);
    let tn = nmat.mul_vec3(&vertex.normal);
    Vertex {
        position: vertex.position,
        normal: vertex.normal,
        tex_coords: vertex.tex_coords,
        color: vertex.color,
        transformed_position: Vec3 { x: screen.x, y: screen.y, z: screen.z },
        transformed_normal: tn,
    }
}

/// Composites a cloud layer over a base layer: when the overlay's mean
/// channel value exceeds the fixed threshold (0.3 of full scale), the
/// base moves toward the overlay at the fixed weight 0.7; otherwise the
/// base passes through unchanged.
pub open spec fn spec_blend_layers(base: Color, clouds: Color) -> Color {
    if clouds.r as int + clouds.g as int + clouds.b as int > 229 {
        spec_color_lerp(base, clouds, 45875)
    } else {
        base
    }
}

/// Layer compositing: blend toward a bright-enough overlay, else keep
/// the base.  An overlay whose mean channel value is at or below 0.3 of
/// full scale leaves the base unchanged.
pub fn blend_layers(base: Color, clouds: Color) -> (c: Color)
    ensures
        c == spec_blend_layers(base, clouds),
        clouds.r as int + clouds.g as int + clouds.b as int <= 229 ==> c == base,
{
    let sum: u32 = clouds.r as u32 + clouds.g as u32 + clouds.b as u32;
    if sum > 229 {
        base.lerp(&clouds, 45875)
    } else {
        base
    }
}

/// The cloud layer's color: white scaled by the coverage past the cloud
/// threshold times the diffuse intensity.
pub open spec fn spec_cloud_color(intensity: int, nv: int) -> Color {
    let factor = if nv > 6554 {
        fx_min_s(FX_ONE as int, fx_div_s(fx_sub_s(nv, 6554), 58982))
    } else {
        0
    };
    spec_color_scale(Color { r: 255, g: 255, b: 255 }, fx_mul_s(factor, intensity))
}

/// The pure half of the cloud shader.
pub fn cloud_color(intensity: i64, nv: i64) -> (c: Color)
    ensures
        c == spec_cloud_color(intensity as int, nv as int),
{
    let factor: i64 = if nv > 6554 {
        fx_min(FX_ONE, fx_div(fx_sub(nv, 6554), 58982))
    } else {
        0
    };
    Color { r: 255, g: 255, b: 255 }.scale(fx_mul(factor, intensity))
}

/// Samples the time-scrolling cloud field once and shades the fragment.
pub fn cloud_shader<N: NoiseField>(fragment: &Fragment, uniforms: &Uniforms<N>) -> (c: Color)
    ensures
        exists|nv: int|
            -FX_ONE <= nv <= FX_ONE && c == spec_cloud_color(fragment.intensity as int, nv),
{
    let t = fx_mul((uniforms.time as i64) * FX_ONE, 6554);
    let nx = fx_add(fx_add(fx_mul(fragment.vertex_position.x, 6553600), 6553600), t);
    let ny = fx_add(fx_mul(fragment.vertex_position.y, 6553600), 6553600);
    let nv = uniforms.noise.get_noise_2d(nx, ny);
    let c = cloud_color(fragment.intensity, nv);
    proof {
        assert(c == spec_cloud_color(fragment.intensity as int, nv as int));
    }
    c
}

/// The emissive body's color: two offset samples averaged, lifted and
/// capped, blended from dark to bright, intensity boosted by 1.2.
pub open spec fn spec_lava_color(f: Fragment, n1: int, n2: int) -> Color {
    let nv = fx_min_s(FX_ONE as int, fx_add_s(fx_mul_s(fx_add_s(n1, n2), FX_HALF as int), 13107));
    spec_color_scale(
        spec_color_lerp(Color { r: 255, g: 140, b: 0 }, Color { r: 255, g: 255, b: 100 }, nv),
        fx_mul_s(f.intensity as int, 78643),
    )
}

/// The pure half of the emissive-body shader.
pub fn lava_color(fragment: &Fragment, n1: i64, n2: i64) -> (c: Color)
    ensures
        c == spec_lava_color(*fragment, n1 as int, n2 as int),
{
    let nv = fx_min(FX_ONE, fx_add(fx_mul(fx_add(n1, n2), FX_HALF), 13107));
    let dark = Color { r: 255, g: 140, b: 0 };
    let bright = Color { r: 255, g: 255, b: 100 };
    dark.lerp(&bright, nv).scale(fx_mul(fragment.intensity, 78643))
}

/// Samples the hot field twice, with a sinusoidal time perturbation of
/// the sampling coordinate, and shades the fragment.
pub fn lava_shader<N: NoiseField>(fragment: &Fragment, uniforms: &Uniforms<N>) -> (c: Color)
    ensures
        exists|n1: int, n2: int|
            -FX_ONE <= n1 <= FX_ONE && -FX_ONE <= n2 <= FX_ONE && c == spec_lava_color(
                *fragment,
                n1,
                n2,
            ),
{
    let px = fragment.vertex_position.x;
    let py = fragment.vertex_position.y;
    let pz = fragment.depth;
    let t = fx_mul((uniforms.time as i64) * FX_ONE, 1311);
    let pulsate = fx_mul(sin_fx(fx_mul(t, 26214)), 52429);
    let n1 = uniforms.noise.get_noise_3d(
        fx_mul(px, 52428800),
        fx_mul(py, 52428800),
        fx_mul(fx_add(pz, pulsate), 52428800),
    );
    let n2 = uniforms.noise.get_noise_3d(
        fx_mul(fx_add(px, 65536000), 52428800),
        fx_mul(fx_add(py, 65536000), 52428800),
        fx_mul(fx_add(fx_add(pz, 65536000), pulsate), 52428800),
    );
    let c = lava_color(fragment, n1, n2);
    proof {
        assert(c == spec_lava_color(*fragment, n1 as int, n2 as int));
    }
    c
}

/// The terrestrial body's land/ocean color: the sample's magnitude is
/// thresholded with a soft transition band, an atmosphere rim follows
/// from the normal, and the diffuse intensity scales the result.
pub open spec fn spec_earth_color(f: Fragment, n: int) -> Color {
    let nv = fx_sat_s(abs_s(n));
    let land_factor = if nv < 26214 {
        0
    } else if nv > 39322 {
        FX_ONE as int
    } else {
        fx_div_s(fx_sub_s(nv, 26214), 13107)
    };
    let base = spec_color_lerp(
        Color { r: 25, g: 80, b: 180 },
        Color { r: 50, g: 160, b: 80 },
        land_factor,
    );
    let nd = crate::vec3::spec_v3_dot(f.normal@, SpecVec3 { x: 0, y: 0, z: FX_ONE as int });
    let rim = fx_sub_s(FX_ONE as int, fx_sat_s(abs_s(nd)));
    let atmosphere_factor = fx_mul_s(rim, rim);
    let blended = spec_color_lerp(
        base,
        Color { r: 150, g: 200, b: 255 },
        fx_mul_s(atmosphere_factor, 26214),
    );
    spec_color_scale(blended, f.intensity as int)
}

/// The pure half of the terrestrial shader.
pub fn earth_color(fragment: &Fragment, n: i64) -> (c: Color)
    ensures
        c == spec_earth_color(*fragment, n as int),
{
    let nv = fx_abs(n);
    let land_factor: i64 = if nv < 26214 {
        0
    } else if nv > 39322 {
        FX_ONE
    } else {
        fx_div(fx_sub(nv, 26214), 13107)
    };
    let ocean = Color { r: 25, g: 80, b: 180 };
    let land = Color { r: 50, g: 160, b: 80 };
    let base = ocean.lerp(&land, land_factor);
    let nd = fragment.normal.dot(&Vec3 { x: 0, y: 0, z: FX_ONE });
    let rim = fx_sub(FX_ONE, fx_abs(nd));
    let atmosphere_factor = fx_mul(rim, rim);
    let atmosphere = Color { r: 150, g: 200, b: 255 };
    let blended = base.lerp(&atmosphere, fx_mul(atmosphere_factor, 26214));
    blended.scale(fragment.intensity)
}

/// Samples the continent field once and shades the fragment.
pub fn earth_shader<N: NoiseField>(fragment: &Fragment, uniforms: &Uniforms<N>) -> (c: Color)
    ensures
        exists|n: int| -FX_ONE <= n <= FX_ONE && c == spec_earth_color(*fragment, n),
{
    let n = uniforms.noise.get_noise_3d(
        fx_mul(fragment.vertex_position.x, 16384000),
        fx_mul(fragment.vertex_position.y, 16384000),
        fx_mul(fragment.depth, 16384000),
    );
    let c = earth_color(fragment, n);
    proof {
        assert(c == spec_earth_color(*fragment, n as int));
    }
    c
}

/// A cratered rocky body's color: terrain blend darkened where the
/// crater sample exceeds its threshold.
pub open spec fn spec_cratered_color(
    f: Fragment,
    dark: Color,
    light: Color,
    crater: Color,
    terrain_raw: int,
    craters_raw: int,
) -> Color {
    let terrain = fx_sat_s(abs_s(terrain_raw));
    let craters = fx_sat_s(abs_s(craters_raw));
    let base = spec_color_lerp(dark, light, terrain);
    let shaded = if craters > 45875 {
        spec_color_lerp(base, crater, FX_HALF as int)
    } else {
        base
    };
    spec_color_scale(shaded, f.intensity as int)
}

/// The pure half of the cratered-terrain shaders.
pub fn cratered_color(
    fragment: &Fragment,
    dark: Color,
    light: Color,
    crater: Color,
    terrain_raw: i64,
    craters_raw: i64,
) -> (c: Color)
    ensures
        c == spec_cratered_color(
            *fragment,
            dark,
            light,
            crater,
            terrain_raw as int,
            craters_raw as int,
        ),
{
    let terrain = fx_abs(terrain_raw);
    let craters = fx_abs(craters_raw);
    let base = dark.lerp(&light, terrain);
    let shaded = if craters > 45875 {
        base.lerp(&crater, FX_HALF)
    } else {
        base
    };
    shaded.scale(fragment.intensity)
}

/// Samples terrain and crater fields and shades the innermost rocky
/// body.
pub fn mercury_shader<N: NoiseField>(fragment: &Fragment, uniforms: &Uniforms<N>) -> (c: Color)
    ensures
        exists|t: int, cr: int|
            -FX_ONE <= t <= FX_ONE && -FX_ONE <= cr <= FX_ONE && c == spec_cratered_color(
                *fragment,
                Color { r: 80, g: 75, b: 70 },
                Color { r: 170, g: 160, b: 150 },
                Color { r: 60, g: 55, b: 50 },
                t,
                cr,
            ),
{
    let p = fragment.vertex_position;
    let terrain = uniforms.noise.get_noise_3d(
        fx_mul(p.x, 19660800),
        fx_mul(p.y, 19660800),
        fx_mul(p.z, 19660800),
    );
    let craters = uniforms.noise.get_noise_3d(
        fx_mul(p.x, 39321600),
        fx_mul(p.y, 39321600),
        fx_mul(p.z, 39321600),
    );
    let c = cratered_color(
        fragment,
        Color { r: 80, g: 75, b: 70 },
        Color { r: 170, g: 160, b: 150 },
        Color { r: 60, g: 55, b: 50 },
        terrain,
        craters,
    );
    proof {
        assert(c == spec_cratered_color(
            *fragment,
            Color { r: 80, g: 75, b: 70 },
            Color { r: 170, g: 160, b: 150 },
            Color { r: 60, g: 55, b: 50 },
            terrain as int,
            craters as int,
        ));
    }
    c
}

/// Samples terrain and crater fields and shades the moon.
pub fn moon_shader<N: NoiseField>(fragment: &Fragment, uniforms: &Uniforms<N>) -> (c: Color)
    ensures
        exists|t: int, cr: int|
            -FX_ONE <= t <= FX_ONE && -FX_ONE <= cr <= FX_ONE && c == spec_cratered_color(
                *fragment,
                Color { r: 100, g: 100, b: 100 },
                Color { r: 200, g: 200, b: 200 },
                Color { r: 80, g: 80, b: 80 },
                t,
                cr,
            ),
{
    let p = fragment.vertex_position;
    let terrain = uniforms.noise.get_noise_3d(
        fx_mul(p.x, 26214400),
        fx_mul(p.y, 26214400),
        fx_mul(p.z, 26214400),
    );
    let craters = uniforms.noise.get_noise_3d(
        fx_mul(p.x, 52428800),
        fx_mul(p.y, 52428800),
        fx_mul(p.z, 52428800),
    );
    let c = cratered_color(
        fragment,
        Color { r: 100, g: 100, b: 100 },
        Color { r: 200, g: 200, b: 200 },
        Color { r: 80, g: 80, b: 80 },
        terrain,
        craters,
    );
    proof {
        assert(c == spec_cratered_color(
            *fragment,
            Color { r: 100, g: 100, b: 100 },
            Color { r: 200, g: 200, b: 200 },
            Color { r: 80, g: 80, b: 80 },
            terrain as int,
            craters as int,
        ));
    }
    c
}

/// The veiled body's color: moving cloud blend under a dense-atmosphere
/// rim driven by the square root of the facing term.
pub open spec fn spec_venus_color(f: Fragment, clouds_raw: int) -> Color {
    let clouds = fx_sat_s(abs_s(clouds_raw));
    let blended = spec_color_lerp(
        Color { r: 230, g: 180, b: 50 },
        Color { r: 255, g: 198, b: 88 },
        clouds,
    );
    let nd = crate::vec3::spec_v3_dot(f.normal@, SpecVec3 { x: 0, y: 0, z: FX_ONE as int });
    let atmosphere_factor = sqrt_fx_s(fx_sub_s(FX_ONE as int, nd));
    spec_color_scale(
        spec_color_lerp(
            blended,
            Color { r: 255, g: 220, b: 150 },
            fx_mul_s(atmosphere_factor, 19661),
        ),
        f.intensity as int,
    )
}

/// The pure half of the veiled-body shader.
pub fn venus_color(fragment: &Fragment, clouds_raw: i64) -> (c: Color)
    ensures
        c == spec_venus_color(*fragment, clouds_raw as int),
{
    let clouds = fx_abs(clouds_raw);
    let base = Color { r: 230, g: 180, b: 50 };
    let cloud = Color { r: 255, g: 198, b: 88 };
    let blended = base.lerp(&cloud, clouds);
    let nd = fragment.normal.dot(&Vec3 { x: 0, y: 0, z: FX_ONE });
    let atmosphere_factor = sqrt_fx(fx_sub(FX_ONE, nd));
    let atmosphere = Color { r: 255, g: 220, b: 150 };
    blended.lerp(&atmosphere, fx_mul(atmosphere_factor, 19661)).scale(fragment.intensity)
}

/// Samples the moving cloud field once and shades the veiled body.
pub fn venus_shader<N: NoiseField>(fragment: &Fragment, uniforms: &Uniforms<N>) -> (c: Color)
    ensures
        exists|n: int| -FX_ONE <= n <= FX_ONE && c == spec_venus_color(*fragment, n),
{
    let p = fragment.vertex_position;
    let t = fx_mul((uniforms.time as i64) * FX_ONE, 3277);
    let n = uniforms.noise.get_noise_3d(
        fx_add(fx_mul(p.x, 9830400), t),
        fx_mul(p.y, 9830400),
        fx_mul(p.z, 9830400),
    );
    let c = venus_color(fragment, n);
    proof {
        assert(c == spec_venus_color(*fragment, n as int));
    }
    c
}

/// The red body's color: terrain blend dusted by a second sample.
pub open spec fn spec_mars_color(f: Fragment, terrain_raw: int, dust_raw: int) -> Color {
    let terrain = fx_sat_s(abs_s(terrain_raw));
    let dust = fx_sat_s(abs_s(dust_raw));
    let base = spec_color_lerp(
        Color { r: 145, g: 50, b: 20 },
        Color { r: 200, g: 80, b: 30 },
        terrain,
    );
    spec_color_scale(
        spec_color_lerp(base, Color { r: 230, g: 130, b: 50 }, fx_mul_s(dust, 19661)),
        f.intensity as int,
    )
}

/// The pure half of the red-body shader.
pub fn mars_color(fragment: &Fragment, terrain_raw: i64, dust_raw: i64) -> (c: Color)
    ensures
        c == spec_mars_color(*fragment, terrain_raw as int, dust_raw as int),
{
    let terrain = fx_abs(terrain_raw);
    let dust = fx_abs(dust_raw);
    let dark = Color { r: 145, g: 50, b: 20 };
    let light = Color { r: 200, g: 80, b: 30 };
    let dust_color = Color { r: 230, g: 130, b: 50 };
    dark.lerp(&light, terrain).lerp(&dust_color, fx_mul(dust, 19661)).scale(fragment.intensity)
}

/// Samples terrain and dust fields and shades the red body.
pub fn mars_shader<N: NoiseField>(fragment: &Fragment, uniforms: &Uniforms<N>) -> (c: Color)
    ensures
        exists|t: int, d: int|
            -FX_ONE <= t <= FX_ONE && -FX_ONE <= d <= FX_ONE && c == spec_mars_color(
                *fragment,
                t,
                d,
            ),
{
    let p = fragment.vertex_position;
    let terrain = uniforms.noise.get_noise_3d(
        fx_mul(p.x, 16384000),
        fx_mul(p.y, 16384000),
        fx_mul(p.z, 16384000),
    );
    let dust = uniforms.noise.get_noise_3d(
        fx_mul(p.x, 26214400),
        fx_mul(p.y, 26214400),
        fx_mul(p.z, 26214400),
    );
    let c = mars_color(fragment, terrain, dust);
    proof {
        assert(c == spec_mars_color(*fragment, terrain as int, dust as int));
    }
    c
}

/// The banded giant's color: horizontal bands stormed by a turbulence
/// sample.
pub open spec fn spec_jupiter_color(f: Fragment, bands_raw: int, turb_raw: int) -> Color {
    let bands = fx_sat_s(abs_s(bands_raw));
    let turbulence = fx_sat_s(abs_s(turb_raw));
    let base = spec_color_lerp(
        Color { r: 180, g: 140, b: 100 },
        Color { r: 255, g: 220, b: 180 },
        bands,
    );
    spec_color_scale(
        spec_color_lerp(base, Color { r: 255, g: 160, b: 120 }, fx_mul_s(turbulence, 19661)),
        f.intensity as int,
    )
}

/// The pure half of the banded-giant shader.
pub fn jupiter_color(fragment: &Fragment, bands_raw: i64, turb_raw: i64) -> (c: Color)
    ensures
        c == spec_jupiter_color(*fragment, bands_raw as int, turb_raw as int),
{
    let bands = fx_abs(bands_raw);
    let turbulence = fx_abs(turb_raw);
    let dark = Color { r: 180, g: 140, b: 100 };
    let light = Color { r: 255, g: 220, b: 180 };
    let storm = Color { r: 255, g: 160, b: 120 };
    dark.lerp(&light, bands).lerp(&storm, fx_mul(turbulence, 19661)).scale(fragment.intensity)
}

/// Samples band and turbulence fields and shades the banded giant.
pub fn jupiter_shader<N: NoiseField>(fragment: &Fragment, uniforms: &Uniforms<N>) -> (c: Color)
    ensures
        exists|b: int, t: int|
            -FX_ONE <= b <= FX_ONE && -FX_ONE <= t <= FX_ONE && c == spec_jupiter_color(
                *fragment,
                b,
                t,
            ),
{
    let p = fragment.vertex_position;
    let t = fx_mul((uniforms.time as i64) * FX_ONE, 6554);
    let bands = uniforms.noise.get_noise_2d(fx_mul(p.y, 6553600), t);
    let turbulence = uniforms.noise.get_noise_3d(
        fx_add(fx_mul(p.x, 19660800), t),
        fx_mul(p.y, 19660800),
        fx_mul(p.z, 19660800),
    );
    let c = jupiter_color(fragment, bands, turbulence);
    proof {
        assert(c == spec_jupiter_color(*fragment, bands as int, turbulence as int));
    }
    c
}

/// The radial distance of the fragment's model-space position from the
/// body's axis.
pub open spec fn spec_axis_radius(f: Fragment) -> int {
    sqrt_fx_s(
        fx_add_s(
            fx_mul_s(f.vertex_position@.x, f.vertex_position@.x),
            fx_mul_s(f.vertex_position@.z, f.vertex_position@.z),
        ),
    )
}

/// Whether the fragment lies in the ringed body's ring band: radial
/// distance inside the inner/outer radii and a thin vertical slab.
pub open spec fn spec_in_ring(f: Fragment) -> bool {
    let radius = spec_axis_radius(f);
    &&& radius >= 78643
    &&& radius <= 163840
    &&& fx_sat_s(abs_s(f.vertex_position@.y)) <= 6554
}

/// The ringed body's color: inside the ring band, a concentric sine
/// pattern with sampled detail and a light-direction falloff; elsewhere,
/// time-scrolled bands.
pub open spec fn spec_saturn_color(f: Fragment, sample_raw: int) -> Color {
    if spec_in_ring(f) {
        let radius = spec_axis_radius(f);
        let ring_pattern = fx_sat_s(
            abs_s(fx_add_s(fx_mul_s(sin_s(fx_mul_s(radius, 1310720)), FX_HALF as int), FX_HALF as int)),
        );
        let detail = fx_sat_s(abs_s(sample_raw));
        let ring_factor = fx_add_s(fx_mul_s(ring_pattern, 45875), fx_mul_s(detail, 19661));
        let ring_color = spec_color_lerp(
            Color { r: 210, g: 190, b: 170 },
            Color { r: 160, g: 140, b: 120 },
            ring_factor,
        );
        let light_factor = fx_max_s(
            13107,
            fx_sat_s(
                abs_s(
                    crate::vec3::spec_v3_dot(f.normal@, SpecVec3 { x: 0, y: FX_ONE as int, z: 0 }),
                ),
            ),
        );
        spec_color_scale(ring_color, fx_mul_s(f.intensity as int, light_factor))
    } else {
        let bands = fx_sat_s(abs_s(sample_raw));
        spec_color_scale(
            spec_color_lerp(Color { r: 255, g: 240, b: 200 }, Color { r: 200, g: 180, b: 140 }, bands),
            f.intensity as int,
        )
    }
}

/// The pure half of the ringed-body shader.
pub fn saturn_color(fragment: &Fragment, sample_raw: i64) -> (c: Color)
    ensures
        c == spec_saturn_color(*fragment, sample_raw as int),
{
    let px = fragment.vertex_position.x;
    let py = fragment.vertex_position.y;
    let pz = fragment.vertex_position.z;
    let radius = sqrt_fx(fx_add(fx_mul(px, px), fx_mul(pz, pz)));
    let y_abs = fx_abs(py);
    let in_ring = radius >= 78643 && radius <= 163840 && y_abs <= 6554;
    if in_ring {
        let ring_pattern = fx_abs(fx_add(fx_mul(sin_fx(fx_mul(radius, 1310720)), FX_HALF), FX_HALF));
        let detail = fx_abs(sample_raw);
        let ring_factor = fx_add(fx_mul(ring_pattern, 45875), fx_mul(detail, 19661));
        let ring_light = Color { r: 210, g: 190, b: 170 };
        let ring_dark = Color { r: 160, g: 140, b: 120 };
        let ring_color = ring_light.lerp(&ring_dark, ring_factor);
        let up = Vec3 { x: 0, y: FX_ONE, z: 0 };
        let light_factor = fx_max(13107, fx_abs(fragment.normal.dot(&up)));
        ring_color.scale(fx_mul(fragment.intensity, light_factor))
    } else {
        let bands = fx_abs(sample_raw);
        let planet_light = Color { r: 255, g: 240, b: 200 };
        let planet_dark = Color { r: 200, g: 180, b: 140 };
        planet_light.lerp(&planet_dark, bands).scale(fragment.intensity)
    }
}

/// Samples ring detail or band noise, as the fragment's zone demands,
/// and shades the ringed body.
pub fn saturn_shader<N: NoiseField>(fragment: &Fragment, uniforms: &Uniforms<N>) -> (c: Color)
    ensures
        exists|n: int| -FX_ONE <= n <= FX_ONE && c == spec_saturn_color(*fragment, n),
{
    let px = fragment.vertex_position.x;
    let py = fragment.vertex_position.y;
    let pz = fragment.vertex_position.z;
    let radius = sqrt_fx(fx_add(fx_mul(px, px), fx_mul(pz, pz)));
    let y_abs = fx_abs(py);
    let in_ring = radius >= 78643 && radius <= 163840 && y_abs <= 6554;
    let sample: i64 = if in_ring {
        uniforms.noise.get_noise_2d(fx_mul(radius, 983040), fx_mul(atan2_fx(pz, px), 327680))
    } else {
        let t = fx_mul((uniforms.time as i64) * FX_ONE, 5243);
        uniforms.noise.get_noise_2d(fx_mul(py, 7864320), t)
    };
    let c = saturn_color(fragment, sample);
    proof {
        assert(c == spec_saturn_color(*fragment, sample as int));
    }
    c
}

/// The pale giant's color: a soft cloud blend.
pub open spec fn spec_uranus_color(f: Fragment, clouds_raw: int) -> Color {
    let clouds = fx_sat_s(abs_s(clouds_raw));
    spec_color_scale(
        spec_color_lerp(
            Color { r: 150, g: 210, b: 230 },
            Color { r: 180, g: 230, b: 255 },
            fx_mul_s(clouds, 26214),
        ),
        f.intensity as int,
    )
}

/// The pure half of the pale-giant shader.
pub fn uranus_color(fragment: &Fragment, clouds_raw: i64) -> (c: Color)
    ensures
        c == spec_uranus_color(*fragment, clouds_raw as int),
{
    let clouds = fx_abs(clouds_raw);
    let base = Color { r: 150, g: 210, b: 230 };
    let cloud = Color { r: 180, g: 230, b: 255 };
    base.lerp(&cloud, fx_mul(clouds, 26214)).scale(fragment.intensity)
}

/// Samples the soft cloud field once and shades the pale giant.
pub fn uranus_shader<N: NoiseField>(fragment: &Fragment, uniforms: &Uniforms<N>) -> (c: Color)
    ensures
        exists|n: int| -FX_ONE <= n <= FX_ONE && c == spec_uranus_color(*fragment, n),
{
    let p = fragment.vertex_position;
    let t = fx_mul((uniforms.time as i64) * FX_ONE, 1966);
    let n = uniforms.noise.get_noise_3d(
        fx_add(fx_mul(p.x, 13107200), t),
        fx_mul(p.y, 13107200),
        fx_mul(p.z, 13107200),
    );
    let c = uranus_color(fragment, n);
    proof {
        assert(c == spec_uranus_color(*fragment, n as int));
    }
    c
}

/// The deep-blue giant's color: storms plus half-weighted bands.
pub open spec fn spec_neptune_color(f: Fragment, storms_raw: int, bands_raw: int) -> Color {
    let storms = fx_sat_s(abs_s(storms_raw));
    let bands = fx_sat_s(abs_s(bands_raw));
    spec_color_scale(
        spec_color_lerp(
            Color { r: 30, g: 100, b: 200 },
            Color { r: 100, g: 160, b: 255 },
            fx_mul_s(fx_add_s(storms, fx_mul_s(bands, FX_HALF as int)), 26214),
        ),
        f.intensity as int,
    )
}

/// The pure half of the deep-blue-giant shader.
pub fn neptune_color(fragment: &Fragment, storms_raw: i64, bands_raw: i64) -> (c: Color)
    ensures
        c == spec_neptune_color(*fragment, storms_raw as int, bands_raw as int),
{
    let storms = fx_abs(storms_raw);
    let bands = fx_abs(bands_raw);
    let base = Color { r: 30, g: 100, b: 200 };
    let storm = Color { r: 100, g: 160, b: 255 };
    base.lerp(&storm, fx_mul(fx_add(storms, fx_mul(bands, FX_HALF)), 26214)).scale(
        fragment.intensity,
    )
}

/// Samples storm and band fields and shades the deep-blue giant.
pub fn neptune_shader<N: NoiseField>(fragment: &Fragment, uniforms: &Uniforms<N>) -> (c: Color)
    ensures
        exists|s: int, b: int|
            -FX_ONE <= s <= FX_ONE && -FX_ONE <= b <= FX_ONE && c == spec_neptune_color(
                *fragment,
                s,
                b,
            ),
{
    let p = fragment.vertex_position;
    let t = fx_mul((uniforms.time as i64) * FX_ONE, 3932);
    let storms = uniforms.noise.get_noise_3d(
        fx_add(fx_mul(p.x, 16384000), t),
        fx_mul(p.y, 16384000),
        fx_mul(p.z, 16384000),
    );
    let bands = uniforms.noise.get_noise_2d(fx_mul(p.y, 9830400), t);
    let c = neptune_color(fragment, storms, bands);
    proof {
        assert(c == spec_neptune_color(*fragment, storms as int, bands as int));
    }
    c
}

/// The singularity's color: a purely procedural zone partition by
/// radius.  The core zone is always pure black; the other zones follow
/// an angular spiral term, a global pulse, and inverse-radius falloff.
pub open spec fn spec_black_hole_color(f: Fragment, time: int, n_raw: int) -> Color {
    let px = f.vertex_position@.x;
    let pz = f.vertex_position@.z;
    let radius = spec_axis_radius(f);
    let t = fx_mul_s(time * FX_ONE, 3277);
    let angle = fx_add_s(atan2_s(pz, px), t);
    let spiral = fx_add_s(
        fx_mul_s(
            sin_s(fx_add_s(fx_add_s(fx_mul_s(angle, 327680), fx_mul_s(radius, 655360)), t)),
            FX_HALF as int,
        ),
        FX_HALF as int,
    );
    let pulse = fx_add_s(fx_mul_s(sin_s(fx_mul_s(t, 131072)), FX_HALF as int), FX_HALF as int);
    let distortion = fx_div_s(FX_ONE as int, fx_add_s(radius, FX_HALF as int));
    let noise = fx_sat_s(abs_s(n_raw));
    let effect = fx_div_s(fx_add_s(fx_add_s(spiral, noise), pulse), 196608);
    if radius < 19661 {
        Color { r: 0, g: 0, b: 0 }
    } else if radius < FX_ONE {
        let factor = sqrt_fx_s(fx_div_s(fx_sub_s(radius, 19661), 45875));
        let base = spec_color_lerp(
            Color { r: 0, g: 0, b: 0 },
            Color { r: 255, g: 0, b: 255 },
            fx_mul_s(factor, effect),
        );
        spec_color_scale(base, fx_mul_s(distortion, FX_HALF as int))
    } else if radius < 131072 {
        let factor = sqrt_fx_s(fx_sub_s(radius, FX_ONE as int));
        let base = spec_color_lerp(
            Color { r: 255, g: 0, b: 255 },
            Color { r: 147, g: 0, b: 255 },
            fx_mul_s(factor, effect),
        );
        spec_color_scale(base, fx_mul_s(fx_sub_s(196608, radius), FX_HALF as int))
    } else {
        let fade = fx_min_s(FX_ONE as int, fx_div_s(FX_ONE as int, fx_sub_s(radius, 98304)));
        spec_color_scale(
            spec_color_lerp(Color { r: 147, g: 0, b: 255 }, Color { r: 75, g: 0, b: 130 }, fade),
            fx_mul_s(FX_HALF as int, fade),
        )
    }
}

/// The pure half of the singularity shader.
pub fn black_hole_color(fragment: &Fragment, time: u32, n_raw: i64) -> (c: Color)
    ensures
        c == spec_black_hole_color(*fragment, time as int, n_raw as int),
        spec_axis_radius(*fragment) < 19661 ==> c == (Color { r: 0, g: 0, b: 0 }),
{
    let px = fragment.vertex_position.x;
    let pz = fragment.vertex_position.z;
    let radius = sqrt_fx(fx_add(fx_mul(px, px), fx_mul(pz, pz)));
    let t = fx_mul((time as i64) * FX_ONE, 3277);
    let angle = fx_add(atan2_fx(pz, px), t);
    let spiral = fx_add(
        fx_mul(sin_fx(fx_add(fx_add(fx_mul(angle, 327680), fx_mul(radius, 655360)), t)), FX_HALF),
        FX_HALF,
    );
    let pulse = fx_add(fx_mul(sin_fx(fx_mul(t, 131072)), FX_HALF), FX_HALF);
    let distortion = fx_div(FX_ONE, fx_add(radius, FX_HALF));
    let noise = fx_abs(n_raw);
    let effect = fx_div(fx_add(fx_add(spiral, noise), pulse), 196608);
    if radius < 19661 {
        Color { r: 0, g: 0, b: 0 }
    } else if radius < FX_ONE {
        let factor = sqrt_fx(fx_div(fx_sub(radius, 19661), 45875));
        let core = Color { r: 0, g: 0, b: 0 };
        let inner = Color { r: 255, g: 0, b: 255 };
        core.lerp(&inner, fx_mul(factor, effect)).scale(fx_mul(distortion, FX_HALF))
    } else if radius < 131072 {
        let factor = sqrt_fx(fx_sub(radius, FX_ONE));
        let inner = Color { r: 255, g: 0, b: 255 };
        let outer = Color { r: 147, g: 0, b: 255 };
        inner.lerp(&outer, fx_mul(factor, effect)).scale(fx_mul(fx_sub(196608, radius), FX_HALF))
    } else {
        let fade = fx_min(FX_ONE, fx_div(FX_ONE, fx_sub(radius, 98304)));
        let outer = Color { r: 147, g: 0, b: 255 };
        let space = Color { r: 75, g: 0, b: 130 };
        outer.lerp(&space, fade).scale(fx_mul(FX_HALF, fade))
    }
}

/// Samples the detail field once and shades the singularity.
pub fn black_hole_shader<N: NoiseField>(fragment: &Fragment, uniforms: &Uniforms<N>) -> (c: Color)
    ensures
        exists|n: int|
            -FX_ONE <= n <= FX_ONE && c == spec_black_hole_color(
                *fragment,
                uniforms.time as int,
                n,
            ),
        spec_axis_radius(*fragment) < 19661 ==> c == (Color { r: 0, g: 0, b: 0 }),
{
    let p = fragment.vertex_position;
    let t = fx_mul((uniforms.time as i64) * FX_ONE, 3277);
    let n = uniforms.noise.get_noise_3d(
        fx_add(fx_mul(p.x, 131072), t),
        fx_mul(p.y, 131072),
        fx_sub(fx_mul(p.z, 131072), t),
    );
    let c = black_hole_color(fragment, uniforms.time, n);
    proof {
        assert(c == spec_black_hole_color(*fragment, uniforms.time as int, n as int));
    }
    c
}

/// Dispatches the fragment to its tag's shader.  The foreground
/// viewpoint model takes a constant flat color; the singularity's core
/// zone is always pure black; every other tag's result is its shader's
/// pure half applied to some in-range samples.
pub fn fragment_shader<N: NoiseField>(
    fragment: &Fragment,
    uniforms: &Uniforms<N>,
    planet_type: &PlanetType,
) -> (c: Color)
    ensures
        *planet_type == PlanetType::Spaceship ==> c == (Color { r: 192, g: 192, b: 192 }),
        *planet_type == PlanetType::BlackHole && spec_axis_radius(*fragment) < 19661 ==> c == (
        Color { r: 0, g: 0, b: 0 }),
        *planet_type == PlanetType::Sun ==> exists|n1: int, n2: int|
            -FX_ONE <= n1 <= FX_ONE && -FX_ONE <= n2 <= FX_ONE && c == spec_lava_color(
                *fragment,
                n1,
                n2,
            ),
        *planet_type == PlanetType::Earth ==> exists|n1: int, n2: int|
            -FX_ONE <= n1 <= FX_ONE && -FX_ONE <= n2 <= FX_ONE && c == spec_blend_layers(
                spec_earth_color(*fragment, n1),
                spec_cloud_color(fragment.intensity as int, n2),
            ),
        *planet_type == PlanetType::Mercury ==> exists|n1: int, n2: int|
            -FX_ONE <= n1 <= FX_ONE && -FX_ONE <= n2 <= FX_ONE && c == spec_cratered_color(
                *fragment,
                Color { r: 80, g: 75, b: 70 },
                Color { r: 170, g: 160, b: 150 },
                Color { r: 60, g: 55, b: 50 },
                n1,
                n2,
            ),
        *planet_type == PlanetType::Moon ==> exists|n1: int, n2: int|
            -FX_ONE <= n1 <= FX_ONE && -FX_ONE <= n2 <= FX_ONE && c == spec_cratered_color(
                *fragment,
                Color { r: 100, g: 100, b: 100 },
                Color { r: 200, g: 200, b: 200 },
                Color { r: 80, g: 80, b: 80 },
                n1,
                n2,
            ),
        *planet_type == PlanetType::Venus ==> exists|n: int|
            -FX_ONE <= n <= FX_ONE && c == spec_venus_color(*fragment, n),
        *planet_type == PlanetType::Mars ==> exists|n1: int, n2: int|
            -FX_ONE <= n1 <= FX_ONE && -FX_ONE <= n2 <= FX_ONE && c == spec_mars_color(
                *fragment,
                n1,
                n2,
            ),
        *planet_type == PlanetType::Jupiter ==> exists|n1: int, n2: int|
            -FX_ONE <= n1 <= FX_ONE && -FX_ONE <= n2 <= FX_ONE && c == spec_jupiter_color(
                *fragment,
                n1,
                n2,
            ),
        *planet_type == PlanetType::Saturn ==> exists|n: int|
            -FX_ONE <= n <= FX_ONE && c == spec_saturn_color(*fragment, n),
        *planet_type == PlanetType::Uranus ==> exists|n: int|
            -FX_ONE <= n <= FX_ONE && c == spec_uranus_color(*fragment, n),
        *planet_type == PlanetType::Neptune ==> exists|n1: int, n2: int|
            -FX_ONE <= n1 <= FX_ONE && -FX_ONE <= n2 <= FX_ONE && c == spec_neptune_color(
                *fragment,
                n1,
                n2,
            ),
        *planet_type == PlanetType::BlackHole ==> exists|n: int|
            -FX_ONE <= n <= FX_ONE && c == spec_black_hole_color(
                *fragment,
                uniforms.time as int,
                n,
            ),
{
    match planet_type {
        PlanetType::Sun => lava_shader(fragment, uniforms),
        PlanetType::Mercury => mercury_shader(fragment, uniforms),
        PlanetType::Venus => venus_shader(fragment, uniforms),
        PlanetType::Earth => {
            let earth_part = earth_shader(fragment, uniforms);
            let cloud_part = cloud_shader(fragment, uniforms);
            blend_layers(earth_part, cloud_part)
        },
        PlanetType::Moon => moon_shader(fragment, uniforms),
        PlanetType::Mars => mars_shader(fragment, uniforms),
        PlanetType::Jupiter => jupiter_shader(fragment, uniforms),
        PlanetType::Saturn => saturn_shader(fragment, uniforms),
        PlanetType::Uranus => uranus_shader(fragment, uniforms),
        PlanetType::Neptune => neptune_shader(fragment, uniforms),
        PlanetType::BlackHole => black_hole_shader(fragment, uniforms),
        PlanetType::Spaceship => Color { r: 192, g: 192, b: 192 },
    }
}

} // verus!
