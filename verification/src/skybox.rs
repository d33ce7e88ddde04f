//! The starfield backdrop: randomly placed stars on a far shell,
//! projected and written behind the scene every frame.

use vstd::prelude::*;

use crate::framebuffer::Framebuffer;
use crate::fx::{fx_clamp, fx_mul, fx_mul_s, lemma_fx_mul_contracts, FX_HALF, FX_ONE, FX_PI};
use crate::noise::NoiseField;
use crate::raster::MAX_SURFACE;
use crate::trig::{cos_fx, cos_s, sin_fx, sin_s, FX_TWO_PI_EXACT};
use crate::uniforms::Uniforms;
use crate::vec3::{Vec3, Vec4};

verus! {

/// The radius of the star shell (100 units).
pub const STAR_SHELL: i64 = 6553600;

/// The depth every star is written at (100 units).
pub const STAR_DEPTH: i64 = 6553600;

/// One backdrop star: a fixed position on the shell and a brightness in
/// `[1/2, 1]`.
#[derive(Clone, Copy, PartialEq, Eq, Structural, Debug)]
pub struct Star {
    pub position: Vec3,
    pub brightness: i64,
}

/// A star lies on (within) the shell's bounding cube with a brightness
/// in the upper half range.
pub open spec fn spec_star_wf(s: Star) -> bool {
    &&& -STAR_SHELL <= s.position@.x <= STAR_SHELL
    &&& -STAR_SHELL <= s.position@.y <= STAR_SHELL
    &&& -STAR_SHELL <= s.position@.z <= STAR_SHELL
    &&& FX_HALF <= s.brightness < FX_ONE
}

/// A star's position is the spherical-to-Cartesian product of some
/// azimuth in `[0, 2*pi)` and polar angle in `[0, pi]` at the shell
/// radius.
pub open spec fn spec_star_on_shell(s: Star) -> bool {
    exists|theta: int, phi: int|
        #![trigger sin_s(phi), cos_s(theta)]
        0 <= theta < FX_TWO_PI_EXACT && 0 <= phi <= FX_PI && s.position@.x == fx_mul_s(
            STAR_SHELL as int,
            fx_mul_s(sin_s(phi), cos_s(theta)),
        ) && s.position@.y == fx_mul_s(STAR_SHELL as int, fx_mul_s(sin_s(phi), sin_s(theta)))
            && s.position@.z == fx_mul_s(STAR_SHELL as int, cos_s(phi))
}

/// The grey a star paints: its brightness scaled into one byte,
/// replicated over the three channels.
pub open spec fn spec_star_paint(s: Star) -> u32 {
    let grey = crate::fx::fx_clamp_s(fx_mul_s(s.brightness as int, 255), 0, 255);
    (grey * 0x10000 + grey * 0x100 + grey) as u32
}

/// Whether a star's projection lands on pixel `(px, py)`: positive
/// clip `w`, non-negative screen depth, and the pixel inside the
/// planes (opaque: proofs reveal it only where the projection chain
/// matters).
#[verifier::opaque]
pub open spec fn spec_star_writes_at(
    projection: crate::mat4::SpecMat4,
    view: crate::mat4::SpecMat4,
    viewport: crate::mat4::SpecMat4,
    camera_position: crate::vec3::SpecVec3,
    s: Star,
    width: int,
    height: int,
    px: int,
    py: int,
) -> bool {
    let p = crate::vec3::spec_v3_add(s.position@, camera_position);
    let clip = crate::mat4::spec_m4_mul_vec4(
        crate::mat4::spec_m4_mul(projection, view),
        crate::vec3::SpecVec4 { x: p.x, y: p.y, z: p.z, w: FX_ONE as int },
    );
    let screen = crate::mat4::spec_m4_mul_vec4(
        viewport,
        crate::vec3::SpecVec4 {
            x: crate::fx::fx_div_s(clip.x, clip.w),
            y: crate::fx::fx_div_s(clip.y, clip.w),
            z: crate::fx::fx_div_s(clip.z, clip.w),
            w: FX_ONE as int,
        },
    );
    &&& clip.w > 0
    &&& screen.z >= 0
    &&& px == crate::pipeline::spec_screen_pixel(screen.x)
    &&& py == crate::pipeline::spec_screen_pixel(screen.y)
    &&& px < width
    &&& py < height
}

/// The starfield backdrop.
pub struct Skybox {
    pub stars: Vec<Star>,
}

/// Relies on rand::random: an unpredictable `u32` from the thread-local
/// generator; nothing is assumed of its value.
#[verifier::external_body]
fn random_u32() -> u32 {
    rand::random::<u32>()
}

impl Skybox {
    /// Scatters `star_count` stars at random spherical coordinates on
    /// the shell, each with a random brightness in `[1/2, 1)`.  Whatever
    /// the random draws, every star is well formed and placed by the
    /// spherical-to-Cartesian mapping of some drawn angle pair.
    pub fn new(star_count: usize) -> (s: Skybox)
        ensures
            s.stars@.len() == star_count,
            forall|i: int| 0 <= i < star_count ==> spec_star_wf(#[trigger] s.stars@[i]),
            forall|i: int| 0 <= i < star_count ==> spec_star_on_shell(#[trigger] s.stars@[i]),
    {
        let mut stars: Vec<Star> = Vec::new();
        let mut made: usize = 0;
        while made < star_count
            invariant
                stars@.len() == made,
                made <= star_count,
                forall|i: int| 0 <= i < made ==> spec_star_wf(#[trigger] stars@[i]),
                forall|i: int| 0 <= i < made ==> spec_star_on_shell(#[trigger] stars@[i]),
            decreases star_count - made,
        {
            let theta: i64 = (random_u32() % (FX_TWO_PI_EXACT as u32)) as i64;
            let phi: i64 = (random_u32() % (FX_PI as u32 + 1)) as i64;
            let sin_phi = sin_fx(phi);
            let cos_theta = cos_fx(theta);
            let sin_theta = sin_fx(theta);
            let ring = fx_mul(sin_phi, cos_theta);
            let ring2 = fx_mul(sin_phi, sin_theta);
            let cos_phi = cos_fx(phi);
            proof {
                lemma_fx_mul_contracts(sin_phi as int, cos_theta as int);
                lemma_fx_mul_contracts(sin_phi as int, sin_theta as int);
            }
            let x = fx_mul(STAR_SHELL, ring);
            let y = fx_mul(STAR_SHELL, ring2);
            let z = fx_mul(STAR_SHELL, cos_phi);
            proof {
                lemma_fx_mul_contracts(STAR_SHELL as int, ring as int);
                lemma_fx_mul_contracts(STAR_SHELL as int, ring2 as int);
                lemma_fx_mul_contracts(STAR_SHELL as int, cos_phi as int);
            }
            let brightness: i64 = FX_HALF + (random_u32() % (FX_HALF as u32)) as i64;
            let star = Star { position: Vec3 { x, y, z }, brightness };
            proof {
                assert(0 <= theta < FX_TWO_PI_EXACT && 0 <= phi <= FX_PI);
                assert(star.position@.x == fx_mul_s(
                    STAR_SHELL as int,
                    fx_mul_s(sin_s(phi as int), cos_s(theta as int)),
                ));
                assert(star.position@.y == fx_mul_s(
                    STAR_SHELL as int,
                    fx_mul_s(sin_s(phi as int), sin_s(theta as int)),
                ));
                assert(star.position@.z == fx_mul_s(STAR_SHELL as int, cos_s(phi as int)));
                assert(spec_star_on_shell(star));
            }
            stars.push(star);
            made = made + 1;
        }
        Skybox { stars }
    }

    /// Projects every star relative to the camera and writes the ones on
    /// screen as single grey points at the backdrop depth.  No pixel's
    /// depth increases, a pixel with unchanged depth keeps its color,
    /// every changed pixel holds the backdrop depth and some star's
    /// grey, a pixel on no star's projection keeps depth and color, and
    /// the planes, dimensions and background color are kept.
    pub fn render<N: NoiseField>(
        &self,
        framebuffer: &mut Framebuffer,
        uniforms: &Uniforms<N>,
        camera_position: Vec3,
    )
        requires
            old(framebuffer).wf(),
            old(framebuffer).width <= MAX_SURFACE,
            old(framebuffer).height <= MAX_SURFACE,
        ensures
            final(framebuffer).wf(),
            final(framebuffer).width == old(framebuffer).width,
            final(framebuffer).height == old(framebuffer).height,
            final(framebuffer).background_color == old(framebuffer).background_color,
            forall|j: int|
                0 <= j < final(framebuffer).z_buffer@.len() ==> final(framebuffer).z_buffer@[j]
                    <= old(framebuffer).z_buffer@[j],
            forall|j: int|
                0 <= j < final(framebuffer).z_buffer@.len() && final(framebuffer).z_buffer@[j]
                    == old(framebuffer).z_buffer@[j] ==> final(framebuffer).buffer@[j] == old(framebuffer).buffer@[j],
            forall|j: int|
                0 <= j < final(framebuffer).z_buffer@.len() && final(framebuffer).z_buffer@[j]
                    != old(framebuffer).z_buffer@[j] ==> final(framebuffer).z_buffer@[j]
                    == STAR_DEPTH && exists|k: int|
                    0 <= k < self.stars@.len() && final(framebuffer).buffer@[j] == spec_star_paint(
                        #[trigger] self.stars@[k],
                    ),
            forall|px: int, py: int|
                0 <= px < old(framebuffer).width && 0 <= py < old(framebuffer).height && !(exists|
                    k: int,
                |
                    0 <= k < self.stars@.len() && spec_star_writes_at(
                        uniforms.projection_matrix@,
                        uniforms.view_matrix@,
                        uniforms.viewport_matrix@,
                        camera_position@,
                        #[trigger] self.stars@[k],
                        old(framebuffer).width as int,
                        old(framebuffer).height as int,
                        px,
                        py,
                    )) ==> final(framebuffer).z_buffer@[#[trigger] crate::pipeline::spec_pix_idx(
                    old(framebuffer).width as int,
                    px,
                    py,
                )] == old(framebuffer).z_buffer@[crate::pipeline::spec_pix_idx(
                    old(framebuffer).width as int,
                    px,
                    py,
                )] && final(framebuffer).buffer@[crate::pipeline::spec_pix_idx(
                    old(framebuffer).width as int,
                    px,
                    py,
                )] == old(framebuffer).buffer@[crate::pipeline::spec_pix_idx(
                    old(framebuffer).width as int,
                    px,
                    py,
                )],
    {
        let ghost fb0 = *framebuffer;
        let mut i: usize = 0;
        let total = self.stars.len();
        while i < total
            invariant
                total == self.stars@.len(),
                i <= total,
                framebuffer.wf(),
                framebuffer.width == fb0.width,
                framebuffer.height == fb0.height,
                framebuffer.background_color == fb0.background_color,
                framebuffer.width <= MAX_SURFACE,
                framebuffer.height <= MAX_SURFACE,
                fb0.wf(),
                forall|j: int|
                    0 <= j < framebuffer.z_buffer@.len() ==> framebuffer.z_buffer@[j]
                        <= fb0.z_buffer@[j],
                forall|j: int|
                    0 <= j < framebuffer.z_buffer@.len() && framebuffer.z_buffer@[j]
                        == fb0.z_buffer@[j] ==> framebuffer.buffer@[j] == fb0.buffer@[j],
                forall|j: int|
                    0 <= j < framebuffer.z_buffer@.len() && framebuffer.z_buffer@[j]
                        != fb0.z_buffer@[j] ==> framebuffer.z_buffer@[j] == STAR_DEPTH && exists|
                        k: int,
                    |
                        0 <= k < self.stars@.len() && framebuffer.buffer@[j] == spec_star_paint(
                            #[trigger] self.stars@[k],
                        ),
                forall|px: int, py: int|
                    0 <= px < fb0.width && 0 <= py < fb0.height && !(exists|k: int|
                        0 <= k < i && spec_star_writes_at(
                            uniforms.projection_matrix@,
                            uniforms.view_matrix@,
                            uniforms.viewport_matrix@,
                            camera_position@,
                            #[trigger] self.stars@[k],
                            fb0.width as int,
                            fb0.height as int,
                            px,
                            py,
                        )) ==> framebuffer.z_buffer@[#[trigger] crate::pipeline::spec_pix_idx(
                        fb0.width as int,
                        px,
                        py,
                    )] == fb0.z_buffer@[crate::pipeline::spec_pix_idx(fb0.width as int, px, py)]
                        && framebuffer.buffer@[crate::pipeline::spec_pix_idx(
                        fb0.width as int,
                        px,
                        py,
                    )] == fb0.buffer@[crate::pipeline::spec_pix_idx(fb0.width as int, px, py)],
            decreases total - i,
        {
            render_star(&self.stars[i], framebuffer, uniforms, camera_position);
            i = i + 1;
        }
    }
}

/// Projects one star and writes it as a single grey point at the
/// backdrop depth when it lands on screen.  Pixels off the star's
/// projection keep their depth and color; a changed pixel holds the
/// backdrop depth and this star's grey.
fn render_star<N: NoiseField>(
    star: &Star,
    framebuffer: &mut Framebuffer,
    uniforms: &Uniforms<N>,
    camera_position: Vec3,
)
    requires
        old(framebuffer).wf(),
        old(framebuffer).width <= MAX_SURFACE,
        old(framebuffer).height <= MAX_SURFACE,
    ensures
        final(framebuffer).wf(),
        final(framebuffer).width == old(framebuffer).width,
        final(framebuffer).height == old(framebuffer).height,
        final(framebuffer).background_color == old(framebuffer).background_color,
        forall|j: int|
            0 <= j < final(framebuffer).z_buffer@.len() ==> final(framebuffer).z_buffer@[j] <= old(framebuffer).z_buffer@[j],
        forall|j: int|
            0 <= j < final(framebuffer).z_buffer@.len() && final(framebuffer).z_buffer@[j] == old(framebuffer).z_buffer@[j] ==> final(framebuffer).buffer@[j] == old(framebuffer).buffer@[j],
        forall|j: int|
            0 <= j < final(framebuffer).z_buffer@.len() && final(framebuffer).z_buffer@[j] != old(framebuffer).z_buffer@[j] ==> final(framebuffer).z_buffer@[j] == STAR_DEPTH && final(framebuffer).buffer@[j] == spec_star_paint(*star),
        forall|px: int, py: int|
            0 <= px < old(framebuffer).width && 0 <= py < old(framebuffer).height
                && !spec_star_writes_at(
                uniforms.projection_matrix@,
                uniforms.view_matrix@,
                uniforms.viewport_matrix@,
                camera_position@,
                *star,
                old(framebuffer).width as int,
                old(framebuffer).height as int,
                px,
                py,
            ) ==> final(framebuffer).z_buffer@[#[trigger] crate::pipeline::spec_pix_idx(
                old(framebuffer).width as int,
                px,
                py,
            )] == old(framebuffer).z_buffer@[crate::pipeline::spec_pix_idx(
                old(framebuffer).width as int,
                px,
                py,
            )] && final(framebuffer).buffer@[crate::pipeline::spec_pix_idx(
                old(framebuffer).width as int,
                px,
                py,
            )] == old(framebuffer).buffer@[crate::pipeline::spec_pix_idx(
                old(framebuffer).width as int,
                px,
                py,
            )],
{
    proof {
        reveal(spec_star_writes_at);
    }
    let ghost fb0 = *framebuffer;
    let pv = uniforms.projection_matrix.mul_mat(&uniforms.view_matrix);
    let position = star.position.add(&camera_position);
    let clip = pv.mul_vec4(&Vec4 { x: position.x, y: position.y, z: position.z, w: FX_ONE });
    if clip.w > 0 {
        let ndc = Vec4 {
            x: crate::fx::fx_div(clip.x, clip.w),
            y: crate::fx::fx_div(clip.y, clip.w),
            z: crate::fx::fx_div(clip.z, clip.w),
            w: FX_ONE,
        };
        let screen = uniforms.viewport_matrix.mul_vec4(&ndc);
        if screen.z >= 0 {
            let px: u64 = if screen.x < 0 {
                0
            } else {
                (screen.x as u64) / (FX_ONE as u64)
            };
            let py: u64 = if screen.y < 0 {
                0
            } else {
                (screen.y as u64) / (FX_ONE as u64)
            };
            if px < framebuffer.width as u64 && py < framebuffer.height as u64 {
                let intensity = fx_clamp(fx_mul(star.brightness, 255), 0, 255) as u32;
                let color = intensity * 0x10000 + intensity * 0x100 + intensity;
                proof {
                    assert(color == spec_star_paint(*star));
                    assert(spec_star_writes_at(
                        uniforms.projection_matrix@,
                        uniforms.view_matrix@,
                        uniforms.viewport_matrix@,
                        camera_position@,
                        *star,
                        fb0.width as int,
                        fb0.height as int,
                        px as int,
                        py as int,
                    ));
                    crate::pipeline::lemma_pixel_index(
                        fb0.width as int,
                        fb0.height as int,
                        px as int,
                        py as int,
                    );
                }
                framebuffer.set_current_color(color);
                framebuffer.point(px as usize, py as usize, STAR_DEPTH);
                proof {
                    assert forall|qx: int, qy: int|
                        0 <= qx < fb0.width && 0 <= qy < fb0.height && !(qx == px as int && qy
                            == py as int) implies framebuffer.z_buffer@[
                        #[trigger] crate::pipeline::spec_pix_idx(fb0.width as int, qx, qy)]
                        == fb0.z_buffer@[crate::pipeline::spec_pix_idx(fb0.width as int, qx, qy)]
                        && framebuffer.buffer@[crate::pipeline::spec_pix_idx(
                        fb0.width as int,
                        qx,
                        qy,
                    )] == fb0.buffer@[crate::pipeline::spec_pix_idx(fb0.width as int, qx, qy)] by {
                        crate::pipeline::lemma_pixel_index(
                            fb0.width as int,
                            fb0.height as int,
                            qx,
                            qy,
                        );
                        crate::pipeline::lemma_pixel_index_distinct(
                            fb0.width as int,
                            qx,
                            qy,
                            px as int,
                            py as int,
                        );
                    };
                }
            }
        }
    }
}

} // verus!
