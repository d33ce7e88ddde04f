//! The render pipeline: vertex shading, primitive assembly,
//! rasterization, depth test, fragment shading, framebuffer write.
//!
//! Consecutive vertex triples are triangles; a trailing partial triple
//! is silently dropped.  The only side effect is the final write: across
//! a render call no pixel's stored depth ever increases, and a pixel
//! whose depth did not change keeps its color.

use vstd::prelude::*;

use crate::color::Color;
use crate::framebuffer::Framebuffer;
use crate::fx::FX_ONE;
use crate::noise::NoiseField;
use crate::planet_type::PlanetType;
use crate::raster::{rasterize, MAX_SURFACE};
use crate::shaders::{fragment_shader, vertex_shader};
use crate::uniforms::Uniforms;
use crate::vertex::Vertex;

verus! {

/// The depth forced onto the foreground viewpoint model's fragments, so
/// that it always renders in front of every scene write.
pub const DEPTH_NEAREST: i64 = -65536;

/// The frame's transform stack as one spec value.
pub ghost struct SpecStack {
    pub model: crate::mat4::SpecMat4,
    pub view: crate::mat4::SpecMat4,
    pub projection: crate::mat4::SpecMat4,
    pub viewport: crate::mat4::SpecMat4,
}

/// The transform stack a uniform bundle carries.
pub open spec fn spec_stack<N: NoiseField>(u: Uniforms<N>) -> SpecStack {
    SpecStack {
        model: u.model_matrix@,
        view: u.view_matrix@,
        projection: u.projection_matrix@,
        viewport: u.viewport_matrix@,
    }
}

/// The vertex at index `k` after vertex shading under the stack
/// (opaque: proofs reveal it only where the shading formula matters).
#[verifier::opaque]
pub open spec fn spec_shaded(stack: SpecStack, vs: Seq<Vertex>, k: int) -> Vertex {
    crate::shaders::spec_vertex_shader(
        vs[k],
        stack.model,
        stack.view,
        stack.projection,
        stack.viewport,
    )
}

/// Whether the assembled triangle `t` (vertices `3t .. 3t+2`) emits a
/// fragment at pixel `(px, py)` once its vertices are shaded.
pub open spec fn spec_tri_emits(
    stack: SpecStack,
    vs: Seq<Vertex>,
    width: int,
    height: int,
    t: int,
    px: int,
    py: int,
) -> bool {
    crate::raster::spec_emits(
        spec_shaded(stack, vs, 3 * t),
        spec_shaded(stack, vs, 3 * t + 1),
        spec_shaded(stack, vs, 3 * t + 2),
        width,
        height,
        px,
        py,
    )
}

/// Whether any of the first `k` assembled triangles emits a fragment at
/// the pixel.
pub open spec fn spec_pixel_covered(
    stack: SpecStack,
    vs: Seq<Vertex>,
    width: int,
    height: int,
    k: int,
    px: int,
    py: int,
) -> bool {
    exists|t: int| 0 <= t < k && spec_tri_emits(stack, vs, width, height, t, px, py)
}

/// The depth triangle `t` offers the pixel: the nearest sentinel for
/// the foreground tag, the interpolated fragment depth otherwise.
pub open spec fn spec_offered_depth(
    stack: SpecStack,
    vs: Seq<Vertex>,
    tag: PlanetType,
    t: int,
    px: int,
    py: int,
) -> int {
    if tag == PlanetType::Spaceship {
        DEPTH_NEAREST as int
    } else {
        crate::raster::spec_fragment_at(
            spec_shaded(stack, vs, 3 * t),
            spec_shaded(stack, vs, 3 * t + 1),
            spec_shaded(stack, vs, 3 * t + 2),
            px,
            py,
        ).depth as int
    }
}

/// The smallest depth the first `k` assembled triangles offer the
/// pixel; the empty-pixel depth when none emits there.
pub open spec fn spec_min_offered(
    stack: SpecStack,
    vs: Seq<Vertex>,
    tag: PlanetType,
    width: int,
    height: int,
    k: int,
    px: int,
    py: int,
) -> int
    decreases k,
{
    if k <= 0 {
        crate::framebuffer::DEPTH_INFINITY as int
    } else {
        let rest = spec_min_offered(stack, vs, tag, width, height, k - 1, px, py);
        if spec_tri_emits(stack, vs, width, height, k - 1, px, py) && spec_offered_depth(
            stack,
            vs,
            tag,
            k - 1,
            px,
            py,
        ) < rest {
            spec_offered_depth(stack, vs, tag, k - 1, px, py)
        } else {
            rest
        }
    }
}

/// Under the foreground tag every offer is the nearest sentinel, so
/// the minimum offered depth is the sentinel exactly on covered pixels.
pub proof fn lemma_min_offered_spaceship(
    stack: SpecStack,
    vs: Seq<Vertex>,
    w: int,
    h: int,
    k: int,
    px: int,
    py: int,
)
    requires
        k >= 0,
    ensures
        spec_min_offered(stack, vs, PlanetType::Spaceship, w, h, k, px, py) == (
        if spec_pixel_covered(stack, vs, w, h, k, px, py) {
            DEPTH_NEAREST as int
        } else {
            crate::framebuffer::DEPTH_INFINITY as int
        }),
    decreases k,
{
    if k <= 0 {
        assert(!spec_pixel_covered(stack, vs, w, h, k, px, py));
    } else {
        lemma_min_offered_spaceship(stack, vs, w, h, k - 1, px, py);
        assert(spec_offered_depth(stack, vs, PlanetType::Spaceship, k - 1, px, py)
            == DEPTH_NEAREST as int);
        if spec_tri_emits(stack, vs, w, h, k - 1, px, py) {
            assert(spec_pixel_covered(stack, vs, w, h, k, px, py));
        }
        if spec_pixel_covered(stack, vs, w, h, k - 1, px, py) {
            let t = choose|t: int|
                0 <= t < k - 1 && spec_tri_emits(stack, vs, w, h, t, px, py);
            assert(spec_tri_emits(stack, vs, w, h, t, px, py));
            assert(spec_pixel_covered(stack, vs, w, h, k, px, py));
        }
        if spec_pixel_covered(stack, vs, w, h, k, px, py) && !spec_tri_emits(
            stack,
            vs,
            w,
            h,
            k - 1,
            px,
            py,
        ) {
            let t = choose|t: int| 0 <= t < k && spec_tri_emits(stack, vs, w, h, t, px, py);
            assert(t < k - 1);
            assert(spec_pixel_covered(stack, vs, w, h, k - 1, px, py));
        }
    }
}

/// The linear index of pixel `(px, py)` in a plane of width `w`.
pub open spec fn spec_pix_idx(w: int, px: int, py: int) -> int {
    py * w + px
}

/// A pixel inside the planes indexes inside the linear buffers.
pub(crate) proof fn lemma_pixel_index(w: int, h: int, qx: int, qy: int)
    requires
        0 <= qx < w,
        0 <= qy < h,
    ensures
        0 <= qy * w + qx < w * h,
{
    assert(0 <= qy * w + qx < w * h) by (nonlinear_arith)
        requires
            0 <= qx < w,
            0 <= qy < h,
    ;
}

/// Distinct in-bounds pixels index distinct buffer entries.
pub(crate) proof fn lemma_pixel_index_distinct(w: int, qx1: int, qy1: int, qx2: int, qy2: int)
    requires
        0 <= qx1 < w,
        0 <= qx2 < w,
        0 <= qy1,
        0 <= qy2,
        !(qx1 == qx2 && qy1 == qy2),
    ensures
        qy1 * w + qx1 != qy2 * w + qx2,
{
    assert(qy1 * w + qx1 != qy2 * w + qx2) by (nonlinear_arith)
        requires
            0 <= qx1 < w,
            0 <= qx2 < w,
            0 <= qy1,
            0 <= qy2,
            !(qx1 == qx2 && qy1 == qy2),
    ;
}

/// Renders one object's vertex stream into the framebuffer.
///
/// Strictly ordered stages: vertex shading, assembly into triples
/// (fewer than three vertices leave the framebuffer untouched, and a
/// trailing partial triple is dropped), rasterization, then a
/// depth-tested shaded write per fragment, with the foreground tag's
/// depth forced to the nearest sentinel.  Every pixel's final depth is
/// the minimum of its stored depth and the depths the emitting
/// triangles offer it — so an uncovered pixel (in particular every
/// pixel when all triangles are fully out of bounds) keeps its depth
/// and, by the unchanged-depth clause, its color; and under the
/// foreground tag every covered pixel that was not already at the
/// sentinel ends in the flat foreground color.
pub fn render<N: NoiseField>(
    framebuffer: &mut Framebuffer,
    uniforms: &Uniforms<N>,
    vertex_array: &Vec<Vertex>,
    planet_type: &PlanetType,
)
    requires
        old(framebuffer).wf(),
        old(framebuffer).width <= MAX_SURFACE,
        old(framebuffer).height <= MAX_SURFACE,
    ensures
        final(framebuffer).wf(),
        final(framebuffer).width == old(framebuffer).width,
        final(framebuffer).height == old(framebuffer).height,
        final(framebuffer).background_color == old(framebuffer).background_color,
        forall|j: int|
            0 <= j < final(framebuffer).z_buffer@.len() ==> final(framebuffer).z_buffer@[j] <= old(framebuffer).z_buffer@[j],
        forall|j: int|
            0 <= j < final(framebuffer).z_buffer@.len() && final(framebuffer).z_buffer@[j] == old(framebuffer).z_buffer@[j] ==> final(framebuffer).buffer@[j] == old(framebuffer).buffer@[j],
        vertex_array@.len() < 3 ==> *final(framebuffer) == *old(framebuffer),
        forall|px: int, py: int|
            0 <= px < old(framebuffer).width && 0 <= py < old(framebuffer).height ==> final(framebuffer).z_buffer@[#[trigger] spec_pix_idx(old(framebuffer).width as int, px, py)] == crate::fx::fx_min_s(
                old(framebuffer).z_buffer@[spec_pix_idx(old(framebuffer).width as int, px, py)] as int,
                spec_min_offered(
                    spec_stack(*uniforms),
                    vertex_array@,
                    *planet_type,
                    old(framebuffer).width as int,
                    old(framebuffer).height as int,
                    vertex_array@.len() as int / 3,
                    px,
                    py,
                ),
            ),
        *planet_type == PlanetType::Spaceship ==> forall|px: int, py: int|
            0 <= px < old(framebuffer).width && 0 <= py < old(framebuffer).height
                && spec_pixel_covered(
                spec_stack(*uniforms),
                vertex_array@,
                old(framebuffer).width as int,
                old(framebuffer).height as int,
                vertex_array@.len() as int / 3,
                px,
                py,
            ) && old(framebuffer).z_buffer@[#[trigger] spec_pix_idx(
                old(framebuffer).width as int,
                px,
                py,
            )] > DEPTH_NEAREST ==> final(framebuffer).buffer@[spec_pix_idx(
                old(framebuffer).width as int,
                px,
                py,
            )] == crate::color::spec_color_hex(Color { r: 192, g: 192, b: 192 }),
        *planet_type == PlanetType::Spaceship ==> forall|px: int, py: int|
            0 <= px < old(framebuffer).width && 0 <= py < old(framebuffer).height
                && spec_pixel_covered(
                spec_stack(*uniforms),
                vertex_array@,
                old(framebuffer).width as int,
                old(framebuffer).height as int,
                vertex_array@.len() as int / 3,
                px,
                py,
            ) ==> final(framebuffer).z_buffer@[#[trigger] spec_pix_idx(
                old(framebuffer).width as int,
                px,
                py,
            )] == crate::fx::fx_min_s(
                old(framebuffer).z_buffer@[spec_pix_idx(old(framebuffer).width as int, px, py)] as int,
                DEPTH_NEAREST as int,
            ),
{
    let ghost fb0 = *framebuffer;
    let ghost stack = spec_stack(*uniforms);
    let ghost vs = vertex_array@;
    let ghost w = fb0.width as int;
    let ghost h = fb0.height as int;
    let ghost tag = *planet_type;
    if vertex_array.len() < 3 {
        proof {
            vstd::arithmetic::div_mod::lemma_fundamental_div_mod_converse(
                vs.len() as int,
                3,
                0,
                vs.len() as int,
            );
            assert forall|px: int, py: int| 0 <= px < w && 0 <= py < h implies fb0.z_buffer@[
                #[trigger] spec_pix_idx(w, px, py)] == crate::fx::fx_min_s(
                fb0.z_buffer@[spec_pix_idx(w, px, py)] as int,
                spec_min_offered(stack, vs, tag, w, h, vs.len() as int / 3, px, py),
            ) by {
                lemma_pixel_index(w, h, px, py);
            };
        }
        return ;
    }
    let mut transformed: Vec<Vertex> = Vec::new();
    let mut vi: usize = 0;
    let total = vertex_array.len();
    while vi < total
        invariant
            total == vs.len(),
            vs == vertex_array@,
            stack == spec_stack(*uniforms),
            vi <= total,
            transformed@.len() == vi,
            forall|k: int| 0 <= k < vi ==> transformed@[k] == spec_shaded(stack, vs, k),
        decreases total - vi,
    {
        let shaded = vertex_shader(&vertex_array[vi], uniforms);
        proof {
            reveal(spec_shaded);
            assert(shaded == spec_shaded(stack, vs, vi as int));
        }
        transformed.push(shaded);
        vi = vi + 1;
    }
    let count = transformed.len();
    let mut i: usize = 0;
    let ghost mut done: int = 0;
    while count >= 3 && i < count - 2
        invariant
            i <= count,
            count >= 3,
            count == transformed@.len(),
            count == vs.len(),
            vs == vertex_array@,
            stack == spec_stack(*uniforms),
            tag == *planet_type,
            forall|k: int| 0 <= k < count ==> transformed@[k] == spec_shaded(stack, vs, k),
            i as int == 3 * done,
            0 <= done,
            framebuffer.wf(),
            framebuffer.width == fb0.width,
            framebuffer.height == fb0.height,
            framebuffer.background_color == fb0.background_color,
            framebuffer.width <= MAX_SURFACE,
            framebuffer.height <= MAX_SURFACE,
            w == fb0.width as int,
            h == fb0.height as int,
            fb0.wf(),
            forall|j: int|
                0 <= j < framebuffer.z_buffer@.len() ==> framebuffer.z_buffer@[j] <= fb0.z_buffer@[j],
            forall|j: int|
                0 <= j < framebuffer.z_buffer@.len() && framebuffer.z_buffer@[j] == fb0.z_buffer@[j] ==> framebuffer.buffer@[j] == fb0.buffer@[j],
            forall|px: int, py: int|
                0 <= px < w && 0 <= py < h ==> framebuffer.z_buffer@[#[trigger] spec_pix_idx(
                    w,
                    px,
                    py,
                )] == crate::fx::fx_min_s(
                    fb0.z_buffer@[spec_pix_idx(w, px, py)] as int,
                    spec_min_offered(stack, vs, tag, w, h, done, px, py),
                ),
            tag == PlanetType::Spaceship ==> forall|px: int, py: int|
                0 <= px < w && 0 <= py < h && spec_pixel_covered(stack, vs, w, h, done, px, py)
                    && fb0.z_buffer@[#[trigger] spec_pix_idx(w, px, py)] > DEPTH_NEAREST
                    ==> framebuffer.buffer@[spec_pix_idx(w, px, py)]
                    == crate::color::spec_color_hex(Color { r: 192, g: 192, b: 192 }),
        decreases count - i,
    {
        let fragments = rasterize(
            &transformed[i],
            &transformed[i + 1],
            &transformed[i + 2],
            framebuffer.width,
            framebuffer.height,
        );
        let ghost sv0 = spec_shaded(stack, vs, 3 * done);
        let ghost sv1 = spec_shaded(stack, vs, 3 * done + 1);
        let ghost sv2 = spec_shaded(stack, vs, 3 * done + 2);
        let mut fi: usize = 0;
        let frag_count = fragments.len();
        while fi < frag_count
            invariant
                frag_count == fragments@.len(),
                fi <= frag_count,
                count == vs.len(),
                vs == vertex_array@,
                stack == spec_stack(*uniforms),
                tag == *planet_type,
                i as int == 3 * done,
                0 <= done,
                3 * done + 2 < count,
                sv0 == spec_shaded(stack, vs, 3 * done),
                sv1 == spec_shaded(stack, vs, 3 * done + 1),
                sv2 == spec_shaded(stack, vs, 3 * done + 2),
                framebuffer.wf(),
                framebuffer.width == fb0.width,
                framebuffer.height == fb0.height,
                framebuffer.background_color == fb0.background_color,
                framebuffer.width <= MAX_SURFACE,
                framebuffer.height <= MAX_SURFACE,
                w == fb0.width as int,
                h == fb0.height as int,
                fb0.wf(),
                forall|k: int|
                    0 <= k < fragments@.len() ==> fragments@[k].x < fb0.width && fragments@[k].y
                        < fb0.height,
                forall|k: int|
                    0 <= k < fragments@.len() ==> #[trigger] fragments@[k] == crate::raster::spec_fragment_at(
                        sv0,
                        sv1,
                        sv2,
                        fragments@[k].x as int,
                        fragments@[k].y as int,
                    ),
                forall|k: int|
                    0 <= k < fragments@.len() ==> crate::raster::spec_inside(
                        sv0.transformed_position@,
                        sv1.transformed_position@,
                        sv2.transformed_position@,
                        #[trigger] fragments@[k].x as int,
                        fragments@[k].y as int,
                    ),
                fragments@.len() > 0 ==> crate::raster::spec_vertex_in_range(sv0)
                    && crate::raster::spec_vertex_in_range(sv1)
                    && crate::raster::spec_vertex_in_range(sv2) && !crate::raster::spec_bbox_separated(
                    sv0.transformed_position@,
                    sv1.transformed_position@,
                    sv2.transformed_position@,
                    w,
                    h,
                ),
                forall|px: int, py: int|
                    0 <= px < w && 0 <= py < h && crate::raster::spec_emits(
                        sv0,
                        sv1,
                        sv2,
                        w,
                        h,
                        px,
                        py,
                    ) ==> exists|k: int|
                        0 <= k < fragments@.len() && fragments@[k].x == px && fragments@[k].y == py,
                forall|j: int|
                    0 <= j < framebuffer.z_buffer@.len() ==> framebuffer.z_buffer@[j] <= fb0.z_buffer@[j],
                forall|j: int|
                    0 <= j < framebuffer.z_buffer@.len() && framebuffer.z_buffer@[j] == fb0.z_buffer@[j] ==> framebuffer.buffer@[j] == fb0.buffer@[j],
                forall|px: int, py: int|
                    0 <= px < w && 0 <= py < h && (exists|k: int|
                        0 <= k < fi && fragments@[k].x == px && fragments@[k].y == py)
                        ==> framebuffer.z_buffer@[#[trigger] spec_pix_idx(w, px, py)]
                        == crate::fx::fx_min_s(
                        crate::fx::fx_min_s(
                            fb0.z_buffer@[spec_pix_idx(w, px, py)] as int,
                            spec_min_offered(stack, vs, tag, w, h, done, px, py),
                        ),
                        spec_offered_depth(stack, vs, tag, done, px, py),
                    ),
                forall|px: int, py: int|
                    0 <= px < w && 0 <= py < h && !(exists|k: int|
                        0 <= k < fi && fragments@[k].x == px && fragments@[k].y == py)
                        ==> framebuffer.z_buffer@[#[trigger] spec_pix_idx(w, px, py)]
                        == crate::fx::fx_min_s(
                        fb0.z_buffer@[spec_pix_idx(w, px, py)] as int,
                        spec_min_offered(stack, vs, tag, w, h, done, px, py),
                    ),
                tag == PlanetType::Spaceship ==> forall|px: int, py: int|
                    0 <= px < w && 0 <= py < h && (spec_pixel_covered(stack, vs, w, h, done, px, py)
                        || exists|k: int|
                        0 <= k < fi && fragments@[k].x == px && fragments@[k].y == py)
                        && fb0.z_buffer@[#[trigger] spec_pix_idx(w, px, py)] > DEPTH_NEAREST
                        ==> framebuffer.buffer@[spec_pix_idx(w, px, py)]
                        == crate::color::spec_color_hex(Color { r: 192, g: 192, b: 192 }),
            decreases frag_count - fi,
        {
            let fragment = fragments[fi];
            let x = fragment.x;
            let y = fragment.y;
            let ghost fbpre = *framebuffer;
            proof {
                if tag == PlanetType::Spaceship {
                    lemma_min_offered_spaceship(stack, vs, w, h, done, x as int, y as int);
                }
            }
            if x < framebuffer.width && y < framebuffer.height {
                let depth: i64 = if matches!(planet_type, PlanetType::Spaceship) {
                    DEPTH_NEAREST
                } else {
                    fragment.depth
                };
                proof {
                    assert(depth as int == spec_offered_depth(stack, vs, tag, done, x as int, y as int));
                    lemma_pixel_index(w, h, x as int, y as int);
                }
                if framebuffer.should_draw(x, y, depth) {
                    let shaded_color = fragment_shader(&fragment, uniforms, planet_type);
                    let color = shaded_color.to_hex();
                    framebuffer.set_current_color(color);
                    framebuffer.point(x, y, depth);
                }
            }
            proof {
                assert forall|qx: int, qy: int|
                    0 <= qx < w && 0 <= qy < h && !(qx == x as int && qy == y as int) implies
                    framebuffer.z_buffer@[#[trigger] spec_pix_idx(w, qx, qy)] == fbpre.z_buffer@[
                        spec_pix_idx(w, qx, qy)] && framebuffer.buffer@[spec_pix_idx(w, qx, qy)]
                        == fbpre.buffer@[spec_pix_idx(w, qx, qy)] by {
                    lemma_pixel_index(w, h, qx, qy);
                    lemma_pixel_index_distinct(w, qx, qy, x as int, y as int);
                };
            }
            fi = fi + 1;
        }
        proof {
            assert forall|px: int, py: int| 0 <= px < w && 0 <= py < h implies
                framebuffer.z_buffer@[#[trigger] spec_pix_idx(w, px, py)] == crate::fx::fx_min_s(
                fb0.z_buffer@[spec_pix_idx(w, px, py)] as int,
                spec_min_offered(stack, vs, tag, w, h, done + 1, px, py),
            ) by {
                lemma_pixel_index(w, h, px, py);
                if exists|k: int|
                    0 <= k < fragments@.len() && fragments@[k].x == px && fragments@[k].y == py {
                    let k = choose|k: int|
                        0 <= k < fragments@.len() && fragments@[k].x == px && fragments@[k].y
                            == py;
                    assert(crate::raster::spec_inside(
                        sv0.transformed_position@,
                        sv1.transformed_position@,
                        sv2.transformed_position@,
                        px,
                        py,
                    ));
                    assert(crate::raster::spec_emits(sv0, sv1, sv2, w, h, px, py));
                    assert(spec_tri_emits(stack, vs, w, h, done, px, py));
                } else {
                    if spec_tri_emits(stack, vs, w, h, done, px, py) {
                        assert(crate::raster::spec_emits(sv0, sv1, sv2, w, h, px, py));
                        assert(false);
                    }
                }
            };
            if tag == PlanetType::Spaceship {
                assert forall|px: int, py: int|
                    0 <= px < w && 0 <= py < h && spec_pixel_covered(
                        stack,
                        vs,
                        w,
                        h,
                        done + 1,
                        px,
                        py,
                    ) && fb0.z_buffer@[#[trigger] spec_pix_idx(w, px, py)] > DEPTH_NEAREST
                    implies framebuffer.buffer@[spec_pix_idx(w, px, py)]
                    == crate::color::spec_color_hex(Color { r: 192, g: 192, b: 192 }) by {
                    lemma_pixel_index(w, h, px, py);
                    let t = choose|t: int|
                        0 <= t < done + 1 && spec_tri_emits(stack, vs, w, h, t, px, py);
                    if t < done {
                        assert(spec_pixel_covered(stack, vs, w, h, done, px, py));
                    } else {
                        assert(crate::raster::spec_emits(sv0, sv1, sv2, w, h, px, py));
                        assert(exists|k: int|
                            0 <= k < fragments@.len() && fragments@[k].x == px && fragments@[k].y
                                == py);
                    }
                };
            }
        }
        i = i + 3;
        proof {
            done = done + 1;
        }
    }
    proof {
        if count >= 3 {
            vstd::arithmetic::div_mod::lemma_fundamental_div_mod_converse(
                count as int,
                3,
                done,
                count as int - 3 * done,
            );
        } else {
            assert(done == 0);
            assert(vs.len() as int / 3 == 0);
        }
        if tag == PlanetType::Spaceship {
            assert forall|px: int, py: int|
                0 <= px < w && 0 <= py < h && spec_pixel_covered(
                    stack,
                    vs,
                    w,
                    h,
                    vs.len() as int / 3,
                    px,
                    py,
                ) implies framebuffer.z_buffer@[#[trigger] spec_pix_idx(w, px, py)]
                == crate::fx::fx_min_s(
                fb0.z_buffer@[spec_pix_idx(w, px, py)] as int,
                DEPTH_NEAREST as int,
            ) by {
                lemma_min_offered_spaceship(stack, vs, w, h, vs.len() as int / 3, px, py);
            };
        }
    }
}

/// The clip-space position of a trail particle's center: the
/// projection-view product applied to its (unrotated, size-scaled)
/// model matrix at the origin.
pub open spec fn spec_trail_clip(
    projection: crate::mat4::SpecMat4,
    view: crate::mat4::SpecMat4,
    p: crate::body::TrailParticle,
) -> crate::vec3::SpecVec4 {
    crate::mat4::spec_m4_mul_vec4(
        crate::mat4::spec_m4_mul(
            crate::mat4::spec_m4_mul(projection, view),
            crate::transform::spec_model_matrix(
                p.position@,
                p.size as int,
                crate::vec3::SpecVec3 { x: 0, y: 0, z: 0 },
            ),
        ),
        crate::vec3::SpecVec4 { x: 0, y: 0, z: 0, w: FX_ONE as int },
    )
}

/// The particle's screen position: perspective divide then the viewport
/// mapping.
pub open spec fn spec_trail_screen(
    projection: crate::mat4::SpecMat4,
    view: crate::mat4::SpecMat4,
    viewport: crate::mat4::SpecMat4,
    p: crate::body::TrailParticle,
) -> crate::vec3::SpecVec4 {
    let clip = spec_trail_clip(projection, view, p);
    crate::mat4::spec_m4_mul_vec4(
        viewport,
        crate::vec3::SpecVec4 {
            x: crate::fx::fx_div_s(clip.x, clip.w),
            y: crate::fx::fx_div_s(clip.y, clip.w),
            z: crate::fx::fx_div_s(clip.z, clip.w),
            w: FX_ONE as int,
        },
    )
}

/// A screen coordinate's pixel: whole fixed-point units, floored at the
/// first column or row.
pub open spec fn spec_screen_pixel(s: int) -> int {
    if s < 0 {
        0
    } else {
        s / (FX_ONE as int)
    }
}

/// The packed color a trail particle paints: its color's channels under
/// an alpha byte faded by the remaining lifetime.
pub open spec fn spec_trail_paint(p: crate::body::TrailParticle) -> u32 {
    (p.color & 0x00FFFFFF) | ((crate::fx::fx_clamp_s(
        crate::fx::fx_mul_s(p.lifetime as int, 255),
        0,
        255,
    ) as u32) << 24u32)
}

/// Projects one trail particle to the screen and writes it as a single
/// depth-tested point in its (alpha-faded) color.  A particle behind
/// the camera (non-positive clip `w`) or whose pixel lies outside the
/// framebuffer leaves everything unchanged; otherwise exactly its pixel
/// is depth-tested against the projected screen depth, taking the
/// particle's alpha-faded color when the test passes.
pub fn render_trail<N: NoiseField>(
    framebuffer: &mut Framebuffer,
    uniforms: &Uniforms<N>,
    particle: &crate::body::TrailParticle,
)
    requires
        old(framebuffer).wf(),
        old(framebuffer).width <= MAX_SURFACE,
        old(framebuffer).height <= MAX_SURFACE,
    ensures
        final(framebuffer).wf(),
        final(framebuffer).width == old(framebuffer).width,
        final(framebuffer).height == old(framebuffer).height,
        final(framebuffer).background_color == old(framebuffer).background_color,
        forall|j: int|
            0 <= j < final(framebuffer).z_buffer@.len() ==> final(framebuffer).z_buffer@[j] <= old(framebuffer).z_buffer@[j],
        forall|j: int|
            0 <= j < final(framebuffer).z_buffer@.len() && final(framebuffer).z_buffer@[j] == old(framebuffer).z_buffer@[j] ==> final(framebuffer).buffer@[j] == old(framebuffer).buffer@[j],
        spec_trail_clip(uniforms.projection_matrix@, uniforms.view_matrix@, *particle).w <= 0
            ==> *final(framebuffer) == *old(framebuffer),
        spec_trail_clip(uniforms.projection_matrix@, uniforms.view_matrix@, *particle).w > 0 ==> {
            let screen = spec_trail_screen(
                uniforms.projection_matrix@,
                uniforms.view_matrix@,
                uniforms.viewport_matrix@,
                *particle,
            );
            let px = spec_screen_pixel(screen.x);
            let py = spec_screen_pixel(screen.y);
            &&& (px >= old(framebuffer).width || py >= old(framebuffer).height) ==> *final(framebuffer) == *old(framebuffer)
            &&& (px < old(framebuffer).width && py < old(framebuffer).height) ==> {
                let idx = py * (old(framebuffer).width as int) + px;
                &&& final(framebuffer).z_buffer@[idx] == (if screen.z < old(framebuffer).z_buffer@[idx] {
                    screen.z
                } else {
                    old(framebuffer).z_buffer@[idx] as int
                })
                &&& screen.z < old(framebuffer).z_buffer@[idx] ==> final(framebuffer).buffer@[idx]
                    == spec_trail_paint(*particle)
                &&& forall|j: int|
                    0 <= j < final(framebuffer).z_buffer@.len() && j != idx ==> final(framebuffer).z_buffer@[j] == old(framebuffer).z_buffer@[j] && final(framebuffer).buffer@[j] == old(framebuffer).buffer@[j]
            }
        },
{
    let model_matrix = crate::transform::create_model_matrix(
        particle.position,
        particle.size,
        crate::vec3::Vec3 { x: 0, y: 0, z: 0 },
    );
    let pv = uniforms.projection_matrix.mul_mat(&uniforms.view_matrix);
    let pvm = pv.mul_mat(&model_matrix);
    let clip = pvm.mul_vec4(&crate::vec3::Vec4 { x: 0, y: 0, z: 0, w: FX_ONE });
    if clip.w <= 0 {
        return;
    }
    let ndc = crate::vec3::Vec4 {
        x: crate::fx::fx_div(clip.x, clip.w),
        y: crate::fx::fx_div(clip.y, clip.w),
        z: crate::fx::fx_div(clip.z, clip.w),
        w: FX_ONE,
    };
    let screen = uniforms.viewport_matrix.mul_vec4(&ndc);
    proof {
        assert(screen@ == spec_trail_screen(
            uniforms.projection_matrix@,
            uniforms.view_matrix@,
            uniforms.viewport_matrix@,
            *particle,
        ));
    }
    let px: u64 = if screen.x < 0 {
        0
    } else {
        (screen.x as u64) / (FX_ONE as u64)
    };
    let py: u64 = if screen.y < 0 {
        0
    } else {
        (screen.y as u64) / (FX_ONE as u64)
    };
    proof {
        assert(px as int == spec_screen_pixel(screen@.x));
        assert(py as int == spec_screen_pixel(screen@.y));
    }
    if px < framebuffer.width as u64 && py < framebuffer.height as u64 {
        let alpha = crate::fx::fx_clamp(crate::fx::fx_mul(particle.lifetime, 255), 0, 255) as u32;
        let color = (particle.color & 0x00FFFFFF) | (alpha << 24u32);
        proof {
            assert(color == spec_trail_paint(*particle));
        }
        framebuffer.set_current_color(color);
        framebuffer.point(px as usize, py as usize, screen.z);
    }
}

/// The mesh detail level for an object at the given distance: 0 is the
/// finest, 2 the coarsest.
pub fn calculate_detail_level(distance: i64) -> (level: usize)
    ensures
        distance < 5 * FX_ONE ==> level == 0,
        5 * FX_ONE <= distance < 20 * FX_ONE ==> level == 1,
        distance >= 20 * FX_ONE ==> level == 2,
{
    if distance < 5 * FX_ONE {
        0
    } else if distance < 20 * FX_ONE {
        1
    } else {
        2
    }
}

/// The mesh for a detail level.  Level-of-detail meshes are a stub:
/// every level returns the same mesh.
pub fn get_lod_mesh<'a>(vertex_arrays: &'a Vec<Vertex>, detail_level: usize) -> (mesh: &'a Vec<
    Vertex,
>)
    ensures
        mesh@ == vertex_arrays@,
{
    vertex_arrays
}

} // verus!
