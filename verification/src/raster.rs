//! The rasterizer: triangle to fragment-stream conversion.
//!
//! The screen-space bounding box of the three projected vertices is
//! clamped to the framebuffer; every integer pixel inside it whose three
//! barycentric edge values share the winding's sign becomes a fragment,
//! with depth, normal, model-space position and base color linearly
//! interpolated in screen space (not perspective-correct — an accepted
//! approximation).  Degenerate triangles — zero area, a bounding box
//! apart from the framebuffer, or coordinates beyond the supported
//! range — yield an empty stream, never a fault.

use vstd::prelude::*;

use crate::color::Color;
use crate::fragment::{spec_intensity, Fragment};
use crate::fx::{
    div_trunc_s, fx_clamp, fx_clamp_s, fx_max, fx_max_s, fx_min, fx_min_s, fx_sat_s, sat_signed,
    FX_ONE,
};
use crate::vec3::{SpecVec3, Vec3};
use crate::vertex::Vertex;

verus! {

/// Coordinates and attributes beyond this bound (2^31 in fixed point,
/// about 32 thousand pixels) make a triangle degenerate.
pub const RASTER_LIMIT: i64 = 0x8000_0000;

/// The largest framebuffer edge the rasterizer accepts, in pixels.
pub const MAX_SURFACE: usize = 32768;

/// Twice the signed area of the triangle `(a, b, p)`.
pub open spec fn spec_edge(ax: int, ay: int, bx: int, by: int, px: int, py: int) -> int {
    (bx - ax) * (py - ay) - (by - ay) * (px - ax)
}

/// Edge value of pixel `(px, py)` against the side `p1 -> p2`.
pub open spec fn spec_e0(p0: SpecVec3, p1: SpecVec3, p2: SpecVec3, px: int, py: int) -> int {
    spec_edge(p1.x, p1.y, p2.x, p2.y, px * FX_ONE, py * FX_ONE)
}

/// Edge value of pixel `(px, py)` against the side `p2 -> p0`.
pub open spec fn spec_e1(p0: SpecVec3, p1: SpecVec3, p2: SpecVec3, px: int, py: int) -> int {
    spec_edge(p2.x, p2.y, p0.x, p0.y, px * FX_ONE, py * FX_ONE)
}

/// Edge value of pixel `(px, py)` against the side `p0 -> p1`.
pub open spec fn spec_e2(p0: SpecVec3, p1: SpecVec3, p2: SpecVec3, px: int, py: int) -> int {
    spec_edge(p0.x, p0.y, p1.x, p1.y, px * FX_ONE, py * FX_ONE)
}

/// Twice the triangle's signed area.
pub open spec fn spec_area(p0: SpecVec3, p1: SpecVec3, p2: SpecVec3) -> int {
    spec_edge(p0.x, p0.y, p1.x, p1.y, p2.x, p2.y)
}

/// A pixel belongs to the triangle exactly when all three barycentric
/// weights are non-negative: the edge values share the area's sign.
pub open spec fn spec_inside(p0: SpecVec3, p1: SpecVec3, p2: SpecVec3, px: int, py: int) -> bool {
    let area = spec_area(p0, p1, p2);
    let e0 = spec_e0(p0, p1, p2, px, py);
    let e1 = spec_e1(p0, p1, p2, px, py);
    let e2 = spec_e2(p0, p1, p2, px, py);
    &&& area != 0
    &&& (area > 0 ==> e0 >= 0 && e1 >= 0 && e2 >= 0)
    &&& (area < 0 ==> e0 <= 0 && e1 <= 0 && e2 <= 0)
}

/// Screen-space linear interpolation of one attribute by the barycentric
/// edge values, saturated into the scalar range.
pub open spec fn spec_interp(e0: int, e1: int, e2: int, a0: int, a1: int, a2: int, area: int) -> int {
    fx_sat_s(div_trunc_s(e0 * a0 + e1 * a1 + e2 * a2, area))
}

/// The interpolated value of one attribute at pixel `(px, py)`.
pub open spec fn spec_attr(
    p0: SpecVec3,
    p1: SpecVec3,
    p2: SpecVec3,
    px: int,
    py: int,
    a0: int,
    a1: int,
    a2: int,
) -> int {
    spec_interp(
        spec_e0(p0, p1, p2, px, py),
        spec_e1(p0, p1, p2, px, py),
        spec_e2(p0, p1, p2, px, py),
        a0,
        a1,
        a2,
        spec_area(p0, p1, p2),
    )
}

/// All components within the rasterizer's coordinate range.
pub open spec fn spec_v3_in_range(v: SpecVec3) -> bool {
    &&& -RASTER_LIMIT <= v.x <= RASTER_LIMIT
    &&& -RASTER_LIMIT <= v.y <= RASTER_LIMIT
    &&& -RASTER_LIMIT <= v.z <= RASTER_LIMIT
}

/// Every interpolated attribute of the vertex within range.
pub open spec fn spec_vertex_in_range(v: Vertex) -> bool {
    &&& spec_v3_in_range(v.transformed_position@)
    &&& spec_v3_in_range(v.transformed_normal@)
    &&& spec_v3_in_range(v.position@)
}

/// The triangle's bounding box lies apart from the framebuffer.
pub open spec fn spec_bbox_separated(
    p0: SpecVec3,
    p1: SpecVec3,
    p2: SpecVec3,
    width: int,
    height: int,
) -> bool {
    ||| fx_max_s(fx_max_s(p0.x, p1.x), p2.x) < 0
    ||| fx_min_s(fx_min_s(p0.x, p1.x), p2.x) >= width * FX_ONE
    ||| fx_max_s(fx_max_s(p0.y, p1.y), p2.y) < 0
    ||| fx_min_s(fx_min_s(p0.y, p1.y), p2.y) >= height * FX_ONE
}

/// The first framebuffer column the rasterizer scans: the smallest
/// vertex x, clamped into the columns, in whole pixels.
pub open spec fn spec_box_x_lo(p0: SpecVec3, p1: SpecVec3, p2: SpecVec3, width: int) -> int {
    fx_clamp_s(fx_min_s(fx_min_s(p0.x, p1.x), p2.x), 0, width * FX_ONE - FX_ONE) / (FX_ONE as int)
}

/// The last framebuffer column the rasterizer scans.
pub open spec fn spec_box_x_hi(p0: SpecVec3, p1: SpecVec3, p2: SpecVec3, width: int) -> int {
    fx_clamp_s(fx_max_s(fx_max_s(p0.x, p1.x), p2.x), 0, width * FX_ONE - FX_ONE) / (FX_ONE as int)
}

/// The first framebuffer row the rasterizer scans.
pub open spec fn spec_box_y_lo(p0: SpecVec3, p1: SpecVec3, p2: SpecVec3, height: int) -> int {
    fx_clamp_s(fx_min_s(fx_min_s(p0.y, p1.y), p2.y), 0, height * FX_ONE - FX_ONE) / (FX_ONE as int)
}

/// The last framebuffer row the rasterizer scans.
pub open spec fn spec_box_y_hi(p0: SpecVec3, p1: SpecVec3, p2: SpecVec3, height: int) -> int {
    fx_clamp_s(fx_max_s(fx_max_s(p0.y, p1.y), p2.y), 0, height * FX_ONE - FX_ONE) / (FX_ONE as int)
}

/// The rasterizer emits a fragment for a pixel exactly when the
/// triangle's vertices are in range, its bounding box meets the
/// framebuffer, and the pixel passes the winding test.
pub open spec fn spec_emits(
    v0: Vertex,
    v1: Vertex,
    v2: Vertex,
    width: int,
    height: int,
    px: int,
    py: int,
) -> bool {
    &&& spec_vertex_in_range(v0)
    &&& spec_vertex_in_range(v1)
    &&& spec_vertex_in_range(v2)
    &&& !spec_bbox_separated(
        v0.transformed_position@,
        v1.transformed_position@,
        v2.transformed_position@,
        width,
        height,
    )
    &&& spec_inside(
        v0.transformed_position@,
        v1.transformed_position@,
        v2.transformed_position@,
        px,
        py,
    )
}

/// One axis of the hull bound: a pixel whose barycentric weights share
/// the area's sign lies between the clamped scan bounds of that axis.
proof fn lemma_axis_in_box(
    c0: int,
    c1: int,
    c2: int,
    e0: int,
    e1: int,
    e2: int,
    area: int,
    pix: int,
    extent: int,
)
    requires
        e0 * c0 + e1 * c1 + e2 * c2 == area * (pix * FX_ONE),
        e0 + e1 + e2 == area,
        area != 0,
        area > 0 ==> e0 >= 0 && e1 >= 0 && e2 >= 0,
        area < 0 ==> e0 <= 0 && e1 <= 0 && e2 <= 0,
        0 <= pix < extent,
    ensures
        fx_clamp_s(fx_min_s(fx_min_s(c0, c1), c2), 0, extent * FX_ONE - FX_ONE) / (
        FX_ONE as int) <= pix,
        pix <= fx_clamp_s(fx_max_s(fx_max_s(c0, c1), c2), 0, extent * FX_ONE - FX_ONE) / (
        FX_ONE as int),
{
    let s = pix * FX_ONE;
    let lo = fx_min_s(fx_min_s(c0, c1), c2);
    let hi = fx_max_s(fx_max_s(c0, c1), c2);
    assert((e0 + e1 + e2) * hi == e0 * hi + e1 * hi + e2 * hi && (e0 + e1 + e2) * lo == e0 * lo
        + e1 * lo + e2 * lo) by (nonlinear_arith);
    if area > 0 {
        assert(e0 * c0 <= e0 * hi && e1 * c1 <= e1 * hi && e2 * c2 <= e2 * hi && e0 * lo <= e0 * c0
            && e1 * lo <= e1 * c1 && e2 * lo <= e2 * c2) by (nonlinear_arith)
            requires
                e0 >= 0,
                e1 >= 0,
                e2 >= 0,
                lo <= c0 <= hi,
                lo <= c1 <= hi,
                lo <= c2 <= hi,
        ;
        assert(area * lo <= area * s <= area * hi);
        assert(lo <= s <= hi) by (nonlinear_arith)
            requires
                area * lo <= area * s <= area * hi,
                area > 0,
        ;
    } else {
        assert(e0 * hi <= e0 * c0 && e1 * hi <= e1 * c1 && e2 * hi <= e2 * c2 && e0 * c0 <= e0 * lo
            && e1 * c1 <= e1 * lo && e2 * c2 <= e2 * lo) by (nonlinear_arith)
            requires
                e0 <= 0,
                e1 <= 0,
                e2 <= 0,
                lo <= c0 <= hi,
                lo <= c1 <= hi,
                lo <= c2 <= hi,
        ;
        assert(area * hi <= area * s <= area * lo);
        assert(lo <= s <= hi) by (nonlinear_arith)
            requires
                area * hi <= area * s <= area * lo,
                area < 0,
        ;
    }
    let top = extent * FX_ONE - FX_ONE;
    vstd::arithmetic::div_mod::lemma_div_multiples_vanish(pix, FX_ONE as int);
    assert(s / (FX_ONE as int) == pix);
    if lo < 0 {
        vstd::arithmetic::div_mod::lemma_div_pos_is_pos(s, FX_ONE as int);
    } else if lo <= top {
        vstd::arithmetic::div_mod::lemma_div_is_ordered(lo, s, FX_ONE as int);
    } else {
        assert((extent - 1) * FX_ONE == top);
        assert(false) by (nonlinear_arith)
            requires
                s > top,
                s == pix * FX_ONE,
                top == (extent - 1) * FX_ONE,
                pix < extent,
                FX_ONE > 0,
        ;
    }
    if hi > top {
        assert((extent - 1) * FX_ONE == top);
        vstd::arithmetic::div_mod::lemma_div_multiples_vanish(extent - 1, FX_ONE as int);
    } else if hi >= 0 {
        vstd::arithmetic::div_mod::lemma_div_is_ordered(s, hi, FX_ONE as int);
    } else {
        assert(false) by (nonlinear_arith)
            requires
                s <= hi,
                hi < 0,
                s == pix * FX_ONE,
                pix >= 0,
                FX_ONE > 0,
        ;
    }
}

/// A pixel inside the triangle lies within its clamped scan box: the
/// barycentric identities place the pixel center between the vertex
/// coordinates on each axis.
#[verifier::rlimit(100)]
proof fn lemma_inside_in_box(
    p0: SpecVec3,
    p1: SpecVec3,
    p2: SpecVec3,
    px: int,
    py: int,
    width: int,
    height: int,
)
    requires
        spec_inside(p0, p1, p2, px, py),
        0 <= px < width,
        0 <= py < height,
    ensures
        spec_box_x_lo(p0, p1, p2, width) <= px <= spec_box_x_hi(p0, p1, p2, width),
        spec_box_y_lo(p0, p1, p2, height) <= py <= spec_box_y_hi(p0, p1, p2, height),
{
    let sx = px * FX_ONE;
    let sy = py * FX_ONE;
    let e0 = spec_e0(p0, p1, p2, px, py);
    let e1 = spec_e1(p0, p1, p2, px, py);
    let e2 = spec_e2(p0, p1, p2, px, py);
    let area = spec_area(p0, p1, p2);
    let a0 = p0.x - sx;
    let a1 = p1.x - sx;
    let a2 = p2.x - sx;
    let b0 = p0.y - sy;
    let b1 = p1.y - sy;
    let b2 = p2.y - sy;
    assert(e0 == a1 * b2 - a2 * b1) by (nonlinear_arith)
        requires
            e0 == (p2.x - p1.x) * (sy - p1.y) - (p2.y - p1.y) * (sx - p1.x),
            a1 == p1.x - sx,
            a2 == p2.x - sx,
            b1 == p1.y - sy,
            b2 == p2.y - sy,
    ;
    assert(e1 == a2 * b0 - a0 * b2) by (nonlinear_arith)
        requires
            e1 == (p0.x - p2.x) * (sy - p2.y) - (p0.y - p2.y) * (sx - p2.x),
            a0 == p0.x - sx,
            a2 == p2.x - sx,
            b0 == p0.y - sy,
            b2 == p2.y - sy,
    ;
    assert(e2 == a0 * b1 - a1 * b0) by (nonlinear_arith)
        requires
            e2 == (p1.x - p0.x) * (sy - p0.y) - (p1.y - p0.y) * (sx - p0.x),
            a0 == p0.x - sx,
            a1 == p1.x - sx,
            b0 == p0.y - sy,
            b1 == p1.y - sy,
    ;
    assert(area == (a1 * b2 - a2 * b1) + (a2 * b0 - a0 * b2) + (a0 * b1 - a1 * b0))
        by (nonlinear_arith)
        requires
            area == (p1.x - p0.x) * (p2.y - p0.y) - (p1.y - p0.y) * (p2.x - p0.x),
            a0 == p0.x - sx,
            a1 == p1.x - sx,
            a2 == p2.x - sx,
            b0 == p0.y - sy,
            b1 == p1.y - sy,
            b2 == p2.y - sy,
    ;
    assert(e0 + e1 + e2 == area);
    assert(a0 * (a1 * b2 - a2 * b1) + a1 * (a2 * b0 - a0 * b2) + a2 * (a0 * b1 - a1 * b0) == 0)
        by (nonlinear_arith);
    assert(b0 * (a1 * b2 - a2 * b1) + b1 * (a2 * b0 - a0 * b2) + b2 * (a0 * b1 - a1 * b0) == 0)
        by (nonlinear_arith);
    assert(e0 * a0 + e1 * a1 + e2 * a2 == 0) by (nonlinear_arith)
        requires
            e0 == a1 * b2 - a2 * b1,
            e1 == a2 * b0 - a0 * b2,
            e2 == a0 * b1 - a1 * b0,
            a0 * (a1 * b2 - a2 * b1) + a1 * (a2 * b0 - a0 * b2) + a2 * (a0 * b1 - a1 * b0) == 0,
    ;
    assert(e0 * b0 + e1 * b1 + e2 * b2 == 0) by (nonlinear_arith)
        requires
            e0 == a1 * b2 - a2 * b1,
            e1 == a2 * b0 - a0 * b2,
            e2 == a0 * b1 - a1 * b0,
            b0 * (a1 * b2 - a2 * b1) + b1 * (a2 * b0 - a0 * b2) + b2 * (a0 * b1 - a1 * b0) == 0,
    ;
    assert(e0 * p0.x + e1 * p1.x + e2 * p2.x == area * sx) by (nonlinear_arith)
        requires
            p0.x == sx + a0,
            p1.x == sx + a1,
            p2.x == sx + a2,
            e0 * a0 + e1 * a1 + e2 * a2 == 0,
            e0 + e1 + e2 == area,
    ;
    assert(e0 * p0.y + e1 * p1.y + e2 * p2.y == area * sy) by (nonlinear_arith)
        requires
            p0.y == sy + b0,
            p1.y == sy + b1,
            p2.y == sy + b2,
            e0 * b0 + e1 * b1 + e2 * b2 == 0,
            e0 + e1 + e2 == area,
    ;
    lemma_axis_in_box(p0.x, p1.x, p2.x, e0, e1, e2, area, px, width);
    lemma_axis_in_box(p0.y, p1.y, p2.y, e0, e1, e2, area, py, height);
}

/// The fragment the triangle produces at pixel `(px, py)`: every
/// attribute linearly interpolated, the color clamped into its channels,
/// and the intensity derived from the interpolated normal (opaque:
/// proofs reveal it only where the interpolation formulas matter).
#[verifier::opaque]
pub open spec fn spec_fragment_at(v0: Vertex, v1: Vertex, v2: Vertex, px: int, py: int) -> Fragment {
    let p0 = v0.transformed_position@;
    let p1 = v1.transformed_position@;
    let p2 = v2.transformed_position@;
    let nx = spec_attr(p0, p1, p2, px, py, v0.transformed_normal@.x, v1.transformed_normal@.x, v2.transformed_normal@.x);
    let ny = spec_attr(p0, p1, p2, px, py, v0.transformed_normal@.y, v1.transformed_normal@.y, v2.transformed_normal@.y);
    let nz = spec_attr(p0, p1, p2, px, py, v0.transformed_normal@.z, v1.transformed_normal@.z, v2.transformed_normal@.z);
    Fragment {
        x: px as usize,
        y: py as usize,
        depth: spec_attr(p0, p1, p2, px, py, p0.z, p1.z, p2.z) as i64,
        normal: Vec3 { x: nx as i64, y: ny as i64, z: nz as i64 },
        vertex_position: Vec3 {
            x: spec_attr(p0, p1, p2, px, py, v0.position@.x, v1.position@.x, v2.position@.x) as i64,
            y: spec_attr(p0, p1, p2, px, py, v0.position@.y, v1.position@.y, v2.position@.y) as i64,
            z: spec_attr(p0, p1, p2, px, py, v0.position@.z, v1.position@.z, v2.position@.z) as i64,
        },
        color: Color {
            r: fx_clamp_s(
                spec_attr(p0, p1, p2, px, py, v0.color.r as int, v1.color.r as int, v2.color.r as int),
                0,
                255,
            ) as u8,
            g: fx_clamp_s(
                spec_attr(p0, p1, p2, px, py, v0.color.g as int, v1.color.g as int, v2.color.g as int),
                0,
                255,
            ) as u8,
            b: fx_clamp_s(
                spec_attr(p0, p1, p2, px, py, v0.color.b as int, v1.color.b as int, v2.color.b as int),
                0,
                255,
            ) as u8,
        },
        intensity: spec_intensity(SpecVec3 { x: nx, y: ny, z: nz }) as i64,
    }
}

fn v3_in_range(v: &Vec3) -> (r: bool)
    ensures
        r == spec_v3_in_range(v@),
{
    -RASTER_LIMIT <= v.x && v.x <= RASTER_LIMIT && -RASTER_LIMIT <= v.y && v.y <= RASTER_LIMIT
        && -RASTER_LIMIT <= v.z && v.z <= RASTER_LIMIT
}

fn vertex_in_range(v: &Vertex) -> (r: bool)
    ensures
        r == spec_vertex_in_range(*v),
{
    v3_in_range(&v.transformed_position) && v3_in_range(&v.transformed_normal) && v3_in_range(
        &v.position,
    )
}

/// An edge value, exact in a wide integer, with its magnitude bound.
fn edge_wide(ax: i64, ay: i64, bx: i64, by: i64, px: i64, py: i64) -> (e: i128)
    requires
        -RASTER_LIMIT <= ax <= RASTER_LIMIT,
        -RASTER_LIMIT <= ay <= RASTER_LIMIT,
        -RASTER_LIMIT <= bx <= RASTER_LIMIT,
        -RASTER_LIMIT <= by <= RASTER_LIMIT,
        -RASTER_LIMIT <= px <= RASTER_LIMIT,
        -RASTER_LIMIT <= py <= RASTER_LIMIT,
    ensures
        e == spec_edge(ax as int, ay as int, bx as int, by as int, px as int, py as int),
        -0x4_0000_0000_0000_0000_0000i128 <= e <= 0x4_0000_0000_0000_0000_0000i128,
{
    let dx1: i128 = bx as i128 - ax as i128;
    let dy2: i128 = py as i128 - ay as i128;
    let dy1: i128 = by as i128 - ay as i128;
    let dx2: i128 = px as i128 - ax as i128;
    proof {
        assert(-0x2_0000_0000_0000_0000_0000i128 <= dx1 * dy2 <= 0x2_0000_0000_0000_0000_0000i128
            && -0x2_0000_0000_0000_0000_0000i128 <= dy1 * dx2
            <= 0x2_0000_0000_0000_0000_0000i128) by (nonlinear_arith)
            requires
                -0x1_0000_0000i128 <= dx1 <= 0x1_0000_0000i128,
                -0x1_0000_0000i128 <= dy2 <= 0x1_0000_0000i128,
                -0x1_0000_0000i128 <= dy1 <= 0x1_0000_0000i128,
                -0x1_0000_0000i128 <= dx2 <= 0x1_0000_0000i128,
        ;
    }
    dx1 * dy2 - dy1 * dx2
}

/// Interpolates one attribute by the edge weights, saturating.
fn interp3(e0: i128, e1: i128, e2: i128, a0: i64, a1: i64, a2: i64, area: i128) -> (r: i64)
    requires
        area != 0,
        -0x4_0000_0000_0000_0000_0000i128 <= area <= 0x4_0000_0000_0000_0000_0000i128,
        -0x4_0000_0000_0000_0000_0000i128 <= e0 <= 0x4_0000_0000_0000_0000_0000i128,
        -0x4_0000_0000_0000_0000_0000i128 <= e1 <= 0x4_0000_0000_0000_0000_0000i128,
        -0x4_0000_0000_0000_0000_0000i128 <= e2 <= 0x4_0000_0000_0000_0000_0000i128,
        -RASTER_LIMIT <= a0 <= RASTER_LIMIT,
        -RASTER_LIMIT <= a1 <= RASTER_LIMIT,
        -RASTER_LIMIT <= a2 <= RASTER_LIMIT,
    ensures
        r == spec_interp(e0 as int, e1 as int, e2 as int, a0 as int, a1 as int, a2 as int, area as int),
{
    proof {
        let bound: int = 0x4_0000_0000_0000_0000_0000int * 0x8000_0000int;
        assert(-bound <= (e0 as int) * (a0 as int) <= bound && -bound <= (e1 as int) * (a1 as int)
            <= bound && -bound <= (e2 as int) * (a2 as int) <= bound) by (nonlinear_arith)
            requires
                -0x4_0000_0000_0000_0000_0000 <= e0 as int <= 0x4_0000_0000_0000_0000_0000,
                -0x4_0000_0000_0000_0000_0000 <= e1 as int <= 0x4_0000_0000_0000_0000_0000,
                -0x4_0000_0000_0000_0000_0000 <= e2 as int <= 0x4_0000_0000_0000_0000_0000,
                -0x8000_0000 <= a0 as int <= 0x8000_0000,
                -0x8000_0000 <= a1 as int <= 0x8000_0000,
                -0x8000_0000 <= a2 as int <= 0x8000_0000,
                bound == 0x4_0000_0000_0000_0000_0000int * 0x8000_0000int,
        ;
    }
    let sum: i128 = e0 * (a0 as i128) + e1 * (a1 as i128) + e2 * (a2 as i128);
    let neg = (sum < 0) != (area < 0);
    let ms: u128 = if sum >= 0 {
        sum as u128
    } else {
        (-sum) as u128
    };
    let ma: u128 = if area >= 0 {
        area as u128
    } else {
        (-area) as u128
    };
    let q: u128 = ms / ma;
    proof {
        if sum < 0 != (area < 0) {
            assert(div_trunc_s(sum as int, area as int) == -(q as int));
        } else {
            assert(div_trunc_s(sum as int, area as int) == q as int);
            if neg {
                assert(q == 0);
            }
        }
    }
    sat_signed(q, neg)
}

/// Rasterizes one triangle of transformed vertices into fragments.
///
/// Every fragment lies strictly inside the framebuffer and on a pixel
/// whose barycentric weights share the winding's sign, and carries
/// exactly the interpolated attributes.  A triangle with zero area, a
/// bounding box apart from the framebuffer, or an out-of-range
/// coordinate yields no fragments.
pub fn rasterize(v0: &Vertex, v1: &Vertex, v2: &Vertex, width: usize, height: usize) -> (out: Vec<
    Fragment,
>)
    requires
        width <= MAX_SURFACE,
        height <= MAX_SURFACE,
    ensures
        forall|i: int|
            0 <= i < out@.len() ==> out@[i].x < width && out@[i].y < height,
        forall|i: int|
            0 <= i < out@.len() ==> spec_inside(
                v0.transformed_position@,
                v1.transformed_position@,
                v2.transformed_position@,
                out@[i].x as int,
                out@[i].y as int,
            ),
        forall|i: int|
            0 <= i < out@.len() ==> out@[i] == spec_fragment_at(
                *v0,
                *v1,
                *v2,
                out@[i].x as int,
                out@[i].y as int,
            ),
        spec_area(v0.transformed_position@, v1.transformed_position@, v2.transformed_position@)
            == 0 ==> out@.len() == 0,
        spec_bbox_separated(
            v0.transformed_position@,
            v1.transformed_position@,
            v2.transformed_position@,
            width as int,
            height as int,
        ) ==> out@.len() == 0,
        (!spec_vertex_in_range(*v0) || !spec_vertex_in_range(*v1) || !spec_vertex_in_range(*v2))
            ==> out@.len() == 0,
        forall|px: int, py: int|
            0 <= px < width && 0 <= py < height && spec_emits(
                *v0,
                *v1,
                *v2,
                width as int,
                height as int,
                px,
                py,
            ) ==> exists|i: int| 0 <= i < out@.len() && out@[i].x == px && out@[i].y == py,
        (spec_vertex_in_range(*v0) && spec_vertex_in_range(*v1) && spec_vertex_in_range(*v2) && 0
            < width && 0 < height && !spec_bbox_separated(
            v0.transformed_position@,
            v1.transformed_position@,
            v2.transformed_position@,
            width as int,
            height as int,
        )) ==> forall|px: int, py: int|
            spec_box_x_lo(
                v0.transformed_position@,
                v1.transformed_position@,
                v2.transformed_position@,
                width as int,
            ) <= px <= spec_box_x_hi(
                v0.transformed_position@,
                v1.transformed_position@,
                v2.transformed_position@,
                width as int,
            ) && spec_box_y_lo(
                v0.transformed_position@,
                v1.transformed_position@,
                v2.transformed_position@,
                height as int,
            ) <= py <= spec_box_y_hi(
                v0.transformed_position@,
                v1.transformed_position@,
                v2.transformed_position@,
                height as int,
            ) && spec_inside(
                v0.transformed_position@,
                v1.transformed_position@,
                v2.transformed_position@,
                px,
                py,
            ) ==> exists|i: int| 0 <= i < out@.len() && out@[i].x == px && out@[i].y == py,
{
    let out: Vec<Fragment> = Vec::new();
    if !(vertex_in_range(v0) && vertex_in_range(v1) && vertex_in_range(v2)) {
        return out;
    }
    if width == 0 || height == 0 {
        return out;
    }
    let p0 = v0.transformed_position;
    let p1 = v1.transformed_position;
    let p2 = v2.transformed_position;
    let max_x = fx_max(fx_max(p0.x, p1.x), p2.x);
    let min_x = fx_min(fx_min(p0.x, p1.x), p2.x);
    let max_y = fx_max(fx_max(p0.y, p1.y), p2.y);
    let min_y = fx_min(fx_min(p0.y, p1.y), p2.y);
    let width_fx: i64 = (width as i64) * FX_ONE;
    let height_fx: i64 = (height as i64) * FX_ONE;
    if max_x < 0 || min_x >= width_fx || max_y < 0 || min_y >= height_fx {
        return out;
    }
    let area = edge_wide(p0.x, p0.y, p1.x, p1.y, p2.x, p2.y);
    if area == 0 {
        return out;
    }
    let x_lo: usize = (fx_clamp(min_x, 0, width_fx - FX_ONE) / FX_ONE as i64) as usize;
    let x_hi: usize = (fx_clamp(max_x, 0, width_fx - FX_ONE) / FX_ONE as i64) as usize;
    let y_lo: usize = (fx_clamp(min_y, 0, height_fx - FX_ONE) / FX_ONE as i64) as usize;
    let y_hi: usize = (fx_clamp(max_y, 0, height_fx - FX_ONE) / FX_ONE as i64) as usize;
    proof {
        assert(x_lo as int == spec_box_x_lo(p0@, p1@, p2@, width as int));
        assert(x_hi as int == spec_box_x_hi(p0@, p1@, p2@, width as int));
        assert(y_lo as int == spec_box_y_lo(p0@, p1@, p2@, height as int));
        assert(y_hi as int == spec_box_y_hi(p0@, p1@, p2@, height as int));
    }
    let emitted = rasterize_box(v0, v1, v2, width, height, x_lo, x_hi, y_lo, y_hi, area);
    proof {
        assert forall|px: int, py: int|
            0 <= px < width && 0 <= py < height && spec_emits(
                *v0,
                *v1,
                *v2,
                width as int,
                height as int,
                px,
                py,
            ) implies exists|i: int|
            0 <= i < emitted@.len() && emitted@[i].x == px && emitted@[i].y == py by {
            lemma_inside_in_box(p0@, p1@, p2@, px, py, width as int, height as int);
        };
    }
    emitted
}

/// Scans the clamped pixel box and collects the fragments inside the
/// triangle.
fn rasterize_box(
    v0: &Vertex,
    v1: &Vertex,
    v2: &Vertex,
    width: usize,
    height: usize,
    x_lo: usize,
    x_hi: usize,
    y_lo: usize,
    y_hi: usize,
    area: i128,
) -> (out: Vec<Fragment>)
    requires
        width <= MAX_SURFACE,
        height <= MAX_SURFACE,
        x_hi < width,
        y_hi < height,
        spec_vertex_in_range(*v0),
        spec_vertex_in_range(*v1),
        spec_vertex_in_range(*v2),
        area == spec_area(
            v0.transformed_position@,
            v1.transformed_position@,
            v2.transformed_position@,
        ),
        area != 0,
        -0x4_0000_0000_0000_0000_0000i128 <= area <= 0x4_0000_0000_0000_0000_0000i128,
    ensures
        forall|i: int|
            0 <= i < out@.len() ==> out@[i].x < width && out@[i].y < height,
        forall|i: int|
            0 <= i < out@.len() ==> spec_inside(
                v0.transformed_position@,
                v1.transformed_position@,
                v2.transformed_position@,
                out@[i].x as int,
                out@[i].y as int,
            ),
        forall|i: int|
            0 <= i < out@.len() ==> out@[i] == spec_fragment_at(
                *v0,
                *v1,
                *v2,
                out@[i].x as int,
                out@[i].y as int,
            ),
        forall|qx: int, qy: int|
            x_lo <= qx <= x_hi && y_lo <= qy <= y_hi && spec_inside(
                v0.transformed_position@,
                v1.transformed_position@,
                v2.transformed_position@,
                qx,
                qy,
            ) ==> exists|i: int| 0 <= i < out@.len() && out@[i].x == qx && out@[i].y == qy,
{
    let mut out: Vec<Fragment> = Vec::new();
    let mut py: usize = y_lo;
    while py <= y_hi
        invariant
            width <= MAX_SURFACE,
            height <= MAX_SURFACE,
            x_hi < width,
            y_hi < height,
            spec_vertex_in_range(*v0),
            spec_vertex_in_range(*v1),
            spec_vertex_in_range(*v2),
            area == spec_area(
                v0.transformed_position@,
                v1.transformed_position@,
                v2.transformed_position@,
            ),
            area != 0,
            -0x4_0000_0000_0000_0000_0000i128 <= area <= 0x4_0000_0000_0000_0000_0000i128,
            forall|i: int|
                0 <= i < out@.len() ==> out@[i].x < width && out@[i].y < height,
            forall|i: int|
                0 <= i < out@.len() ==> spec_inside(
                    v0.transformed_position@,
                    v1.transformed_position@,
                    v2.transformed_position@,
                    out@[i].x as int,
                    out@[i].y as int,
                ),
            forall|i: int|
                0 <= i < out@.len() ==> out@[i] == spec_fragment_at(
                    *v0,
                    *v1,
                    *v2,
                    out@[i].x as int,
                    out@[i].y as int,
                ),
            y_lo <= py,
            forall|qx: int, qy: int|
                x_lo <= qx <= x_hi && y_lo <= qy < py && spec_inside(
                    v0.transformed_position@,
                    v1.transformed_position@,
                    v2.transformed_position@,
                    qx,
                    qy,
                ) ==> exists|i: int| 0 <= i < out@.len() && out@[i].x == qx && out@[i].y == qy,
        decreases y_hi + 1 - py,
    {
        let mut px: usize = x_lo;
        while px <= x_hi
            invariant
                width <= MAX_SURFACE,
                height <= MAX_SURFACE,
                x_hi < width,
                y_hi < height,
                py <= y_hi,
                spec_vertex_in_range(*v0),
                spec_vertex_in_range(*v1),
                spec_vertex_in_range(*v2),
                area == spec_area(
                    v0.transformed_position@,
                    v1.transformed_position@,
                    v2.transformed_position@,
                ),
                area != 0,
                -0x4_0000_0000_0000_0000_0000i128 <= area <= 0x4_0000_0000_0000_0000_0000i128,
                forall|i: int|
                    0 <= i < out@.len() ==> out@[i].x < width && out@[i].y < height,
                forall|i: int|
                    0 <= i < out@.len() ==> spec_inside(
                        v0.transformed_position@,
                        v1.transformed_position@,
                        v2.transformed_position@,
                        out@[i].x as int,
                        out@[i].y as int,
                    ),
                forall|i: int|
                    0 <= i < out@.len() ==> out@[i] == spec_fragment_at(
                        *v0,
                        *v1,
                        *v2,
                        out@[i].x as int,
                        out@[i].y as int,
                    ),
                x_lo <= px,
                forall|qx: int, qy: int|
                    x_lo <= qx <= x_hi && y_lo <= qy < py && spec_inside(
                        v0.transformed_position@,
                        v1.transformed_position@,
                        v2.transformed_position@,
                        qx,
                        qy,
                    ) ==> exists|i: int| 0 <= i < out@.len() && out@[i].x == qx && out@[i].y
                        == qy,
                forall|qx: int|
                    x_lo <= qx < px && spec_inside(
                        v0.transformed_position@,
                        v1.transformed_position@,
                        v2.transformed_position@,
                        qx,
                        py as int,
                    ) ==> exists|i: int| 0 <= i < out@.len() && out@[i].x == qx && out@[i].y
                        == py as int,
            decreases x_hi + 1 - px,
        {
            let ghost n0 = out@.len();
            emit_pixel(v0, v1, v2, px, py, area, &mut out);
            proof {
                if spec_inside(
                    v0.transformed_position@,
                    v1.transformed_position@,
                    v2.transformed_position@,
                    px as int,
                    py as int,
                ) {
                    assert(out@.len() > n0);
                    assert(out@[n0 as int].x == px && out@[n0 as int].y == py);
                }
            }
            px = px + 1;
        }
        py = py + 1;
    }
    out
}

/// Tests one pixel and pushes its fragment when it lies inside the
/// triangle.
fn emit_pixel(
    v0: &Vertex,
    v1: &Vertex,
    v2: &Vertex,
    px: usize,
    py: usize,
    area: i128,
    out: &mut Vec<Fragment>,
)
    requires
        px < MAX_SURFACE,
        py < MAX_SURFACE,
        spec_vertex_in_range(*v0),
        spec_vertex_in_range(*v1),
        spec_vertex_in_range(*v2),
        area == spec_area(
            v0.transformed_position@,
            v1.transformed_position@,
            v2.transformed_position@,
        ),
        area != 0,
        -0x4_0000_0000_0000_0000_0000i128 <= area <= 0x4_0000_0000_0000_0000_0000i128,
    ensures
        final(out)@.len() >= old(out)@.len(),
        spec_inside(
            v0.transformed_position@,
            v1.transformed_position@,
            v2.transformed_position@,
            px as int,
            py as int,
        ) ==> final(out)@.len() > old(out)@.len(),
        forall|i: int| 0 <= i < old(out)@.len() ==> final(out)@[i] == old(out)@[i],
        forall|i: int|
            old(out)@.len() <= i < final(out)@.len() ==> final(out)@[i].x == px && final(out)@[i].y == py && spec_inside(
                v0.transformed_position@,
                v1.transformed_position@,
                v2.transformed_position@,
                px as int,
                py as int,
            ) && final(out)@[i] == spec_fragment_at(*v0, *v1, *v2, px as int, py as int),
{
    let p0 = v0.transformed_position;
    let p1 = v1.transformed_position;
    let p2 = v2.transformed_position;
    let pxf: i64 = (px as i64) * FX_ONE;
    let pyf: i64 = (py as i64) * FX_ONE;
    let e0 = edge_wide(p1.x, p1.y, p2.x, p2.y, pxf, pyf);
    let e1 = edge_wide(p2.x, p2.y, p0.x, p0.y, pxf, pyf);
    let e2 = edge_wide(p0.x, p0.y, p1.x, p1.y, pxf, pyf);
    let inside = if area > 0 {
        e0 >= 0 && e1 >= 0 && e2 >= 0
    } else {
        e0 <= 0 && e1 <= 0 && e2 <= 0
    };
    if inside {
        let depth = interp3(
            e0,
            e1,
            e2,
            v0.transformed_position.z,
            v1.transformed_position.z,
            v2.transformed_position.z,
            area,
        );
        let nx = interp3(
            e0,
            e1,
            e2,
            v0.transformed_normal.x,
            v1.transformed_normal.x,
            v2.transformed_normal.x,
            area,
        );
        let ny = interp3(
            e0,
            e1,
            e2,
            v0.transformed_normal.y,
            v1.transformed_normal.y,
            v2.transformed_normal.y,
            area,
        );
        let nz = interp3(
            e0,
            e1,
            e2,
            v0.transformed_normal.z,
            v1.transformed_normal.z,
            v2.transformed_normal.z,
            area,
        );
        let mx = interp3(e0, e1, e2, v0.position.x, v1.position.x, v2.position.x, area);
        let my = interp3(e0, e1, e2, v0.position.y, v1.position.y, v2.position.y, area);
        let mz = interp3(e0, e1, e2, v0.position.z, v1.position.z, v2.position.z, area);
        let cr = fx_clamp(
            interp3(e0, e1, e2, v0.color.r as i64, v1.color.r as i64, v2.color.r as i64, area),
            0,
            255,
        ) as u8;
        let cg = fx_clamp(
            interp3(e0, e1, e2, v0.color.g as i64, v1.color.g as i64, v2.color.g as i64, area),
            0,
            255,
        ) as u8;
        let cb = fx_clamp(
            interp3(e0, e1, e2, v0.color.b as i64, v1.color.b as i64, v2.color.b as i64, area),
            0,
            255,
        ) as u8;
        let normal = Vec3 { x: nx, y: ny, z: nz };
        let unit = normal.normalize();
        let light = Vec3 { x: 0, y: 0, z: FX_ONE };
        let intensity = fx_max(0, unit.dot(&light));
        let frag = Fragment {
            x: px,
            y: py,
            depth,
            normal,
            vertex_position: Vec3 { x: mx, y: my, z: mz },
            color: Color { r: cr, g: cg, b: cb },
            intensity,
        };
        proof {
            reveal(spec_fragment_at);
            assert(frag == spec_fragment_at(*v0, *v1, *v2, px as int, py as int));
        }
        out.push(frag);
    }
}

} // verus!
