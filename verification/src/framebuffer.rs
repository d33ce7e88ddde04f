//! The framebuffer: packed color buffer plus depth buffer.
//!
//! Depth is a 16.16 fixed-point value; [`DEPTH_INFINITY`] marks an empty
//! pixel and smaller means nearer.  A pixel's stored depth only ever
//! decreases across writes ([`Framebuffer::point`]), and
//! [`Framebuffer::clear`] resets every pixel to the background color and
//! an empty depth.

use vstd::prelude::*;

verus! {

/// The depth of an empty pixel; every real write is nearer.
pub const DEPTH_INFINITY: i64 = i64::MAX;

/// Owns the color and depth planes and exposes the depth-tested write.
pub struct Framebuffer {
    pub buffer: Vec<u32>,
    pub z_buffer: Vec<i64>,
    pub width: usize,
    pub height: usize,
    pub current_color: u32,
    pub background_color: u32,
}

/// A vector of `n` copies of `v`.
fn filled_vec_u32(n: usize, v: u32) -> (r: Vec<u32>)
    ensures
        r@.len() == n,
        forall|i: int| 0 <= i < n ==> r@[i] == v,
{
    let mut out: Vec<u32> = Vec::new();
    while out.len() < n
        invariant
            out@.len() <= n,
            forall|i: int| 0 <= i < out@.len() ==> out@[i] == v,
        decreases n - out@.len(),
    {
        out.push(v);
    }
    out
}

/// A vector of `n` copies of `v`.
fn filled_vec_i64(n: usize, v: i64) -> (r: Vec<i64>)
    ensures
        r@.len() == n,
        forall|i: int| 0 <= i < n ==> r@[i] == v,
{
    let mut out: Vec<i64> = Vec::new();
    while out.len() < n
        invariant
            out@.len() <= n,
            forall|i: int| 0 <= i < out@.len() ==> out@[i] == v,
        decreases n - out@.len(),
    {
        out.push(v);
    }
    out
}

/// The stored depth of a pixel after a run of depth-tested writes, each
/// keeping the smaller of the stored and the offered depth — the step
/// that [`Framebuffer::point`]'s contract states for one write.
pub open spec fn spec_depth_after_writes(z0: int, offered: Seq<int>) -> int
    decreases offered.len(),
{
    if offered.len() == 0 {
        z0
    } else {
        spec_depth_after_writes(
            if offered[0] < z0 {
                offered[0]
            } else {
                z0
            },
            offered.drop_first(),
        )
    }
}

/// For every write sequence to a pixel, the final stored depth is the
/// minimum depth ever offered to it (or the initial depth if that is
/// smaller still): it is a lower bound of all of them and is attained.
pub proof fn lemma_depth_after_writes_is_min(z0: int, offered: Seq<int>)
    ensures
        spec_depth_after_writes(z0, offered) <= z0,
        forall|i: int|
            0 <= i < offered.len() ==> spec_depth_after_writes(z0, offered) <= offered[i],
        spec_depth_after_writes(z0, offered) == z0 || exists|i: int|
            0 <= i < offered.len() && spec_depth_after_writes(z0, offered) == offered[i],
    decreases offered.len(),
{
    if offered.len() == 0 {
    } else {
        let z1 = if offered[0] < z0 {
            offered[0]
        } else {
            z0
        };
        let rest = offered.drop_first();
        lemma_depth_after_writes_is_min(z1, rest);
        let fin = spec_depth_after_writes(z0, offered);
        assert(forall|i: int| 0 <= i < rest.len() ==> rest[i] == offered[i + 1]);
        assert(forall|i: int|
            1 <= i < offered.len() ==> fin <= #[trigger] offered[i]) by {
            assert(forall|i: int|
                1 <= i < offered.len() ==> #[trigger] offered[i] == rest[i - 1]);
        };
        if fin != z0 {
            if fin == z1 {
                assert(fin == offered[0]);
            } else {
                let j = choose|j: int| 0 <= j < rest.len() && fin == rest[j];
                assert(fin == offered[j + 1]);
            }
        }
    }
}

impl Framebuffer {
    /// Both planes cover exactly `width * height` pixels.
    pub open spec fn wf(&self) -> bool {
        &&& self.buffer@.len() == (self.width as int) * (self.height as int)
        &&& self.z_buffer@.len() == (self.width as int) * (self.height as int)
    }

    /// The index of a pixel in either plane.
    pub open spec fn spec_index(&self, x: int, y: int) -> int {
        y * (self.width as int) + x
    }

    /// An empty framebuffer: colors 0, depths at infinity.
    pub fn new(width: usize, height: usize) -> (fb: Framebuffer)
        requires
            (width as int) * (height as int) <= usize::MAX,
        ensures
            fb.wf(),
            fb.width == width,
            fb.height == height,
            fb.current_color == 0,
            fb.background_color == 0,
            forall|i: int| 0 <= i < fb.buffer@.len() ==> fb.buffer@[i] == 0,
            forall|i: int| 0 <= i < fb.z_buffer@.len() ==> fb.z_buffer@[i] == DEPTH_INFINITY,
    {
        let n = width * height;
        Framebuffer {
            buffer: filled_vec_u32(n, 0),
            z_buffer: filled_vec_i64(n, DEPTH_INFINITY),
            width,
            height,
            current_color: 0,
            background_color: 0,
        }
    }

    /// Resets every pixel's color to the background and its depth to
    /// infinity.
    pub fn clear(&mut self)
        requires
            old(self).wf(),
        ensures
            final(self).wf(),
            final(self).width == old(self).width,
            final(self).height == old(self).height,
            final(self).current_color == old(self).current_color,
            final(self).background_color == old(self).background_color,
            forall|i: int|
                0 <= i < final(self).buffer@.len() ==> final(self).buffer@[i] == final(self).background_color,
            forall|i: int|
                0 <= i < final(self).z_buffer@.len() ==> final(self).z_buffer@[i]
                    == DEPTH_INFINITY,
    {
        let len = self.buffer.len();
        proof {
            let w = self.width as int;
            let h = self.height as int;
            assert(w * h <= usize::MAX) by (nonlinear_arith)
                requires
                    len <= usize::MAX,
                    w * h == len as int,
            ;
        }
        let n = self.width * self.height;
        self.buffer = filled_vec_u32(n, self.background_color);
        self.z_buffer = filled_vec_i64(n, DEPTH_INFINITY);
    }

    /// Sets the color used by subsequent writes.
    pub fn set_current_color(&mut self, color: u32)
        ensures
            *final(self) == (Framebuffer { current_color: color, ..*old(self) }),
    {
        self.current_color = color;
    }

    /// Sets the color that [`Framebuffer::clear`] paints.
    pub fn set_background_color(&mut self, color: u32)
        ensures
            *final(self) == (Framebuffer { background_color: color, ..*old(self) }),
    {
        self.background_color = color;
    }

    /// A depth-tested write would land exactly when the offered depth is
    /// nearer than the stored one.
    pub fn should_draw(&self, x: usize, y: usize, depth: i64) -> (r: bool)
        requires
            self.wf(),
            x < self.width,
            y < self.height,
        ensures
            r == (depth < self.z_buffer@[self.spec_index(x as int, y as int)]),
    {
        proof {
            self.lemma_index_in_bounds(x as int, y as int);
        }
        let total = self.z_buffer.len();
        let index = y * self.width + x;
        depth < self.z_buffer[index]
    }

    /// Depth-tested write: when the offered depth is nearer, the pixel
    /// takes the current color and the offered depth; otherwise nothing
    /// changes.  Either way the stored depth afterwards is the minimum of
    /// the stored and the offered depth, so it never increases.
    pub fn point(&mut self, x: usize, y: usize, depth: i64)
        requires
            old(self).wf(),
            x < old(self).width,
            y < old(self).height,
        ensures
            final(self).wf(),
            final(self).width == old(self).width,
            final(self).height == old(self).height,
            final(self).current_color == old(self).current_color,
            final(self).background_color == old(self).background_color,
            final(self).z_buffer@[old(self).spec_index(x as int, y as int)] == (if depth < old(self).z_buffer@[old(self).spec_index(x as int, y as int)] {
                depth as int
            } else {
                old(self).z_buffer@[old(self).spec_index(x as int, y as int)] as int
            }),
            depth < old(self).z_buffer@[old(self).spec_index(x as int, y as int)] ==> final(self).buffer@[old(self).spec_index(x as int, y as int)] == old(self).current_color,
            !(depth < old(self).z_buffer@[old(self).spec_index(x as int, y as int)]) ==> *final(self) == *old(self),
            forall|j: int|
                0 <= j < final(self).buffer@.len() && j != old(self).spec_index(
                    x as int,
                    y as int,
                ) ==> final(self).buffer@[j] == old(self).buffer@[j],
            forall|j: int|
                0 <= j < final(self).z_buffer@.len() && j != old(self).spec_index(
                    x as int,
                    y as int,
                ) ==> final(self).z_buffer@[j] == old(self).z_buffer@[j],
    {
        proof {
            self.lemma_index_in_bounds(x as int, y as int);
        }
        let total = self.z_buffer.len();
        let index = y * self.width + x;
        if depth < self.z_buffer[index] {
            self.buffer[index] = self.current_color;
            self.z_buffer[index] = depth;
        }
    }

    /// A pixel inside the planes indexes inside both vectors.
    proof fn lemma_index_in_bounds(&self, x: int, y: int)
        requires
            self.wf(),
            0 <= x < self.width,
            0 <= y < self.height,
        ensures
            0 <= self.spec_index(x, y) < self.buffer@.len(),
            0 <= self.spec_index(x, y) < self.z_buffer@.len(),
            self.spec_index(x, y) == y * (self.width as int) + x,
    {
        assert(0 <= y * (self.width as int) + x < (self.width as int) * (self.height as int))
            by (nonlinear_arith)
            requires
                0 <= x < self.width as int,
                0 <= y < self.height as int,
        ;
    }
}

} // verus!
