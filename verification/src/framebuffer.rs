//! The frame compositor: a color buffer with a parallel per-pixel depth
//! buffer.
//!
//! Both buffers are reset once per frame. Fragments are submitted through
//! `point`: the coordinates are bounds-checked (out-of-range fragments are
//! silently dropped, as rounding at triangle edges makes them expected), and
//! a fragment survives only if its depth is strictly smaller than the stored
//! depth, so the nearest fragment wins regardless of submission order.

use vstd::prelude::*;

verus! {

/// The depth stored in a freshly cleared pixel: farther than any fragment.
pub const DEPTH_FAR: i64 = i64::MAX;

/// What one submitted fragment leaves at a pixel: the new color and depth if
/// the fragment is strictly closer, the old pair otherwise.
pub open spec fn spec_pixel_after(color0: u32, depth0: i64, color: u32, depth: i64) -> (u32, i64) {
    if depth < depth0 {
        (color, depth)
    } else {
        (color0, depth0)
    }
}

/// Depth-test determinism: for two fragments of distinct depths submitted at
/// one pixel, the surviving color and depth are those of the smaller depth,
/// whatever the submission order; and a pixel whose stored depth already
/// beats both is left unchanged.
pub proof fn lemma_depth_order_independent(c0: u32, d0: i64, c1: u32, d1: i64, c2: u32, d2: i64)
    requires
        d1 != d2,
    ensures
        ({
            let first = spec_pixel_after(c0, d0, c1, d1);
            spec_pixel_after(first.0, first.1, c2, d2)
        }) == ({
            let first = spec_pixel_after(c0, d0, c2, d2);
            spec_pixel_after(first.0, first.1, c1, d1)
        }),
        d1 < d2 && d1 < d0 ==> ({
            let first = spec_pixel_after(c0, d0, c1, d1);
            spec_pixel_after(first.0, first.1, c2, d2)
        }) == (c1, d1),
        d2 < d1 && d2 < d0 ==> ({
            let first = spec_pixel_after(c0, d0, c1, d1);
            spec_pixel_after(first.0, first.1, c2, d2)
        }) == (c2, d2),
        d0 <= d1 && d0 <= d2 ==> ({
            let first = spec_pixel_after(c0, d0, c1, d1);
            spec_pixel_after(first.0, first.1, c2, d2)
        }) == (c0, d0),
{
}

/// The framebuffer: a width x height color buffer, its parallel depth
/// buffer, the background color a clear paints, and the color the next
/// submitted fragment writes. Owned exclusively by the compositor step; no
/// other component writes pixels directly.
pub struct Framebuffer {
    pub width: usize,
    pub height: usize,
    pub buffer: Vec<u32>,
    pub zbuffer: Vec<i64>,
    pub background_color: u32,
    pub current_color: u32,
}

impl Framebuffer {
    /// Both buffers cover exactly the pixel grid, and the dimensions are
    /// small enough that every pixel index stays exact.
    pub open spec fn wf(self) -> bool {
        &&& self.buffer@.len() == (self.width as int) * (self.height as int)
        &&& self.zbuffer@.len() == (self.width as int) * (self.height as int)
        &&& self.width <= 0x40000000
        &&& self.height <= 0x40000000
    }

    /// A fresh framebuffer: black background, white draw color, every pixel
    /// at the background and the far depth.
    pub fn new(width: usize, height: usize) -> (fb: Framebuffer)
        requires
            width <= 0x40000000,
            height <= 0x40000000,
            (width as int) * (height as int) <= usize::MAX as int,
        ensures
            fb.wf(),
            fb.width == width,
            fb.height == height,
            fb.background_color == 0,
            fb.current_color == 0xFFFFFFu32,
            forall|i: int| 0 <= i < fb.buffer@.len() ==> fb.buffer@[i] == 0,
            forall|i: int| 0 <= i < fb.zbuffer@.len() ==> fb.zbuffer@[i] == DEPTH_FAR,
    {
        let n: usize = width * height;
        let mut buffer: Vec<u32> = Vec::new();
        let mut zbuffer: Vec<i64> = Vec::new();
        let mut i: usize = 0;
        while i < n
            invariant
                i <= n,
                buffer@.len() == i,
                zbuffer@.len() == i,
                forall|j: int| 0 <= j < i ==> buffer@[j] == 0,
                forall|j: int| 0 <= j < i ==> zbuffer@[j] == DEPTH_FAR,
            decreases n - i,
        {
            buffer.push(0);
            zbuffer.push(DEPTH_FAR);
            i = i + 1;
        }
        Framebuffer {
            width,
            height,
            buffer,
            zbuffer,
            background_color: 0,
            current_color: 0xFFFFFF,
        }
    }

    /// Resets every pixel to the background color and the far depth; the
    /// per-frame reset of both buffers.
    pub fn clear(&mut self)
        requires
            old(self).wf(),
        ensures
            final(self).wf(),
            final(self).width == old(self).width,
            final(self).height == old(self).height,
            final(self).background_color == old(self).background_color,
            final(self).current_color == old(self).current_color,
            final(self).buffer@.len() == old(self).buffer@.len(),
            final(self).zbuffer@.len() == old(self).zbuffer@.len(),
            forall|i: int|
                0 <= i < final(self).buffer@.len() ==> final(self).buffer@[i] == old(
                    self,
                ).background_color,
            forall|i: int| 0 <= i < final(self).zbuffer@.len() ==> final(self).zbuffer@[i] == DEPTH_FAR,
    {
        let n: usize = self.buffer.len();
        let mut i: usize = 0;
        while i < n
            invariant
                i <= n,
                self.wf(),
                n == self.buffer@.len(),
                self.width == old(self).width,
                self.height == old(self).height,
                self.background_color == old(self).background_color,
                self.current_color == old(self).current_color,
                self.buffer@.len() == old(self).buffer@.len(),
                self.zbuffer@.len() == old(self).zbuffer@.len(),
                forall|j: int| 0 <= j < i ==> self.buffer@[j] == old(self).background_color,
                forall|j: int| 0 <= j < i ==> self.zbuffer@[j] == DEPTH_FAR,
            decreases n - i,
        {
            let c: u32 = self.background_color;
            self.buffer[i] = c;
            self.zbuffer[i] = DEPTH_FAR;
            i = i + 1;
        }
    }

    /// Sets the background color used by the next clear.
    pub fn set_background_color(&mut self, color: u32)
        ensures
            *final(self) == (Framebuffer { background_color: color, ..*old(self) }),
    {
        self.background_color = color;
    }

    /// Sets the color the next submitted fragment writes.
    pub fn set_current_color(&mut self, color: u32)
        ensures
            *final(self) == (Framebuffer { current_color: color, ..*old(self) }),
    {
        self.current_color = color;
    }

    /// Submits one fragment at pixel `(x, y)` with the given depth: dropped
    /// silently when out of bounds, and written (color and depth) only when
    /// strictly closer than the stored depth.
    pub fn point(&mut self, x: usize, y: usize, depth: i64)
        requires
            old(self).wf(),
        ensures
            final(self).wf(),
            final(self).width == old(self).width,
            final(self).height == old(self).height,
            final(self).background_color == old(self).background_color,
            final(self).current_color == old(self).current_color,
            !(x < old(self).width && y < old(self).height) ==> *final(self) == *old(self),
            x < old(self).width && y < old(self).height ==> {
                let idx = (y as int) * (old(self).width as int) + (x as int);
                let after = spec_pixel_after(
                    old(self).buffer@[idx],
                    old(self).zbuffer@[idx],
                    old(self).current_color,
                    depth,
                );
                final(self).buffer@ == old(self).buffer@.update(idx, after.0)
                    && final(self).zbuffer@ == old(self).zbuffer@.update(idx, after.1)
            },
    {
        let w: usize = self.width;
        let h: usize = self.height;
        if x < w && y < h {
            let n: usize = self.buffer.len();
            proof {
                assert((y as int) * (w as int) + (x as int) < (w as int) * (h as int) && 0 <= (y
                    as int) * (w as int)) by (nonlinear_arith)
                    requires
                        0 <= (x as int) && (x as int) < w as int,
                        0 <= (y as int) && (y as int) < h as int,
                ;
            }
            let idx: usize = y * w + x;
            if depth < self.zbuffer[idx] {
                let c: u32 = self.current_color;
                self.buffer[idx] = c;
                self.zbuffer[idx] = depth;
            } else {
                proof {
                    assert(self.buffer@ =~= old(self).buffer@.update(
                        (y as int) * (old(self).width as int) + (x as int),
                        old(self).buffer@[(y as int) * (old(self).width as int) + (x as int)],
                    ));
                    assert(self.zbuffer@ =~= old(self).zbuffer@.update(
                        (y as int) * (old(self).width as int) + (x as int),
                        old(self).zbuffer@[(y as int) * (old(self).width as int) + (x as int)],
                    ));
                }
            }
        }
    }

    /// Pre-seeds the color buffer with bright starfield pixels at the given
    /// positions (out-of-range positions are dropped); depths are untouched,
    /// so later fragments still draw over the stars.
    pub fn draw_stars(&mut self, positions: &Vec<(usize, usize)>)
        requires
            old(self).wf(),
        ensures
            final(self).wf(),
            final(self).width == old(self).width,
            final(self).height == old(self).height,
            final(self).background_color == old(self).background_color,
            final(self).current_color == old(self).current_color,
            final(self).zbuffer@ == old(self).zbuffer@,
            final(self).buffer@ == spec_stars(
                old(self).buffer@,
                positions@,
                positions@.len(),
                old(self).width as int,
                old(self).height as int,
            ),
    {
        let mut i: usize = 0;
        while i < positions.len()
            invariant
                i <= positions@.len(),
                self.wf(),
                self.width == old(self).width,
                self.height == old(self).height,
                self.background_color == old(self).background_color,
                self.current_color == old(self).current_color,
                self.zbuffer@ == old(self).zbuffer@,
                self.buffer@ == spec_stars(
                    old(self).buffer@,
                    positions@,
                    i as nat,
                    old(self).width as int,
                    old(self).height as int,
                ),
            decreases positions@.len() - i,
        {
            let (x, y): (usize, usize) = positions[i];
            let w: usize = self.width;
            let h: usize = self.height;
            if x < w && y < h {
                let n: usize = self.buffer.len();
                proof {
                    assert((y as int) * (w as int) + (x as int) < (w as int) * (h as int) && 0
                        <= (y as int) * (w as int)) by (nonlinear_arith)
                        requires
                            0 <= (x as int) && (x as int) < w as int,
                            0 <= (y as int) && (y as int) < h as int,
                    ;
                }
                let idx: usize = y * w + x;
                self.buffer[idx] = 0xFFFFFF;
            }
            i = i + 1;
        }
    }
}

/// The color buffer after the first `n` star positions have been painted
/// white (in-range positions only).
pub open spec fn spec_stars(colors: Seq<u32>, positions: Seq<(usize, usize)>, n: nat, w: int, h: int) -> Seq<u32>
    decreases n,
{
    if n == 0 {
        colors
    } else {
        let prev = spec_stars(colors, positions, (n - 1) as nat, w, h);
        let p = positions[n - 1];
        if (p.0 as int) < w && (p.1 as int) < h {
            prev.update((p.1 as int) * w + (p.0 as int), 0xFFFFFFu32)
        } else {
            prev
        }
    }
}

} // verus!
