//! The accumulation framebuffer: a row-major grid of radiance sums,
//! written by adding one path's colour per sample.

use vstd::prelude::*;

verus! {

use crate::math::{Vec3, V3i, v3_add};

/// A row-major buffer of accumulated radiance.
pub struct RgbFrameBuffer {
    pub buffer: Vec<Vec3>,
    pub res_x: usize,
    pub res_y: usize,
}

pub open spec fn frame_wf(f: &RgbFrameBuffer) -> bool {
    f.buffer@.len() == f.res_x * f.res_y && f.res_x * f.res_y <= 0x1000_0000 && (forall|i: int|
        0 <= i < f.buffer@.len() ==> (#[trigger] f.buffer@[i]).wf())
}

impl RgbFrameBuffer {
    /// A black buffer of the given resolution.
    pub fn new(resolution: (usize, usize)) -> (r: RgbFrameBuffer)
        requires
            resolution.0 * resolution.1 <= 0x1000_0000,
        ensures
            frame_wf(&r),
            r.res_x == resolution.0,
            r.res_y == resolution.1,
            forall|i: int|
                0 <= i < r.buffer@.len() ==> (#[trigger] r.buffer@[i])@ == (V3i {
                    x: 0,
                    y: 0,
                    z: 0,
                }),
    {
        let n = resolution.0 * resolution.1;
        let mut buffer: Vec<Vec3> = Vec::new();
        let mut i: usize = 0;
        while i < n
            invariant
                i <= n,
                buffer@.len() == i,
                forall|k: int|
                    0 <= k < i ==> (#[trigger] buffer@[k])@ == (V3i { x: 0, y: 0, z: 0 }),
            decreases n - i,
        {
            buffer.push(Vec3::zero());
            i = i + 1;
        }
        RgbFrameBuffer { buffer, res_x: resolution.0, res_y: resolution.1 }
    }

    /// The row-major index of a pixel.
    pub fn idx(&self, coords: (usize, usize)) -> (r: usize)
        requires
            frame_wf(self),
            coords.0 < self.res_x,
            coords.1 < self.res_y,
        ensures
            r == coords.0 + coords.1 * self.res_x,
            r < self.buffer@.len(),
    {
        proof {
            assert(coords.0 + coords.1 * self.res_x < self.res_x * self.res_y)
                by (nonlinear_arith)
                requires
                    coords.0 < self.res_x,
                    coords.1 < self.res_y,
            ;
        }
        coords.0 + coords.1 * self.res_x
    }

    /// Accumulate a colour into a pixel; every other pixel stands.
    pub fn add_color(&mut self, coords: (usize, usize), color: Vec3)
        requires
            frame_wf(old(self)),
            coords.0 < old(self).res_x,
            coords.1 < old(self).res_y,
            color.wf(),
        ensures
            frame_wf(final(self)),
            final(self).res_x == old(self).res_x,
            final(self).res_y == old(self).res_y,
            final(self).buffer@.len() == old(self).buffer@.len(),
            final(self).buffer@[coords.0 + coords.1 * old(self).res_x]@ == v3_add(
                old(self).buffer@[coords.0 + coords.1 * old(self).res_x]@,
                color@,
            ),
            forall|i: int|
                0 <= i < old(self).buffer@.len() && i != coords.0 + coords.1 * old(self).res_x
                    ==> final(self).buffer@[i] == old(self).buffer@[i],
    {
        let idx = self.idx(coords);
        let updated = self.buffer[idx].add(color);
        self.buffer.set(idx, updated);
    }

    /// Overwrite a pixel; every other pixel stands.
    pub fn set_color(&mut self, coords: (usize, usize), color: Vec3)
        requires
            frame_wf(old(self)),
            coords.0 < old(self).res_x,
            coords.1 < old(self).res_y,
            color.wf(),
        ensures
            frame_wf(final(self)),
            final(self).res_x == old(self).res_x,
            final(self).res_y == old(self).res_y,
            final(self).buffer@.len() == old(self).buffer@.len(),
            final(self).buffer@[coords.0 + coords.1 * old(self).res_x] == color,
            forall|i: int|
                0 <= i < old(self).buffer@.len() && i != coords.0 + coords.1 * old(self).res_x
                    ==> final(self).buffer@[i] == old(self).buffer@[i],
    {
        let idx = self.idx(coords);
        self.buffer.set(idx, color);
    }

    /// The pixels, read-only, for display layers to consume.
    pub fn as_slice(&self) -> (r: &[Vec3])
        ensures
            r@ == self.buffer@,
    {
        self.buffer.as_slice()
    }
}

} // verus!
