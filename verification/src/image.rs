//! The color attachment: a contiguous RGBA byte buffer of fixed size.
//! A write outside the buffer is silently dropped, never a fault.

use vstd::prelude::*;
use vstd::pervasive::VecAdditionalExecFns;
use crate::fixed::{Fx, tdiv, clamp32};
use crate::math::Vec4;

verus! {

/// Largest accepted side of the canvas, so that every index computation
/// on the byte buffer fits comfortably in the machine's integer types.
pub const MAX_DIM: u32 = 16384;

/// A contiguous RGBA byte buffer sized `width * height`.
pub struct ColorAttachment {
    pub data: Vec<u8>,
    pub width: u32,
    pub height: u32,
}

/// One color channel as a byte: truncated toward zero and clamped to
/// `0..=255`, the rounding of a float-to-byte cast.
pub open spec fn byte_of(v: int) -> u8 {
    let t = tdiv(v, 65536);
    if t < 0 {
        0u8
    } else if t > 255 {
        255u8
    } else {
        t as u8
    }
}

/// The buffer after one guarded pixel write: the four channel bytes of
/// `c` land at `(x, y)` when the pixel is inside, and nothing changes
/// when it is not.
pub open spec fn set_pixel_spec(s: Seq<u8>, bw: int, bh: int, x: int, y: int, c: Vec4) -> Seq<
    u8,
> {
    if 0 <= x < bw && 0 <= y < bh {
        let base = 4 * (y * bw + x);
        s.update(base, byte_of(c.x.v())).update(base + 1, byte_of(c.y.v())).update(
            base + 2,
            byte_of(c.z.v()),
        ).update(base + 3, byte_of(c.w.v()))
    } else {
        s
    }
}

/// One channel of the color as a byte.
fn channel_byte(c: Fx) -> (r: u8)
    ensures
        r == byte_of(c.v()),
{
    let t = c.to_i32_trunc();
    if t < 0 {
        0
    } else if t > 255 {
        255
    } else {
        proof {
            assert(clamp32(tdiv(c.v(), 65536)) == tdiv(c.v(), 65536));
        }
        t as u8
    }
}

impl ColorAttachment {
    /// The byte buffer holds exactly one RGBA quadruple per pixel and the
    /// canvas sides are within the accepted range.
    pub open spec fn wf(&self) -> bool {
        &&& self.data.len() == 4 * ((self.width as int) * (self.height as int))
        &&& self.width <= MAX_DIM
        &&& self.height <= MAX_DIM
    }

    /// A fresh, black (all zero) buffer.
    pub fn new(w: u32, h: u32) -> (r: ColorAttachment)
        requires
            w <= MAX_DIM,
            h <= MAX_DIM,
        ensures
            r.wf(),
            r.width == w,
            r.height == h,
            forall|i: int| 0 <= i < r.data.len() ==> r.data[i] == 0u8,
    {
        proof {
            assert((w as int) * (h as int) <= 16384 * 16384) by (nonlinear_arith)
                requires
                    w <= 16384,
                    h <= 16384,
            ;
        }
        let pixels: usize = (w as usize) * (h as usize);
        let len: usize = 4 * pixels;
        let mut data: Vec<u8> = Vec::new();
        let mut i: usize = 0;
        while i < len
            invariant
                i <= len,
                data.len() == i,
                forall|j: int| 0 <= j < i ==> data[j] == 0u8,
            decreases len - i,
        {
            data.push(0);
            i = i + 1;
        }
        ColorAttachment { data, width: w, height: h }
    }

    pub fn width(&self) -> (r: u32)
        ensures
            r == self.width,
    {
        self.width
    }

    pub fn height(&self) -> (r: u32)
        ensures
            r == self.height,
    {
        self.height
    }

    /// Read-only view of the raw bytes.
    pub fn data(&self) -> (r: &[u8])
        ensures
            r@ == self.data@,
    {
        self.data.as_slice()
    }

    /// Fill every pixel with the color.
    pub fn clear(&mut self, color: &Vec4)
        requires
            old(self).wf(),
        ensures
            final(self).wf(),
            final(self).width == old(self).width,
            final(self).height == old(self).height,
            final(self).data.len() == old(self).data.len(),
            forall|i: int|
                0 <= i < final(self).data.len() ==> final(self).data[i] == (if i % 4 == 0 {
                    byte_of(color.x.v())
                } else if i % 4 == 1 {
                    byte_of(color.y.v())
                } else if i % 4 == 2 {
                    byte_of(color.z.v())
                } else {
                    byte_of(color.w.v())
                }),
    {
        let r = channel_byte(color.x);
        let g = channel_byte(color.y);
        let b = channel_byte(color.z);
        let a = channel_byte(color.w);
        let len = self.data.len();
        proof {
            vstd::arithmetic::div_mod::lemma_mod_multiples_basic(
                (self.width as int) * (self.height as int),
                4,
            );
            assert(len % 4 == 0);
        }
        let mut i: usize = 0;
        while i < len
            invariant
                i <= len,
                i % 4 == 0,
                len % 4 == 0,
                self.data.len() == len,
                self.width == old(self).width,
                self.height == old(self).height,
                self.wf(),
                r == byte_of(color.x.v()),
                g == byte_of(color.y.v()),
                b == byte_of(color.z.v()),
                a == byte_of(color.w.v()),
                forall|j: int|
                    0 <= j < i ==> self.data[j] == (if j % 4 == 0 {
                        byte_of(color.x.v())
                    } else if j % 4 == 1 {
                        byte_of(color.y.v())
                    } else if j % 4 == 2 {
                        byte_of(color.z.v())
                    } else {
                        byte_of(color.w.v())
                    }),
            decreases len - i,
        {
            proof {
                assert(i + 4 <= len);
            }
            self.data.set(i, r);
            self.data.set(i + 1, g);
            self.data.set(i + 2, b);
            self.data.set(i + 3, a);
            i = i + 4;
        }
    }

    /// Guarded pixel write: sets the four channel bytes of `(x, y)` when
    /// the pixel is inside the buffer, and does nothing when it is not.
    pub fn set(&mut self, x: u32, y: u32, color: &Vec4)
        requires
            old(self).wf(),
        ensures
            final(self).wf(),
            final(self).width == old(self).width,
            final(self).height == old(self).height,
            final(self).data@ == set_pixel_spec(
                old(self).data@,
                old(self).width as int,
                old(self).height as int,
                x as int,
                y as int,
                *color,
            ),
    {
        if x < self.width && y < self.height {
            proof {
                assert((y as int) * (self.width as int) + (x as int) < (self.width as int) * (
                self.height as int) && (y as int) * (self.width as int) <= 16384 * 16384) by (
                nonlinear_arith)
                    requires
                        0 <= x < self.width as int,
                        0 <= y < self.height as int,
                        self.width <= 16384,
                        self.height <= 16384,
                ;
            }
            let pix: usize = (y as usize) * (self.width as usize) + (x as usize);
            let base: usize = 4 * pix;
            self.data.set(base, channel_byte(color.x));
            self.data.set(base + 1, channel_byte(color.y));
            self.data.set(base + 2, channel_byte(color.z));
            self.data.set(base + 3, channel_byte(color.w));
        }
    }
}

} // verus!
