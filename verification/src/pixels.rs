//! The color buffer: a byte buffer of BGRA quadruples with a point-write
//! primitive.

use vstd::prelude::*;
use crate::fixed::{round_spec, FX_HALF, FX_ONE};
use vstd::arithmetic::div_mod::{lemma_fundamental_div_mod, lemma_mod_bound};

verus! {

/// One color channel as a byte: the fixed-point channel scaled by 255,
/// clamped to the byte range and rounded to nearest.
pub open spec fn channel_byte_spec(c: int) -> int {
    let v = 255 * c;
    let w = if v < 0 {
        0
    } else if v > 255 * (FX_ONE as int) {
        255 * (FX_ONE as int)
    } else {
        v
    };
    round_spec(w)
}

/// One color channel as a byte.
pub fn channel_to_byte(c: i64) -> (r: u8)
    ensures
        r as int == channel_byte_spec(c as int),
        0 <= r <= 255,
{
    let v: i128 = c as i128 * 255;
    let w: i128 = if v < 0 {
        0
    } else if v > 16711680 {
        16711680
    } else {
        v
    };
    let b: u64 = ((w as u64) + FX_HALF as u64) / (FX_ONE as u64);
    proof {
        lemma_fundamental_div_mod(w as int + FX_HALF as int, FX_ONE as int);
        lemma_mod_bound(w as int + FX_HALF as int, FX_ONE as int);
    }
    b as u8
}

/// A color buffer: a row of `width`-pixel scanlines, four bytes per pixel in
/// BGRA order.
pub struct PixelBuffer {
    pub width: u32,
    pub buf: Vec<u8>,
}

impl PixelBuffer {
    pub fn new(width: u32, buf: Vec<u8>) -> (r: PixelBuffer)
        ensures
            r.width == width,
            r.buf == buf,
    {
        PixelBuffer { width, buf }
    }

    /// Overwrites every byte of the buffer with one value.
    pub fn memset(&mut self, val: u8)
        ensures
            final(self).width == old(self).width,
            final(self).buf@ == Seq::new(old(self).buf@.len(), |i: int| val),
    {
        let n: usize = self.buf.len();
        self.buf = vec![val; n];
        proof {
            assert(self.buf@ =~= Seq::new(old(self).buf@.len(), |i: int| val));
        }
    }
}

} // verus!
