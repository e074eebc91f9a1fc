//! The image buffer: a flat color grid with bounds-dropped writes and the
//! fern's nonlinear blend.

use vstd::prelude::*;

use crate::color::RGB;
use crate::fbits;
use crate::fbits::{
    add_bits, div_bits, mul_bits, spec_bits_of_u32, spec_bits_to_u8_sat, sub_bits,
};

verus! {

/// A `width` by `height` grid of colors, stored row-major: pixel `(x, y)`
/// lives at index `y * width + x`.
pub struct Image {
    pub contents: Vec<RGB>,
    pub width: usize,
    pub height: usize,
}

/// The flat index `y * width + x`, with the wrapping arithmetic of a release
/// build: out-of-frame fern targets can be astronomically large, and the
/// index computation must not fault on them.
pub open spec fn spec_raw_index(x: usize, y: usize, width: usize) -> usize {
    vstd::wrapping::usize_specs::wrapping_add(
        vstd::wrapping::usize_specs::wrapping_mul(y, width),
        x,
    )
}

/// The slot pixel `(x, y)` addresses in a buffer of `len` slots and the given
/// row width, or `None` when a write there must be dropped.
pub open spec fn spec_slot(width: usize, len: nat, x: usize, y: usize) -> Option<usize> {
    if x > width {
        None
    } else {
        let index = spec_raw_index(x, y, width);
        if index < len {
            Some(index)
        } else {
            None
        }
    }
}

impl Image {
    /// Wraps an owned buffer; the dimensions are taken on trust and all
    /// bounds decisions compare against the buffer's real length.
    pub fn new(contents: Vec<RGB>, width: usize, height: usize) -> (im: Image)
        ensures
            im.contents == contents,
            im.width == width,
            im.height == height,
    {
        Image { contents, width, height }
    }

    /// The buffer slot pixel `(x, y)` addresses, or `None` when the write
    /// must be dropped. Deliberately permissive at the seam: `x` is rejected
    /// only beyond `width` (not at it), so the slot test alone decides the
    /// column just past the right edge — on a single-row image it lands one
    /// past the end and is absent, on a taller image it aliases the first
    /// column of the next row.
    pub open spec fn spec_pixel_slot(self, x: usize, y: usize) -> Option<usize> {
        spec_slot(self.width, self.contents@.len(), x, y)
    }

    /// Bounds-checked slot lookup for pixel `(x, y)`.
    pub fn pixel_mut(&self, x: usize, y: usize) -> (r: Option<usize>)
        ensures
            r == self.spec_pixel_slot(x, y),
    {
        if x > self.width {
            return None;
        }
        let index: usize = y.wrapping_mul(self.width).wrapping_add(x);
        if self.contents.len() < index {
            return None;
        }
        if index < self.contents.len() {
            Some(index)
        } else {
            None
        }
    }

    /// Blends `value` into pixel `(x, y)` with strength `amount`; a write
    /// whose slot is absent is silently dropped.
    pub fn subtract_pixel(&mut self, x: usize, y: usize, value: RGB, amount: u64)
        ensures
            final(self).width == old(self).width,
            final(self).height == old(self).height,
            match old(self).spec_pixel_slot(x, y) {
                None => final(self).contents@ == old(self).contents@,
                Some(i) => final(self).contents@ == old(self).contents@.update(
                    i as int,
                    spec_blend(old(self).contents@[i as int], value, amount),
                ),
            },
    {
        let slot = self.pixel_mut(x, y);
        let i: usize = match slot {
            Some(i) => i,
            None => {
                return ;
            },
        };
        let pixel: RGB = self.contents[i];
        let new: RGB = RGB {
            r: blend_channel(pixel.r, value.r, amount),
            g: blend_channel(pixel.g, value.g, amount),
            b: blend_channel(pixel.b, value.b, amount),
        };
        self.contents[i] = new;
    }
}

/// One channel of the blend law: the old intensity divided by
/// `((1 / (value / 255) − 1) · amount) + 1`, truncated back to the 8-bit
/// range. A soft multiply-toward-the-target-color, not a linear alpha blend;
/// the curve shapes the fern's density and is kept exactly as written.
pub open spec fn spec_blend_channel(old_c: u8, value_c: u8, amount: u64) -> u8 {
    spec_bits_to_u8_sat(
        div_bits(
            mul_bits(spec_bits_of_u32(old_c as u32), fbits::B_ONE),
            add_bits(
                mul_bits(
                    sub_bits(
                        div_bits(
                            fbits::B_ONE,
                            div_bits(spec_bits_of_u32(value_c as u32), fbits::B_255),
                        ),
                        fbits::B_ONE,
                    ),
                    amount,
                ),
                fbits::B_ONE,
            ),
        ),
    )
}

/// Blends one channel.
fn blend_channel(old_c: u8, value_c: u8, amount: u64) -> (r: u8)
    ensures
        r == spec_blend_channel(old_c, value_c, amount),
{
    fbits::bits_to_u8_sat(
        fbits::f_div(
            fbits::f_mul(fbits::bits_of_u32(old_c as u32), fbits::B_ONE),
            fbits::f_add(
                fbits::f_mul(
                    fbits::f_sub(
                        fbits::f_div(
                            fbits::B_ONE,
                            fbits::f_div(fbits::bits_of_u32(value_c as u32), fbits::B_255),
                        ),
                        fbits::B_ONE,
                    ),
                    amount,
                ),
                fbits::B_ONE,
            ),
        ),
    )
}

/// The blend law applied to all three channels.
pub open spec fn spec_blend(old_px: RGB, value: RGB, amount: u64) -> RGB {
    RGB {
        r: spec_blend_channel(old_px.r, value.r, amount),
        g: spec_blend_channel(old_px.g, value.g, amount),
        b: spec_blend_channel(old_px.b, value.b, amount),
    }
}

/// On a single-row image whose buffer has exactly `width` slots, the column
/// just past the right edge of row 0 addresses the one-past-the-end slot,
/// which is absent: such a write is dropped, never performed out of bounds.
pub proof fn lemma_row_end_write_absent(im: Image)
    requires
        im.contents@.len() == im.width,
    ensures
        im.spec_pixel_slot(im.width, 0) is None,
{
    assert(vstd::wrapping::usize_specs::wrapping_mul(0, im.width) == 0);
    assert(spec_raw_index(im.width, 0, im.width) == im.width);
}

} // verus!
