//! Viewport mapping from pixel coordinates to the complex plane.

use vstd::prelude::*;

use crate::complex::Imaginary;
use crate::fbits;
use crate::fbits::{add_bits, div_bits, spec_bits_of_u32, sub_bits};

verus! {

/// `((coord / max) - offset) / scale + pos`, evaluated in double arithmetic
/// exactly as written.
pub open spec fn spec_coord_to_space(coord: u64, max: u64, offset: u64, pos: u64, scale: u64) -> u64 {
    add_bits(div_bits(sub_bits(div_bits(coord, max), offset), scale), pos)
}

/// Maps one axis coordinate into the complex plane: normalize by the axis
/// maximum, center, zoom, then pan.
pub fn coord_to_space(coord: u64, max: u64, offset: u64, pos: u64, scale: u64) -> (r: u64)
    ensures
        r == spec_coord_to_space(coord, max, offset, pos, scale),
{
    fbits::f_add(fbits::f_div(fbits::f_sub(fbits::f_div(coord, max), offset), scale), pos)
}

/// The complex-plane point of pixel `(x, y)`. Both axes normalize against the
/// image height, so zoom is isotropic; the aspect ratio enters only through
/// the horizontal centering offset `(width / height) / 2`.
pub open spec fn spec_xy_to_imaginary(
    x: u32,
    y: u32,
    width: u32,
    height: u32,
    pos: Imaginary,
    scale: Imaginary,
) -> Imaginary {
    let wb = spec_bits_of_u32(width);
    let hb = spec_bits_of_u32(height);
    Imaginary {
        re: spec_coord_to_space(
            spec_bits_of_u32(x),
            hb,
            div_bits(div_bits(wb, hb), fbits::B_TWO),
            pos.re,
            scale.re,
        ),
        im: spec_coord_to_space(spec_bits_of_u32(y), hb, fbits::B_HALF, pos.im, scale.im),
    }
}

/// Maps pixel `(x, y)` of a `width` by `height` image into the complex plane
/// under the pan `pos` and zoom `scale`.
pub fn xy_to_imaginary(
    x: u32,
    y: u32,
    width: u32,
    height: u32,
    pos: &Imaginary,
    scale: &Imaginary,
) -> (r: Imaginary)
    ensures
        r == spec_xy_to_imaginary(x, y, width, height, *pos, *scale),
{
    let wb: u64 = fbits::bits_of_u32(width);
    let hb: u64 = fbits::bits_of_u32(height);
    let re: u64 = coord_to_space(
        fbits::bits_of_u32(x),
        hb,
        fbits::f_div(fbits::f_div(wb, hb), fbits::B_TWO),
        pos.re,
        scale.re,
    );
    let im: u64 = coord_to_space(fbits::bits_of_u32(y), hb, fbits::B_HALF, pos.im, scale.im);
    Imaginary { re, im }
}

} // verus!
