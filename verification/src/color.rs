//! Colors, channel scaling, and hex color parsing.

use vstd::prelude::*;

use crate::fbits;
use crate::fbits::{mul_bits, spec_bits_of_u32, spec_bits_to_u8_sat};
use vstd::string::StringSliceAdditionalSpecFns;

verus! {

/// A color with three 8-bit channels.
#[derive(Clone, Copy, Debug, PartialEq, Eq, Structural)]
pub struct RGB {
    pub r: u8,
    pub g: u8,
    pub b: u8,
}

impl RGB {
    /// Note the argument order: red, blue, green.
    pub fn new(r: u8, b: u8, g: u8) -> (c: Self)
        ensures
            c.r == r,
            c.g == g,
            c.b == b,
    {
        Self { r, g, b }
    }
}

/// Black; the color of pixels outside the drawn set when inside coloring is
/// off.
pub open spec fn spec_black() -> RGB {
    RGB { r: 0, g: 0, b: 0 }
}

/// Each channel taken to double, scaled by `mult`, and truncated back to its
/// 8-bit range.
pub open spec fn spec_color_multiply(color: RGB, mult: u64) -> RGB {
    RGB {
        r: spec_bits_to_u8_sat(mul_bits(spec_bits_of_u32(color.r as u32), mult)),
        g: spec_bits_to_u8_sat(mul_bits(spec_bits_of_u32(color.g as u32), mult)),
        b: spec_bits_to_u8_sat(mul_bits(spec_bits_of_u32(color.b as u32), mult)),
    }
}

/// Scales every channel of `color` by the double with bit pattern `mult`.
/// Scaling by 1.0 is the identity and scaling by +0.0 gives black: each
/// channel is an exactly encoded integer, and the named multiplication keeps
/// a finite value unchanged at 1.0 and returns +0.0 at +0.0.
pub fn color_multiply(color: RGB, mult: u64) -> (c: RGB)
    ensures
        c == spec_color_multiply(color, mult),
        mult == fbits::B_ONE ==> c == color,
        mult == fbits::B_ZERO ==> c == spec_black(),
{
    proof {
        fbits::lemma_bits_of_u32_roundtrip(color.r as u32);
        fbits::lemma_bits_of_u32_roundtrip(color.g as u32);
        fbits::lemma_bits_of_u32_roundtrip(color.b as u32);
        assert((0u64 >> 52) & 0x7FF == 0 && 0u64 & fbits::SIGN_MASK == 0 && 0u64
            & fbits::FRAC_MASK == 0) by (bit_vector);
    }
    RGB {
        r: fbits::bits_to_u8_sat(fbits::f_mul(fbits::bits_of_u32(color.r as u32), mult)),
        g: fbits::bits_to_u8_sat(fbits::f_mul(fbits::bits_of_u32(color.g as u32), mult)),
        b: fbits::bits_to_u8_sat(fbits::f_mul(fbits::bits_of_u32(color.b as u32), mult)),
    }
}

/// An ASCII hexadecimal digit.
pub open spec fn spec_is_hex_digit(c: u8) -> bool {
    (0x30 <= c && c <= 0x39) || (0x41 <= c && c <= 0x46) || (0x61 <= c && c <= 0x66)
}

/// The value of an ASCII hexadecimal digit.
pub open spec fn spec_hex_val(c: u8) -> u8 {
    if 0x30 <= c && c <= 0x39 {
        (c - 0x30) as u8
    } else if 0x41 <= c && c <= 0x46 {
        (c - 0x41 + 10) as u8
    } else {
        (c - 0x61 + 10) as u8
    }
}

/// Value of one hexadecimal digit byte.
fn hex_val(c: u8) -> (v: u8)
    requires
        spec_is_hex_digit(c),
    ensures
        v == spec_hex_val(c),
        v <= 15,
{
    if 0x30 <= c && c <= 0x39 {
        c - 0x30
    } else if 0x41 <= c && c <= 0x46 {
        c - 0x41 + 10
    } else {
        c - 0x61 + 10
    }
}

/// The channel encoded by two hexadecimal digit bytes.
pub open spec fn spec_hex_pair(hi: u8, lo: u8) -> u8 {
    (16 * spec_hex_val(hi) + spec_hex_val(lo)) as u8
}

/// Parses a six-digit hexadecimal color string, two digits per channel. The
/// pairs are handed to the constructor in red, green, blue order, but the
/// constructor's parameters run red, blue, green — so the second pair lands
/// in the blue channel and the third in the green one. Every call site's
/// literal colors carry that meaning, so the seam is kept, not mended.
pub fn parse_hex_rgb(s: &str) -> (c: RGB)
    requires
        s.spec_bytes().len() == 6,
        forall|i: int| 0 <= i < 6 ==> spec_is_hex_digit(#[trigger] s.spec_bytes()[i]),
    ensures
        c.r == spec_hex_pair(s.spec_bytes()[0], s.spec_bytes()[1]),
        c.b == spec_hex_pair(s.spec_bytes()[2], s.spec_bytes()[3]),
        c.g == spec_hex_pair(s.spec_bytes()[4], s.spec_bytes()[5]),
{
    let bytes = s.as_bytes();
    let r: u8 = 16 * hex_val(bytes[0]) + hex_val(bytes[1]);
    let g: u8 = 16 * hex_val(bytes[2]) + hex_val(bytes[3]);
    let b: u8 = 16 * hex_val(bytes[4]) + hex_val(bytes[5]);
    RGB::new(r, g, b)
}

} // verus!
