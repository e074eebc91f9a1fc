//! Explicit, versioned serialization of a configuration.
//!
//! A configuration handed to an accelerated backend crosses a raw byte
//! boundary. Rather than reinterpreting the struct's in-memory layout, every
//! field is written in a fixed order and fixed width, little-endian, behind a
//! leading format version byte, so the layout never depends on the platform.

use vstd::prelude::*;

use crate::color::RGB;
use crate::complex::Imaginary;
use crate::config::{Algo, Config};

verus! {

/// Format version of the byte layout below.
pub const CONFIG_WIRE_VERSION: u8 = 1;

/// The four little-endian bytes of `v`.
pub open spec fn spec_u32_le(v: u32) -> Seq<u8> {
    seq![
        (v & 0xFF) as u8,
        ((v >> 8) & 0xFF) as u8,
        ((v >> 16) & 0xFF) as u8,
        ((v >> 24) & 0xFF) as u8,
    ]
}

/// The eight little-endian bytes of `v`.
pub open spec fn spec_u64_le(v: u64) -> Seq<u8> {
    seq![
        (v & 0xFF) as u8,
        ((v >> 8) & 0xFF) as u8,
        ((v >> 16) & 0xFF) as u8,
        ((v >> 24) & 0xFF) as u8,
        ((v >> 32) & 0xFF) as u8,
        ((v >> 40) & 0xFF) as u8,
        ((v >> 48) & 0xFF) as u8,
        ((v >> 56) & 0xFF) as u8,
    ]
}

/// A boolean as one byte, 1 for true.
pub open spec fn spec_bool_byte(b: bool) -> Seq<u8> {
    if b {
        seq![1u8]
    } else {
        seq![0u8]
    }
}

/// An optional cap: a presence byte, then the value (zero when absent).
pub open spec fn spec_opt_u32_le(v: Option<u32>) -> Seq<u8> {
    match v {
        Some(x) => seq![1u8] + spec_u32_le(x),
        None => seq![0u8] + spec_u32_le(0),
    }
}

/// A color as its three channel bytes.
pub open spec fn spec_rgb_bytes(c: RGB) -> Seq<u8> {
    seq![c.r, c.g, c.b]
}

/// An optional color: a presence byte, then the channels (black when absent).
pub open spec fn spec_opt_rgb_bytes(v: Option<RGB>) -> Seq<u8> {
    match v {
        Some(c) => seq![1u8] + spec_rgb_bytes(c),
        None => seq![0u8] + spec_rgb_bytes(RGB { r: 0, g: 0, b: 0 }),
    }
}

/// A complex point: both component bit patterns.
pub open spec fn spec_imaginary_bytes(p: Imaginary) -> Seq<u8> {
    spec_u64_le(p.re) + spec_u64_le(p.im)
}

/// The algorithm selection: a tag byte, then the Julia seed (zero for the
/// other algorithms).
pub open spec fn spec_algo_bytes(a: Algo) -> Seq<u8> {
    match a {
        Algo::Mandelbrot => seq![0u8] + spec_imaginary_bytes(Imaginary { re: 0, im: 0 }),
        Algo::BarnsleyFern => seq![1u8] + spec_imaginary_bytes(Imaginary { re: 0, im: 0 }),
        Algo::Julia(seed) => seq![2u8] + spec_imaginary_bytes(seed),
    }
}

/// The full wire form of a configuration: the version byte, then every field
/// in declaration order, each of fixed width.
pub open spec fn spec_config_bytes(c: Config) -> Seq<u8> {
    seq![CONFIG_WIRE_VERSION] + spec_u32_le(c.width) + spec_u32_le(c.height) + spec_opt_u32_le(
        c.iterations,
    ) + spec_u64_le(c.limit) + spec_u64_le(c.stable_limit) + spec_imaginary_bytes(c.pos)
        + spec_imaginary_bytes(c.scale) + spec_u64_le(c.exposure) + spec_bool_byte(c.inside)
        + spec_bool_byte(c.smooth) + spec_opt_rgb_bytes(c.primary_color) + spec_opt_rgb_bytes(
        c.secondary_color,
    ) + spec_algo_bytes(c.algo) + spec_u64_le(c.color_weight)
}

/// Appends the four little-endian bytes of `v`.
fn push_u32_le(out: &mut Vec<u8>, v: u32)
    ensures
        final(out)@ == old(out)@ + spec_u32_le(v),
{
    proof {
        assert(v & 0xFF < 256 && (v >> 8) & 0xFF < 256 && (v >> 16) & 0xFF < 256 && (v >> 24)
            & 0xFF < 256) by (bit_vector);
    }
    out.push((v & 0xFF) as u8);
    out.push(((v >> 8) & 0xFF) as u8);
    out.push(((v >> 16) & 0xFF) as u8);
    out.push(((v >> 24) & 0xFF) as u8);
    proof {
        assert(out@ =~= old(out)@ + spec_u32_le(v));
    }
}

/// Appends the eight little-endian bytes of `v`.
fn push_u64_le(out: &mut Vec<u8>, v: u64)
    ensures
        final(out)@ == old(out)@ + spec_u64_le(v),
{
    proof {
        assert(v & 0xFF < 256 && (v >> 8) & 0xFF < 256 && (v >> 16) & 0xFF < 256 && (v >> 24)
            & 0xFF < 256 && (v >> 32) & 0xFF < 256 && (v >> 40) & 0xFF < 256 && (v >> 48) & 0xFF
            < 256 && (v >> 56) & 0xFF < 256) by (bit_vector);
    }
    out.push((v & 0xFF) as u8);
    out.push(((v >> 8) & 0xFF) as u8);
    out.push(((v >> 16) & 0xFF) as u8);
    out.push(((v >> 24) & 0xFF) as u8);
    out.push(((v >> 32) & 0xFF) as u8);
    out.push(((v >> 40) & 0xFF) as u8);
    out.push(((v >> 48) & 0xFF) as u8);
    out.push(((v >> 56) & 0xFF) as u8);
    proof {
        assert(out@ =~= old(out)@ + spec_u64_le(v));
    }
}

/// Appends a boolean as one byte.
fn push_bool_byte(out: &mut Vec<u8>, b: bool)
    ensures
        final(out)@ == old(out)@ + spec_bool_byte(b),
{
    out.push(
        if b {
            1
        } else {
            0
        },
    );
    proof {
        assert(out@ =~= old(out)@ + spec_bool_byte(b));
    }
}

/// Appends an optional cap: presence byte, then the value or zero.
fn push_opt_u32_le(out: &mut Vec<u8>, v: Option<u32>)
    ensures
        final(out)@ == old(out)@ + spec_opt_u32_le(v),
{
    match v {
        Some(x) => {
            out.push(1);
            proof {
                assert(out@ =~= old(out)@ + seq![1u8]);
            }
            push_u32_le(out, x);
        },
        None => {
            out.push(0);
            proof {
                assert(out@ =~= old(out)@ + seq![0u8]);
            }
            push_u32_le(out, 0);
        },
    }
    proof {
        assert(out@ =~= old(out)@ + spec_opt_u32_le(v));
    }
}

/// Appends an optional color: presence byte, then the channels or black.
fn push_opt_rgb(out: &mut Vec<u8>, v: Option<RGB>)
    ensures
        final(out)@ == old(out)@ + spec_opt_rgb_bytes(v),
{
    match v {
        Some(c) => {
            out.push(1);
            out.push(c.r);
            out.push(c.g);
            out.push(c.b);
        },
        None => {
            out.push(0);
            out.push(0);
            out.push(0);
            out.push(0);
        },
    }
    proof {
        assert(out@ =~= old(out)@ + spec_opt_rgb_bytes(v));
    }
}

/// Appends the algorithm tag and seed.
fn push_algo(out: &mut Vec<u8>, a: Algo)
    ensures
        final(out)@ == old(out)@ + spec_algo_bytes(a),
{
    match a {
        Algo::Mandelbrot => {
            out.push(0);
            proof {
                assert(out@ =~= old(out)@ + seq![0u8]);
            }
            push_u64_le(out, 0);
            push_u64_le(out, 0);
        },
        Algo::BarnsleyFern => {
            out.push(1);
            proof {
                assert(out@ =~= old(out)@ + seq![1u8]);
            }
            push_u64_le(out, 0);
            push_u64_le(out, 0);
        },
        Algo::Julia(seed) => {
            out.push(2);
            proof {
                assert(out@ =~= old(out)@ + seq![2u8]);
            }
            push_u64_le(out, seed.re);
            push_u64_le(out, seed.im);
        },
    }
    proof {
        assert(out@ =~= old(out)@ + spec_algo_bytes(a));
    }
}

/// Serializes a configuration to its versioned, fixed-layout wire form.
#[verifier::rlimit(60)]
pub fn config_to_bytes(config: &Config) -> (out: Vec<u8>)
    ensures
        out@ == spec_config_bytes(*config),
{
    let mut out: Vec<u8> = Vec::new();
    out.push(CONFIG_WIRE_VERSION);
    proof {
        assert(out@ =~= seq![CONFIG_WIRE_VERSION]);
    }
    push_u32_le(&mut out, config.width);
    push_u32_le(&mut out, config.height);
    push_opt_u32_le(&mut out, config.iterations);
    push_u64_le(&mut out, config.limit);
    push_u64_le(&mut out, config.stable_limit);
    push_u64_le(&mut out, config.pos.re);
    push_u64_le(&mut out, config.pos.im);
    proof {
        assert(out@ =~= seq![CONFIG_WIRE_VERSION] + spec_u32_le(config.width) + spec_u32_le(
            config.height,
        ) + spec_opt_u32_le(config.iterations) + spec_u64_le(config.limit) + spec_u64_le(
            config.stable_limit,
        ) + spec_imaginary_bytes(config.pos));
    }
    push_u64_le(&mut out, config.scale.re);
    push_u64_le(&mut out, config.scale.im);
    push_u64_le(&mut out, config.exposure);
    push_bool_byte(&mut out, config.inside);
    push_bool_byte(&mut out, config.smooth);
    push_opt_rgb(&mut out, config.primary_color);
    push_opt_rgb(&mut out, config.secondary_color);
    push_algo(&mut out, config.algo);
    push_u64_le(&mut out, config.color_weight);
    proof {
        assert(out@ =~= spec_config_bytes(*config));
    }
    out
}

} // verus!
