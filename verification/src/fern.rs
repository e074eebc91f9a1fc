//! The Barnsley fern accumulator: a sequential random walk of four affine
//! maps, each visited point blended into the image buffer.

use vstd::prelude::*;

use crate::color::RGB;
use crate::config::Config;
use crate::fbits;
use crate::fbits::{
    add_bits, div_bits, lt_bits, mul_bits, spec_bits_of_u32, spec_bits_to_usize_sat,
    spec_unit_from_u64, sub_bits,
};
use crate::image;
use crate::image::Image;

verus! {

/// Bit pattern of 0.01, the first map threshold and the default blend weight.
pub const B_P01: u64 = 0x3F84_7AE1_47AE_147B;
/// Bit pattern of 0.86, the second map threshold.
pub const B_P86: u64 = 0x3FEB_851E_B851_EB85;
/// Bit pattern of 0.93, the third map threshold.
pub const B_P93: u64 = 0x3FED_C28F_5C28_F5C3;
/// Bit pattern of 0.16.
pub const B_P16: u64 = 0x3FC4_7AE1_47AE_147B;
/// Bit pattern of 0.85.
pub const B_P85: u64 = 0x3FEB_3333_3333_3333;
/// Bit pattern of 0.04.
pub const B_P04: u64 = 0x3FA4_7AE1_47AE_147B;
/// Bit pattern of -0.04.
pub const B_N04: u64 = 0xBFA4_7AE1_47AE_147B;
/// Bit pattern of 1.6.
pub const B_1_6: u64 = 0x3FF9_9999_9999_999A;
/// Bit pattern of 0.2.
pub const B_P20: u64 = 0x3FC9_9999_9999_999A;
/// Bit pattern of 0.26.
pub const B_P26: u64 = 0x3FD0_A3D7_0A3D_70A4;
/// Bit pattern of 0.23.
pub const B_P23: u64 = 0x3FCD_70A3_D70A_3D71;
/// Bit pattern of 0.22.
pub const B_P22: u64 = 0x3FCC_28F5_C28F_5C29;
/// Bit pattern of -0.15.
pub const B_N15: u64 = 0xBFC3_3333_3333_3333;
/// Bit pattern of 0.28.
pub const B_P28: u64 = 0x3FD1_EB85_1EB8_51EC;
/// Bit pattern of 0.24.
pub const B_P24: u64 = 0x3FCE_B851_EB85_1EB8;
/// Bit pattern of 0.44.
pub const B_P44: u64 = 0x3FDC_28F5_C28F_5C29;
/// Bit pattern of 5.0.
pub const B_FIVE: u64 = 0x4014_0000_0000_0000;
/// Bit pattern of 65.0, the empirical horizontal framing factor.
pub const B_65: u64 = 0x4050_4000_0000_0000;
/// Bit pattern of 37.0, the empirical vertical framing factor.
pub const B_37: u64 = 0x4042_8000_0000_0000;
/// Bit pattern of 0.006, the empirical framing factor shared by both axes.
pub const B_P006: u64 = 0x3F78_9374_BC6A_7EFA;

#[verifier::external_type_specification]
#[verifier::external_body]
pub struct ExSmallRng(rand::rngs::SmallRng);

/// Relies on `SmallRng::from_entropy` of rand: a fresh small generator seeded
/// from system entropy. Nothing is promised of its state; every later draw is
/// handled as an arbitrary value. It panics if the operating system's entropy
/// source fails — a condition of the environment, not of any input, so no
/// precondition can exclude it.
#[verifier::external_body]
fn rng_from_entropy() -> rand::rngs::SmallRng {
    <rand::rngs::SmallRng as rand::SeedableRng>::from_entropy()
}

/// Relies on `RngCore::next_u64` of rand: one raw 64-bit draw. Nothing is
/// promised of the value.
#[verifier::external_body]
fn rng_next_u64(rng: &mut rand::rngs::SmallRng) -> u64 {
    rand::RngCore::next_u64(rng)
}

/// One step of the fern walk: the draw `r` in `[0, 1)` selects one of the
/// four classic Barnsley maps by the cumulative thresholds 0.01, 0.86 and
/// 0.93, and the map is applied to `(x, y)` in double arithmetic exactly as
/// the classic coefficients are written — the stem map keeps its literal
/// multiplications by zero.
pub open spec fn spec_fern_step(x: u64, y: u64, r: u64) -> (u64, u64) {
    if lt_bits(r, B_P01) {
        (
            add_bits(mul_bits(fbits::B_ZERO, x), mul_bits(fbits::B_ZERO, y)),
            add_bits(add_bits(mul_bits(fbits::B_ZERO, x), mul_bits(B_P16, y)), fbits::B_ZERO),
        )
    } else if lt_bits(r, B_P86) {
        (
            add_bits(mul_bits(B_P85, x), mul_bits(B_P04, y)),
            add_bits(add_bits(mul_bits(B_N04, x), mul_bits(B_P85, y)), B_1_6),
        )
    } else if lt_bits(r, B_P93) {
        (
            sub_bits(mul_bits(B_P20, x), mul_bits(B_P26, y)),
            add_bits(add_bits(mul_bits(B_P23, x), mul_bits(B_P22, y)), B_1_6),
        )
    } else {
        (
            add_bits(mul_bits(B_N15, x), mul_bits(B_P28, y)),
            add_bits(add_bits(mul_bits(B_P26, x), mul_bits(B_P24, y)), B_P44),
        )
    }
}

/// Applies one fern map, selected by the unit draw `r`, to `(x, y)`.
pub fn fern_step(x: u64, y: u64, r: u64) -> (out: (u64, u64))
    ensures
        out == spec_fern_step(x, y, r),
{
    if fbits::f_lt(r, B_P01) {
        (
            fbits::f_add(fbits::f_mul(fbits::B_ZERO, x), fbits::f_mul(fbits::B_ZERO, y)),
            fbits::f_add(
                fbits::f_add(fbits::f_mul(fbits::B_ZERO, x), fbits::f_mul(B_P16, y)),
                fbits::B_ZERO,
            ),
        )
    } else if fbits::f_lt(r, B_P86) {
        (
            fbits::f_add(fbits::f_mul(B_P85, x), fbits::f_mul(B_P04, y)),
            fbits::f_add(fbits::f_add(fbits::f_mul(B_N04, x), fbits::f_mul(B_P85, y)), B_1_6),
        )
    } else if fbits::f_lt(r, B_P93) {
        (
            fbits::f_sub(fbits::f_mul(B_P20, x), fbits::f_mul(B_P26, y)),
            fbits::f_add(fbits::f_add(fbits::f_mul(B_P23, x), fbits::f_mul(B_P22, y)), B_1_6),
        )
    } else {
        (
            fbits::f_add(fbits::f_mul(B_N15, x), fbits::f_mul(B_P28, y)),
            fbits::f_add(fbits::f_add(fbits::f_mul(B_P26, x), fbits::f_mul(B_P24, y)), B_P44),
        )
    }
}

/// The walk's starting abscissa: the pan offset scaled by the frame width.
pub open spec fn spec_fern_x0(config: Config) -> u64 {
    mul_bits(config.pos.re, spec_bits_of_u32(config.width))
}

/// The walk's starting ordinate: the pan offset scaled by the frame height.
pub open spec fn spec_fern_y0(config: Config) -> u64 {
    mul_bits(config.pos.im, spec_bits_of_u32(config.height))
}

/// The horizontal frame factor, `65 · scale.re · height · 0.006`.
pub open spec fn spec_effective_scale_x(config: Config) -> u64 {
    mul_bits(mul_bits(mul_bits(B_65, config.scale.re), spec_bits_of_u32(config.height)), B_P006)
}

/// The vertical frame factor, `37 · scale.im · height · 0.006`.
pub open spec fn spec_effective_scale_y(config: Config) -> u64 {
    mul_bits(mul_bits(mul_bits(B_37, config.scale.im), spec_bits_of_u32(config.height)), B_P006)
}

/// The pixel column the walk's point `x` maps to: centered on the frame.
pub open spec fn spec_fern_px(config: Config, x: u64) -> usize {
    spec_bits_to_usize_sat(
        add_bits(
            mul_bits(sub_bits(x, config.pos.re), spec_effective_scale_x(config)),
            div_bits(spec_bits_of_u32(config.width), fbits::B_TWO),
        ),
    )
}

/// The pixel row the walk's point `y` maps to: centered, with the image axis
/// flipped since image rows grow downward.
pub open spec fn spec_fern_py(config: Config, y: u64) -> usize {
    spec_bits_to_usize_sat(
        sub_bits(
            spec_bits_of_u32(config.height),
            add_bits(
                mul_bits(
                    sub_bits(add_bits(y, sub_bits(config.pos.im, B_FIVE)), fbits::B_HALF),
                    spec_effective_scale_y(config),
                ),
                div_bits(spec_bits_of_u32(config.height), fbits::B_TWO),
            ),
        ),
    )
}

/// One visit of the walk: the primary color blended into the pixel the
/// point `(x, y)` maps to, with out-of-frame targets dropped.
pub open spec fn spec_fern_visit(
    config: Config,
    width: usize,
    contents: Seq<RGB>,
    x: u64,
    y: u64,
) -> Seq<RGB> {
    let px = spec_fern_px(config, x);
    let py = spec_fern_py(config, y);
    match image::spec_slot(width, contents.len(), px, py) {
        None => contents,
        Some(i) => contents.update(
            i as int,
            image::spec_blend(contents[i as int], config.spec_primary_color(), config.color_weight),
        ),
    }
}

/// The whole fern walk over a sequence of raw 64-bit draws: each step blends
/// the current point's pixel, then advances the point by the map the draw
/// selects. Returns the final buffer and point.
pub open spec fn spec_fern_walk(
    config: Config,
    width: usize,
    contents: Seq<RGB>,
    x: u64,
    y: u64,
    draws: Seq<u64>,
) -> (Seq<RGB>, u64, u64)
    decreases draws.len(),
{
    if draws.len() == 0 {
        (contents, x, y)
    } else {
        let visited = spec_fern_visit(config, width, contents, x, y);
        let stepped = spec_fern_step(x, y, spec_unit_from_u64(draws[0]));
        spec_fern_walk(config, width, visited, stepped.0, stepped.1, draws.drop_first())
    }
}

/// Appending one draw to a walk performs exactly one more visit-and-step at
/// the walk's final point.
proof fn lemma_fern_walk_snoc(
    config: Config,
    width: usize,
    contents: Seq<RGB>,
    x: u64,
    y: u64,
    draws: Seq<u64>,
    r: u64,
)
    ensures
        spec_fern_walk(config, width, contents, x, y, draws.push(r)) == ({
            let walked = spec_fern_walk(config, width, contents, x, y, draws);
            let visited = spec_fern_visit(config, width, walked.0, walked.1, walked.2);
            let stepped = spec_fern_step(walked.1, walked.2, spec_unit_from_u64(r));
            (visited, stepped.0, stepped.1)
        }),
    decreases draws.len(),
{
    if draws.len() == 0 {
        assert(draws.push(r)[0] == r);
        assert(draws.push(r).drop_first() =~= Seq::<u64>::empty());
        let visited = spec_fern_visit(config, width, contents, x, y);
        let stepped = spec_fern_step(x, y, spec_unit_from_u64(r));
        assert(spec_fern_walk(config, width, contents, x, y, draws) == (contents, x, y));
        assert(spec_fern_walk(config, width, visited, stepped.0, stepped.1, Seq::<u64>::empty())
            == (visited, stepped.0, stepped.1));
    } else {
        assert(draws.push(r)[0] == draws[0]);
        assert(draws.push(r).drop_first() =~= draws.drop_first().push(r));
        let visited = spec_fern_visit(config, width, contents, x, y);
        let stepped = spec_fern_step(x, y, spec_unit_from_u64(draws[0]));
        lemma_fern_walk_snoc(
            config,
            width,
            visited,
            stepped.0,
            stepped.1,
            draws.drop_first(),
            r,
        );
    }
}

/// Runs the fern walk over `image`: starting from `pos` scaled to the frame,
/// every iteration blends the primary color into the pixel the walk's point
/// maps to (out-of-frame writes are dropped), then advances the point by a
/// randomly selected map. The walk is inherently sequential and, seeded from
/// entropy, not reproducible; what is promised of every outcome is that the
/// buffer is the walk's fold over some sequence of draws of the cap's length
/// — so the frame keeps its dimensions and buffer length, and a zero
/// iteration cap leaves the buffer untouched.
pub fn fern(config: &Config, image: &mut Image)
    ensures
        final(image).width == old(image).width,
        final(image).height == old(image).height,
        final(image).contents@.len() == old(image).contents@.len(),
        config.spec_iterations() == 0 ==> final(image).contents@ == old(image).contents@,
        exists|draws: Seq<u64>|
            draws.len() == config.spec_iterations() && final(image).contents@ == spec_fern_walk(
                *config,
                old(image).width,
                old(image).contents@,
                spec_fern_x0(*config),
                spec_fern_y0(*config),
                draws,
            ).0,
{
    let wb: u64 = fbits::bits_of_u32(config.width);
    let hb: u64 = fbits::bits_of_u32(config.height);
    let mut x: u64 = fbits::f_mul(config.pos.re, wb);
    let mut y: u64 = fbits::f_mul(config.pos.im, hb);

    // The 0.006 factor brings the fern's own coordinate space in line with
    // the framing of the other algorithms.
    let effective_scale_x: u64 = fbits::f_mul(
        fbits::f_mul(fbits::f_mul(B_65, config.scale.re), hb),
        B_P006,
    );
    let effective_scale_y: u64 = fbits::f_mul(
        fbits::f_mul(fbits::f_mul(B_37, config.scale.im), hb),
        B_P006,
    );

    let mut rng = rng_from_entropy();
    let color = config.primary_color();
    let cap: u32 = config.iterations();
    let ghost mut draws: Seq<u64> = Seq::empty();

    let mut n: u32 = 0;
    while n < cap
        invariant
            image.width == old(image).width,
            image.height == old(image).height,
            image.contents@.len() == old(image).contents@.len(),
            cap == config.spec_iterations(),
            wb == spec_bits_of_u32(config.width),
            hb == spec_bits_of_u32(config.height),
            effective_scale_x == spec_effective_scale_x(*config),
            effective_scale_y == spec_effective_scale_y(*config),
            color == config.spec_primary_color(),
            n <= cap,
            draws.len() == n,
            (image.contents@, x, y) == spec_fern_walk(
                *config,
                old(image).width,
                old(image).contents@,
                spec_fern_x0(*config),
                spec_fern_y0(*config),
                draws,
            ),
        decreases cap - n,
    {
        let px: usize = fbits::bits_to_usize_sat(
            fbits::f_add(
                fbits::f_mul(fbits::f_sub(x, config.pos.re), effective_scale_x),
                fbits::f_div(wb, fbits::B_TWO),
            ),
        );
        let py: usize = fbits::bits_to_usize_sat(
            fbits::f_sub(
                hb,
                fbits::f_add(
                    fbits::f_mul(
                        fbits::f_sub(
                            fbits::f_add(y, fbits::f_sub(config.pos.im, B_FIVE)),
                            fbits::B_HALF,
                        ),
                        effective_scale_y,
                    ),
                    fbits::f_div(hb, fbits::B_TWO),
                ),
            ),
        );
        image.subtract_pixel(px, py, color, config.color_weight);

        let raw: u64 = rng_next_u64(&mut rng);
        let r: u64 = fbits::unit_from_u64(raw);
        let stepped = fern_step(x, y, r);
        proof {
            lemma_fern_walk_snoc(
                *config,
                old(image).width,
                old(image).contents@,
                spec_fern_x0(*config),
                spec_fern_y0(*config),
                draws,
                raw,
            );
            draws = draws.push(raw);
        }
        x = stepped.0;
        y = stepped.1;
        n = n + 1;
    }
    proof {
        assert(draws.len() == config.spec_iterations() && image.contents@ == spec_fern_walk(
            *config,
            old(image).width,
            old(image).contents@,
            spec_fern_x0(*config),
            spec_fern_y0(*config),
            draws,
        ).0);
    }
}

} // verus!
