//! The two render entry points and the dispatcher over the algorithm
//! selection.

use vstd::prelude::*;

use crate::color::RGB;
use crate::config::{Algo, Config};
use crate::escape;
use crate::fern;
use crate::image::Image;
use vstd::arithmetic::div_mod::lemma_fundamental_div_mod_converse;

verus! {

/// The color of buffer slot `i` of an escape-time render: the slot's pixel is
/// `(i % width, i / width)` in the row-major layout.
pub open spec fn spec_escape_buffer(config: Config) -> Seq<RGB> {
    Seq::new(
        (config.width * config.height) as nat,
        |i: int|
            escape::spec_get_recursive_pixel(
                config,
                (i % (config.width as int)) as u32,
                (i / (config.width as int)) as u32,
            ),
    )
}

/// Renders a Mandelbrot or Julia configuration: every pixel of the
/// `width` by `height` frame is mapped, evaluated and colored, row by row.
/// The result is a pure function of the configuration, so two renders of one
/// configuration are identical.
pub fn render_escape_time(config: &Config) -> (out: Vec<RGB>)
    requires
        !(config.algo is BarnsleyFern),
        config.width >= 1,
        config.height >= 1,
    ensures
        out@ == spec_escape_buffer(*config),
{
    let w: u32 = config.width;
    let h: u32 = config.height;
    let mut out: Vec<RGB> = Vec::new();
    let mut y: u32 = 0;
    while y < h
        invariant
            y <= h,
            w == config.width,
            h == config.height,
            w >= 1,
            !(config.algo is BarnsleyFern),
            out@.len() == y * w,
            forall|i: int|
                0 <= i < out@.len() ==> out@[i] == escape::spec_get_recursive_pixel(
                    *config,
                    (i % (w as int)) as u32,
                    (i / (w as int)) as u32,
                ),
        decreases h - y,
    {
        let mut x: u32 = 0;
        while x < w
            invariant
                x <= w,
                y < h,
                w == config.width,
                h == config.height,
                w >= 1,
                !(config.algo is BarnsleyFern),
                out@.len() == y * w + x,
                forall|i: int|
                    0 <= i < out@.len() ==> out@[i] == escape::spec_get_recursive_pixel(
                        *config,
                        (i % (w as int)) as u32,
                        (i / (w as int)) as u32,
                    ),
            decreases w - x,
        {
            let pixel = escape::get_recursive_pixel(config, x, y);
            proof {
                lemma_fundamental_div_mod_converse(
                    (y * w + x) as int,
                    w as int,
                    y as int,
                    x as int,
                );
            }
            out.push(pixel);
            x = x + 1;
        }
        y = y + 1;
        proof {
            assert((y - 1) * (w as int) + w == y * (w as int)) by (nonlinear_arith);
        }
    }
    proof {
        assert((h as int) * (w as int) == (w as int) * (h as int)) by (nonlinear_arith);
        assert(out@ =~= spec_escape_buffer(*config));
    }
    out
}

/// The buffer a fern render starts from: the secondary color everywhere.
pub open spec fn spec_fern_prefill(config: Config) -> Seq<RGB> {
    Seq::new(
        (config.width * config.height) as nat,
        |i: int| config.spec_secondary_color(),
    )
}

/// Renders a Barnsley fern configuration: the buffer is pre-filled with the
/// secondary color as background, then the fern walk blends hits into it.
/// The walk is seeded from entropy, so what holds of every outcome is that
/// the buffer is the walk's fold over some draw sequence of the cap's length,
/// starting from the pre-fill — so it keeps its `width * height` length, and
/// a zero iteration cap leaves it equal to the pre-fill.
pub fn render_fern(config: &Config) -> (out: Vec<RGB>)
    requires
        config.width * config.height <= u32::MAX,
    ensures
        out@.len() == config.width * config.height,
        config.spec_iterations() == 0 ==> out@ == spec_fern_prefill(*config),
        exists|draws: Seq<u64>|
            draws.len() == config.spec_iterations() && out@ == fern::spec_fern_walk(
                *config,
                config.width as usize,
                spec_fern_prefill(*config),
                fern::spec_fern_x0(*config),
                fern::spec_fern_y0(*config),
                draws,
            ).0,
{
    let total: u32 = config.width * config.height;
    let total: usize = total as usize;
    let background = config.secondary_color();
    let mut contents: Vec<RGB> = Vec::new();
    while contents.len() < total
        invariant
            contents@.len() <= total,
            background == config.spec_secondary_color(),
            forall|i: int| 0 <= i < contents@.len() ==> contents@[i] == config.spec_secondary_color(),
        decreases total - contents@.len(),
    {
        contents.push(background);
    }
    proof {
        assert(contents@ =~= spec_fern_prefill(*config));
    }
    let mut image = Image::new(contents, config.width as usize, config.height as usize);
    fern::fern(config, &mut image);
    proof {
        let pre = spec_fern_prefill(*config);
        let d = choose|d: Seq<u64>|
            d.len() == config.spec_iterations() && image.contents@ == fern::spec_fern_walk(
                *config,
                config.width as usize,
                pre,
                fern::spec_fern_x0(*config),
                fern::spec_fern_y0(*config),
                d,
            ).0;
        assert(d.len() == config.spec_iterations() && image.contents@ == fern::spec_fern_walk(
            *config,
            config.width as usize,
            pre,
            fern::spec_fern_x0(*config),
            fern::spec_fern_y0(*config),
            d,
        ).0);
        if config.spec_iterations() == 0 {
            assert(image.contents@ == pre);
        }
    }
    image.contents
}

/// Produces the finished buffer for any configuration: escape-time rendering
/// for Mandelbrot and Julia, the fern walk for the Barnsley fern.
pub fn get_image(config: &Config) -> (out: Vec<RGB>)
    requires
        config.width >= 1,
        config.height >= 1,
        config.algo is BarnsleyFern ==> config.width * config.height <= u32::MAX,
    ensures
        !(config.algo is BarnsleyFern) ==> out@ == spec_escape_buffer(*config),
        config.algo is BarnsleyFern ==> out@.len() == config.width * config.height,
        config.algo is BarnsleyFern && config.spec_iterations() == 0 ==> out@ == spec_fern_prefill(
            *config,
        ),
        config.algo is BarnsleyFern ==> exists|draws: Seq<u64>|
            draws.len() == config.spec_iterations() && out@ == fern::spec_fern_walk(
                *config,
                config.width as usize,
                spec_fern_prefill(*config),
                fern::spec_fern_x0(*config),
                fern::spec_fern_y0(*config),
                draws,
            ).0,
{
    match config.algo {
        Algo::Mandelbrot | Algo::Julia(_) => render_escape_time(config),
        Algo::BarnsleyFern => render_fern(config),
    }
}

/// An escape-time render is deterministic: two buffers that both meet
/// `render_escape_time`'s contract for one configuration are identical.
pub proof fn lemma_render_deterministic(config: Config, a: Seq<RGB>, b: Seq<RGB>)
    requires
        a == spec_escape_buffer(config),
        b == spec_escape_buffer(config),
    ensures
        a == b,
{
}

} // verus!
