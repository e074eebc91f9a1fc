//! The escape-time evaluator and the pixel colorizer.

use vstd::prelude::*;

use crate::color;
use crate::color::RGB;
use crate::complex::Imaginary;
use crate::config::{Algo, Config};
use crate::fbits;
use crate::fbits::{
    add_bits, div_bits, lt_bits, mul_bits, spec_bits_of_u32, spec_log2, sqrt_bits, sub_bits,
};
use crate::viewport;

verus! {

/// The evaluator's terminal state, starting from `previous` with `i` steps
/// already taken: iterate `next = previous² + c` until the squared magnitude
/// exceeds `squared`, returning the escape position and the 0-based step at
/// which escape was detected — or the last bounded position and the cap when
/// the cap is reached without escape.
pub open spec fn spec_escape(
    previous: Imaginary,
    c: Imaginary,
    squared: u64,
    i: u32,
    iterations: u32,
) -> (Imaginary, u32)
    decreases iterations - i,
{
    if i >= iterations {
        (previous, iterations)
    } else {
        let next = previous.spec_square().spec_add(c);
        let dist = next.spec_squared_distance();
        if lt_bits(squared, dist) {
            (next, i)
        } else {
            spec_escape(next, c, squared, (i + 1) as u32, iterations)
        }
    }
}

/// The full evaluation from `start`, with the escape test made against
/// `limit²`.
pub open spec fn spec_recursive(
    iterations: u32,
    start: Imaginary,
    c: Imaginary,
    limit: u64,
) -> (Imaginary, u32) {
    spec_escape(start, c, mul_bits(limit, limit), 0, iterations)
}

/// The iteration count of an evaluation never exceeds the cap, and never
/// falls below the number of steps already taken when escape happens later.
pub proof fn lemma_escape_count_le_cap(
    previous: Imaginary,
    c: Imaginary,
    squared: u64,
    i: u32,
    iterations: u32,
)
    requires
        i <= iterations,
    ensures
        spec_escape(previous, c, squared, i, iterations).1 <= iterations,
    decreases iterations - i,
{
    if i < iterations {
        let next = previous.spec_square().spec_add(c);
        let dist = next.spec_squared_distance();
        if !lt_bits(squared, dist) {
            lemma_escape_count_le_cap(next, c, squared, (i + 1) as u32, iterations);
        }
    }
}

/// `limit` is the distance from the center considered out of bounds.
///
/// If `c == start`, this evaluates the Mandelbrot recurrence; with a fixed
/// `c` it evaluates a Julia set.
///
/// Returns the final position and the number of iterations to get there.
pub fn recursive(iterations: u32, start: Imaginary, c: Imaginary, limit: u64) -> (r: (
    Imaginary,
    u32,
))
    ensures
        r == spec_recursive(iterations, start, c, limit),
        r.1 <= iterations,
{
    let squared: u64 = fbits::f_mul(limit, limit);
    let mut previous = start;
    let mut i: u32 = 0;
    while i < iterations
        invariant
            i <= iterations,
            squared == mul_bits(limit, limit),
            spec_escape(previous, c, squared, i, iterations) == spec_escape(
                start,
                c,
                squared,
                0,
                iterations,
            ),
        decreases iterations - i,
    {
        let next = previous.square().add(c);
        let dist = next.squared_distance();
        if fbits::f_lt(squared, dist) {
            return (next, i);
        }
        previous = next;
        i = i + 1;
    }
    (previous, iterations)
}

/// The color of one escape result under a configuration.
///
/// A final squared magnitude above the stability threshold means the point is
/// outside: the iteration count — smoothed by the continuous-coloring
/// correction `1 − log2(log2(sqrt(dist)) / 2)` when smoothing is on — is
/// normalized by the cap, scaled by the exposure, and applied to the primary
/// color. Otherwise the point is inside: the secondary color scaled by the
/// squared magnitude when inside coloring is on, black when it is off.
pub open spec fn spec_colorize(config: Config, pos: Imaginary, iters: u32) -> RGB {
    let dist = pos.spec_squared_distance();
    if lt_bits(config.stable_limit, dist) {
        let base = spec_bits_of_u32(iters);
        let iters_f = if config.smooth {
            let log_zn = div_bits(spec_log2(sqrt_bits(dist)), fbits::B_TWO);
            let nu = spec_log2(log_zn);
            add_bits(base, sub_bits(fbits::B_ONE, nu))
        } else {
            base
        };
        let mult = mul_bits(
            div_bits(iters_f, spec_bits_of_u32(config.spec_iterations())),
            config.exposure,
        );
        color::spec_color_multiply(config.spec_primary_color(), mult)
    } else if config.inside {
        color::spec_color_multiply(config.spec_secondary_color(), dist)
    } else {
        color::spec_black()
    }
}

/// Colors one escape result. The whole computation is a deterministic
/// function of the configuration and the escape result.
pub fn colorize(config: &Config, pos: Imaginary, iters: u32) -> (c: RGB)
    ensures
        c == spec_colorize(*config, pos, iters),
{
    let dist: u64 = pos.squared_distance();
    if fbits::f_lt(config.stable_limit, dist) {
        let base: u64 = fbits::bits_of_u32(iters);
        let iters_f: u64 = if config.smooth {
            let log_zn: u64 = fbits::f_div(fbits::f_log2(fbits::f_sqrt(dist)), fbits::B_TWO);
            let nu: u64 = fbits::f_log2(log_zn);
            fbits::f_add(base, fbits::f_sub(fbits::B_ONE, nu))
        } else {
            base
        };
        let mult: u64 = fbits::f_mul(
            fbits::f_div(iters_f, fbits::bits_of_u32(config.iterations())),
            config.exposure,
        );
        color::color_multiply(config.primary_color(), mult)
    } else if config.inside {
        color::color_multiply(config.secondary_color(), dist)
    } else {
        RGB { r: 0, g: 0, b: 0 }
    }
}

/// Colorizing is pure: two colors of the same escape result under the same
/// configuration are identical.
pub proof fn lemma_colorize_pure(config: Config, pos: Imaginary, iters: u32, c1: RGB, c2: RGB)
    requires
        c1 == spec_colorize(config, pos, iters),
        c2 == spec_colorize(config, pos, iters),
    ensures
        c1 == c2,
{
}

/// The iterated constant of the escape-time recurrence: the start point
/// itself for the Mandelbrot set, the configured seed for a Julia set.
pub open spec fn spec_seed(config: Config, start: Imaginary) -> Imaginary {
    match config.algo {
        Algo::Julia(c) => c,
        _ => start,
    }
}

/// The color of pixel `(x, y)`: the viewport maps it to a start point, the
/// evaluator runs the recurrence from it, and the colorizer turns the escape
/// result into a color.
pub open spec fn spec_get_recursive_pixel(config: Config, x: u32, y: u32) -> RGB {
    let start = viewport::spec_xy_to_imaginary(
        x,
        y,
        config.width,
        config.height,
        config.pos,
        config.scale,
    );
    let r = spec_recursive(
        config.spec_iterations(),
        start,
        spec_seed(config, start),
        config.limit,
    );
    spec_colorize(config, r.0, r.1)
}

/// Computes the color of pixel `(x, y)` for an escape-time configuration.
pub fn get_recursive_pixel(config: &Config, x: u32, y: u32) -> (c: RGB)
    requires
        !(config.algo is BarnsleyFern),
    ensures
        c == spec_get_recursive_pixel(*config, x, y),
{
    let start = viewport::xy_to_imaginary(
        x,
        y,
        config.width,
        config.height,
        &config.pos,
        &config.scale,
    );
    let r = match config.algo {
        Algo::Mandelbrot => recursive(config.iterations(), start, start, config.limit),
        Algo::Julia(c) => recursive(config.iterations(), start, c, config.limit),
        Algo::BarnsleyFern => {
            // Excluded by the precondition: the fern has no per-pixel evaluation.
            return RGB { r: 0, g: 0, b: 0 };
        },
    };
    colorize(config, r.0, r.1)
}

} // verus!
