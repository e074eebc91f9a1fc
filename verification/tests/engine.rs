//! The evaluator, colorizer, image buffer and both render entry points,
//! checked against a plain double-precision reference of the same pipeline.

use fractal_renderer::color::RGB;
use fractal_renderer::complex::Imaginary;
use fractal_renderer::config::{Algo, Config};
use fractal_renderer::escape;
use fractal_renderer::image::Image;
use fractal_renderer::fern::fern_step;
use fractal_renderer::render;

fn b(x: f64) -> u64 {
    x.to_bits()
}

fn f(x: u64) -> f64 {
    f64::from_bits(x)
}

fn escape_config() -> Config {
    Config {
        width: 4,
        height: 4,
        iterations: Some(10),
        limit: b(4.0),
        stable_limit: b(2.0),
        pos: Imaginary { re: b(0.0), im: b(0.0) },
        scale: Imaginary { re: b(1.0), im: b(1.0) },
        exposure: b(2.0),
        inside: true,
        smooth: false,
        primary_color: None,
        secondary_color: None,
        algo: Algo::Mandelbrot,
        color_weight: b(0.01),
    }
}

#[test]
fn mandelbrot_origin_runs_full_cap() {
    // The origin is in the Mandelbrot set: the evaluator must exhaust the cap.
    let zero = Imaginary { re: b(0.0), im: b(0.0) };
    let (end, iters) = escape::recursive(50, zero, zero, b(65536.0));
    assert_eq!(iters, 50);
    assert_eq!(f(end.re), 0.0);
    assert_eq!(f(end.im), 0.0);
}

#[test]
fn far_point_escapes_at_step_zero() {
    let start = Imaginary { re: b(10.0), im: b(10.0) };
    let (end, iters) = escape::recursive(4, start, start, b(4.0));
    assert_eq!(iters, 0);
    // square((10,10)) = (0, 200); plus c gives (10, 210).
    assert_eq!(f(end.re), 10.0);
    assert_eq!(f(end.im), 210.0);
    assert!(f(end.re) * f(end.re) + f(end.im) * f(end.im) > 16.0);
}

#[test]
fn escape_test_is_strict() {
    // From (1,1) with c = (0,0) and limit 2: the first step reaches (0,2),
    // whose squared magnitude equals the squared limit exactly — not an
    // escape, since the test is a strict greater-than. The second step
    // reaches (-4,0) and escapes.
    let start = Imaginary { re: b(1.0), im: b(1.0) };
    let c = Imaginary { re: b(0.0), im: b(0.0) };
    let (end, iters) = escape::recursive(1, start, c, b(2.0));
    assert_eq!(iters, 1);
    assert_eq!((f(end.re), f(end.im)), (0.0, 2.0));
    let (end, iters) = escape::recursive(5, start, c, b(2.0));
    assert_eq!(iters, 1);
    assert_eq!((f(end.re), f(end.im)), (-4.0, 0.0));
}

#[test]
fn nan_draw_compares_below_no_threshold() {
    // A NaN is below none of the cumulative thresholds, so it selects the
    // last map, exactly as the platform's `<` would.
    let x = 2.0f64;
    let y = 3.0f64;
    let d = fern_step(b(x), b(y), f64::NAN.to_bits());
    assert_eq!((f(d.0), f(d.1)), (-0.15 * x + 0.28 * y, 0.26 * x + 0.24 * y + 0.44));
    // Either zero is below every positive threshold and selects the stem map.
    let z = fern_step(b(x), b(y), (-0.0f64).to_bits());
    assert_eq!((f(z.0), f(z.1)), (0.0, 0.16 * y));
}

#[test]
fn colorizer_is_idempotent() {
    let mut config = escape_config();
    let pos = Imaginary { re: b(1.5), im: b(-0.5) };
    let first = escape::colorize(&config, pos, 3);
    let second = escape::colorize(&config, pos, 3);
    assert_eq!(first, second);
    config.smooth = true;
    let first = escape::colorize(&config, pos, 3);
    let second = escape::colorize(&config, pos, 3);
    assert_eq!(first, second);
}

#[test]
fn colorizer_uses_square_root_in_smoothing() {
    // dist = 16: sqrt gives 4, log2(4)/2 = 1, and the inner log2 of 1 is 0,
    // so the smoothed count is iters + 1. With cap 10 and exposure 1 the
    // multiplier is 0.2 and every white channel truncates to 51.
    let config = Config {
        iterations: Some(10),
        exposure: b(1.0),
        smooth: true,
        primary_color: Some(RGB { r: 255, g: 255, b: 255 }),
        ..escape_config()
    };
    let pos = Imaginary { re: b(4.0), im: b(0.0) };
    let c = escape::colorize(&config, pos, 1);
    assert_eq!((c.r, c.g, c.b), (51, 51, 51));
}

#[test]
fn colorizer_inside_and_black_paths() {
    let mut config = escape_config();
    // dist = 0.25 is under the stability threshold: inside coloring applies
    // the secondary color scaled by dist; the default secondary is
    // RGB::new(240, 170, 0), whose blue channel gets the 170.
    let pos = Imaginary { re: b(0.5), im: b(0.0) };
    let c = escape::colorize(&config, pos, 10);
    assert_eq!((c.r, c.g, c.b), ((240.0f64 * 0.25) as u8, 0, (170.0f64 * 0.25) as u8));
    config.inside = false;
    let c = escape::colorize(&config, pos, 10);
    assert_eq!((c.r, c.g, c.b), (0, 0, 0));
}

fn ref_coord(coord: f64, max: f64, offset: f64, pos: f64, scale: f64) -> f64 {
    ((coord / max) - offset) / scale + pos
}

fn ref_pixel(config: &Config, x: u32, y: u32) -> (u8, u8, u8) {
    let w = config.width as f64;
    let h = config.height as f64;
    let sre = ref_coord(x as f64, h, (w / h) / 2.0, f(config.pos.re), f(config.scale.re));
    let sim = ref_coord(y as f64, h, 0.5, f(config.pos.im), f(config.scale.im));
    let cap: u32 = match config.iterations {
        Some(i) => i,
        None => 50,
    };
    let limit = f(config.limit);
    let squared = limit * limit;
    let (mut re, mut im) = (sre, sim);
    let mut count: u32 = cap;
    for i in 0..cap {
        let nre = re * re - im * im + sre;
        let nim = 2.0 * re * im + sim;
        let dist = nre * nre + nim * nim;
        re = nre;
        im = nim;
        if dist > squared {
            count = i;
            break;
        }
    }
    let dist = re * re + im * im;
    // The default colors through the constructor's red, blue, green order:
    // primary {r:40, g:255, b:40}, secondary {r:240, g:0, b:170}.
    if dist > f(config.stable_limit) {
        let mult = count as f64 / cap as f64 * f(config.exposure);
        ((40.0 * mult) as u8, (255.0 * mult) as u8, (40.0 * mult) as u8)
    } else if config.inside {
        ((240.0 * dist) as u8, (0.0 * dist) as u8, (170.0 * dist) as u8)
    } else {
        (0, 0, 0)
    }
}

#[test]
fn end_to_end_matches_double_reference_and_is_deterministic() {
    let config = escape_config();
    let first = render::render_escape_time(&config);
    let second = render::render_escape_time(&config);
    assert_eq!(first.len(), 16);
    // Bit-identical across runs: the escape-time path is pure.
    assert_eq!(first, second);
    for y in 0..4u32 {
        for x in 0..4u32 {
            let got = first[(y * 4 + x) as usize];
            let want = ref_pixel(&config, x, y);
            assert_eq!((got.r, got.g, got.b), want, "pixel ({x},{y})");
        }
    }
}

#[test]
fn julia_differs_only_by_fixed_seed() {
    let seed = Imaginary { re: b(-0.8), im: b(0.156) };
    let config = Config { algo: Algo::Julia(seed), ..escape_config() };
    let buffer = render::render_escape_time(&config);
    assert_eq!(buffer.len(), 16);
    // Spot-check one pixel against a direct evaluation with the fixed seed.
    let start = fractal_renderer::viewport::xy_to_imaginary(
        2,
        1,
        4,
        4,
        &config.pos,
        &config.scale,
    );
    let r = escape::recursive(10, start, seed, config.limit);
    let expected = escape::colorize(&config, r.0, r.1);
    assert_eq!(buffer[(1 * 4 + 2) as usize], expected);
}

#[test]
fn buffer_edge_write_is_dropped_not_a_crash() {
    // One row of four pixels: column 4 addresses the slot one past the end,
    // which the permissive `x > width` test leaves to the length check.
    let white = RGB { r: 200, g: 200, b: 200 };
    let contents = vec![white; 4];
    let mut image = Image::new(contents, 4, 1);
    assert_eq!(image.pixel_mut(4, 0), None);
    assert_eq!(image.pixel_mut(5, 0), None);
    image.subtract_pixel(4, 0, RGB { r: 4, g: 100, b: 3 }, b(0.5));
    assert_eq!(image.contents, vec![white; 4]);
}

#[test]
fn buffer_edge_column_aliases_next_row_when_taller() {
    // On a taller image the same permissive seam lands on the first column
    // of the next row; this pins the seam's off-by-one behavior.
    let white = RGB { r: 200, g: 200, b: 200 };
    let contents = vec![white; 8];
    let image = Image::new(contents, 4, 2);
    assert_eq!(image.pixel_mut(4, 0), Some(4));
}

#[test]
fn blend_write_matches_double_formula() {
    let old = RGB { r: 200, g: 120, b: 7 };
    let target = RGB { r: 4, g: 100, b: 3 };
    let amount = 0.01f64;
    let mut image = Image::new(vec![old; 1], 1, 1);
    image.subtract_pixel(0, 0, target, b(amount));
    let blend = |oldc: u8, tc: u8| -> u8 {
        (oldc as f64 * 1.0 / ((((1.0 / (tc as f64 / 255.0)) - 1.0) * amount) + 1.0)) as u8
    };
    let got = image.contents[0];
    assert_eq!(
        (got.r, got.g, got.b),
        (blend(200, 4), blend(120, 100), blend(7, 3))
    );
}

#[test]
fn fern_zero_iterations_leaves_prefill() {
    let config = Config {
        width: 4,
        height: 3,
        iterations: Some(0),
        algo: Algo::BarnsleyFern,
        ..escape_config()
    };
    let buffer = render::render_fern(&config);
    assert_eq!(buffer.len(), 12);
    // The fern's default secondary color is the near-white background.
    assert_eq!(buffer, vec![RGB { r: 240, g: 240, b: 240 }; 12]);
}

#[test]
fn fern_render_fills_frame() {
    let config = Config {
        width: 16,
        height: 12,
        iterations: Some(5_000),
        algo: Algo::BarnsleyFern,
        ..Config::new(Algo::BarnsleyFern)
    };
    let buffer = render::get_image(&config);
    assert_eq!(buffer.len(), 16 * 12);
    // Entropy-seeded: the exact image varies, but some hit must darken the
    // background away from pure near-white.
    let background = RGB { r: 240, g: 240, b: 240 };
    assert!(buffer.iter().any(|px| *px != background));
}

#[test]
fn fern_maps_match_the_classic_coefficients() {
    let x = 1.25f64;
    let y = -2.5f64;
    // One draw under each cumulative threshold: 0.01, 0.86, 0.93, then above.
    let stem = fern_step(b(x), b(y), b(0.005));
    assert_eq!((f(stem.0), f(stem.1)), (0.00 * x + 0.00 * y, 0.00 * x + 0.16 * y + 0.00));
    let main = fern_step(b(x), b(y), b(0.5));
    assert_eq!((f(main.0), f(main.1)), (0.85 * x + 0.04 * y, -0.04 * x + 0.85 * y + 1.60));
    let left = fern_step(b(x), b(y), b(0.9));
    assert_eq!((f(left.0), f(left.1)), (0.20 * x - 0.26 * y, 0.23 * x + 0.22 * y + 1.60));
    let right = fern_step(b(x), b(y), b(0.95));
    assert_eq!((f(right.0), f(right.1)), (-0.15 * x + 0.28 * y, 0.26 * x + 0.24 * y + 0.44));
    // The thresholds themselves select the next map up: the tests are strict.
    let at_001 = fern_step(b(x), b(y), b(0.01));
    assert_eq!(f(at_001.0), 0.85 * x + 0.04 * y);
}

#[test]
fn fern_first_hit_lands_where_the_frame_mapping_says() {
    // The first blend happens before the first random draw, so a one-step
    // fern is deterministic and pins the frame mapping and the blend.
    let config = Config {
        width: 16,
        height: 12,
        iterations: Some(1),
        algo: Algo::BarnsleyFern,
        ..Config::new(Algo::BarnsleyFern)
    };
    let buffer = render::render_fern(&config);

    // The walk starts at pos * (width, height) = (0, 0).
    let w = 16.0f64;
    let h = 12.0f64;
    let esx = 65.0 * 0.4 * h * 0.006;
    let esy = 37.0 * 0.4 * h * 0.006;
    let px = (((0.0 - 0.0) * esx) + w / 2.0) as usize;
    let py = (h - ((0.0 + (0.0 - 5.0) - 0.5) * esy + h / 2.0)) as usize;
    let blend = |oldc: u8, tc: u8| -> u8 {
        (oldc as f64 * 1.0 / ((((1.0 / (tc as f64 / 255.0)) - 1.0) * 0.01) + 1.0)) as u8
    };
    let background = RGB { r: 240, g: 240, b: 240 };
    // The fern's default primary is RGB::new(4, 100, 3) = {r:4, g:3, b:100}.
    let hit = RGB { r: blend(240, 4), g: blend(240, 3), b: blend(240, 100) };
    for (i, px_color) in buffer.iter().enumerate() {
        let want = if i == py * 16 + px { hit } else { background };
        assert_eq!(*px_color, want, "pixel {i}");
    }
}

#[test]
fn dispatcher_selects_by_algorithm() {
    let escape_cfg = escape_config();
    assert_eq!(render::get_image(&escape_cfg), render::render_escape_time(&escape_cfg));
    let fern_cfg = Config {
        iterations: Some(0),
        algo: Algo::BarnsleyFern,
        ..escape_config()
    };
    assert_eq!(render::get_image(&fern_cfg), render::render_fern(&fern_cfg));
}
