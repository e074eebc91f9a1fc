//! Configuration: parsing, defaults, the algorithm-switch transform, the
//! wire serialization and the redraw queue.

use fractal_renderer::color::{parse_hex_rgb, RGB};
use fractal_renderer::complex::Imaginary;
use fractal_renderer::config::{Algo, AlgoParseError, Config};
use fractal_renderer::queue::RedrawQueue;
use fractal_renderer::wire;

fn b(x: f64) -> u64 {
    x.to_bits()
}

#[test]
fn rgb_new_takes_red_blue_green() {
    // The constructor's quirky argument order: red, blue, green.
    let c = RGB::new(1, 2, 3);
    assert_eq!((c.r, c.g, c.b), (1, 3, 2));
}

#[test]
fn hex_colors_parse_per_channel() {
    // The digit pairs go through the constructor's red, blue, green
    // parameter order: the second pair lands in blue, the third in green.
    assert_eq!(parse_hex_rgb("ff8000"), RGB { r: 255, g: 0, b: 128 });
    assert_eq!(parse_hex_rgb("000000"), RGB { r: 0, g: 0, b: 0 });
    assert_eq!(parse_hex_rgb("0a0B0c"), RGB { r: 10, g: 12, b: 11 });
    assert_eq!(parse_hex_rgb("F0aA9C"), RGB { r: 240, g: 156, b: 170 });
    assert_eq!(parse_hex_rgb("112233"), RGB::new(0x11, 0x22, 0x33));
}

#[test]
fn algorithm_names_parse_ignoring_case() {
    assert!(matches!(Algo::from_str("mandelbrot"), Ok(Algo::Mandelbrot)));
    assert!(matches!(Algo::from_str("MANDELBROT"), Ok(Algo::Mandelbrot)));
    assert!(matches!(Algo::from_str("fern"), Ok(Algo::BarnsleyFern)));
    assert!(matches!(Algo::from_str("BarnsleyFern"), Ok(Algo::BarnsleyFern)));
    match Algo::from_str("Julia") {
        Ok(Algo::Julia(seed)) => {
            assert_eq!((seed.re, seed.im), (0, 0));
        },
        _ => panic!("julia must parse"),
    }
    assert!(matches!(Algo::from_str("nope"), Err(AlgoParseError::Incorrect)));
    assert!(matches!(Algo::from_str(""), Err(AlgoParseError::Incorrect)));
    assert!(matches!(Algo::from_str("mandelbro"), Err(AlgoParseError::Incorrect)));
}

#[test]
fn parse_error_message() {
    let e = AlgoParseError::Incorrect;
    assert_eq!(e.message(), "invalid algorithm name");
}

#[test]
fn default_configuration_values() {
    let c = Config::default();
    assert_eq!(c.width, 2000);
    assert_eq!(c.height, 1000);
    assert_eq!(c.iterations, None);
    assert_eq!(c.limit, b(65536.0));
    assert_eq!(c.stable_limit, b(2.0));
    assert_eq!((c.pos.re, c.pos.im), (b(0.0), b(0.0)));
    assert_eq!((c.scale.re, c.scale.im), (b(0.4), b(0.4)));
    assert_eq!(c.exposure, b(2.0));
    assert!(c.inside && c.smooth);
    assert!(matches!(c.algo, Algo::Mandelbrot));
    assert_eq!(c.color_weight, b(0.01));
}

#[test]
fn per_algorithm_defaults() {
    // The default colors are constructor calls, so their green and blue
    // channels land swapped relative to the argument order.
    let m = Config::new(Algo::Mandelbrot);
    assert_eq!(m.limit, b(4.0));
    assert_eq!(m.iterations(), 50);
    assert_eq!(m.primary_color(), RGB::new(40, 40, 255));
    assert_eq!(m.primary_color(), RGB { r: 40, g: 255, b: 40 });
    assert_eq!(m.secondary_color(), RGB::new(240, 170, 0));
    assert_eq!(m.secondary_color(), RGB { r: 240, g: 0, b: 170 });
    let f = Config::new(Algo::BarnsleyFern);
    assert_eq!(f.iterations(), 10_000_000);
    assert_eq!(f.primary_color(), RGB::new(4, 100, 3));
    assert_eq!(f.primary_color(), RGB { r: 4, g: 3, b: 100 });
    assert_eq!(f.secondary_color(), RGB { r: 240, g: 240, b: 240 });
    // Explicit values win over the defaults.
    let m = Config { iterations: Some(7), primary_color: Some(RGB { r: 1, g: 2, b: 3 }), ..m };
    assert_eq!(m.iterations(), 7);
    assert_eq!(m.primary_color(), RGB { r: 1, g: 2, b: 3 });
}

#[test]
fn switching_algorithm_resets_to_defaults() {
    let mut c = Config::default();
    c.width = 123;
    c.smooth = false;
    // A genuine switch resets everything to the new algorithm's defaults.
    let f = c.set_algorithm(Algo::BarnsleyFern);
    assert!(matches!(f.algo, Algo::BarnsleyFern));
    assert_eq!(f.width, 2000);
    assert!(f.smooth);
    // Re-selecting the same family keeps the configuration.
    let same = c.set_algorithm(Algo::Mandelbrot);
    assert_eq!(same.width, 123);
    assert!(!same.smooth);
    // A Julia seed change is not a switch: the seed updates, the rest stays.
    let mut j = Config::new(Algo::Julia(Imaginary { re: b(0.1), im: b(0.2) }));
    j.width = 77;
    let j2 = j.set_algorithm(Algo::Julia(Imaginary { re: b(0.3), im: b(0.4) }));
    assert_eq!(j2.width, 77);
    match j2.algo {
        Algo::Julia(seed) => assert_eq!((seed.re, seed.im), (b(0.3), b(0.4))),
        _ => panic!("still a julia set"),
    }
}

#[test]
fn wire_form_is_fixed_layout() {
    let config = Config {
        width: 0x0102_0304,
        height: 5,
        iterations: Some(9),
        ..Config::default()
    };
    let bytes = wire::config_to_bytes(&config);
    assert_eq!(bytes.len(), 105);
    assert_eq!(bytes[0], wire::CONFIG_WIRE_VERSION);
    // Little-endian width.
    assert_eq!(&bytes[1..5], &[0x04, 0x03, 0x02, 0x01]);
    // Height, then the present iteration cap.
    assert_eq!(&bytes[5..9], &[5, 0, 0, 0]);
    assert_eq!(&bytes[9..14], &[1, 9, 0, 0, 0]);
    // The escape limit, 65536.0, as its little-endian bit pattern.
    assert_eq!(&bytes[14..22], &b(65536.0).to_le_bytes());
    // Serialization is deterministic.
    assert_eq!(bytes, wire::config_to_bytes(&config));
    // An absent cap writes a zero presence byte and a zero value.
    let none = Config { iterations: None, ..config };
    let bytes = wire::config_to_bytes(&none);
    assert_eq!(&bytes[9..14], &[0, 0, 0, 0, 0]);
}

#[test]
fn wire_form_tags_the_algorithm() {
    let seed = Imaginary { re: b(-0.8), im: b(0.156) };
    let julia = Config { algo: Algo::Julia(seed), ..Config::default() };
    let bytes = wire::config_to_bytes(&julia);
    let algo_at: usize = 105 - 8 - 17;
    assert_eq!(bytes[algo_at], 2);
    assert_eq!(&bytes[algo_at + 1..algo_at + 9], &seed.re.to_le_bytes());
    assert_eq!(&bytes[algo_at + 9..algo_at + 17], &seed.im.to_le_bytes());
    let fern = Config { algo: Algo::BarnsleyFern, ..Config::default() };
    assert_eq!(wire::config_to_bytes(&fern)[algo_at], 1);
}

#[test]
fn redraw_queue_coalesces_to_latest() {
    let mut q = RedrawQueue::new();
    let a = Config::default();
    let mut bcfg = Config::default();
    bcfg.width = 1;
    let mut ccfg = Config::default();
    ccfg.width = 2;
    // Idle: the first request starts at once.
    let started = q.request(a);
    assert_eq!(started.map(|c| c.width), Some(2000));
    // Busy: later requests overwrite the single pending slot.
    assert!(q.request(bcfg).is_none());
    assert!(q.request(ccfg).is_none());
    // Finishing hands back only the latest pending request.
    let next = q.finish();
    assert_eq!(next.map(|c| c.width), Some(2));
    // That render finishes with nothing pending: the queue goes idle.
    assert!(q.finish().is_none());
    let restarted = q.request(bcfg);
    assert_eq!(restarted.map(|c| c.width), Some(1));
}
