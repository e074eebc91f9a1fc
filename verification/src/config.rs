//! Render configuration: algorithm selection, viewport, iteration caps and
//! coloring parameters.

use vstd::prelude::*;

use crate::color::RGB;
use crate::complex::Imaginary;
use crate::fbits;
use vstd::string::StringSliceAdditionalSpecFns;

verus! {

/// The fractal family to render. A Julia set carries its fixed seed point.
#[derive(Clone, Copy, Debug, PartialEq, Eq, Structural)]
pub enum Algo {
    Mandelbrot,
    BarnsleyFern,
    Julia(Imaginary),
}

pub enum AlgoParseError {
    /// Use one of the variants.
    Incorrect,
}

impl AlgoParseError {
    /// The message shown for a rejected algorithm name.
    pub fn message(&self) -> (m: String)
        ensures
            m@ == "invalid algorithm name"@,
    {
        "invalid algorithm name".to_owned()
    }
}

/// An upper-case ASCII letter folded to lower case; anything else unchanged.
pub open spec fn spec_ascii_lower(c: u8) -> u8 {
    if 0x41 <= c && c <= 0x5A {
        (c + 0x20) as u8
    } else {
        c
    }
}

/// Byte sequences equal up to ASCII case.
pub open spec fn spec_eq_ignore_ascii_case(a: Seq<u8>, b: Seq<u8>) -> bool {
    a.len() == b.len() && forall|i: int|
        0 <= i < a.len() ==> spec_ascii_lower(a[i]) == spec_ascii_lower(b[i])
}

/// Compares the bytes of `s` against `kw` ignoring ASCII case.
fn matches_keyword(s: &str, kw: &Vec<u8>) -> (r: bool)
    ensures
        r == spec_eq_ignore_ascii_case(s.spec_bytes(), kw@),
{
    let sb = s.as_bytes();
    if sb.len() != kw.len() {
        return false;
    }
    let mut i: usize = 0;
    while i < kw.len()
        invariant
            sb@ == s.spec_bytes(),
            sb@.len() == kw@.len(),
            i <= kw@.len(),
            forall|j: int| 0 <= j < i ==> spec_ascii_lower(sb@[j]) == spec_ascii_lower(kw@[j]),
        decreases kw@.len() - i,
    {
        let ca: u8 = sb[i];
        let cb: u8 = kw[i];
        let la: u8 = if 0x41 <= ca && ca <= 0x5A {
            ca + 0x20
        } else {
            ca
        };
        let lb: u8 = if 0x41 <= cb && cb <= 0x5A {
            cb + 0x20
        } else {
            cb
        };
        if la != lb {
            return false;
        }
        i = i + 1;
    }
    true
}

/// The bytes of "mandelbrot".
pub open spec fn kw_mandelbrot() -> Seq<u8> {
    seq![0x6Du8, 0x61u8, 0x6Eu8, 0x64u8, 0x65u8, 0x6Cu8, 0x62u8, 0x72u8, 0x6Fu8, 0x74u8]
}

/// The bytes of "fern".
pub open spec fn kw_fern() -> Seq<u8> {
    seq![0x66u8, 0x65u8, 0x72u8, 0x6Eu8]
}

/// The bytes of "barnsleyfern".
pub open spec fn kw_barnsleyfern() -> Seq<u8> {
    seq![
        0x62u8,
        0x61u8,
        0x72u8,
        0x6Eu8,
        0x73u8,
        0x6Cu8,
        0x65u8,
        0x79u8,
        0x66u8,
        0x65u8,
        0x72u8,
        0x6Eu8,
    ]
}

/// The bytes of "julia".
pub open spec fn kw_julia() -> Seq<u8> {
    seq![0x6Au8, 0x75u8, 0x6Cu8, 0x69u8, 0x61u8]
}

/// Which algorithm a name selects, compared ignoring ASCII case: any other
/// name is rejected. A parsed Julia set starts with the seed at the origin.
pub open spec fn spec_parse_algo(s: Seq<u8>) -> Result<Algo, AlgoParseError> {
    if spec_eq_ignore_ascii_case(s, kw_mandelbrot()) {
        Ok(Algo::Mandelbrot)
    } else if spec_eq_ignore_ascii_case(s, kw_fern()) || spec_eq_ignore_ascii_case(
        s,
        kw_barnsleyfern(),
    ) {
        Ok(Algo::BarnsleyFern)
    } else if spec_eq_ignore_ascii_case(s, kw_julia()) {
        Ok(Algo::Julia(Imaginary { re: 0, im: 0 }))
    } else {
        Err(AlgoParseError::Incorrect)
    }
}

impl Algo {
    /// Parses an algorithm name, ignoring ASCII case.
    pub fn from_str(s: &str) -> (r: Result<Algo, AlgoParseError>)
        ensures
            r == spec_parse_algo(s.spec_bytes()),
    {
        let mandelbrot: Vec<u8> = vec![0x6D, 0x61, 0x6E, 0x64, 0x65, 0x6C, 0x62, 0x72, 0x6F, 0x74];
        let fern: Vec<u8> = vec![0x66, 0x65, 0x72, 0x6E];
        let barnsleyfern: Vec<u8> = vec![
            0x62,
            0x61,
            0x72,
            0x6E,
            0x73,
            0x6C,
            0x65,
            0x79,
            0x66,
            0x65,
            0x72,
            0x6E,
        ];
        let julia: Vec<u8> = vec![0x6A, 0x75, 0x6C, 0x69, 0x61];
        proof {
            assert(mandelbrot@ =~= kw_mandelbrot());
            assert(fern@ =~= kw_fern());
            assert(barnsleyfern@ =~= kw_barnsleyfern());
            assert(julia@ =~= kw_julia());
        }
        if matches_keyword(s, &mandelbrot) {
            Ok(Algo::Mandelbrot)
        } else if matches_keyword(s, &fern) || matches_keyword(s, &barnsleyfern) {
            Ok(Algo::BarnsleyFern)
        } else if matches_keyword(s, &julia) {
            Ok(Algo::Julia(Imaginary { re: 0, im: 0 }))
        } else {
            Err(AlgoParseError::Incorrect)
        }
    }

    /// Whether switching from `self` to `other` changes the algorithm family.
    /// Two Julia selections never differ here, whatever their seeds.
    pub open spec fn spec_differs(self, other: Algo) -> bool {
        match (self, other) {
            (Algo::Julia(_), Algo::Julia(_)) => false,
            (Algo::Mandelbrot, Algo::Mandelbrot) => false,
            (Algo::BarnsleyFern, Algo::BarnsleyFern) => false,
            _ => true,
        }
    }

    /// True when the two selections are of different algorithm families.
    fn is_different(&self, other: &Self) -> (r: bool)
        ensures
            r == self.spec_differs(*other),
    {
        match (self, other) {
            (Algo::Julia(_), Algo::Julia(_)) => false,
            (Algo::Mandelbrot, Algo::Mandelbrot) => false,
            (Algo::BarnsleyFern, Algo::BarnsleyFern) => false,
            _ => true,
        }
    }
}

/// Everything one render reads: algorithm, image size, iteration cap, escape
/// and stability limits, pan and scale, exposure, coloring flags and colors,
/// and the fern's blend weight. All real-valued fields hold IEEE-754 double
/// bit patterns.
#[derive(Clone, Copy, Debug)]
pub struct Config {
    pub width: u32,
    pub height: u32,
    /// Iteration cap; `None` selects the algorithm's default cap.
    pub iterations: Option<u32>,
    /// Escape distance; compared against the squared magnitude after squaring.
    pub limit: u64,
    /// Squared-magnitude threshold separating inside from outside coloring.
    pub stable_limit: u64,
    /// Pan offset.
    pub pos: Imaginary,
    /// Zoom; both components are used as divisors and must be non-zero.
    pub scale: Imaginary,
    /// Brightness multiplier for outside coloring.
    pub exposure: u64,
    /// Color the inside of the set rather than leaving it black.
    pub inside: bool,
    /// Apply continuous (smooth) coloring to the outside.
    pub smooth: bool,
    /// Main color; `None` selects the algorithm's default.
    pub primary_color: Option<RGB>,
    /// Background or inside color; `None` selects the algorithm's default.
    pub secondary_color: Option<RGB>,
    pub algo: Algo,
    /// Blend strength of one fern hit.
    pub color_weight: u64,
}

impl Config {
    /// The effective iteration cap: the explicit one, or the algorithm's
    /// default — 50 for the escape-time fractals, ten million for the fern.
    pub open spec fn spec_iterations(self) -> u32 {
        match self.iterations {
            Some(iters) => iters,
            None => match self.algo {
                Algo::Mandelbrot | Algo::Julia(_) => 50,
                Algo::BarnsleyFern => 10_000_000,
            },
        }
    }

    /// Effective iteration cap.
    pub fn iterations(&self) -> (n: u32)
        ensures
            n == self.spec_iterations(),
    {
        if let Some(iters) = self.iterations {
            return iters;
        }
        match self.algo {
            Algo::Mandelbrot | Algo::Julia(_) => 50,
            Algo::BarnsleyFern => 10_000_000,
        }
    }

    /// The effective primary color: the explicit one, or the algorithm's
    /// default. The defaults are written as constructor calls, and the
    /// constructor's parameters run red, blue, green — so
    /// `RGB::new(40, 40, 255)` is the green-heavy escape-time default
    /// `{r: 40, g: 255, b: 40}`, and `RGB::new(4, 100, 3)` the blue-heavy
    /// fern default `{r: 4, g: 3, b: 100}`. The channel values carry that
    /// meaning everywhere, so the seam is kept, not mended.
    pub open spec fn spec_primary_color(self) -> RGB {
        match self.primary_color {
            Some(color) => color,
            None => match self.algo {
                Algo::Mandelbrot | Algo::Julia(_) => RGB { r: 40, g: 255, b: 40 },
                Algo::BarnsleyFern => RGB { r: 4, g: 3, b: 100 },
            },
        }
    }

    /// Effective primary color.
    pub fn primary_color(&self) -> (c: RGB)
        ensures
            c == self.spec_primary_color(),
    {
        if let Some(color) = self.primary_color {
            return color;
        }
        match self.algo {
            Algo::Mandelbrot | Algo::Julia(_) => RGB::new(40, 40, 255),
            Algo::BarnsleyFern => RGB::new(4, 100, 3),
        }
    }

    /// The effective secondary color: the explicit one, or the algorithm's
    /// default — through the constructor's red, blue, green parameter order,
    /// `RGB::new(240, 170, 0)` is `{r: 240, g: 0, b: 170}` for the
    /// escape-time fractals, and the symmetric `{r: 240, g: 240, b: 240}` is
    /// the fern's background.
    pub open spec fn spec_secondary_color(self) -> RGB {
        match self.secondary_color {
            Some(color) => color,
            None => match self.algo {
                Algo::Mandelbrot | Algo::Julia(_) => RGB { r: 240, g: 0, b: 170 },
                Algo::BarnsleyFern => RGB { r: 240, g: 240, b: 240 },
            },
        }
    }

    /// Effective secondary color.
    pub fn secondary_color(&self) -> (c: RGB)
        ensures
            c == self.spec_secondary_color(),
    {
        if let Some(color) = self.secondary_color {
            return color;
        }
        match self.algo {
            Algo::Mandelbrot | Algo::Julia(_) => RGB::new(240, 170, 0),
            Algo::BarnsleyFern => RGB::new(240, 240, 240),
        }
    }

    /// The configuration a fresh render of `algo` starts from: a 2000×1000
    /// frame, escape distance 4, stability threshold 2, the origin pan,
    /// scale 0.4, exposure 2, both coloring flags on, the algorithm's default
    /// cap and colors, and a fern blend weight of 0.01.
    pub open spec fn spec_new(algo: Algo) -> Config {
        Config {
            width: 2000,
            height: 1000,
            iterations: None,
            limit: 0x4010_0000_0000_0000,
            stable_limit: fbits::B_TWO,
            pos: Imaginary { re: 0, im: 0 },
            scale: Imaginary { re: 0x3FD9_9999_9999_999A, im: 0x3FD9_9999_9999_999A },
            exposure: fbits::B_TWO,
            inside: true,
            smooth: true,
            primary_color: None,
            secondary_color: None,
            algo,
            color_weight: 0x3F84_7AE1_47AE_147B,
        }
    }

    /// The defaults a render of `algo` starts from.
    pub fn new(algo: Algo) -> (c: Config)
        ensures
            c == Config::spec_new(algo),
    {
        Config {
            width: 2000,
            height: 1000,
            iterations: None,
            limit: 0x4010_0000_0000_0000,
            stable_limit: fbits::B_TWO,
            pos: Imaginary { re: 0, im: 0 },
            scale: Imaginary { re: 0x3FD9_9999_9999_999A, im: 0x3FD9_9999_9999_999A },
            exposure: fbits::B_TWO,
            inside: true,
            smooth: true,
            primary_color: None,
            secondary_color: None,
            algo,
            color_weight: 0x3F84_7AE1_47AE_147B,
        }
    }

    /// Switching algorithm resets the rest of the configuration to the new
    /// algorithm's defaults; re-selecting the same family (for a Julia set,
    /// with any seed) only replaces the selection and keeps the rest.
    pub open spec fn spec_set_algorithm(self, algo: Algo) -> Config {
        if self.algo.spec_differs(algo) {
            Config { algo, ..Config::spec_new(algo) }
        } else {
            Config { algo, ..self }
        }
    }

    /// Applies an algorithm switch, resetting the other fields to the new
    /// algorithm's defaults exactly when the family changes.
    pub fn set_algorithm(&self, algo: Algo) -> (c: Config)
        ensures
            c == self.spec_set_algorithm(algo),
    {
        if self.algo.is_different(&algo) {
            Config { algo, ..Config::new(algo) }
        } else {
            Config { algo, ..*self }
        }
    }
}

/// The out-of-the-box configuration: a Mandelbrot render with an escape
/// distance of 65536 and the same framing defaults as `Config::new`.
pub open spec fn spec_default_config() -> Config {
    Config {
        limit: 0x40F0_0000_0000_0000,
        ..Config::spec_new(Algo::Mandelbrot)
    }
}

impl Default for Config {
    /// Out-of-the-box configuration.
    fn default() -> (c: Config)
        ensures
            c == spec_default_config(),
    {
        Config { limit: 0x40F0_0000_0000_0000, ..Config::new(Algo::Mandelbrot) }
    }
}

} // verus!
