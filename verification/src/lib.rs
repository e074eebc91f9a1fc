//! Escape-time and iterated-function-system fractal rendering, verified.
//!
//! The crate turns a declarative render configuration into a flat buffer of
//! colors: the Mandelbrot and Julia sets through the per-pixel escape-time
//! evaluator, and the Barnsley fern through a sequential random walk that
//! blends hits into the buffer. Every real-valued quantity is carried as the
//! bit pattern of an IEEE-754 double and computed by software floating-point
//! arithmetic, so each pixel's color is specified exactly as a function of
//! the configuration — the one exception being the fern's entropy-seeded
//! walk, whose contracts state what holds of every outcome.

pub mod color;
pub mod complex;
pub mod config;
pub mod escape;
pub mod fbits;
pub mod fern;
pub mod image;
pub mod queue;
pub mod render;
pub mod viewport;
pub mod wire;

pub use color::RGB;
pub use complex::Imaginary;
pub use config::{Algo, AlgoParseError, Config};
pub use image::Image;
