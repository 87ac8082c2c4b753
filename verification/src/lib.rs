//! Plain-value core of the Mandelbrot / Julia set viewer: the viewer's
//! settings with their defaults, and the uniform block that is handed to the
//! fractal shader, with its exact byte layout.
//!
//! Every floating-point quantity is carried here by its IEEE-754 bit pattern
//! (`f32::to_bits`); nothing in this crate computes with floats.

pub mod settings;
pub mod uniform;
