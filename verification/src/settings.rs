use vstd::prelude::*;

verus! {

/// Lowest iteration count that the Mandelbrot settings slider offers.
pub const MANDELBROT_ITERATIONS_MIN: u32 = 1;

/// Highest iteration count that the Mandelbrot settings slider offers.
pub const MANDELBROT_ITERATIONS_MAX: u32 = 2000;

/// Lowest iteration count that the Julia settings slider offers.
pub const JULIA_ITERATIONS_MIN: u32 = 1;

/// Highest iteration count that the Julia settings slider offers.
pub const JULIA_ITERATIONS_MAX: u32 = 300;

/// A point of the complex plane, each coordinate held by the bit pattern of
/// an `f32` (`x` is the real part, `y` the imaginary part).
#[derive(Clone, Copy, Debug, PartialEq, Eq, Structural)]
pub struct PointBits {
    pub x: u32,
    pub y: u32,
}

impl PointBits {
    /// The origin `0 + 0i` (both coordinates `+0.0`, whose bit pattern is 0).
    pub fn zero() -> (p: Self)
        ensures
            p.x == 0,
            p.y == 0,
    {
        PointBits { x: 0, y: 0 }
    }
}

/// Settings of the Mandelbrot view.
pub struct MandelbrotSettings {
    /// Iteration limit of the escape-time algorithm.
    pub max_iterations: u32,
}

impl Default for MandelbrotSettings {
    /// 256 iterations, a value that the settings slider offers.
    fn default() -> (s: Self)
        ensures
            s.max_iterations == 256,
            MANDELBROT_ITERATIONS_MIN <= s.max_iterations <= MANDELBROT_ITERATIONS_MAX,
    {
        MandelbrotSettings { max_iterations: 256 }
    }
}

/// Settings of the Julia set view.
pub struct JuliaSetBrotSettings {
    /// Iteration limit of the escape-time algorithm.
    pub max_iterations: u32,
    /// The parameter `c` of the Julia set `z -> z^2 + c`.
    pub point_c: PointBits,
    /// Whether the Julia view is a floating window rather than a side panel.
    pub is_floating: bool,
}

impl Default for JuliaSetBrotSettings {
    /// 50 iterations (a value that the settings slider offers), `c = 0`, and
    /// a floating window.
    fn default() -> (s: Self)
        ensures
            s.max_iterations == 50,
            JULIA_ITERATIONS_MIN <= s.max_iterations <= JULIA_ITERATIONS_MAX,
            s.point_c.x == 0,
            s.point_c.y == 0,
            s.is_floating,
    {
        JuliaSetBrotSettings { max_iterations: 50, point_c: PointBits::zero(), is_floating: true }
    }
}

} // verus!
