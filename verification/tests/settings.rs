use mandel::settings::{
    JuliaSetBrotSettings, MandelbrotSettings, PointBits, JULIA_ITERATIONS_MAX,
    JULIA_ITERATIONS_MIN, MANDELBROT_ITERATIONS_MAX, MANDELBROT_ITERATIONS_MIN,
};

#[test]
fn mandelbrot_default_has_256_iterations() {
    let s = MandelbrotSettings::default();
    assert_eq!(s.max_iterations, 256);
}

#[test]
fn julia_default_values() {
    let s = JuliaSetBrotSettings::default();
    assert_eq!(s.max_iterations, 50);
    assert_eq!(s.point_c, PointBits { x: 0, y: 0 });
    assert!(s.is_floating);
    assert_eq!(f32::from_bits(s.point_c.x), 0.0);
    assert_eq!(f32::from_bits(s.point_c.y), 0.0);
}

#[test]
fn defaults_lie_within_slider_ranges() {
    let m = MandelbrotSettings::default();
    assert!(MANDELBROT_ITERATIONS_MIN <= m.max_iterations);
    assert!(m.max_iterations <= MANDELBROT_ITERATIONS_MAX);
    let j = JuliaSetBrotSettings::default();
    assert!(JULIA_ITERATIONS_MIN <= j.max_iterations);
    assert!(j.max_iterations <= JULIA_ITERATIONS_MAX);
}

#[test]
fn slider_ranges() {
    assert_eq!((MANDELBROT_ITERATIONS_MIN, MANDELBROT_ITERATIONS_MAX), (1, 2000));
    assert_eq!((JULIA_ITERATIONS_MIN, JULIA_ITERATIONS_MAX), (1, 300));
}

#[test]
fn zero_point_is_positive_zero() {
    let p = PointBits::zero();
    assert_eq!(p.x, 0.0f32.to_bits());
    assert_eq!(p.y, 0.0f32.to_bits());
}
