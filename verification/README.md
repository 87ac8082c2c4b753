# mandel

A Mandelbrot / Julia set viewer (egui + wgpu) whose plain-value core is
verified with Verus.

- `src/settings.rs`: the settings of both views, their defaults, and the
  iteration ranges that the settings sliders offer.
- `src/uniform.rs`: the uniform block handed to the fractal shader; its
  constructors for the initial buffer, the Mandelbrot view and a Julia view, and
  its exact byte image (twelve 4-byte words in field order), produced through
  `bytemuck::cast_slice`.
- `app/`: the egui application, the camera (floating-point screen/world
  transforms), the wgpu pipeline and the WGSL shader. Floats cross into the
  library as `f32` bit patterns.
