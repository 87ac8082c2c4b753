use mandel::settings::PointBits;
use mandel::uniform::{PainterUniform, UNIFORM_BYTES, UNIFORM_WORDS};

fn bits(x: f32, y: f32) -> PointBits {
    PointBits { x: x.to_bits(), y: y.to_bits() }
}

fn native_bytes(words: &[u32]) -> Vec<u8> {
    let mut out = Vec::new();
    for w in words {
        out.extend_from_slice(&w.to_ne_bytes());
    }
    out
}

#[test]
fn initial_uniform_values() {
    let u = PainterUniform::initial();
    assert_eq!(f32::from_bits(u.scale), 2.0);
    assert_eq!(u.max_iters, 100);
    assert_eq!(u.is_julia, 0);
    assert_eq!(u.c, [0, 0]);
    assert_eq!(u.size, [0, 0]);
    assert_eq!(u.translation, [0, 0]);
    assert_eq!(u._pad, [0, 0, 0]);
}

#[test]
fn mandelbrot_uniform_ignores_c() {
    let u = PainterUniform::mandelbrot(
        500.0f32.to_bits(),
        bits(-0.5, 0.0),
        [800.0f32.to_bits(), 600.0f32.to_bits()],
        256,
    );
    assert_eq!(u.c, [0, 0]);
    assert_eq!(u.is_julia, 0);
    assert_eq!(f32::from_bits(u.translation[0]), -0.5);
    assert_eq!(f32::from_bits(u.translation[1]), 0.0);
    assert_eq!(f32::from_bits(u.size[0]), 800.0);
    assert_eq!(f32::from_bits(u.size[1]), 600.0);
    assert_eq!(f32::from_bits(u.scale), 500.0);
    assert_eq!(u.max_iters, 256);
    assert_eq!(u._pad, [0, 0, 0]);
}

#[test]
fn julia_uniform_carries_c() {
    let u = PainterUniform::julia(
        bits(-0.8, 0.156),
        125.0f32.to_bits(),
        bits(0.0, 0.0),
        [300.0f32.to_bits(), 200.0f32.to_bits()],
        50,
    );
    assert_eq!(f32::from_bits(u.c[0]), -0.8);
    assert_eq!(f32::from_bits(u.c[1]), 0.156);
    assert_eq!(u.is_julia, 1);
    assert_eq!(u.max_iters, 50);
    assert_eq!(f32::from_bits(u.scale), 125.0);
}

#[test]
fn words_are_in_layout_order() {
    let u = PainterUniform::julia(PointBits { x: 1, y: 2 }, 7, PointBits { x: 5, y: 6 }, [3, 4], 8);
    let w = u.words();
    assert_eq!(w.len(), UNIFORM_WORDS);
    assert_eq!(w, vec![1, 2, 3, 4, 5, 6, 7, 8, 0, 0, 0, 1]);
}

#[test]
fn bytes_are_the_words_in_machine_order() {
    let u = PainterUniform::julia(
        PointBits { x: 0x0102_0304, y: 0x0506_0708 },
        0x4000_0000,
        PointBits { x: 0xdead_beef, y: 0x1234_5678 },
        [0x0a0b_0c0d, 0x1a1b_1c1d],
        0x0000_0100,
    );
    let b = u.to_bytes();
    assert_eq!(b.len(), UNIFORM_BYTES);
    assert_eq!(b, native_bytes(&u.words()));
    assert_ne!(b.len(), u.words().len());
}

#[test]
fn initial_bytes_layout() {
    let b = PainterUniform::initial().to_bytes();
    assert_eq!(b.len(), 48);
    let mut expected = vec![0u8; 48];
    expected[24..28].copy_from_slice(&2.0f32.to_ne_bytes());
    expected[28..32].copy_from_slice(&100u32.to_ne_bytes());
    assert_eq!(b, expected);
}
