use vstd::prelude::*;

use crate::settings::PointBits;

verus! {

/// Number of 32-bit words in the shader's uniform block.
pub const UNIFORM_WORDS: usize = 12;

/// Number of bytes in the shader's uniform block.
pub const UNIFORM_BYTES: usize = 48;

/// The value of the little-endian 32-bit word that starts at byte `4 * i` of `b`.
pub open spec fn le_word(b: Seq<u8>, i: int) -> int {
    b[4 * i] + 256 * b[4 * i + 1] + 65536 * b[4 * i + 2] + 16777216 * b[4 * i + 3]
}

/// The value of the big-endian 32-bit word that starts at byte `4 * i` of `b`.
pub open spec fn be_word(b: Seq<u8>, i: int) -> int {
    16777216 * b[4 * i] + 65536 * b[4 * i + 1] + 256 * b[4 * i + 2] + b[4 * i + 3]
}

/// `b` holds the words `w`, four bytes each, in order, each little-endian.
pub open spec fn encodes_le(b: Seq<u8>, w: Seq<u32>) -> bool {
    &&& b.len() == 4 * w.len()
    &&& forall|i: int| 0 <= i < w.len() ==> le_word(b, i) == #[trigger] w[i]
}

/// `b` holds the words `w`, four bytes each, in order, each big-endian.
pub open spec fn encodes_be(b: Seq<u8>, w: Seq<u32>) -> bool {
    &&& b.len() == 4 * w.len()
    &&& forall|i: int| 0 <= i < w.len() ==> be_word(b, i) == #[trigger] w[i]
}

/// `b` is the in-memory image of the words `w` on a machine of either byte
/// order: all words little-endian, or all words big-endian.
pub open spec fn encodes_native(b: Seq<u8>, w: Seq<u32>) -> bool {
    encodes_le(b, w) || encodes_be(b, w)
}

/// Either byte order is a possible byte order of a target.
pub open spec fn is_byte_order(little: bool) -> bool {
    true
}

/// Whether the target stores multi-byte integers little-endian.
///
/// The byte order is a property of the compilation target, the same for every
/// value and every call in one program; this crate does not determine which
/// of the two it is (the value is an arbitrary but fixed choice).
pub closed spec fn target_is_little_endian() -> bool {
    choose|little: bool| #[trigger] is_byte_order(little)
}

/// The value of the 32-bit word that starts at byte `4 * i` of `b`, read in
/// the target's byte order.
pub open spec fn target_word(b: Seq<u8>, i: int) -> int {
    if target_is_little_endian() {
        le_word(b, i)
    } else {
        be_word(b, i)
    }
}

/// `b` holds the words `w`, four bytes each, in order, each in the target's
/// byte order.
pub open spec fn encodes_target(b: Seq<u8>, w: Seq<u32>) -> bool {
    &&& b.len() == 4 * w.len()
    &&& forall|i: int| 0 <= i < w.len() ==> target_word(b, i) == #[trigger] w[i]
}

/// Reinterprets a slice of words as the bytes of the same memory, through
/// `bytemuck::cast_slice::<u32, u8>`.
///
/// The contract claims what bytemuck's source shows for these two types: the
/// cast never fails (a byte has no alignment requirement and every word is a
/// whole number of bytes), and the result is the same memory, four bytes per
/// word, in the machine's byte order. Which byte order that is depends on the
/// machine: it is one of the two, the same for all words and for every call
/// (the target's byte order, `target_is_little_endian`).
#[verifier::external_body]
fn cast_words_to_bytes(words: &[u32]) -> (bytes: &[u8])
    ensures
        encodes_native(bytes@, words@),
        encodes_target(bytes@, words@),
{
    bytemuck::cast_slice::<u32, u8>(words)
}

/// The uniform block that the fractal shader reads, field for field.
///
/// Every `f32` field of the shader's block is held by its bit pattern. The
/// fields are 4-byte words laid out in declaration order without padding, so
/// the block is 12 words (48 bytes) long.
#[derive(Clone, Copy, Debug)]
pub struct PainterUniform {
    /// The Julia parameter `c` (real, imaginary); ignored for the Mandelbrot set.
    pub c: [u32; 2],
    /// Size of the painted rectangle in points (width, height).
    pub size: [u32; 2],
    /// World coordinates of the centre of the view.
    pub translation: [u32; 2],
    /// Zoom: screen points per world unit.
    pub scale: u32,
    /// Iteration limit of the escape-time algorithm (an integer, not a float).
    pub max_iters: u32,
    /// Padding words, always `0.0`.
    pub _pad: [u32; 3],
    /// 1 to draw the Julia set for `c`, 0 to draw the Mandelbrot set.
    pub is_julia: u32,
}

impl PainterUniform {
    /// The twelve words of the block, in layout order.
    pub open spec fn spec_words(self) -> Seq<u32> {
        seq![
            self.c@[0], self.c@[1],
            self.size@[0], self.size@[1],
            self.translation@[0], self.translation@[1],
            self.scale,
            self.max_iters,
            self._pad@[0], self._pad@[1], self._pad@[2],
            self.is_julia,
        ]
    }

    /// The block that a fresh painter's uniform buffer starts with: all
    /// floats `0.0` but the scale `2.0` (bit pattern `0x4000_0000`), 100
    /// iterations, and the Mandelbrot set.
    pub fn initial() -> (u: Self)
        ensures
            u.c@ == seq![0u32, 0u32],
            u.size@ == seq![0u32, 0u32],
            u.translation@ == seq![0u32, 0u32],
            u.scale == 0x4000_0000,
            u.max_iters == 100,
            u._pad@ == seq![0u32, 0u32, 0u32],
            u.is_julia == 0,
    {
        PainterUniform {
            c: [0, 0],
            size: [0, 0],
            translation: [0, 0],
            scale: 0x4000_0000,
            max_iters: 100,
            _pad: [0, 0, 0],
            is_julia: 0,
        }
    }

    /// The block that draws the Mandelbrot set for a view: `c` is `0.0`
    /// (the shader ignores it) and the padding is `0.0`.
    pub fn mandelbrot(scale: u32, translation: PointBits, size: [u32; 2], max_iters: u32) -> (u: Self)
        ensures
            u.c@ == seq![0u32, 0u32],
            u.size@ == size@,
            u.translation@ == seq![translation.x, translation.y],
            u.scale == scale,
            u.max_iters == max_iters,
            u._pad@ == seq![0u32, 0u32, 0u32],
            u.is_julia == 0,
    {
        PainterUniform {
            c: [0, 0],
            size,
            translation: [translation.x, translation.y],
            scale,
            max_iters,
            _pad: [0, 0, 0],
            is_julia: 0,
        }
    }

    /// The block that draws the Julia set for the parameter `c` in a view;
    /// the padding is `0.0`.
    pub fn julia(c: PointBits, scale: u32, translation: PointBits, size: [u32; 2], max_iters: u32) -> (u: Self)
        ensures
            u.c@ == seq![c.x, c.y],
            u.size@ == size@,
            u.translation@ == seq![translation.x, translation.y],
            u.scale == scale,
            u.max_iters == max_iters,
            u._pad@ == seq![0u32, 0u32, 0u32],
            u.is_julia == 1,
    {
        PainterUniform {
            c: [c.x, c.y],
            size,
            translation: [translation.x, translation.y],
            scale,
            max_iters,
            _pad: [0, 0, 0],
            is_julia: 1,
        }
    }

    /// The twelve words of the block, in layout order.
    pub fn words(&self) -> (w: Vec<u32>)
        ensures
            w@ == self.spec_words(),
            w@.len() == UNIFORM_WORDS,
            w@[0] == self.c@[0],
            w@[1] == self.c@[1],
            w@[2] == self.size@[0],
            w@[3] == self.size@[1],
            w@[4] == self.translation@[0],
            w@[5] == self.translation@[1],
            w@[6] == self.scale,
            w@[7] == self.max_iters,
            w@[8] == self._pad@[0],
            w@[9] == self._pad@[1],
            w@[10] == self._pad@[2],
            w@[11] == self.is_julia,
    {
        let mut w: Vec<u32> = Vec::new();
        w.push(self.c[0]);
        w.push(self.c[1]);
        w.push(self.size[0]);
        w.push(self.size[1]);
        w.push(self.translation[0]);
        w.push(self.translation[1]);
        w.push(self.scale);
        w.push(self.max_iters);
        w.push(self._pad[0]);
        w.push(self._pad[1]);
        w.push(self._pad[2]);
        w.push(self.is_julia);
        assert(w@ =~= self.spec_words());
        w
    }

    /// The bytes of the block as the shader's uniform buffer holds them: the
    /// twelve words in layout order, four bytes each, in the machine's byte
    /// order.
    pub fn to_bytes(&self) -> (b: Vec<u8>)
        ensures
            b@.len() == UNIFORM_BYTES,
            encodes_native(b@, self.spec_words()),
            encodes_target(b@, self.spec_words()),
    {
        let w = self.words();
        let bytes = cast_words_to_bytes(w.as_slice());
        vstd::slice::slice_to_vec(bytes)
    }
}

/// The uniform block's layout: twelve words, in this order whatever the
/// block (Mandelbrot or Julia): `c` (2 words), `size` (2), `translation` (2),
/// `scale`, `max_iters`, the padding (3) and `is_julia`.
pub proof fn lemma_word_layout(u: PainterUniform)
    ensures
        u.spec_words().len() == 12,
        u.spec_words()[0] == u.c@[0],
        u.spec_words()[1] == u.c@[1],
        u.spec_words()[2] == u.size@[0],
        u.spec_words()[3] == u.size@[1],
        u.spec_words()[4] == u.translation@[0],
        u.spec_words()[5] == u.translation@[1],
        u.spec_words()[6] == u.scale,
        u.spec_words()[7] == u.max_iters,
        u.spec_words()[8] == u._pad@[0],
        u.spec_words()[9] == u._pad@[1],
        u.spec_words()[10] == u._pad@[2],
        u.spec_words()[11] == u.is_julia,
{
}

/// The byte image of a block is 48 bytes holding its fields in layout order,
/// each word in the target's byte order: bytes 0..8 are `c`, 8..16 `size`,
/// 16..24 `translation`, 24..28 `scale`, 28..32 `max_iters`, 32..44 the
/// padding and 44..48 `is_julia`.
pub proof fn lemma_byte_layout(u: PainterUniform, b: Vec<u8>)
    requires
        call_ensures(PainterUniform::to_bytes, (&u,), b),
    ensures
        b@.len() == 48,
        target_word(b@, 0) == u.c@[0],
        target_word(b@, 1) == u.c@[1],
        target_word(b@, 2) == u.size@[0],
        target_word(b@, 3) == u.size@[1],
        target_word(b@, 4) == u.translation@[0],
        target_word(b@, 5) == u.translation@[1],
        target_word(b@, 6) == u.scale,
        target_word(b@, 7) == u.max_iters,
        target_word(b@, 8) == u._pad@[0],
        target_word(b@, 9) == u._pad@[1],
        target_word(b@, 10) == u._pad@[2],
        target_word(b@, 11) == u.is_julia,
{
    lemma_word_layout(u);
    let w = u.spec_words();
    assert(target_word(b@, 0) == w[0]);
    assert(target_word(b@, 1) == w[1]);
    assert(target_word(b@, 2) == w[2]);
    assert(target_word(b@, 3) == w[3]);
    assert(target_word(b@, 4) == w[4]);
    assert(target_word(b@, 5) == w[5]);
    assert(target_word(b@, 6) == w[6]);
    assert(target_word(b@, 7) == w[7]);
    assert(target_word(b@, 8) == w[8]);
    assert(target_word(b@, 9) == w[9]);
    assert(target_word(b@, 10) == w[10]);
    assert(target_word(b@, 11) == w[11]);
}

/// Any two blocks are encoded in the same byte order: both images are
/// little-endian, or both are big-endian.
pub proof fn lemma_same_byte_order(u: PainterUniform, v: PainterUniform, bu: Vec<u8>, bv: Vec<u8>)
    requires
        call_ensures(PainterUniform::to_bytes, (&u,), bu),
        call_ensures(PainterUniform::to_bytes, (&v,), bv),
    ensures
        (encodes_le(bu@, u.spec_words()) && encodes_le(bv@, v.spec_words()))
            || (encodes_be(bu@, u.spec_words()) && encodes_be(bv@, v.spec_words())),
{
    let wu = u.spec_words();
    let wv = v.spec_words();
    if target_is_little_endian() {
        assert forall|i: int| 0 <= i < wu.len() implies le_word(bu@, i) == #[trigger] wu[i] by {
            assert(target_word(bu@, i) == wu[i]);
        }
        assert forall|i: int| 0 <= i < wv.len() implies le_word(bv@, i) == #[trigger] wv[i] by {
            assert(target_word(bv@, i) == wv[i]);
        }
    } else {
        assert forall|i: int| 0 <= i < wu.len() implies be_word(bu@, i) == #[trigger] wu[i] by {
            assert(target_word(bu@, i) == wu[i]);
        }
        assert forall|i: int| 0 <= i < wv.len() implies be_word(bv@, i) == #[trigger] wv[i] by {
            assert(target_word(bv@, i) == wv[i]);
        }
    }
}

} // verus!
