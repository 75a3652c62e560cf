//! Rendered targets as they come back from a device.

use crate::render_error::RenderError;
use crate::single::Single;
use vstd::prelude::*;

verus! {

/// Order of the bytes of a number in memory.
#[derive(Clone, Copy, Debug, PartialEq, Eq, Structural)]
pub enum ByteOrder {
    /// The lowest byte comes first.
    LowestFirst,
    /// The highest byte comes first.
    HighestFirst,
}

/// A two-byte number.
pub open spec fn spec_short_word(order: ByteOrder, a: u8, b: u8) -> u16 {
    match order {
        ByteOrder::LowestFirst => (a as u16 + b as u16 * 256) as u16,
        ByteOrder::HighestFirst => (b as u16 + a as u16 * 256) as u16,
    }
}

/// A two-byte number.
#[verifier::when_used_as_spec(spec_short_word)]
pub fn short_word(order: ByteOrder, a: u8, b: u8) -> (r: u16)
    ensures
        r == spec_short_word(order, a, b),
{
    match order {
        ByteOrder::LowestFirst => (a as u16 + b as u16 * 256) as u16,
        ByteOrder::HighestFirst => (b as u16 + a as u16 * 256) as u16,
    }
}

/// A four-byte number.
pub open spec fn spec_long_word(order: ByteOrder, a: u8, b: u8, c: u8, d: u8) -> u32 {
    match order {
        ByteOrder::LowestFirst => {
            (a as u32 + b as u32 * 256 + c as u32 * 65536 + d as u32 * 16777216) as u32
        },
        ByteOrder::HighestFirst => {
            (d as u32 + c as u32 * 256 + b as u32 * 65536 + a as u32 * 16777216) as u32
        },
    }
}

/// A four-byte number.
#[verifier::when_used_as_spec(spec_long_word)]
pub fn long_word(order: ByteOrder, a: u8, b: u8, c: u8, d: u8) -> (r: u32)
    ensures
        r == spec_long_word(order, a, b, c, d),
{
    match order {
        ByteOrder::LowestFirst => {
            (a as u32 + b as u32 * 256 + c as u32 * 65536 + d as u32 * 16777216) as u32
        },
        ByteOrder::HighestFirst => {
            (d as u32 + c as u32 * 256 + b as u32 * 65536 + a as u32 * 16777216) as u32
        },
    }
}

/// A half-precision number in single precision, which holds every one exactly.
pub open spec fn spec_half_to_single(bits: u16) -> Single {
    let exponent = (bits as u32 / 1024) % 32;
    let mantissa = bits as u32 % 1024;
    let size = if exponent == 31 && mantissa == 0 {
        Single { bits: 0x7f80_0000 }
    } else if exponent == 31 {
        Single { bits: (0x7fc0_0000 + (mantissa % 512) * 8192) as u32 }
    } else if exponent == 0 {
        Single::from_u32(mantissa).times(Single { bits: 0x3380_0000 })
    } else {
        Single::from_u32((1024 + mantissa) as u32).times(
            Single { bits: ((exponent + 102) * 0x80_0000) as u32 },
        )
    };
    if bits >= 0x8000 {
        size.negated()
    } else {
        size
    }
}

/// A half-precision number in single precision, which holds every one exactly.
#[verifier::when_used_as_spec(spec_half_to_single)]
pub fn half_to_single(bits: u16) -> (r: Single)
    ensures
        r == spec_half_to_single(bits),
{
    let exponent = (bits as u32 / 1024) % 32;
    let mantissa = bits as u32 % 1024;
    let size = if exponent == 31 && mantissa == 0 {
        Single { bits: 0x7f80_0000 }
    } else if exponent == 31 {
        Single { bits: (0x7fc0_0000 + (mantissa % 512) * 8192) as u32 }
    } else if exponent == 0 {
        Single::from_u32(mantissa).times(Single { bits: 0x3380_0000 })
    } else {
        Single::from_u32((1024 + mantissa) as u32).times(
            Single { bits: ((exponent + 102) * 0x80_0000) as u32 },
        )
    };
    if bits >= 0x8000 {
        size.negated()
    } else {
        size
    }
}

/// The `i`th four-byte number of a store.
pub open spec fn word_of(bytes: Seq<u8>, order: ByteOrder, i: int) -> u32 {
    long_word(order, bytes[4 * i], bytes[4 * i + 1], bytes[4 * i + 2], bytes[4 * i + 3])
}

/// The `i`th pair of half-precision numbers of a store.
pub open spec fn pair_of(bytes: Seq<u8>, order: ByteOrder, i: int) -> [Single; 2] {
    [
        half_to_single(short_word(order, bytes[4 * i], bytes[4 * i + 1])),
        half_to_single(short_word(order, bytes[4 * i + 2], bytes[4 * i + 3])),
    ]
}

/// Reads four-byte numbers; bytes that fill no number are left.
pub fn decode_u32(bytes: &[u8], order: ByteOrder) -> (r: Vec<u32>)
    ensures
        r@ == Seq::new(bytes@.len() / 4, |i: int| word_of(bytes@, order, i)),
{
    let count: usize = bytes.len() / 4;
    let mut r: Vec<u32> = Vec::new();
    let mut i: usize = 0;
    while i < count
        invariant
            count == bytes@.len() / 4,
            count * 4 <= bytes@.len() <= usize::MAX,
            i <= count,
            r@.len() == i,
            forall|j: int| 0 <= j < i ==> #[trigger] r@[j] == word_of(bytes@, order, j),
        decreases count - i,
    {
        r.push(
            long_word(order, bytes[4 * i], bytes[4 * i + 1], bytes[4 * i + 2], bytes[4 * i + 3]),
        );
        i = i + 1;
    }
    r
}

/// Reads single-precision numbers; bytes that fill no number are left.
pub fn decode_single(bytes: &[u8], order: ByteOrder) -> (r: Vec<Single>)
    ensures
        r@ == Seq::new(
            bytes@.len() / 4,
            |i: int| Single { bits: word_of(bytes@, order, i) },
        ),
{
    let count: usize = bytes.len() / 4;
    let mut r: Vec<Single> = Vec::new();
    let mut i: usize = 0;
    while i < count
        invariant
            count == bytes@.len() / 4,
            count * 4 <= bytes@.len() <= usize::MAX,
            i <= count,
            r@.len() == i,
            forall|j: int|
                0 <= j < i ==> #[trigger] r@[j] == (Single { bits: word_of(bytes@, order, j) }),
        decreases count - i,
    {
        r.push(
            Single::from_bits(
                long_word(
                    order,
                    bytes[4 * i],
                    bytes[4 * i + 1],
                    bytes[4 * i + 2],
                    bytes[4 * i + 3],
                ),
            ),
        );
        i = i + 1;
    }
    r
}

/// Reads pairs of half-precision numbers; bytes that fill no pair are left.
pub fn decode_vec2_half(bytes: &[u8], order: ByteOrder) -> (r: Vec<[Single; 2]>)
    ensures
        r@ == Seq::new(bytes@.len() / 4, |i: int| pair_of(bytes@, order, i)),
{
    let count: usize = bytes.len() / 4;
    let mut r: Vec<[Single; 2]> = Vec::new();
    let mut i: usize = 0;
    while i < count
        invariant
            count == bytes@.len() / 4,
            count * 4 <= bytes@.len() <= usize::MAX,
            i <= count,
            r@.len() == i,
            forall|j: int| 0 <= j < i ==> #[trigger] r@[j] == pair_of(bytes@, order, j),
        decreases count - i,
    {
        r.push(
            [
                half_to_single(short_word(order, bytes[4 * i], bytes[4 * i + 1])),
                half_to_single(short_word(order, bytes[4 * i + 2], bytes[4 * i + 3])),
            ],
        );
        i = i + 1;
    }
    r
}

/// Rows of a target in a staging buffer, each padded to the alignment of a device.
#[derive(Clone, Copy, Debug, PartialEq, Eq, Structural)]
pub struct ReadbackLayout {
    /// Target width in pixels.
    pub width: u32,
    /// Target height in pixels.
    pub height: u32,
    /// Bytes of one pixel.
    pub bytes_per_pixel: u32,
    /// Bytes of one row with its padding.
    pub padded_bytes_per_row: u32,
}

/// A size rounded up to a multiple of an alignment.
pub open spec fn aligned(size: int, alignment: int) -> int {
    (size + alignment - 1) / alignment * alignment
}

impl ReadbackLayout {
    /// Bytes of one row without its padding.
    pub open spec fn row(&self) -> int {
        self.width * self.bytes_per_pixel
    }

    /// A row fits its padded row, and a padded row holds something.
    pub open spec fn wf(&self) -> bool {
        self.row() <= self.padded_bytes_per_row && self.padded_bytes_per_row > 0
    }

    /// Lays out a target, where a padded row can be counted.
    pub fn new(width: u32, height: u32, bytes_per_pixel: u32, alignment: u32) -> (r: Result<
        ReadbackLayout,
        RenderError,
    >)
        requires
            alignment > 0,
        ensures
            r is Ok <==> width * bytes_per_pixel + alignment - 1 <= u32::MAX,
            r matches Ok(layout) ==> {
                &&& layout.width == width
                &&& layout.height == height
                &&& layout.bytes_per_pixel == bytes_per_pixel
                &&& layout.padded_bytes_per_row == aligned(
                    width * bytes_per_pixel,
                    alignment as int,
                )
                &&& layout.row() <= layout.padded_bytes_per_row < layout.row() + alignment
                &&& layout.padded_bytes_per_row % alignment == 0
                &&& width > 0 && bytes_per_pixel > 0 ==> layout.wf()
            },
            r matches Err(error) ==> error == RenderError::ReadbackLayoutOverflow,
    {
        proof {
            assert(width * bytes_per_pixel <= 0xffff_ffff * 0xffff_ffff) by (nonlinear_arith)
                requires
                    width <= 0xffff_ffff,
                    bytes_per_pixel <= 0xffff_ffff,
            ;
        }
        let unpadded: u64 = width as u64 * bytes_per_pixel as u64;
        if unpadded > 0xffff_ffff || unpadded + (alignment as u64 - 1) > 0xffff_ffff {
            return Err(RenderError::ReadbackLayoutOverflow);
        }
        let rows: u64 = (unpadded + (alignment as u64 - 1)) / alignment as u64;
        proof {
            let a = alignment as int;
            let n = unpadded + a - 1;
            vstd::arithmetic::div_mod::lemma_fundamental_div_mod(n, a);
            vstd::arithmetic::div_mod::lemma_mod_multiples_basic(n / a, a);
            assert((n / a) * a == a * (n / a)) by (nonlinear_arith);
            assert(width > 0 && bytes_per_pixel > 0 ==> width * bytes_per_pixel > 0)
                by (nonlinear_arith);
        }
        let padded_bytes_per_row: u32 = (rows * alignment as u64) as u32;
        Ok(ReadbackLayout { width, height, bytes_per_pixel, padded_bytes_per_row })
    }

    /// Bytes of the staging buffer.
    pub fn buffer_size(&self) -> (r: u64)
        ensures
            r == self.padded_bytes_per_row * self.height,
    {
        proof {
            assert(self.padded_bytes_per_row * self.height <= 0xffff_ffff * 0xffff_ffff)
                by (nonlinear_arith)
                requires
                    self.padded_bytes_per_row <= 0xffff_ffff,
                    self.height <= 0xffff_ffff,
            ;
        }
        self.padded_bytes_per_row as u64 * self.height as u64
    }

    /// Takes the padding out of whole padded rows.
    pub fn remove_padding(&self, padded: &[u8]) -> (r: Vec<u8>)
        requires
            self.wf(),
        ensures
            r@ == unpadded(
                padded@,
                self.row(),
                self.padded_bytes_per_row as int,
                padded@.len() as int / self.padded_bytes_per_row as int,
            ),
    {
        let row: usize = (self.width as u64 * self.bytes_per_pixel as u64) as usize;
        let stride: usize = self.padded_bytes_per_row as usize;
        let rows: usize = padded.len() / stride;
        let mut r: Vec<u8> = Vec::new();
        let mut y: usize = 0;
        proof {
            vstd::arithmetic::div_mod::lemma_fundamental_div_mod(
                padded@.len() as int,
                stride as int,
            );
            assert(stride * rows == rows * stride) by (nonlinear_arith);
        }
        while y < rows
            invariant
                row <= stride,
                stride > 0,
                rows * stride <= padded@.len() <= usize::MAX,
                y <= rows,
                r@ == unpadded(padded@, row as int, stride as int, y as int),
            decreases rows - y,
        {
            let ghost before = r@;
            proof {
                assert((y + 1) * stride <= rows * stride) by (nonlinear_arith)
                    requires
                        y + 1 <= rows,
                        stride > 0,
                ;
                assert((y + 1) * stride == y * stride + stride) by (nonlinear_arith);
                assert(y * stride >= 0) by (nonlinear_arith)
                    requires
                        y >= 0,
                        stride > 0,
                ;
            }
            let start: usize = y * stride;
            let mut x: usize = 0;
            while x < row
                invariant
                    x <= row <= stride,
                    start + stride <= padded@.len() <= usize::MAX,
                    r@ == before + padded@.subrange(start as int, start + x),
                decreases row - x,
            {
                r.push(padded[start + x]);
                proof {
                    assert(r@ =~= before + padded@.subrange(start as int, start + x + 1));
                }
                x = x + 1;
            }
            y = y + 1;
        }
        r
    }
}

/// The first `n` rows of a padded store without their padding.
pub open spec fn unpadded(padded: Seq<u8>, row: int, stride: int, n: int) -> Seq<u8>
    decreases n,
{
    if n <= 0 {
        Seq::empty()
    } else {
        unpadded(padded, row, stride, n - 1) + padded.subrange(
            (n - 1) * stride,
            (n - 1) * stride + row,
        )
    }
}

/// A staging buffer holds the rows of an image at its stride.
pub open spec fn holds_rows(
    padded: Seq<u8>,
    image: Seq<u8>,
    row: int,
    stride: int,
    n: int,
) -> bool {
    forall|y: int|
        #![trigger image.subrange(y * row, y * row + row)]
        0 <= y < n ==> padded.subrange(y * stride, y * stride + row) == image.subrange(
            y * row,
            y * row + row,
        )
}

/// Whatever the padding holds, the image that was copied into a staging buffer comes back.
pub proof fn padding_leaves_no_trace(
    padded: Seq<u8>,
    image: Seq<u8>,
    row: int,
    stride: int,
    n: int,
)
    requires
        n >= 0,
        0 <= row <= stride,
        image.len() == n * row,
        holds_rows(padded, image, row, stride, n),
    ensures
        unpadded(padded, row, stride, n) == image,
{
    lemma_rows_join(padded, image, row, stride, n, n);
    assert(image.subrange(0, n * row) =~= image);
}

proof fn lemma_rows_join(
    padded: Seq<u8>,
    image: Seq<u8>,
    row: int,
    stride: int,
    n: int,
    k: int,
)
    requires
        0 <= k <= n,
        0 <= row <= stride,
        image.len() == n * row,
        holds_rows(padded, image, row, stride, n),
    ensures
        unpadded(padded, row, stride, k) == image.subrange(0, k * row),
    decreases k,
{
    assert(k * row <= n * row && 0 <= k * row) by (nonlinear_arith)
        requires
            0 <= k <= n,
            row >= 0,
    ;
    if k > 0 {
        lemma_rows_join(padded, image, row, stride, n, k - 1);
        assert(k * row == (k - 1) * row + row) by (nonlinear_arith);
        assert(0 <= (k - 1) * row) by (nonlinear_arith)
            requires
                k >= 1,
                row >= 0,
        ;
        let own = image.subrange((k - 1) * row, (k - 1) * row + row);
        assert(padded.subrange((k - 1) * stride, (k - 1) * stride + row) == own);
        assert(image.subrange(0, (k - 1) * row) + own =~= image.subrange(0, k * row));
    } else {
        assert(0 * row == 0);
        assert(image.subrange(0, 0) =~= Seq::empty());
    }
}

/// CPU-owned outputs of one aligned offscreen render.
#[derive(Clone, Debug, PartialEq)]
pub struct RenderedFrame {
    /// Width shared by every output.
    pub width: u32,
    /// Height shared by every output.
    pub height: u32,
    /// Row-major sRGB RGBA8 pixels.
    pub color_rgba8: Vec<u8>,
    /// Row-major semantic face identifiers. Zero denotes background.
    pub semantic_ids: Vec<u32>,
    /// Roof-only semantic IDs before building or scene occlusion, clipped to the frame.
    pub amodal_semantic_ids: Vec<u32>,
    /// Row-major normalized half-precision face coordinates; non-roof pixels are zero.
    pub face_coordinates: Vec<[Single; 2]>,
    /// Row-major normalized device depth, used for ground-truth visibility checks.
    pub depth: Vec<Single>,
}

/// Staging buffers of one render, as they were mapped.
#[derive(Clone, Debug, PartialEq, Eq)]
pub struct FrameBytes {
    /// Colour target.
    pub color: Vec<u8>,
    /// Visible semantic target.
    pub semantic: Vec<u8>,
    /// Semantic target without occlusion.
    pub amodal: Vec<u8>,
    /// Face-coordinate target.
    pub face: Vec<u8>,
    /// Depth target.
    pub depth: Vec<u8>,
}

impl RenderedFrame {
    /// Returns the number of target pixels.
    pub fn pixel_count(&self) -> (r: usize)
        requires
            self.width * self.height <= usize::MAX,
        ensures
            r == self.width * self.height,
    {
        self.width as usize * self.height as usize
    }

    /// Reads the staging buffers of a render, all laid out alike with four bytes a pixel.
    pub fn from_staging(layout: ReadbackLayout, staging: &FrameBytes, order: ByteOrder) -> (r: Self)
        requires
            layout.wf(),
            layout.bytes_per_pixel == 4,
            staging.color@.len() == layout.padded_bytes_per_row * layout.height,
            staging.semantic@.len() == layout.padded_bytes_per_row * layout.height,
            staging.amodal@.len() == layout.padded_bytes_per_row * layout.height,
            staging.face@.len() == layout.padded_bytes_per_row * layout.height,
            staging.depth@.len() == layout.padded_bytes_per_row * layout.height,
        ensures
            r.width == layout.width,
            r.height == layout.height,
            ({
                let row = layout.row();
                let stride = layout.padded_bytes_per_row as int;
                let n = layout.height as int;
                let semantic = unpadded(staging.semantic@, row, stride, n);
                let amodal = unpadded(staging.amodal@, row, stride, n);
                let face = unpadded(staging.face@, row, stride, n);
                let depth = unpadded(staging.depth@, row, stride, n);
                let pixels = (layout.width * layout.height) as nat;
                &&& r.color_rgba8@ == unpadded(staging.color@, row, stride, n)
                &&& r.color_rgba8@.len() == pixels * 4
                &&& r.semantic_ids@ == Seq::new(pixels, |i: int| word_of(semantic, order, i))
                &&& r.amodal_semantic_ids@ == Seq::new(pixels, |i: int| word_of(amodal, order, i))
                &&& r.face_coordinates@ == Seq::new(pixels, |i: int| pair_of(face, order, i))
                &&& r.depth@ == Seq::new(
                    pixels,
                    |i: int| Single { bits: word_of(depth, order, i) },
                )
            }),
    {
        proof {
            let stride = layout.padded_bytes_per_row as int;
            let n = layout.height as int;
            vstd::arithmetic::div_mod::lemma_div_multiples_vanish(n, stride);
            assert(stride * n == n * stride) by (nonlinear_arith);
            lemma_unpadded_length(staging.color@, layout.row(), stride, n);
            lemma_unpadded_length(staging.semantic@, layout.row(), stride, n);
            lemma_unpadded_length(staging.amodal@, layout.row(), stride, n);
            lemma_unpadded_length(staging.face@, layout.row(), stride, n);
            lemma_unpadded_length(staging.depth@, layout.row(), stride, n);
            assert(n * layout.row() == (layout.width * layout.height) * 4) by (nonlinear_arith)
                requires
                    n == layout.height,
                    layout.row() == layout.width * 4,
            ;
        }
        RenderedFrame {
            width: layout.width,
            height: layout.height,
            color_rgba8: layout.remove_padding(staging.color.as_slice()),
            semantic_ids: decode_u32(
                layout.remove_padding(staging.semantic.as_slice()).as_slice(),
                order,
            ),
            amodal_semantic_ids: decode_u32(
                layout.remove_padding(staging.amodal.as_slice()).as_slice(),
                order,
            ),
            face_coordinates: decode_vec2_half(
                layout.remove_padding(staging.face.as_slice()).as_slice(),
                order,
            ),
            depth: decode_single(
                layout.remove_padding(staging.depth.as_slice()).as_slice(),
                order,
            ),
        }
    }
}

proof fn lemma_unpadded_length(padded: Seq<u8>, row: int, stride: int, n: int)
    requires
        n >= 0,
        0 <= row <= stride,
        padded.len() >= n * stride,
    ensures
        unpadded(padded, row, stride, n).len() == n * row,
    decreases n,
{
    if n > 0 {
        assert(n * stride == (n - 1) * stride + stride) by (nonlinear_arith);
        assert(n * row == (n - 1) * row + row) by (nonlinear_arith);
        assert(0 <= (n - 1) * stride) by (nonlinear_arith)
            requires
                n >= 1,
                stride >= 0,
        ;
        lemma_unpadded_length(padded, row, stride, n - 1);
    } else {
        assert(n * row == 0) by (nonlinear_arith)
            requires
                n == 0,
        ;
    }
}

} // verus!
