//! Smaller copies of decoded images for distant sampling.

use crate::given::{answer_of, answers, ask};
use crate::single::Single;
use vstd::arithmetic::power2::{lemma2_to64, lemma_pow2_unfold, pow2};
use vstd::prelude::*;

verus! {

/// How many times a size can be halved, rounding down, before nothing is left.
pub open spec fn levels(size: int) -> int
    decreases size,
{
    if size <= 0 {
        0
    } else {
        1 + levels(size / 2)
    }
}

/// The larger side of an image.
pub open spec fn spec_longer_side(width: u32, height: u32) -> u32 {
    if width >= height {
        width
    } else {
        height
    }
}

/// The larger side of an image.
#[verifier::when_used_as_spec(spec_longer_side)]
pub fn longer_side(width: u32, height: u32) -> (r: u32)
    ensures
        r == spec_longer_side(width, height),
{
    if width >= height {
        width
    } else {
        height
    }
}

/// Number of copies of an image, from full size down to one pixel.
pub fn mip_level_count(width: u32, height: u32) -> (r: u32)
    ensures
        r == levels(longer_side(width, height) as int),
        r <= 32,
{
    let mut left: u32 = longer_side(width, height);
    let mut r: u32 = 0;
    proof {
        lemma2_to64();
    }
    while left > 0
        invariant
            r + levels(left as int) == levels(longer_side(width, height) as int),
            r <= 32,
            left < pow2((32 - r) as nat),
        decreases left,
    {
        proof {
            lemma2_to64();
            assert(r < 32);
            lemma_pow2_unfold((32 - r) as nat);
        }
        left = left / 2;
        r = r + 1;
    }
    r
}

/// Side of the next smaller copy.
pub open spec fn spec_next_mip(size: u32) -> u32 {
    if size / 2 > 1 {
        size / 2
    } else {
        1
    }
}

/// Side of the next smaller copy.
#[verifier::when_used_as_spec(spec_next_mip)]
pub fn next_mip(size: u32) -> (r: u32)
    ensures
        r == spec_next_mip(size),
{
    if size / 2 > 1 {
        size / 2
    } else {
        1
    }
}

/// Side of the copy that is a number of levels down.
pub open spec fn mip_size(size: u32, level: int) -> u32
    decreases level,
{
    if level <= 0 {
        size
    } else {
        next_mip(mip_size(size, level - 1))
    }
}

proof fn lemma_levels_positive(size: int)
    requires
        size > 0,
    ensures
        levels(size) >= 1,
        levels(size) == 1 <==> size == 1,
    decreases size,
{
    reveal_with_fuel(levels, 2);
    if size > 1 {
        lemma_levels_positive(size / 2);
    }
}

proof fn lemma_levels_left(size: u32, level: int)
    requires
        size > 0,
        level >= 0,
    ensures
        mip_size(size, level) > 0,
        levels(mip_size(size, level) as int) == (if levels(size as int) - level > 1 {
            levels(size as int) - level
        } else {
            1
        }),
    decreases level,
{
    lemma_levels_positive(size as int);
    if level > 0 {
        lemma_levels_left(size, level - 1);
        let before = mip_size(size, level - 1);
        lemma_levels_positive(before as int);
        if before >= 2 {
            lemma_levels_positive(before as int / 2);
        }
        lemma_levels_positive(1);
    }
}

proof fn lemma_levels_monotone(a: int, b: int)
    requires
        0 <= a <= b,
    ensures
        levels(a) <= levels(b),
    decreases b,
{
    if a > 0 {
        lemma_levels_monotone(a / 2, b / 2);
    } else if b > 0 {
        lemma_levels_positive(b);
    }
}

/// The last copy of an image is one pixel, and no copy before it is.
pub proof fn mips_reach_one_pixel(width: u32, height: u32, level: int)
    requires
        width > 0,
        height > 0,
        0 <= level < levels(longer_side(width, height) as int),
    ensures
        mip_size(width, level) == 1 && mip_size(height, level) == 1 <==> level == levels(
            longer_side(width, height) as int,
        ) - 1,
{
    lemma_levels_left(width, level);
    lemma_levels_left(height, level);
    lemma_levels_positive(mip_size(width, level) as int);
    lemma_levels_positive(mip_size(height, level) as int);
    lemma_levels_monotone(width as int, longer_side(width, height) as int);
    lemma_levels_monotone(height as int, longer_side(width, height) as int);
}

/// How four samples become one.
#[derive(Clone, Copy, Debug, PartialEq, Eq, Structural)]
pub enum MipFilter {
    /// Nonlinear colours, averaged in linear light.
    Srgb,
    /// Directions, kept at unit length.
    Normal,
    /// Numbers.
    Linear,
}

/// Coordinate of a sample of a smaller copy, kept inside the source.
pub open spec fn sampled_at(at: int, step: int, size: int) -> int {
    if 2 * at + step < size - 1 {
        2 * at + step
    } else {
        size - 1
    }
}

/// Place in the source of the `k`th sample of a pixel of a smaller copy.
pub open spec fn sample_place(width: int, height: int, x: int, y: int, k: int) -> int {
    sampled_at(y, k / 2, height) * width + sampled_at(x, k % 2, width)
}

/// A pixel of an RGBA store.
pub open spec fn pixel_of(pixels: Seq<u8>, place: int) -> [u8; 4] {
    [pixels[4 * place], pixels[4 * place + 1], pixels[4 * place + 2], pixels[4 * place + 3]]
}

/// The four samples of a pixel of a smaller copy.
pub open spec fn samples_of(
    pixels: Seq<u8>,
    width: int,
    height: int,
    x: int,
    y: int,
) -> [[u8; 4]; 4] {
    [
        pixel_of(pixels, sample_place(width, height, x, y, 0)),
        pixel_of(pixels, sample_place(width, height, x, y, 1)),
        pixel_of(pixels, sample_place(width, height, x, y, 2)),
        pixel_of(pixels, sample_place(width, height, x, y, 3)),
    ]
}

pub(crate) proof fn lemma_sample_place(width: int, height: int, x: int, y: int, k: int)
    requires
        width > 0,
        height > 0,
        x >= 0,
        y >= 0,
        0 <= k < 4,
    ensures
        0 <= sample_place(width, height, x, y, k) < width * height,
        0 <= sampled_at(x, k % 2, width) < width,
        0 <= sampled_at(y, k / 2, height) < height,
        0 <= sampled_at(y, k / 2, height) * width <= width * height,
{
    let row = sampled_at(y, k / 2, height);
    let column = sampled_at(x, k % 2, width);
    assert(0 <= row * width && row * width + width <= width * height) by (nonlinear_arith)
        requires
            0 <= row < height,
            width > 0,
    ;
}

fn locate(at: u32, step: u32, size: u32) -> (r: usize)
    requires
        size > 0,
        step <= 1,
    ensures
        r == sampled_at(at as int, step as int, size as int),
{
    let wanted: u64 = 2 * at as u64 + step as u64;
    if wanted < size as u64 - 1 {
        wanted as usize
    } else {
        (size - 1) as usize
    }
}

fn place(width: u32, height: u32, x: u32, y: u32, k: u32) -> (r: usize)
    requires
        width > 0,
        height > 0,
        k < 4,
        width * height <= usize::MAX,
    ensures
        r == sample_place(width as int, height as int, x as int, y as int, k as int),
        r < width * height,
{
    proof {
        lemma_sample_place(width as int, height as int, x as int, y as int, k as int);
    }
    let row: usize = locate(y, k / 2, height);
    let column: usize = locate(x, k % 2, width);
    row * width as usize + column
}

fn read_pixel(pixels: &[u8], place: usize) -> (r: [u8; 4])
    requires
        4 * place + 4 <= pixels@.len(),
    ensures
        r == pixel_of(pixels@, place as int),
{
    let stored: usize = pixels.len();
    assert(4 * place + 4 <= stored);
    [pixels[4 * place], pixels[4 * place + 1], pixels[4 * place + 2], pixels[4 * place + 3]]
}

fn gather(pixels: &[u8], width: u32, height: u32, x: u32, y: u32) -> (r: [[u8; 4]; 4])
    requires
        width > 0,
        height > 0,
        pixels@.len() == width * height * 4,
    ensures
        r == samples_of(pixels@, width as int, height as int, x as int, y as int),
{
    let stored: usize = pixels.len();
    assert(width * height * 4 == stored);
    [
        read_pixel(pixels, place(width, height, x, y, 0)),
        read_pixel(pixels, place(width, height, x, y, 1)),
        read_pixel(pixels, place(width, height, x, y, 2)),
        read_pixel(pixels, place(width, height, x, y, 3)),
    ]
}

/// Mean of four bytes, halves rounded up.
pub open spec fn spec_quarter(a: u8, b: u8, c: u8, d: u8) -> u8 {
    ((a as u32 + b as u32 + c as u32 + d as u32 + 2) / 4) as u8
}

/// Mean of four bytes, halves rounded up.
#[verifier::when_used_as_spec(spec_quarter)]
pub fn quarter(a: u8, b: u8, c: u8, d: u8) -> (r: u8)
    ensures
        r == spec_quarter(a, b, c, d),
{
    ((a as u32 + b as u32 + c as u32 + d as u32 + 2) / 4) as u8
}

/// Mean of four samples.
pub open spec fn spec_average_linear(samples: [[u8; 4]; 4]) -> [u8; 4] {
    [
        quarter(samples[0][0], samples[1][0], samples[2][0], samples[3][0]),
        quarter(samples[0][1], samples[1][1], samples[2][1], samples[3][1]),
        quarter(samples[0][2], samples[1][2], samples[2][2], samples[3][2]),
        quarter(samples[0][3], samples[1][3], samples[2][3], samples[3][3]),
    ]
}

/// Mean of four samples.
#[verifier::when_used_as_spec(spec_average_linear)]
pub fn average_linear(samples: [[u8; 4]; 4]) -> (r: [u8; 4])
    ensures
        r == spec_average_linear(samples),
{
    [
        quarter(samples[0][0], samples[1][0], samples[2][0], samples[3][0]),
        quarter(samples[0][1], samples[1][1], samples[2][1], samples[3][1]),
        quarter(samples[0][2], samples[1][2], samples[2][2], samples[3][2]),
        quarter(samples[0][3], samples[1][3], samples[2][3], samples[3][3]),
    ]
}

/// Component of a direction that a byte stands for.
pub open spec fn spec_direction_component(value: u8) -> Single {
    Single::from_u32(value as u32).over(Single::ratio(1275, 10)).minus(Single::one())
}

/// Component of a direction that a byte stands for.
#[verifier::when_used_as_spec(spec_direction_component)]
pub fn direction_component(value: u8) -> (r: Single)
    ensures
        r == spec_direction_component(value),
{
    Single::from_u32(value as u32).over(Single::ratio(1275, 10)).minus(Single::one())
}

/// Sum of the components of four directions.
pub open spec fn spec_direction_sum(a: u8, b: u8, c: u8, d: u8) -> Single {
    Single::zero().plus(direction_component(a)).plus(direction_component(b)).plus(
        direction_component(c),
    ).plus(direction_component(d))
}

/// Sum of the components of four directions.
#[verifier::when_used_as_spec(spec_direction_sum)]
pub fn direction_sum(a: u8, b: u8, c: u8, d: u8) -> (r: Single)
    ensures
        r == spec_direction_sum(a, b, c, d),
{
    Single::zero().plus(direction_component(a)).plus(direction_component(b)).plus(
        direction_component(c),
    ).plus(direction_component(d))
}

/// Byte for a component of a direction of unit length.
pub open spec fn spec_direction_byte(component: Single, length: Single) -> u8 {
    component.over(length).times(Single::ratio(5, 10)).plus(Single::ratio(5, 10)).times(
        Single::ratio(255, 1),
    ).round().to_u8()
}

/// Byte for a component of a direction of unit length.
#[verifier::when_used_as_spec(spec_direction_byte)]
pub fn direction_byte(component: Single, length: Single) -> (r: u8)
    ensures
        r == spec_direction_byte(component, length),
{
    component.over(length).times(Single::ratio(5, 10)).plus(Single::ratio(5, 10)).times(
        Single::ratio(255, 1),
    ).round().to_u8()
}

/// Mean direction of four samples, with their mean alpha.
pub open spec fn spec_average_normal(samples: [[u8; 4]; 4]) -> [u8; 4] {
    let x = direction_sum(samples[0][0], samples[1][0], samples[2][0], samples[3][0]);
    let y = direction_sum(samples[0][1], samples[1][1], samples[2][1], samples[3][1]);
    let z = direction_sum(samples[0][2], samples[1][2], samples[2][2], samples[3][2]);
    let length = x.times(x).plus(y.times(y)).plus(z.times(z)).root().max(Single::ratio(1, 1000000));
    [
        direction_byte(x, length),
        direction_byte(y, length),
        direction_byte(z, length),
        average_linear(samples)[3],
    ]
}

/// Mean direction of four samples, with their mean alpha.
#[verifier::when_used_as_spec(spec_average_normal)]
pub fn average_normal(samples: [[u8; 4]; 4]) -> (r: [u8; 4])
    ensures
        r == spec_average_normal(samples),
{
    let x = direction_sum(samples[0][0], samples[1][0], samples[2][0], samples[3][0]);
    let y = direction_sum(samples[0][1], samples[1][1], samples[2][1], samples[3][1]);
    let z = direction_sum(samples[0][2], samples[1][2], samples[2][2], samples[3][2]);
    let length = x.times(x).plus(y.times(y)).plus(z.times(z)).root().max(Single::ratio(1, 1000000));
    [
        direction_byte(x, length),
        direction_byte(y, length),
        direction_byte(z, length),
        average_linear(samples)[3],
    ]
}

proof fn lemma_row(i: int, width: int, height: int)
    requires
        0 <= i < width * height,
        0 < width <= u32::MAX,
        0 <= height <= u32::MAX,
    ensures
        0 <= i / width < height,
        0 <= i % width < width,
{
    assert(0 <= i / width < height) by (nonlinear_arith)
        requires
            0 <= i < width * height,
            width > 0,
    ;
    assert(0 <= i % width < width) by (nonlinear_arith)
        requires
            width > 0,
    ;
}

/// The four radiance samples of a pixel of a smaller copy, averaged.
pub open spec fn spec_average_radiance(
    a: [Single; 4],
    b: [Single; 4],
    c: [Single; 4],
    d: [Single; 4],
) -> [Single; 4] {
    [
        Single::zero().plus(a[0].times(Single::ratio(25, 100))).plus(
            b[0].times(Single::ratio(25, 100)),
        ).plus(c[0].times(Single::ratio(25, 100))).plus(d[0].times(Single::ratio(25, 100))),
        Single::zero().plus(a[1].times(Single::ratio(25, 100))).plus(
            b[1].times(Single::ratio(25, 100)),
        ).plus(c[1].times(Single::ratio(25, 100))).plus(d[1].times(Single::ratio(25, 100))),
        Single::zero().plus(a[2].times(Single::ratio(25, 100))).plus(
            b[2].times(Single::ratio(25, 100)),
        ).plus(c[2].times(Single::ratio(25, 100))).plus(d[2].times(Single::ratio(25, 100))),
        Single::zero().plus(a[3].times(Single::ratio(25, 100))).plus(
            b[3].times(Single::ratio(25, 100)),
        ).plus(c[3].times(Single::ratio(25, 100))).plus(d[3].times(Single::ratio(25, 100))),
    ]
}

/// The four radiance samples of a pixel of a smaller copy, averaged.
#[verifier::when_used_as_spec(spec_average_radiance)]
pub fn average_radiance(
    a: [Single; 4],
    b: [Single; 4],
    c: [Single; 4],
    d: [Single; 4],
) -> (r: [Single; 4])
    ensures
        r == spec_average_radiance(a, b, c, d),
{
    [
        Single::zero().plus(a[0].times(Single::ratio(25, 100))).plus(
            b[0].times(Single::ratio(25, 100)),
        ).plus(c[0].times(Single::ratio(25, 100))).plus(d[0].times(Single::ratio(25, 100))),
        Single::zero().plus(a[1].times(Single::ratio(25, 100))).plus(
            b[1].times(Single::ratio(25, 100)),
        ).plus(c[1].times(Single::ratio(25, 100))).plus(d[1].times(Single::ratio(25, 100))),
        Single::zero().plus(a[2].times(Single::ratio(25, 100))).plus(
            b[2].times(Single::ratio(25, 100)),
        ).plus(c[2].times(Single::ratio(25, 100))).plus(d[2].times(Single::ratio(25, 100))),
        Single::zero().plus(a[3].times(Single::ratio(25, 100))).plus(
            b[3].times(Single::ratio(25, 100)),
        ).plus(c[3].times(Single::ratio(25, 100))).plus(d[3].times(Single::ratio(25, 100))),
    ]
}

/// The `i`th pixel of a smaller copy of a radiance image.
pub open spec fn hdr_pixel(
    source: Seq<[Single; 4]>,
    source_width: int,
    source_height: int,
    width: int,
    i: int,
) -> [Single; 4] {
    average_radiance(
        source[sample_place(source_width, source_height, i % width, i / width, 0)],
        source[sample_place(source_width, source_height, i % width, i / width, 1)],
        source[sample_place(source_width, source_height, i % width, i / width, 2)],
        source[sample_place(source_width, source_height, i % width, i / width, 3)],
    )
}

/// The pixels of a smaller copy of a radiance image.
pub open spec fn smaller_radiance(
    source: Seq<[Single; 4]>,
    source_width: int,
    source_height: int,
    width: int,
    height: int,
) -> Seq<[Single; 4]> {
    Seq::new(
        (width * height) as nat,
        |i: int| hdr_pixel(source, source_width, source_height, width, i),
    )
}

/// Makes a smaller copy of a radiance image.
pub fn downsample_hdr(
    source: &[[Single; 4]],
    source_width: u32,
    source_height: u32,
    width: u32,
    height: u32,
) -> (r: Vec<[Single; 4]>)
    requires
        source_width > 0,
        source_height > 0,
        source@.len() == source_width * source_height,
        width > 0,
        width * height <= usize::MAX,
    ensures
        r@ == smaller_radiance(
            source@,
            source_width as int,
            source_height as int,
            width as int,
            height as int,
        ),
{
    let mut r: Vec<[Single; 4]> = Vec::new();
    let total: usize = width as usize * height as usize;
    let mut i: usize = 0;
    while i < total
        invariant
            source_width > 0,
            source_height > 0,
            source@.len() == source_width * source_height,
            width > 0,
            total == width * height,
            i <= total,
            r@.len() == i,
            forall|k: int|
                0 <= k < i ==> #[trigger] r@[k] == hdr_pixel(
                    source@,
                    source_width as int,
                    source_height as int,
                    width as int,
                    k,
                ),
        decreases total - i,
    {
        proof {
            lemma_row(i as int, width as int, height as int);
        }
        let x: u32 = (i % width as usize) as u32;
        let y: u32 = (i / width as usize) as u32;
        let stored: usize = source.len();
        assert(source_width * source_height == stored);
        let pixel = average_radiance(
            source[place(source_width, source_height, x, y, 0)],
            source[place(source_width, source_height, x, y, 1)],
            source[place(source_width, source_height, x, y, 2)],
            source[place(source_width, source_height, x, y, 3)],
        );
        r.push(pixel);
        i = i + 1;
    }
    r
}

/// Base of the power that takes a nonlinear channel to linear light.
pub open spec fn spec_linear_base(channel: Single) -> Single {
    channel.plus(Single::ratio(55, 1000)).over(Single::ratio(1055, 1000))
}

/// Base of the power that takes a nonlinear channel to linear light.
#[verifier::when_used_as_spec(spec_linear_base)]
pub fn linear_base(channel: Single) -> (r: Single)
    ensures
        r == spec_linear_base(channel),
{
    channel.plus(Single::ratio(55, 1000)).over(Single::ratio(1055, 1000))
}

/// Linear light of a nonlinear channel. `raised` is [`linear_base`] of the channel to
/// the power 2.4; dark channels do not need it.
pub open spec fn spec_srgb_to_linear(channel: Single, raised: Single) -> Single {
    if channel.at_most(Single::ratio(4045, 100000)) {
        channel.over(Single::ratio(1292, 100))
    } else {
        raised
    }
}

/// Linear light of a nonlinear channel. `raised` is [`linear_base`] of the channel to
/// the power 2.4; dark channels do not need it.
#[verifier::when_used_as_spec(spec_srgb_to_linear)]
pub fn srgb_to_linear(channel: Single, raised: Single) -> (r: Single)
    ensures
        r == spec_srgb_to_linear(channel, raised),
{
    if channel.at_most(Single::ratio(4045, 100000)) {
        channel.over(Single::ratio(1292, 100))
    } else {
        raised
    }
}

/// A byte as a fraction of the largest.
pub open spec fn spec_byte_fraction(value: u8) -> Single {
    Single::from_u32(value as u32).over(Single::ratio(255, 1))
}

/// A byte as a fraction of the largest.
#[verifier::when_used_as_spec(spec_byte_fraction)]
pub fn byte_fraction(value: u8) -> (r: Single)
    ensures
        r == spec_byte_fraction(value),
{
    Single::from_u32(value as u32).over(Single::ratio(255, 1))
}

/// Linear light of a nonlinear byte. `raised` is [`linear_base`] of its fraction to
/// the power 2.4.
pub open spec fn spec_srgb_u8_to_linear(value: u8, raised: Single) -> Single {
    srgb_to_linear(byte_fraction(value), raised)
}

/// Linear light of a nonlinear byte. `raised` is [`linear_base`] of its fraction to
/// the power 2.4.
#[verifier::when_used_as_spec(spec_srgb_u8_to_linear)]
pub fn srgb_u8_to_linear(value: u8, raised: Single) -> (r: Single)
    ensures
        r == spec_srgb_u8_to_linear(value, raised),
{
    srgb_to_linear(byte_fraction(value), raised)
}

/// Nonlinear byte of linear light. `root` is the light to the power 1 / 2.4; dark light
/// does not need it.
pub open spec fn spec_linear_to_srgb_u8(value: Single, root: Single) -> u8 {
    let encoded = if value.at_most(Single::ratio(31308, 10000000)) {
        value.times(Single::ratio(1292, 100))
    } else {
        Single::ratio(1055, 1000).times(root).minus(Single::ratio(55, 1000))
    };
    encoded.clamp(Single::zero(), Single::one()).times(Single::ratio(255, 1)).round().to_u8()
}

/// Nonlinear byte of linear light. `root` is the light to the power 1 / 2.4; dark light
/// does not need it.
#[verifier::when_used_as_spec(spec_linear_to_srgb_u8)]
pub fn linear_to_srgb_u8(value: Single, root: Single) -> (r: u8)
    ensures
        r == spec_linear_to_srgb_u8(value, root),
{
    let encoded = if value.at_most(Single::ratio(31308, 10000000)) {
        value.times(Single::ratio(1292, 100))
    } else {
        Single::ratio(1055, 1000).times(root).minus(Single::ratio(55, 1000))
    };
    encoded.clamp(Single::zero(), Single::one()).times(Single::ratio(255, 1)).round().to_u8()
}

/// Mean light of four nonlinear bytes, given the power 2.4.
pub open spec fn mean_light(
    a: u8,
    b: u8,
    c: u8,
    d: u8,
    power: spec_fn(Single) -> Single,
) -> Single {
    Single::zero().plus(srgb_u8_to_linear(a, power(linear_base(byte_fraction(a))))).plus(
        srgb_u8_to_linear(b, power(linear_base(byte_fraction(b)))),
    ).plus(srgb_u8_to_linear(c, power(linear_base(byte_fraction(c))))).plus(
        srgb_u8_to_linear(d, power(linear_base(byte_fraction(d)))),
    ).times(Single::ratio(25, 100))
}

fn find_mean_light<P: Fn(Single) -> Single>(a: u8, b: u8, c: u8, d: u8, power: &P) -> (r: Single)
    requires
        answers(*power),
    ensures
        r == mean_light(a, b, c, d, answer_of(*power)),
{
    Single::zero().plus(srgb_u8_to_linear(a, ask(power, linear_base(byte_fraction(a))))).plus(
        srgb_u8_to_linear(b, ask(power, linear_base(byte_fraction(b)))),
    ).plus(srgb_u8_to_linear(c, ask(power, linear_base(byte_fraction(c))))).plus(
        srgb_u8_to_linear(d, ask(power, linear_base(byte_fraction(d)))),
    ).times(Single::ratio(25, 100))
}

/// Nonlinear byte of the mean light of four nonlinear bytes, given the power 2.4 and the
/// power 1 / 2.4.
pub open spec fn mean_byte(
    a: u8,
    b: u8,
    c: u8,
    d: u8,
    power: spec_fn(Single) -> Single,
    root: spec_fn(Single) -> Single,
) -> u8 {
    let light = mean_light(a, b, c, d, power);
    linear_to_srgb_u8(light, root(light))
}

fn find_mean_byte<P: Fn(Single) -> Single, Q: Fn(Single) -> Single>(
    a: u8,
    b: u8,
    c: u8,
    d: u8,
    power: &P,
    root: &Q,
) -> (r: u8)
    requires
        answers(*power),
        answers(*root),
    ensures
        r == mean_byte(a, b, c, d, answer_of(*power), answer_of(*root)),
{
    let light = find_mean_light(a, b, c, d, power);
    linear_to_srgb_u8(light, ask(root, light))
}

/// One pixel for four nonlinear samples, averaged in linear light.
pub open spec fn srgb_average(
    samples: [[u8; 4]; 4],
    power: spec_fn(Single) -> Single,
    root: spec_fn(Single) -> Single,
) -> [u8; 4] {
    let (a, b, c, d) = (samples[0], samples[1], samples[2], samples[3]);
    [
        mean_byte(a[0], b[0], c[0], d[0], power, root),
        mean_byte(a[1], b[1], c[1], d[1], power, root),
        mean_byte(a[2], b[2], c[2], d[2], power, root),
        quarter(a[3], b[3], c[3], d[3]),
    ]
}

/// Averages four nonlinear samples in linear light, given functions for the power 2.4 and
/// the power 1 / 2.4.
pub fn average_srgb<P: Fn(Single) -> Single, Q: Fn(Single) -> Single>(
    samples: [[u8; 4]; 4],
    power: &P,
    root: &Q,
) -> (r: [u8; 4])
    requires
        answers(*power),
        answers(*root),
    ensures
        r == srgb_average(samples, answer_of(*power), answer_of(*root)),
{
    let (a, b, c, d) = (samples[0], samples[1], samples[2], samples[3]);
    [
        find_mean_byte(a[0], b[0], c[0], d[0], power, root),
        find_mean_byte(a[1], b[1], c[1], d[1], power, root),
        find_mean_byte(a[2], b[2], c[2], d[2], power, root),
        quarter(a[3], b[3], c[3], d[3]),
    ]
}

/// One pixel for four samples.
pub open spec fn filtered(
    filter: MipFilter,
    samples: [[u8; 4]; 4],
    power: spec_fn(Single) -> Single,
    root: spec_fn(Single) -> Single,
) -> [u8; 4] {
    match filter {
        MipFilter::Srgb => srgb_average(samples, power, root),
        MipFilter::Normal => average_normal(samples),
        MipFilter::Linear => average_linear(samples),
    }
}

fn filter_samples<P: Fn(Single) -> Single, Q: Fn(Single) -> Single>(
    filter: MipFilter,
    samples: [[u8; 4]; 4],
    power: &P,
    root: &Q,
) -> (r: [u8; 4])
    requires
        answers(*power),
        answers(*root),
    ensures
        r == filtered(filter, samples, answer_of(*power), answer_of(*root)),
{
    match filter {
        MipFilter::Srgb => average_srgb(samples, power, root),
        MipFilter::Normal => average_normal(samples),
        MipFilter::Linear => average_linear(samples),
    }
}

/// The `i`th pixel of a smaller copy.
pub open spec fn mip_pixel(
    source: Seq<u8>,
    source_width: int,
    source_height: int,
    width: int,
    filter: MipFilter,
    power: spec_fn(Single) -> Single,
    root: spec_fn(Single) -> Single,
    i: int,
) -> [u8; 4] {
    filtered(
        filter,
        samples_of(source, source_width, source_height, i % width, i / width),
        power,
        root,
    )
}

/// The bytes of a smaller copy of an RGBA image.
pub open spec fn smaller_copy(
    source: Seq<u8>,
    source_width: int,
    source_height: int,
    width: int,
    height: int,
    filter: MipFilter,
    power: spec_fn(Single) -> Single,
    root: spec_fn(Single) -> Single,
) -> Seq<u8> {
    Seq::new(
        (width * height * 4) as nat,
        |k: int|
            mip_pixel(
                source,
                source_width,
                source_height,
                width,
                filter,
                power,
                root,
                k / 4,
            )@[k % 4],
    )
}

/// Makes a smaller copy of an RGBA image, given functions for the power 2.4 and the power
/// 1 / 2.4.
pub fn downsample_rgba8<P: Fn(Single) -> Single, Q: Fn(Single) -> Single>(
    source: &[u8],
    source_width: u32,
    source_height: u32,
    width: u32,
    height: u32,
    filter: MipFilter,
    power: &P,
    root: &Q,
) -> (r: Vec<u8>)
    requires
        answers(*power),
        answers(*root),
        source_width > 0,
        source_height > 0,
        source@.len() == source_width * source_height * 4,
        width > 0,
        width * height * 4 <= usize::MAX,
    ensures
        r@ == smaller_copy(
            source@,
            source_width as int,
            source_height as int,
            width as int,
            height as int,
            filter,
            answer_of(*power),
            answer_of(*root),
        ),
{
    let mut r: Vec<u8> = Vec::new();
    let total: usize = width as usize * height as usize;
    let mut i: usize = 0;
    while i < total
        invariant
            answers(*power),
            answers(*root),
            source_width > 0,
            source_height > 0,
            source@.len() == source_width * source_height * 4,
            width > 0,
            total == width * height,
            i <= total,
            r@.len() == 4 * i,
            forall|k: int|
                0 <= k < 4 * i ==> #[trigger] r@[k] == mip_pixel(
                    source@,
                    source_width as int,
                    source_height as int,
                    width as int,
                    filter,
                    answer_of(*power),
                    answer_of(*root),
                    k / 4,
                )@[k % 4],
        decreases total - i,
    {
        proof {
            lemma_row(i as int, width as int, height as int);
        }
        let x: u32 = (i % width as usize) as u32;
        let y: u32 = (i / width as usize) as u32;
        let samples = gather(source, source_width, source_height, x, y);
        let pixel = filter_samples(filter, samples, power, root);
        let ghost before = r@;
        r.push(pixel[0]);
        r.push(pixel[1]);
        r.push(pixel[2]);
        r.push(pixel[3]);
        proof {
            assert forall|k: int| 0 <= k < 4 * (i + 1) implies #[trigger] r@[k] == mip_pixel(
                source@,
                source_width as int,
                source_height as int,
                width as int,
                filter,
                answer_of(*power),
                answer_of(*root),
                k / 4,
            )@[k % 4] by {
                if k < 4 * i {
                    assert(r@[k] == before[k]);
                } else {
                    assert(k / 4 == i);
                    assert(r@[k] == pixel@[k - 4 * i]);
                }
            }
        }
        i = i + 1;
    }
    assert(r@ =~= smaller_copy(
        source@,
        source_width as int,
        source_height as int,
        width as int,
        height as int,
        filter,
        answer_of(*power),
        answer_of(*root),
    ));
    r
}

/// The mean of four bytes lies between the least and the greatest of them; four equal
/// bytes are their own mean.
pub proof fn means_lie_between(a: u8, b: u8, c: u8, d: u8, low: u8, high: u8)
    requires
        low <= a <= high,
        low <= b <= high,
        low <= c <= high,
        low <= d <= high,
    ensures
        low <= quarter(a, b, c, d) <= high,
{
}

/// A smaller copy of an opaque image is opaque, whichever filter made it.
pub proof fn opaque_images_stay_opaque(
    filter: MipFilter,
    samples: [[u8; 4]; 4],
    power: spec_fn(Single) -> Single,
    root: spec_fn(Single) -> Single,
)
    requires
        samples[0][3] == 255,
        samples[1][3] == 255,
        samples[2][3] == 255,
        samples[3][3] == 255,
    ensures
        filtered(filter, samples, power, root)[3] == 255,
{
}

} // verus!
