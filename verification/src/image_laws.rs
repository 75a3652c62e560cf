//! What images show after they were made smaller, read back or handed on.

use crate::assets::{
    bundle_outcome, hdr_luminance, layer_tiling, radiance_scale, radiant, required_layers,
    safe_radiance, scaled_pixel, upload_scale, MaterialTextureSet,
};
use crate::mips::{
    average_linear, average_radiance, byte_fraction, direction_component, filtered,
    linear_to_srgb_u8, mip_size, next_mip, quarter, sample_place, samples_of, smaller_copy,
    srgb_to_linear, MipFilter,
};
use crate::readback::{
    aligned, half_to_single, long_word, pair_of, short_word, word_of, ByteOrder,
};
use crate::rounding::{
    bounded_results_are_finite, differences_round, exact_results_are_kept, integers_round,
    literals_round, negations_change_the_sign, neutral_operands, one_is_one, products_round,
    quotients_round, results_are_close, results_keep_order, rounds, size, small_literals,
    whole_literals, whole_numbers,
};
use crate::single::{order_is_value_order, Single};
use crate::whole::unit;
use vstd::arithmetic::power2::pow2;
use vstd::prelude::*;

verus! {

/// The mean of four bytes is the whole number nearest to it, whatever their order.
pub proof fn means_are_nearest(a: u8, b: u8, c: u8, d: u8)
    ensures
        -2 <= a + b + c + d - 4 * quarter(a, b, c, d) < 2,
        quarter(a, b, c, d) == quarter(b, a, c, d),
        quarter(a, b, c, d) == quarter(a, c, b, d),
        quarter(a, b, c, d) == quarter(a, b, d, c),
{
}

/// Plain numbers are averaged channel by channel.
pub proof fn channels_are_averaged_apart(samples: [[u8; 4]; 4], c: int)
    requires
        0 <= c < 4,
    ensures
        ({
            let sum = samples@[0]@[c] + samples@[1]@[c] + samples@[2]@[c] + samples@[3]@[c];
            -2 <= sum - 4 * average_linear(samples)@[c] < 2
        }),
{
    assert(c == 0 || c == 1 || c == 2 || c == 3);
}

/// A smaller copy has half of the pixels along each side, and at least one.
pub proof fn copies_are_half_as_large(extent: u32, level: int)
    requires
        level >= 0,
    ensures
        extent >= 2 ==> 2 * next_mip(extent) <= extent < 2 * next_mip(extent) + 2,
        next_mip(extent) >= 1,
        mip_size(extent, level + 1) == next_mip(mip_size(extent, level)),
        mip_size(extent, 0) == extent,
{
}

/// Each pixel of a smaller copy is made of the four pixels that it covers, two by two, and at
/// an odd edge or of a line of pixels, of those that are there.
pub proof fn pixels_are_made_of_what_they_cover(width: int, height: int, x: int, y: int, k: int)
    requires
        width > 0,
        height > 0,
        x >= 0,
        y >= 0,
        0 <= k < 4,
    ensures
        2 * x + 1 < width && 2 * y + 1 < height ==> {
            &&& sample_place(width, height, x, y, 0) == 2 * y * width + 2 * x
            &&& sample_place(width, height, x, y, 1) == 2 * y * width + 2 * x + 1
            &&& sample_place(width, height, x, y, 2) == (2 * y + 1) * width + 2 * x
            &&& sample_place(width, height, x, y, 3) == (2 * y + 1) * width + 2 * x + 1
        },
        0 <= sample_place(width, height, x, y, k) < width * height,
        width == 1 && 2 * y + 1 < height ==> {
            &&& sample_place(width, height, x, y, 0) == 2 * y
            &&& sample_place(width, height, x, y, 1) == 2 * y
            &&& sample_place(width, height, x, y, 2) == 2 * y + 1
            &&& sample_place(width, height, x, y, 3) == 2 * y + 1
        },
{
    crate::mips::lemma_sample_place(width, height, x, y, k);
    if width == 1 {
        assert(forall|p: int| #[trigger] (p * width) == p);
    }
}

/// A byte of a smaller copy is that of its own pixel and channel.
pub proof fn copies_hold_their_pixels(
    source: Seq<u8>,
    source_width: int,
    source_height: int,
    width: int,
    height: int,
    filter: MipFilter,
    power: spec_fn(Single) -> Single,
    root: spec_fn(Single) -> Single,
    x: int,
    y: int,
    c: int,
)
    requires
        0 <= x < width,
        0 <= y < height,
        0 <= c < 4,
    ensures
        ({
            let copy = smaller_copy(
                source,
                source_width,
                source_height,
                width,
                height,
                filter,
                power,
                root,
            );
            let samples = samples_of(source, source_width, source_height, x, y);
            &&& copy.len() == 4 * (width * height)
            &&& copy[4 * (y * width + x) + c] == filtered(filter, samples, power, root)@[c]
            &&& samples@[0]@[c] == source[4 * sample_place(
                source_width,
                source_height,
                x,
                y,
                0,
            ) + c]
            &&& samples@[1]@[c] == source[4 * sample_place(
                source_width,
                source_height,
                x,
                y,
                1,
            ) + c]
            &&& samples@[2]@[c] == source[4 * sample_place(
                source_width,
                source_height,
                x,
                y,
                2,
            ) + c]
            &&& samples@[3]@[c] == source[4 * sample_place(
                source_width,
                source_height,
                x,
                y,
                3,
            ) + c]
        }),
{
    let i = y * width + x;
    vstd::arithmetic::div_mod::lemma_fundamental_div_mod_converse(i, width, y, x);
    let k = 4 * i + c;
    assert(k / 4 == i && k % 4 == c);
    assert(0 <= i && i < width * height) by (nonlinear_arith)
        requires
            i == y * width + x,
            0 <= x < width,
            0 <= y < height,
    ;
    assert(width * height * 4 == 4 * (width * height)) by (nonlinear_arith);
    assert(c == 0 || c == 1 || c == 2 || c == 3);
}

/// A whole number of light, told as a byte.
proof fn lemma_byte(x: Single)
    requires
        x.is_finite(),
        0 <= x.value() <= 255 * unit(),
    ensures
        2 * size(x.round().to_u8() * unit() - x.value()) <= unit(),
        x.round().to_u8() == crate::whole::nearest_whole(x.value()),
{
    one_is_one();
    crate::rounding::lemma_value(x);
    let (v, u) = (x.value(), unit());
    let m = crate::single::magnitude(x.code());
    assert(m == v || (x.code() == 0 && v == 0));
    assert(crate::single::magnitude(0) == 0);
    let whole = crate::whole::nearest_whole(v);
    vstd::arithmetic::div_mod::lemma_fundamental_div_mod(2 * v + u, 2 * u);
    vstd::arithmetic::div_mod::lemma_mod_bound(2 * v + u, 2 * u);
    assert((2 * u) * whole <= 2 * v + u && 2 * v + u < (2 * u) * whole + 2 * u);
    assert(0 <= whole <= 255) by (nonlinear_arith)
        requires
            (2 * u) * whole <= 2 * v + u,
            2 * v + u < (2 * u) * whole + 2 * u,
            0 <= v <= 255 * u,
            u > 0,
    ;
    assert((2 * u) * whole == 2 * (whole * u)) by (nonlinear_arith);
    let n = whole as u32;
    whole_numbers(n);
    integers_round(n);
    let exact = Single::from_u32(n);
    crate::rounding::lemma_value(exact);
    reveal(Single::spec_round);
    let r = x.round();
    assert(whole * u >= 0) by (nonlinear_arith)
        requires
            whole >= 0,
            u > 0,
    ;
    assert(r.code() == exact.rank());
    if x.is_negative() {
        assert(v == 0);
        assert(whole == 0) by (nonlinear_arith)
            requires
                (2 * u) * whole <= u,
                whole >= 0,
                u > 0,
        ;
    } else {
        assert(r.value() == whole * u);
        vstd::arithmetic::div_mod::lemma_div_multiples_vanish(whole, u);
        assert((whole * u) / u == whole) by {
            assert(whole * u == u * whole) by (nonlinear_arith);
        }
    }
}

/// A byte of a colour is its share of the largest one: none is nothing, the largest all, and
/// larger ones are more.
pub proof fn bytes_are_shares(a: u8, b: u8)
    ensures
        rounds(byte_fraction(a), a * unit(), 255),
        byte_fraction(255) == Single::one(),
        byte_fraction(0).value() == 0,
        a <= b ==> byte_fraction(a).at_most(byte_fraction(b)),
        byte_fraction(a).is_finite(),
        0 <= byte_fraction(a).value() <= unit(),
{
    one_is_one();
    lemma_share(a);
    lemma_share(b);
    lemma_share(255);
    lemma_share(0);
    let u = unit();
    exact_results_are_kept(byte_fraction(255), 255 * u, 255, Single::one());
    exact_results_are_kept(byte_fraction(0), 0, 255, Single::zero());
    if a <= b {
        assert(a * u <= b * u) by (nonlinear_arith)
            requires
                a <= b,
                u > 0,
        ;
        results_keep_order(byte_fraction(a), byte_fraction(b), a * u, b * u, 255);
    }
    assert(0 <= a * u && a * u <= 255 * u) by (nonlinear_arith)
        requires
            0 <= a <= 255,
            u > 0,
    ;
    bounded_results_are_finite(byte_fraction(a), a * u, 255, Single::one());
    results_are_close(byte_fraction(a), a * u, 255);
}

proof fn lemma_share(a: u8)
    ensures
        rounds(byte_fraction(a), a * unit(), 255),
{
    one_is_one();
    whole_numbers(a as u32);
    whole_literals(255);
    let (n, d, u) = (Single::from_u32(a as u32), Single::ratio(255, 1), unit());
    quotients_round(n, d);
    crate::bounds::lemma_same_fraction(a * u, 255, u);
    assert((a * u) * u == n.value() * u && 255 * u == d.value());
    assert(a * u >= 0 && (a * u) * u >= 0) by (nonlinear_arith)
        requires
            a >= 0,
            u > 0,
    ;
}

/// Dark colours are told linearly, and brighter ones by their power.
pub proof fn dark_colours_are_linear(channel: Single, raised: Single)
    requires
        channel.is_finite(),
    ensures
        channel.value() <= Single::ratio(4045, 100000).value() ==> rounds(
            srgb_to_linear(channel, raised),
            channel.value() * unit(),
            Single::ratio(1292, 100).value(),
        ),
        channel.value() > Single::ratio(4045, 100000).value() ==> srgb_to_linear(channel, raised)
            == raised,
        rounds(Single::ratio(4045, 100000), 809 * unit(), 20000),
        rounds(Single::ratio(1292, 100), 323 * unit(), 25),
{
    one_is_one();
    crate::bounds::ratios_are_finite(4045, 100000);
    crate::bounds::ratios_are_finite(1292, 100);
    crate::bounds::ratios_stay_apart(0, 1, 1292, 100);
    let z = Single::ratio(0, 1);
    whole_literals(0);
    order_is_value_order(z, Single::ratio(1292, 100));
    order_is_value_order(channel, Single::ratio(4045, 100000));
    quotients_round(channel, Single::ratio(1292, 100));
    literals_round(4045, 100000);
    literals_round(1292, 100);
    crate::bounds::lemma_same_fraction(809 * unit(), 20000, 5);
    crate::bounds::lemma_same_fraction(323 * unit(), 25, 4);
}

/// No light is black, whatever it is told to be, and full light is white.
pub proof fn no_light_is_black_and_all_is_white(value: Single, root: Single)
    requires
        value.is_finite(),
        root.is_finite(),
    ensures
        value.value() <= 0 ==> linear_to_srgb_u8(value, root) == 0,
        value.value() == unit() && root.value() == unit() ==> linear_to_srgb_u8(value, root)
            == 255,
{
    if value.value() <= 0 {
        lemma_black(value, root);
    }
    if value.value() == unit() && root.value() == unit() {
        lemma_all_white(value, root);
    }
}

proof fn lemma_black(value: Single, root: Single)
    requires
        value.is_finite(),
        value.value() <= 0,
    ensures
        linear_to_srgb_u8(value, root) == 0,
{
    one_is_one();
    let u = unit();
    let dark = Single::ratio(31308, 10000000);
    whole_literals(255);
    let zero = Single::zero();
    crate::single::fractions_lie_in_the_unit_interval(31308, 10000000);
    order_is_value_order(zero, dark);
    order_is_value_order(value, dark);
    let all = Single::ratio(255, 1);
    let slope = Single::ratio(1292, 100);
    crate::bounds::ratios_are_finite(1292, 100);
    crate::bounds::ratios_stay_apart(0, 1, 1292, 100);
    whole_literals(0);
    order_is_value_order(Single::ratio(0, 1), slope);
    products_round(value, slope);
    let encoded = value.times(slope);
    let (a, b) = (value.value(), slope.value());
    assert(a * b <= 0) by (nonlinear_arith)
        requires
            a <= 0,
            b >= 0,
    ;
    crate::geometry_laws::lemma_zero(u);
    results_keep_order(encoded, zero, a * b, 0, u);
    let kept = encoded.clamp(zero, Single::one());
    assert(kept.rank() == 0);
    crate::rounding::lemma_value(kept);
    assert(crate::single::magnitude(0) == 0);
    assert(kept.is_finite() && kept.value() == 0);
    neutral_operands(all, kept);
    lemma_byte(kept.times(all));
    assert(crate::whole::nearest_whole(0) == 0) by {
        vstd::arithmetic::div_mod::lemma_basic_div(u, 2 * u);
    }
}

proof fn lemma_all_white(value: Single, root: Single)
    requires
        value.is_finite(),
        root.is_finite(),
        value.value() == unit(),
        root.value() == unit(),
    ensures
        linear_to_srgb_u8(value, root) == 255,
{
    one_is_one();
    let u = unit();
    let dark = Single::ratio(31308, 10000000);
    crate::described_laws::lemma_unit_large();
    crate::bounds::ratios_are_finite(31308, 10000000);
    crate::bounds::ratios_stay_apart(31308, 10000000, 1, 1);
    whole_literals(1);
    whole_literals(255);
    order_is_value_order(value, dark);
    order_is_value_order(dark, Single::ratio(1, 1));
    let zero = Single::zero();
    let all = Single::ratio(255, 1);
    lemma_white(root);
    let encoded = Single::ratio(1055, 1000).times(root).minus(Single::ratio(55, 1000));
    let kept = encoded.clamp(zero, Single::one());
    order_is_value_order(encoded, zero);
    order_is_value_order(Single::one(), encoded);
    assert(kept.is_finite() && 0x100_0000 * size(kept.value() - u) <= 16 * u);
    products_round(kept, all);
    let (k, r) = (kept.value(), kept.times(all));
    assert(size(k * (255 * u)) <= (255 * u) * u) by (nonlinear_arith)
        requires
            0 <= k <= u,
            u > 0,
    ;
    bounded_results_are_finite(r, k * (255 * u), u, all);
    assert(k * (255 * u) >= 0) by (nonlinear_arith)
        requires
            0 <= k,
            u > 0,
    ;
    results_are_close(r, k * (255 * u), u);
    lemma_near_white(k, r.value(), u);
    lemma_byte(r);
    lemma_last(linear_to_srgb_u8(value, root) as int, r.value(), u);
}

proof fn lemma_last(n: int, r: int, u: int)
    requires
        2 * size(n * u - r) <= u,
        0 <= n <= 255,
        255 * u - r < u / 4,
        r <= 255 * u,
        u >= 0x1_0000_0000,
    ensures
        n == 255,
{
    if n < 255 {
        assert(n * u <= 254 * u) by (nonlinear_arith)
            requires
                n <= 254,
                u > 0,
        ;
    }
}

proof fn lemma_near_white(k: int, r: int, u: int)
    requires
        0 <= k <= u,
        u >= 0x1_0000_0000,
        0x100_0000 * (u - k) <= 16 * u,
        size(r * u - k * (255 * u)) * 0x100_0000 <= size(k * (255 * u)) + 0x80_0000 * u,
        size(r) <= 255 * u,
        r >= 0,
    ensures
        255 * u - r < u / 4,
{
    crate::described_laws::lemma_unit_large();
    assert(k * (255 * u) == (255 * k) * u) by (nonlinear_arith);
    assert(size((r - 255 * k) * u) == size(r - 255 * k) * u) by (nonlinear_arith)
        requires
            u > 0,
    ;
    assert(r * u - (255 * k) * u == (r - 255 * k) * u) by (nonlinear_arith);
    assert((255 * k) * u >= 0) by (nonlinear_arith)
        requires
            k >= 0,
            u > 0,
    ;
    let e = size(r - 255 * k);
    assert(e * 0x100_0000 <= 255 * k + 0x80_0000) by (nonlinear_arith)
        requires
            (e * u) * 0x100_0000 <= (255 * k) * u + 0x80_0000 * u,
            u > 0,
    ;
}

proof fn lemma_white(root: Single)
    requires
        root.is_finite(),
        root.value() == unit(),
    ensures
        ({
            let encoded = Single::ratio(1055, 1000).times(root).minus(Single::ratio(55, 1000));
            &&& encoded.is_finite()
            &&& 0x100_0000 * size(encoded.value() - unit()) <= 16 * unit()
        }),
{
    one_is_one();
    crate::described_laws::lemma_unit_large();
    let u = unit();
    let (a, b) = (Single::ratio(1055, 1000), Single::ratio(55, 1000));
    crate::bounds::ratios_are_finite(1055, 1000);
    crate::bounds::ratios_are_finite(55, 1000);
    literals_round(1055, 1000);
    literals_round(55, 1000);
    results_are_close(a, 1055 * u, 1000);
    results_are_close(b, 55 * u, 1000);
    products_round(a, root);
    exact_results_are_kept(a.times(root), a.value() * u, u, a);
    let p = a.times(root);
    differences_round(p, b);
    whole_literals(2);
    bounded_results_are_finite(p.minus(b), p.value() - b.value(), 1, Single::ratio(2, 1));
    results_are_close(p.minus(b), p.value() - b.value(), 1);
}

/// A byte of a direction is a coordinate from minus one to one, larger ones further along.
pub proof fn direction_bytes_are_coordinates(a: u8, b: u8)
    ensures
        direction_component(0).value() == -unit(),
        direction_component(255).value() == unit(),
        a <= b ==> direction_component(a).at_most(direction_component(b)),
{
    one_is_one();
    let u = unit();
    let d = Single::ratio(1275, 10);
    lemma_middle();
    whole_numbers(0);
    whole_numbers(255);
    whole_numbers(a as u32);
    whole_numbers(b as u32);
    let (x, y) = (Single::from_u32(a as u32), Single::from_u32(b as u32));
    let (n, m) = (Single::from_u32(0), Single::from_u32(255));
    quotients_round(n, d);
    quotients_round(m, d);
    quotients_round(x, d);
    quotients_round(y, d);
    small_literals();
    let two = Single::ratio(2, 1);
    exact_results_are_kept(n.over(d), 0, d.value(), Single::zero());
    assert((255 * u) * u == (2 * u) * d.value()) by (nonlinear_arith)
        requires
            2 * d.value() == 255 * u,
    ;
    exact_results_are_kept(m.over(d), (255 * u) * u, d.value(), two);
    differences_round(n.over(d), Single::one());
    differences_round(m.over(d), Single::one());
    negations_change_the_sign(Single::one());
    exact_results_are_kept(direction_component(0), -u, 1, Single::one().negated());
    exact_results_are_kept(direction_component(255), u, 1, Single::one());
    if a <= b {
        let (p, q) = (x.value(), y.value());
        assert(p <= q && p * u <= q * u && 0 <= p * u && q * u <= (255 * u) * u)
            by (nonlinear_arith)
            requires
                p == a * u,
                q == b * u,
                0 <= a <= b <= 255,
                u > 0,
        ;
        results_keep_order(x.over(d), y.over(d), p * u, q * u, d.value());
        bounded_results_are_finite(x.over(d), p * u, d.value(), two);
        bounded_results_are_finite(y.over(d), q * u, d.value(), two);
        order_is_value_order(x.over(d), y.over(d));
        differences_round(x.over(d), Single::one());
        differences_round(y.over(d), Single::one());
        results_keep_order(
            direction_component(a),
            direction_component(b),
            x.over(d).value() - u,
            y.over(d).value() - u,
            1,
        );
    }
}

proof fn lemma_middle()
    ensures
        Single::ratio(1275, 10).is_finite(),
        2 * Single::ratio(1275, 10).value() == 255 * unit(),
{
    one_is_one();
    let u = unit();
    let d = Single::ratio(1275, 10);
    literals_round(1275, 10);
    whole_literals(255);
    crate::framing_laws::lemma_half_rounds(Single::ratio(255, 1));
    let h = Single::ratio(255, 1).times(Single::ratio(5, 10));
    bounded_results_are_finite(h, 255 * u, 2, Single::ratio(255, 1));
    vstd::arithmetic::power2::lemma2_to64();
    vstd::arithmetic::power2::lemma_pow2_adds(1, 148);
    let code = crate::bounds::lemma_representable(255, 148);
    let x = Single { bits: code as u32 };
    assert(x.is_finite() && x.value() == 255 * pow2(148));
    exact_results_are_kept(d, 1275 * u, 10, x);
}

/// Of a single light that shines, wherever it is, the mean is a quarter in each channel.
pub proof fn light_is_averaged(a: [Single; 4], c: int)
    requires
        0 <= c < 4,
        a@[c].is_finite(),
    ensures
        ({
            let z = Single::zero();
            let dark = [z, z, z, z];
            let sum = average_radiance(a, dark, dark, dark)@[c];
            exists|part: Single| #[trigger]
                rounds(part, a@[c].value(), 4) && sum.is_finite() && sum.value() == part.value()
        }),
        ({
            let z = Single::zero();
            let dark = [z, z, z, z];
            let sum = average_radiance(dark, a, dark, dark)@[c];
            exists|part: Single| #[trigger]
                rounds(part, a@[c].value(), 4) && sum.is_finite() && sum.value() == part.value()
        }),
        ({
            let z = Single::zero();
            let dark = [z, z, z, z];
            let sum = average_radiance(dark, dark, a, dark)@[c];
            exists|part: Single| #[trigger]
                rounds(part, a@[c].value(), 4) && sum.is_finite() && sum.value() == part.value()
        }),
        ({
            let z = Single::zero();
            let dark = [z, z, z, z];
            let sum = average_radiance(dark, dark, dark, a)@[c];
            exists|part: Single| #[trigger]
                rounds(part, a@[c].value(), 4) && sum.is_finite() && sum.value() == part.value()
        }),
{
    one_is_one();
    assert(c == 0 || c == 1 || c == 2 || c == 3);
    let z = Single::zero();
    let quarter = Single::ratio(25, 100);
    let own = a@[c];
    crate::bounds::ratios_are_finite(25, 100);
    lemma_quarter(own);
    let part = own.times(quarter);
    bounded_results_are_finite(part, own.value(), 4, own);
    assert(rounds(part, own.value(), 4));
    neutral_operands(quarter, z);
    let none = z.times(quarter);
    neutral_operands(z, none);
    let b = z.plus(none);
    neutral_operands(b, none);
    let d = b.plus(none);
    neutral_operands(d, none);
    neutral_operands(part, z);
    neutral_operands(part, none);
    neutral_operands(part, b);
    neutral_operands(part, d);
    neutral_operands(part, d.plus(none));
    neutral_operands(z.plus(part), none);
    neutral_operands(z.plus(part).plus(none), none);
    neutral_operands(z.plus(part).plus(none).plus(none), none);
    neutral_operands(b.plus(part), none);
    neutral_operands(b.plus(part).plus(none), none);
    neutral_operands(d.plus(part), none);
}

proof fn lemma_quarter(x: Single)
    requires
        x.is_finite(),
    ensures
        rounds(x.times(Single::ratio(25, 100)), x.value(), 4),
{
    one_is_one();
    let u = unit();
    let q = Single::ratio(25, 100);
    literals_round(25, 100);
    vstd::arithmetic::power2::lemma2_to64();
    vstd::arithmetic::power2::lemma_pow2_adds(2, 147);
    let code = crate::bounds::lemma_representable(1, 147);
    let y = Single { bits: code as u32 };
    assert(y.is_finite() && y.value() == 1 * pow2(147));
    exact_results_are_kept(q, 25 * u, 100, y);
    products_round(x, q);
    let (v, w) = (x.value(), q.value());
    assert(4 * w == u);
    assert(v * u == (v * w) * 4 && (v >= 0 ==> v * w >= 0) && (v < 0 ==> v * w < 0))
        by (nonlinear_arith)
        requires
            4 * w == u,
            u > 0,
    ;
    crate::bounds::lemma_same_fraction(size(v), 4, w);
    assert(size(v) * w == size(v * w)) by (nonlinear_arith)
        requires
            w > 0,
    ;
}

/// A word holds its bytes in their order, the lowest or the highest first.
pub proof fn words_hold_their_bytes(a: u8, b: u8, c: u8, d: u8)
    ensures
        long_word(ByteOrder::LowestFirst, a, b, c, d) == a + 0x100 * b + 0x1_0000 * c + 0x100_0000
            * d,
        long_word(ByteOrder::HighestFirst, a, b, c, d) == long_word(
            ByteOrder::LowestFirst,
            d,
            c,
            b,
            a,
        ),
        short_word(ByteOrder::LowestFirst, a, b) == a + 0x100 * b,
        short_word(ByteOrder::HighestFirst, a, b) == short_word(ByteOrder::LowestFirst, b, a),
{
}

/// Pixels are read in their order, each of its own four bytes.
pub proof fn pixels_are_read_in_order(bytes: Seq<u8>, order: ByteOrder, i: int)
    ensures
        word_of(bytes, order, i) == word_of(bytes.subrange(4 * i, 4 * i + 4), order, 0) || !(0 <= i
            && 4 * i + 4 <= bytes.len()),
        pair_of(bytes, order, i)[0] == half_to_single(
            short_word(order, bytes[4 * i], bytes[4 * i + 1]),
        ),
        pair_of(bytes, order, i)[1] == half_to_single(
            short_word(order, bytes[4 * i + 2], bytes[4 * i + 3]),
        ),
{
}

/// The size of a small number in the smallest steps of its kind.
pub open spec fn half_steps(bits: u16) -> int {
    let exponent = (bits as int / 1024) % 32;
    let mantissa = bits as int % 1024;
    if exponent == 0 {
        mantissa
    } else {
        (1024 + mantissa) * pow2((exponent - 1) as nat)
    }
}

/// A half of a word is the number that it stands for: so many steps, of which there are two to
/// the twenty-fourth in one, and negative with its highest bit.
pub proof fn halves_are_exact(bits: u16)
    requires
        bits < 0x8000,
        (bits as int / 1024) % 32 != 31,
    ensures
        half_to_single(bits).is_finite(),
        half_to_single(bits).value() * 0x100_0000 == half_steps(bits) * unit(),
        half_to_single((bits + 0x8000) as u16) == half_to_single(bits).negated(),
{
    one_is_one();
    let u = unit();
    let exponent = (bits as u32 / 1024) % 32;
    let mantissa = bits as u32 % 1024;
    vstd::arithmetic::power2::lemma2_to64();
    assert(((bits + 0x8000) as u32 / 1024) % 32 == exponent && (bits + 0x8000) as u32 % 1024
        == mantissa);
    if exponent == 0 {
        whole_numbers(mantissa);
        let step = Single { bits: 0x3380_0000 };
        crate::single::lemma_magnitude(102, 0x80_0000);
        assert(step.code() == 102 * 0x80_0000 + 0x80_0000);
        vstd::arithmetic::power2::lemma_pow2_adds(23, 102);
        vstd::arithmetic::power2::lemma_pow2_adds(24, 125);
        lemma_scaled_exactly(mantissa, step, 125);
        let q = pow2(125) as int;
        assert(u == 0x100_0000 * q);
        assert((mantissa * q) * 0x100_0000 == mantissa * (0x100_0000 * q)) by (nonlinear_arith);
    } else {
        let n = (1024 + mantissa) as u32;
        whole_numbers(n);
        let step = Single { bits: ((exponent + 102) * 0x80_0000) as u32 };
        let t = (exponent + 101) as nat;
        crate::single::lemma_magnitude(t, 0x80_0000);
        assert(step.code() == t * 0x80_0000 + 0x80_0000);
        vstd::arithmetic::power2::lemma_pow2_adds(23, t);
        assert(step.value() == pow2((exponent + 124) as nat));
        lemma_scaled_exactly(n, step, (exponent + 124) as nat);
        vstd::arithmetic::power2::lemma_pow2_adds(24, 125);
        vstd::arithmetic::power2::lemma_pow2_adds((exponent - 1) as nat, 125);
        let (p, q) = (pow2((exponent - 1) as nat) as int, pow2(125) as int);
        assert(u == 0x100_0000 * q);
        assert(half_steps(bits) == n * p);
        assert((n * (p * q)) * 0x100_0000 == (n * p) * (0x100_0000 * q)) by (nonlinear_arith);
    }
}

proof fn lemma_scaled_exactly(n: u32, step: Single, e: nat)
    requires
        n < 2048,
        step.is_finite(),
        step.value() == pow2(e),
        e <= 200,
    ensures
        Single::from_u32(n).times(step).is_finite(),
        Single::from_u32(n).times(step).value() == n * pow2(e),
{
    one_is_one();
    let u = unit();
    whole_numbers(n);
    products_round(Single::from_u32(n), step);
    let code = crate::bounds::lemma_representable(n as int, e);
    let x = Single { bits: code as u32 };
    assert(x.is_finite() && x.value() == n * pow2(e));
    let p = pow2(e) as int;
    assert((n * u) * p == (n * p) * u) by (nonlinear_arith);
    exact_results_are_kept(Single::from_u32(n).times(step), (n * u) * p, u, x);
}

/// A row is padded to a multiple of the alignment, and by less than one of it.
pub proof fn rows_are_padded_as_needed(extent: int, alignment: int)
    requires
        extent >= 0,
        alignment > 0,
    ensures
        aligned(extent, alignment) % alignment == 0,
        extent <= aligned(extent, alignment) < extent + alignment,
{
    let n = extent + alignment - 1;
    vstd::arithmetic::div_mod::lemma_fundamental_div_mod(n, alignment);
    vstd::arithmetic::div_mod::lemma_mod_bound(n, alignment);
    vstd::arithmetic::div_mod::lemma_mod_multiples_basic(n / alignment, alignment);
    assert(n / alignment * alignment == alignment * (n / alignment)) by (nonlinear_arith);
}

/// Green counts most for how bright a colour is, red less and blue least, and the opacity not
/// at all.
pub proof fn green_is_brightest(pixel: [Single; 4], alpha: Single)
    ensures
        hdr_luminance(pixel) == hdr_luminance([pixel[0], pixel[1], pixel[2], alpha]),
        hdr_luminance([Single::zero(), Single::zero(), Single::one(), alpha]).less(
            hdr_luminance([Single::one(), Single::zero(), Single::zero(), alpha]),
        ),
        hdr_luminance([Single::one(), Single::zero(), Single::zero(), alpha]).less(
            hdr_luminance([Single::zero(), Single::one(), Single::zero(), alpha]),
        ),
{
    one_is_one();
    let z = Single::zero();
    let (r, g, b) = (
        Single::ratio(2126, 10000),
        Single::ratio(7152, 10000),
        Single::ratio(722, 10000),
    );
    crate::bounds::ratios_are_finite(2126, 10000);
    crate::bounds::ratios_are_finite(7152, 10000);
    crate::bounds::ratios_are_finite(722, 10000);
    lemma_pure(r, g, b);
    crate::bounds::ratios_stay_apart(722, 10000, 2126, 10000);
    crate::bounds::ratios_stay_apart(2126, 10000, 7152, 10000);
    let bright = hdr_luminance([z, Single::one(), z, alpha]);
    let middle = hdr_luminance([Single::one(), z, z, alpha]);
    let dark = hdr_luminance([z, z, Single::one(), alpha]);
    order_is_value_order(b, r);
    order_is_value_order(r, g);
    order_is_value_order(dark, middle);
    order_is_value_order(middle, bright);
}

proof fn lemma_pure(r: Single, g: Single, b: Single)
    requires
        r.is_finite(),
        g.is_finite(),
        b.is_finite(),
    ensures
        ({
            let (z, e) = (Single::zero(), Single::one());
            let red = e.times(r).plus(z.times(g)).plus(z.times(b));
            let green = z.times(r).plus(e.times(g)).plus(z.times(b));
            let blue = z.times(r).plus(z.times(g)).plus(e.times(b));
            &&& red.is_finite() && red.value() == r.value()
            &&& green.is_finite() && green.value() == g.value()
            &&& blue.is_finite() && blue.value() == b.value()
        }),
{
    one_is_one();
    let z = Single::zero();
    neutral_operands(r, z);
    neutral_operands(g, z);
    neutral_operands(b, z);
    let (none_r, none_g, none_b) = (z.times(r), z.times(g), z.times(b));
    neutral_operands(r, none_g);
    neutral_operands(r.plus(none_g), none_b);
    neutral_operands(g, none_r);
    neutral_operands(none_r.plus(g), none_b);
    neutral_operands(none_r, none_g);
    neutral_operands(b, none_r.plus(none_g));
}

/// How bright a pure light is: its strength times the weight of its colour.
pub open spec fn weighs(r: Single, light: Single, num: int) -> bool {
    exists|weight: Single, own: Single|
        {
            &&& #[trigger] rounds(weight, num * unit(), 10000)
            &&& #[trigger] rounds(own, light.value() * weight.value(), unit())
            &&& own.is_finite() ==> r.is_finite() && r.value() == own.value()
        }
}

/// Red weighs about a fifth, green seven tenths and blue the rest of how bright a light is.
pub proof fn colours_have_their_weight(light: Single, alpha: Single)
    requires
        light.is_finite(),
    ensures
        ({
            let z = Single::zero();
            &&& weighs(hdr_luminance([light, z, z, alpha]), light, 2126)
            &&& weighs(hdr_luminance([z, light, z, alpha]), light, 7152)
            &&& weighs(hdr_luminance([z, z, light, alpha]), light, 722)
        }),
{
    one_is_one();
    lemma_weighs(light, 2126);
    lemma_weighs(light, 7152);
    lemma_weighs(light, 722);
    lemma_alone(light.times(Single::ratio(2126, 10000)), 7152, 722);
    lemma_alone(light.times(Single::ratio(7152, 10000)), 2126, 722);
    lemma_alone(light.times(Single::ratio(722, 10000)), 2126, 7152);
}

proof fn lemma_weighs(light: Single, num: i32)
    requires
        light.is_finite(),
        0 < num <= 10000,
    ensures
        rounds(Single::ratio(num, 10000), num * unit(), 10000),
        rounds(
            light.times(Single::ratio(num, 10000)),
            light.value() * Single::ratio(num, 10000).value(),
            unit(),
        ),
{
    literals_round(num, 10000);
    crate::bounds::ratios_are_finite(num, 10000);
    products_round(light, Single::ratio(num, 10000));
}

proof fn lemma_alone(own: Single, a: i32, b: i32)
    ensures
        own.is_finite() ==> {
            let z = Single::zero();
            let (none, nil) = (z.times(Single::ratio(a, 10000)), z.times(Single::ratio(b, 10000)));
            &&& own.plus(none).plus(nil).is_finite()
            &&& own.plus(none).plus(nil).value() == own.value()
            &&& none.plus(own).plus(nil).is_finite()
            &&& none.plus(own).plus(nil).value() == own.value()
            &&& none.plus(nil).plus(own).is_finite()
            &&& none.plus(nil).plus(own).value() == own.value()
        },
{
    one_is_one();
    let z = Single::zero();
    crate::bounds::ratios_are_finite(a, 10000);
    crate::bounds::ratios_are_finite(b, 10000);
    neutral_operands(Single::ratio(a, 10000), z);
    neutral_operands(Single::ratio(b, 10000), z);
    let (none, nil) = (z.times(Single::ratio(a, 10000)), z.times(Single::ratio(b, 10000)));
    if own.is_finite() {
        neutral_operands(own, none);
        neutral_operands(own.plus(none), nil);
        neutral_operands(none.plus(own), nil);
        neutral_operands(none, nil);
        neutral_operands(own, none.plus(nil));
    }
}

/// Light is handed on as it is where it is safe, and otherwise so that its peak is about the
/// largest safe light; the opacity stays.
pub proof fn light_is_handed_on_safely(maximum: Single, pixel: [Single; 4])
    requires
        maximum.is_finite(),
        pixel[0].is_finite(),
        pixel[1].is_finite(),
        pixel[2].is_finite(),
    ensures
        safe_radiance().value() == 60000 * unit(),
        maximum.value() <= 60000 * unit() ==> upload_scale(maximum) == Single::one(),
        maximum.value() > 60000 * unit() ==> rounds(
            upload_scale(maximum),
            60000 * unit() * unit(),
            maximum.value(),
        ),
        upload_scale(maximum).is_finite() && upload_scale(maximum).value() > 0 ==> rounds(
            radiance_scale(upload_scale(maximum)),
            unit() * unit(),
            upload_scale(maximum).value(),
        ),
        upload_scale(maximum).is_finite() ==> {
            let scale = upload_scale(maximum);
            let given = scaled_pixel(pixel, scale);
            &&& rounds(given[0], pixel[0].value() * scale.value(), unit())
            &&& rounds(given[1], pixel[1].value() * scale.value(), unit())
            &&& rounds(given[2], pixel[2].value() * scale.value(), unit())
            &&& given[3] == pixel[3]
        },
{
    one_is_one();
    whole_literals(60000);
    order_is_value_order(safe_radiance(), maximum);
    let scale = upload_scale(maximum);
    if maximum.value() > 60000 * unit() {
        quotients_round(safe_radiance(), maximum);
    }
    if scale.is_finite() {
        products_round(pixel[0], scale);
        products_round(pixel[1], scale);
        products_round(pixel[2], scale);
        if scale.value() > 0 {
            quotients_round(Single::one(), scale);
        }
    }
}

proof fn lemma_layers(materials: Seq<MaterialTextureSet>, n: int)
    requires
        0 <= n <= materials.len(),
    ensures
        required_layers(materials, n) >= 1,
        forall|i: int|
            0 <= i < n ==> (#[trigger] materials[i]).layer.get() < required_layers(materials, n),
        required_layers(materials, n) == 1 || exists|i: int|
            0 <= i < n && (#[trigger] materials[i]).layer.get() + 1 == required_layers(
                materials,
                n,
            ),
    decreases n,
{
    if n > 0 {
        lemma_layers(materials, n - 1);
        let before = required_layers(materials, n - 1);
        if required_layers(materials, n) == before && before != 1 {
            let i = choose|i: int|
                0 <= i < n - 1 && (#[trigger] materials[i]).layer.get() + 1 == before;
            assert(materials[i].layer.get() + 1 == required_layers(materials, n));
        } else if required_layers(materials, n) != 1 {
            assert(materials[n - 1].layer.get() + 1 == required_layers(materials, n));
        }
    }
}

/// There are as many layers as the highest one needs, and no more.
pub proof fn layers_are_as_many_as_needed(materials: Seq<MaterialTextureSet>)
    ensures
        ({
            let total = required_layers(materials, materials.len() as int);
            &&& total >= 1
            &&& forall|i: int|
                0 <= i < materials.len() ==> (#[trigger] materials[i]).layer.get() < total
            &&& total == 1 || exists|i: int|
                0 <= i < materials.len() && (#[trigger] materials[i]).layer.get() + 1 == total
        }),
{
    lemma_layers(materials, materials.len() as int);
}

proof fn lemma_tiling(materials: Seq<MaterialTextureSet>, n: int, i: int)
    requires
        0 <= i < n <= materials.len(),
        forall|j: int|
            i < j < n ==> (#[trigger] materials[j]).layer.get() != materials[i].layer.get(),
    ensures
        layer_tiling(materials, n, materials[i].layer.get() as int) == [
            materials[i].uv_tiling[0],
            materials[i].uv_tiling[1],
            Single::zero(),
            Single::zero(),
        ],
    decreases n,
{
    if i < n - 1 {
        lemma_tiling(materials, n - 1, i);
    }
}

/// In an accepted bundle, the layer of a material is tiled as the material is.
pub proof fn layers_are_tiled_as_their_material(
    bundle: &crate::assets::RenderAssetBundle,
    i: int,
)
    requires
        bundle_outcome(bundle) is Ok,
        0 <= i < bundle.materials@.len(),
    ensures
        ({
            let own = bundle.materials@[i];
            let tiling = layer_tiling(
                bundle.materials@,
                bundle.materials@.len() as int,
                own.layer.get() as int,
            );
            tiling[0] == own.uv_tiling[0] && tiling[1] == own.uv_tiling[1]
        }),
{
    assert forall|j: int| i < j < bundle.materials@.len() implies (
    #[trigger] bundle.materials@[j]).layer.get() != bundle.materials@[i].layer.get() by {
        crate::assets::accepted_bundles_stack(bundle, i, j);
    }
    lemma_tiling(bundle.materials@, bundle.materials@.len() as int, i);
}

/// Colours are radiant where no channel is negative and the opacity is a share.
pub proof fn colours_are_radiant_where_they_shine(pixel: [Single; 4])
    ensures
        radiant(pixel) <==> {
            &&& pixel[0].is_finite() && pixel[0].value() >= 0
            &&& pixel[1].is_finite() && pixel[1].value() >= 0
            &&& pixel[2].is_finite() && pixel[2].value() >= 0
            &&& pixel[3].is_finite() && 0 <= pixel[3].value() <= unit()
        },
{
    one_is_one();
    if pixel[0].is_finite() {
        order_is_value_order(pixel[0], Single::zero());
    }
    if pixel[1].is_finite() {
        order_is_value_order(pixel[1], Single::zero());
    }
    if pixel[2].is_finite() {
        order_is_value_order(pixel[2], Single::zero());
    }
    if pixel[3].is_finite() {
        order_is_value_order(Single::zero(), pixel[3]);
        order_is_value_order(pixel[3], Single::one());
    }
}

} // verus!
