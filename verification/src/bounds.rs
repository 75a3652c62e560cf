//! Bounds that rounded arithmetic keeps.
//!
//! Numbers are enclosed between multiples of `2^-10`. Single precision holds those up to
//! `2^14` exactly, so that rounding never leaves an enclosure.

use crate::single::{
    lemma_magnitude, lemma_magnitude_increases, lemma_nearest_exists, lemma_rounded, lemma_split,
    magnitude, nearest, rounded, rounding_is_monotone, Single, BINADE, INFINITE_CODE,
};
use crate::types::FloatRange;
use vstd::arithmetic::power2::{
    lemma2_to64, lemma_pow2_adds, lemma_pow2_pos, lemma_pow2_unfold, pow2,
};
use vstd::prelude::*;

verus! {

/// A number that is not negative lies between two multiples of `2^-10`.
pub open spec fn spans(x: Single, low: int, high: int) -> bool {
    &&& x.is_finite()
    &&& !x.is_negative()
    &&& low * pow2(139) <= x.value() <= high * pow2(139)
}

/// A small multiple of a power of two can be held.
pub(crate) proof fn lemma_representable(k: int, e: nat) -> (code: int)
    requires
        0 <= k < 2 * BINADE,
    ensures
        0 <= code < (e + 2) * BINADE,
        magnitude(code) == k * pow2(e),
    decreases e,
{
    if k >= BINADE || e == 0 {
        lemma_magnitude(e, k);
        e * BINADE + k
    } else {
        let code = lemma_representable(2 * k, (e - 1) as nat);
        lemma_pow2_unfold(e);
        assert((2 * k) * pow2((e - 1) as nat) == k * pow2(e)) by (nonlinear_arith)
            requires
                pow2(e) == 2 * pow2((e - 1) as nat),
        ;
        code
    }
}

proof fn lemma_exact(num: int, den: int, code: int)
    requires
        den > 0,
        0 <= code < INFINITE_CODE,
        num == magnitude(code) * den,
    ensures
        rounded(num, den) == code,
{
    let size = magnitude(code);
    lemma_magnitude_increases(code, code + 1);
    let above = magnitude(code + 1);
    assert(2 * num < (size + above) * den) by (nonlinear_arith)
        requires
            num == size * den,
            size < above,
            den > 0,
    ;
    if code > 0 {
        lemma_magnitude_increases(code - 1, code);
        let below = magnitude(code - 1);
        assert((below + size) * den < 2 * num) by (nonlinear_arith)
            requires
                num == size * den,
                below < size,
                den > 0,
        ;
    }
    assert(nearest(num, den, code));
    lemma_rounded(num, den, code);
}

proof fn lemma_rounds_up_to(num: int, den: int, code: int)
    requires
        den > 0,
        0 <= code < INFINITE_CODE,
        num <= magnitude(code) * den,
    ensures
        0 <= rounded(num, den) <= code,
        magnitude(rounded(num, den)) <= magnitude(code),
{
    lemma_exact(magnitude(code) * den, den, code);
    rounding_is_monotone(num, magnitude(code) * den, den);
    lemma_nearest_exists(num, den);
    if rounded(num, den) < code {
        lemma_magnitude_increases(rounded(num, den), code);
    }
}

proof fn lemma_rounds_down_to(num: int, den: int, code: int)
    requires
        den > 0,
        0 <= code < INFINITE_CODE,
        magnitude(code) * den <= num,
    ensures
        code <= rounded(num, den),
        magnitude(code) <= magnitude(rounded(num, den)),
{
    lemma_exact(magnitude(code) * den, den, code);
    rounding_is_monotone(magnitude(code) * den, num, den);
    if code < rounded(num, den) {
        lemma_magnitude_increases(code, rounded(num, den));
    }
}

proof fn lemma_round_span(num: int, den: int, low: int, high: int)
    requires
        den > 0,
        0 <= low < 2 * BINADE,
        0 <= high < 2 * BINADE,
        low * pow2(139) * den <= num <= high * pow2(139) * den,
    ensures
        spans(Single::encoded(false, rounded(num, den)), low, high),
        Single::encoded(false, rounded(num, den)).code() == rounded(num, den),
{
    let a = lemma_representable(low, 139);
    let b = lemma_representable(high, 139);
    lemma_rounds_down_to(num, den, a);
    lemma_rounds_up_to(num, den, b);
}

/// A decimal lies between the multiples of `2^-10` around it.
pub proof fn ratio_spans(num: i32, den: u32, low: int, high: int)
    requires
        den > 0,
        num >= 0,
        0 <= low < 2 * BINADE,
        0 <= high < 2 * BINADE,
        low * den <= num * 1024 <= high * den,
    ensures
        spans(Single::ratio(num, den), low, high),
{
    reveal(Single::spec_ratio);
    lemma2_to64();
    lemma_pow2_adds(10, 139);
    let (unit, n, d) = (pow2(139) as int, num as int, den as int);
    assert(low * unit * d <= n * (1024 * unit) <= high * unit * d) by (nonlinear_arith)
        requires
            low * d <= n * 1024 <= high * d,
            unit >= 0,
    ;
    lemma_round_span(num * pow2(149), den as int, low, high);
}

/// A sum lies between the sums of the bounds.
pub proof fn sum_spans(x: Single, y: Single, a: int, b: int, c: int, d: int)
    requires
        spans(x, a, b),
        spans(y, c, d),
        0 <= a + c,
        a + c <= b + d < 2 * BINADE,
    ensures
        spans(x.plus(y), a + c, b + d),
{
    reveal(Single::spec_plus);
    let unit = pow2(139) as int;
    let sum = x.value() + y.value();
    assert((a + c) * unit * 1 <= sum <= (b + d) * unit * 1) by (nonlinear_arith)
        requires
            a * unit <= x.value() <= b * unit,
            c * unit <= y.value() <= d * unit,
            sum == x.value() + y.value(),
    ;
    lemma_size(x);
    lemma_size(y);
    if sum > 0 {
        lemma_round_span(sum, 1, a + c, b + d);
    } else {
        assert(magnitude(0) == 0);
    }
}

proof fn lemma_size(x: Single)
    ensures
        magnitude(x.code()) >= 0,
        x.code() > 0 ==> magnitude(x.code()) > 0,
{
    assert(magnitude(0) == 0);
    if x.code() > 0 {
        lemma_magnitude_increases(0, x.code());
    }
}

/// A product lies between the products of the bounds.
pub proof fn product_spans(
    x: Single,
    y: Single,
    a: int,
    b: int,
    c: int,
    d: int,
    low: int,
    high: int,
)
    requires
        spans(x, a, b),
        spans(y, c, d),
        0 <= a,
        0 <= c,
        0 <= low < 2 * BINADE,
        0 <= high < 2 * BINADE,
        low * 1024 <= a * c,
        b * d <= high * 1024,
    ensures
        spans(x.times(y), low, high),
{
    reveal(Single::spec_times);
    lemma2_to64();
    lemma_pow2_adds(10, 139);
    lemma_pow2_pos(139);
    let unit = pow2(139) as int;
    let den = pow2(149) as int;
    let (p, q) = (magnitude(x.code()), magnitude(y.code()));
    assert(low * unit * den <= p * q) by (nonlinear_arith)
        requires
            den == 1024 * unit,
            unit > 0,
            a * unit <= p,
            c * unit <= q,
            0 <= a,
            0 <= c,
            low * 1024 <= a * c,
    {
        assert((a * unit) * (c * unit) <= p * q);
        assert((low * 1024) * (unit * unit) <= (a * c) * (unit * unit));
    }
    assert(p * q <= high * unit * den) by (nonlinear_arith)
        requires
            den == 1024 * unit,
            unit > 0,
            0 <= p <= b * unit,
            0 <= q <= d * unit,
            b * d <= high * 1024,
    {
        assert(p * q <= (b * unit) * (d * unit));
        assert((b * d) * (unit * unit) <= (high * 1024) * (unit * unit));
    }
    lemma_round_span(p * q, den, low, high);
}

/// Larger factors give larger products.
pub proof fn products_are_monotone(x: Single, y: Single, z: Single)
    requires
        x.is_finite(),
        y.is_finite(),
        z.is_finite(),
        !x.is_negative(),
        !y.is_negative(),
        !z.is_negative(),
        x.value() <= y.value(),
        y.times(z).is_finite(),
    ensures
        x.times(z).at_most(y.times(z)),
{
    reveal(Single::spec_times);
    lemma_pow2_pos(149);
    let den = pow2(149) as int;
    let (p, q, r) = (magnitude(x.code()), magnitude(y.code()), magnitude(z.code()));
    lemma_size(z);
    assert(p * r <= q * r) by (nonlinear_arith)
        requires
            p <= q,
            r >= 0,
    ;
    rounding_is_monotone(p * r, q * r, den);
    lemma_nearest_exists(p * r, den);
    lemma_nearest_exists(q * r, den);
}

/// A quotient lies between the quotients of the bounds.
pub proof fn quotient_spans(
    x: Single,
    y: Single,
    a: int,
    b: int,
    c: int,
    d: int,
    low: int,
    high: int,
)
    requires
        spans(x, a, b),
        spans(y, c, d),
        0 <= a,
        0 < c,
        0 <= low < 2 * BINADE,
        0 <= high < 2 * BINADE,
        low * d <= a * 1024,
        b * 1024 <= high * c,
    ensures
        spans(x.over(y), low, high),
{
    reveal(Single::spec_over);
    lemma2_to64();
    lemma_pow2_adds(10, 139);
    lemma_pow2_pos(139);
    let unit = pow2(139) as int;
    let (p, q) = (magnitude(x.code()), magnitude(y.code()));
    let num = p * pow2(149);
    assert(magnitude(0) == 0);
    assert(q > 0) by (nonlinear_arith)
        requires
            c * unit <= q,
            0 < c,
            unit > 0,
    ;
    assert(low * unit * q <= num) by (nonlinear_arith)
        requires
            num == p * (1024 * unit),
            unit > 0,
            a * unit <= p,
            0 <= q <= d * unit,
            0 <= low,
            low * d <= a * 1024,
    {
        assert(low * q <= low * (d * unit));
        assert((low * d) * unit <= (a * 1024) * unit);
        assert((low * q) * unit <= (1024 * p) * unit);
    }
    assert(num <= high * unit * q) by (nonlinear_arith)
        requires
            num == p * (1024 * unit),
            unit > 0,
            p <= b * unit,
            c * unit <= q,
            0 <= high,
            b * 1024 <= high * c,
    {
        assert(high * (c * unit) <= high * q);
        assert((b * 1024) * unit <= (high * c) * unit);
        assert((1024 * p) * unit <= (high * q) * unit);
    }
    lemma_round_span(num, q, low, high);
}

/// A fraction that is not close to one makes a number strictly smaller.
pub proof fn fractions_shrink(x: Single, y: Single, a: int, b: int, c: int)
    requires
        spans(x, a, b),
        1 <= a,
        spans(y, c, 1023),
        0 <= c,
    ensures
        x.times(y).less(x),
{
    reveal(Single::spec_times);
    lemma2_to64();
    lemma_pow2_adds(10, 139);
    lemma_pow2_adds(32, 107);
    lemma_pow2_pos(139);
    lemma_pow2_pos(107);
    let unit = pow2(139) as int;
    let den = pow2(149) as int;
    let code = x.code();
    let (p, q) = (magnitude(code), magnitude(y.code()));
    lemma_size(y);
    assert(p >= unit) by (nonlinear_arith)
        requires
            a * unit <= p,
            1 <= a,
            unit > 0,
    ;
    assert(unit >= 0x1_0000_0000) by (nonlinear_arith)
        requires
            unit == 0x1_0000_0000 * pow2(107),
            pow2(107) > 0,
    ;
    if code <= BINADE {
        lemma_magnitude(0, code);
        assert(pow2(0) == 1);
    }
    let (t, m) = lemma_split(code - 1);
    let w = pow2(t) as int;
    lemma_pow2_pos(t);
    assert(p * q <= magnitude(code - 1) * den) by (nonlinear_arith)
        requires
            p == (m + 1) * w,
            magnitude(code - 1) == m * w,
            0 <= q <= 1023 * unit,
            den == 1024 * unit,
            unit > 0,
            w > 0,
            m >= 1023,
    {
        assert(p * q <= ((m + 1) * w) * (1023 * unit));
        assert((m + 1) * 1023 <= m * 1024);
        assert(((m + 1) * 1023) * (w * unit) <= (m * 1024) * (w * unit));
    }
    lemma_rounds_up_to(p * q, den, code - 1);
}

proof fn lemma_rounding_error(sum: int)
    requires
        sum >= 0,
    ensures
        magnitude(rounded(sum, 1)) * 2048 <= sum * 2049,
{
    lemma_nearest_exists(sum, 1);
    let code = rounded(sum, 1);
    if code > 0 {
        let (t, m) = lemma_split(code - 1);
        let w = pow2(t) as int;
        lemma_pow2_pos(t);
        assert(magnitude(code - 1) + magnitude(code) <= 2 * sum);
        if m >= 2048 {
            assert(((m + 1) * w) * 2048 <= sum * 2049) by (nonlinear_arith)
                requires
                    m * w + (m + 1) * w <= 2 * sum,
                    w > 0,
                    m >= 2048,
            ;
        } else {
            lemma2_to64();
            assert(t == 0);
            assert(m * 1 == m && (m + 1) * 1 == m + 1);
        }
    } else {
        assert(magnitude(0) == 0);
    }
}

/// A number a fraction of the way through a range lies between the limits of the range, but
/// for what rounding adds.
pub proof fn range_spans(range: FloatRange, fraction: Single, a: int, b: int, extra: int)
    requires
        spans(range.min, a, b),
        spans(range.max, a, b),
        range.min.value() <= range.max.value(),
        spans(fraction, 0, 1024),
        0 <= a <= b,
        0 <= extra,
        b - a <= 2048 * extra,
        b + extra < 2 * BINADE,
    ensures
        spans(range.at(fraction), a, b + extra),
{
    reveal(Single::spec_plus);
    reveal(Single::spec_times);
    lemma2_to64();
    lemma_pow2_adds(10, 139);
    lemma_pow2_pos(139);
    let unit = pow2(139) as int;
    let den = pow2(149) as int;
    let (low, high) = (range.min.value(), range.max.value());
    let width = range.max.minus(range.min);
    let sum = high - low;
    assert(range.min.negated().value() == -low);
    assert(0 <= sum <= (b - a) * unit) by (nonlinear_arith)
        requires
            low <= high,
            a * unit <= low,
            high <= b * unit,
            sum == high - low,
    ;
    if sum > 0 {
        assert(0 * unit * 1 == 0 && (b - a) * unit * 1 == (b - a) * unit);
        lemma_round_span(sum, 1, 0, b - a);
    } else {
        lemma_exact(0, 1, 0);
        assert(magnitude(0) == 0);
    }
    lemma_rounding_error(sum);
    let code = width.code();
    let size = magnitude(code);
    assert(code == rounded(sum, 1));
    assert(!width.is_negative() || code == 0);
    let part = width.times(fraction);
    let share = magnitude(fraction.code());
    lemma_size(fraction);
    lemma_size(width);
    assert(size * share <= size * den && 0 <= size * share) by (nonlinear_arith)
        requires
            0 <= share <= 1024 * unit,
            den == 1024 * unit,
            size >= 0,
    ;
    lemma_rounds_up_to(size * share, den, code);
    let added = part.value();
    lemma_size(part);
    assert(0 <= added <= size);
    let total = low + added;
    assert(a * unit * 1 <= total <= (b + extra) * unit * 1) by (nonlinear_arith)
        requires
            a * unit <= low,
            0 <= added <= size,
            size * 2048 <= sum * 2049,
            sum == high - low,
            high <= b * unit,
            sum <= (b - a) * unit,
            b - a <= 2048 * extra,
            total == low + added,
            unit > 0,
    {
        assert((b - a) * unit <= (2048 * extra) * unit);
        assert(size * 2048 <= sum * 2048 + 2048 * (extra * unit));
    }
    lemma_size(range.min);
    if total > 0 {
        lemma_round_span(total, 1, a, b + extra);
    } else {
        assert(magnitude(0) == 0);
    }
}

/// A drawn fraction lies between zero and one.
pub proof fn drawn_fractions_span(word: u32)
    ensures
        spans(crate::draws::unit_of(word), 0, 1024),
{
    reveal(Single::spec_ratio);
    reveal(Single::spec_from_u32);
    reveal(Single::spec_times);
    lemma2_to64();
    lemma_pow2_adds(24, 125);
    lemma_pow2_adds(10, 139);
    lemma_pow2_pos(149);
    lemma_pow2_pos(125);
    let n = (word >> 8) as int;
    assert(word >> 8 < 0x100_0000) by (bit_vector);
    let step = lemma_representable(1, 125);
    lemma_exact(pow2(149) as int, 16_777_216, step);
    let whole = lemma_representable(n, 149);
    lemma_exact(n * pow2(149), 1, whole);
    let (fine, den) = (pow2(125) as int, pow2(149) as int);
    let num = fine * (n * den);
    assert(0 <= num <= 1024 * pow2(139) * den) by (nonlinear_arith)
        requires
            num == fine * (n * den),
            0 <= n <= 0x100_0000,
            den == 0x100_0000 * fine,
            den == 1024 * pow2(139),
            fine > 0,
    {
        assert(n * (fine * den) <= 0x100_0000 * (fine * den));
        assert(0 <= n * (fine * den));
    }
    assert(0 * pow2(139) * den == 0) by (nonlinear_arith);
    lemma_round_span(num, den, 0, 1024);
}

/// A fraction rounds alike after both of its parts are multiplied.
pub(crate) proof fn lemma_same_fraction(num: int, den: int, k: int)
    requires
        den > 0,
        k > 0,
    ensures
        rounded(num * k, den * k) == rounded(num, den),
{
    let code = rounded(num, den);
    lemma_nearest_exists(num, den);
    let up = magnitude(code) + magnitude(code + 1);
    let down = magnitude(code - 1) + magnitude(code);
    assert(2 * num <= up * den ==> 2 * (num * k) <= up * (den * k)) by (nonlinear_arith)
        requires
            k > 0,
    ;
    assert(2 * num < up * den ==> 2 * (num * k) < up * (den * k)) by (nonlinear_arith)
        requires
            k > 0,
    ;
    assert(down * den <= 2 * num ==> down * (den * k) <= 2 * (num * k)) by (nonlinear_arith)
        requires
            k > 0,
    ;
    assert(down * den < 2 * num ==> down * (den * k) < 2 * (num * k)) by (nonlinear_arith)
        requires
            k > 0,
    ;
    assert(den * k > 0) by (nonlinear_arith)
        requires
            den > 0,
            k > 0,
    ;
    assert(nearest(num * k, den * k, code));
    lemma_rounded(num * k, den * k, code);
}

/// The encoding of a fraction without its sign.
spec fn fraction_code(num: int, den: int) -> int {
    rounded(num * pow2(149), den)
}

proof fn lemma_fraction(num: i32, den: u32)
    requires
        den > 0,
    ensures
        Single::ratio(num, den).is_finite(),
        Single::ratio(num, den).rank() == if num < 0 {
            -fraction_code(-num, den as int)
        } else {
            fraction_code(num as int, den as int)
        },
        fraction_code(if num < 0 { -num } else { num as int }, den as int) >= 0,
{
    reveal(Single::spec_ratio);
    let size = if num < 0 {
        -num
    } else {
        num as int
    };
    lemma2_to64();
    lemma_pow2_adds(31, 149);
    let unit = pow2(149) as int;
    let code = lemma_representable(1, 180);
    assert(size * unit <= magnitude(code) * den) by (nonlinear_arith)
        requires
            0 <= size <= 0x8000_0000,
            magnitude(code) == 0x8000_0000 * unit,
            den >= 1,
            unit >= 0,
    ;
    lemma_rounds_up_to(size * unit, den as int, code);
}

proof fn lemma_fractions_ordered(a: int, d: int, b: int, e: int)
    requires
        d > 0,
        e > 0,
        a * e <= b * d,
    ensures
        fraction_code(a, d) <= fraction_code(b, e),
{
    let unit = pow2(149) as int;
    lemma_same_fraction(a * unit, d, e);
    lemma_same_fraction(b * unit, e, d);
    assert(e * d == d * e && d * e > 0) by (nonlinear_arith)
        requires
            d > 0,
            e > 0,
    ;
    assert((a * unit) * e <= (b * unit) * d) by (nonlinear_arith)
        requires
            a * e <= b * d,
            unit >= 0,
    ;
    rounding_is_monotone((a * unit) * e, (b * unit) * d, d * e);
}

proof fn lemma_steps(code: int) -> (r: (nat, int))
    requires
        code > 0,
    ensures
        code - 1 == r.0 * BINADE + r.1,
        r.1 >= BINADE || r.0 == 0,
        magnitude(code - 1) == r.1 * pow2(r.0),
        magnitude(code) == (r.1 + 1) * pow2(r.0),
        magnitude(code + 1) <= (r.1 + 3) * pow2(r.0),
{
    let (t, m) = lemma_split(code - 1);
    let (u, n) = lemma_split(code);
    let w = pow2(t) as int;
    lemma_pow2_unfold(t + 1);
    lemma_pow2_pos(t);
    assert(u == t || u == t + 1);
    assert(magnitude(code + 1) == magnitude(code) + pow2(u)) by (nonlinear_arith)
        requires
            magnitude(code + 1) == (n + 1) * pow2(u),
            magnitude(code) == n * pow2(u),
    ;
    assert((m + 1) * w + 2 * w == (m + 3) * w) by (nonlinear_arith);
    (t, m)
}

proof fn lemma_fractions_apart(a: int, d: int, b: int, e: int)
    requires
        0 <= a <= 0x8000_0000,
        0 < b <= 0x8000_0000,
        0 < d < 0x1_0000_0000,
        0 < e < 0x1_0000_0000,
        1025 * (a * e) <= 1024 * (b * d),
        fraction_code(b, e) < INFINITE_CODE,
    ensures
        fraction_code(a, d) < fraction_code(b, e),
{
    let unit = pow2(149) as int;
    lemma2_to64();
    lemma_pow2_adds(64, 85);
    lemma_pow2_pos(85);
    assert(unit >= 0x1_0000_0000_0000_0000) by (nonlinear_arith)
        requires
            unit == 0x1_0000_0000_0000_0000 * pow2(85),
            pow2(85) > 0,
    ;
    assert(a * e >= 0 && d * e > 0 && b * d > 0 && e * d == d * e) by (nonlinear_arith)
        requires
            a >= 0,
            d > 0,
            e > 0,
            b > 0,
    ;
    lemma_fractions_ordered(a, d, b, e);
    lemma_same_fraction(a * unit, d, e);
    lemma_same_fraction(b * unit, e, d);
    let (x, y, den) = ((a * unit) * e, (b * unit) * d, d * e);
    let code = fraction_code(b, e);
    if fraction_code(a, d) == code {
        lemma_nearest_exists(x, den);
        lemma_nearest_exists(y, den);
        lemma_pow2_pos(149);
        assert(1025 * x <= 1024 * y) by (nonlinear_arith)
            requires
                1025 * (a * e) <= 1024 * (b * d),
                x == (a * unit) * e,
                y == (b * unit) * d,
                unit >= 0,
        ;
        assert(y * 0x1_0000_0000 >= unit * den) by (nonlinear_arith)
            requires
                y == (b * unit) * d,
                den == d * e,
                b >= 1,
                0 < e < 0x1_0000_0000,
                d > 0,
                unit > 0,
        {
            assert(b * (unit * d) >= unit * d);
            assert((unit * d) * 0x1_0000_0000 >= (unit * d) * e);
        }
        if code == 0 {
            assert(magnitude(0) == 0 && magnitude(1) == 1);
            assert(false) by (nonlinear_arith)
                requires
                    2 * y <= (0 + 1) * den,
                    y * 0x1_0000_0000 >= unit * den,
                    den > 0,
                    unit >= 0x8000_0000_0000_0000,
            ;
        } else {
            let (t, m) = lemma_steps(code);
            let w = pow2(t) as int;
            lemma_pow2_pos(t);
            let (down, up) = (
                magnitude(code - 1) + magnitude(code),
                magnitude(code) + magnitude(code + 1),
            );
            if t == 0 && m < BINADE {
                assert(up <= 0x200_0000) by (nonlinear_arith)
                    requires
                        up <= (m + 1) * w + (m + 3) * w,
                        w == 1,
                        m < 0x80_0000,
                ;
                assert(false) by (nonlinear_arith)
                    requires
                        2 * y <= up * den,
                        up <= 0x200_0000,
                        y * 0x1_0000_0000 >= unit * den,
                        den > 0,
                        unit >= 0x8000_0000_0000_0000,
                {
                    assert(up * den <= 0x200_0000 * den);
                    assert(0x8000_0000_0000_0000 * den <= unit * den);
                }
            }
            assert(down == (2 * m + 1) * w && up <= (2 * m + 4) * w) by (nonlinear_arith)
                requires
                    down == m * w + (m + 1) * w,
                    up <= (m + 1) * w + (m + 3) * w,
            ;
            assert(false) by (nonlinear_arith)
                requires
                    down * den <= 2 * x,
                    2 * y <= up * den,
                    1025 * x <= 1024 * y,
                    down == (2 * m + 1) * w,
                    up <= (2 * m + 4) * w,
                    m >= 0x80_0000,
                    den > 0,
                    w > 0,
            {
                let step = w * den;
                assert(step > 0);
                assert((2 * m + 1) * step <= 2 * x);
                assert(up * den <= (2 * m + 4) * step);
                assert(1025 * ((2 * m + 1) * step) <= 1024 * ((2 * m + 4) * step));
                assert((1025 * (2 * m + 1) - 1024 * (2 * m + 4)) * step <= 0);
            }
        }
    }
}

/// Every decimal literal is finite.
pub broadcast proof fn ratios_are_finite(a: i32, d: u32)
    requires
        d > 0,
    ensures
        #[trigger] Single::ratio(a, d).is_finite(),
{
    lemma_fraction(a, d);
}

/// Decimal literals keep the order of the fractions that they stand for.
pub broadcast proof fn ratios_keep_order(a: i32, d: u32, b: i32, e: u32)
    requires
        d > 0,
        e > 0,
        a * e <= b * d,
    ensures
        #[trigger] Single::ratio(a, d).at_most(Single::ratio(b, e)),
{
    lemma_fraction(a, d);
    lemma_fraction(b, e);
    if a >= 0 {
        assert(b >= 0) by (nonlinear_arith)
            requires
                a * e <= b * d,
                a >= 0,
                d > 0,
                e > 0,
        ;
        lemma_fractions_ordered(a as int, d as int, b as int, e as int);
    } else if b < 0 {
        assert((-b) * d <= (-a) * e) by (nonlinear_arith)
            requires
                a * e <= b * d,
        ;
        lemma_fractions_ordered(-b, e as int, -a, d as int);
    }
}

/// A literal is not below one that stands for no larger fraction.
pub broadcast proof fn ratios_do_not_fall(a: i32, d: u32, b: i32, e: u32)
    requires
        d > 0,
        e > 0,
        b * d <= a * e,
    ensures
        !#[trigger] Single::ratio(a, d).less(Single::ratio(b, e)),
{
    ratios_keep_order(b, e, a, d);
}

/// Literals of fractions that are not close are told apart.
pub broadcast proof fn ratios_stay_apart(a: i32, d: u32, b: i32, e: u32)
    requires
        d > 0,
        e > 0,
        a >= 0,
        b > 0,
        1025 * (a * e) <= 1024 * (b * d),
    ensures
        !#[trigger] Single::ratio(b, e).at_most(Single::ratio(a, d)),
        Single::ratio(a, d).less(Single::ratio(b, e)),
{
    lemma_fraction(a, d);
    lemma_fraction(b, e);
    lemma_fractions_apart(a as int, d as int, b as int, e as int);
}

pub broadcast group group_literals {
    ratios_are_finite,
    ratios_keep_order,
    ratios_do_not_fall,
    ratios_stay_apart,
}

/// Zero and one are literals, and a literal below zero is the other one with its sign.
pub proof fn literals_of_whole_numbers(a: i32, d: u32)
    requires
        d > 0,
        a > i32::MIN,
    ensures
        Single::ratio(0, 1) == Single::zero(),
        Single::ratio(1, 1) == Single::one(),
        Single::ratio((-a) as i32, d).rank() == -Single::ratio(a, d).rank(),
{
    lemma_fraction(a, d);
    lemma_fraction((-a) as i32, d);
    reveal(Single::spec_ratio);
    lemma_exact(0, 1, 0);
    assert(magnitude(0) == 0);
    assert(0 * pow2(149) == 0);
    lemma2_to64();
    lemma_pow2_adds(23, 126);
    lemma_magnitude(126, 0x80_0000);
    assert(magnitude(0x3f80_0000) == pow2(149));
    lemma_exact((1 * pow2(149)) as int, 1, 0x3f80_0000);
    if a == 0 {
        assert(0 * pow2(149) == 0 && magnitude(0) * d == 0);
        lemma_exact(0, d as int, 0);
    }
}

} // verus!
