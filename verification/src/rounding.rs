//! What one rounded operation gives, in exact numbers.
//!
//! Numbers are counted in units of `2^-149`, in which every finite one is an integer. A
//! result is the number nearest to the exact one, and no further from it than one part in
//! `2^24`, or half a unit where it is tiny.

use crate::single::{
    lemma_magnitude_increases, lemma_nearest_exists, lemma_rounded, lemma_split, magnitude, nearest,
    rounded, rounding_is_monotone, Single, BINADE, INFINITE_CODE,
};
use crate::whole::unit;
use vstd::arithmetic::power2::{lemma2_to64, lemma_pow2_adds, lemma_pow2_pos, pow2};
use vstd::prelude::*;

verus! {

/// The size of an exact number.
pub open spec fn size(num: int) -> int {
    if num < 0 {
        -num
    } else {
        num
    }
}

/// A result is the number nearest to `num / den` units.
pub open spec fn rounds(r: Single, num: int, den: int) -> bool {
    &&& !r.is_nan()
    &&& r.rank() == if num < 0 {
        -rounded(-num, den)
    } else {
        rounded(num, den)
    }
}

pub(crate) proof fn lemma_value(x: Single)
    ensures
        x.rank() >= 0 ==> x.value() == magnitude(x.rank()),
        x.rank() < 0 ==> x.value() == -magnitude(-x.rank()),
        magnitude(x.code()) >= 0,
        x.code() > 0 ==> magnitude(x.code()) > 0,
{
    assert(magnitude(0) == 0);
    if x.code() > 0 {
        lemma_magnitude_increases(0, x.code());
    }
}

proof fn lemma_exact(num: int, den: int, code: int)
    requires
        den > 0,
        0 <= code < INFINITE_CODE,
        num == magnitude(code) * den,
    ensures
        rounded(num, den) == code,
{
    let m = magnitude(code);
    lemma_magnitude_increases(code, code + 1);
    let above = magnitude(code + 1);
    assert(2 * num < (m + above) * den) by (nonlinear_arith)
        requires
            num == m * den,
            m < above,
            den > 0,
    ;
    if code > 0 {
        lemma_magnitude_increases(code - 1, code);
        let below = magnitude(code - 1);
        assert((below + m) * den < 2 * num) by (nonlinear_arith)
            requires
                num == m * den,
                below < m,
                den > 0,
        ;
    }
    assert(nearest(num, den, code));
    lemma_rounded(num, den, code);
}

proof fn lemma_zero_rounds(den: int)
    requires
        den > 0,
    ensures
        rounded(0, den) == 0,
{
    assert(magnitude(0) == 0);
    assert(0 * den == 0);
    lemma_exact(0, den, 0);
}

proof fn lemma_signed(negative: bool, num: int, den: int)
    requires
        den > 0,
        num >= 0,
    ensures
        rounds(
            Single::encoded(negative, rounded(num, den)),
            if negative {
                -num
            } else {
                num
            },
            den,
        ),
{
    lemma_nearest_exists(num, den);
    if num == 0 {
        lemma_zero_rounds(den);
    }
}

/// A sum is the number nearest to the exact sum.
pub proof fn sums_round(x: Single, y: Single)
    requires
        x.is_finite(),
        y.is_finite(),
    ensures
        rounds(x.plus(y), x.value() + y.value(), 1),
{
    reveal(Single::spec_plus);
    let sum = x.value() + y.value();
    if sum == 0 {
        lemma_zero_rounds(1);
    } else {
        lemma_signed(sum < 0, size(sum), 1);
    }
}

/// A difference is the number nearest to the exact difference.
pub proof fn differences_round(x: Single, y: Single)
    requires
        x.is_finite(),
        y.is_finite(),
    ensures
        rounds(x.minus(y), x.value() - y.value(), 1),
{
    sums_round(x, y.negated());
    negations_change_the_sign(y);
}

/// The negation of a number is as far on the other side of zero.
pub proof fn negations_change_the_sign(x: Single)
    ensures
        x.negated().value() == -x.value(),
        x.negated().is_finite() == x.is_finite(),
        x.negated().negated() == x,
        x.negated().rank() == -x.rank(),
{
}

/// A product is the number nearest to the exact product.
pub proof fn products_round(x: Single, y: Single)
    requires
        x.is_finite(),
        y.is_finite(),
    ensures
        rounds(x.times(y), x.value() * y.value(), unit()),
{
    reveal(Single::spec_times);
    lemma_pow2_pos(149);
    lemma_value(x);
    lemma_value(y);
    let (p, q) = (magnitude(x.code()), magnitude(y.code()));
    let negative = x.is_negative() != y.is_negative();
    assert(p * q >= 0) by (nonlinear_arith)
        requires
            p >= 0,
            q >= 0,
    ;
    assert((-p) * q == -(p * q) && p * (-q) == -(p * q) && (-p) * (-q) == p * q)
        by (nonlinear_arith);
    lemma_signed(negative, p * q, unit());
}

/// A quotient is the number nearest to the exact quotient.
pub proof fn quotients_round(x: Single, y: Single)
    requires
        x.is_finite(),
        y.is_finite(),
        y.value() > 0,
    ensures
        rounds(x.over(y), x.value() * unit(), y.value()),
{
    reveal(Single::spec_over);
    lemma_pow2_pos(149);
    lemma_value(x);
    lemma_value(y);
    let p = magnitude(x.code());
    let u = unit();
    assert(magnitude(0) == 0);
    assert(p * u >= 0) by (nonlinear_arith)
        requires
            p >= 0,
            u > 0,
    ;
    assert((-p) * u == -(p * u)) by (nonlinear_arith);
    lemma_signed(x.is_negative(), p * u, y.value());
}

/// A literal is the number nearest to the fraction that it stands for.
pub proof fn literals_round(num: i32, den: u32)
    requires
        den > 0,
    ensures
        rounds(Single::ratio(num, den), num * unit(), den as int),
{
    reveal(Single::spec_ratio);
    lemma_pow2_pos(149);
    let n = size(num as int);
    let u = unit();
    assert(n * u >= 0) by (nonlinear_arith)
        requires
            n >= 0,
            u > 0,
    ;
    assert((-n) * u == -(n * u)) by (nonlinear_arith);
    lemma_signed(num < 0, n * u, den as int);
}

/// An integer becomes the number nearest to it.
pub proof fn integers_round(n: u32)
    ensures
        rounds(Single::from_u32(n), n * unit(), 1),
{
    reveal(Single::spec_from_u32);
    lemma_pow2_pos(149);
    let u = unit();
    assert(n * u >= 0) by (nonlinear_arith)
        requires
            n >= 0,
            u > 0,
    ;
    lemma_signed(false, n * u, 1);
}

/// Rounding keeps the order of the exact numbers.
pub proof fn results_keep_order(r: Single, s: Single, a: int, b: int, den: int)
    requires
        den > 0,
        rounds(r, a, den),
        rounds(s, b, den),
        a <= b,
    ensures
        r.at_most(s),
{
    if b < 0 {
        rounding_is_monotone(-b, -a, den);
    } else if a >= 0 {
        rounding_is_monotone(a, b, den);
    } else {
        lemma_nearest_exists(-a, den);
        lemma_nearest_exists(b, den);
    }
}

/// Where the exact number is one that can be held, it is the result.
pub proof fn exact_results_are_kept(r: Single, num: int, den: int, x: Single)
    requires
        den > 0,
        rounds(r, num, den),
        x.is_finite(),
        num == x.value() * den,
    ensures
        r.is_finite(),
        r.value() == x.value(),
        r.equals(x),
        x.value() != 0 ==> r == x,
{
    lemma_value(x);
    lemma_value(r);
    let m = magnitude(x.code());
    assert(m >= 0 ==> m * den >= 0) by (nonlinear_arith)
        requires
            den > 0,
    ;
    assert(m > 0 ==> m * den > 0) by (nonlinear_arith)
        requires
            den > 0,
    ;
    assert((-m) * den == -(m * den)) by (nonlinear_arith);
    lemma_exact(m * den, den, x.code());
    assert(magnitude(0) == 0);
}

proof fn lemma_error(num: int, den: int)
    requires
        den > 0,
        num >= 0,
        rounded(num, den) < INFINITE_CODE,
    ensures
        size(magnitude(rounded(num, den)) * den - num) * 0x100_0000 <= num + 0x80_0000 * den,
{
    lemma_nearest_exists(num, den);
    let code = rounded(num, den);
    let m = magnitude(code);
    let (t, k) = lemma_split(code);
    let w = pow2(t) as int;
    lemma_pow2_pos(t);
    let above = magnitude(code + 1);
    assert((num - m * den) * 0x100_0000 <= size(num) + 0x80_0000 * den) by {
        if num > m * den {
            if k >= BINADE {
                assert((num - m * den) * 0x100_0000 <= num) by (nonlinear_arith)
                    requires
                        2 * num <= (m + above) * den,
                        m == k * w,
                        above == (k + 1) * w,
                        k >= 0x80_0000,
                        w > 0,
                        den > 0,
                        num > m * den,
                {
                    assert(2 * (num - m * den) <= w * den);
                    assert(0x80_0000 * (w * den) <= k * (w * den));
                }
            } else {
                lemma2_to64();
                assert(w == 1);
                assert(k * w == k && (k + 1) * w == k + 1) by (nonlinear_arith)
                    requires
                        w == 1,
                ;
                assert(2 * (num - m * den) <= den) by (nonlinear_arith)
                    requires
                        2 * num <= (m + above) * den,
                        above == m + 1,
                ;
            }
        }
    }
    assert((m * den - num) * 0x100_0000 <= num + 0x80_0000 * den) by {
        if code > 0 {
            let (s, l) = lemma_split(code - 1);
            let v = pow2(s) as int;
            lemma_pow2_pos(s);
            let below = magnitude(code - 1);
            if l >= BINADE {
                assert((m * den - num) * 0x100_0000 <= num) by (nonlinear_arith)
                    requires
                        (below + m) * den <= 2 * num,
                        below == l * v,
                        m == (l + 1) * v,
                        l >= 0x80_0000,
                        v > 0,
                        den > 0,
                {
                    assert(2 * (m * den - num) <= v * den);
                    assert(0x80_0000 * (v * den) <= l * (v * den));
                    assert(2 * (l * (v * den)) <= (below + m) * den);
                }
            } else {
                lemma2_to64();
                assert(v == 1);
                assert(l * v == l && (l + 1) * v == l + 1) by (nonlinear_arith)
                    requires
                        v == 1,
                ;
                assert(2 * (m * den - num) <= den) by (nonlinear_arith)
                    requires
                        (below + m) * den <= 2 * num,
                        m == below + 1,
                ;
            }
        } else {
            assert(0 * den == 0);
        }
    }
}

/// A finite result is within one part in `2^24` of the exact number, or half a unit.
pub proof fn results_are_close(r: Single, num: int, den: int)
    requires
        den > 0,
        rounds(r, num, den),
        r.is_finite(),
    ensures
        size(r.value() * den - num) * 0x100_0000 <= size(num) + 0x80_0000 * den,
        num >= 0 ==> r.value() >= 0,
        num <= 0 ==> r.value() <= 0,
{
    lemma_value(r);
    let n = size(num);
    lemma_nearest_exists(n, den);
    lemma_error(n, den);
    let m = magnitude(rounded(n, den));
    assert((-m) * den == -(m * den)) by (nonlinear_arith);
    if num == 0 {
        lemma_zero_rounds(den);
    }
}

/// A result is finite where some finite number is as far from zero as the exact one.
pub proof fn bounded_results_are_finite(r: Single, num: int, den: int, x: Single)
    requires
        den > 0,
        rounds(r, num, den),
        x.is_finite(),
        size(num) <= size(x.value()) * den,
    ensures
        r.is_finite(),
        size(r.value()) <= size(x.value()),
{
    lemma_value(x);
    lemma_value(r);
    let m = magnitude(x.code());
    lemma_exact(m * den, den, x.code());
    rounding_is_monotone(size(num), m * den, den);
    lemma_nearest_exists(size(num), den);
    if r.code() < x.code() {
        lemma_magnitude_increases(r.code(), x.code());
    }
}

/// One is one unit of measure.
pub proof fn one_is_one()
    ensures
        Single::one().value() == unit(),
        Single::one().is_finite(),
        Single::zero().value() == 0,
        unit() > 0,
{
    lemma2_to64();
    lemma_pow2_pos(149);
    lemma_pow2_adds(23, 126);
    crate::single::lemma_magnitude(126, 0x80_0000);
    assert(magnitude(0x3f80_0000) == pow2(149));
    assert(magnitude(0) == 0);
}

/// Nothing changes a number that is multiplied by one, or to which zero is added, and a
/// number times zero is zero.
pub proof fn neutral_operands(x: Single, z: Single)
    requires
        x.is_finite(),
        z.is_finite(),
        z.value() == 0,
    ensures
        x.times(Single::one()) == x,
        Single::one().times(x) == x,
        x.over(Single::one()) == x,
        x.plus(z).is_finite(),
        x.plus(z).value() == x.value(),
        z.plus(x).is_finite(),
        z.plus(x).value() == x.value(),
        x.minus(z).is_finite(),
        x.minus(z).value() == x.value(),
        x.times(z).is_finite(),
        x.times(z).value() == 0,
        z.times(x).is_finite(),
        z.times(x).value() == 0,
        x.minus(x).is_finite(),
        x.minus(x).value() == 0,
        x.value() != 0 ==> x.plus(z) == x && z.plus(x) == x && x.minus(z) == x,
{
    one_is_one();
    let one = Single::one();
    reveal(Single::spec_times);
    reveal(Single::spec_over);
    lemma_value(x);
    let m = magnitude(x.code());
    lemma_exact(m * unit(), unit(), x.code());
    assert(m * unit() == unit() * m) by (nonlinear_arith);
    sums_round(x, z);
    exact_results_are_kept(x.plus(z), x.value(), 1, x);
    sums_round(z, x);
    exact_results_are_kept(z.plus(x), x.value(), 1, x);
    differences_round(x, z);
    exact_results_are_kept(x.minus(z), x.value(), 1, x);
    differences_round(x, x);
    exact_results_are_kept(x.minus(x), 0, 1, z);
    products_round(x, z);
    assert(x.value() * 0 == 0 && 0 * x.value() == 0 && 0 * unit() == 0);
    exact_results_are_kept(x.times(z), 0, unit(), z);
    products_round(z, x);
    exact_results_are_kept(z.times(x), 0, unit(), z);
    lemma_value(z);
}

/// The sign of a factor is the sign of the product.
pub proof fn products_follow_signs(x: Single, y: Single)
    requires
        x.is_finite(),
        y.is_finite(),
    ensures
        x.negated().times(y) == x.times(y).negated(),
        x.times(y.negated()) == x.times(y).negated(),
        x.times(y) == y.times(x),
{
    reveal(Single::spec_times);
    crate::single::sums_and_products_commute(x, y);
    lemma_nearest_exists(magnitude(x.code()) * magnitude(y.code()), unit());
}

/// Quotients of negated numbers are negated quotients.
pub proof fn quotients_follow_signs(x: Single, y: Single)
    requires
        x.is_finite(),
        y.is_finite(),
        y.value() != 0,
    ensures
        x.negated().over(y) == x.over(y).negated(),
        x.over(y.negated()) == x.over(y).negated(),
{
    reveal(Single::spec_over);
    lemma_value(y);
    lemma_nearest_exists(magnitude(x.code()) * unit(), magnitude(y.code()));
}

/// A half is exactly half, and a double exactly double, away from the smallest and the
/// largest numbers.
pub proof fn small_literals()
    ensures
        Single::ratio(5, 10).is_finite(),
        2 * Single::ratio(5, 10).value() == unit(),
        Single::ratio(2, 1).is_finite(),
        Single::ratio(2, 1).value() == 2 * unit(),
        Single::ratio(3, 1).is_finite(),
        Single::ratio(3, 1).value() == 3 * unit(),
{
    lemma2_to64();
    lemma_pow2_adds(23, 126);
    lemma_pow2_adds(1, 126);
    lemma_pow2_adds(1, 125);
    lemma_pow2_adds(23, 125);
    lemma_pow2_pos(149);
    crate::single::lemma_magnitude(125, 0x80_0000);
    let half = Single { bits: 0x3f00_0000 };
    assert(magnitude(0x3f00_0000) == 0x80_0000 * pow2(125));
    assert(2 * half.value() == unit());
    literals_round(5, 10);
    exact_results_are_kept(Single::ratio(5, 10), 5 * unit(), 10, half);
    crate::single::lemma_magnitude(127, 0x80_0000);
    let two = Single { bits: 0x4000_0000 };
    assert(magnitude(0x4000_0000) == 0x80_0000 * pow2(127));
    lemma_pow2_adds(1, 149);
    lemma_pow2_adds(23, 127);
    assert(two.value() == 2 * unit());
    literals_round(2, 1);
    exact_results_are_kept(Single::ratio(2, 1), 2 * unit(), 1, two);
    crate::single::lemma_magnitude(127, 0xc0_0000);
    let three = Single { bits: 0x4040_0000 };
    assert(magnitude(0x4040_0000) == 0xc0_0000 * pow2(127));
    assert(three.value() == 3 * unit()) by {
        lemma_pow2_adds(22, 127);
        assert(0xc0_0000 * pow2(127) == 3 * (0x40_0000 * pow2(127))) by (nonlinear_arith);
    }
    literals_round(3, 1);
    exact_results_are_kept(Single::ratio(3, 1), 3 * unit(), 1, three);
}

/// A literal of a whole number is that number.
pub proof fn whole_literals(n: i32)
    requires
        -0x100_0000 < n < 0x100_0000,
    ensures
        Single::ratio(n, 1).is_finite(),
        Single::ratio(n, 1).value() == n * unit(),
{
    lemma_pow2_pos(149);
    let code = crate::bounds::lemma_representable(size(n as int), 149);
    let x = Single::encoded(n < 0, code);
    assert(code < 151 * BINADE);
    assert(x.code() == code);
    assert(x.value() == n * unit()) by {
        let u = unit();
        assert((-n) * u == -(n * u)) by (nonlinear_arith);
        assert(size(n as int) * u == 0 ==> n * u == 0) by (nonlinear_arith)
            requires
                size(n as int) == n || size(n as int) == -n,
        ;
    }
    literals_round(n, 1);
    exact_results_are_kept(Single::ratio(n, 1), n * unit(), 1, x);
}

/// A whole number that is not too large is held exactly.
pub proof fn whole_numbers(n: u32)
    requires
        n < 0x100_0000,
    ensures
        Single::from_u32(n).is_finite(),
        Single::from_u32(n).value() == n * unit(),
{
    let code = crate::bounds::lemma_representable(n as int, 149);
    let x = Single::encoded(false, code);
    assert(code < 151 * BINADE);
    assert(x.code() == code);
    integers_round(n);
    exact_results_are_kept(Single::from_u32(n), n * unit(), 1, x);
}

} // verus!
