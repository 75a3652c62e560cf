//! Whole numbers near a single-precision number, and remainders of division.

use crate::single::{nearest_ratio, power_of_two, round_scaled, Single, INFINITE_CODE, NAN_BITS};
use vstd::arithmetic::div_mod::{
    lemma_div_denominator, lemma_div_multiples_vanish, lemma_mod_breakdown,
    lemma_mod_multiples_basic, lemma_mul_mod_noop_right, lemma_small_mod,
};
use vstd::arithmetic::power2::{
    lemma2_to64, lemma_pow2_adds, lemma_pow2_pos, lemma_pow2_strictly_increases, lemma_pow2_unfold,
    pow2,
};
use vstd::prelude::*;

verus! {

/// One, in the units of [`Single::value`].
pub open spec fn unit() -> int {
    pow2(149) as int
}

/// The integer nearest to a count of units, halves rounded up.
pub open spec fn nearest_whole(size: int) -> int {
    (2 * size + unit()) / (2 * unit())
}

/// Position of a number in the total order that tells the zeros apart and puts every
/// NaN at an end.
pub open spec fn total_rank(x: Single) -> int {
    if x.is_negative() {
        -1 - x.code()
    } else {
        x.code()
    }
}

/// Every finite number is the nearest one to itself.
pub proof fn lemma_code_is_nearest(code: int)
    requires
        0 <= code < INFINITE_CODE,
    ensures
        crate::single::rounded(crate::single::magnitude(code), 1) == code,
{
    if code > 0 {
        crate::single::lemma_magnitude_increases(code - 1, code);
    }
    crate::single::lemma_magnitude_increases(code, code + 1);
    crate::single::lemma_rounded(crate::single::magnitude(code), 1, code);
}

/// A common factor leaves a quotient as it is.
proof fn lemma_common_factor(a: int, b: int, factor: int)
    requires
        a >= 0,
        b > 0,
        factor > 0,
    ensures
        (a * factor) / (b * factor) == a / b,
{
    assert(a * factor >= 0) by (nonlinear_arith)
        requires
            a >= 0,
            factor > 0,
    ;
    lemma_div_denominator(a * factor, factor, b);
    lemma_div_multiples_vanish(a, factor);
    assert(a * factor == factor * a) by (nonlinear_arith);
    assert(b * factor == factor * b) by (nonlinear_arith);
}

/// A common factor goes through a remainder.
proof fn lemma_common_remainder(a: int, b: int, factor: int)
    requires
        a >= 0,
        b > 0,
        factor > 0,
    ensures
        (a * factor) % (b * factor) == (a % b) * factor,
{
    assert(a * factor >= 0) by (nonlinear_arith)
        requires
            a >= 0,
            factor > 0,
    ;
    lemma_mod_breakdown(a * factor, factor, b);
    lemma_div_multiples_vanish(a, factor);
    lemma_mod_multiples_basic(a, factor);
    assert(a * factor == factor * a) by (nonlinear_arith);
    assert(b * factor == factor * b) by (nonlinear_arith);
    assert((a % b) * factor == factor * (a % b)) by (nonlinear_arith);
}

impl Single {
    /// Whole part as an unsigned integer; nothing below zero or of a NaN, and no more
    /// than the type holds.
    pub open spec fn spec_to_u32(self) -> u32 {
        if self.is_nan() || self.is_negative() {
            0
        } else if !self.is_finite() || self.value() / unit() > u32::MAX {
            u32::MAX
        } else {
            (self.value() / unit()) as u32
        }
    }

    /// Whole part as an unsigned integer; nothing below zero or of a NaN, and no more
    /// than the type holds.
    #[verifier::when_used_as_spec(spec_to_u32)]
    pub fn to_u32(self) -> (r: u32)
        ensures
            r == self.spec_to_u32(),
    {
        if self.is_nan() || self.is_negative() {
            return 0;
        }
        if !self.is_finite() {
            return u32::MAX;
        }
        let (m, t) = self.parts();
        proof {
            lemma2_to64();
            lemma_pow2_pos(149);
            lemma_pow2_pos(t as nat);
        }
        if t >= 149 {
            let up: u32 = t - 149;
            proof {
                lemma_pow2_adds(up as nat, 149);
                assert(m * pow2(t as nat) == (m * pow2(up as nat)) * pow2(149)) by (nonlinear_arith)
                    requires
                        pow2(t as nat) == pow2(up as nat) * pow2(149),
                ;
                lemma_div_multiples_vanish((m * pow2(up as nat)) as int, unit());
                assert((m * pow2(up as nat)) * pow2(149) == pow2(149) * (m * pow2(up as nat)))
                    by (nonlinear_arith);
            }
            if up > 8 {
                proof {
                    if up > 9 {
                        lemma_pow2_strictly_increases(9, up as nat);
                    }
                    assert(m * pow2(up as nat) > u32::MAX) by (nonlinear_arith)
                        requires
                            m >= 0x80_0000,
                            pow2(up as nat) >= 512,
                    ;
                }
                return u32::MAX;
            }
            let scale: u128 = power_of_two(up);
            proof {
                if up < 8 {
                    lemma_pow2_strictly_increases(up as nat, 8);
                }
                assert(m * scale <= 0x100_0000 * 256) by (nonlinear_arith)
                    requires
                        m < 0x100_0000,
                        scale <= 256,
                ;
            }
            let whole: u128 = m as u128 * scale;
            if whole > 0xffff_ffff {
                u32::MAX
            } else {
                whole as u32
            }
        } else {
            let down: u32 = 149 - t;
            proof {
                lemma_pow2_adds(down as nat, t as nat);
                lemma_pow2_pos(down as nat);
                lemma_common_factor(m as int, pow2(down as nat) as int, pow2(t as nat) as int);
            }
            if down > 24 {
                proof {
                    lemma_pow2_strictly_increases(24, down as nat);
                    assert(m as int / pow2(down as nat) as int == 0) by (nonlinear_arith)
                        requires
                            0 <= m < pow2(down as nat),
                    ;
                }
                return 0;
            }
            let scale: u128 = power_of_two(down);
            proof {
                assert(m as int / scale as int <= m) by (nonlinear_arith)
                    requires
                        scale > 0,
                        m >= 0,
                ;
            }
            (m as u128 / scale) as u32
        }
    }

    /// Whole part as a byte; nothing below zero or of a NaN, and at most 255.
    pub open spec fn spec_to_u8(self) -> u8 {
        if self.to_u32() > 255 {
            255
        } else {
            self.to_u32() as u8
        }
    }

    /// Whole part as a byte; nothing below zero or of a NaN, and at most 255.
    #[verifier::when_used_as_spec(spec_to_u8)]
    pub fn to_u8(self) -> (r: u8)
        ensures
            r == self.spec_to_u8(),
    {
        if self.to_u32() > 255 {
            255
        } else {
            self.to_u32() as u8
        }
    }

    /// The nearest integer, halves away from zero.
    #[verifier::opaque]
    pub open spec fn spec_round(self) -> Single {
        if !self.is_finite() {
            self
        } else {
            let whole = nearest_whole(crate::single::magnitude(self.code()));
            Single::encoded(self.is_negative(), crate::single::rounded(whole * unit(), 1))
        }
    }

    /// The nearest integer, halves away from zero.
    #[verifier::when_used_as_spec(spec_round)]
    pub fn round(self) -> (r: Single)
        ensures
            r == self.spec_round(),
    {
        proof {
            reveal(Single::spec_round);
        }
        if !self.is_finite() {
            return self;
        }
        let (m, t) = self.parts();
        let ghost size = crate::single::magnitude(self.code());
        proof {
            lemma2_to64();
            lemma_pow2_pos(149);
            lemma_pow2_pos(t as nat);
        }
        if t >= 149 {
            proof {
                let up = (t - 149) as nat;
                lemma_pow2_adds(up, 149);
                let k = (m * pow2(up)) as int;
                assert(size == k * unit()) by (nonlinear_arith)
                    requires
                        size == m * pow2(t as nat),
                        pow2(t as nat) == pow2(up) * pow2(149),
                        k == m * pow2(up),
                        unit() == pow2(149),
                ;
                lemma_pow2_pos(up);
                assert(k >= 0) by (nonlinear_arith)
                    requires
                        k == m * pow2(up),
                        m >= 0,
                        pow2(up) > 0,
                ;
                assert(2 * size + unit() == (2 * k + 1) * unit()) by (nonlinear_arith)
                    requires
                        size == k * unit(),
                ;
                lemma_common_factor(2 * k + 1, 2, unit());
                lemma_code_is_nearest(self.code());
            }
            return self;
        }
        let down: u32 = 149 - t;
        proof {
            lemma_pow2_adds(down as nat, t as nat);
            lemma_pow2_pos(down as nat);
            let p = pow2(down as nat) as int;
            let f = pow2(t as nat) as int;
            assert(2 * size + unit() == (2 * m + p) * f) by (nonlinear_arith)
                requires
                    size == m * f,
                    unit() == p * f,
            ;
            assert(2 * unit() == (2 * p) * f) by (nonlinear_arith)
                requires
                    unit() == p * f,
            ;
            lemma_common_factor(2 * m + p, 2 * p, f);
        }
        let whole: u64 = if down > 25 {
            proof {
                lemma_pow2_strictly_increases(25, down as nat);
                let p = pow2(down as nat) as int;
                assert((2 * m + p) / (2 * p) == 0) by (nonlinear_arith)
                    requires
                        0 <= 2 * m < p,
                ;
            }
            0
        } else {
            let scale: u128 = power_of_two(down);
            proof {
                if down < 25 {
                    lemma_pow2_strictly_increases(down as nat, 25);
                }
                assert((2 * m + scale) / (2 * scale) <= 2 * m + scale) by (nonlinear_arith)
                    requires
                        scale > 0,
                        m >= 0,
                ;
            }
            ((2 * m as u128 + scale) / (2 * scale)) as u64
        };
        let code = nearest_ratio(whole, 1);
        Single::encode(self.is_negative(), code)
    }

    /// What is left of `self` after as many whole `other` as fit, with the sign of `self`.
    #[verifier::opaque]
    pub open spec fn spec_remainder(self, other: Single) -> Single {
        if !self.is_finite() || other.is_nan() || other.equals(Single::zero()) {
            Single { bits: NAN_BITS }
        } else if !other.is_finite() {
            self
        } else {
            Single::encoded(
                self.is_negative(),
                crate::single::rounded(
                    crate::single::magnitude(self.code()) % crate::single::magnitude(other.code()),
                    1,
                ),
            )
        }
    }

    /// What is left of `self` after as many whole `other` as fit, with the sign of `self`.
    #[verifier::when_used_as_spec(spec_remainder)]
    pub fn remainder(self, other: Single) -> (r: Single)
        ensures
            r == self.spec_remainder(other),
    {
        proof {
            reveal(Single::spec_remainder);
        }
        if !self.is_finite() || other.is_nan() || other.equals(Single::zero()) {
            return Single { bits: NAN_BITS };
        }
        if !other.is_finite() {
            return self;
        }
        let (ma, ta) = self.parts();
        let (mb, tb) = other.parts();
        let ghost a = crate::single::magnitude(self.code());
        let ghost b = crate::single::magnitude(other.code());
        proof {
            lemma2_to64();
            lemma_pow2_pos(ta as nat);
            lemma_pow2_pos(tb as nat);
            assert(mb > 0);
        }
        if ta < tb {
            proof {
                let d = (tb - ta) as nat;
                lemma_pow2_adds(d, ta as nat);
                lemma_pow2_unfold(d);
                lemma_pow2_pos((d - 1) as nat);
                let f = pow2(ta as nat) as int;
                let p = pow2(d) as int;
                assert(a < b) by (nonlinear_arith)
                    requires
                        a == ma * f,
                        b == mb * (p * f),
                        ma < 0x100_0000,
                        mb >= 0x80_0000,
                        p >= 2,
                        f > 0,
                ;
                assert(0 <= a) by (nonlinear_arith)
                    requires
                        a == ma * f,
                        f > 0,
                        ma >= 0,
                ;
                lemma_small_mod(a as nat, b as nat);
                lemma_code_is_nearest(self.code());
            }
            return self;
        }
        let steps: u32 = ta - tb;
        let mut left: u32 = ma % mb;
        let mut i: u32 = 0;
        proof {
            assert(ma * pow2(0) == ma);
        }
        while i < steps
            invariant
                i <= steps,
                0 < mb < 0x100_0000,
                left == (ma * pow2(i as nat)) % (mb as int),
            decreases steps - i,
        {
            proof {
                lemma_pow2_unfold((i + 1) as nat);
                let x = (ma * pow2(i as nat)) as int;
                assert(ma * pow2((i + 1) as nat) == 2 * x) by (nonlinear_arith)
                    requires
                        x == ma * pow2(i as nat),
                        pow2((i + 1) as nat) == 2 * pow2(i as nat),
                ;
                lemma_mul_mod_noop_right(2, x, mb as int);
            }
            left = (2 * left) % mb;
            i = i + 1;
        }
        let code = round_scaled(left as u128, false, tb as i32);
        proof {
            lemma_pow2_adds(steps as nat, tb as nat);
            let f = pow2(tb as nat) as int;
            let x = (ma * pow2(steps as nat)) as int;
            lemma_pow2_pos(steps as nat);
            assert(x >= 0) by (nonlinear_arith)
                requires
                    x == ma * pow2(steps as nat),
                    pow2(steps as nat) > 0,
                    ma >= 0,
            ;
            assert(a == x * f) by (nonlinear_arith)
                requires
                    a == ma * (pow2(steps as nat) * f),
                    x == ma * pow2(steps as nat),
            ;
            lemma_common_remainder(x, mb as int, f);
            let num = left * f;
            lemma_pow2_adds(tb as nat, 600);
            assert(num * pow2(600) == left * (pow2((tb + 600) as nat) * 1)) by (nonlinear_arith)
                requires
                    num == left * f,
                    pow2((tb + 600) as nat) == f * pow2(600),
            ;
            assert(crate::single::bracketed(left as int, false, tb as int, num, 1));
            crate::single::lemma_rounded(num, 1, code as int);
        }
        Single::encode(self.is_negative(), code)
    }

    /// Remainder of a division whose quotient is rounded down for a positive `other`.
    pub open spec fn spec_rem_euclid(self, other: Single) -> Single {
        let left = self.remainder(other);
        if left.less(Single::zero()) {
            left.plus(other.abs())
        } else {
            left
        }
    }

    /// Remainder of a division whose quotient is rounded down for a positive `other`.
    #[verifier::when_used_as_spec(spec_rem_euclid)]
    pub fn rem_euclid(self, other: Single) -> (r: Single)
        ensures
            r == self.spec_rem_euclid(other),
    {
        let left = self.remainder(other);
        if left.less(Single::zero()) {
            left.plus(other.abs())
        } else {
            left
        }
    }

    /// Whether `self` comes before `other` in the total order of all numbers.
    pub open spec fn spec_precedes(self, other: Single) -> bool {
        total_rank(self) < total_rank(other)
    }

    /// Whether `self` comes before `other` in the total order of all numbers.
    #[verifier::when_used_as_spec(spec_precedes)]
    pub fn precedes(self, other: Single) -> (r: bool)
        ensures
            r == self.spec_precedes(other),
    {
        let a: i64 = self.total_position();
        let b: i64 = other.total_position();
        a < b
    }

    fn total_position(self) -> (r: i64)
        ensures
            r == total_rank(self),
    {
        let code: i64 = self.abs().to_bits() as i64;
        if self.is_negative() {
            -1 - code
        } else {
            code
        }
    }
}

} // verus!
