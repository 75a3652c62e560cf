//! IEEE 754 single-precision numbers as integers.
//!
//! A [`Single`] holds the 32 bits of a single-precision number. Every finite one
//! is an integer multiple of 2^-149, so its value is the integer
//! [`Single::value`] in that unit, and arithmetic is specified as exact integer
//! arithmetic followed by rounding to the nearest encoding, ties to even.

use vstd::arithmetic::power2::*;
use vstd::prelude::*;

verus! {

/// Encoding of positive infinity: the first one above every finite magnitude.
pub const INFINITE_CODE: u32 = 0x7f80_0000;

/// Weight of the sign bit.
pub const SIGN_WEIGHT: u32 = 0x8000_0000;

/// Encoding of the quiet NaN that arithmetic returns.
pub const NAN_BITS: u32 = 0x7fc0_0000;

/// Number of mantissa encodings that share one exponent.
pub const BINADE: u32 = 0x80_0000;

/// Magnitude that an encoding without its sign stands for, in units of 2^-149.
pub open spec fn magnitude(code: int) -> int {
    if code < BINADE {
        code
    } else {
        (code % (BINADE as int) + BINADE) * pow2((code / (BINADE as int) - 1) as nat)
    }
}

/// `code` is no further from `num / den` than the encoding below it, and wins a tie if even.
pub open spec fn not_below(num: int, den: int, code: int) -> bool {
    code > 0 ==> {
        &&& (magnitude(code - 1) + magnitude(code)) * den <= 2 * num
        &&& code % 2 == 1 ==> (magnitude(code - 1) + magnitude(code)) * den < 2 * num
    }
}

/// `code` is no further from `num / den` than the encoding above it, and wins a tie if even.
pub open spec fn not_above(num: int, den: int, code: int) -> bool {
    &&& 2 * num <= (magnitude(code) + magnitude(code + 1)) * den
    &&& code % 2 == 1 ==> 2 * num < (magnitude(code) + magnitude(code + 1)) * den
}

/// `code` encodes the number nearest to `num / den` units, ties to even.
/// Everything that rounds past the largest finite number is infinite.
pub open spec fn nearest(num: int, den: int, code: int) -> bool {
    &&& 0 <= code <= INFINITE_CODE
    &&& not_below(num, den, code)
    &&& code < INFINITE_CODE ==> not_above(num, den, code)
}

/// The encoding nearest to `num / den` units.
pub open spec fn rounded(num: int, den: int) -> int {
    choose|code: int| nearest(num, den, code)
}

pub proof fn lemma_magnitude(t: nat, m: int)
    requires
        BINADE <= m <= 2 * BINADE || (t == 0 && 0 <= m <= 2 * BINADE),
    ensures
        magnitude(t * BINADE + m) == m * pow2(t),
{
    lemma2_to64();
    let code = t * BINADE + m;
    if m == 2 * BINADE {
        assert(code / (BINADE as int) == t + 2);
        assert(code % (BINADE as int) == 0);
        lemma_pow2_unfold(t + 1);
        assert(BINADE * pow2(t + 1) == 2 * BINADE * pow2(t)) by (nonlinear_arith)
            requires
                pow2(t + 1) == 2 * pow2(t),
        ;
    } else if m >= BINADE {
        assert(code / (BINADE as int) == t + 1);
        assert(code % (BINADE as int) == m - BINADE);
    } else {
        assert(m * pow2(0) == m);
    }
}

/// The exponent and the mantissa of a finite encoding.
pub proof fn lemma_split(code: int) -> (r: (nat, int))
    requires
        0 <= code,
    ensures
        code == r.0 * BINADE + r.1,
        BINADE <= r.1 < 2 * BINADE || (r.0 == 0 && 0 <= r.1 < 2 * BINADE),
        magnitude(code) == r.1 * pow2(r.0),
        magnitude(code + 1) == (r.1 + 1) * pow2(r.0),
        magnitude(code) < magnitude(code + 1),
        r.0 == if code < BINADE { 0 } else { code / (BINADE as int) - 1 },
{
    let e = code / (BINADE as int);
    let r = if e == 0 {
        (0nat, code)
    } else {
        ((e - 1) as nat, code - (e - 1) * BINADE)
    };
    lemma_magnitude(r.0, r.1);
    lemma_magnitude(r.0, r.1 + 1);
    lemma_pow2_pos(r.0);
    assert(r.1 * pow2(r.0) < (r.1 + 1) * pow2(r.0)) by (nonlinear_arith)
        requires
            pow2(r.0) > 0,
    ;
    r
}

/// Larger encodings stand for larger magnitudes.
pub proof fn lemma_magnitude_increases(low: int, high: int)
    requires
        0 <= low < high,
    ensures
        magnitude(low) < magnitude(high),
    decreases high - low,
{
    lemma_split(high - 1);
    if low < high - 1 {
        lemma_magnitude_increases(low, high - 1);
    }
}

/// At most one encoding is nearest.
pub proof fn lemma_nearest_unique(num: int, den: int, a: int, b: int)
    requires
        den > 0,
        nearest(num, den, a),
        nearest(num, den, b),
    ensures
        a == b,
{
    lemma_nearest_ordered(num, den, a, b);
    lemma_nearest_ordered(num, den, b, a);
}

proof fn lemma_nearest_ordered(num: int, den: int, a: int, b: int)
    requires
        den > 0,
        nearest(num, den, a),
        nearest(num, den, b),
    ensures
        b <= a,
{
    let lower = magnitude(a) + magnitude(a + 1);
    let upper = magnitude(b - 1) + magnitude(b);
    if a + 1 < b {
        lemma_magnitude_increases(a, b - 1);
        lemma_magnitude_increases(a + 1, b);
        assert(lower * den < upper * den) by (nonlinear_arith)
            requires
                lower < upper,
                den > 0,
        ;
    }
}

/// A nearest encoding is the one that `rounded` names.
pub proof fn lemma_rounded(num: int, den: int, code: int)
    requires
        den > 0,
        nearest(num, den, code),
    ensures
        rounded(num, den) == code,
{
    lemma_nearest_unique(num, den, code, rounded(num, den));
}

/// The number `num / den` lies at `p * 2^k` units, or strictly between that and
/// `(p + 1) * 2^k` when `inexact`. The factor 2^600 keeps the exponents natural.
pub open spec fn bracketed(p: int, inexact: bool, k: int, num: int, den: int) -> bool {
    let step = pow2((k + 600) as nat) * den;
    if inexact {
        p * step < num * pow2(600) < (p + 1) * step
    } else {
        num * pow2(600) == p * step
    }
}

/// The integer step of rounding: of `n = m * s + rem` or a little above it, in
/// multiples of `v`, the nearest multiple of `s * v`.
proof fn lemma_round_step(
    p: int,
    inexact: bool,
    v: int,
    scaled: int,
    m: int,
    half: int,
    rem: int,
    up: bool,
)
    requires
        v > 0,
        half > 0,
        m >= 0,
        p == m * (2 * half) + rem,
        0 <= rem < 2 * half,
        up == (rem > half || (rem == half && (inexact || m % 2 == 1))),
        if inexact {
            p * v < scaled < (p + 1) * v
        } else {
            scaled == p * v
        },
    ensures
        ({
            let r = if up { m + 1 } else { m };
            &&& (2 * r - 1) * half * v <= scaled
            &&& r % 2 == 1 ==> (2 * r - 1) * half * v < scaled
            &&& scaled <= (2 * r + 1) * half * v
            &&& r % 2 == 1 ==> scaled < (2 * r + 1) * half * v
            &&& !up ==> r * (2 * half) * v <= scaled
        }),
{
    let r: int = if up { m + 1 } else { m };
    let low = (2 * r - 1) * half;
    let high = (2 * r + 1) * half;
    assert(low == m * (2 * half) + if up { half } else { -half }) by (nonlinear_arith)
        requires
            low == (2 * r - 1) * half,
            r == if up { m + 1 } else { m },
    ;
    assert(high == m * (2 * half) + if up { 3 * half } else { half }) by (nonlinear_arith)
        requires
            high == (2 * r + 1) * half,
            r == if up { m + 1 } else { m },
    ;
    assert(low <= p ==> low * v <= p * v) by (nonlinear_arith)
        requires
            v > 0,
    ;
    assert(low < p ==> low * v < p * v) by (nonlinear_arith)
        requires
            v > 0,
    ;
    assert(p < high ==> p * v < high * v) by (nonlinear_arith)
        requires
            v > 0,
    ;
    assert(p <= high ==> p * v <= high * v) by (nonlinear_arith)
        requires
            v > 0,
    ;
    assert(p + 1 <= high ==> (p + 1) * v <= high * v) by (nonlinear_arith)
        requires
            v > 0,
    ;
    let base = m * (2 * half);
    assert(base <= p ==> base * v <= p * v) by (nonlinear_arith)
        requires
            v > 0,
    ;
}

/// From a rounded mantissa to the nearest encoding.
proof fn lemma_round_code(
    t: nat,
    r: int,
    from_above: bool,
    num: int,
    den: int,
    unit: int,
)
    requires
        den > 0,
        BINADE <= r <= 2 * BINADE || (t == 0 && 0 <= r <= 2 * BINADE),
        unit == pow2(t) * pow2(600) * den,
        r > 0 ==> (2 * r - 1) * unit <= 2 * (num * pow2(600)),
        r > 0 && r % 2 == 1 ==> (2 * r - 1) * unit < 2 * (num * pow2(600)),
        2 * (num * pow2(600)) <= (2 * r + 1) * unit,
        r % 2 == 1 ==> 2 * (num * pow2(600)) < (2 * r + 1) * unit,
        from_above ==> r * unit <= num * pow2(600),
        t > 0 && r == BINADE ==> from_above,
    ensures
        not_below(num, den, t * BINADE + r),
        not_above(num, den, t * BINADE + r),
{
    let code = t * BINADE + r;
    let big = pow2(600) as int;
    let scale = pow2(t) as int;
    lemma_pow2_pos(600);
    lemma_pow2_pos(t);
    lemma_magnitude(t, r);
    assert((t * BINADE) % 2 == 0) by (nonlinear_arith)
        requires
            BINADE == 0x80_0000u32,
    ;
    assert(code % 2 == r % 2);
    assert(unit == scale * den * big) by (nonlinear_arith)
        requires
            unit == scale * big * den,
    ;
    // above
    let above = magnitude(code) + magnitude(code + 1);
    if r == 2 * BINADE {
        lemma_split(code + 1);
        lemma_magnitude(t + 1, BINADE + 1);
        lemma_pow2_unfold(t + 1);
        assert((BINADE + 1) * pow2(t + 1) == (2 * BINADE + 2) * scale) by (nonlinear_arith)
            requires
                pow2(t + 1) == 2 * scale,
        ;
        assert(above >= (2 * r + 1) * scale) by (nonlinear_arith)
            requires
                above == r * scale + (r + 2) * scale,
                scale > 0,
        ;
    } else {
        lemma_magnitude(t, r + 1);
        assert(above == (2 * r + 1) * scale) by (nonlinear_arith)
            requires
                above == r * scale + (r + 1) * scale,
        ;
    }
    assert((2 * r + 1) * unit <= above * den * big) by (nonlinear_arith)
        requires
            above >= (2 * r + 1) * scale,
            unit == scale * den * big,
            den > 0,
            big > 0,
    ;
    assert((2 * num) * big == 2 * (num * big)) by (nonlinear_arith);
    lemma_cancel(2 * num, above * den, big);
    // below
    if code > 0 {
        let below = magnitude(code - 1) + magnitude(code);
        if r > BINADE || t == 0 {
            lemma_magnitude(t, r - 1);
            assert(below == (2 * r - 1) * scale) by (nonlinear_arith)
                requires
                    below == (r - 1) * scale + r * scale,
            ;
            assert(below * den * big == (2 * r - 1) * unit) by (nonlinear_arith)
                requires
                    below == (2 * r - 1) * scale,
                    unit == scale * den * big,
            ;
        } else {
            lemma_split(code - 1);
            assert(below < 2 * (r * scale));
            assert(below * den * big < 2 * (r * unit)) by (nonlinear_arith)
                requires
                    below < 2 * (r * scale),
                    unit == scale * den * big,
                    den > 0,
                    big > 0,
            ;
        }
        lemma_cancel(below * den, 2 * num, big);
    }
}

proof fn lemma_cancel(a: int, b: int, factor: int)
    by (nonlinear_arith)
    requires
        factor > 0,
    ensures
        a * factor <= b * factor ==> a <= b,
        a * factor < b * factor ==> a < b,
{
}

/// Rounding past the largest finite number gives infinity.
proof fn lemma_saturate(num: int, den: int, code: int)
    requires
        den > 0,
        code >= INFINITE_CODE,
        not_below(num, den, code),
    ensures
        nearest(num, den, INFINITE_CODE as int),
{
    let top = INFINITE_CODE as int;
    if code > top {
        lemma_magnitude_increases(top - 1, code - 1);
        lemma_magnitude_increases(top, code);
        let a = magnitude(top - 1) + magnitude(top);
        let b = magnitude(code - 1) + magnitude(code);
        assert(a * den < b * den) by (nonlinear_arith)
            requires
                a < b,
                den > 0,
        ;
    }
}

/// The number of binary digits of a positive number, less one.
fn floor_log2(p: u128) -> (len: u32)
    requires
        p > 0,
    ensures
        len < 128,
        pow2(len as nat) <= p < 2 * pow2(len as nat),
{
    let mut q: u128 = p;
    let mut len: u32 = 0;
    proof {
        lemma2_to64();
        lemma_pow2_adds(64, 64);
        assert(0x1_0000_0000_0000_0000int * 0x1_0000_0000_0000_0000int > u128::MAX);
        assert(pow2(0) * q == q) by (nonlinear_arith)
            requires
                pow2(0) == 1,
        ;
        assert(pow2(0) * (q + 1) == q + 1) by (nonlinear_arith)
            requires
                pow2(0) == 1,
        ;
    }
    if q >= 0x1_0000_0000_0000_0000 {
        proof {
            lemma_drop_digits(p as int, q as int, len as nat, 64);
        }
        q = q / 0x1_0000_0000_0000_0000;
        len = len + 64;
    }
    if q >= 0x1_0000_0000 {
        proof {
            lemma_drop_digits(p as int, q as int, len as nat, 32);
        }
        q = q / 0x1_0000_0000;
        len = len + 32;
    }
    if q >= 0x1_0000 {
        proof {
            lemma_drop_digits(p as int, q as int, len as nat, 16);
        }
        q = q / 0x1_0000;
        len = len + 16;
    }
    if q >= 0x100 {
        proof {
            lemma_drop_digits(p as int, q as int, len as nat, 8);
        }
        q = q / 0x100;
        len = len + 8;
    }
    if q >= 0x10 {
        proof {
            lemma_drop_digits(p as int, q as int, len as nat, 4);
        }
        q = q / 0x10;
        len = len + 4;
    }
    if q >= 4 {
        proof {
            lemma_drop_digits(p as int, q as int, len as nat, 2);
        }
        q = q / 4;
        len = len + 2;
    }
    if q >= 2 {
        proof {
            lemma_drop_digits(p as int, q as int, len as nat, 1);
        }
        q = q / 2;
        len = len + 1;
    }
    assert(pow2(len as nat) * q == pow2(len as nat)) by (nonlinear_arith)
        requires
            q == 1,
    ;
    assert(pow2(len as nat) * (q + 1) == 2 * pow2(len as nat)) by (nonlinear_arith)
        requires
            q == 1,
    ;
    len
}

/// The number of binary digits of a positive number, less one.
fn narrow_log2(p: u64) -> (len: u32)
    requires
        p > 0,
    ensures
        len < 64,
        pow2(len as nat) <= p < 2 * pow2(len as nat),
{
    let mut q: u64 = p;
    let mut len: u32 = 0;
    proof {
        lemma2_to64();
        assert(pow2(0) * q == q) by (nonlinear_arith)
            requires
                pow2(0) == 1,
        ;
        assert(pow2(0) * (q + 1) == q + 1) by (nonlinear_arith)
            requires
                pow2(0) == 1,
        ;
    }
    if q >= 0x1_0000_0000 {
        proof {
            lemma_drop_digits(p as int, q as int, len as nat, 32);
        }
        q = q / 0x1_0000_0000;
        len = len + 32;
    }
    if q >= 0x1_0000 {
        proof {
            lemma_drop_digits(p as int, q as int, len as nat, 16);
        }
        q = q / 0x1_0000;
        len = len + 16;
    }
    if q >= 0x100 {
        proof {
            lemma_drop_digits(p as int, q as int, len as nat, 8);
        }
        q = q / 0x100;
        len = len + 8;
    }
    if q >= 0x10 {
        proof {
            lemma_drop_digits(p as int, q as int, len as nat, 4);
        }
        q = q / 0x10;
        len = len + 4;
    }
    if q >= 4 {
        proof {
            lemma_drop_digits(p as int, q as int, len as nat, 2);
        }
        q = q / 4;
        len = len + 2;
    }
    if q >= 2 {
        proof {
            lemma_drop_digits(p as int, q as int, len as nat, 1);
        }
        q = q / 2;
        len = len + 1;
    }
    assert(pow2(len as nat) * q == pow2(len as nat)) by (nonlinear_arith)
        requires
            q == 1,
    ;
    assert(pow2(len as nat) * (q + 1) == 2 * pow2(len as nat)) by (nonlinear_arith)
        requires
            q == 1,
    ;
    len
}

/// A number that lies within one step of `q` steps of `2^len` lies within one step of
/// the quotient, with steps that are `2^more` times as wide.
proof fn lemma_drop_digits(p: int, q: int, len: nat, more: nat)
    requires
        q >= 0,
        pow2(len) * q <= p < pow2(len) * (q + 1),
    ensures
        pow2(len + more) * (q / (pow2(more) as int)) <= p < pow2(len + more) * (q / (pow2(more) as int) + 1),
{
    let w = pow2(len) as int;
    let f = pow2(more) as int;
    lemma_pow2_pos(len);
    lemma_pow2_pos(more);
    lemma_pow2_adds(len, more);
    lemma_fundamental(q, f);
    let d = q / f;
    assert((w * f) * d <= w * q) by (nonlinear_arith)
        requires
            d * f <= q,
            w > 0,
    ;
    assert(w * (q + 1) <= (w * f) * (d + 1)) by (nonlinear_arith)
        requires
            q + 1 <= d * f + f,
            w > 0,
    ;
}

/// A power of two.
pub(crate) fn power_of_two(n: u32) -> (r: u128)
    requires
        n <= 126,
    ensures
        r == pow2(n as nat),
        0 < r <= 0x4000_0000_0000_0000_0000_0000_0000_0000,
{
    let low: u32 = if n < 64 { n } else { n - 64 };
    proof {
        lemma2_to64();
        lemma_pow2_adds(32, 30);
        lemma_pow2_pos(low as nat);
        if low < 62 {
            lemma_pow2_strictly_increases(low as nat, 62);
        }
        if low == 63 {
            lemma_pow2_unfold(63);
        }
        lemma_pow2_adds(low as nat, 64);
        vstd::bits::lemma_u64_shl_is_mul(1, low as u64);
    }
    let r: u128 = (1u64 << (low as u64)) as u128;
    if n < 64 { r } else { r * 0x1_0000_0000_0000_0000 }
}

/// A power of two.
fn narrow_power_of_two(n: u32) -> (r: u64)
    requires
        n <= 62,
    ensures
        r == pow2(n as nat),
        0 < r <= 0x4000_0000_0000_0000,
{
    proof {
        lemma2_to64();
        lemma_pow2_adds(32, 30);
        lemma_pow2_pos(n as nat);
        if n < 62 {
            lemma_pow2_strictly_increases(n as nat, 62);
        }
        vstd::bits::lemma_u64_shl_is_mul(1, n as u64);
    }
    1u64 << (n as u64)
}

/// Encodes the number nearest to `p * 2^k` units, or to one strictly between
/// that and `(p + 1) * 2^k` units when `inexact`.
fn round_narrow(p: u64, inexact: bool, k: i32) -> (code: u32)
    requires
        p < 0x4000_0000_0000_0000,
        inexact ==> p >= 2 * BINADE,
        -500 <= k <= 500,
    ensures
        code <= INFINITE_CODE,
        forall|num: int, den: int| den > 0 && #[trigger] bracketed(
            p as int,
            inexact,
            k as int,
            num,
            den,
        )
            ==> nearest(num, den, code as int),
{
    if p == 0 {
        proof {
            lemma_pow2_pos(600);
            assert forall|num: int, den: int| den > 0 && #[trigger] bracketed(
                p as int,
                inexact,
                k as int,
                num,
                den,
            )
                implies nearest(num, den, 0) by {
                let step = pow2((k + 600) as nat) * den;
                assert(0 * step == 0);
                assert(num == 0) by (nonlinear_arith)
                    requires
                        num * pow2(600) == 0,
                        pow2(600) > 0,
                ;
            }
        }
        return 0;
    }
    let len: i32 = narrow_log2(p) as i32;
    proof {
        lemma2_to64();
        lemma_pow2_adds(32, 30);
        if len >= 62 {
            if len > 62 {
                lemma_pow2_strictly_increases(62, len as nat);
            }
        }
    }
    let t: i32 = if len - 23 + k > 0 { len - 23 + k } else { 0 };
    assert(t * BINADE <= 700 * 0x80_0000) by (nonlinear_arith)
        requires
            0 <= t <= 700,
            BINADE == 0x80_0000,
    ;
    let base: u64 = (t as u64) * (BINADE as u64);
    let shift: i32 = t - k;
    if shift <= 0 {
        let factor = narrow_power_of_two((-shift) as u32);
        proof {
            lemma_exact(p as int, len as nat, k as int, t as nat, factor as int);
        }
        let m: u64 = p * factor;
        let wide: u64 = base + (m as u64);
        proof {
            assert(!inexact);
            assert forall|num: int, den: int| den > 0 && #[trigger] bracketed(
                p as int,
                inexact,
                k as int,
                num,
                den,
            )
                implies nearest(num, den, if wide < INFINITE_CODE { wide as int } else { INFINITE_CODE as int }) by {
                lemma_round_exact(p as int, k as int, t as nat, factor as int, m as int, num, den);
                if wide >= INFINITE_CODE {
                    lemma_saturate(num, den, wide as int);
                }
            }
        }
        return if wide < INFINITE_CODE as u64 { wide as u32 } else { INFINITE_CODE };
    }
    if shift > len + 2 {
        proof {
            assert forall|num: int, den: int| den > 0 && #[trigger] bracketed(
                p as int,
                inexact,
                k as int,
                num,
                den,
            )
                implies nearest(num, den, 0) by {
                lemma_round_tiny(p as int, inexact, len as nat, k as int, num, den);
            }
        }
        return 0;
    }
    let half = narrow_power_of_two((shift - 1) as u32);
    proof {
        lemma_pow2_unfold(shift as nat);
    }
    let full: u64 = 2 * half;
    let m: u64 = p >> (shift as u64);
    proof {
        vstd::bits::lemma_u64_shr_is_div(p, shift as u64);
        lemma_fundamental(p as int, full as int);
    }
    let rem: u64 = p - m * full;
    let up: bool = rem > half || (rem == half && (inexact || m % 2 == 1));
    proof {
        lemma_mantissa(p as int, len as nat, k as int, t as nat, full as int);
    }
    let r: u64 = if up { m + 1 } else { m };
    let wide: u64 = base + (r as u64);
    proof {
        assert forall|num: int, den: int| den > 0 && #[trigger] bracketed(
            p as int,
            inexact,
            k as int,
            num,
            den,
        )
            implies nearest(num, den, if wide < INFINITE_CODE { wide as int } else { INFINITE_CODE as int }) by {
            let step = pow2((k + 600) as nat) * den;
            lemma_pow2_pos((k + 600) as nat);
            assert(step > 0) by (nonlinear_arith)
                requires
                    step == pow2((k + 600) as nat) * den,
                    pow2((k + 600) as nat) > 0,
                    den > 0,
            ;
            lemma_fundamental(p as int, full as int);
            lemma_round_step(
                p as int,
                inexact,
                step,
                num * pow2(600),
                m as int,
                half as int,
                rem as int,
                up,
            );
            let unit = pow2(t as nat) * pow2(600) * den;
            assert(unit == full * step) by {
                lemma_pow2_adds((k + 600) as nat, shift as nat);
                lemma_pow2_adds(t as nat, 600);
                assert(unit == full * step) by (nonlinear_arith)
                    requires
                        unit == pow2(t as nat) * pow2(600) * den,
                        pow2(t as nat) * pow2(600) == pow2((k + 600) as nat) * full,
                        step == pow2((k + 600) as nat) * den,
                ;
            }
            let ri = r as int;
            assert((2 * ri - 1) * unit == 2 * ((2 * ri - 1) * half * step)) by (nonlinear_arith)
                requires
                    unit == 2 * half * step,
            ;
            assert((2 * ri + 1) * unit == 2 * ((2 * ri + 1) * half * step)) by (nonlinear_arith)
                requires
                    unit == 2 * half * step,
            ;
            assert(ri * (2 * half) * step == ri * unit) by (nonlinear_arith)
                requires
                    unit == 2 * half * step,
            ;
            lemma_round_code(t as nat, ri, !up, num, den, unit);
            if wide >= INFINITE_CODE {
                lemma_saturate(num, den, wide as int);
            }
        }
    }
    if wide < INFINITE_CODE as u64 { wide as u32 } else { INFINITE_CODE }
}

/// Encodes the number nearest to `p * 2^k` units, or to one strictly between
/// that and `(p + 1) * 2^k` units when `inexact`.
pub(crate) fn round_scaled(p: u128, inexact: bool, k: i32) -> (code: u32)
    requires
        p < 0x100_0000_0000_0000_0000_0000_0000_0000,
        inexact ==> p >= 2 * BINADE,
        -500 <= k <= 500,
    ensures
        code <= INFINITE_CODE,
        forall|num: int, den: int| den > 0 && #[trigger] bracketed(
            p as int,
            inexact,
            k as int,
            num,
            den,
        )
            ==> nearest(num, den, code as int),
{
    if p < 0x4000_0000_0000_0000 {
        return round_narrow(p as u64, inexact, k);
    }
    let len: i32 = floor_log2(p) as i32;
    proof {
        lemma2_to64();
        lemma_pow2_adds(64, 56);
        lemma_pow2_adds(32, 24);
        if len >= 120 {
            if len > 120 {
                lemma_pow2_strictly_increases(120, len as nat);
            }
            assert(pow2(120) == 0x100_0000_0000_0000_0000_0000_0000_0000int) by {
                assert(0x1_0000_0000_0000_0000int * 0x100_0000_0000_0000int
                    == 0x100_0000_0000_0000_0000_0000_0000_0000int);
            }
        }
    }
    let t: i32 = if len - 23 + k > 0 { len - 23 + k } else { 0 };
    assert(t * BINADE <= 700 * 0x80_0000) by (nonlinear_arith)
        requires
            0 <= t <= 700,
            BINADE == 0x80_0000,
    ;
    let base: u64 = (t as u64) * (BINADE as u64);
    let shift: i32 = t - k;
    if shift <= 0 {
        let factor = power_of_two((-shift) as u32);
        proof {
            lemma_exact(p as int, len as nat, k as int, t as nat, factor as int);
        }
        let m: u128 = p * factor;
        let wide: u64 = base + (m as u64);
        proof {
            assert(!inexact);
            assert forall|num: int, den: int| den > 0 && #[trigger] bracketed(
                p as int,
                inexact,
                k as int,
                num,
                den,
            )
                implies nearest(num, den, if wide < INFINITE_CODE { wide as int } else { INFINITE_CODE as int }) by {
                lemma_round_exact(p as int, k as int, t as nat, factor as int, m as int, num, den);
                if wide >= INFINITE_CODE {
                    lemma_saturate(num, den, wide as int);
                }
            }
        }
        return if wide < INFINITE_CODE as u64 { wide as u32 } else { INFINITE_CODE };
    }
    if shift > len + 2 {
        proof {
            assert forall|num: int, den: int| den > 0 && #[trigger] bracketed(
                p as int,
                inexact,
                k as int,
                num,
                den,
            )
                implies nearest(num, den, 0) by {
                lemma_round_tiny(p as int, inexact, len as nat, k as int, num, den);
            }
        }
        return 0;
    }
    let half = power_of_two((shift - 1) as u32);
    proof {
        lemma_pow2_unfold(shift as nat);
    }
    let full: u128 = 2 * half;
    let m: u128 = p >> (shift as u128);
    proof {
        vstd::bits::lemma_u128_shr_is_div(p, shift as u128);
        lemma_fundamental(p as int, full as int);
    }
    let rem: u128 = p - m * full;
    let up: bool = rem > half || (rem == half && (inexact || m % 2 == 1));
    proof {
        lemma_mantissa(p as int, len as nat, k as int, t as nat, full as int);
    }
    let r: u128 = if up { m + 1 } else { m };
    let wide: u64 = base + (r as u64);
    proof {
        assert forall|num: int, den: int| den > 0 && #[trigger] bracketed(
            p as int,
            inexact,
            k as int,
            num,
            den,
        )
            implies nearest(num, den, if wide < INFINITE_CODE { wide as int } else { INFINITE_CODE as int }) by {
            let step = pow2((k + 600) as nat) * den;
            lemma_pow2_pos((k + 600) as nat);
            assert(step > 0) by (nonlinear_arith)
                requires
                    step == pow2((k + 600) as nat) * den,
                    pow2((k + 600) as nat) > 0,
                    den > 0,
            ;
            lemma_fundamental(p as int, full as int);
            lemma_round_step(
                p as int,
                inexact,
                step,
                num * pow2(600),
                m as int,
                half as int,
                rem as int,
                up,
            );
            let unit = pow2(t as nat) * pow2(600) * den;
            assert(unit == full * step) by {
                lemma_pow2_adds((k + 600) as nat, shift as nat);
                lemma_pow2_adds(t as nat, 600);
                assert(unit == full * step) by (nonlinear_arith)
                    requires
                        unit == pow2(t as nat) * pow2(600) * den,
                        pow2(t as nat) * pow2(600) == pow2((k + 600) as nat) * full,
                        step == pow2((k + 600) as nat) * den,
                ;
            }
            let ri = r as int;
            assert((2 * ri - 1) * unit == 2 * ((2 * ri - 1) * half * step)) by (nonlinear_arith)
                requires
                    unit == 2 * half * step,
            ;
            assert((2 * ri + 1) * unit == 2 * ((2 * ri + 1) * half * step)) by (nonlinear_arith)
                requires
                    unit == 2 * half * step,
            ;
            assert(ri * (2 * half) * step == ri * unit) by (nonlinear_arith)
                requires
                    unit == 2 * half * step,
            ;
            lemma_round_code(t as nat, ri, !up, num, den, unit);
            if wide >= INFINITE_CODE {
                lemma_saturate(num, den, wide as int);
            }
        }
    }
    if wide < INFINITE_CODE as u64 { wide as u32 } else { INFINITE_CODE }
}

proof fn lemma_fundamental(p: int, d: int)
    by (nonlinear_arith)
    requires
        p >= 0,
        d > 0,
    ensures
        p == (p / d) * d + p % d,
        0 <= p % d < d,
        0 <= p / d <= p,
{
}

/// The mantissa that is left after dropping the low digits has 24 of them, or
/// fewer at the smallest exponent.
proof fn lemma_mantissa(p: int, len: nat, k: int, t: nat, full: int)
    requires
        pow2(len) <= p < 2 * pow2(len),
        len < 128,
        t == if len - 23 + k > 0 { len - 23 + k } else { 0 },
        t - k > 0,
        full == pow2((t - k) as nat),
    ensures
        0 <= p / full < 2 * BINADE,
        t > 0 ==> p / full >= BINADE,
{
    let shift = (t - k) as nat;
    lemma2_to64();
    lemma_pow2_pos(shift);
    lemma_fundamental(p, full);
    if shift > len {
        lemma_pow2_strictly_increases(len, shift);
        lemma_pow2_unfold(shift);
        let below = (shift - 1) as nat;
        if len < below {
            lemma_pow2_strictly_increases(len, below);
        }
        assert(p / full == 0) by (nonlinear_arith)
            requires
                0 <= p < full,
        ;
    } else {
        let keep = (len - shift) as nat;
        lemma_pow2_adds(keep, shift);
        if keep < 23 {
            lemma_pow2_strictly_increases(keep, 23);
        }
        let w = pow2(keep) as int;
        assert(w <= p / full < 2 * w) by (nonlinear_arith)
            requires
                w * full <= p < 2 * (w * full),
                full > 0,
        ;
    }
}

proof fn lemma_exact(p: int, len: nat, k: int, t: nat, factor: int)
    requires
        pow2(len) <= p < 2 * pow2(len),
        len < 128,
        t == if len - 23 + k > 0 { len - 23 + k } else { 0 },
        t - k <= 0,
        factor == pow2((k - t) as nat),
    ensures
        len <= 23,
        p < 2 * BINADE,
        p * factor < 2 * BINADE,
        t > 0 ==> p * factor >= BINADE,
{
    lemma2_to64();
    let lift = (k - t) as nat;
    assert(len + lift <= 23);
    lemma_pow2_adds(len, lift);
    if len < 23 {
        lemma_pow2_strictly_increases(len, 23);
    }
    if len + lift < 23 {
        lemma_pow2_strictly_increases(len + lift, 23);
    }
    lemma_pow2_pos(lift);
    let w = pow2(len) as int;
    assert(w * factor <= p * factor < 2 * (w * factor)) by (nonlinear_arith)
        requires
            w <= p < 2 * w,
            factor > 0,
    ;
}

proof fn lemma_round_exact(p: int, k: int, t: nat, factor: int, m: int, num: int, den: int)
    requires
        den > 0,
        -500 <= k,
        k >= t,
        factor == pow2((k - t) as nat),
        m == p * factor,
        BINADE <= m < 2 * BINADE || (t == 0 && 0 <= m < 2 * BINADE),
        bracketed(p, false, k, num, den),
    ensures
        not_below(num, den, t * BINADE + m),
        not_above(num, den, t * BINADE + m),
{
    let code = t * BINADE + m;
    let big = pow2(600) as int;
    let scale = pow2(t) as int;
    let wide = pow2((k + 600) as nat) as int;
    lemma_pow2_pos(600);
    lemma_pow2_adds(t, 600);
    lemma_pow2_adds((t + 600) as nat, (k - t) as nat);
    assert(num * big == m * scale * den * big) by (nonlinear_arith)
        requires
            num * big == p * (wide * den),
            wide == scale * big * factor,
            m == p * factor,
    ;
    assert(num == m * scale * den) by (nonlinear_arith)
        requires
            num * big == m * scale * den * big,
            big > 0,
    ;
    lemma_magnitude(t, m);
    lemma_split(code);
    let here = magnitude(code);
    assert(2 * num == (here + here) * den) by (nonlinear_arith)
        requires
            num == here * den,
    ;
    let next = magnitude(code + 1);
    assert((here + here) * den < (here + next) * den) by (nonlinear_arith)
        requires
            here < next,
            den > 0,
    ;
    if code > 0 {
        lemma_split(code - 1);
        let before = magnitude(code - 1);
        assert((before + here) * den < (here + here) * den) by (nonlinear_arith)
            requires
                before < here,
                den > 0,
        ;
    }
}

/// Less than a quarter of a unit rounds to zero.
proof fn lemma_round_tiny(p: int, inexact: bool, len: nat, k: int, num: int, den: int)
    requires
        den > 0,
        pow2(len) <= p < 2 * pow2(len),
        -500 <= k,
        -k > len + 2,
        bracketed(p, inexact, k, num, den),
    ensures
        nearest(num, den, 0),
{
    let wide = pow2((k + 600) as nat) as int;
    let step = wide * den;
    let big = pow2(600) as int;
    lemma_pow2_pos((k + 600) as nat);
    lemma_pow2_pos(600);
    lemma_pow2_adds((k + 600) as nat, (-k) as nat);
    lemma_pow2_adds(len, 2);
    lemma2_to64();
    if len + 2 < -k {
        lemma_pow2_strictly_increases((len + 2) as nat, (-k) as nat);
    }
    let lift = pow2((-k) as nat) as int;
    let w = pow2(len) as int;
    assert(4 * w <= lift);
    lemma_pow2_pos(len);
    assert((p + 1) <= 2 * w);
    assert((p + 1) * step * 2 <= big * den) by (nonlinear_arith)
        requires
            p + 1 <= 2 * w,
            4 * w <= lift,
            wide * lift == big,
            step == wide * den,
            wide > 0,
            den > 0,
            w > 0,
            p >= 0,
    ;
    assert(step > 0) by (nonlinear_arith)
        requires
            step == wide * den,
            wide > 0,
            den > 0,
    ;
    assert(p * step < (p + 1) * step) by (nonlinear_arith)
        requires
            step > 0,
    ;
    assert((2 * num) * big <= den * big) by (nonlinear_arith)
        requires
            num * big < (p + 1) * step,
            (p + 1) * step * 2 <= big * den,
    ;
    lemma_cancel(2 * num, den, big);
    assert(magnitude(0) + magnitude(1) == 1);
    assert((magnitude(0) + magnitude(1)) * den == den);
}

/// A single-precision number, held by its bits. `==` compares the bits;
/// [`Single::equals`] compares the numbers.
#[derive(Clone, Copy, Debug, PartialEq, Eq, Hash, Structural)]
pub struct Single {
    /// Sign, exponent and mantissa in IEEE 754 order.
    pub bits: u32,
}

impl Single {
    /// Encoding without the sign.
    pub open spec fn code(self) -> int {
        (self.bits % SIGN_WEIGHT) as int
    }

    /// Whether the sign bit is set.
    pub open spec fn spec_is_negative(self) -> bool {
        self.bits >= SIGN_WEIGHT
    }

    /// Whether this is not a number.
    pub open spec fn spec_is_nan(self) -> bool {
        self.code() > INFINITE_CODE
    }

    /// Whether this is neither infinite nor a NaN.
    pub open spec fn spec_is_finite(self) -> bool {
        self.code() < INFINITE_CODE
    }

    /// Position in the order of all numbers; both zeros share one.
    pub open spec fn rank(self) -> int {
        if self.spec_is_negative() {
            -self.code()
        } else {
            self.code()
        }
    }

    /// Value of a finite number in units of 2^-149.
    pub open spec fn value(self) -> int {
        if self.spec_is_negative() {
            -magnitude(self.code())
        } else {
            magnitude(self.code())
        }
    }

    /// The number with the given sign and encoding.
    pub open spec fn encoded(negative: bool, code: int) -> Single {
        Single { bits: (code + if negative { SIGN_WEIGHT as int } else { 0 }) as u32 }
    }

    /// The number with the given bits.
    pub fn from_bits(bits: u32) -> (r: Single)
        ensures
            r == (Single { bits }),
    {
        Single { bits }
    }

    /// The bits of this number.
    pub fn to_bits(self) -> (bits: u32)
        ensures
            bits == self.bits,
    {
        self.bits
    }

    pub(crate) fn encode(negative: bool, code: u32) -> (r: Single)
        requires
            code <= INFINITE_CODE,
        ensures
            r == Single::encoded(negative, code as int),
            r.code() == code,
            r.spec_is_negative() == negative,
    {
        if negative {
            Single { bits: code + SIGN_WEIGHT }
        } else {
            Single { bits: code }
        }
    }

    /// Whether the sign bit is set.
    #[verifier::when_used_as_spec(spec_is_negative)]
    pub fn is_negative(self) -> (r: bool)
        ensures
            r == self.spec_is_negative(),
    {
        self.bits >= SIGN_WEIGHT
    }

    /// Whether this is not a number.
    #[verifier::when_used_as_spec(spec_is_nan)]
    pub fn is_nan(self) -> (r: bool)
        ensures
            r == self.spec_is_nan(),
    {
        self.bits % SIGN_WEIGHT > INFINITE_CODE
    }

    /// Whether this is neither infinite nor a NaN.
    #[verifier::when_used_as_spec(spec_is_finite)]
    pub fn is_finite(self) -> (r: bool)
        ensures
            r == self.spec_is_finite(),
    {
        self.bits % SIGN_WEIGHT < INFINITE_CODE
    }

    fn position(self) -> (r: i64)
        ensures
            r == self.rank(),
    {
        let code: i64 = (self.bits % SIGN_WEIGHT) as i64;
        if self.bits >= SIGN_WEIGHT { -code } else { code }
    }

    /// `self < other`; false when either is a NaN.
    pub open spec fn spec_less(self, other: Single) -> bool {
        !self.spec_is_nan() && !other.spec_is_nan() && self.rank() < other.rank()
    }

    /// `self < other`; false when either is a NaN.
    #[verifier::when_used_as_spec(spec_less)]
    pub fn less(self, other: Single) -> (r: bool)
        ensures
            r == self.spec_less(other),
    {
        !self.is_nan() && !other.is_nan() && self.position() < other.position()
    }

    /// `self <= other`; false when either is a NaN.
    pub open spec fn spec_at_most(self, other: Single) -> bool {
        !self.spec_is_nan() && !other.spec_is_nan() && self.rank() <= other.rank()
    }

    /// `self <= other`; false when either is a NaN.
    #[verifier::when_used_as_spec(spec_at_most)]
    pub fn at_most(self, other: Single) -> (r: bool)
        ensures
            r == self.spec_at_most(other),
    {
        !self.is_nan() && !other.is_nan() && self.position() <= other.position()
    }

    /// `self == other` as numbers; false when either is a NaN.
    pub open spec fn spec_equals(self, other: Single) -> bool {
        !self.spec_is_nan() && !other.spec_is_nan() && self.rank() == other.rank()
    }

    /// `self == other` as numbers; false when either is a NaN.
    #[verifier::when_used_as_spec(spec_equals)]
    pub fn equals(self, other: Single) -> (r: bool)
        ensures
            r == self.spec_equals(other),
    {
        !self.is_nan() && !other.is_nan() && self.position() == other.position()
    }

    /// `low <= self <= high`; false when any is a NaN.
    pub open spec fn spec_within(self, low: Single, high: Single) -> bool {
        low.spec_at_most(self) && self.spec_at_most(high)
    }

    /// `low <= self <= high`; false when any is a NaN.
    #[verifier::when_used_as_spec(spec_within)]
    pub fn within(self, low: Single, high: Single) -> (r: bool)
        ensures
            r == self.spec_within(low, high),
    {
        low.at_most(self) && self.at_most(high)
    }

    /// The larger of the two; the other one when one is a NaN.
    pub open spec fn spec_max(self, other: Single) -> Single {
        if self.spec_is_nan() || self.spec_less(other) {
            other
        } else {
            self
        }
    }

    /// The larger of the two; the other one when one is a NaN.
    #[verifier::when_used_as_spec(spec_max)]
    pub fn max(self, other: Single) -> (r: Single)
        ensures
            r == self.spec_max(other),
    {
        if self.is_nan() || self.less(other) { other } else { self }
    }

    /// The smaller of the two; the other one when one is a NaN.
    pub open spec fn spec_min(self, other: Single) -> Single {
        if self.spec_is_nan() || other.spec_less(self) {
            other
        } else {
            self
        }
    }

    /// The smaller of the two; the other one when one is a NaN.
    #[verifier::when_used_as_spec(spec_min)]
    pub fn min(self, other: Single) -> (r: Single)
        ensures
            r == self.spec_min(other),
    {
        if self.is_nan() || other.less(self) { other } else { self }
    }

    /// `self` moved into `[low, high]`; a NaN stays one.
    pub open spec fn spec_clamp(self, low: Single, high: Single) -> Single {
        if self.spec_less(low) {
            low
        } else if high.spec_less(self) {
            high
        } else {
            self
        }
    }

    /// `self` moved into `[low, high]`; a NaN stays one.
    #[verifier::when_used_as_spec(spec_clamp)]
    pub fn clamp(self, low: Single, high: Single) -> (r: Single)
        ensures
            r == self.spec_clamp(low, high),
    {
        if self.less(low) {
            low
        } else if high.less(self) {
            high
        } else {
            self
        }
    }

    /// `self` without its sign.
    pub open spec fn spec_abs(self) -> Single {
        Single { bits: (self.bits % SIGN_WEIGHT) as u32 }
    }

    /// `self` without its sign.
    #[verifier::when_used_as_spec(spec_abs)]
    pub fn abs(self) -> (r: Single)
        ensures
            r == self.spec_abs(),
    {
        Single { bits: self.bits % SIGN_WEIGHT }
    }

    /// `self` with the other sign.
    pub open spec fn spec_negated(self) -> Single {
        Single {
            bits: if self.bits >= SIGN_WEIGHT {
                (self.bits - SIGN_WEIGHT) as u32
            } else {
                (self.bits + SIGN_WEIGHT) as u32
            },
        }
    }

    /// `self` with the other sign.
    #[verifier::when_used_as_spec(spec_negated)]
    pub fn negated(self) -> (r: Single)
        ensures
            r == self.spec_negated(),
    {
        if self.bits >= SIGN_WEIGHT {
            Single { bits: self.bits - SIGN_WEIGHT }
        } else {
            Single { bits: self.bits + SIGN_WEIGHT }
        }
    }

    /// Mantissa and exponent of a finite number.
    pub(crate) fn parts(self) -> (r: (u32, u32))
        requires
            self.is_finite(),
        ensures
            r.0 < 2 * BINADE,
            r.1 <= 253,
            r.1 > 0 ==> r.0 >= BINADE,
            magnitude(self.code()) == r.0 * pow2(r.1 as nat),
            self.code() == r.1 * BINADE + r.0,
    {
        let code: u32 = self.bits % SIGN_WEIGHT;
        let e: u32 = code / BINADE;
        let r: (u32, u32) = if e == 0 { (code, 0) } else { (code - (e - 1) * BINADE, e - 1) };
        proof {
            lemma_magnitude(r.1 as nat, r.0 as int);
        }
        r
    }

    /// The single-precision number nearest to `num / den`: what a decimal literal means.
    #[verifier::opaque]
    pub open spec fn spec_ratio(num: i32, den: u32) -> Single {
        Single::encoded(
            num < 0, rounded((if num < 0 { -num } else { num as int }) * pow2(149), den as int),
        )
    }

    /// The single-precision number nearest to `num / den`: what a decimal literal means.
    #[verifier::when_used_as_spec(spec_ratio)]
    pub fn ratio(num: i32, den: u32) -> (r: Single)
        requires
            den > 0,
        ensures
            r == Single::spec_ratio(num, den),
    {
        proof {
            reveal(Single::spec_ratio);
        }
        let wide: i64 = num as i64;
        let negative: bool = wide < 0;
        let size: u64 = if negative { (-wide) as u64 } else { wide as u64 };
        let code = nearest_ratio(size, den);
        Single::encode(negative, code)
    }

    /// The single-precision number nearest to an unsigned integer.
    #[verifier::opaque]
    pub open spec fn spec_from_u32(n: u32) -> Single {
        Single::encoded(false, rounded(n * pow2(149), 1))
    }

    /// The single-precision number nearest to an unsigned integer.
    #[verifier::when_used_as_spec(spec_from_u32)]
    pub fn from_u32(n: u32) -> (r: Single)
        ensures
            r == Single::spec_from_u32(n),
    {
        proof {
            reveal(Single::spec_from_u32);
        }
        let code = nearest_ratio(n as u64, 1);
        Single::encode(false, code)
    }

    /// Zero.
    pub open spec fn spec_zero() -> Single {
        Single { bits: 0 }
    }

    /// Zero.
    #[verifier::when_used_as_spec(spec_zero)]
    pub fn zero() -> (r: Single)
        ensures
            r == Single::spec_zero(),
    {
        Single { bits: 0 }
    }

    /// One.
    pub open spec fn spec_one() -> Single {
        Single { bits: 0x3f80_0000 }
    }

    /// One.
    #[verifier::when_used_as_spec(spec_one)]
    pub fn one() -> (r: Single)
        ensures
            r == Single::spec_one(),
    {
        Single { bits: 0x3f80_0000 }
    }

    /// Positive infinity.
    pub open spec fn spec_infinity() -> Single {
        Single { bits: 0x7f80_0000 }
    }

    /// Positive infinity.
    #[verifier::when_used_as_spec(spec_infinity)]
    pub fn infinity() -> (r: Single)
        ensures
            r == Single::spec_infinity(),
    {
        Single { bits: 0x7f80_0000 }
    }

    /// Correctly rounded sum.
    #[verifier::opaque]
    pub open spec fn spec_plus(self, other: Single) -> Single {
        if self.spec_is_nan() || other.spec_is_nan() {
            Single { bits: NAN_BITS }
        } else if !self.spec_is_finite() {
            if !other.spec_is_finite() && self.spec_is_negative() != other.spec_is_negative() {
                Single { bits: NAN_BITS }
            } else {
                self
            }
        } else if !other.spec_is_finite() {
            other
        } else {
            let sum = self.value() + other.value();
            if sum == 0 {
                Single::encoded(self.spec_is_negative() && other.spec_is_negative(), 0)
            } else {
                Single::encoded(sum < 0, rounded(if sum < 0 { -sum } else { sum }, 1))
            }
        }
    }

    /// Correctly rounded sum.
    #[verifier::when_used_as_spec(spec_plus)]
    pub fn plus(self, other: Single) -> (r: Single)
        ensures
            r == self.spec_plus(other),
    {
        proof {
            reveal(Single::spec_plus);
        }
        if self.is_nan() || other.is_nan() {
            return Single { bits: NAN_BITS };
        }
        if !self.is_finite() {
            if !other.is_finite() && self.is_negative() != other.is_negative() {
                return Single { bits: NAN_BITS };
            }
            return self;
        }
        if !other.is_finite() {
            return other;
        }
        let (_, e1) = self.parts();
        let (_, e2) = other.parts();
        if e1 < e2 {
            other.plus_ordered(self)
        } else {
            self.plus_ordered(other)
        }
    }

    /// Sum of two finite numbers, the one with the larger exponent first.
    fn plus_ordered(self, other: Single) -> (r: Single)
        requires
            self.is_finite(),
            other.is_finite(),
            self.code() / (BINADE as int) >= other.code() / (BINADE as int) || self.code() / (
            BINADE as int) == 0 && other.code() / (BINADE as int) <= 1,
        ensures
            r == self.spec_plus(other),
            r == other.spec_plus(self),
    {
        proof {
            reveal(Single::spec_plus);
        }
        let (m1, e1) = self.parts();
        let (m2, e2) = other.parts();
        assert(e1 >= e2);
        let d: u32 = e1 - e2;
        if d > 64 {
            proof {
                lemma_absorbed(self, other, m1 as int, e1 as nat, m2 as int, e2 as nat);
            }
            return self;
        }
        let lift = power_of_two(d);
        proof {
            lemma2_to64();
            if d < 64 {
                lemma_pow2_strictly_increases(d as nat, 64);
            }
            lemma_pow2_adds(d as nat, e2 as nat);
            assert(m1 * lift <= 0x100_0000 * 0x1_0000_0000_0000_0000) by (nonlinear_arith)
                requires
                    m1 <= 0x100_0000,
                    lift <= 0x1_0000_0000_0000_0000,
            ;
        }
        let a: i128 = (m1 as u128 * lift) as i128;
        let b: i128 = m2 as i128;
        let sa: i128 = if self.is_negative() { -a } else { a };
        let sb: i128 = if other.is_negative() { -b } else { b };
        let total: i128 = sa + sb;
        proof {
            let w = pow2(e2 as nat) as int;
            lemma_pow2_pos(e2 as nat);
            assert(m1 * pow2(e1 as nat) == a * w) by (nonlinear_arith)
                requires
                    a == m1 * lift,
                    pow2(e1 as nat) == lift * w,
            ;
            assert(self.value() == sa * w) by (nonlinear_arith)
                requires
                    magnitude(self.code()) == a * w,
                    self.value() == magnitude(self.code()) && sa == a || self.value() == -magnitude(
                        self.code(),
                    ) && sa == -a,
            ;
            assert(other.value() == sb * w) by (nonlinear_arith)
                requires
                    magnitude(other.code()) == b * w,
                    other.value() == magnitude(other.code()) && sb == b || other.value()
                        == -magnitude(other.code()) && sb == -b,
            ;
            assert(self.value() + other.value() == total * w) by (nonlinear_arith)
                requires
                    self.value() == sa * w,
                    other.value() == sb * w,
                    total == sa + sb,
            ;
            assert(total == 0 ==> total * w == 0) by (nonlinear_arith);
            assert(total > 0 ==> total * w > 0) by (nonlinear_arith)
                requires
                    w > 0,
            ;
            assert(total < 0 ==> total * w < 0) by (nonlinear_arith)
                requires
                    w > 0,
            ;
        }
        if total == 0 {
            return Single::encode(self.is_negative() && other.is_negative(), 0);
        }
        let negative: bool = total < 0;
        let p: u128 = if negative { (-total) as u128 } else { total as u128 };
        let code = round_scaled(p, false, e2 as i32);
        proof {
            let w = pow2(e2 as nat) as int;
            let num = p * w;
            lemma_pow2_adds(e2 as nat, 600);
            assert(num * pow2(600) == p * (pow2((e2 + 600) as nat) * 1)) by (nonlinear_arith)
                requires
                    num == p * w,
                    pow2((e2 + 600) as nat) == w * pow2(600),
            ;
            assert(bracketed(p as int, false, e2 as int, num, 1));
            lemma_rounded(num, 1, code as int);
            assert((-total) * w == -(total * w)) by (nonlinear_arith);
        }
        Single::encode(negative, code)
    }

    /// Correctly rounded difference.
    pub open spec fn spec_minus(self, other: Single) -> Single {
        self.spec_plus(other.spec_negated())
    }

    /// Correctly rounded difference.
    #[verifier::when_used_as_spec(spec_minus)]
    pub fn minus(self, other: Single) -> (r: Single)
        ensures
            r == self.spec_minus(other),
    {
        self.plus(other.negated())
    }

    /// Correctly rounded product.
    #[verifier::opaque]
    pub open spec fn spec_times(self, other: Single) -> Single {
        let negative = self.spec_is_negative() != other.spec_is_negative();
        if self.spec_is_nan() || other.spec_is_nan() {
            Single { bits: NAN_BITS }
        } else if !self.spec_is_finite() || !other.spec_is_finite() {
            if self.code() == 0 || other.code() == 0 {
                Single { bits: NAN_BITS }
            } else {
                Single::encoded(negative, INFINITE_CODE as int)
            }
        } else {
            Single::encoded(
                negative,
                rounded(magnitude(self.code()) * magnitude(other.code()), pow2(149) as int),
            )
        }
    }

    /// Correctly rounded product.
    #[verifier::when_used_as_spec(spec_times)]
    pub fn times(self, other: Single) -> (r: Single)
        ensures
            r == self.spec_times(other),
    {
        proof {
            reveal(Single::spec_times);
        }
        let negative: bool = self.is_negative() != other.is_negative();
        if self.is_nan() || other.is_nan() {
            return Single { bits: NAN_BITS };
        }
        if !self.is_finite() || !other.is_finite() {
            if self.bits % SIGN_WEIGHT == 0 || other.bits % SIGN_WEIGHT == 0 {
                return Single { bits: NAN_BITS };
            }
            return Single::encode(negative, INFINITE_CODE);
        }
        let (m1, e1) = self.parts();
        let (m2, e2) = other.parts();
        assert(m1 * m2 <= 0x100_0000 * 0x100_0000) by (nonlinear_arith)
            requires
                m1 <= 0x100_0000,
                m2 <= 0x100_0000,
        ;
        let p: u128 = (m1 as u64 * m2 as u64) as u128;
        let k: i32 = e1 as i32 + e2 as i32 - 149;
        let code = round_scaled(p, false, k);
        proof {
            let w1 = pow2(e1 as nat) as int;
            let w2 = pow2(e2 as nat) as int;
            let num = magnitude(self.code()) * magnitude(other.code());
            let den = pow2(149) as int;
            lemma_pow2_pos(149);
            lemma_pow2_adds(e1 as nat, e2 as nat);
            lemma_pow2_adds((e1 + e2) as nat, 600);
            lemma_pow2_adds((k + 600) as nat, 149);
            let wide = pow2((k + 600) as nat) as int;
            let big = pow2(600) as int;
            assert(num * big == p * (wide * den)) by (nonlinear_arith)
                requires
                    num == (m1 * w1) * (m2 * w2),
                    p == m1 * m2,
                    wide * den == (w1 * w2) * big,
            ;
            assert(bracketed(p as int, false, k as int, num, den));
            lemma_rounded(num, den, code as int);
        }
        Single::encode(negative, code)
    }

    /// Correctly rounded quotient.
    #[verifier::opaque]
    pub open spec fn spec_over(self, other: Single) -> Single {
        let negative = self.spec_is_negative() != other.spec_is_negative();
        if self.spec_is_nan() || other.spec_is_nan() {
            Single { bits: NAN_BITS }
        } else if !self.spec_is_finite() {
            if !other.spec_is_finite() {
                Single { bits: NAN_BITS }
            } else {
                Single::encoded(negative, INFINITE_CODE as int)
            }
        } else if !other.spec_is_finite() {
            Single::encoded(negative, 0)
        } else if other.code() == 0 {
            if self.code() == 0 {
                Single { bits: NAN_BITS }
            } else {
                Single::encoded(negative, INFINITE_CODE as int)
            }
        } else {
            Single::encoded(
                negative,
                rounded(magnitude(self.code()) * pow2(149), magnitude(other.code())),
            )
        }
    }

    /// Correctly rounded quotient.
    #[verifier::when_used_as_spec(spec_over)]
    pub fn over(self, other: Single) -> (r: Single)
        ensures
            r == self.spec_over(other),
    {
        proof {
            reveal(Single::spec_over);
        }
        let negative: bool = self.is_negative() != other.is_negative();
        if self.is_nan() || other.is_nan() {
            return Single { bits: NAN_BITS };
        }
        if !self.is_finite() {
            if !other.is_finite() {
                return Single { bits: NAN_BITS };
            }
            return Single::encode(negative, INFINITE_CODE);
        }
        if !other.is_finite() {
            return Single::encode(negative, 0);
        }
        if other.bits % SIGN_WEIGHT == 0 {
            if self.bits % SIGN_WEIGHT == 0 {
                return Single { bits: NAN_BITS };
            }
            return Single::encode(negative, INFINITE_CODE);
        }
        let (m1, e1) = self.parts();
        let (m2, e2) = other.parts();
        proof {
            if m2 == 0 {
                assert(e2 == 0);
            }
        }
        let (q, inexact) = shifted_quotient(m1 as u64, m2);
        let k: i32 = e1 as i32 - e2 as i32 + 149 - 64;
        let code = round_scaled(q, inexact, k);
        proof {
            let w1 = pow2(e1 as nat) as int;
            let w2 = pow2(e2 as nat) as int;
            let num = magnitude(self.code()) * pow2(149);
            let den = magnitude(other.code());
            lemma_pow2_pos(e2 as nat);
            lemma_pow2_pos(64);
            lemma_pow2_pos((k + 600) as nat);
            assert(den > 0) by (nonlinear_arith)
                requires
                    den == m2 * w2,
                    m2 > 0,
                    w2 > 0,
            ;
            lemma_pow2_adds(e1 as nat, 149);
            lemma_pow2_adds((e1 + 149) as nat, 600);
            lemma_pow2_adds((k + 600) as nat, 64);
            lemma_pow2_adds((k + 664) as nat, e2 as nat);
            let wide = pow2((k + 600) as nat) as int;
            assert(num == m1 * (w1 * pow2(149))) by (nonlinear_arith)
                requires
                    num == (m1 * w1) * pow2(149),
            ;
            lemma_quotient_bracket(
                m1 as int,
                m2 as int,
                q as int,
                inexact,
                wide,
                w2,
                w1 * pow2(149) * pow2(600),
                pow2(64) as int,
            );
            assert(num * pow2(600) == m1 * (w1 * pow2(149) * pow2(600))) by (nonlinear_arith)
                requires
                    num == m1 * (w1 * pow2(149)),
            ;
            assert(m2 * w2 * wide == wide * den) by (nonlinear_arith)
                requires
                    den == m2 * w2,
            ;
            assert(bracketed(q as int, inexact, k as int, num, den));
            lemma_rounded(num, den, code as int);
        }
        Single::encode(negative, code)
    }
}

/// A number too small to matter leaves the larger one as the nearest encoding.
proof fn lemma_absorbed(x: Single, y: Single, m1: int, e1: nat, m2: int, e2: nat)
    requires
        x.is_finite(),
        y.is_finite(),
        e1 > e2 + 64,
        BINADE <= m1 < 2 * BINADE,
        0 <= m2 < 2 * BINADE,
        magnitude(x.code()) == m1 * pow2(e1),
        magnitude(y.code()) == m2 * pow2(e2),
        x.code() == e1 * BINADE + m1,
    ensures
        x == x.spec_plus(y),
        x == y.spec_plus(x),
{
    reveal(Single::spec_plus);
    let c = x.code();
    let big = magnitude(c);
    let small = magnitude(y.code());
    let w = pow2(e1) as int;
    lemma2_to64();
    lemma_pow2_adds(e2, 64);
    lemma_pow2_pos(e2);
    lemma_pow2_strictly_increases(e2 + 64, e1);
    assert(4 * small < w) by (nonlinear_arith)
        requires
            small == m2 * pow2(e2),
            0 <= m2 < 0x100_0000,
            pow2(e2) * 0x1_0000_0000_0000_0000 < w,
            pow2(e2) > 0,
    ;
    assert(small >= 0) by (nonlinear_arith)
        requires
            small == m2 * pow2(e2),
            0 <= m2,
            pow2(e2) > 0,
    ;
    assert(big >= BINADE * w) by (nonlinear_arith)
        requires
            big == m1 * w,
            m1 >= BINADE,
            w > 0,
    ;
    // the gap above
    lemma_magnitude(e1, m1 + 1);
    assert((m1 + 1) * w == big + w) by (nonlinear_arith)
        requires
            big == m1 * w,
    ;
    // the gap below
    if m1 > BINADE {
        lemma_magnitude(e1, m1 - 1);
        assert((m1 - 1) * w == big - w) by (nonlinear_arith)
            requires
                big == m1 * w,
        ;
    } else {
        let low = (e1 - 1) as nat;
        lemma_magnitude(low, 2 * BINADE - 1);
        lemma_pow2_unfold(e1);
        assert(2 * ((2 * BINADE - 1) * pow2(low)) == 2 * big - w) by (nonlinear_arith)
            requires
                w == 2 * pow2(low),
                big == BINADE * w,
        ;
    }
    assert(2 * (big - magnitude(c - 1)) >= w);
    let sum = x.value() + y.value();
    let size = if sum < 0 { -sum } else { sum };
    assert(big - small <= size <= big + small);
    assert((magnitude(c - 1) + magnitude(c)) * 1 == magnitude(c - 1) + magnitude(c));
    assert((magnitude(c) + magnitude(c + 1)) * 1 == magnitude(c) + magnitude(c + 1));
    assert(nearest(size, 1, c));
    lemma_rounded(size, 1, c);
}

/// `floor(m * 2^64 / d)`, and whether that drops anything.
fn shifted_quotient(m: u64, d: u32) -> (r: (u128, bool))
    requires
        m <= 0x1_0000_0000,
        d > 0,
    ensures
        r.0 * d <= m * pow2(64),
        r.1 ==> r.0 * d < m * pow2(64) < (r.0 + 1) * d,
        !r.1 ==> r.0 * d == m * pow2(64),
        r.0 < 0x100_0000_0000_0000_0000_0000_0000_0000,
        r.1 ==> r.0 >= 2 * BINADE,
{
    proof {
        lemma2_to64();
    }
    let top: u128 = m as u128 * 0x1_0000_0000_0000_0000;
    let q: u128 = top / d as u128;
    let rem: u128 = top % d as u128;
    proof {
        lemma_fundamental(top as int, d as int);
        let (qi, di, ti, ri) = (q as int, d as int, top as int, rem as int);
        assert((qi + 1) * di == qi * di + di) by (nonlinear_arith);
        if m > 0 {
            assert(qi >= 0x100_0000) by (nonlinear_arith)
                requires
                    ti == qi * di + ri,
                    ti >= 0x1_0000_0000_0000_0000,
                    0 <= ri < di <= 0xffff_ffff,
            ;
        } else {
            assert(rem == 0) by (nonlinear_arith)
                requires
                    ti == 0,
                    ri == ti % di,
                    ri == rem,
                    di > 0,
            ;
        }
    }
    (q, rem != 0)
}

proof fn lemma_quotient_bracket(
    m1: int,
    m2: int,
    q: int,
    inexact: bool,
    wide: int,
    w2: int,
    top: int,
    shift: int,
)
    requires
        wide * shift * w2 == top,
        w2 > 0,
        wide > 0,
        q * m2 <= m1 * shift,
        inexact ==> q * m2 < m1 * shift < (q + 1) * m2,
        !inexact ==> q * m2 == m1 * shift,
    ensures
        !inexact ==> m1 * top == q * (m2 * w2 * wide),
        inexact ==> q * (m2 * w2 * wide) < m1 * top < (q + 1) * (m2 * w2 * wide),
{
    let f = wide * w2;
    assert(f > 0) by (nonlinear_arith)
        requires
            f == wide * w2,
            wide > 0,
            w2 > 0,
    ;
    assert(m1 * top == (m1 * shift) * f) by (nonlinear_arith)
        requires
            top == wide * shift * w2,
            f == wide * w2,
    ;
    assert(q * (m2 * w2 * wide) == (q * m2) * f) by (nonlinear_arith)
        requires
            f == wide * w2,
    ;
    assert((q + 1) * (m2 * w2 * wide) == ((q + 1) * m2) * f) by (nonlinear_arith)
        requires
            f == wide * w2,
    ;
    let (a, b, c) = (q * m2, m1 * shift, (q + 1) * m2);
    assert(a < b ==> a * f < b * f) by (nonlinear_arith)
        requires
            f > 0,
    ;
    assert(b < c ==> b * f < c * f) by (nonlinear_arith)
        requires
            f > 0,
    ;
}

/// Encodes the number nearest to `num / den`.
pub(crate) fn nearest_ratio(num: u64, den: u32) -> (code: u32)
    requires
        num <= 0x1_0000_0000,
        den > 0,
    ensures
        code <= INFINITE_CODE,
        code == rounded(num * pow2(149), den as int),
{
    let (q, inexact) = shifted_quotient(num, den);
    let code = round_scaled(q, inexact, 149 - 64);
    proof {
        let scaled = num * pow2(149);
        lemma_pow2_adds(149, 600);
        lemma_pow2_adds(685, 64);
        lemma_pow2_pos(685);
        lemma_pow2_pos(64);
        let wide = pow2(685) as int;
        let top = pow2(749) as int;
        lemma_quotient_bracket(
            num as int,
            den as int,
            q as int,
            inexact,
            wide,
            1,
            top,
            pow2(64) as int,
        );
        assert(scaled * pow2(600) == num * top) by (nonlinear_arith)
            requires
                scaled == num * pow2(149),
                top == pow2(149) * pow2(600),
        ;
        assert(den * 1 * wide == wide * den) by (nonlinear_arith);
        assert(bracketed(q as int, inexact, 85, scaled, den as int));
        lemma_rounded(scaled, den as int, code as int);
    }
    code
}

/// `code` encodes the number nearest to the square root of `square` (in units of
/// 2^-149, of their square), ties to even.
pub open spec fn nearest_root(square: int, code: int) -> bool {
    let below = magnitude(code - 1) + magnitude(code);
    let above = magnitude(code) + magnitude(code + 1);
    &&& 0 <= code <= INFINITE_CODE
    &&& code > 0 ==> below * below <= 4 * square && (code % 2 == 1 ==> below * below < 4 * square)
    &&& code < INFINITE_CODE ==> 4 * square <= above * above && (code % 2 == 1 ==> 4 * square < above
        * above)
}

/// The encoding nearest to the square root of `square`.
pub open spec fn rounded_root(square: int) -> int {
    choose|code: int| nearest_root(square, code)
}

/// At most one encoding is nearest to a root.
pub proof fn lemma_root_unique(square: int, a: int, b: int)
    requires
        nearest_root(square, a),
        nearest_root(square, b),
    ensures
        a == b,
{
    lemma_root_ordered(square, a, b);
    lemma_root_ordered(square, b, a);
}

proof fn lemma_root_ordered(square: int, a: int, b: int)
    requires
        nearest_root(square, a),
        nearest_root(square, b),
    ensures
        b <= a,
{
    let lower = magnitude(a) + magnitude(a + 1);
    let upper = magnitude(b - 1) + magnitude(b);
    if a + 1 < b {
        lemma_magnitude_increases(a, b - 1);
        lemma_magnitude_increases(a + 1, b);
        if a > 0 {
            lemma_magnitude_increases(0, a);
        }
        lemma_magnitude_increases(0, a + 1);
        assert(lower * lower < upper * upper) by (nonlinear_arith)
            requires
                0 <= lower < upper,
        ;
    }
}

/// `floor(sqrt(n))`.
fn integer_root(n: u128) -> (p: u64)
    requires
        n < 0x400_0000_0000_0000_0000_0000_0000_0000,
    ensures
        p * p <= n < (p + 1) * (p + 1),
        p < 0x2000_0000_0000_0000,
{
    // The root of the upper half is close, and one Newton step from it closer still.
    let top: u64 = (n / 0x1_0000_0000_0000_0000) as u64;
    let mut low: u64 = 0;
    let mut high: u64 = 0x2000_0000;
    while high - low > 1
        invariant
            low < high <= 0x2000_0000,
        decreases high - low,
    {
        let mid: u64 = low + (high - low) / 2;
        assert(mid * mid <= 0x2000_0000 * 0x2000_0000) by (nonlinear_arith)
            requires
                mid <= 0x2000_0000,
        ;
        if mid * mid <= top {
            low = mid;
        } else {
            high = mid;
        }
    }
    let near: u128 = high as u128 * 0x1_0000_0000;
    let middle: u128 = (near + n / near) / 2;
    let mut p: u64 = if middle < 0x2000_0000_0000_0000 {
        middle as u64
    } else {
        0x1fff_ffff_ffff_ffff
    };
    proof {
        assert(0x2000_0000_0000_0000int * 0x2000_0000_0000_0000int
            == 0x400_0000_0000_0000_0000_0000_0000_0000int);
        lemma_fundamental(n as int, near as int);
        lemma_below_bound(p as int);
    }
    while p as u128 * p as u128 > n
        invariant
            p < 0x2000_0000_0000_0000,
            p * p < 0x400_0000_0000_0000_0000_0000_0000_0000,
        decreases p,
    {
        assert(p > 0) by (nonlinear_arith)
            requires
                p * p > n,
                n >= 0,
                p >= 0,
        ;
        p = p - 1;
        proof {
            lemma_below_bound(p as int);
        }
    }
    proof {
        lemma_below_bound(p as int);
    }
    while (p + 1) as u128 * (p + 1) as u128 <= n
        invariant
            n < 0x400_0000_0000_0000_0000_0000_0000_0000,
            p < 0x2000_0000_0000_0000,
            p * p <= n,
            (p + 1) * (p + 1) <= 0x400_0000_0000_0000_0000_0000_0000_0000,
        decreases 0x2000_0000_0000_0000 - p,
    {
        assert(p + 1 < 0x2000_0000_0000_0000) by (nonlinear_arith)
            requires
                (p + 1) * (p + 1) < 0x2000_0000_0000_0000 * 0x2000_0000_0000_0000,
        ;
        p = p + 1;
        proof {
            lemma_below_bound(p as int);
        }
    }
    p
}

proof fn lemma_below_bound(p: int)
    requires
        0 <= p < 0x2000_0000_0000_0000,
    ensures
        p * p < 0x400_0000_0000_0000_0000_0000_0000_0000,
        (p + 1) * (p + 1) <= 0x400_0000_0000_0000_0000_0000_0000_0000,
{
    let bound = 0x2000_0000_0000_0000int;
    assert(bound * bound == 0x400_0000_0000_0000_0000_0000_0000_0000int);
    assert(p * p < bound * bound) by (nonlinear_arith)
        requires
            0 <= p < bound,
    ;
    assert((p + 1) * (p + 1) <= bound * bound) by (nonlinear_arith)
        requires
            0 <= p < bound,
    ;
}

/// The rounding bounds of a rational between `p` and `p + 1` steps carry over to a
/// root between the same steps.
proof fn lemma_root_bounds(square: int, n: int, p: int, k: nat, code: int)
    requires
        0 <= code <= INFINITE_CODE,
        k <= 200,
        p >= 0x100_0000_0000,
        square == n * pow2(2 * k),
        p * p < n < (p + 1) * (p + 1),
        nearest((2 * p + 1) * pow2(k), 2, code),
    ensures
        nearest_root(square, code),
{
    let w = pow2(k) as int;
    lemma_pow2_pos(k);
    lemma_pow2_adds(k, k);
    let num = (2 * p + 1) * w;
    let (t, r) = lemma_split(code);
    assert(num >= 0x100_0000_0000 * w) by (nonlinear_arith)
        requires
            num == (2 * p + 1) * w,
            p >= 0x100_0000_0000,
            w > 0,
    ;
    // the exponent of the code exceeds k
    if t <= k + 1 {
        assert(code < INFINITE_CODE) by {
            assert(t == code / (BINADE as int) - 1 || t == 0);
        }
        lemma2_to64();
        if t < k + 1 {
            lemma_pow2_strictly_increases(t, k + 1);
        }
        lemma_pow2_unfold(k + 1);
        let above = magnitude(code) + magnitude(code + 1);
        assert(above == (2 * r + 1) * pow2(t)) by (nonlinear_arith)
            requires
                above == r * pow2(t) + (r + 1) * pow2(t),
        ;
        assert(above * 2 < 2 * num) by (nonlinear_arith)
            requires
                above == (2 * r + 1) * pow2(t),
                pow2(t) <= 2 * w,
                0 <= r < 0x100_0000,
                num >= 0x100_0000_0000 * w,
                w > 0,
                pow2(t) >= 0,
        ;
        assert(false);
    }
    if code < INFINITE_CODE {
        let above = magnitude(code) + magnitude(code + 1);
        let lift = (t - k) as nat;
        lemma_pow2_adds(lift, k);
        lemma_pow2_unfold(lift);
        let b = (2 * r + 1) * pow2((lift - 1) as nat);
        assert(above == 2 * b * w) by (nonlinear_arith)
            requires
                above == r * pow2(t) + (r + 1) * pow2(t),
                pow2(t) == 2 * pow2((lift - 1) as nat) * w,
                b == (2 * r + 1) * pow2((lift - 1) as nat),
        ;
        assert(p + 1 <= b) by (nonlinear_arith)
            requires
                2 * ((2 * p + 1) * w) <= (2 * b * w) * 2,
                w > 0,
        ;
        assert(4 * square < above * above) by (nonlinear_arith)
            requires
                square == n * (w * w),
                n < (p + 1) * (p + 1),
                0 <= p + 1 <= b,
                above == 2 * b * w,
                w > 0,
        ;
    }
    if code > 0 {
        let (t2, r2) = lemma_split(code - 1);
        assert(t2 >= t - 1);
        let below = magnitude(code - 1) + magnitude(code);
        let lift = (t2 - k) as nat;
        lemma_pow2_adds(lift, k);
        lemma_pow2_unfold(lift);
        let b = (2 * r2 + 1) * pow2((lift - 1) as nat);
        lemma_pow2_pos((lift - 1) as nat);
        assert(b >= 0) by (nonlinear_arith)
            requires
                b == (2 * r2 + 1) * pow2((lift - 1) as nat),
                r2 >= 0,
                pow2((lift - 1) as nat) > 0,
        ;
        assert(below == 2 * b * w) by (nonlinear_arith)
            requires
                below == r2 * pow2(t2) + (r2 + 1) * pow2(t2),
                pow2(t2) == 2 * pow2((lift - 1) as nat) * w,
                b == (2 * r2 + 1) * pow2((lift - 1) as nat),
        ;
        assert(b <= p) by (nonlinear_arith)
            requires
                (2 * b * w) * 2 <= 2 * ((2 * p + 1) * w),
                w > 0,
        ;
        assert(below * below < 4 * square) by (nonlinear_arith)
            requires
                square == n * (w * w),
                p * p < n,
                0 <= b <= p,
                below == 2 * b * w,
                w > 0,
        ;
    }
}

/// The rounding bounds of an exact root.
proof fn lemma_root_exact(square: int, p: int, k: nat, code: int)
    requires
        p >= 0,
        square == (p * p) * pow2(2 * k),
        nearest(p * pow2(k), 1, code),
    ensures
        nearest_root(square, code),
{
    let w = pow2(k) as int;
    lemma_pow2_pos(k);
    lemma_pow2_adds(k, k);
    let num = p * w;
    assert(num >= 0) by (nonlinear_arith)
        requires
            num == p * w,
            p >= 0,
            w > 0,
    ;
    assert(4 * square == (2 * num) * (2 * num)) by (nonlinear_arith)
        requires
            square == (p * p) * (w * w),
            num == p * w,
    ;
    if code < INFINITE_CODE {
        let above = magnitude(code) + magnitude(code + 1);
        assert(2 * num <= above ==> (2 * num) * (2 * num) <= above * above) by (nonlinear_arith)
            requires
                num >= 0,
        ;
        assert(2 * num < above ==> (2 * num) * (2 * num) < above * above) by (nonlinear_arith)
            requires
                num >= 0,
        ;
    }
    if code > 0 {
        let below = magnitude(code - 1) + magnitude(code);
        if code > 1 {
            lemma_magnitude_increases(0, code - 1);
        }
        lemma_magnitude_increases(0, code);
        assert(below <= 2 * num ==> below * below <= (2 * num) * (2 * num)) by (nonlinear_arith)
            requires
                below >= 0,
        ;
        assert(below < 2 * num ==> below * below < (2 * num) * (2 * num)) by (nonlinear_arith)
            requires
                below >= 0,
        ;
    }
}

impl Single {
    /// Correctly rounded square root.
    #[verifier::opaque]
    pub open spec fn spec_root(self) -> Single {
        if self.code() == 0 {
            self
        } else if self.spec_is_nan() || self.spec_is_negative() {
            Single { bits: NAN_BITS }
        } else if !self.spec_is_finite() {
            self
        } else {
            Single::encoded(false, rounded_root(magnitude(self.code()) * pow2(149)))
        }
    }

    /// Correctly rounded square root.
    #[verifier::when_used_as_spec(spec_root)]
    pub fn root(self) -> (r: Single)
        ensures
            r == self.spec_root(),
    {
        proof {
            reveal(Single::spec_root);
        }
        if self.bits % SIGN_WEIGHT == 0 {
            return self;
        }
        if self.is_nan() || self.is_negative() {
            return Single { bits: NAN_BITS };
        }
        if !self.is_finite() {
            return self;
        }
        let (m, e) = self.parts();
        // An exponent that leaves an even power of two outside the root.
        let s: u32 = if e % 2 == 0 { 97 } else { 96 };
        let lift = power_of_two(s);
        proof {
            lemma2_to64();
            lemma_pow2_adds(64, 32);
            lemma_pow2_unfold(97);
            assert(m > 0) by {
                if m == 0 {
                    assert(e == 0);
                }
            }
            assert(0x1_0000_0000_0000_0000int * 0x1_0000_0000int
                == 0x1_0000_0000_0000_0000_0000_0000int);
            assert(m * lift < 0x400_0000_0000_0000_0000_0000_0000_0000) by (nonlinear_arith)
                requires
                    m < 0x100_0000,
                    lift <= 0x2_0000_0000_0000_0000_0000_0000,
            ;
            assert(m * lift >= 0x1_0000_0000_0000_0000_0000_0000) by (nonlinear_arith)
                requires
                    m >= 1,
                    lift >= 0x1_0000_0000_0000_0000_0000_0000,
            ;
        }
        let n: u128 = m as u128 * lift;
        let p = integer_root(n);
        assert(p >= 0x8000_0000_0000) by (nonlinear_arith)
            requires
                n >= 0x1_0000_0000_0000_0000_0000_0000,
                n < (p + 1) * (p + 1),
        ;
        let exact: bool = p as u128 * p as u128 == n;
        let k: u32 = (e + 149 - s) / 2;
        let code = round_scaled(p as u128, !exact, k as i32);
        proof {
            let w = pow2(k as nat) as int;
            let square = magnitude(self.code()) * pow2(149);
            lemma_pow2_adds(e as nat, 149);
            lemma_pow2_adds(s as nat, 2 * k as nat);
            assert(square == n * pow2((2 * k) as nat)) by (nonlinear_arith)
                requires
                    square == (m * pow2(e as nat)) * pow2(149),
                    n == m * lift,
                    pow2(e as nat) * pow2(149) == lift * pow2((2 * k) as nat),
            ;
            lemma_pow2_adds(k as nat, 600);
            lemma_pow2_pos((k + 600) as nat);
            let wide = pow2((k + 600) as nat) as int;
            let pi = p as int;
            if exact {
                let num = pi * w;
                assert(num * pow2(600) == pi * (wide * 1)) by (nonlinear_arith)
                    requires
                        num == pi * w,
                        wide == w * pow2(600),
                ;
                assert(bracketed(pi, false, k as int, num, 1));
                lemma_root_exact(square, pi, k as nat, code as int);
            } else {
                let num = (2 * pi + 1) * w;
                let step = wide * 2;
                assert(num * pow2(600) == (2 * pi + 1) * wide) by (nonlinear_arith)
                    requires
                        num == (2 * pi + 1) * w,
                        wide == w * pow2(600),
                ;
                assert(pi * step < (2 * pi + 1) * wide < (pi + 1) * step) by (nonlinear_arith)
                    requires
                        step == wide * 2,
                        wide > 0,
                ;
                assert(bracketed(pi, true, k as int, num, 2));
                lemma_root_bounds(square, n as int, pi, k as nat, code as int);
            }
            lemma_root_unique(square, code as int, rounded_root(square));
        }
        Single::encode(false, code)
    }
}

/// The order of the numbers is the order of their values.
pub proof fn order_is_value_order(x: Single, y: Single)
    requires
        x.is_finite(),
        y.is_finite(),
    ensures
        x.less(y) <==> x.value() < y.value(),
        x.equals(y) <==> x.value() == y.value(),
        x.at_most(y) <==> x.value() <= y.value(),
{
    let (a, b) = (x.code(), y.code());
    if a < b {
        lemma_magnitude_increases(a, b);
    }
    if b < a {
        lemma_magnitude_increases(b, a);
    }
    if a > 0 {
        lemma_magnitude_increases(0, a);
    }
    if b > 0 {
        lemma_magnitude_increases(0, b);
    }
}

/// Sums and products do not depend on the order of the operands.
pub proof fn sums_and_products_commute(x: Single, y: Single)
    requires
        x.is_finite(),
        y.is_finite(),
    ensures
        x.plus(y) == y.plus(x),
        x.times(y) == y.times(x),
{
    reveal(Single::spec_plus);
    reveal(Single::spec_times);
    let (a, b) = (magnitude(x.code()), magnitude(y.code()));
    assert(a * b == b * a) by (nonlinear_arith);
}

/// A sum that single precision can hold exactly is exact.
pub proof fn exact_sums_are_exact(x: Single, y: Single, z: Single)
    requires
        x.is_finite(),
        y.is_finite(),
        z.is_finite(),
        x.value() + y.value() == z.value(),
    ensures
        x.plus(y).equals(z),
{
    reveal(Single::spec_plus);
    let sum = z.value();
    let c = z.code();
    if c > 0 {
        lemma_magnitude_increases(0, c);
        lemma_magnitude_increases(c - 1, c);
        lemma_magnitude_increases(c, c + 1);
        let size = magnitude(c);
        assert((magnitude(c - 1) + size) * 1 < 2 * size);
        assert((size + magnitude(c + 1)) * 1 > 2 * size);
        assert(nearest(size, 1, c));
        lemma_rounded(size, 1, c);
    }
}

proof fn lemma_nearest_from(num: int, den: int, low: int)
    requires
        0 <= low <= INFINITE_CODE,
        not_below(num, den, low),
    ensures
        exists|code: int| nearest(num, den, code),
    decreases INFINITE_CODE - low,
{
    if low == INFINITE_CODE || not_above(num, den, low) {
        assert(nearest(num, den, low));
    } else {
        lemma_nearest_from(num, den, low + 1);
    }
}

/// Every number that is not negative has a nearest encoding.
pub proof fn lemma_nearest_exists(num: int, den: int)
    ensures
        nearest(num, den, rounded(num, den)),
{
    lemma_nearest_from(num, den, 0);
}

/// Rounding keeps the order of numbers.
pub proof fn rounding_is_monotone(a: int, b: int, den: int)
    requires
        den > 0,
        a <= b,
    ensures
        rounded(a, den) <= rounded(b, den),
{
    lemma_nearest_exists(a, den);
    lemma_nearest_exists(b, den);
    let (low, high) = (rounded(b, den), rounded(a, den));
    if low < high {
        let lower = magnitude(low) + magnitude(low + 1);
        let upper = magnitude(high - 1) + magnitude(high);
        if low + 1 < high {
            lemma_magnitude_increases(low, high - 1);
            lemma_magnitude_increases(low + 1, high);
            assert(lower * den < upper * den) by (nonlinear_arith)
                requires
                    lower < upper,
                    den > 0,
            ;
        }
    }
}

proof fn lemma_encoded(negative: bool, code: int)
    requires
        0 <= code <= INFINITE_CODE,
    ensures
        Single::encoded(negative, code).code() == code,
        Single::encoded(negative, code).is_negative() == negative,
        Single::encoded(negative, code).rank() == if negative {
            -code
        } else {
            code
        },
        !Single::encoded(negative, code).is_nan(),
{
}

/// The rank of a sum of finite numbers: that of the rounded sum, with its sign.
proof fn lemma_sum_rank(x: Single, y: Single)
    requires
        x.is_finite(),
        y.is_finite(),
    ensures
        !x.plus(y).is_nan(),
        ({
            let sum = x.value() + y.value();
            x.plus(y).rank() == if sum < 0 {
                -rounded(-sum, 1)
            } else {
                rounded(sum, 1)
            }
        }),
{
    reveal(Single::spec_plus);
    let sum = x.value() + y.value();
    if sum == 0 {
        lemma_encoded(x.is_negative() && y.is_negative(), 0);
        lemma_split(0);
        assert(nearest(0, 1, 0));
        lemma_rounded(0, 1, 0);
    } else {
        let size = if sum < 0 {
            -sum
        } else {
            sum
        };
        lemma_nearest_exists(size, 1);
        lemma_encoded(sum < 0, rounded(size, 1));
    }
}

/// A larger summand never gives a smaller sum.
pub proof fn sums_are_monotone(x: Single, y: Single, z: Single)
    requires
        x.is_finite(),
        y.is_finite(),
        z.is_finite(),
        x.at_most(y),
    ensures
        x.plus(z).at_most(y.plus(z)),
{
    order_is_value_order(x, y);
    lemma_sum_rank(x, z);
    lemma_sum_rank(y, z);
    let (a, b) = (x.value() + z.value(), y.value() + z.value());
    if a < 0 && b < 0 {
        rounding_is_monotone(-b, -a, 1);
    } else if a >= 0 {
        rounding_is_monotone(a, b, 1);
    } else {
        lemma_nearest_exists(-a, 1);
        lemma_nearest_exists(b, 1);
    }
}

/// A sum with a summand that is not negative is at least the other summand.
pub proof fn sums_do_not_shrink(x: Single, y: Single)
    requires
        x.is_finite(),
        y.is_finite(),
        Single::zero().at_most(y),
    ensures
        x.at_most(x.plus(y)),
{
    sums_and_products_commute(x, y);
    sums_and_products_commute(Single::zero(), x);
    sums_are_monotone(Single::zero(), y, x);
    exact_sums_are_exact(Single::zero(), x, x);
}

/// A fraction of a whole is between zero and one.
pub proof fn fractions_lie_in_the_unit_interval(num: i32, den: u32)
    requires
        0 <= num <= den,
        den > 0,
    ensures
        Single::ratio(num, den).is_finite(),
        Single::ratio(num, den).within(Single::zero(), Single::one()),
        !Single::ratio(num, den).is_negative(),
{
    reveal(Single::spec_ratio);
    lemma2_to64();
    let unit = pow2(149);
    let one = 0x3f80_0000int;
    lemma_pow2_adds(23, 126);
    assert(magnitude(one) == unit) by {
        assert(one / (BINADE as int) == 127);
        assert(one % (BINADE as int) == 0);
    }
    lemma_magnitude_increases(one - 1, one);
    lemma_magnitude_increases(one, one + 1);
    let (low, high) = (magnitude(one - 1), magnitude(one + 1));
    assert((low + unit) * den < 2 * (den * unit) && 2 * (den * unit) < (unit + high) * den)
        by (nonlinear_arith)
        requires
            low < unit,
            unit < high,
            den > 0,
    ;
    assert(nearest(den * unit, den as int, one));
    lemma_rounded(den * unit, den as int, one);
    assert(num * unit <= den * unit && 0 <= num * unit) by (nonlinear_arith)
        requires
            0 <= num <= den,
            0 < unit,
    ;
    rounding_is_monotone(num * unit, den * unit, den as int);
    lemma_nearest_exists(num * unit, den as int);
    lemma_encoded(false, rounded(num * unit, den as int));
}

/// Four is finite and positive.
pub proof fn lemma_four()
    ensures
        Single::ratio(4, 1).is_finite(),
        Single::zero().at_most(Single::ratio(4, 1)),
{
    reveal(Single::spec_ratio);
    lemma2_to64();
    let code = 0x4080_0000int;
    lemma_pow2_adds(23, 128);
    lemma_pow2_adds(2, 149);
    assert(magnitude(code) == 4 * pow2(149)) by {
        assert(code / (BINADE as int) == 129);
        assert(code % (BINADE as int) == 0);
    }
    lemma_magnitude_increases(code - 1, code);
    lemma_magnitude_increases(code, code + 1);
    assert(nearest((4 * pow2(149)) as int, 1, code));
    lemma_rounded((4 * pow2(149)) as int, 1, code);
    lemma_encoded(false, code);
}

/// A number that is no NaN stays one after four is added.
pub proof fn lemma_margin(x: Single)
    requires
        !x.is_nan(),
    ensures
        !x.plus(Single::ratio(4, 1)).is_nan(),
        !x.is_finite() ==> x.plus(Single::ratio(4, 1)) == x,
{
    lemma_four();
    reveal(Single::spec_plus);
    if x.is_finite() {
        lemma_sum_rank(x, Single::ratio(4, 1));
    }
}

} // verus!
