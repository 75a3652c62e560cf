//! What camera paths and the views along them are for, in exact numbers.

use crate::geometry::Turn;
use crate::plan::{CameraPathKind, SequencePlan, SequenceRequest};
use crate::config::GeneratorConfig;
use crate::rounding::{
    bounded_results_are_finite, differences_round, exact_results_are_kept, literals_round,
    negations_change_the_sign, neutral_operands, one_is_one, products_follow_signs, products_round,
    quotients_round, results_are_close, results_keep_order, rounds, size, small_literals,
    sums_round, whole_numbers,
};
use crate::sample_camera::{
    camera_path_position, path_angle, path_point, sequence_progress, smoothstep,
    CameraPathParameters, PathTurns,
};
use crate::single::{order_is_value_order, Single};
use crate::types::Vec3;
use crate::whole::unit;
use vstd::prelude::*;

verus! {

/// A share between nothing and all.
pub open spec fn is_share(x: Single) -> bool {
    x.is_finite() && 0 <= x.value() <= unit()
}

/// A sequence starts at no progress, ends at all of it and only moves on. A single frame is
/// half way.
pub proof fn sequences_run_from_start_to_end(i: u32, j: u32, frame_count: u32)
    requires
        i <= j < frame_count < 0x100_0000,
    ensures
        is_share(sequence_progress(i, frame_count)),
        sequence_progress(i, frame_count).value() <= sequence_progress(j, frame_count).value(),
        frame_count >= 2 ==> sequence_progress(0, frame_count).value() == 0,
        frame_count >= 2 ==> sequence_progress((frame_count - 1) as u32, frame_count)
            == Single::one(),
        frame_count == 1 ==> 2 * sequence_progress(0, 1).value() == unit(),
{
    one_is_one();
    small_literals();
    if frame_count >= 2 {
        let last = (frame_count - 1) as u32;
        let all = Single::from_u32(last);
        whole_numbers(last);
        whole_numbers(i);
        whole_numbers(j);
        whole_numbers(0);
        let u = unit();
        let (n, p, q) = (last as int, i as int, j as int);
        assert(n * u > 0 && 0 <= p * u <= q * u && q * u <= n * u && 0 * u == 0)
            by (nonlinear_arith)
            requires
                n >= 1,
                u > 0,
                0 <= p <= q <= n,
        ;
        let (a, b) = (sequence_progress(i, frame_count), sequence_progress(j, frame_count));
        let first = sequence_progress(0, frame_count);
        let end = sequence_progress(last, frame_count);
        quotients_round(Single::from_u32(i), all);
        quotients_round(Single::from_u32(j), all);
        quotients_round(Single::from_u32(0), all);
        quotients_round(all, all);
        let den = n * u;
        assert(0 * u * u == 0 && 0 * den == 0);
        exact_results_are_kept(first, 0, den, Single::zero());
        assert(den * u == u * den) by (nonlinear_arith);
        exact_results_are_kept(end, den * u, den, Single::one());
        let (x, y) = (p * u * u, q * u * u);
        assert(0 <= x <= y && y <= u * den) by (nonlinear_arith)
            requires
                x == p * u * u,
                y == q * u * u,
                den == n * u,
                0 <= p <= q <= n,
                u > 0,
        {
            assert(p * u <= q * u && q * u <= n * u);
            assert((p * u) * u <= (q * u) * u);
            assert((q * u) * u <= (n * u) * u);
            assert(0 <= (p * u) * u);
        }
        bounded_results_are_finite(a, x, den, Single::one());
        bounded_results_are_finite(b, y, den, Single::one());
        results_are_close(a, x, den);
        results_are_close(b, y, den);
        results_keep_order(a, b, x, y, den);
        order_is_value_order(a, b);
    }
}

pub(crate) proof fn lemma_progressed(sweep: Single, p: Single, q: Single)
    requires
        sweep.is_finite(),
        is_share(p),
        is_share(q),
        p.value() <= q.value(),
    ensures
        sweep.times(p).is_finite(),
        sweep.times(q).is_finite(),
        sweep.value() >= 0 ==> sweep.times(p).value() <= sweep.times(q).value(),
        sweep.value() <= 0 ==> sweep.times(q).value() <= sweep.times(p).value(),
{
    one_is_one();
    let u = unit();
    let (s, a, b) = (sweep.value(), p.value(), q.value());
    products_round(sweep, p);
    products_round(sweep, q);
    assert(size(s * a) <= size(s) * u && size(s * b) <= size(s) * u) by (nonlinear_arith)
        requires
            0 <= a <= u,
            0 <= b <= u,
    {
        assert(size(s * a) == size(s) * a);
        assert(size(s * b) == size(s) * b);
    }
    bounded_results_are_finite(sweep.times(p), s * a, u, sweep);
    bounded_results_are_finite(sweep.times(q), s * b, u, sweep);
    if s >= 0 {
        assert(s * a <= s * b) by (nonlinear_arith)
            requires
                s >= 0,
                a <= b,
        ;
        results_keep_order(sweep.times(p), sweep.times(q), s * a, s * b, u);
    }
    if s <= 0 {
        assert(s * b <= s * a) by (nonlinear_arith)
            requires
                s <= 0,
                a <= b,
        ;
        results_keep_order(sweep.times(q), sweep.times(p), s * b, s * a, u);
    }
    order_is_value_order(sweep.times(p), sweep.times(q));
    order_is_value_order(sweep.times(q), sweep.times(p));
}

/// Easing starts at nothing and ends at all.
pub proof fn easing_keeps_its_ends(zero: Single)
    requires
        zero.is_finite(),
        zero.value() == 0,
    ensures
        smoothstep(Single::one()) == Single::one(),
        smoothstep(zero).is_finite(),
        smoothstep(zero).value() == 0,
{
    one_is_one();
    small_literals();
    let (one, two, three) = (Single::one(), Single::ratio(2, 1), Single::ratio(3, 1));
    neutral_operands(one, Single::zero());
    neutral_operands(two, zero);
    differences_round(three, two);
    exact_results_are_kept(three.minus(two), unit(), 1, one);
    neutral_operands(zero, zero);
    let rest = three.minus(two.times(zero));
    neutral_operands(three, two.times(zero));
    neutral_operands(rest, zero.times(zero));
}

/// An orbit goes around by its sweep: it begins in the direction of its start, ends the sweep
/// further on, and turns one way between, the way of the sweep. A reveal around a corner goes
/// from start to end as well, an approach covers the same side, and a walk past the building
/// keeps its direction.
pub proof fn paths_sweep_their_arc(path: CameraPathParameters, p: Single, q: Single)
    requires
        path.start.is_finite(),
        path.sweep.is_finite(),
        is_share(p),
        is_share(q),
        p.value() <= q.value(),
    ensures
        p.value() == 0 ==> path_angle(path, p).equals(path.start),
        path.kind == CameraPathKind::Orbit || path.kind == CameraPathKind::CornerReveal ==> rounds(
            path_angle(path, Single::one()),
            path.start.value() + path.sweep.value(),
            1,
        ),
        path.kind == CameraPathKind::Orbit && path.sweep.value() >= 0 ==> path_angle(
            path,
            p,
        ).at_most(path_angle(path, q)),
        path.kind == CameraPathKind::Orbit && path.sweep.value() <= 0 ==> path_angle(
            path,
            q,
        ).at_most(path_angle(path, p)),
        path.kind == CameraPathKind::ApproachArc && path.sweep.value() >= 0 ==> path_angle(
            path,
            p,
        ).at_most(path_angle(path, q)) && path.start.at_most(path_angle(path, q)),
        path.kind == CameraPathKind::ApproachArc && path.sweep.value() <= 0 ==> path_angle(
            path,
            q,
        ).at_most(path_angle(path, p)) && path_angle(path, q).at_most(path.start),
        path.kind == CameraPathKind::ApproachArc ==> less_than_half(
            path_angle(path, q),
            path.start,
            path.sweep,
        ),
        path.kind == CameraPathKind::LateralWalk ==> path_angle(path, p) == path.start,
{
    one_is_one();
    let (start, sweep) = (path.start, path.sweep);
    let (zero, one) = (Single::zero(), Single::one());
    neutral_operands(sweep, zero);
    sums_round(start, sweep);
    lemma_progressed(sweep, p, q);
    if p.value() == 0 && path.kind != CameraPathKind::ApproachArc {
        neutral_operands(sweep, p);
        easing_keeps_its_ends(p);
        neutral_operands(sweep, smoothstep(p));
        neutral_operands(start, sweep.times(p));
        neutral_operands(start, sweep.times(smoothstep(p)));
        order_is_value_order(path_angle(path, p), start);
    }
    easing_keeps_its_ends(zero);
    sums_round(start, sweep.times(p));
    sums_round(start, sweep.times(q));
    if path.kind == CameraPathKind::Orbit {
        let (a, b) = (sweep.times(p).value(), sweep.times(q).value());
        if sweep.value() >= 0 {
            results_keep_order(
                path_angle(path, p),
                path_angle(path, q),
                start.value() + a,
                start.value() + b,
                1,
            );
        }
        if sweep.value() <= 0 {
            results_keep_order(
                path_angle(path, q),
                path_angle(path, p),
                start.value() + b,
                start.value() + a,
                1,
            );
        }
    }
    if path.kind == CameraPathKind::ApproachArc {
        lemma_approach(path, p, q);
    }
}

/// An angle is the number nearest to one that is less than half of a sweep from a start.
pub open spec fn less_than_half(angle: Single, start: Single, sweep: Single) -> bool {
    exists|turned: int| #[trigger]
        rounds(angle, start.value() + turned, 1) && 2 * size(turned) <= size(sweep.value()) + 1
}

proof fn lemma_approach(path: CameraPathParameters, p: Single, q: Single)
    requires
        path.kind == CameraPathKind::ApproachArc,
        path.start.is_finite(),
        path.sweep.is_finite(),
        is_share(p),
        is_share(q),
        p.value() <= q.value(),
    ensures
        p.value() == 0 ==> path_angle(path, p).equals(path.start),
        path.sweep.value() >= 0 ==> path_angle(path, p).at_most(path_angle(path, q))
            && path.start.at_most(path_angle(path, q)),
        path.sweep.value() <= 0 ==> path_angle(path, q).at_most(path_angle(path, p))
            && path_angle(path, q).at_most(path.start),
        less_than_half(path_angle(path, q), path.start, path.sweep),
{
    one_is_one();
    small_literals();
    let (start, sweep, zero) = (path.start, path.sweep, Single::zero());
    let share = Single::ratio(38, 100);
    let half = Single::ratio(5, 10);
    let u = unit();
    literals_round(38, 100);
    literals_round(0, 1);
    crate::bounds::ratios_keep_order(38, 100, 5, 10);
    crate::bounds::ratios_keep_order(0, 1, 38, 100);
    crate::bounds::ratios_are_finite(38, 100);
    crate::bounds::ratios_are_finite(0, 1);
    crate::bounds::literals_of_whole_numbers(1, 1);
    order_is_value_order(share, half);
    order_is_value_order(zero, share);
    assert(is_share(share));
    let part = sweep.times(share);
    let s = sweep.value();
    lemma_progressed(sweep, zero, share);
    neutral_operands(sweep, zero);
    products_round(sweep, share);
    products_round(sweep, half);
    assert(size(s * share.value()) <= size(s * half.value())) by (nonlinear_arith)
        requires
            0 <= share.value() <= half.value(),
    {
        assert(size(s * share.value()) == size(s) * share.value());
        assert(size(s * half.value()) == size(s) * half.value());
    }
    lemma_half(sweep, part, share);
    lemma_progressed(part, p, q);
    lemma_progressed(part, zero, q);
    neutral_operands(part, zero);
    let (x, y) = (part.times(p), part.times(q));
    products_round(part, q);
    assert(size(part.value() * q.value()) <= size(part.value()) * u) by (nonlinear_arith)
        requires
            0 <= q.value() <= u,
    {
        assert(size(part.value() * q.value()) == size(part.value()) * q.value());
    }
    bounded_results_are_finite(y, part.value() * q.value(), u, part);
    sums_round(start, x);
    sums_round(start, y);
    sums_round(start, zero);
    neutral_operands(start, zero);
    order_is_value_order(start, start.plus(zero));
    assert(rounds(path_angle(path, q), start.value() + y.value(), 1));
    if p.value() == 0 {
        neutral_operands(part, p);
        neutral_operands(start, x);
        order_is_value_order(path_angle(path, p), start);
    }
    let (a, b) = (start.value() + x.value(), start.value() + y.value());
    if s >= 0 {
        results_keep_order(start.plus(x), start.plus(y), a, b, 1);
        results_keep_order(start.plus(zero), start.plus(y), start.value(), b, 1);
    }
    if s <= 0 {
        results_keep_order(start.plus(y), start.plus(x), b, a, 1);
        results_keep_order(start.plus(y), start.plus(zero), b, start.value(), 1);
    }
}

proof fn lemma_half(sweep: Single, part: Single, share: Single)
    requires
        sweep.is_finite(),
        is_share(share),
        2 * share.value() <= unit(),
        part == sweep.times(share),
    ensures
        2 * size(part.value()) <= size(sweep.value()) + 1,
{
    one_is_one();
    let u = unit();
    let (s, h) = (sweep.value(), share.value());
    products_round(sweep, share);
    assert(size(s * h) * 2 <= size(s) * u) by (nonlinear_arith)
        requires
            0 <= 2 * h <= u,
    {
        assert(size(s * h) == size(s) * h);
    }
    let (t, m) = crate::single::lemma_split(sweep.code());
    if t == 0 {
        vstd::arithmetic::power2::lemma2_to64();
        assert(size(s) == m * 1);
        let up = (size(s) + 1) / 2;
        let code = crate::bounds::lemma_representable(up, 0);
        let x = Single::encoded(false, code);
        assert(x.code() == code);
        assert(x.value() == up * 1);
        assert(size(s * h) <= up * u) by (nonlinear_arith)
            requires
                size(s * h) * 2 <= size(s) * u,
                size(s) <= 2 * up,
                u > 0,
        {
            assert(size(s) * u <= (2 * up) * u);
        }
        bounded_results_are_finite(part, s * h, u, x);
    } else {
        let code = crate::bounds::lemma_representable(m, (t - 1) as nat);
        let x = Single::encoded(false, code);
        vstd::arithmetic::power2::lemma_pow2_unfold(t);
        let w = vstd::arithmetic::power2::pow2((t - 1) as nat) as int;
        assert(m * (2 * w) == 2 * (m * w)) by (nonlinear_arith);
        assert(code < (t + 1) * 0x80_0000);
        assert(x.code() == code);
        assert(2 * x.value() == size(s));
        assert(size(s * h) <= x.value() * u) by (nonlinear_arith)
            requires
                size(s * h) * 2 <= size(s) * u,
                2 * x.value() == size(s),
        ;
        bounded_results_are_finite(part, s * h, u, x);
    }
}

/// A length in a direction: each coordinate is the number nearest to the exact product.
pub open spec fn lies_in(position: Vec3, turn: Turn, radius: Single, height: Single) -> bool {
    &&& rounds(position.x, turn.cosine.value() * radius.value(), unit())
    &&& rounds(position.z, turn.sine.value() * radius.value(), unit())
    &&& position.y == height
}

/// A radius is a distance and a share more of it, up to one part in `2^21` of the distance.
pub open spec fn moved_by(radius: Single, distance: Single, share: int) -> bool {
    size(radius.value() * unit() - distance.value() * (unit() + share)) * 0x20_0000
        <= distance.value() * unit()
}

proof fn lemma_moved(distance: Single, share: Single)
    requires
        is_usual_length(distance),
        share.is_finite(),
        size(share.value()) < unit(),
    ensures
        ({
            let radius = distance.times(Single::one().plus(share));
            &&& radius.is_finite()
            &&& moved_by(radius, distance, share.value())
            &&& share.value() >= 0 ==> distance.at_most(radius)
            &&& share.value() <= 0 ==> radius.at_most(distance)
        }),
{
    one_is_one();
    small_literals();
    let (one, two) = (Single::one(), Single::ratio(2, 1));
    let u = unit();
    let t = one.plus(share);
    let (d, m) = (distance.value(), share.value());
    sums_round(one, share);
    bounded_results_are_finite(t, u + m, 1, two);
    results_are_close(t, u + m, 1);
    let r = distance.times(t);
    let e = t.value();
    products_round(distance, t);
    vstd::arithmetic::power2::lemma_pow2_pos(100);
    vstd::arithmetic::power2::lemma2_to64();
    vstd::arithmetic::power2::lemma_pow2_adds(64, 36);
    vstd::arithmetic::power2::lemma_pow2_pos(36);
    vstd::arithmetic::power2::lemma_pow2_adds(1, 213);
    crate::single::lemma_magnitude(191, 0x80_0000);
    vstd::arithmetic::power2::lemma_pow2_adds(23, 191);
    let large = Single { bits: 0x6000_0000 };
    assert(large.code() == 191 * 0x80_0000 + 0x80_0000);
    assert(large.value() == 2 * vstd::arithmetic::power2::pow2(213));
    assert(0 <= d * e <= large.value() * u) by (nonlinear_arith)
        requires
            0 <= d,
            2 * d <= large.value(),
            0 <= e <= 2 * u,
    {
        assert(d * e <= d * (2 * u));
        assert((2 * d) * u <= large.value() * u);
    }
    bounded_results_are_finite(r, d * e, u, large);
    results_are_close(r, d * e, u);
    let k = r.value();
    let h = 0x80_0000int;
    assert(0x1_0000_0000 * h <= d && 0x1_0000_0000 * h <= u) by {
        assert(d >= 0x1_0000_0000_0000_0000);
        vstd::arithmetic::power2::lemma_pow2_adds(100, 49);
        vstd::arithmetic::power2::lemma_pow2_pos(49);
        let (a, b) = (
            vstd::arithmetic::power2::pow2(100) as int,
            vstd::arithmetic::power2::pow2(49) as int,
        );
        assert(a * b >= a) by (nonlinear_arith)
            requires
                a > 0,
                b >= 1,
        ;
    }
    let (x, y) = (k * u - d * e, e - (u + m));
    assert(k * u - d * (u + m) == x + d * y) by (nonlinear_arith)
        requires
            x == k * u - d * e,
            y == e - (u + m),
    ;
    assert(size(d * y) * 0x100_0000 <= d * (2 * u + h)) by (nonlinear_arith)
        requires
            size(y) * 0x100_0000 <= 2 * u + h,
            d >= 0,
    {
        assert(size(d * y) == d * size(y));
        assert(d * (size(y) * 0x100_0000) <= d * (2 * u + h));
    }
    assert(d * e <= 2 * (d * u) && h * u <= d * u && d * h <= d * u && d * (2 * u + h) == 2 * (d
        * u) + d * h) by (nonlinear_arith)
        requires
            0 <= e <= 2 * u,
            h <= d,
            h <= u,
            d >= 0,
            u >= 0,
    ;
    assert((size(x) + size(d * y)) * 0x100_0000 <= 6 * (d * u));
    neutral_operands(distance, Single::zero());
    products_round(distance, one);
    if m >= 0 {
        assert(rounds(one, u, 1)) by {
            neutral_operands(one, Single::zero());
            sums_round(one, Single::zero());
        }
        results_keep_order(one, t, u, u + m, 1);
        order_is_value_order(one, t);
        assert(d * u <= d * e) by (nonlinear_arith)
            requires
                u <= e,
                d >= 0,
        ;
        results_keep_order(distance, r, d * u, d * e, u);
    }
    if m <= 0 {
        assert(rounds(one, u, 1)) by {
            neutral_operands(one, Single::zero());
            sums_round(one, Single::zero());
        }
        results_keep_order(t, one, u + m, u, 1);
        order_is_value_order(t, one);
        assert(d * e <= d * u) by (nonlinear_arith)
            requires
                e <= u,
                d >= 0,
        ;
        results_keep_order(r, distance, d * e, d * u, u);
    }
}

/// A length of some size, and not beyond all measure.
pub open spec fn is_usual_length(x: Single) -> bool {
    &&& x.is_finite()
    &&& vstd::arithmetic::power2::pow2(100) <= x.value() <= vstd::arithmetic::power2::pow2(213)
}

/// A camera before sway is at its height over the ground, and in the direction of its turn.
/// Half way along, every path is at its distance from the building. A reveal stays there, an
/// orbit comes from the distance less the radial motion and ends at the distance and the
/// motion more, and an approach comes from further away and ends nearer.
pub proof fn paths_keep_their_distance(path: CameraPathParameters, turn: Turn)
    requires
        is_usual_length(path.distance),
        path.radial_motion.is_finite(),
        path.approach_amount.is_finite(),
        size(path.radial_motion.value()) < unit(),
        0 <= path.approach_amount.value() < unit(),
        path.lateral_span.is_finite(),
        turn.cosine.is_finite(),
        turn.sine.is_finite(),
    ensures
        ({
            let half = path_point(path, Single::ratio(5, 10), turn);
            let first = path_point(path, Single::zero(), turn);
            let last = path_point(path, Single::one(), turn);
            &&& path.kind != CameraPathKind::LateralWalk ==> lies_in(
                half,
                turn,
                path.distance,
                path.height,
            )
            &&& path.kind == CameraPathKind::CornerReveal ==> first == half && last == half
            &&& path.kind == CameraPathKind::Orbit ==> exists|near: Single, far: Single|
                {
                    &&& #[trigger] lies_in(first, turn, near, path.height)
                    &&& #[trigger] lies_in(last, turn, far, path.height)
                    &&& path.radial_motion.value() >= 0 ==> near.at_most(path.distance)
                        && path.distance.at_most(far)
                    &&& path.radial_motion.value() <= 0 ==> far.at_most(path.distance)
                        && path.distance.at_most(near)
                    &&& moved_by(near, path.distance, -path.radial_motion.value())
                    &&& moved_by(far, path.distance, path.radial_motion.value())
                }
            &&& path.kind == CameraPathKind::ApproachArc ==> exists|near: Single, far: Single|
                {
                    &&& #[trigger] lies_in(first, turn, far, path.height)
                    &&& #[trigger] lies_in(last, turn, near, path.height)
                    &&& near.at_most(path.distance)
                    &&& path.distance.at_most(far)
                    &&& moved_by(near, path.distance, -path.approach_amount.value())
                    &&& moved_by(far, path.distance, path.approach_amount.value())
                }
        }),
{
    one_is_one();
    small_literals();
    let (zero, one, two) = (Single::zero(), Single::one(), Single::ratio(2, 1));
    let half = Single::ratio(5, 10);
    let u = unit();
    products_round(two, half);
    assert(two.value() * half.value() == u * u) by (nonlinear_arith)
        requires
            two.value() == 2 * u,
            2 * half.value() == u,
    ;
    exact_results_are_kept(two.times(half), u * u, u, one);
    neutral_operands(one, zero);
    neutral_operands(two, zero);
    neutral_operands(path.radial_motion, one.minus(one));
    neutral_operands(path.approach_amount, one.minus(one));
    neutral_operands(one, path.radial_motion.times(one.minus(one)));
    neutral_operands(one, path.approach_amount.times(one.minus(one)));
    neutral_operands(path.distance, zero);
    differences_round(two, one);
    exact_results_are_kept(two.minus(one), u, 1, one);
    neutral_operands(path.radial_motion, zero);
    neutral_operands(path.approach_amount, zero);
    negations_change_the_sign(one);
    let minus = one.negated();
    differences_round(two.times(zero), one);
    exact_results_are_kept(two.times(zero).minus(one), -u, 1, minus);
    differences_round(one, two);
    exact_results_are_kept(one.minus(two), -u, 1, minus);
    neutral_operands(one, two.times(zero));
    products_follow_signs(path.radial_motion, one);
    products_follow_signs(path.approach_amount, one);
    negations_change_the_sign(path.radial_motion);
    negations_change_the_sign(path.approach_amount);
    products_round(turn.cosine, path.distance);
    products_round(turn.sine, path.distance);
    let d = path.distance;
    if path.kind == CameraPathKind::Orbit {
        lemma_moved(d, path.radial_motion);
        lemma_moved(d, path.radial_motion.negated());
        let near = d.times(one.plus(path.radial_motion.negated()));
        let far = d.times(one.plus(path.radial_motion));
        if near.is_finite() && far.is_finite() {
            products_round(turn.cosine, near);
            products_round(turn.sine, near);
            products_round(turn.cosine, far);
            products_round(turn.sine, far);
            assert(lies_in(path_point(path, zero, turn), turn, near, path.height));
            assert(lies_in(path_point(path, one, turn), turn, far, path.height));
        }
    }
    if path.kind == CameraPathKind::ApproachArc {
        lemma_moved(d, path.approach_amount);
        lemma_moved(d, path.approach_amount.negated());
        let near = d.times(one.plus(path.approach_amount.negated()));
        let far = d.times(one.plus(path.approach_amount));
        if near.is_finite() && far.is_finite() {
            products_round(turn.cosine, near);
            products_round(turn.sine, near);
            products_round(turn.cosine, far);
            products_round(turn.sine, far);
            assert(lies_in(path_point(path, zero, turn), turn, far, path.height));
            assert(lies_in(path_point(path, one, turn), turn, near, path.height));
        }
    }
}

/// No try changes what was sampled of a path: its kind, the arc that it sweeps, its height
/// and its sway. Only its distance, its direction and how far it moves in and out may change,
/// and the motion never grows.
pub proof fn tries_keep_the_sampled_path(
    initial: CameraPathParameters,
    corridor: crate::sample_camera::PathCorridor,
    attempt: u32,
)
    ensures
        ({
            let path = crate::sample_camera::tried_path(initial, corridor, attempt);
            &&& path.kind == initial.kind
            &&& path.sweep == initial.sweep
            &&& path.height == initial.height
            &&& path.handheld_sway == initial.handheld_sway
            &&& path.sway_phase == initial.sway_phase
            &&& path.kind != CameraPathKind::Orbit ==> path.radial_motion == initial.radial_motion
            &&& path.kind != CameraPathKind::ApproachArc ==> path.approach_amount
                == initial.approach_amount
        }),
{
}

/// What a plan says of its cameras is what was drawn for them.
pub proof fn motions_tell_what_was_drawn(
    plan: SequencePlan,
    c: GeneratorConfig,
    fingerprint: Seq<char>,
    request: SequenceRequest,
    turn: spec_fn(Single) -> Turn,
    tangent: spec_fn(Single) -> Single,
)
    requires
        crate::sample_plan::plan_is(plan, c, fingerprint, request, turn, tangent),
    ensures
        ({
            let drawn = crate::sample_camera::sample_camera_choices(
                request.building_seed,
                c.camera,
            );
            let motion = plan.camera_motion;
            &&& motion.path_kind == drawn.path_kind
            &&& motion.framing_intent == drawn.framing_intent
            &&& motion.apparent_scale == drawn.apparent_scale
            &&& motion.target_width_fraction_goal == drawn.target_width_fraction_goal
            &&& motion.start_horizontal_fov_degrees == drawn.start_fov_degrees
            &&& motion.handheld_sway_m == drawn.handheld_sway
            &&& motion.target_center.x == Single::zero()
            &&& motion.target_center.z == Single::zero()
        }),
{
    reveal(crate::sample_plan::plan_is);
    reveal(crate::sample_plan::scene_is);
    reveal(crate::sample_plan::cameras_are);
}

/// The cameras of an orbit go around the building by the arc that was drawn: the first one
/// stands in the direction of some start, the last one in the direction of that start and the
/// sweep more, to the nearest number.
pub proof fn orbiting_cameras_go_around(
    plan: SequencePlan,
    c: GeneratorConfig,
    fingerprint: Seq<char>,
    request: SequenceRequest,
    turn: spec_fn(Single) -> Turn,
    tangent: spec_fn(Single) -> Single,
)
    requires
        crate::sample_plan::plan_is(plan, c, fingerprint, request, turn, tangent),
        plan.camera_motion.path_kind == CameraPathKind::Orbit,
        2 <= c.sequence.frame_count < 0x100_0000,
        crate::sample_camera::sample_camera_choices(
            request.building_seed,
            c.camera,
        ).sweep.is_finite(),
    ensures
        ({
            let sweep = crate::sample_camera::sample_camera_choices(
                request.building_seed,
                c.camera,
            ).sweep;
            let count = c.sequence.frame_count as int;
            exists|path: CameraPathParameters, first: Single, last: Single|
                {
                    &&& path.kind == CameraPathKind::Orbit
                    &&& path.sweep == sweep
                    &&& #[trigger] seen_from(plan.frames@[0].camera, path, turn(first))
                    &&& #[trigger] seen_from(plan.frames@[count - 1].camera, path, turn(last))
                    &&& path.start.is_finite() ==> {
                        &&& first.equals(path.start)
                        &&& rounds(last, path.start.value() + sweep.value(), 1)
                    }
                }
        }),
{
    reveal(crate::sample_plan::plan_is);
    reveal(crate::sample_plan::scene_is);
    reveal(crate::sample_plan::cameras_are);
    let count = c.sequence.frame_count;
    let seed = request.building_seed;
    let building = crate::sampler::building_of(c, seed)->0;
    let around = crate::sample_plan::surroundings_of(plan.scene, building, turn);
    let path = crate::sample_plan::path_of(c, seed, around, turn, tangent);
    let initial = crate::sample_plan::initial_of(c, seed, around.roof, tangent);
    let corridor = around.corridor(initial, c.camera.distance_m.min);
    tries_keep_the_sampled_path(
        initial,
        corridor,
        around.settled_try(initial, corridor, 0, count, turn),
    );
    let stations = crate::sample_plan::stations(path, count, turn);
    let turns = crate::sample_plan::path_turns(path, count, turn);
    let (i, j) = (0u32, (count - 1) as u32);
    sequences_run_from_start_to_end(i, j, count);
    let (p, q) = (sequence_progress(i, count), sequence_progress(j, count));
    let (first, last) = (path_angle(path, p), path_angle(path, q));
    assert(turns[0].turn == turn(first));
    assert(turns[count - 1].turn == turn(last));
    assert(stations[0] == camera_path_position(path, p, turns[0]));
    assert(stations[count - 1] == camera_path_position(path, q, turns[count - 1]));
    if path.start.is_finite() {
        one_is_one();
        paths_sweep_their_arc(path, p, q);
    }
    assert(seen_from(plan.frames@[0].camera, path, turn(first)));
    assert(seen_from(plan.frames@[count - 1].camera, path, turn(last)));
}

/// A camera stands on its path in the direction of a turn, but for its sway.
pub open spec fn seen_from(
    camera: crate::record::CameraModel,
    path: CameraPathParameters,
    turn: Turn,
) -> bool {
    exists|progress: Single, sway: Single, bob: Single|
        camera.world_from_camera.translation == #[trigger] camera_path_position(
            path,
            progress,
            PathTurns { turn, sway, bob },
        )
}

/// Sway moves a camera sideways, along the tangent of its turn, and up and down, a third as
/// much: without it the camera is at its point of the path, and the height never changes by
/// more than a third of the amplitude.
pub proof fn sway_stays_small(path: CameraPathParameters, progress: Single, turns: PathTurns)
    requires
        path.handheld_sway.is_finite(),
        path.handheld_sway.value() >= 0,
        turns.turn.sine.is_finite(),
        turns.turn.cosine.is_finite(),
        turns.sway.is_finite(),
        turns.bob.is_finite(),
        size(turns.bob.value()) <= unit(),
        size(turns.sway.value()) <= unit(),
        path_point(path, progress, turns.turn).is_finite(),
    ensures
        ({
            let point = path_point(path, progress, turns.turn);
            let place = camera_path_position(path, progress, turns);
            let amplitude = path.handheld_sway.value();
            &&& amplitude == 0 ==> place.x.equals(point.x) && place.z.equals(point.z)
                && place.y.equals(point.y)
            &&& exists|lift: int| #[trigger]
                rounds(place.y, point.y.value() + lift, 1) && 3 * size(lift) <= amplitude + 3
        }),
{
    one_is_one();
    let zero = Single::zero();
    let sway = path.handheld_sway;
    let point = path_point(path, progress, turns.turn);
    let t = turns.turn;
    let side = sway.times(turns.sway);
    negations_change_the_sign(t.sine);
    let share = Single::ratio(32, 100);
    literals_round(32, 100);
    let u = unit();
    bounded_results_are_finite(share, 32 * u, 100, Single::one());
    results_are_close(share, 32 * u, 100);
    let third = sway.times(share);
    products_round(sway, share);
    let (a, s) = (sway.value(), share.value());
    crate::bounds::ratios_keep_order(32, 100, 333, 1000);
    assert(0 <= a * s <= a * u) by (nonlinear_arith)
        requires
            0 <= s <= u,
            a >= 0,
    ;
    bounded_results_are_finite(third, a * s, u, sway);
    results_are_close(third, a * s, u);
    let lift = third.times(turns.bob);
    products_round(third, turns.bob);
    let b = turns.bob.value();
    let h = third.value();
    assert(size(h * b) <= size(h) * u) by (nonlinear_arith)
        requires
            size(b) <= u,
    {
        assert(size(h * b) == size(h) * size(b));
    }
    bounded_results_are_finite(lift, h * b, u, third);
    assert(3 * h <= a + 3) by {
        assert(100 * s * 0x100_0000 <= 32 * u * 0x100_0000 + 32 * u + 0x80_0000 * 100);
        lemma_unit_wide();
        assert(300 * s <= 97 * u);
        assert(300 * (a * s) <= 97 * (a * u)) by (nonlinear_arith)
            requires
                300 * s <= 97 * u,
                a >= 0,
        ;
        assert(h * u * 0x100_0000 <= a * s * 0x100_0001 + 0x80_0000 * u);
        assert(3 * h <= a + 3) by (nonlinear_arith)
            requires
                h * u * 0x100_0000 <= a * s * 0x100_0001 + 0x80_0000 * u,
                300 * (a * s) <= 97 * (a * u),
                a >= 0,
                u > 0,
        {
            if 3 * h > a + 3 {
                assert((3 * h) * u >= (a + 3) * u);
            }
        }
    }
    let v = turns.sway.value();
    products_round(sway, turns.sway);
    assert(size(a * v) <= size(a) * u) by (nonlinear_arith)
        requires
            size(v) <= u,
    {
        assert(size(a * v) == size(a) * size(v));
    }
    bounded_results_are_finite(side, a * v, u, sway);
    neutral_operands(side, zero);
    let flat = zero.times(side);
    neutral_operands(point.y, flat);
    let level = point.y.plus(flat);
    sums_round(level, lift);
    let place = camera_path_position(path, progress, turns);
    assert(rounds(place.y, point.y.value() + lift.value(), 1));
    if a == 0 {
        neutral_operands(turns.sway, sway);
        neutral_operands(t.sine.negated(), side);
        neutral_operands(t.cosine, side);
        neutral_operands(point.x, t.sine.negated().times(side));
        neutral_operands(point.z, t.cosine.times(side));
        neutral_operands(share, sway);
        neutral_operands(turns.bob, third);
        neutral_operands(level, lift);
        order_is_value_order(place.x, point.x);
        order_is_value_order(place.y, point.y);
        order_is_value_order(place.z, point.z);
    }
}

proof fn lemma_unit_wide()
    ensures
        unit() >= 0x1_0000_0000_0000_0000,
{
    vstd::arithmetic::power2::lemma2_to64();
    vstd::arithmetic::power2::lemma_pow2_adds(64, 85);
    vstd::arithmetic::power2::lemma_pow2_pos(85);
    let p = vstd::arithmetic::power2::pow2(85) as int;
    assert(0x1_0000_0000_0000_0000 * p >= 0x1_0000_0000_0000_0000) by (nonlinear_arith)
        requires
            p >= 1,
    ;
}

} // verus!
