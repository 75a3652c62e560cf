//! What keeps its distance to what.

use crate::composition::{
    SampledBackgroundBuilding, SampledBuildingExtension, SampledComposition, SampledVegetation,
    VegetationKind,
};
use crate::geometry::{
    actual_roof_envelope, background_camera_bounds, background_view_bounds, camera_clearance_bounds,
    camera_collision_clearance_m, camera_view_clearance_m, clipped, content_half_extent,
    extension_camera_bounds, ground_edge_margin_m, occluder_camera_bounds,
    occluder_target_clearance_m, outside_target_footprint, over_backgrounds, over_cameras,
    over_extensions, over_occluders, over_plants, over_poles, point_inside_aabb,
    point_intersects_scene, point_meets_occluders, point_meets_vegetation, roof_center, roof_extent,
    rooftop_edge_clearance_m, rotated_half_extents, segment_intersects_aabb,
    segment_intersects_scene, segment_meets_occluders, segment_meets_vegetation,
    target_camera_bounds, vegetation_camera_bounds, vegetation_camera_radius,
    view_meets_backgrounds, widened, widened_to_infrastructure, widened_to_pavement, Aabb,
    CameraObstacleSize, RoofEnvelope, SceneTurns, Span, Turn,
};
use crate::plan::{SampledBuilding, SampledOccluder, SampledScene};
use crate::rounding::{
    bounded_results_are_finite, differences_round, exact_results_are_kept, literals_round,
    negations_change_the_sign, neutral_operands, one_is_one, products_round, quotients_follow_signs,
    quotients_round, results_are_close, results_keep_order, rounds, size, small_literals,
    sums_round, whole_literals,
};
use crate::single::{order_is_value_order, Single};
use crate::types::Vec3;
use crate::whole::unit;
use vstd::arithmetic::power2::pow2;
use vstd::prelude::*;

verus! {

/// Cameras keep a metre to every solid and their view half a metre, objects three quarters of
/// one to the building, and the ground goes on for four metres.
pub proof fn clearances_are_what_they_are()
    ensures
        camera_collision_clearance_m().value() == unit(),
        2 * camera_view_clearance_m().value() == unit(),
        rounds(occluder_target_clearance_m(), 3 * unit(), 4),
        rounds(rooftop_edge_clearance_m(), 3 * unit(), 20),
        ground_edge_margin_m().value() == 4 * unit(),
{
    one_is_one();
    small_literals();
    whole_literals(4);
    literals_round(75, 100);
    literals_round(15, 100);
    crate::bounds::lemma_same_fraction(3 * unit(), 4, 25);
    crate::bounds::lemma_same_fraction(3 * unit(), 20, 5);
}

/// A box holds what lies between its corners, and nothing else.
pub proof fn boxes_hold_what_lies_between_their_corners(point: Vec3, bounds: Aabb)
    requires
        point.is_finite(),
        bounds.minimum.is_finite(),
        bounds.maximum.is_finite(),
    ensures
        point_inside_aabb(point, bounds) <==> {
            &&& bounds.minimum.x.value() <= point.x.value() <= bounds.maximum.x.value()
            &&& bounds.minimum.y.value() <= point.y.value() <= bounds.maximum.y.value()
            &&& bounds.minimum.z.value() <= point.z.value() <= bounds.maximum.z.value()
        },
{
    order_is_value_order(bounds.minimum.x, point.x);
    order_is_value_order(point.x, bounds.maximum.x);
    order_is_value_order(bounds.minimum.y, point.y);
    order_is_value_order(point.y, bounds.maximum.y);
    order_is_value_order(bounds.minimum.z, point.z);
    order_is_value_order(point.z, bounds.maximum.z);
}

/// A number without its sign.
pub(crate) proof fn lemma_abs(x: Single)
    ensures
        x.is_finite() ==> x.abs().is_finite() && x.abs().value() == size(x.value()),
        x.negated().abs() == x.abs(),
        x.is_nan() == x.abs().is_nan(),
{
    crate::rounding::lemma_value(x);
    crate::rounding::lemma_value(x.abs());
}

/// What a box reaches to one side: its own share along that axis and that of its other side.
pub open spec fn reaches_aside(r: Single, c: Single, w: Single, s: Single, d: Single) -> bool {
    exists|p: Single, q: Single, a: Single, b: Single|
        {
            &&& #[trigger] rounds(p, size(c.value()) * w.value(), unit())
            &&& #[trigger] rounds(a, p.value(), 2)
            &&& #[trigger] rounds(q, size(s.value()) * d.value(), unit())
            &&& #[trigger] rounds(b, q.value(), 2)
            &&& rounds(r, a.value() + b.value(), 1)
        }
}

/// An unturned box reaches half of its own width and depth, one that is turned by a quarter
/// half of its depth and width, and between them each side counts with its share. Turning
/// the other way reaches as far.
pub proof fn boxes_reach_as_they_are_turned(extent: Vec3, turn: Turn)
    requires
        extent.is_finite(),
        turn.cosine.is_finite(),
        turn.sine.is_finite(),
        size(turn.cosine.value()) <= unit(),
        size(turn.sine.value()) <= unit(),
    ensures
        ({
            let half = rotated_half_extents(extent, turn);
            &&& reaches_aside(half.x, turn.cosine, extent.x, turn.sine, extent.z)
            &&& reaches_aside(half.z, turn.sine, extent.x, turn.cosine, extent.z)
        }),
        turn.cosine == Single::one() && turn.sine == Single::zero() ==> exists|x: Single|
            #[trigger] rounds(x, extent.x.value(), 2) && rotated_half_extents(
                extent,
                turn,
            ).x.value() == x.value(),
        turn.cosine == Single::zero() && turn.sine == Single::one() ==> exists|x: Single|
            #[trigger] rounds(x, extent.z.value(), 2) && rotated_half_extents(
                extent,
                turn,
            ).x.value() == x.value(),
        rotated_half_extents(extent, turn) == rotated_half_extents(
            extent,
            Turn { cosine: turn.cosine.negated(), sine: turn.sine },
        ),
        rotated_half_extents(extent, turn) == rotated_half_extents(
            extent,
            Turn { cosine: turn.cosine, sine: turn.sine.negated() },
        ),
{
    one_is_one();
    lemma_abs(turn.cosine);
    lemma_abs(turn.sine);
    let (c, s) = (turn.cosine.abs(), turn.sine.abs());
    lemma_reaches(c, extent.x, s, extent.z);
    lemma_reaches(s, extent.x, c, extent.z);
    assert(size(c.value()) == size(turn.cosine.value()));
    assert(size(s.value()) == size(turn.sine.value()));
    if turn.cosine == Single::one() && turn.sine == Single::zero() {
        lemma_unturned(extent.x, extent.z);
    }
    if turn.cosine == Single::zero() && turn.sine == Single::one() {
        lemma_unturned(extent.z, extent.x);
        let half = Single::ratio(5, 10);
        let (x, z) = (
            Single::zero().times(extent.x).times(half),
            Single::one().times(extent.z).times(half),
        );
        crate::single::sums_and_products_commute(x, z);
    }
}

proof fn lemma_unturned(own: Single, other: Single)
    requires
        own.is_finite(),
        other.is_finite(),
    ensures
        ({
            let half = Single::ratio(5, 10);
            let x = Single::one().times(own).times(half);
            let none = Single::zero().times(other).times(half);
            &&& x.is_finite() && none.is_finite()
            &&& rounds(x, own.value(), 2)
            &&& x.plus(none).value() == x.value()
        }),
{
    one_is_one();
    small_literals();
    let half = Single::ratio(5, 10);
    let zero = Single::zero();
    neutral_operands(own, zero);
    neutral_operands(other, zero);
    crate::framing_laws::lemma_half_rounds(own);
    let x = own.times(half);
    bounded_results_are_finite(x, own.value(), 2, own);
    neutral_operands(half, zero.times(other));
    neutral_operands(x, zero.times(other).times(half));
}

proof fn lemma_shrinks(c: Single, w: Single)
    requires
        c.is_finite(),
        w.is_finite(),
        0 <= c.value() <= unit(),
    ensures
        c.times(w).is_finite(),
        rounds(c.times(w), c.value() * w.value(), unit()),
{
    one_is_one();
    products_round(c, w);
    let (a, b, u) = (c.value(), w.value(), unit());
    assert(size(a * b) <= size(b) * u) by (nonlinear_arith)
        requires
            0 <= a <= u,
    ;
    bounded_results_are_finite(c.times(w), a * b, u, w);
}

proof fn lemma_reaches(c: Single, w: Single, s: Single, d: Single)
    requires
        c.is_finite(),
        w.is_finite(),
        s.is_finite(),
        d.is_finite(),
        0 <= c.value() <= unit(),
        0 <= s.value() <= unit(),
    ensures
        ({
            let half = Single::ratio(5, 10);
            reaches_aside(c.times(w).times(half).plus(s.times(d).times(half)), c, w, s, d)
        }),
{
    let half = Single::ratio(5, 10);
    lemma_shrinks(c, w);
    lemma_shrinks(s, d);
    let (p, q) = (c.times(w), s.times(d));
    crate::framing_laws::lemma_half_rounds(p);
    crate::framing_laws::lemma_half_rounds(q);
    let (a, b) = (p.times(half), q.times(half));
    bounded_results_are_finite(a, p.value(), 2, p);
    bounded_results_are_finite(b, q.value(), 2, q);
    sums_round(a, b);
    assert(rounds(p, size(c.value()) * w.value(), unit()));
    assert(rounds(q, size(s.value()) * d.value(), unit()));
    assert(rounds(a, p.value(), 2));
    assert(rounds(b, q.value(), 2));
}

/// A number of some size, and not beyond all measure.
pub open spec fn is_place(x: Single) -> bool {
    x.is_finite() && size(x.value()) <= pow2(213)
}

/// A point that is not beyond all measure.
pub open spec fn is_position(point: Vec3) -> bool {
    is_place(point.x) && is_place(point.y) && is_place(point.z)
}

proof fn lemma_gap(a: Single, b: Single)
    requires
        is_place(a),
        is_place(b),
    ensures
        a.minus(b).is_finite(),
        rounds(a.minus(b), a.value() - b.value(), 1),
{
    differences_round(a, b);
    let num = a.value() - b.value();
    let top = crate::site_laws::lemma_sum_fits(size(num));
    bounded_results_are_finite(a.minus(b), num, 1, top);
}

/// Which way a quotient points.
proof fn lemma_quotient(x: Single, y: Single)
    requires
        x.is_finite(),
        y.is_finite(),
        y.value() != 0,
    ensures
        !x.over(y).is_nan(),
        x.value() >= 0 && y.value() > 0 ==> x.over(y).rank() >= 0,
        x.value() <= 0 && y.value() > 0 ==> x.over(y).rank() <= 0,
        x.value() >= 0 && y.value() < 0 ==> x.over(y).rank() <= 0,
        x.value() <= 0 && y.value() < 0 ==> x.over(y).rank() >= 0,
{
    one_is_one();
    let (p, u) = (x.value(), unit());
    assert(p >= 0 ==> p * u >= 0) by (nonlinear_arith)
        requires
            u > 0,
    ;
    assert(p <= 0 ==> p * u <= 0) by (nonlinear_arith)
        requires
            u > 0,
    ;
    let z = Single::zero();
    let d = if y.value() > 0 {
        y
    } else {
        y.negated()
    };
    negations_change_the_sign(y);
    quotients_round(x, d);
    lemma_zero(d.value());
    if p >= 0 {
        results_keep_order(z, x.over(d), 0, p * u, d.value());
    }
    if p <= 0 {
        results_keep_order(x.over(d), z, p * u, 0, d.value());
    }
    if y.value() < 0 {
        quotients_follow_signs(x, d);
        negations_change_the_sign(x.over(d));
    }
}

pub(crate) proof fn lemma_zero(den: int)
    requires
        den > 0,
    ensures
        rounds(Single::zero(), 0, den),
        Single::zero().rank() == 0,
{
    literals_round(0, 1);
    exact_results_are_kept(Single::ratio(0, 1), 0, 1, Single::zero());
    crate::bounds::lemma_same_fraction(0, 1, den);
}

/// The part of a segment that is left after one axis is a part of what was there.
proof fn lemma_clipped(span: Span, origin: Single, direction: Single, lower: Single, upper: Single)
    requires
        !span.near.is_nan(),
        !span.far.is_nan(),
    ensures
        clipped(span, origin, direction, lower, upper) matches Some(part) ==> {
            &&& span.near.at_most(part.near)
            &&& part.far.at_most(span.far)
        },
{
}

/// A whole segment, which starts at its first point.
spec fn is_from_start(span: Span) -> bool {
    &&& !span.near.is_nan()
    &&& !span.far.is_nan()
    &&& span.near.rank() == 0
    &&& span.far.rank() >= 0
}

proof fn lemma_start_inside(
    span: Span,
    origin: Single,
    direction: Single,
    lower: Single,
    upper: Single,
)
    requires
        is_from_start(span),
        is_place(origin),
        is_place(lower),
        is_place(upper),
        direction.is_finite(),
        lower.at_most(origin),
        origin.at_most(upper),
    ensures
        clipped(span, origin, direction, lower, upper) matches Some(part) && is_from_start(part),
{
    order_is_value_order(lower, origin);
    order_is_value_order(origin, upper);
    lemma_abs(direction);
    lemma_gap(lower, origin);
    lemma_gap(upper, origin);
    let (a, b) = (lower.minus(origin), upper.minus(origin));
    results_are_close(a, lower.value() - origin.value(), 1);
    results_are_close(b, upper.value() - origin.value(), 1);
    let tiny = Single::ratio(1, 1000000);
    lemma_tiny();
    if !direction.abs().less(tiny) {
        order_is_value_order(direction.abs(), tiny);
        lemma_quotient(a, direction);
        lemma_quotient(b, direction);
    }
}

proof fn lemma_tiny()
    ensures
        Single::ratio(1, 1000000).is_finite(),
        Single::ratio(1, 1000000).value() > 0,
{
    one_is_one();
    crate::single::fractions_lie_in_the_unit_interval(1, 1000000);
    crate::described_laws::lemma_unit_large();
    let t = Single::ratio(1, 1000000);
    literals_round(1, 1000000);
    results_are_close(t, unit(), 1000000);
}

/// A segment meets every box in which it starts.
pub proof fn segments_meet_where_they_start(start: Vec3, end: Vec3, bounds: Aabb)
    requires
        is_position(start),
        is_position(end),
        is_position(bounds.minimum),
        is_position(bounds.maximum),
        point_inside_aabb(start, bounds),
    ensures
        segment_intersects_aabb(start, end, bounds),
{
    one_is_one();
    lemma_zero(1);
    let delta = end.minus(start);
    lemma_gap(end.x, start.x);
    lemma_gap(end.y, start.y);
    lemma_gap(end.z, start.z);
    order_is_value_order(Single::zero(), Single::one());
    let whole = Span { near: Single::zero(), far: Single::one() };
    lemma_start_inside(whole, start.x, delta.x, bounds.minimum.x, bounds.maximum.x);
    let one = clipped(whole, start.x, delta.x, bounds.minimum.x, bounds.maximum.x).unwrap();
    lemma_start_inside(one, start.y, delta.y, bounds.minimum.y, bounds.maximum.y);
    let two = clipped(one, start.y, delta.y, bounds.minimum.y, bounds.maximum.y).unwrap();
    lemma_start_inside(two, start.z, delta.z, bounds.minimum.z, bounds.maximum.z);
}

/// Along one axis, a segment is too short by far to get from one place to some others.
pub open spec fn falls_short(start: Single, delta: Single, lower: Single, upper: Single) -> bool {
    ||| 4 * size(delta.value()) + unit() <= lower.value() - start.value()
    ||| 4 * size(delta.value()) + unit() <= start.value() - upper.value()
}

proof fn lemma_far_quotient(gap: Single, d: Single)
    requires
        gap.is_finite(),
        d.is_finite(),
        d.value() > 0,
        gap.value() >= 2 * d.value(),
    ensures
        !gap.over(d).is_nan(),
        Single::one().rank() < gap.over(d).rank(),
{
    one_is_one();
    small_literals();
    let two = Single::ratio(2, 1);
    literals_round(2, 1);
    let (g, e, u) = (gap.value(), d.value(), unit());
    quotients_round(gap, d);
    crate::bounds::lemma_same_fraction(2 * u, 1, e);
    assert((2 * u) * e <= g * u && (2 * u) * e >= 0) by (nonlinear_arith)
        requires
            g >= 2 * e,
            u > 0,
            e > 0,
    ;
    results_keep_order(two, gap.over(d), (2 * u) * e, g * u, e);
    order_is_value_order(two, Single::one());
    order_is_value_order(Single::one(), two);
}

proof fn lemma_short(span: Span, origin: Single, direction: Single, lower: Single, upper: Single)
    requires
        !span.near.is_nan(),
        !span.far.is_nan(),
        span.near.rank() >= 0,
        span.far.rank() <= Single::one().rank(),
        is_place(origin),
        is_place(lower),
        is_place(upper),
        lower.at_most(upper),
        direction.is_finite(),
        falls_short(origin, direction, lower, upper),
    ensures
        clipped(span, origin, direction, lower, upper) is None,
{
    one_is_one();
    crate::described_laws::lemma_unit_large();
    order_is_value_order(lower, upper);
    order_is_value_order(origin, lower);
    order_is_value_order(upper, origin);
    lemma_abs(direction);
    lemma_gap(lower, origin);
    lemma_gap(upper, origin);
    let (a, b) = (lower.minus(origin), upper.minus(origin));
    let (p, q) = (lower.value() - origin.value(), upper.value() - origin.value());
    results_are_close(a, p, 1);
    results_are_close(b, q, 1);
    let tiny = Single::ratio(1, 1000000);
    lemma_tiny();
    order_is_value_order(Single::zero(), Single::one());
    lemma_zero(1);
    if !direction.abs().less(tiny) {
        order_is_value_order(direction.abs(), tiny);
        let d = if direction.value() > 0 {
            direction
        } else {
            direction.negated()
        };
        negations_change_the_sign(direction);
        quotients_follow_signs(a, d);
        quotients_follow_signs(b, d);
        negations_change_the_sign(a.over(d));
        negations_change_the_sign(b.over(d));
        negations_change_the_sign(a);
        negations_change_the_sign(b);
        quotients_follow_signs(a.negated(), d);
        quotients_follow_signs(b.negated(), d);
        if p > 0 {
            lemma_far_quotient(a, d);
            lemma_far_quotient(b, d);
        } else {
            lemma_far_quotient(a.negated(), d);
            lemma_far_quotient(b.negated(), d);
        }
    }
}

/// A segment that is too short by far to get to a box along some axis does not meet it.
pub proof fn segments_meet_only_what_they_reach(start: Vec3, end: Vec3, bounds: Aabb)
    requires
        is_position(start),
        is_position(end),
        is_position(bounds.minimum),
        is_position(bounds.maximum),
        bounds.minimum.x.at_most(bounds.maximum.x),
        bounds.minimum.y.at_most(bounds.maximum.y),
        bounds.minimum.z.at_most(bounds.maximum.z),
        ({
            let delta = end.minus(start);
            ||| falls_short(start.x, delta.x, bounds.minimum.x, bounds.maximum.x)
            ||| falls_short(start.y, delta.y, bounds.minimum.y, bounds.maximum.y)
            ||| falls_short(start.z, delta.z, bounds.minimum.z, bounds.maximum.z)
        }),
    ensures
        !segment_intersects_aabb(start, end, bounds),
{
    one_is_one();
    lemma_zero(1);
    let delta = end.minus(start);
    lemma_gap(end.x, start.x);
    lemma_gap(end.y, start.y);
    lemma_gap(end.z, start.z);
    order_is_value_order(Single::zero(), Single::one());
    let whole = Span { near: Single::zero(), far: Single::one() };
    let (low, high) = (bounds.minimum, bounds.maximum);
    if falls_short(start.x, delta.x, low.x, high.x) {
        lemma_short(whole, start.x, delta.x, low.x, high.x);
    } else if let Some(one) = clipped(whole, start.x, delta.x, low.x, high.x) {
        lemma_clipped(whole, start.x, delta.x, low.x, high.x);
        if falls_short(start.y, delta.y, low.y, high.y) {
            lemma_short(one, start.y, delta.y, low.y, high.y);
        } else if let Some(two) = clipped(one, start.y, delta.y, low.y, high.y) {
            lemma_clipped(one, start.y, delta.y, low.y, high.y);
            lemma_short(two, start.z, delta.z, low.z, high.z);
        }
    }
}

proof fn lemma_flat(span: Span, origin: Single, direction: Single, lower: Single, upper: Single)
    requires
        direction.is_finite(),
        direction.value() == 0,
        lower.at_most(origin),
        origin.at_most(upper),
    ensures
        clipped(span, origin, direction, lower, upper) == Some(span),
{
    lemma_abs(direction);
    lemma_tiny();
    order_is_value_order(direction.abs(), Single::ratio(1, 1000000));
}

/// A segment along one axis that starts before a box and ends behind it meets it: it goes
/// through it.
pub proof fn segments_meet_what_they_cross(start: Vec3, end: Vec3, bounds: Aabb)
    requires
        is_position(start),
        is_position(end),
        is_position(bounds.minimum),
        is_position(bounds.maximum),
        start.y == end.y,
        bounds.minimum.y.at_most(start.y),
        start.y.at_most(bounds.maximum.y),
        bounds.minimum.x.at_most(bounds.maximum.x),
        bounds.minimum.z.at_most(bounds.maximum.z),
        ({
            ||| {
                &&& start.z == end.z
                &&& bounds.minimum.z.at_most(start.z)
                &&& start.z.at_most(bounds.maximum.z)
                &&& start.x.at_most(bounds.minimum.x)
                &&& bounds.maximum.x.at_most(end.x)
                &&& start.x.value() + unit() <= end.x.value()
            }
            ||| {
                &&& start.x == end.x
                &&& bounds.minimum.x.at_most(start.x)
                &&& start.x.at_most(bounds.maximum.x)
                &&& start.z.at_most(bounds.minimum.z)
                &&& bounds.maximum.z.at_most(end.z)
                &&& start.z.value() + unit() <= end.z.value()
            }
        }),
    ensures
        segment_intersects_aabb(start, end, bounds),
{
    one_is_one();
    let delta = end.minus(start);
    lemma_gap(end.x, start.x);
    lemma_gap(end.y, start.y);
    lemma_gap(end.z, start.z);
    let zero = Single::zero();
    neutral_operands(start.x, zero);
    neutral_operands(start.y, zero);
    neutral_operands(start.z, zero);
    let whole = Span { near: Single::zero(), far: Single::one() };
    let (low, high) = (bounds.minimum, bounds.maximum);
    if start.z == end.z && start.x.value() + unit() <= end.x.value() && start.x.at_most(low.x)
        && high.x.at_most(end.x) && low.z.at_most(start.z) && start.z.at_most(high.z) {
        lemma_crossed(start.x, end.x, low.x, high.x);
        let part = clipped(whole, start.x, delta.x, low.x, high.x).unwrap();
        lemma_flat(part, start.y, delta.y, low.y, high.y);
        lemma_flat(part, start.z, delta.z, low.z, high.z);
    } else {
        lemma_flat(whole, start.x, delta.x, low.x, high.x);
        lemma_flat(whole, start.y, delta.y, low.y, high.y);
        lemma_crossed(start.z, end.z, low.z, high.z);
    }
}

proof fn lemma_crossed(start: Single, end: Single, lower: Single, upper: Single)
    requires
        is_place(start),
        is_place(end),
        is_place(lower),
        is_place(upper),
        start.at_most(lower),
        lower.at_most(upper),
        upper.at_most(end),
        start.value() + unit() <= end.value(),
    ensures
        clipped(
            Span { near: Single::zero(), far: Single::one() },
            start,
            end.minus(start),
            lower,
            upper,
        ) is Some,
{
    one_is_one();
    lemma_crossing(start, end, lower, upper);
    lemma_zero(1);
    lemma_one(1);
    lemma_gap(end, start);
    let d = end.minus(start);
    results_keep_order(Single::one(), d, unit() * 1, end.value() - start.value(), 1);
    order_is_value_order(Single::one(), d);
    crate::single::fractions_lie_in_the_unit_interval(1, 1000000);
    let tiny = Single::ratio(1, 1000000);
    lemma_tiny();
    order_is_value_order(tiny, Single::one());
    lemma_abs(d);
    order_is_value_order(d.abs(), tiny);
}

proof fn lemma_crossing(start: Single, end: Single, lower: Single, upper: Single)
    requires
        is_place(start),
        is_place(end),
        is_place(lower),
        is_place(upper),
        start.at_most(lower),
        lower.at_most(upper),
        upper.at_most(end),
        start.value() + unit() <= end.value(),
    ensures
        ({
            let d = end.minus(start);
            let (first, second) = (lower.minus(start).over(d), upper.minus(start).over(d));
            &&& Single::zero().at_most(first)
            &&& first.at_most(second)
            &&& second.at_most(Single::one())
        }),
{
    one_is_one();
    order_is_value_order(start, lower);
    order_is_value_order(lower, upper);
    order_is_value_order(upper, end);
    lemma_gap(end, start);
    lemma_gap(lower, start);
    lemma_gap(upper, start);
    let (a, b, d) = (lower.minus(start), upper.minus(start), end.minus(start));
    let s = start.value();
    results_keep_order(a, b, lower.value() - s, upper.value() - s, 1);
    results_keep_order(b, d, upper.value() - s, end.value() - s, 1);
    results_are_close(a, lower.value() - s, 1);
    results_are_close(d, end.value() - s, 1);
    order_is_value_order(a, b);
    order_is_value_order(b, d);
    crate::described_laws::lemma_unit_large();
    let (p, q, e, u) = (a.value(), b.value(), d.value(), unit());
    quotients_round(a, d);
    quotients_round(b, d);
    assert(p * u <= q * u && 0 <= p * u && q * u <= u * e) by (nonlinear_arith)
        requires
            0 <= p <= q <= e,
            u > 0,
    ;
    results_keep_order(a.over(d), b.over(d), p * u, q * u, e);
    lemma_one(e);
    lemma_zero(e);
    results_keep_order(b.over(d), Single::one(), q * u, u * e, e);
    results_keep_order(Single::zero(), a.over(d), 0, p * u, e);
}

pub(crate) proof fn lemma_one(den: int)
    requires
        den > 0,
    ensures
        rounds(Single::one(), unit() * den, den),
{
    one_is_one();
    whole_literals(1);
    literals_round(1, 1);
    let u = unit();
    exact_results_are_kept(Single::ratio(1, 1), u, 1, Single::one());
    crate::bounds::lemma_same_fraction(u, 1, den);
    assert(u * den >= 0) by (nonlinear_arith)
        requires
            u > 0,
            den > 0,
    ;
}

/// A place that lies a distance and some more to one side of another.
pub open spec fn stands_off(
    r: Single,
    from: Single,
    half: Single,
    more: Single,
    side: int,
) -> bool {
    exists|edge: Single|
        {
            &&& #[trigger] rounds(edge, from.value() + side * half.value(), 1)
            &&& edge.is_finite() ==> rounds(r, edge.value() + side * more.value(), 1)
        }
}

/// The same for half of a size.
pub open spec fn stands_off_half(
    r: Single,
    from: Single,
    whole: Single,
    more: Single,
    side: int,
) -> bool {
    exists|half: Single| #[trigger]
        rounds(half, whole.value(), 2) && stands_off(r, from, half, more, side)
}

proof fn lemma_stands_off(from: Single, half: Single, more: Single)
    requires
        from.is_finite(),
        half.is_finite(),
        more.is_finite(),
    ensures
        stands_off(from.minus(half).minus(more), from, half, more, -1),
        stands_off(from.plus(half).plus(more), from, half, more, 1),
{
    let (a, b) = (from.minus(half), from.plus(half));
    differences_round(from, half);
    sums_round(from, half);
    assert(rounds(a, from.value() + (-1) * half.value(), 1));
    assert(rounds(b, from.value() + 1 * half.value(), 1));
    if a.is_finite() {
        differences_round(a, more);
    }
    if b.is_finite() {
        sums_round(b, more);
    }
}

proof fn lemma_stands_off_half(from: Single, whole: Single, more: Single)
    requires
        from.is_finite(),
        whole.is_finite(),
        more.is_finite(),
    ensures
        stands_off_half(
            from.minus(whole.times(Single::ratio(5, 10))).minus(more),
            from,
            whole,
            more,
            -1,
        ),
        stands_off_half(
            from.plus(whole.times(Single::ratio(5, 10))).plus(more),
            from,
            whole,
            more,
            1,
        ),
{
    let half = whole.times(Single::ratio(5, 10));
    crate::framing_laws::lemma_half_rounds(whole);
    bounded_results_are_finite(half, whole.value(), 2, whole);
    lemma_stands_off(from, half, more);
    assert(rounds(half, whole.value(), 2));
}

/// The space that cameras keep free goes a metre beyond an obstacle on all sides.
pub proof fn clearances_surround_obstacles(position: Vec3, extent: CameraObstacleSize)
    requires
        position.is_finite(),
        extent.half_x.is_finite(),
        extent.half_z.is_finite(),
        extent.height_m.is_finite(),
    ensures
        ({
            let bounds = camera_clearance_bounds(position, extent);
            let metre = Single::one();
            &&& stands_off(bounds.minimum.x, position.x, extent.half_x, metre, -1)
            &&& stands_off(bounds.maximum.x, position.x, extent.half_x, metre, 1)
            &&& stands_off(bounds.minimum.z, position.z, extent.half_z, metre, -1)
            &&& stands_off(bounds.maximum.z, position.z, extent.half_z, metre, 1)
            &&& rounds(bounds.minimum.y, position.y.value() - unit(), 1)
            &&& stands_off(bounds.maximum.y, position.y, extent.height_m, metre, 1)
        }),
{
    one_is_one();
    lemma_stands_off(position.x, extent.half_x, Single::one());
    lemma_stands_off(position.z, extent.half_z, Single::one());
    lemma_stands_off(position.y, extent.height_m, Single::one());
    differences_round(position.y, Single::one());
}

/// Around an addition, that space goes a metre beyond its walls and its roof, and around the
/// building a metre beyond its eaves and its top.
pub proof fn clearances_surround_buildings(
    extension: SampledBuildingExtension,
    building: SampledBuilding,
    roof: RoofEnvelope,
)
    requires
        extension.position.is_finite(),
        extension.size_m.is_finite(),
        extension.roof_rise_m.is_finite(),
        building.wall_height_m.is_finite(),
        roof.eave_width_m.is_finite(),
        roof.eave_depth_m.is_finite(),
        roof.maximum_height_m.is_finite(),
    ensures
        ({
            let bounds = extension_camera_bounds(extension);
            let (place, extent, metre) = (extension.position, extension.size_m, Single::one());
            &&& stands_off_half(bounds.minimum.x, place.x, extent.x, metre, -1)
            &&& stands_off_half(bounds.maximum.x, place.x, extent.x, metre, 1)
            &&& stands_off_half(bounds.minimum.z, place.z, extent.z, metre, -1)
            &&& stands_off_half(bounds.maximum.z, place.z, extent.z, metre, 1)
            &&& bounds.minimum.y.value() == -unit()
            &&& stands_off(bounds.maximum.y, extent.y, extension.roof_rise_m, metre, 1)
        }),
        ({
            let bounds = target_camera_bounds(building, roof);
            &&& bounds.minimum.y.value() == -unit()
            &&& stands_off(
                bounds.maximum.y,
                building.wall_height_m,
                roof.maximum_height_m,
                Single::one(),
                1,
            )
            &&& exists|half: Single| #[trigger]
                rounds(half, roof.eave_width_m.value(), 2) && rounds(
                    bounds.maximum.x,
                    half.value() + unit(),
                    1,
                ) && rounds(bounds.minimum.x, -half.value() - unit(), 1)
            &&& exists|half: Single| #[trigger]
                rounds(half, roof.eave_depth_m.value(), 2) && rounds(
                    bounds.maximum.z,
                    half.value() + unit(),
                    1,
                ) && rounds(bounds.minimum.z, -half.value() - unit(), 1)
        }),
{
    one_is_one();
    let metre = Single::one();
    negations_change_the_sign(metre);
    lemma_stands_off_half(extension.position.x, extension.size_m.x, metre);
    lemma_stands_off_half(extension.position.z, extension.size_m.z, metre);
    lemma_stands_off(extension.size_m.y, extension.roof_rise_m, metre);
    lemma_stands_off(building.wall_height_m, roof.maximum_height_m, metre);
    lemma_eave(roof.eave_width_m);
    lemma_eave(roof.eave_depth_m);
    assert(rounds(roof.eave_width_m.times(Single::ratio(5, 10)), roof.eave_width_m.value(), 2));
    assert(rounds(roof.eave_depth_m.times(Single::ratio(5, 10)), roof.eave_depth_m.value(), 2));
}

proof fn lemma_eave(width: Single)
    requires
        width.is_finite(),
    ensures
        ({
            let half = width.times(Single::ratio(5, 10));
            &&& rounds(half, width.value(), 2)
            &&& rounds(half.plus(Single::one()), half.value() + unit(), 1)
            &&& rounds(
                width.negated().times(Single::ratio(5, 10)).minus(Single::one()),
                -half.value() - unit(),
                1,
            )
        }),
{
    one_is_one();
    small_literals();
    crate::framing_laws::lemma_half_rounds(width);
    let half = width.times(Single::ratio(5, 10));
    bounded_results_are_finite(half, width.value(), 2, width);
    sums_round(half, Single::one());
    crate::rounding::products_follow_signs(width, Single::ratio(5, 10));
    negations_change_the_sign(half);
    differences_round(half.negated(), Single::one());
}

/// Around a neighbour the space goes a metre beyond its turned walls for cameras, and half a
/// metre for their view; around an object as far beyond its turned size.
pub proof fn clearances_surround_neighbours(
    item: SampledBackgroundBuilding,
    occluder: SampledOccluder,
    turn: Turn,
)
    requires
        item.position.is_finite(),
        item.size_m.is_finite(),
        rotated_half_extents(item.size_m, turn).x.is_finite(),
        rotated_half_extents(item.size_m, turn).z.is_finite(),
    ensures
        ({
            let near = background_camera_bounds(item, turn);
            let seen = background_view_bounds(item, turn);
            let half = rotated_half_extents(item.size_m, turn);
            let (place, metre, less) = (item.position, Single::one(), Single::ratio(5, 10));
            &&& stands_off(near.minimum.x, place.x, half.x, metre, -1)
            &&& stands_off(near.maximum.x, place.x, half.x, metre, 1)
            &&& stands_off(near.minimum.z, place.z, half.z, metre, -1)
            &&& stands_off(near.maximum.z, place.z, half.z, metre, 1)
            &&& stands_off(near.maximum.y, place.y, item.size_m.y, metre, 1)
            &&& rounds(near.minimum.y, place.y.value() - unit(), 1)
            &&& stands_off(seen.minimum.x, place.x, half.x, less, -1)
            &&& stands_off(seen.maximum.x, place.x, half.x, less, 1)
            &&& stands_off(seen.minimum.z, place.z, half.z, less, -1)
            &&& stands_off(seen.maximum.z, place.z, half.z, less, 1)
            &&& stands_off(seen.maximum.y, place.y, item.size_m.y, less, 1)
        }),
        occluder_camera_bounds(occluder, turn) == camera_clearance_bounds(
            occluder.position,
            (CameraObstacleSize {
                half_x: rotated_half_extents(occluder.nominal_size_m, turn).x,
                half_z: rotated_half_extents(occluder.nominal_size_m, turn).z,
                height_m: occluder.nominal_size_m.y,
            }),
        ),
{
    one_is_one();
    small_literals();
    let half = rotated_half_extents(item.size_m, turn);
    let (place, metre, less) = (item.position, Single::one(), Single::ratio(5, 10));
    lemma_stands_off(place.x, half.x, metre);
    lemma_stands_off(place.z, half.z, metre);
    lemma_stands_off(place.y, item.size_m.y, metre);
    lemma_stands_off(place.x, half.x, less);
    lemma_stands_off(place.z, half.z, less);
    lemma_stands_off(place.y, item.size_m.y, less);
    differences_round(place.y, metre);
}

/// Around a plant the space goes a metre beyond its crown, which is a quarter wider than its
/// radius for a broad tree or a palm and wider still for a shrub.
pub proof fn clearances_surround_plants(plant: SampledVegetation)
    requires
        plant.position.is_finite(),
        plant.height_m.is_finite(),
        plant.canopy_radius_m.is_finite(),
    ensures
        ({
            let bounds = vegetation_camera_bounds(plant);
            let radius = vegetation_camera_radius(plant);
            &&& stands_off(bounds.maximum.y, plant.position.y, plant.height_m, Single::one(), 1)
            &&& rounds(bounds.minimum.y, plant.position.y.value() - unit(), 1)
            &&& radius.is_finite() ==> {
                &&& rounds(bounds.minimum.x, plant.position.x.value() - radius.value(), 1)
                &&& rounds(bounds.maximum.x, plant.position.x.value() + radius.value(), 1)
                &&& rounds(bounds.minimum.z, plant.position.z.value() - radius.value(), 1)
                &&& rounds(bounds.maximum.z, plant.position.z.value() + radius.value(), 1)
            }
            &&& plant.kind == VegetationKind::EvergreenTree ==> rounds(
                radius,
                plant.canopy_radius_m.value() + unit(),
                1,
            )
            &&& plant.kind == VegetationKind::DeciduousTree || plant.kind == VegetationKind::Palm
                ==> crowned(radius, plant.canopy_radius_m, 5, 4)
            &&& plant.kind == VegetationKind::Shrub ==> crowned(
                radius,
                plant.canopy_radius_m,
                7,
                5,
            )
        }),
{
    one_is_one();
    let metre = Single::one();
    let radius = vegetation_camera_radius(plant);
    let place = plant.position;
    lemma_stands_off(place.y, plant.height_m, metre);
    differences_round(place.y, metre);
    if radius.is_finite() {
        differences_round(place.x, radius);
        differences_round(place.z, radius);
        sums_round(place.x, radius);
        sums_round(place.z, radius);
    }
    neutral_operands(plant.canopy_radius_m, Single::zero());
    sums_round(plant.canopy_radius_m, metre);
    lemma_crowned(plant.canopy_radius_m, 125, 100, 5, 4, 25);
    lemma_crowned(plant.canopy_radius_m, 14, 10, 7, 5, 2);
}

/// A radius of a crown times a factor, and a metre more.
pub open spec fn crowned(r: Single, crown: Single, num: int, den: int) -> bool {
    exists|factor: Single, wide: Single|
        {
            &&& #[trigger] rounds(factor, num * unit(), den)
            &&& #[trigger] rounds(wide, crown.value() * factor.value(), unit())
            &&& wide.is_finite() ==> rounds(r, wide.value() + unit(), 1)
        }
}

proof fn lemma_crowned(crown: Single, a: i32, b: u32, num: int, den: int, k: int)
    requires
        crown.is_finite(),
        0 < a <= 10000,
        0 < b,
        den > 0,
        k > 0,
        a == num * k,
        b == den * k,
        Single::ratio(a, b).is_finite() || a <= 2 * b,
    ensures
        crowned(crown.times(Single::ratio(a, b)).plus(Single::one()), crown, num, den),
{
    one_is_one();
    crate::bounds::ratios_are_finite(a, b);
    let factor = Single::ratio(a, b);
    literals_round(a, b);
    let u = unit();
    assert((num * u) * k == a * u && num * u >= 0 && a * u >= 0) by (nonlinear_arith)
        requires
            a == num * k,
            a > 0,
            k > 0,
            u > 0,
    ;
    crate::bounds::lemma_same_fraction(num * u, den, k);
    assert(rounds(factor, num * u, den));
    let wide = crown.times(factor);
    products_round(crown, factor);
    if wide.is_finite() {
        sums_round(wide, Single::one());
    }
}

/// An object keeps clear of the building where it is further from its middle, to some side,
/// than half of the building, its own half and the clearance. Sides are alike, and what is
/// further away keeps clear too.
pub proof fn objects_keep_clear_of_the_building(
    position: Vec3,
    other: Vec3,
    building: SampledBuilding,
    half_x: Single,
    half_z: Single,
)
    requires
        position.is_finite(),
        building.footprint_width_m.is_finite(),
        building.footprint_depth_m.is_finite(),
        half_x.is_finite(),
        half_z.is_finite(),
    ensures
        exists|x: Single, z: Single|
            {
                &&& #[trigger] stands_off_half(
                    x,
                    half_x,
                    building.footprint_width_m,
                    occluder_target_clearance_m(),
                    1,
                )
                &&& #[trigger] stands_off_half(
                    z,
                    half_z,
                    building.footprint_depth_m,
                    occluder_target_clearance_m(),
                    1,
                )
                &&& outside_target_footprint(position, building, half_x, half_z) <==> x.at_most(
                    position.x.abs(),
                ) || z.at_most(position.z.abs())
            },
        outside_target_footprint(position, building, half_x, half_z)
            == outside_target_footprint(
            Vec3::new(position.x.negated(), position.y, position.z.negated()),
            building,
            half_x,
            half_z,
        ),
        outside_target_footprint(position, building, half_x, half_z) && position.x.abs().at_most(
            other.x.abs(),
        ) && position.z.abs().at_most(other.z.abs()) ==> outside_target_footprint(
            other,
            building,
            half_x,
            half_z,
        ),
{
    let clearance = occluder_target_clearance_m();
    crate::bounds::ratios_are_finite(75, 100);
    let half = Single::ratio(5, 10);
    let x = building.footprint_width_m.times(half).plus(half_x).plus(clearance);
    let z = building.footprint_depth_m.times(half).plus(half_z).plus(clearance);
    crate::framing_laws::lemma_half_rounds(building.footprint_width_m);
    crate::framing_laws::lemma_half_rounds(building.footprint_depth_m);
    bounded_results_are_finite(
        building.footprint_width_m.times(half),
        building.footprint_width_m.value(),
        2,
        building.footprint_width_m,
    );
    bounded_results_are_finite(
        building.footprint_depth_m.times(half),
        building.footprint_depth_m.value(),
        2,
        building.footprint_depth_m,
    );
    crate::single::sums_and_products_commute(building.footprint_width_m.times(half), half_x);
    crate::single::sums_and_products_commute(building.footprint_depth_m.times(half), half_z);
    lemma_stands_off_half(half_x, building.footprint_width_m, clearance);
    lemma_stands_off_half(half_z, building.footprint_depth_m, clearance);
    assert(stands_off_half(x, half_x, building.footprint_width_m, clearance, 1));
    assert(stands_off_half(z, half_z, building.footprint_depth_m, clearance, 1));
    lemma_abs(position.x);
    lemma_abs(position.z);
}

/// The roof that counts is the one that is built: the ordinary one where there is one, and
/// otherwise the target roof, which is as high as its two stages. Its middle is half way up.
pub proof fn envelopes_are_those_of_the_built_roof(scene: &SampledScene)
    requires
        scene.roof.lower_rise_m.is_finite(),
        scene.roof.upper_rise_m.is_finite(),
        scene.building.wall_height_m.is_finite(),
    ensures
        ({
            let roof = actual_roof_envelope(scene);
            &&& scene.ordinary_roof is None ==> {
                &&& roof.eave_width_m == scene.roof.eave_width_m
                &&& roof.eave_depth_m == scene.roof.eave_depth_m
                &&& rounds(
                    roof.maximum_height_m,
                    scene.roof.lower_rise_m.value() + scene.roof.upper_rise_m.value(),
                    1,
                )
            }
            &&& scene.ordinary_roof matches Some(own) ==> {
                &&& roof.eave_width_m == own.eave_width_m
                &&& roof.eave_depth_m == own.eave_depth_m
                &&& roof.maximum_height_m == own.maximum_height_m()
            }
            &&& roof.maximum_height_m.is_finite() ==> exists|half: Single| #[trigger]
                rounds(half, roof.maximum_height_m.value(), 2) && rounds(
                    roof_center(scene.building, roof).y,
                    scene.building.wall_height_m.value() + half.value(),
                    1,
                )
            &&& roof_center(scene.building, roof).x == Single::zero()
            &&& roof_center(scene.building, roof).z == Single::zero()
        }),
{
    sums_round(scene.roof.lower_rise_m, scene.roof.upper_rise_m);
    let height = actual_roof_envelope(scene).maximum_height_m;
    if height.is_finite() {
        crate::framing_laws::lemma_half_rounds(height);
        let half = height.times(Single::ratio(5, 10));
        bounded_results_are_finite(half, height.value(), 2, height);
        sums_round(scene.building.wall_height_m, half);
        assert(rounds(half, height.value(), 2));
    }
}

/// A camera that stands free stands outside of every space that is kept free, and one that
/// moves free moves outside of them.
pub proof fn free_cameras_meet_nothing(
    start: Vec3,
    end: Vec3,
    building: SampledBuilding,
    roof: RoofEnvelope,
    composition: SampledComposition,
    occluders: Seq<SampledOccluder>,
    turns: SceneTurns,
    i: int,
)
    ensures
        ({
            let extensions = composition.building_extensions@;
            let backgrounds = composition.background_buildings@;
            let plants = composition.vegetation@;
            let yaws = turns.backgrounds@;
            &&& !point_intersects_scene(start, building, roof, extensions, backgrounds, yaws) ==> {
                &&& !point_inside_aabb(start, target_camera_bounds(building, roof))
                &&& 0 <= i < extensions.len() ==> !point_inside_aabb(
                    start,
                    extension_camera_bounds(extensions[i]),
                )
                &&& 0 <= i < backgrounds.len() ==> !point_inside_aabb(
                    start,
                    background_camera_bounds(backgrounds[i], yaws[i]),
                )
            }
            &&& !segment_intersects_scene(
                start,
                end,
                building,
                roof,
                extensions,
                backgrounds,
                yaws,
            ) ==> {
                &&& !segment_intersects_aabb(start, end, target_camera_bounds(building, roof))
                &&& 0 <= i < extensions.len() ==> !segment_intersects_aabb(
                    start,
                    end,
                    extension_camera_bounds(extensions[i]),
                )
                &&& 0 <= i < backgrounds.len() ==> !segment_intersects_aabb(
                    start,
                    end,
                    background_camera_bounds(backgrounds[i], yaws[i]),
                )
            }
            &&& !point_meets_vegetation(start, plants) && 0 <= i < plants.len()
                ==> !point_inside_aabb(start, vegetation_camera_bounds(plants[i]))
            &&& !segment_meets_vegetation(start, end, plants) && 0 <= i < plants.len()
                ==> !segment_intersects_aabb(start, end, vegetation_camera_bounds(plants[i]))
            &&& !point_meets_occluders(start, occluders, turns.occluders@) && 0 <= i
                < occluders.len() ==> !point_inside_aabb(
                start,
                occluder_camera_bounds(occluders[i], turns.occluders@[i]),
            )
            &&& !segment_meets_occluders(start, end, occluders, turns.occluders@) && 0 <= i
                < occluders.len() ==> !segment_intersects_aabb(
                start,
                end,
                occluder_camera_bounds(occluders[i], turns.occluders@[i]),
            )
            &&& !view_meets_backgrounds(start, building, roof, backgrounds, yaws) && 0 <= i
                < backgrounds.len() ==> !segment_intersects_aabb(
                start,
                roof_center(building, roof),
                background_view_bounds(backgrounds[i], yaws[i]),
            )
        }),
{
}

/// An extent reaches a box around a position.
pub open spec fn reached(extent: Single, position: Vec3, half_x: Single, half_z: Single) -> bool {
    position.x.abs().plus(half_x).at_most(extent) && position.z.abs().plus(half_z).at_most(extent)
}

/// A widened extent reaches what it was widened to and what it reached before, and no further.
pub proof fn extents_widen_as_needed(
    extent: Single,
    position: Vec3,
    half_x: Single,
    half_z: Single,
)
    requires
        position.is_finite(),
        half_x.is_finite(),
        half_z.is_finite(),
        !extent.is_nan(),
    ensures
        ({
            let wide = widened(extent, position, half_x, half_z);
            &&& reached(wide, position, half_x, half_z)
            &&& extent.at_most(wide)
            &&& wide == extent || wide == position.x.abs().plus(half_x) || wide
                == position.z.abs().plus(half_z)
        }),
{
    lemma_abs(position.x);
    lemma_abs(position.z);
    sums_round(position.x.abs(), half_x);
    sums_round(position.z.abs(), half_z);
}

/// Something with a known place and size.
spec fn is_set(position: Vec3, half_x: Single, half_z: Single) -> bool {
    position.is_finite() && half_x.is_finite() && half_z.is_finite()
}

proof fn lemma_widened(extent: Single, position: Vec3, half_x: Single, half_z: Single)
    requires
        !extent.is_nan(),
    ensures
        extent.at_most(widened(extent, position, half_x, half_z)),
        is_set(position, half_x, half_z) ==> reached(
            widened(extent, position, half_x, half_z),
            position,
            half_x,
            half_z,
        ),
{
    if is_set(position, half_x, half_z) {
        extents_widen_as_needed(extent, position, half_x, half_z);
    }
}

proof fn lemma_over_extensions(extent: Single, items: Seq<SampledBuildingExtension>, n: nat)
    requires
        !extent.is_nan(),
        n <= items.len(),
    ensures
        extent.at_most(over_extensions(extent, items, n)),
        forall|i: int| #![trigger items[i]]
            0 <= i < n && is_set(
                items[i].position,
                items[i].size_m.x.times(Single::ratio(5, 10)),
                items[i].size_m.z.times(Single::ratio(5, 10)),
            ) ==> reached(
                over_extensions(extent, items, n),
                items[i].position,
                items[i].size_m.x.times(Single::ratio(5, 10)),
                items[i].size_m.z.times(Single::ratio(5, 10)),
            ),
    decreases n,
{
    if n > 0 {
        lemma_over_extensions(extent, items, (n - 1) as nat);
        let item = items[n - 1];
        lemma_widened(
            over_extensions(extent, items, (n - 1) as nat),
            item.position,
            item.size_m.x.times(Single::ratio(5, 10)),
            item.size_m.z.times(Single::ratio(5, 10)),
        );
    }
}

proof fn lemma_over_backgrounds(
    extent: Single,
    items: Seq<SampledBackgroundBuilding>,
    turns: Seq<Turn>,
    n: nat,
)
    requires
        !extent.is_nan(),
        n <= items.len(),
    ensures
        extent.at_most(over_backgrounds(extent, items, turns, n)),
        forall|i: int| #![trigger items[i]]
            0 <= i < n && is_set(
                items[i].position,
                rotated_half_extents(items[i].size_m, turns[i]).x,
                rotated_half_extents(items[i].size_m, turns[i]).z,
            ) ==> reached(
                over_backgrounds(extent, items, turns, n),
                items[i].position,
                rotated_half_extents(items[i].size_m, turns[i]).x,
                rotated_half_extents(items[i].size_m, turns[i]).z,
            ),
    decreases n,
{
    if n > 0 {
        lemma_over_backgrounds(extent, items, turns, (n - 1) as nat);
        let item = items[n - 1];
        lemma_widened(
            over_backgrounds(extent, items, turns, (n - 1) as nat),
            item.position,
            rotated_half_extents(item.size_m, turns[n - 1]).x,
            rotated_half_extents(item.size_m, turns[n - 1]).z,
        );
    }
}

proof fn lemma_over_occluders(
    extent: Single,
    items: Seq<SampledOccluder>,
    turns: Seq<Turn>,
    n: nat,
)
    requires
        !extent.is_nan(),
        n <= items.len(),
    ensures
        extent.at_most(over_occluders(extent, items, turns, n)),
        forall|i: int| #![trigger items[i]]
            0 <= i < n && is_set(
                items[i].position,
                rotated_half_extents(items[i].nominal_size_m, turns[i]).x,
                rotated_half_extents(items[i].nominal_size_m, turns[i]).z,
            ) ==> reached(
                over_occluders(extent, items, turns, n),
                items[i].position,
                rotated_half_extents(items[i].nominal_size_m, turns[i]).x,
                rotated_half_extents(items[i].nominal_size_m, turns[i]).z,
            ),
    decreases n,
{
    if n > 0 {
        lemma_over_occluders(extent, items, turns, (n - 1) as nat);
        let item = items[n - 1];
        lemma_widened(
            over_occluders(extent, items, turns, (n - 1) as nat),
            item.position,
            rotated_half_extents(item.nominal_size_m, turns[n - 1]).x,
            rotated_half_extents(item.nominal_size_m, turns[n - 1]).z,
        );
    }
}

proof fn lemma_over_plants(extent: Single, items: Seq<SampledVegetation>, n: nat)
    requires
        !extent.is_nan(),
        n <= items.len(),
    ensures
        extent.at_most(over_plants(extent, items, n)),
        forall|i: int| #![trigger items[i]]
            0 <= i < n && is_set(
                items[i].position,
                items[i].canopy_radius_m,
                items[i].canopy_radius_m,
            ) ==> reached(
                over_plants(extent, items, n),
                items[i].position,
                items[i].canopy_radius_m,
                items[i].canopy_radius_m,
            ),
    decreases n,
{
    if n > 0 {
        lemma_over_plants(extent, items, (n - 1) as nat);
        let item = items[n - 1];
        lemma_widened(
            over_plants(extent, items, (n - 1) as nat),
            item.position,
            item.canopy_radius_m,
            item.canopy_radius_m,
        );
    }
}

proof fn lemma_over_poles(
    extent: Single,
    items: Seq<crate::composition::SampledUtilityPole>,
    n: nat,
)
    requires
        !extent.is_nan(),
        n <= items.len(),
    ensures
        extent.at_most(over_poles(extent, items, n)),
    decreases n,
{
    if n > 0 {
        lemma_over_poles(extent, items, (n - 1) as nat);
        lemma_widened(
            over_poles(extent, items, (n - 1) as nat),
            items[n - 1].position,
            Single::ratio(25, 100),
            Single::ratio(25, 100),
        );
    }
}

proof fn lemma_over_cameras(extent: Single, items: Seq<Vec3>, n: nat)
    requires
        !extent.is_nan(),
        n <= items.len(),
    ensures
        extent.at_most(over_cameras(extent, items, n)),
    decreases n,
{
    if n > 0 {
        lemma_over_cameras(extent, items, (n - 1) as nat);
    }
}

/// The ground of a scene reaches everything in it: half of its roof and of its building, and
/// each of its additions, neighbours, plants and objects.
pub proof fn grounds_reach_everything(
    building: SampledBuilding,
    roof: RoofEnvelope,
    composition: SampledComposition,
    occluders: Seq<SampledOccluder>,
    turns: SceneTurns,
    cameras: Seq<Vec3>,
    i: int,
)
    requires
        roof.eave_width_m.is_finite(),
        roof.eave_depth_m.is_finite(),
        building.footprint_width_m.is_finite(),
        building.footprint_depth_m.is_finite(),
    ensures
        ({
            let extent = content_half_extent(
                building,
                roof,
                composition,
                occluders,
                turns,
                cameras,
            );
            let extensions = composition.building_extensions@;
            let backgrounds = composition.background_buildings@;
            let plants = composition.vegetation@;
            &&& 0 <= i < extensions.len() && extensions[i].position.is_finite()
                && extensions[i].size_m.is_finite() ==> exists|x: Single, z: Single| #[trigger]
                rounds(x, extensions[i].size_m.x.value(), 2) && #[trigger] rounds(
                    z,
                    extensions[i].size_m.z.value(),
                    2,
                ) && reached(extent, extensions[i].position, x, z)
            &&& 0 <= i < backgrounds.len() && backgrounds[i].position.is_finite() ==> {
                let half = rotated_half_extents(backgrounds[i].size_m, turns.backgrounds@[i]);
                half.x.is_finite() && half.z.is_finite() ==> reached(
                    extent,
                    backgrounds[i].position,
                    half.x,
                    half.z,
                )
            }
            &&& 0 <= i < plants.len() && plants[i].position.is_finite()
                && plants[i].canopy_radius_m.is_finite() ==> reached(
                extent,
                plants[i].position,
                plants[i].canopy_radius_m,
                plants[i].canopy_radius_m,
            )
            &&& 0 <= i < occluders.len() && occluders[i].position.is_finite() ==> {
                let half = rotated_half_extents(occluders[i].nominal_size_m, turns.occluders@[i]);
                half.x.is_finite() && half.z.is_finite() ==> reached(
                    extent,
                    occluders[i].position,
                    half.x,
                    half.z,
                )
            }
            &&& exists|x: Single| #[trigger]
                rounds(x, roof.eave_width_m.value(), 2) && x.at_most(extent)
            &&& exists|x: Single| #[trigger]
                rounds(x, roof.eave_depth_m.value(), 2) && x.at_most(extent)
            &&& exists|x: Single| #[trigger]
                rounds(x, building.footprint_width_m.value(), 2) && x.at_most(extent)
            &&& exists|x: Single| #[trigger]
                rounds(x, building.footprint_depth_m.value(), 2) && x.at_most(extent)
        }),
{
    let half = Single::ratio(5, 10);
    crate::framing_laws::lemma_half_rounds(roof.eave_width_m);
    crate::framing_laws::lemma_half_rounds(roof.eave_depth_m);
    crate::framing_laws::lemma_half_rounds(building.footprint_width_m);
    crate::framing_laws::lemma_half_rounds(building.footprint_depth_m);
    let extensions = composition.building_extensions@;
    let backgrounds = composition.background_buildings@;
    let plants = composition.vegetation@;
    let a = roof_extent(roof);
    let b = over_extensions(a, extensions, extensions.len());
    lemma_over_extensions(a, extensions, extensions.len());
    let c = over_backgrounds(b, backgrounds, turns.backgrounds@, backgrounds.len());
    lemma_over_backgrounds(b, backgrounds, turns.backgrounds@, backgrounds.len());
    let d = over_plants(c, plants, plants.len());
    lemma_over_plants(c, plants, plants.len());
    let e = widened_to_infrastructure(d, composition.infrastructure);
    if let Some(site) = composition.infrastructure {
        lemma_over_poles(
            widened_to_pavement(d, &site),
            site.utility_poles@,
            site.utility_poles@.len(),
        );
    }
    let f = over_occluders(e, occluders, turns.occluders@, occluders.len());
    lemma_over_occluders(e, occluders, turns.occluders@, occluders.len());
    lemma_over_cameras(f, cameras, cameras.len());
    if 0 <= i < extensions.len() && extensions[i].position.is_finite()
        && extensions[i].size_m.is_finite() {
        let extent = extensions[i].size_m;
        crate::framing_laws::lemma_half_rounds(extent.x);
        crate::framing_laws::lemma_half_rounds(extent.z);
        let (x, z) = (extent.x.times(half), extent.z.times(half));
        bounded_results_are_finite(x, extent.x.value(), 2, extent.x);
        bounded_results_are_finite(z, extent.z.value(), 2, extent.z);
        assert(rounds(x, extent.x.value(), 2));
        assert(rounds(z, extent.z.value(), 2));
    }
    assert(rounds(roof.eave_width_m.times(half), roof.eave_width_m.value(), 2));
    assert(rounds(roof.eave_depth_m.times(half), roof.eave_depth_m.value(), 2));
    assert(rounds(building.footprint_width_m.times(half), building.footprint_width_m.value(), 2));
    assert(rounds(building.footprint_depth_m.times(half), building.footprint_depth_m.value(), 2));
}

} // verus!
