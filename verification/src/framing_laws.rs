//! What the framing of a sequence is for: its distances, its lenses and its compositions.

use crate::config::{CameraSamplingConfig, ImageConfig};
use crate::camera_laws::is_share;
use crate::plan::{ApparentScale, CameraPathKind, FramingIntent, SampledBuilding, ZoomBehavior};
use crate::record::{CameraIntrinsics, DistortionModel, ImageTransform};
use crate::rounding::{
    bounded_results_are_finite, differences_round, exact_results_are_kept,
    negations_change_the_sign, neutral_operands, one_is_one, products_follow_signs, products_round,
    quotients_round, results_are_close, results_keep_order, rounds, size, small_literals,
    sums_round, whole_literals, whole_numbers,
};
use crate::sample_camera::{
    annulus_distance, camera_choices_from, corner, crop_direction, crop_edge, end_fov_degrees,
    frame_camera, frame_fov_degrees, frame_intrinsics, framing_edge_reached, target_center,
    tried_start, with_camera_distance, zoom_between, CameraChoices, CameraPathParameters,
    ImageBounds, ViewAxes,
};
use crate::single::{order_is_value_order, Single};
use crate::types::{FloatRange, Vec3};
use crate::whole::unit;
use vstd::prelude::*;

verus! {

/// A number was drawn from a range: it is some share of the way through it.
pub open spec fn drawn_from(x: Single, range: FloatRange) -> bool {
    exists|share: Single| is_share(share) && x == #[trigger] range.at(share)
}

/// A share of none of a range is its smallest number, larger shares never give smaller ones,
/// no share gives less than the smallest, and the whole range ends at its largest number, to
/// within one part in `2^22` of the two limits.
pub proof fn ranges_are_filled(range: FloatRange, p: Single, q: Single)
    requires
        range.is_valid(),
        is_share(p),
        is_share(q),
        p.value() <= q.value(),
        range.max.minus(range.min).is_finite(),
        range.at(Single::one()).is_finite(),
    ensures
        range.at(p).at_most(range.at(q)),
        range.min.at_most(range.at(p)),
        p.value() == 0 ==> range.at(p).equals(range.min),
        size(range.at(Single::one()).value() - range.max.value()) * 0x40_0000 <= size(
            range.max.value(),
        ) + size(range.min.value()) + 0x100_0000,
{
    one_is_one();
    let u = unit();
    let one = Single::one();
    let (low, high) = (range.min.value(), range.max.value());
    order_is_value_order(range.min, range.max);
    let wide = range.max.minus(range.min);
    differences_round(range.max, range.min);
    results_are_close(wide, high - low, 1);
    let w = wide.value();
    let (x, y) = (wide.times(p), wide.times(q));
    products_round(wide, p);
    products_round(wide, q);
    let (a, b) = (p.value(), q.value());
    assert(0 <= w * a && w * a <= w * b && w * b <= w * u && size(w * a) == w * a && size(w * b)
        == w * b) by (nonlinear_arith)
        requires
            0 <= a <= b,
            b <= u,
            w >= 0,
    ;
    bounded_results_are_finite(x, w * a, u, wide);
    bounded_results_are_finite(y, w * b, u, wide);
    results_are_close(x, w * a, u);
    results_keep_order(x, y, w * a, w * b, u);
    order_is_value_order(x, y);
    sums_round(range.min, x);
    sums_round(range.min, y);
    results_keep_order(range.at(p), range.at(q), low + x.value(), low + y.value(), 1);
    let zero = Single::zero();
    neutral_operands(range.min, zero);
    sums_round(range.min, zero);
    results_keep_order(range.min.plus(zero), range.at(p), low, low + x.value(), 1);
    order_is_value_order(range.min.plus(zero), range.min);
    if a == 0 {
        neutral_operands(wide, p);
        neutral_operands(range.min, x);
        order_is_value_order(range.at(p), range.min);
    }
    neutral_operands(wide, zero);
    sums_round(range.min, wide);
    results_are_close(range.at(one), low + w, 1);
}

/// The roof widths of a view are those of its scale, and every decision is drawn from its
/// own range of the configuration. The sweep is drawn from the range of sweeps and goes one
/// way or the other, and a view that does not zoom keeps its field of view.
pub proof fn decisions_come_from_their_ranges(
    camera: CameraSamplingConfig,
    path_kind: CameraPathKind,
    intent: FramingIntent,
    scale: ApparentScale,
    side: Single,
    u: [Single; 11],
)
    requires
        forall|i: int| 0 <= i < 11 ==> is_share(#[trigger] u@[i]),
    ensures
        ({
            let drawn = camera_choices_from(camera, path_kind, intent, scale, side, u);
            &&& drawn.path_kind == path_kind
            &&& drawn.framing_intent == intent
            &&& drawn.apparent_scale == scale
            &&& scale == ApparentScale::Distant ==> drawn_from(
                drawn.target_width_fraction_goal,
                camera.distant_target_width_fraction,
            )
            &&& scale == ApparentScale::Normal ==> drawn_from(
                drawn.target_width_fraction_goal,
                camera.target_width_fraction,
            )
            &&& scale == ApparentScale::Close ==> drawn_from(
                drawn.target_width_fraction_goal,
                camera.close_target_width_fraction,
            )
            &&& scale == ApparentScale::Partial ==> drawn_from(
                drawn.target_width_fraction_goal,
                camera.partial_target_width_fraction,
            )
            &&& drawn_from(drawn.height, camera.height_m)
            &&& drawn_from(drawn.radial_motion, camera.radial_motion_fraction)
            &&& drawn_from(drawn.start_fov_degrees, camera.horizontal_fov_degrees)
            &&& drawn_from(drawn.target_above_eave_m, camera.target_above_eave_m)
            &&& drawn_from(drawn.crop_depth_fraction, camera.framing_offset_fraction)
            &&& drawn_from(drawn.handheld_sway, camera.handheld_sway_m)
            &&& exists|degrees: Single| #[trigger]
                drawn_from(degrees, camera.sweep_degrees) && drawn.sweep
                    == crate::sample_camera::radians(degrees).times(side)
            &&& drawn.fov_ratio == Single::one() || drawn_from(drawn.fov_ratio, camera.zoom_ratio)
        }),
{
    let drawn = camera_choices_from(camera, path_kind, intent, scale, side, u);
    assert(is_share(u@[0]) && is_share(u@[1]) && is_share(u@[3]) && is_share(u@[4]) && is_share(
        u@[5],
    ) && is_share(u@[6]) && is_share(u@[7]) && is_share(u@[9]) && is_share(u@[10]));
    assert(drawn_from(camera.sweep_degrees.at(u[3]), camera.sweep_degrees));
}

/// A turn by degrees is that part of a full turn, to within one part in `2^20`: three hundred
/// and sixty degrees make a full one.
pub proof fn degrees_are_parts_of_a_turn(degrees: Single)
    requires
        degrees.is_finite(),
        crate::sample_camera::radians(degrees).is_finite(),
    ensures
        size(
            crate::sample_camera::radians(degrees).value() * 360 * unit() - degrees.value()
                * crate::sample_site::tau().value(),
        ) * 0x10_0000 <= size(degrees.value()) * crate::sample_site::tau().value()
            + 0x100_0000_0000 * unit(),
        degrees.value() > 0 ==> crate::sample_camera::radians(degrees).value() >= 0,
        degrees.value() < 0 ==> crate::sample_camera::radians(degrees).value() <= 0,
{
    one_is_one();
    let step = Single { bits: 0x3c8e_fa35 };
    let tau = crate::sample_site::tau();
    vstd::arithmetic::power2::lemma2_to64();
    crate::single::lemma_magnitude(120, 0x8e_fa35);
    crate::single::lemma_magnitude(128, 0xc9_0fdb);
    vstd::arithmetic::power2::lemma_pow2_adds(8, 120);
    vstd::arithmetic::power2::lemma_pow2_pos(120);
    let w = vstd::arithmetic::power2::pow2(120) as int;
    assert(step.code() == 120 * 0x80_0000 + 0x8e_fa35);
    assert(tau.code() == 128 * 0x80_0000 + 0xc9_0fdb);
    assert(step.value() == 0x8e_fa35 * w);
    assert(tau.value() == 0xc9_0fdb * (256 * w));
    let (s, t, d, u) = (step.value(), tau.value(), degrees.value(), unit());
    assert(size(360 * s - t) * 0x20_0000 <= t);
    let r = crate::sample_camera::radians(degrees);
    products_round(degrees, step);
    results_are_close(r, d * s, u);
    let k = r.value();
    let e = k * u - d * s;
    assert(k * 360 * u - d * t == 360 * e + d * (360 * s - t)) by (nonlinear_arith)
        requires
            e == k * u - d * s,
    ;
    assert(size(d * (360 * s - t)) * 0x20_0000 <= size(d) * t) by (nonlinear_arith)
        requires
            size(360 * s - t) * 0x20_0000 <= t,
    {
        assert(size(d * (360 * s - t)) == size(d) * size(360 * s - t));
        assert(size(d) * (size(360 * s - t) * 0x20_0000) <= size(d) * t);
    }
    assert(size(d * s) * 359 <= size(d) * t) by (nonlinear_arith)
        requires
            0 <= 359 * s <= t,
    {
        assert(size(d * s) == size(d) * s);
        assert(size(d) * (359 * s) <= size(d) * t);
    }
    assert(d > 0 ==> d * s >= 0) by (nonlinear_arith)
        requires
            s >= 0,
    ;
    assert(d < 0 ==> d * s <= 0) by (nonlinear_arith)
        requires
            s >= 0,
    ;
}

/// A moved path keeps a margin between its distance and both of its radii, and keeps its
/// distance where that leaves the margin.
pub proof fn distances_stay_between_radii(distance: Single, inner: Single, outer: Single)
    requires
        distance.is_finite(),
        inner.is_finite(),
        !outer.is_nan(),
        inner.plus(Single::ratio(5, 100)).is_finite(),
    ensures
        ({
            let margin = Single::ratio(5, 100);
            let kept = annulus_distance(distance, inner, outer);
            let (low, high) = (inner.plus(margin), outer.minus(margin));
            &&& !outer.is_finite() ==> low.at_most(kept)
            &&& outer.is_finite() ==> kept.at_most(high)
            &&& outer.is_finite() && low.at_most(high) ==> low.at_most(kept)
            &&& low.at_most(distance) && (outer.is_finite() ==> distance.at_most(high)) ==> kept
                == distance || kept.equals(distance)
            &&& Single::zero().less(margin) && margin.less(Single::ratio(1, 10))
        }),
{
    broadcast use crate::bounds::group_literals;

    crate::bounds::literals_of_whole_numbers(1, 1);
    crate::bounds::ratios_stay_apart(0, 1, 5, 100);
    crate::bounds::ratios_stay_apart(5, 100, 1, 10);
    if outer.is_finite() {
        let margin = Single::ratio(5, 100);
        differences_round(outer, margin);
    }
}

/// A path at another distance keeps its shape: only the length of its sideways walk changes,
/// in proportion, so that half of the distance halves the walk.
pub proof fn paths_keep_their_shape(path: CameraPathParameters, distance: Single)
    requires
        path.distance.is_finite(),
        path.distance.value() > 0,
        path.lateral_span.is_finite(),
        path.lateral_span.over(path.distance).is_finite(),
        distance.is_finite(),
    ensures
        ({
            let moved = with_camera_distance(path, distance);
            &&& moved.distance == distance
            &&& moved.kind == path.kind && moved.start == path.start && moved.sweep == path.sweep
            &&& moved.height == path.height && moved.radial_motion == path.radial_motion
            &&& moved.approach_amount == path.approach_amount
            &&& exists|share: Single|
                {
                    &&& #[trigger] rounds(
                        share,
                        path.lateral_span.value() * unit(),
                        path.distance.value(),
                    )
                    &&& rounds(moved.lateral_span, distance.value() * share.value(), unit())
                }
        }),
{
    let share = path.lateral_span.over(path.distance);
    quotients_round(path.lateral_span, path.distance);
    products_round(distance, share);
    assert(rounds(share, path.lateral_span.value() * unit(), path.distance.value()));
}

/// Zoom is told from the two fields of view: none where they are less than a tenth of a
/// degree apart, in where the last is the narrower one, and out where it is the wider one.
pub proof fn zooms_are_told_from_the_lenses(start: Single, end: Single)
    requires
        start.is_finite(),
        end.is_finite(),
        end.minus(start).is_finite(),
    ensures
        ({
            let near = size(end.minus(start).value()) < Single::ratio(1, 10).value();
            &&& zoom_between(start, end) == ZoomBehavior::Fixed <==> near
            &&& zoom_between(start, end) == ZoomBehavior::SmoothIn <==> !near && end.value()
                < start.value()
            &&& zoom_between(start, end) == ZoomBehavior::SmoothOut <==> !near && end.value()
                >= start.value()
        }),
{
    let gap = end.minus(start);
    crate::bounds::ratios_are_finite(1, 10);
    order_is_value_order(gap.abs(), Single::ratio(1, 10));
    order_is_value_order(end, start);
    lemma_abs(gap);
}

proof fn lemma_abs(x: Single)
    requires
        x.is_finite(),
    ensures
        x.abs().is_finite(),
        x.abs().value() == size(x.value()),
{
    assert(crate::single::magnitude(0) == 0);
    if x.code() > 0 {
        crate::single::lemma_magnitude_increases(0, x.code());
    }
}

/// The last field of view is one that the configuration allows, and a view that does not zoom
/// keeps the first one.
pub proof fn lenses_stay_in_range(camera: CameraSamplingConfig, choices: CameraChoices)
    requires
        camera.horizontal_fov_degrees.is_valid(),
        choices.start_fov_degrees.is_finite(),
        !choices.start_fov_degrees.times(choices.fov_ratio).is_nan(),
    ensures
        camera.horizontal_fov_degrees.contains(end_fov_degrees(camera, choices)),
        choices.fov_ratio == Single::one() && camera.horizontal_fov_degrees.contains(
            choices.start_fov_degrees,
        ) ==> end_fov_degrees(camera, choices) == choices.start_fov_degrees,
{
    one_is_one();
    neutral_operands(choices.start_fov_degrees, Single::zero());
}

/// A frame's field of view is the first one at the start and, up to rounding, the last one at
/// the end of a sequence.
pub proof fn lenses_move_from_first_to_last(start: Single, end: Single, zero: Single)
    requires
        start.is_finite(),
        end.is_finite(),
        end.minus(start).is_finite(),
        zero.is_finite(),
        zero.value() == 0,
    ensures
        frame_fov_degrees(start, end, zero).equals(start),
        exists|gap: Single| #[trigger]
            rounds(gap, end.value() - start.value(), 1) && rounds(
                frame_fov_degrees(start, end, Single::one()),
                start.value() + gap.value(),
                1,
            ),
{
    one_is_one();
    crate::camera_laws::easing_keeps_its_ends(zero);
    let gap = end.minus(start);
    differences_round(end, start);
    neutral_operands(gap, crate::sample_camera::smoothstep(zero));
    neutral_operands(start, gap.times(crate::sample_camera::smoothstep(zero)));
    order_is_value_order(frame_fov_degrees(start, end, zero), start);
    sums_round(start, gap);
    assert(rounds(gap, end.value() - start.value(), 1));
}

/// A frame has the size of the configured image, square pixels without skew, its principal
/// point in the middle, and a focal length that spans the width at twice the tangent of half
/// of the field of view.
pub proof fn frames_are_calibrated(image: ImageConfig, tan_half_fov: Single)
    requires
        image.width < 0x100_0000,
        image.height < 0x100_0000,
        tan_half_fov.is_finite(),
        tan_half_fov.value() > 0,
        Single::ratio(2, 1).times(tan_half_fov).is_finite(),
    ensures
        ({
            let k = frame_intrinsics(image, tan_half_fov);
            &&& k.width == image.width
            &&& k.height == image.height
            &&& k.fx == k.fy
            &&& k.skew == Single::zero()
            &&& 2 * k.cx.value() == image.width * unit()
            &&& 2 * k.cy.value() == image.height * unit()
            &&& rounds(k.fx, image.width * unit() * unit(), 2 * tan_half_fov.value())
        }),
{
    one_is_one();
    small_literals();
    let u = unit();
    let (w, h) = (Single::from_u32(image.width), Single::from_u32(image.height));
    whole_numbers(image.width);
    whole_numbers(image.height);
    lemma_halved(image.width);
    lemma_halved(image.height);
    let two = Single::ratio(2, 1);
    let twice = two.times(tan_half_fov);
    products_round(two, tan_half_fov);
    lemma_doubled(tan_half_fov);
    quotients_round(w, twice);
}

pub(crate) proof fn lemma_halved(n: u32)
    requires
        n < 0x100_0000,
    ensures
        Single::from_u32(n).times(Single::ratio(5, 10)).is_finite(),
        2 * Single::from_u32(n).times(Single::ratio(5, 10)).value() == n * unit(),
{
    one_is_one();
    small_literals();
    whole_numbers(n);
    let u = unit();
    let (x, half) = (Single::from_u32(n), Single::ratio(5, 10));
    let code = crate::bounds::lemma_representable(n as int, 148);
    let y = Single::encoded(false, code);
    assert(y.code() == code);
    vstd::arithmetic::power2::lemma_pow2_unfold(149);
    let v = vstd::arithmetic::power2::pow2(148) as int;
    assert(u == 2 * v);
    assert(2 * (n * v) == n * u) by (nonlinear_arith)
        requires
            u == 2 * v,
    ;
    products_round(x, half);
    let a = n as int;
    assert((a * u) * half.value() == (a * v) * u) by (nonlinear_arith)
        requires
            2 * half.value() == u,
            u == 2 * v,
    ;
    exact_results_are_kept(x.times(half), (n * u) * half.value(), u, y);
}

pub(crate) proof fn lemma_doubled(x: Single)
    requires
        x.is_finite(),
        x.value() > 0,
        Single::ratio(2, 1).times(x).is_finite(),
    ensures
        Single::ratio(2, 1).times(x).value() == 2 * x.value(),
{
    one_is_one();
    small_literals();
    let two = Single::ratio(2, 1);
    let u = unit();
    let twice = two.times(x);
    products_round(two, x);
    let (t, m) = crate::single::lemma_split(x.code());
    vstd::arithmetic::power2::lemma_pow2_unfold(t + 1);
    let code = crate::bounds::lemma_representable(m, t + 1);
    let y = Single::encoded(false, code);
    let w = vstd::arithmetic::power2::pow2(t) as int;
    assert(m * (2 * w) == 2 * (m * w)) by (nonlinear_arith);
    assert(2 * u * x.value() == (2 * x.value()) * u) by (nonlinear_arith);
    if code < crate::single::INFINITE_CODE {
        assert(y.code() == code);
        exact_results_are_kept(twice, (2 * u) * x.value(), u, y);
    } else {
        // the exact double is beyond every finite number
        results_are_close(twice, (2 * u) * x.value(), u);
        let c = twice.code();
        crate::single::lemma_magnitude_increases(c, code);
        crate::single::lemma_nearest_exists((2 * u) * x.value(), u);
        let top = crate::single::magnitude(c + 1);
        if c + 1 < code {
            crate::single::lemma_magnitude_increases(c + 1, code);
        }
        let low = crate::single::magnitude(c);
        let full = crate::single::magnitude(code);
        assert(false) by (nonlinear_arith)
            requires
                2 * (full * u) <= (low + top) * u,
                low < full,
                top <= full,
                u > 0,
        {
            assert(low + top < 2 * full);
            assert((low + top) * u < (2 * full) * u);
        }
    }
}

/// A frame's camera is a pinhole at its position, without a mapping of its own.
pub proof fn cameras_are_pinholes(k: CameraIntrinsics, position: Vec3, aim: Vec3)
    ensures
        frame_camera(k, position, aim).intrinsics == k,
        frame_camera(k, position, aim).world_from_camera.translation == position,
        frame_camera(k, position, aim).distortion == DistortionModel::Pinhole,
        frame_camera(k, position, aim).output_from_sensor == ImageTransform::identity(),
{
}

/// The point of interest is over the middle of the building, as far above the eave as it was
/// drawn.
pub proof fn interest_is_above_the_eave(building: SampledBuilding, choices: CameraChoices)
    requires
        building.wall_height_m.is_finite(),
        choices.target_above_eave_m.is_finite(),
    ensures
        target_center(building, choices).x.value() == 0,
        target_center(building, choices).z.value() == 0,
        rounds(
            target_center(building, choices).y,
            building.wall_height_m.value() + choices.target_above_eave_m.value(),
            1,
        ),
{
    one_is_one();
    sums_round(building.wall_height_m, choices.target_above_eave_m);
}

/// The first direction that is tried is the drawn one, and every next one is further around.
pub proof fn tries_turn_on(start: Single, direction: u32)
    requires
        start.is_finite(),
        direction < 0x100_0000,
    ensures
        tried_start(start, 0).equals(start),
        start.at_most(tried_start(start, direction)),
{
    one_is_one();
    let angle = Single::ratio(23999631, 10000000);
    crate::bounds::ratios_are_finite(23999631, 10000000);
    crate::bounds::ratios_keep_order(0, 1, 23999631, 10000000);
    crate::bounds::ratios_keep_order(23999631, 10000000, 3, 1);
    crate::bounds::ratios_are_finite(3, 1);
    crate::bounds::literals_of_whole_numbers(1, 1);
    let zero = Single::zero();
    order_is_value_order(zero, angle);
    whole_numbers(0);
    whole_numbers(direction);
    let none = Single::from_u32(0);
    assert(0 * unit() == 0);
    neutral_operands(angle, none);
    neutral_operands(start, none.times(angle));
    order_is_value_order(tried_start(start, 0), start);
    let n = Single::from_u32(direction);
    let step = n.times(angle);
    products_round(n, angle);
    let (a, b, u) = (n.value(), angle.value(), unit());
    let d = direction as int;
    assert(a >= 0 && a * b >= 0) by (nonlinear_arith)
        requires
            a == d * u,
            d >= 0,
            u > 0,
            b >= 0,
    ;
    small_literals();
    order_is_value_order(angle, Single::ratio(3, 1));
    whole_numbers(0xff_ffff);
    let code = crate::bounds::lemma_representable(0xc0_0000, 152);
    let large = Single::encoded(false, code);
    assert(large.code() == code);
    vstd::arithmetic::power2::lemma2_to64();
    vstd::arithmetic::power2::lemma_pow2_adds(3, 149);
    assert(large.value() == 0xc0_0000 * (8 * u));
    assert(a * b <= large.value() * u) by (nonlinear_arith)
        requires
            a == d * u,
            0 <= d < 0x100_0000,
            0 <= b <= 3 * u,
            large.value() == 0xc0_0000 * (8 * u),
            u > 0,
    {
        assert(a <= 0x100_0000 * u);
        assert(a * b <= (0x100_0000 * u) * (3 * u));
    }
    bounded_results_are_finite(step, a * b, u, large);
    results_are_close(step, a * b, u);
    sums_round(start, step);
    sums_round(start, zero);
    neutral_operands(start, zero);
    results_keep_order(start.plus(zero), start.plus(step), start.value(), start.value()
        + step.value(), 1);
    order_is_value_order(start, start.plus(zero));
}

/// The sides of an image: a roof that is to be cut at one side has to reach beyond that very
/// side by at least two pixels.
pub proof fn crops_cut_the_named_side(
    intent: FramingIntent,
    bounds: ImageBounds,
    depth: Single,
    k: CameraIntrinsics,
    axes: ViewAxes,
)
    requires
        !crate::sample_camera::crop_span(intent, bounds).times(depth).is_nan(),
        k.width < 0x100_0000,
        k.height < 0x100_0000,
    ensures
        ({
            let edge = crop_edge(intent, bounds, depth, k);
            &&& intent == FramingIntent::PartialLeft ==> {
                &&& edge.at_most(Single::ratio((-2) as i32, 1))
                &&& framing_edge_reached(bounds, intent, edge) == bounds.min_x.at_most(edge)
                &&& crop_direction(intent, axes) == axes.right
            }
            &&& intent == FramingIntent::PartialTop ==> {
                &&& edge.at_most(Single::ratio((-2) as i32, 1))
                &&& framing_edge_reached(bounds, intent, edge) == bounds.min_y.at_most(edge)
                &&& crop_direction(FramingIntent::PartialBottom, axes) == axes.up
            }
            &&& intent == FramingIntent::PartialRight ==> framing_edge_reached(
                bounds,
                intent,
                edge,
            ) == edge.at_most(bounds.max_x)
            &&& intent == FramingIntent::PartialBottom ==> framing_edge_reached(
                bounds,
                intent,
                edge,
            ) == edge.at_most(bounds.max_y)
            &&& intent == FramingIntent::Centered ==> framing_edge_reached(bounds, intent, edge)
                && crop_direction(intent, axes) == Vec3::origin()
        }),
{
    whole_literals(2);
    whole_literals((-2) as i32);
    crate::bounds::literals_of_whole_numbers(2, 1);
    let margin = crate::sample_camera::crop_span(intent, bounds).times(depth).max(
        Single::ratio(2, 1),
    );
    negations_change_the_sign(margin);
}

/// The corners of a rectangle around the axis lie half of its width and half of its depth to
/// both sides, at one height, and go around once.
pub proof fn corners_surround_the_axis(width: Single, depth: Single, y: Single)
    requires
        width.is_finite(),
        depth.is_finite(),
    ensures
        ({
            let (a, b) = (corner(width, depth, y, 0), corner(width, depth, y, 1));
            let (c, d) = (corner(width, depth, y, 2), corner(width, depth, y, 3));
            &&& a.y == y && b.y == y && c.y == y && d.y == y
            &&& rounds(c.x, width.value(), 2) && rounds(c.z, depth.value(), 2)
            &&& b.x == c.x && d.z == c.z
            &&& a.x == c.x.negated() && d.x == a.x
            &&& a.z == c.z.negated() && b.z == a.z
        }),
{
    lemma_half_rounds(width);
    lemma_half_rounds(depth);
    let half = Single::ratio(5, 10);
    small_literals();
    products_follow_signs(width, half);
    products_follow_signs(depth, half);
}

pub(crate) proof fn lemma_half_rounds(x: Single)
    requires
        x.is_finite(),
    ensures
        rounds(x.times(Single::ratio(5, 10)), x.value(), 2),
{
    one_is_one();
    small_literals();
    let half = Single::ratio(5, 10);
    products_round(x, half);
    let (h, u, v) = (half.value(), unit(), x.value());
    crate::bounds::lemma_same_fraction(size(v), 2, h);
    assert(v * h == size(v) * h || v * h == -(size(v) * h)) by (nonlinear_arith)
        requires
            size(v) == v || size(v) == -v,
    ;
    assert(v * h < 0 <==> v < 0) by (nonlinear_arith)
        requires
            h > 0,
    ;
    assert(2 * h == u);
}

} // verus!
