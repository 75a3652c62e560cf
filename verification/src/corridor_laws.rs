//! Where cameras find room, and what they see from there.

use crate::composition::{SampledBackgroundBuilding, SampledBuildingExtension};
use crate::draws::{coin_of, sign_of, unit_of, Draws};
use crate::geometry::{rotated_half_extents, RoofEnvelope, Turn};
use crate::plan::{
    ApparentScale, CameraPathKind, FramingIntent, OrdinaryRoofFamily, SampledBuilding,
    SampledOrdinaryRoof, SampledRoof,
};
use crate::rounding::{
    bounded_results_are_finite, differences_round, exact_results_are_kept, literals_round,
    negations_change_the_sign, neutral_operands, one_is_one, products_follow_signs, products_round,
    quotients_round, results_are_close, results_keep_order, rounds, size, small_literals,
    sums_round, whole_literals, whole_numbers,
};
use crate::sample_camera::{
    bob_angle, bounds_with, box_radius, constrain_camera_path_to_annulus, corner, corridor_midpoint,
    corridor_of, empty_bounds, framing_range, hypotenuse, initial_path, inner_try, middle_try,
    ordinary_points, outer_try, radial_fraction, radius_over_backgrounds, radius_over_extensions,
    radius_under_backgrounds, roof_radius, sample_framing, sway_angle, target_points, tried_start,
    with_camera_distance, CameraChoices, CameraPathParameters, CropSearch, ImageBounds,
    PathCorridor, ViewAxes,
};
use crate::sample_site::tau;
use crate::single::{order_is_value_order, Single};
use crate::record::CameraIntrinsics;
use crate::types::Vec3;
use crate::whole::unit;
use vstd::arithmetic::power2::pow2;
use vstd::prelude::*;

verus! {

/// A drawn fraction is the upper three bytes of a word in so many parts of one, a coin falls
/// as its highest bit, and a sign is one to one side or the other.
pub proof fn draws_tell_their_word(word: u32, coin: bool)
    ensures
        unit_of(word).is_finite(),
        0x100_0000 * unit_of(word).value() == (word / 0x100) * unit(),
        coin_of(word) <==> 2 * word >= 0x1_0000_0000,
        sign_of(true).value() == unit(),
        sign_of(false).value() == -unit(),
{
    one_is_one();
    whole_literals((-1) as i32);
    let n = word >> 8;
    assert(n == word / 0x100) by (bit_vector)
        requires
            n == word >> 8,
    ;
    whole_numbers(n);
    let u = unit();
    let step = Single::ratio(1, 16_777_216);
    literals_round(1, 16_777_216);
    vstd::arithmetic::power2::lemma2_to64();
    vstd::arithmetic::power2::lemma_pow2_adds(24, 125);
    let code = crate::bounds::lemma_representable(1, 125);
    let own = Single { bits: code as u32 };
    assert(own.is_finite() && own.value() == 1 * pow2(125));
    exact_results_are_kept(step, u, 16_777_216, own);
    products_round(step, Single::from_u32(n));
    let other = crate::bounds::lemma_representable(n as int, 125);
    let exact = Single { bits: other as u32 };
    assert(exact.is_finite() && exact.value() == n * pow2(125));
    let (p, q) = (step.value(), Single::from_u32(n).value());
    assert(p * q == exact.value() * u && 0x100_0000 * (n * p) == n * (0x100_0000 * p))
        by (nonlinear_arith)
        requires
            q == n * u,
            exact.value() == n * p,
    ;
    exact_results_are_kept(unit_of(word), p * q, u, exact);
}

/// Distances do not depend on which way they lead, and are those over the ground.
pub proof fn hypotenuses_are_distances(x: Single, y: Single, z: Single)
    requires
        x.is_finite(),
        z.is_finite(),
    ensures
        hypotenuse(x, z) == hypotenuse(z, x),
        hypotenuse(x, z) == hypotenuse(x.negated(), z),
        hypotenuse(x, z) == crate::check_scene::ground_distance(Vec3::new(x, y, z)),
{
    crate::check_laws::lemma_squares(x, z);
    products_follow_signs(x, x.negated());
    products_follow_signs(x, x);
    negations_change_the_sign(x);
    negations_change_the_sign(x.times(x));
}

/// The room of a distance to the nearer of two radii.
pub open spec fn is_room(room: Single, distance: Single, inner: Single, outer: Single) -> bool {
    &&& {
        ||| rounds(room, distance.value() - inner.value(), 1)
        ||| outer.is_finite() && rounds(room, outer.value() - distance.value(), 1)
    }
    &&& room.at_most(distance.minus(inner))
    &&& outer.is_finite() ==> room.at_most(outer.minus(distance))
}

/// The motion that a distance leaves is a share of it: that of its room to the inner radius,
/// or to the outer one where that is less.
pub proof fn motions_have_room(distance: Single, inner: Single, outer: Single)
    requires
        distance.is_finite(),
        distance.value() > 0,
        inner.is_finite(),
        distance.minus(inner).is_finite(),
        outer.is_finite() ==> outer.minus(distance).is_finite(),
        !outer.is_nan(),
        inner.at_most(distance),
        outer.is_finite() ==> distance.at_most(outer),
    ensures
        ({
            let fraction = radial_fraction(distance, inner, outer);
            exists|room: Single| #[trigger]
                is_room(room, distance, inner, outer) && rounds(
                    fraction,
                    room.value() * unit(),
                    distance.value(),
                )
        }),
{
    one_is_one();
    crate::geometry_laws::lemma_zero(1);
    order_is_value_order(inner, distance);
    differences_round(distance, inner);
    let a = distance.minus(inner);
    results_are_close(a, distance.value() - inner.value(), 1);
    order_is_value_order(Single::zero(), a);
    order_is_value_order(a, Single::zero());
    let inward = a.max(Single::zero());
    if outer.is_finite() {
        order_is_value_order(distance, outer);
        differences_round(outer, distance);
        let b = outer.minus(distance);
        results_are_close(b, outer.value() - distance.value(), 1);
        order_is_value_order(Single::zero(), b);
        order_is_value_order(b, Single::zero());
        let outward = b.max(Single::zero());
        let room = inward.min(outward);
        quotients_round(room, distance);
        assert(inward == a && outward == b);
        assert(is_room(room, distance, inner, outer));
    } else {
        let room = inward.min(Single::infinity());
        assert(room == inward);
        quotients_round(room, distance);
        assert(is_room(room, distance, inner, outer));
    }
}

/// A path in a ring keeps its kind, direction, sweep, height and sway. Its motion towards and
/// away from the building stays inside of the room that there is, and one that did before is
/// kept.
pub proof fn constrained_paths_stay_in_their_ring(
    path: CameraPathParameters,
    inner: Single,
    outer: Single,
)
    ensures
        ({
            let own = constrain_camera_path_to_annulus(path, inner, outer);
            let room = radial_fraction(own.distance, inner, outer);
            &&& own.kind == path.kind && own.start == path.start && own.sweep == path.sweep
            &&& own.height == path.height && own.handheld_sway == path.handheld_sway
            &&& own.sway_phase == path.sway_phase
            &&& own.distance == crate::sample_camera::annulus_distance(path.distance, inner, outer)
            &&& path.kind != CameraPathKind::Orbit ==> own.radial_motion == path.radial_motion
            &&& path.kind != CameraPathKind::ApproachArc ==> own.approach_amount
                == path.approach_amount
            &&& path.kind != CameraPathKind::LateralWalk ==> own.lateral_span == path.lateral_span
            &&& path.kind == CameraPathKind::Orbit && !room.is_nan()
                && path.radial_motion.is_finite() && Single::zero().at_most(room) ==> {
                &&& own.radial_motion.at_most(room)
                &&& room.negated().at_most(own.radial_motion)
                &&& path.radial_motion.at_most(room) && room.negated().at_most(path.radial_motion)
                    ==> own.radial_motion == path.radial_motion
            }
            &&& path.kind == CameraPathKind::ApproachArc && !room.is_nan()
                && path.approach_amount.is_finite() ==> {
                &&& own.approach_amount.at_most(room)
                &&& own.approach_amount.at_most(path.approach_amount)
                &&& own.approach_amount == room || own.approach_amount == path.approach_amount
            }
            &&& path.kind == CameraPathKind::LateralWalk && path.lateral_span.is_finite()
                ==> own.lateral_span.at_most(path.lateral_span)
            &&& path.kind == CameraPathKind::LateralWalk && !outer.is_finite()
                ==> own.lateral_span == path.lateral_span
        }),
{
    let own = constrain_camera_path_to_annulus(path, inner, outer);
    let room = radial_fraction(own.distance, inner, outer);
    negations_change_the_sign(room);
    crate::geometry_laws::lemma_zero(1);
    assert(room.negated().is_nan() == room.is_nan());
}

proof fn lemma_over(
    radius: Single,
    items: Seq<SampledBuildingExtension>,
    sway: Single,
    n: nat,
)
    requires
        !radius.is_nan(),
        n <= items.len(),
    ensures
        radius.at_most(radius_over_extensions(radius, items, sway, n)),
        forall|i: int| #![trigger items[i]]
            0 <= i < n && !reach_of(items[i], sway).is_nan() ==> reach_of(items[i], sway).at_most(
                radius_over_extensions(radius, items, sway, n),
            ),
    decreases n,
{
    if n > 0 {
        lemma_over(radius, items, sway, (n - 1) as nat);
    }
}

/// How far the outermost corner of the space around an addition is from the middle, with some
/// margin for the sway of a hand.
pub open spec fn reach_of(own: SampledBuildingExtension, sway: Single) -> Single {
    let half = Single::ratio(5, 10);
    let metre = Single::one();
    hypotenuse(
        own.position.x.abs().plus(own.size_m.x.times(half).plus(metre)),
        own.position.z.abs().plus(own.size_m.z.times(half).plus(metre)),
    ).plus(sway).plus(Single::ratio(5, 100))
}

/// How near the innermost point of the circle around a neighbour comes to the middle, with
/// some margin for the sway of a hand.
pub open spec fn approach_of(own: SampledBackgroundBuilding, turn: Turn, sway: Single) -> Single {
    hypotenuse(own.position.x, own.position.z).minus(box_radius(own.size_m, turn)).minus(
        sway,
    ).minus(Single::ratio(5, 100))
}

proof fn lemma_under(
    radius: Single,
    items: Seq<SampledBackgroundBuilding>,
    turns: Seq<Turn>,
    sway: Single,
    n: nat,
)
    requires
        !radius.is_nan(),
        n <= items.len(),
    ensures
        radius_under_backgrounds(radius, items, turns, sway, n).at_most(radius),
        forall|i: int| #![trigger items[i]]
            0 <= i < n && !approach_of(items[i], turns[i], sway).is_nan()
                ==> radius_under_backgrounds(radius, items, turns, sway, n).at_most(
                approach_of(items[i], turns[i], sway),
            ),
    decreases n,
{
    if n > 0 {
        lemma_under(radius, items, turns, sway, (n - 1) as nat);
    }
}

proof fn lemma_around(
    radius: Single,
    items: Seq<SampledBackgroundBuilding>,
    turns: Seq<Turn>,
    n: nat,
)
    requires
        !radius.is_nan(),
        n <= items.len(),
    ensures
        radius.at_most(radius_over_backgrounds(radius, items, turns, n)),
        forall|i: int| #![trigger items[i]]
            0 <= i < n && !hypotenuse(items[i].position.x, items[i].position.z).plus(
                box_radius(items[i].size_m, turns[i]),
            ).is_nan() ==> hypotenuse(items[i].position.x, items[i].position.z).plus(
                box_radius(items[i].size_m, turns[i]),
            ).at_most(radius_over_backgrounds(radius, items, turns, n)),
    decreases n,
{
    if n > 0 {
        lemma_around(radius, items, turns, (n - 1) as nat);
    }
}

/// The corridor of a path lies outside of the roof and of every addition and inside of every
/// neighbour; the ring beyond lies outside of those. The circle around the roof goes through
/// its corners, a metre out, and the one around a box through its own.
pub proof fn corridors_lie_between_building_and_neighbours(
    initial: CameraPathParameters,
    roof: RoofEnvelope,
    extensions: Seq<SampledBuildingExtension>,
    backgrounds: Seq<SampledBackgroundBuilding>,
    turns: Seq<Turn>,
    minimum: Single,
    i: int,
)
    requires
        !roof_radius(roof, initial.handheld_sway).is_nan(),
    ensures
        ({
            let corridor = corridor_of(initial, roof, extensions, backgrounds, turns, minimum);
            let sway = initial.handheld_sway;
            let half = Single::ratio(5, 10);
            let metre = Single::one();
            &&& roof_radius(roof, sway).at_most(corridor.target_inner)
            &&& roof_radius(roof, sway) == hypotenuse(
                roof.eave_width_m.times(half).plus(metre),
                roof.eave_depth_m.times(half).plus(metre),
            ).plus(sway).plus(Single::ratio(5, 100))
            &&& 0 <= i < extensions.len() && !reach_of(extensions[i], sway).is_nan() ==> reach_of(
                extensions[i],
                sway,
            ).at_most(corridor.target_inner)
            &&& 0 <= i < backgrounds.len() && !approach_of(backgrounds[i], turns[i], sway).is_nan()
                ==> corridor.background_inner.at_most(approach_of(backgrounds[i], turns[i], sway))
            &&& backgrounds.len() == 0 ==> corridor.background_inner == Single::infinity()
            &&& exists|wide: Single|
                {
                    &&& corridor.background_outer == #[trigger] wide.plus(sway).plus(metre)
                    &&& corridor.target_inner.at_most(wide)
                    &&& 0 <= i < backgrounds.len() ==> {
                        let outer = hypotenuse(
                            backgrounds[i].position.x,
                            backgrounds[i].position.z,
                        ).plus(box_radius(backgrounds[i].size_m, turns[i]));
                        !outer.is_nan() ==> outer.at_most(wide)
                    }
                }
            &&& 0 <= i < backgrounds.len() ==> box_radius(backgrounds[i].size_m, turns[i])
                == hypotenuse(
                rotated_half_extents(backgrounds[i].size_m, turns[i]).x.plus(metre),
                rotated_half_extents(backgrounds[i].size_m, turns[i]).z.plus(metre),
            )
        }),
{
    let sway = initial.handheld_sway;
    let inside = roof_radius(roof, sway);
    lemma_over(inside, extensions, sway, extensions.len());
    lemma_under(Single::infinity(), backgrounds, turns, sway, backgrounds.len());
    let target = radius_over_extensions(inside, extensions, sway, extensions.len());
    lemma_around(target, backgrounds, turns, backgrounds.len());
    let wide = radius_over_backgrounds(target, backgrounds, turns, backgrounds.len());
    let corridor = corridor_of(initial, roof, extensions, backgrounds, turns, minimum);
    assert(corridor.background_outer == wide.plus(sway).plus(Single::one()));
}

/// The search moves towards the middle of the corridor where there is room in it, and
/// otherwise stays where it is or at the inner radius.
pub proof fn midpoints_lie_in_the_corridor(
    distance: Single,
    minimum: Single,
    target: Single,
    background: Single,
)
    requires
        distance.is_finite(),
        minimum.is_finite(),
        target.is_finite(),
        !background.is_nan(),
    ensures
        ({
            let inner = target.max(minimum);
            let kept = corridor_midpoint(distance, minimum, target, background);
            let room = background.is_finite() && inner.plus(Single::ratio(5, 10)).less(background);
            &&& target.at_most(inner) && minimum.at_most(inner)
            &&& room && inner.plus(background).is_finite() ==> exists|sum: Single| #[trigger]
                rounds(sum, inner.value() + background.value(), 1) && rounds(kept, sum.value(), 2)
            &&& !room ==> inner.at_most(kept) && distance.at_most(kept) && (kept == inner || kept
                == distance)
        }),
{
    let inner = target.max(minimum);
    if background.is_finite() && inner.plus(background).is_finite() {
        sums_round(inner, background);
        let sum = inner.plus(background);
        crate::framing_laws::lemma_half_rounds(sum);
        assert(rounds(sum, inner.value() + background.value(), 1));
    }
}

/// The first inner try is at the distance of the path itself and the last at the middle of
/// the corridor, both kept outside of the building; outer tries are two metres outside of
/// everything. The middle try keeps the direction of the path.
pub proof fn tries_move_to_the_midpoint(
    initial: CameraPathParameters,
    corridor: PathCorridor,
    direction: u32,
    step: u32,
)
    requires
        initial.distance.is_finite(),
        corridor.midpoint.is_finite(),
        corridor.midpoint.minus(initial.distance).is_finite(),
        step <= 7,
    ensures
        exists|distance: Single|
            {
                let own = #[trigger] constrain_camera_path_to_annulus(
                    with_camera_distance(initial, distance),
                    corridor.target_inner,
                    Single::infinity(),
                );
                &&& inner_try(initial, corridor, step, direction) == (CameraPathParameters {
                    start: tried_start(initial.start, direction),
                    ..own
                })
                &&& step == 0 ==> distance.value() == initial.distance.value()
                &&& step == 7 ==> rounds(
                    distance,
                    initial.distance.value() + corridor.midpoint.minus(initial.distance).value(),
                    1,
                )
            },
        exists|distance: Single|
            {
                let own = #[trigger] constrain_camera_path_to_annulus(
                    with_camera_distance(initial, distance),
                    corridor.background_outer,
                    Single::infinity(),
                );
                &&& outer_try(initial, corridor, direction) == (CameraPathParameters {
                    start: tried_start(initial.start, direction),
                    ..own
                })
                &&& corridor.background_outer.is_finite() ==> rounds(
                    distance,
                    corridor.background_outer.value() + 2 * unit(),
                    1,
                )
            },
        middle_try(initial, corridor).start == initial.start,
{
    one_is_one();
    small_literals();
    let gap = corridor.midpoint.minus(initial.distance);
    let distance = initial.distance.plus(
        gap.times(Single::from_u32(step).over(Single::ratio(7, 1))),
    );
    lemma_blended(initial.distance, gap, step);
    let own = constrain_camera_path_to_annulus(
        with_camera_distance(initial, distance),
        corridor.target_inner,
        Single::infinity(),
    );
    assert(inner_try(initial, corridor, step, direction) == (CameraPathParameters {
        start: tried_start(initial.start, direction),
        ..own
    }));
    let far = corridor.background_outer.plus(Single::ratio(2, 1));
    if corridor.background_outer.is_finite() {
        sums_round(corridor.background_outer, Single::ratio(2, 1));
    }
    let other = constrain_camera_path_to_annulus(
        with_camera_distance(initial, far),
        corridor.background_outer,
        Single::infinity(),
    );
    assert(outer_try(initial, corridor, direction) == (CameraPathParameters {
        start: tried_start(initial.start, direction),
        ..other
    }));
}

proof fn lemma_blended(start: Single, gap: Single, step: u32)
    requires
        start.is_finite(),
        gap.is_finite(),
        step <= 7,
    ensures
        ({
            let distance = start.plus(gap.times(Single::from_u32(step).over(Single::ratio(7, 1))));
            &&& step == 0 ==> distance.value() == start.value()
            &&& step == 7 ==> rounds(distance, start.value() + gap.value(), 1)
        }),
{
    one_is_one();
    let u = unit();
    whole_numbers(step);
    whole_literals(7);
    let seven = Single::ratio(7, 1);
    let n = Single::from_u32(step);
    quotients_round(n, seven);
    let blend = n.over(seven);
    if step == 0 {
        assert(n.value() * u == 0) by (nonlinear_arith)
            requires
                n.value() == 0,
        ;
        exact_results_are_kept(blend, 0, 7 * u, Single::zero());
        neutral_operands(gap, blend);
        neutral_operands(start, gap.times(blend));
    }
    if step == 7 {
        assert((7 * u) * u == u * (7 * u)) by (nonlinear_arith);
        exact_results_are_kept(blend, (7 * u) * u, 7 * u, Single::one());
        neutral_operands(gap, Single::zero());
        sums_round(start, gap);
    }
}

/// A path starts with what was chosen. Its distance shows the roof at its goal where the range
/// of distances allows it, an approach covers between a sixth and less than a half of it, and
/// a walk two thirds at most.
pub proof fn paths_start_as_chosen(
    camera: crate::config::CameraSamplingConfig,
    choices: CameraChoices,
    roof: RoofEnvelope,
    lens: Single,
    arc: Single,
)
    requires
        camera.distance_m.is_valid(),
        choices.radial_motion.is_finite(),
    ensures
        ({
            let own = initial_path(camera, choices, roof, lens, arc);
            let goal = roof.eave_width_m.over(
                Single::ratio(2, 1).times(choices.target_width_fraction_goal).times(lens),
            );
            &&& own.kind == choices.path_kind && own.start == choices.start && own.sweep
                == choices.sweep
            &&& own.height == choices.height && own.radial_motion == choices.radial_motion
            &&& own.handheld_sway == choices.handheld_sway && own.sway_phase
                == choices.sway_phase
            &&& !goal.is_nan() ==> camera.distance_m.contains(own.distance)
            &&& camera.distance_m.contains(goal) ==> own.distance == goal
            &&& Single::ratio(16, 100).at_most(own.approach_amount)
            &&& own.approach_amount.at_most(Single::ratio(42, 100))
            &&& own.distance.is_finite() && own.distance.value() > 0 && arc.is_finite()
                ==> own.lateral_span.at_most(own.distance.times(Single::ratio(65, 100)))
        }),
{
    one_is_one();
    crate::bounds::ratios_are_finite(16, 100);
    crate::bounds::ratios_are_finite(42, 100);
    crate::bounds::ratios_stay_apart(16, 100, 42, 100);
    crate::geometry_laws::lemma_abs(choices.radial_motion);
    let own = initial_path(camera, choices, roof, lens, arc);
    if own.distance.is_finite() && own.distance.value() > 0 && arc.is_finite() {
        lemma_lateral(own.distance, arc);
    }
}

proof fn lemma_lateral(d: Single, arc: Single)
    requires
        d.is_finite(),
        d.value() > 0,
        arc.is_finite(),
    ensures
        d.times(arc).times(Single::ratio(55, 100)).clamp(
            d.times(Single::ratio(12, 100)),
            d.times(Single::ratio(65, 100)),
        ).at_most(d.times(Single::ratio(65, 100))),
{
    one_is_one();
    crate::bounds::ratios_are_finite(12, 100);
    crate::bounds::ratios_are_finite(65, 100);
    crate::bounds::ratios_are_finite(55, 100);
    crate::bounds::ratios_stay_apart(12, 100, 65, 100);
    order_is_value_order(Single::ratio(12, 100), Single::ratio(65, 100));
    products_round(d, Single::ratio(12, 100));
    products_round(d, Single::ratio(65, 100));
    products_round(d, arc);
    let (v, a, b) = (d.value(), Single::ratio(12, 100).value(), Single::ratio(65, 100).value());
    assert(v * a <= v * b) by (nonlinear_arith)
        requires
            v > 0,
            a <= b,
    ;
    results_keep_order(
        d.times(Single::ratio(12, 100)),
        d.times(Single::ratio(65, 100)),
        v * a,
        v * b,
        unit(),
    );
    let span = d.times(arc);
    if span.is_finite() {
        products_round(span, Single::ratio(55, 100));
    } else {
        crate::bounds::ratios_stay_apart(0, 1, 55, 100);
        whole_literals(0);
        order_is_value_order(Single::ratio(0, 1), Single::ratio(55, 100));
        lemma_stays_infinite(span, Single::ratio(55, 100));
    }
}

proof fn lemma_stays_infinite(x: Single, y: Single)
    requires
        !x.is_nan(),
        !x.is_finite(),
        y.is_finite(),
        y.value() > 0,
    ensures
        !x.times(y).is_nan(),
{
    reveal(Single::spec_times);
    crate::rounding::lemma_value(y);
}

/// A deliberate crop is drawn with its probability, and only then is the framing not centered.
pub proof fn crops_are_drawn_with_their_probability(
    d: Draws,
    camera: crate::config::CameraSamplingConfig,
)
    ensures
        ({
            let drawn = sample_framing(d, camera);
            &&& d.unit().less(camera.partial_crop_probability) ==> drawn.1
                == ApparentScale::Partial && drawn.0 != FramingIntent::Centered
            &&& !d.unit().less(camera.partial_crop_probability) ==> drawn.0
                == FramingIntent::Centered && drawn.1 != ApparentScale::Partial
        }),
        framing_range(camera, ApparentScale::Partial) == camera.partial_target_width_fraction,
        framing_range(camera, ApparentScale::Close) == camera.close_target_width_fraction,
        framing_range(camera, ApparentScale::Normal) == camera.target_width_fraction,
        framing_range(camera, ApparentScale::Distant) == camera.distant_target_width_fraction,
{
}

/// A hand sways once along a path, and up and down twice.
pub proof fn hands_sway_once(path: CameraPathParameters)
    requires
        path.sway_phase.is_finite(),
    ensures
        sway_angle(path, Single::zero()).value() == path.sway_phase.value(),
        bob_angle(path, Single::zero()).value() == path.sway_phase.value(),
        rounds(
            sway_angle(path, Single::one()),
            tau().value() + path.sway_phase.value(),
            1,
        ),
        exists|twice: Single| #[trigger]
            rounds(twice, 2 * tau().value(), 1) && (twice.is_finite() ==> rounds(
                bob_angle(path, Single::one()),
                twice.value() + path.sway_phase.value(),
                1,
            )),
{
    one_is_one();
    small_literals();
    let (z, e, two) = (Single::zero(), Single::one(), Single::ratio(2, 1));
    assert(tau().is_finite());
    neutral_operands(tau(), z);
    neutral_operands(path.sway_phase, tau().times(z));
    products_round(two, tau());
    let twice = two.times(tau());
    let (t, u) = (tau().value(), unit());
    assert((2 * u) * t == (2 * t) * u) by (nonlinear_arith);
    crate::rounding::lemma_value(tau());
    crate::bounds::lemma_same_fraction(2 * t, 1, u);
    assert((2 * t) * u >= 0) by (nonlinear_arith)
        requires
            t >= 0,
            u > 0,
    ;
    assert(rounds(twice, 2 * t, 1));
    lemma_twice_tau();
    neutral_operands(twice, z);
    neutral_operands(path.sway_phase, twice.times(z));
    sums_round(tau(), path.sway_phase);
    sums_round(twice, path.sway_phase);
}

pub(crate) proof fn lemma_twice_tau()
    ensures
        Single::ratio(2, 1).times(tau()).is_finite(),
        tau().value() >= 0,
{
    one_is_one();
    small_literals();
    let two = Single::ratio(2, 1);
    let u = unit();
    products_round(two, tau());
    whole_literals(8);
    whole_literals(16);
    let (eight, sixteen) = (Single::ratio(8, 1), Single::ratio(16, 1));
    literals_round(8, 1);
    vstd::arithmetic::power2::lemma2_to64();
    vstd::arithmetic::power2::lemma_pow2_adds(23, 129);
    vstd::arithmetic::power2::lemma_pow2_adds(3, 149);
    crate::single::lemma_magnitude(129, 0x80_0000);
    assert(crate::single::magnitude(0x4100_0000) == 0x80_0000 * pow2(129));
    crate::single::lemma_magnitude_increases(tau().code(), 0x4100_0000);
    let t = tau().value();
    crate::rounding::lemma_value(tau());
    assert(0 <= t <= 8 * u);
    assert(size((2 * u) * t) <= (16 * u) * u) by (nonlinear_arith)
        requires
            0 <= t <= 8 * u,
            u > 0,
    ;
    bounded_results_are_finite(two.times(tau()), (2 * u) * t, u, sixteen);
}

/// The place of a point in an image: so far from the middle as it is aside, in its depth.
pub open spec fn drawn_aside(
    r: Single,
    middle: Single,
    focal: Single,
    aside: Single,
    depth: Single,
    sign: int,
) -> bool {
    exists|p: Single, q: Single|
        {
            &&& #[trigger] rounds(p, focal.value() * aside.value(), unit())
            &&& #[trigger] rounds(q, p.value() * unit(), depth.value())
            &&& p.is_finite() && q.is_finite() ==> rounds(
                r,
                middle.value() + sign * q.value(),
                1,
            )
        }
}

/// A point that lies before the camera widens the bounds of an image to where it is seen: to
/// the right as it lies to the right, up as it lies up, and not where it lies behind.
pub proof fn bounds_hold_what_is_seen(
    bounds: ImageBounds,
    position: Vec3,
    axes: ViewAxes,
    intrinsics: CameraIntrinsics,
    point: Vec3,
)
    requires
        intrinsics.fx.is_finite(),
        intrinsics.fy.is_finite(),
        intrinsics.cx.is_finite(),
        intrinsics.cy.is_finite(),
        point.minus(position).dot(axes.forward).is_finite(),
        point.minus(position).dot(axes.right).is_finite(),
        point.minus(position).dot(axes.up).is_finite(),
    ensures
        ({
            let away = point.minus(position);
            let (depth, right, up) = (
                away.dot(axes.forward),
                away.dot(axes.right),
                away.dot(axes.up),
            );
            let alone = bounds_with(empty_bounds(), position, axes, intrinsics, point);
            let joined = bounds_with(bounds, position, axes, intrinsics, point);
            &&& joined is None <==> depth.value() <= Single::ratio(1, 10000).value()
            &&& alone is None <==> joined is None
            &&& alone matches Some(own) ==> {
                let (x, y) = (own.min_x, own.min_y);
                &&& x != Single::infinity() ==> own.max_x == x || own.max_x.equals(x)
                &&& drawn_aside(x, intrinsics.cx, intrinsics.fx, right, depth, 1) || !seen_finitely(
                    intrinsics.fx,
                    right,
                    depth,
                )
                &&& drawn_aside(y, intrinsics.cy, intrinsics.fy, up, depth, -1) || !seen_finitely(
                    intrinsics.fy,
                    up,
                    depth,
                )
                &&& !x.is_nan() && x != Single::infinity() ==> joined->0.min_x.at_most(x)
                    && x.at_most(joined->0.max_x)
                &&& !y.is_nan() && y != Single::infinity() ==> joined->0.min_y.at_most(y)
                    && y.at_most(joined->0.max_y)
                &&& !bounds.min_x.is_nan() ==> joined->0.min_x.at_most(bounds.min_x)
                &&& !bounds.max_x.is_nan() ==> bounds.max_x.at_most(joined->0.max_x)
                &&& !bounds.min_y.is_nan() ==> joined->0.min_y.at_most(bounds.min_y)
                &&& !bounds.max_y.is_nan() ==> bounds.max_y.at_most(joined->0.max_y)
            }
        }),
{
    one_is_one();
    let away = point.minus(position);
    let (depth, right, up) = (away.dot(axes.forward), away.dot(axes.right), away.dot(axes.up));
    let least = Single::ratio(1, 10000);
    crate::single::fractions_lie_in_the_unit_interval(1, 10000);
    order_is_value_order(Single::zero(), least);
    order_is_value_order(depth, least);
    if depth.value() > least.value() {
        lemma_aside(intrinsics.cx, intrinsics.fx, right, depth);
        lemma_aside(intrinsics.cy, intrinsics.fy, up, depth);
    }
}

/// A product and a quotient that do not leave the numbers.
pub open spec fn seen_finitely(focal: Single, aside: Single, depth: Single) -> bool {
    focal.times(aside).is_finite() && focal.times(aside).over(depth).is_finite()
}

proof fn lemma_aside(middle: Single, focal: Single, aside: Single, depth: Single)
    requires
        middle.is_finite(),
        focal.is_finite(),
        aside.is_finite(),
        depth.is_finite(),
        depth.value() > 0,
    ensures
        seen_finitely(focal, aside, depth) ==> {
            let q = focal.times(aside).over(depth);
            &&& drawn_aside(q.plus(middle), middle, focal, aside, depth, 1)
            &&& drawn_aside(middle.minus(q), middle, focal, aside, depth, -1)
            &&& !q.plus(middle).is_nan()
            &&& !middle.minus(q).is_nan()
        },
{
    if seen_finitely(focal, aside, depth) {
        let p = focal.times(aside);
        let q = p.over(depth);
        products_round(focal, aside);
        quotients_round(p, depth);
        sums_round(q, middle);
        differences_round(middle, q);
        assert(rounds(p, focal.value() * aside.value(), unit()));
        assert(rounds(q, p.value() * unit(), depth.value()));
    }
}

/// The points of a target roof are the corners of its eave at the wall height, of its shoulder
/// above it by the lower rise, and of its crown above that by the upper one.
pub proof fn target_points_are_the_corners_of_its_stages(
    building: SampledBuilding,
    roof: SampledRoof,
    k: u32,
)
    requires
        k < 4,
        building.wall_height_m.is_finite(),
        roof.lower_rise_m.is_finite(),
        roof.upper_rise_m.is_finite(),
        building.wall_height_m.plus(roof.lower_rise_m).is_finite(),
    ensures
        ({
            let points = target_points(building, roof);
            let (eave, shoulder, crown) = (
                points[k as int],
                points[4 + k as int],
                points[8 + k as int],
            );
            &&& points.len() == 12
            &&& eave == corner(roof.eave_width_m, roof.eave_depth_m, eave.y, k)
            &&& shoulder == corner(roof.shoulder_width_m, roof.shoulder_depth_m, shoulder.y, k)
            &&& crown == corner(roof.crown_top_width_m, roof.crown_top_depth_m, crown.y, k)
            &&& eave.y == building.wall_height_m
            &&& rounds(shoulder.y, building.wall_height_m.value() + roof.lower_rise_m.value(), 1)
            &&& rounds(crown.y, shoulder.y.value() + roof.upper_rise_m.value(), 1)
        }),
{
    sums_round(building.wall_height_m, roof.lower_rise_m);
    sums_round(building.wall_height_m.plus(roof.lower_rise_m), roof.upper_rise_m);
    assert(k == 0 || k == 1 || k == 2 || k == 3);
}

/// The points of an ordinary roof are the corners of its eaves at the wall height and those of
/// its top, which is the rise above it: a level for a flat roof or a mansard, a ridge for a
/// gable, a hip or a shed, and one point for a pyramid.
pub proof fn ordinary_points_are_eaves_and_top(
    building: SampledBuilding,
    roof: SampledOrdinaryRoof,
    k: int,
)
    requires
        building.wall_height_m.is_finite(),
        roof.rise_m.is_finite(),
        roof.eave_width_m.is_finite(),
        roof.eave_depth_m.is_finite(),
        roof.family != OrdinaryRoofFamily::Cupola,
    ensures
        ({
            let points = ordinary_points(building, roof);
            let family = roof.family;
            &&& family == OrdinaryRoofFamily::Flat || family == OrdinaryRoofFamily::Mansard
                ==> points.len() == 8
            &&& family == OrdinaryRoofFamily::Gable || family == OrdinaryRoofFamily::Hip || family
                == OrdinaryRoofFamily::Shed ==> points.len() == 6
            &&& family == OrdinaryRoofFamily::Pyramid ==> points.len() == 5
            &&& 0 <= k < 4 ==> points[k].y == building.wall_height_m
            &&& rounds(points[2].x, roof.eave_width_m.value(), 2)
            &&& rounds(points[2].z, roof.eave_depth_m.value(), 2)
            &&& points[0].x == points[2].x.negated() && points[0].z == points[2].z.negated()
            &&& 4 <= k < points.len() ==> rounds(
                points[k].y,
                building.wall_height_m.value() + roof.rise_m.value(),
                1,
            )
            &&& family == OrdinaryRoofFamily::Gable ==> points[5].x == points[2].x && points[4].x
                == points[0].x && points[4].z == Single::zero()
            &&& family == OrdinaryRoofFamily::Shed ==> points[5] == Vec3::new(
                points[2].x,
                points[5].y,
                points[2].z,
            )
            &&& family == OrdinaryRoofFamily::Pyramid ==> points[4].x == Single::zero()
                && points[4].z == Single::zero()
        }),
{
    sums_round(building.wall_height_m, roof.rise_m);
    crate::framing_laws::lemma_half_rounds(roof.eave_width_m);
    crate::framing_laws::lemma_half_rounds(roof.eave_depth_m);
}

/// Halving the interval of shifts ends at one that still cuts the roof, where its upper end
/// did.
pub proof fn halving_keeps_the_crop(
    search: CropSearch,
    points: Seq<Vec3>,
    low: Single,
    high: Single,
    steps: nat,
)
    requires
        search.reaches(points, high),
    ensures
        search.reaches(points, search.halved(points, low, high, steps)),
        steps == 0 ==> search.halved(points, low, high, steps) == high,
    decreases steps,
{
    if steps > 0 {
        let middle = low.plus(high).times(Single::ratio(5, 10));
        if search.reaches(points, middle) {
            halving_keeps_the_crop(search, points, low, middle, (steps - 1) as nat);
        } else {
            halving_keeps_the_crop(search, points, middle, high, (steps - 1) as nat);
        }
    }
}

} // verus!
