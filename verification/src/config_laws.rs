//! What an accepted configuration promises.

use crate::check_composition::{
    background_rules, day_phase_rules, domain_rules, extension_sampling_rules,
    signage_sampling_rules, vegetation_rules, weather_rules,
};
use crate::check_config::{
    camera_sampling_rules, clutter_rules, disjoint, feasible_aspect, lighting_rules, output_rules,
    profile_rules, roof_rules, shell_rules,
};
use crate::check_laws::{lies_between, ranges_are_judged_by_their_ends};
use crate::check_values::{probability_rules, range_rules, unit_range_rules};
use crate::composition::DayPhase;
use crate::config::{
    CameraSamplingConfig, GeneratorConfig, LightingSamplingConfig, OccluderKind,
    OccluderSamplingConfig, RoofMorphologyProfile, RoofSamplingConfig, SceneSamplingConfig,
};
use crate::report::kept;
use crate::rounding::{
    exact_results_are_kept, literals_round, one_is_one, quotients_round, rounds, small_literals,
    whole_literals,
};
use crate::single::{order_is_value_order, Single};
use crate::types::{FloatRange, U32Range};
use crate::whole::unit;
use vstd::prelude::*;

verus! {

/// A range with known ends in their order.
pub open spec fn is_range(range: FloatRange) -> bool {
    range.min.is_finite() && range.max.is_finite() && range.min.value() <= range.max.value()
}

/// A range of numbers above nothing.
pub open spec fn is_range_above(range: FloatRange) -> bool {
    is_range(range) && range.min.value() > 0
}

/// A range of shares.
pub open spec fn is_range_of_shares(range: FloatRange) -> bool {
    is_range(range) && 0 <= range.min.value() && range.max.value() <= unit()
}

proof fn lemma_range(range: FloatRange)
    ensures
        forall|path: Seq<char>| #[trigger]
            kept(range_rules(path, range, false)) <==> is_range(range),
        forall|path: Seq<char>| #[trigger]
            kept(range_rules(path, range, true)) <==> is_range_above(range),
        is_range(range) ==> forall|path: Seq<char>| #[trigger]
            kept(unit_range_rules(path, range)) <==> is_range_of_shares(range),
{
    let none = U32Range { min: 0, max: 0 };
    assert forall|path: Seq<char>| #[trigger]
        kept(range_rules(path, range, false)) <==> is_range(range) by {
        ranges_are_judged_by_their_ends(path, range, none, range.min);
    }
    assert forall|path: Seq<char>| #[trigger]
        kept(range_rules(path, range, true)) <==> is_range_above(range) by {
        ranges_are_judged_by_their_ends(path, range, none, range.min);
    }
    if is_range(range) {
        assert forall|path: Seq<char>| #[trigger]
            kept(unit_range_rules(path, range)) <==> is_range_of_shares(range) by {
            ranges_are_judged_by_their_ends(path, range, none, range.min);
        }
    }
}

proof fn lemma_probability(share: Single)
    ensures
        forall|path: Seq<char>| #[trigger]
            kept(probability_rules(path, share)) <==> lies_between(share, 0, unit()),
{
    let (none, range) = (U32Range { min: 0, max: 0 }, FloatRange { min: share, max: share });
    assert forall|path: Seq<char>| #[trigger]
        kept(probability_rules(path, share)) <==> lies_between(share, 0, unit()) by {
        ranges_are_judged_by_their_ends(path, range, none, share);
    }
}

/// A configuration is accepted where there is something to render, and where its buildings
/// have ranges of sizes.
pub proof fn outputs_and_shells_are_accepted_where_they_exist(
    c: GeneratorConfig,
    scene: SceneSamplingConfig,
)
    ensures
        kept(output_rules(c)) <==> c.image.width > 0 && c.image.height > 0
            && c.sequence.frame_count > 0 && c.sequence.frame_interval_ms > 0,
        kept(shell_rules(scene)) <==> is_range_above(scene.footprint_width_m) && is_range_above(
            scene.footprint_depth_m,
        ) && is_range_above(scene.wall_height_m) && is_range_above(scene.ground_half_extent_m),
{
    broadcast use crate::report::group_kept;

    lemma_range(scene.footprint_width_m);
    lemma_range(scene.footprint_depth_m);
    lemma_range(scene.wall_height_m);
    lemma_range(scene.ground_half_extent_m);
}

/// Roofs are accepted where their ranges are ranges of sizes and of shares, and they lean by a
/// quarter at most.
pub proof fn roofs_are_accepted_where_they_are_possible(roof: RoofSamplingConfig)
    ensures
        kept(roof_rules(roof)) <==> {
            &&& is_range_above(roof.overhang_m) && is_range_above(roof.lower_rise_m)
            &&& is_range_above(roof.upper_rise_m)
            &&& is_range_above(roof.shoulder_width_fraction) && is_range_of_shares(
                roof.shoulder_width_fraction,
            )
            &&& is_range_above(roof.shoulder_depth_fraction) && is_range_of_shares(
                roof.shoulder_depth_fraction,
            )
            &&& is_range_above(roof.crown_top_width_fraction) && is_range_of_shares(
                roof.crown_top_width_fraction,
            )
            &&& is_range_above(roof.crown_top_depth_fraction) && is_range_of_shares(
                roof.crown_top_depth_fraction,
            )
            &&& is_range(roof.asymmetry_fraction)
            &&& -unit() <= 4 * roof.asymmetry_fraction.min.value()
            &&& 4 * roof.asymmetry_fraction.max.value() <= unit()
        },
{
    broadcast use crate::report::group_kept;

    one_is_one();
    lemma_range(roof.overhang_m);
    lemma_range(roof.lower_rise_m);
    lemma_range(roof.upper_rise_m);
    lemma_range(roof.shoulder_width_fraction);
    lemma_range(roof.shoulder_depth_fraction);
    lemma_range(roof.crown_top_width_fraction);
    lemma_range(roof.crown_top_depth_fraction);
    lemma_range(roof.asymmetry_fraction);
    lemma_quarters();
    if is_range(roof.asymmetry_fraction) {
        order_is_value_order(roof.asymmetry_fraction.min, Single::ratio((-25) as i32, 100));
        order_is_value_order(Single::ratio(25, 100), roof.asymmetry_fraction.max);
    }
}

proof fn lemma_quarters()
    ensures
        Single::ratio(25, 100).is_finite(),
        4 * Single::ratio(25, 100).value() == unit(),
        Single::ratio((-25) as i32, 100).is_finite(),
        4 * Single::ratio((-25) as i32, 100).value() == -unit(),
{
    one_is_one();
    crate::context_laws::lemma_quarter();
    let u = unit();
    let q = Single::ratio(25, 100);
    crate::rounding::negations_change_the_sign(q);
    literals_round((-25) as i32, 100);
    exact_results_are_kept(Single::ratio((-25) as i32, 100), -25 * u, 100, q.negated());
}

/// The light is accepted where it is possible: shares of clouds and haze, and no negative
/// strength.
pub proof fn light_is_accepted_where_it_is_possible(lighting: LightingSamplingConfig)
    ensures
        kept(lighting_rules(lighting)) <==> {
            &&& is_range(lighting.sun_elevation_degrees)
            &&& is_range(lighting.sun_intensity) && lighting.sun_intensity.min.value() >= 0
            &&& is_range(lighting.sky_intensity) && lighting.sky_intensity.min.value() >= 0
            &&& is_range_of_shares(lighting.cloud_coverage) && is_range_of_shares(lighting.haze)
        },
{
    broadcast use crate::report::group_kept;

    one_is_one();
    lemma_range(lighting.sun_elevation_degrees);
    lemma_range(lighting.sun_intensity);
    lemma_range(lighting.sky_intensity);
    lemma_range(lighting.cloud_coverage);
    lemma_range(lighting.haze);
    if is_range(lighting.sun_intensity) {
        order_is_value_order(lighting.sun_intensity.min, Single::zero());
    }
    if is_range(lighting.sky_intensity) {
        order_is_value_order(lighting.sky_intensity.min, Single::zero());
    }
}

/// Clutter is accepted where its ranges are ranges and something that stands on the ground can
/// be chosen.
pub proof fn clutter_is_accepted_where_it_can_stand(own: OccluderSamplingConfig)
    ensures
        kept(clutter_rules(own)) <==> {
            &&& own.count.min <= own.count.max
            &&& is_range(own.distance_m) && is_range_above(own.scale)
            &&& is_range_above(own.foreground_depth_fraction) && is_range_of_shares(
                own.foreground_depth_fraction,
            )
            &&& is_range(own.foreground_lateral_offset_m)
            &&& lies_between(own.foreground_probability, 0, unit())
            &&& exists|i: int|
                0 <= i < own.choices@.len() && (#[trigger] own.choices@[i]).weight > 0
                    && own.choices@[i].kind != OccluderKind::RooftopEquipment
        },
{
    broadcast use crate::report::group_kept;

    lemma_range(own.distance_m);
    lemma_range(own.scale);
    lemma_range(own.foreground_depth_fraction);
    lemma_range(own.foreground_lateral_offset_m);
    lemma_probability(own.foreground_probability);
}

/// Accepted cameras can see something: they have ranges of distances, heights, sweeps and
/// lenses, of which each is between one and 179 degrees; some path and some scale to choose;
/// probabilities between none and all; zooms between half and double; and crops and sways that
/// leave the building in view.
#[verifier::rlimit(50)]
pub proof fn accepted_cameras_can_see(camera: CameraSamplingConfig)
    ensures
        kept(camera_sampling_rules(camera)) ==> {
            &&& is_range_above(camera.distance_m) && is_range_above(camera.height_m)
            &&& is_range_above(camera.sweep_degrees) && is_range_above(
                camera.horizontal_fov_degrees,
            )
            &&& is_range_above(camera.zoom_ratio) && is_range_above(camera.target_width_fraction)
            &&& is_range_above(camera.distant_target_width_fraction)
            &&& is_range_above(camera.close_target_width_fraction)
            &&& is_range_above(camera.partial_target_width_fraction)
            &&& is_range_above(camera.framing_offset_fraction)
            &&& is_range(camera.radial_motion_fraction) && is_range(camera.target_above_eave_m)
            &&& is_range(camera.handheld_sway_m)
            &&& unit() < camera.horizontal_fov_degrees.min.value()
            &&& camera.horizontal_fov_degrees.max.value() < 179 * unit()
            &&& -unit() < camera.radial_motion_fraction.min.value()
            &&& camera.orbit_weight > 0 || camera.lateral_walk_weight > 0
                || camera.approach_arc_weight > 0 || camera.corner_reveal_weight > 0
            &&& camera.distant_view_weight > 0 || camera.normal_view_weight > 0
                || camera.close_view_weight > 0
            &&& lies_between(camera.zoom_probability, 0, unit())
            &&& lies_between(camera.partial_crop_probability, 0, unit())
            &&& unit() <= 2 * camera.zoom_ratio.min.value()
            &&& camera.zoom_ratio.max.value() <= 2 * unit()
            &&& 2 * camera.partial_target_width_fraction.max.value() <= 3 * unit()
            &&& camera.close_target_width_fraction.max.value() <= unit()
            &&& 0 <= camera.handheld_sway_m.min.value()
            &&& 2 * camera.handheld_sway_m.max.value() <= unit()
        },
{
    broadcast use crate::report::group_kept;

    one_is_one();
    small_literals();
    if kept(camera_sampling_rules(camera)) {
        lemma_camera_ranges(camera);
        lemma_probability(camera.zoom_probability);
        lemma_probability(camera.partial_crop_probability);
        whole_literals(179);
        whole_literals((-1) as i32);
        crate::check_laws::lemma_half_literal();
        crate::validity_laws::lemma_three_halves();
        order_is_value_order(camera.horizontal_fov_degrees.min, Single::one());
        order_is_value_order(Single::ratio(179, 1), camera.horizontal_fov_degrees.max);
        order_is_value_order(
            camera.radial_motion_fraction.min,
            Single::ratio((-1) as i32, 1),
        );
        order_is_value_order(camera.zoom_ratio.min, Single::ratio(1, 2));
        order_is_value_order(Single::ratio(2, 1), camera.zoom_ratio.max);
        order_is_value_order(Single::ratio(15, 10), camera.partial_target_width_fraction.max);
        order_is_value_order(Single::one(), camera.close_target_width_fraction.max);
        order_is_value_order(camera.handheld_sway_m.min, Single::zero());
        order_is_value_order(Single::ratio(1, 2), camera.handheld_sway_m.max);
    }
}

proof fn lemma_camera_ranges(camera: CameraSamplingConfig)
    requires
        kept(camera_sampling_rules(camera)),
    ensures
        is_range_above(camera.distance_m),
        is_range_above(camera.height_m),
        is_range_above(camera.sweep_degrees),
        is_range_above(camera.horizontal_fov_degrees),
        is_range_above(camera.zoom_ratio),
        is_range_above(camera.target_width_fraction),
        is_range_above(camera.distant_target_width_fraction),
        is_range_above(camera.close_target_width_fraction),
        is_range_above(camera.partial_target_width_fraction),
        is_range_above(camera.framing_offset_fraction),
        is_range(camera.radial_motion_fraction),
        is_range(camera.target_above_eave_m),
        is_range(camera.handheld_sway_m),
{
    broadcast use crate::report::group_kept;

    lemma_range(camera.distance_m);
    lemma_range(camera.height_m);
    lemma_range(camera.sweep_degrees);
    lemma_range(camera.horizontal_fov_degrees);
    lemma_range(camera.zoom_ratio);
    lemma_range(camera.target_width_fraction);
    lemma_range(camera.distant_target_width_fraction);
    lemma_range(camera.close_target_width_fraction);
    lemma_range(camera.partial_target_width_fraction);
    lemma_range(camera.framing_offset_fraction);
    lemma_range(camera.radial_motion_fraction);
    lemma_range(camera.target_above_eave_m);
    lemma_range(camera.handheld_sway_m);
}

/// Ranges are disjoint where they have no number in common.
pub proof fn disjoint_ranges_share_no_number(a: FloatRange, b: FloatRange)
    requires
        a.is_valid(),
        b.is_valid(),
    ensures
        disjoint(a, b) <==> a.max.value() < b.min.value() || b.max.value() < a.min.value(),
        disjoint(a, b) == disjoint(b, a),
{
    order_is_value_order(a.min, a.max);
    order_is_value_order(b.min, b.max);
    order_is_value_order(a.min, b.min);
    order_is_value_order(b.min, a.min);
    order_is_value_order(a.max, b.max);
    order_is_value_order(b.max, a.max);
    order_is_value_order(a.min, b.max);
    order_is_value_order(b.min, a.max);
}

/// The aspects that buildings can have go from the narrowest over the deepest to the widest
/// over the shallowest.
pub proof fn aspects_are_width_over_depth(scene: SceneSamplingConfig)
    ensures
        feasible_aspect(scene) is Some <==> is_range_above(scene.footprint_width_m)
            && is_range_above(scene.footprint_depth_m),
        feasible_aspect(scene) matches Some(own) ==> {
            &&& rounds(
                own.min,
                scene.footprint_width_m.min.value() * unit(),
                scene.footprint_depth_m.max.value(),
            )
            &&& rounds(
                own.max,
                scene.footprint_width_m.max.value() * unit(),
                scene.footprint_depth_m.min.value(),
            )
        },
{
    one_is_one();
    let (w, d) = (scene.footprint_width_m, scene.footprint_depth_m);
    if w.min.is_finite() && w.max.is_finite() {
        order_is_value_order(w.min, w.max);
        order_is_value_order(Single::zero(), w.min);
    }
    if d.min.is_finite() && d.max.is_finite() {
        order_is_value_order(d.min, d.max);
        order_is_value_order(Single::zero(), d.min);
    }
    if is_range_above(w) && is_range_above(d) {
        quotients_round(w.min, d.max);
        quotients_round(w.max, d.min);
    }
}

/// A profile nests: its shoulder and its crown are smaller than what they stand on.
pub open spec fn nests(profile: RoofMorphologyProfile) -> bool {
    &&& is_range_above(profile.shoulder_width_fraction)
    &&& profile.shoulder_width_fraction.max.value() < unit()
    &&& is_range_above(profile.shoulder_depth_fraction)
    &&& profile.shoulder_depth_fraction.max.value() < unit()
    &&& is_range_above(profile.crown_top_width_fraction)
    &&& profile.crown_top_width_fraction.max.value() < unit()
    &&& is_range_above(profile.crown_top_depth_fraction)
    &&& profile.crown_top_depth_fraction.max.value() < unit()
}

/// An accepted profile nests, and shares numbers with the ranges of all roofs.
pub proof fn accepted_profiles_nest(
    base: Seq<char>,
    profile: RoofMorphologyProfile,
    roof: RoofSamplingConfig,
    aspect: Option<FloatRange>,
)
    requires
        kept(profile_rules(base, profile, roof, aspect)),
    ensures
        nests(profile),
        is_range_above(profile.footprint_aspect_ratio),
        is_range_above(profile.overhang_m),
        is_range_above(profile.lower_rise_m),
        is_range_above(profile.upper_rise_m),
        !disjoint(roof.overhang_m, profile.overhang_m),
        !disjoint(roof.lower_rise_m, profile.lower_rise_m),
        !disjoint(roof.upper_rise_m, profile.upper_rise_m),
        !disjoint(roof.shoulder_width_fraction, profile.shoulder_width_fraction),
        !disjoint(roof.shoulder_depth_fraction, profile.shoulder_depth_fraction),
        !disjoint(roof.crown_top_width_fraction, profile.crown_top_width_fraction),
        !disjoint(roof.crown_top_depth_fraction, profile.crown_top_depth_fraction),
        aspect matches Some(own) ==> profile.footprint_aspect_ratio.intersection(own) is Some,
{
    broadcast use crate::report::group_kept;

    one_is_one();
    lemma_range(profile.footprint_aspect_ratio);
    lemma_range(profile.overhang_m);
    lemma_range(profile.lower_rise_m);
    lemma_range(profile.upper_rise_m);
    lemma_range(profile.shoulder_width_fraction);
    lemma_range(profile.shoulder_depth_fraction);
    lemma_range(profile.crown_top_width_fraction);
    lemma_range(profile.crown_top_depth_fraction);
    lemma_under_one(profile.shoulder_width_fraction);
    lemma_under_one(profile.shoulder_depth_fraction);
    lemma_under_one(profile.crown_top_width_fraction);
    lemma_under_one(profile.crown_top_depth_fraction);
    lemma_under_one(profile.footprint_aspect_ratio);
}

proof fn lemma_under_one(range: FloatRange)
    ensures
        is_range(range) ==> range.is_valid() && (Single::one().at_most(range.max) <==> unit()
            <= range.max.value()),
{
    one_is_one();
    if is_range(range) {
        order_is_value_order(range.min, range.max);
        order_is_value_order(Single::one(), range.max);
    }
}

/// Additions are accepted where each choice of how many, what and under which roof can be
/// made, their shares are shares, and they stay close to the building.
pub proof fn accepted_additions_can_be_chosen(
    own: crate::composition::BuildingExtensionSamplingConfig,
)
    ensures
        kept(extension_sampling_rules(own)) <==> {
            &&& own.none_weight > 0 || own.one_weight > 0 || own.two_weight > 0
            &&& own.dining_wing_weight > 0 || own.entrance_vestibule_weight > 0
                || own.service_annex_weight > 0
            &&& own.flat_roof_weight > 0 || own.shed_roof_weight > 0
            &&& is_range_above(own.facade_width_fraction) && is_range_of_shares(
                own.facade_width_fraction,
            )
            &&& is_range_above(own.wall_height_fraction) && is_range_of_shares(
                own.wall_height_fraction,
            )
            &&& is_range_above(own.projection_m) && own.projection_m.max.value() <= 12 * unit()
            &&& is_range_above(own.shed_rise_m) && own.shed_rise_m.max.value() <= 2 * unit()
            &&& is_range(own.facade_offset_fraction)
            &&& -unit() <= own.facade_offset_fraction.min.value()
            &&& own.facade_offset_fraction.max.value() <= unit()
        },
{
    broadcast use crate::report::group_kept;

    one_is_one();
    lemma_range(own.facade_width_fraction);
    lemma_range(own.wall_height_fraction);
    lemma_range(own.projection_m);
    lemma_range(own.shed_rise_m);
    lemma_range(own.facade_offset_fraction);
    whole_literals((-1) as i32);
    whole_literals(12);
    whole_literals(2);
    if is_range(own.projection_m) {
        order_is_value_order(Single::ratio(12, 1), own.projection_m.max);
    }
    if is_range(own.shed_rise_m) {
        order_is_value_order(Single::ratio(2, 1), own.shed_rise_m.max);
    }
    if is_range(own.facade_offset_fraction) {
        order_is_value_order(own.facade_offset_fraction.min, Single::ratio((-1) as i32, 1));
        order_is_value_order(Single::one(), own.facade_offset_fraction.max);
    }
}

/// Signs are accepted where one, or none, can be chosen and their shares are shares.
pub proof fn accepted_signs_can_be_chosen(own: crate::composition::SignageSamplingConfig)
    ensures
        kept(signage_sampling_rules(own)) <==> {
            &&& own.none_weight > 0 || own.pizza_hut_weight > 0 || own.removed_ghost_weight > 0
                || own.rebranded_tenant_weight > 0
            &&& is_range_above(own.width_fraction) && is_range_of_shares(own.width_fraction)
            &&& is_range_above(own.vertical_fraction) && is_range_of_shares(
                own.vertical_fraction,
            )
            &&& is_range_above(own.height_m) && is_range(own.emissive_strength)
        },
{
    broadcast use crate::report::group_kept;

    lemma_range(own.width_fraction);
    lemma_range(own.vertical_fraction);
    lemma_range(own.height_m);
    lemma_range(own.emissive_strength);
}

/// Two ranges with a number in common.
pub open spec fn meet(a: FloatRange, b: FloatRange) -> bool {
    &&& is_range(a) && is_range(b)
    &&& a.min.value() <= b.max.value() && b.min.value() <= a.max.value()
}

proof fn lemma_meet(a: FloatRange, b: FloatRange)
    ensures
        crate::check_values::ranges_overlap(a, b) <==> meet(a, b),
{
    if a.min.is_finite() && a.max.is_finite() {
        order_is_value_order(a.min, a.max);
    }
    if b.min.is_finite() && b.max.is_finite() {
        order_is_value_order(b.min, b.max);
    }
    if is_range(a) && is_range(b) {
        crate::check_laws::overlapping_ranges_share_a_number(a, b, a.min);
    }
}

/// A time of day is accepted where its sun can stand as the light allows, by day not below the
/// horizon and at night well below it, and where its lamps do not shine negatively.
pub proof fn accepted_times_suit_their_sun(
    base: Seq<char>,
    own: crate::composition::DayPhaseProfile,
    lighting: LightingSamplingConfig,
)
    ensures
        kept(day_phase_rules(base, own, lighting)) <==> {
            &&& is_range(own.camera_exposure_ev100)
            &&& is_range(own.artificial_light_strength)
            &&& own.artificial_light_strength.min.value() >= 0
            &&& meet(own.sun_elevation_degrees, lighting.sun_elevation_degrees)
            &&& own.phase == DayPhase::Day ==> own.sun_elevation_degrees.min.value() >= 0
            &&& own.phase == DayPhase::Night ==> own.sun_elevation_degrees.max.value() <= -4
                * unit()
        },
{
    broadcast use crate::report::group_kept;

    one_is_one();
    lemma_range(own.sun_elevation_degrees);
    lemma_range(own.camera_exposure_ev100);
    lemma_range(own.artificial_light_strength);
    lemma_meet(own.sun_elevation_degrees, lighting.sun_elevation_degrees);
    whole_literals((-4) as i32);
    if is_range(own.artificial_light_strength) {
        order_is_value_order(own.artificial_light_strength.min, Single::zero());
    }
    if is_range(own.sun_elevation_degrees) {
        order_is_value_order(own.sun_elevation_degrees.min, Single::zero());
        order_is_value_order(Single::ratio((-4) as i32, 1), own.sun_elevation_degrees.max);
    }
}

/// Weather is accepted where it is possible and meets the light that is allowed.
pub proof fn accepted_weather_is_possible(
    base: Seq<char>,
    own: crate::composition::WeatherProfile,
    lighting: LightingSamplingConfig,
)
    ensures
        kept(weather_rules(base, own, lighting)) <==> {
            &&& is_range_of_shares(own.cloud_coverage) && is_range_of_shares(own.haze)
            &&& is_range_of_shares(own.shadow_softness) && is_range_of_shares(own.ground_wetness)
            &&& own.sun_intensity.min.value() >= 0 && own.sky_intensity.min.value() >= 0
            &&& is_range_above(own.visibility_km) && is_range(own.color_temperature_k)
            &&& 1800 * unit() <= own.color_temperature_k.min.value()
            &&& own.color_temperature_k.max.value() <= 12000 * unit()
            &&& meet(own.cloud_coverage, lighting.cloud_coverage) && meet(own.haze, lighting.haze)
            &&& meet(own.sun_intensity, lighting.sun_intensity)
            &&& meet(own.sky_intensity, lighting.sky_intensity)
        },
{
    broadcast use crate::report::group_kept;

    one_is_one();
    lemma_range(own.cloud_coverage);
    lemma_range(own.haze);
    lemma_range(own.sun_intensity);
    lemma_range(own.sky_intensity);
    lemma_range(own.shadow_softness);
    lemma_range(own.ground_wetness);
    lemma_range(own.visibility_km);
    lemma_range(own.color_temperature_k);
    lemma_meet(own.cloud_coverage, lighting.cloud_coverage);
    lemma_meet(own.haze, lighting.haze);
    lemma_meet(own.sun_intensity, lighting.sun_intensity);
    lemma_meet(own.sky_intensity, lighting.sky_intensity);
    whole_literals(1800);
    whole_literals(12000);
    if is_range(own.sun_intensity) {
        order_is_value_order(own.sun_intensity.min, Single::zero());
    }
    if is_range(own.sky_intensity) {
        order_is_value_order(own.sky_intensity.min, Single::zero());
    }
    if is_range(own.color_temperature_k) {
        order_is_value_order(own.color_temperature_k.min, Single::ratio(1800, 1));
        order_is_value_order(Single::ratio(12000, 1), own.color_temperature_k.max);
    }
}

/// A domain is accepted where its numbers are ranges, there is a road, and as many neighbours
/// and plants can stand in it as may stand anywhere.
pub proof fn accepted_domains_are_possible(
    base: Seq<char>,
    own: crate::composition::SceneDomainProfile,
    background: crate::composition::BackgroundBuildingSamplingConfig,
    vegetation: crate::composition::VegetationSamplingConfig,
)
    ensures
        kept(domain_rules(base, own, background, vegetation)) <==> {
            &&& own.background_buildings.min <= own.background_buildings.max
            &&& own.vegetation.min <= own.vegetation.max
            &&& own.parking_bays.min <= own.parking_bays.max
            &&& 0 < own.road_lanes.min <= own.road_lanes.max
            &&& own.utility_poles.min <= own.utility_poles.max <= 65_535
            &&& lies_between(own.curb_probability, 0, unit())
            &&& lies_between(own.overhead_line_probability, 0, unit())
            &&& crate::check_values::intersect_u32(
                own.background_buildings,
                background.count,
            ) is Some
            &&& crate::check_values::intersect_u32(own.vegetation, vegetation.count) is Some
        },
{
    broadcast use crate::report::group_kept;

    lemma_probability(own.curb_probability);
    lemma_probability(own.overhead_line_probability);
}

/// Neighbours and plants are accepted where they can have some size, and plants where one can
/// be chosen whose crown is not wider than three quarters of its height.
pub proof fn accepted_surroundings_have_sizes(
    neighbours: crate::composition::BackgroundBuildingSamplingConfig,
    plants: crate::composition::VegetationSamplingConfig,
)
    ensures
        kept(background_rules(neighbours)) <==> {
            &&& neighbours.count.min <= neighbours.count.max
            &&& is_range_above(neighbours.setback_m) && is_range_above(neighbours.width_m)
            &&& is_range_above(neighbours.depth_m) && is_range_above(neighbours.height_m)
            &&& is_range(neighbours.yaw_jitter_degrees)
        },
        kept(vegetation_rules(plants)) <==> {
            &&& plants.count.min <= plants.count.max
            &&& plants.deciduous_weight > 0 || plants.evergreen_weight > 0 || plants.palm_weight
                > 0 || plants.shrub_weight > 0
            &&& is_range_above(plants.building_setback_m)
            &&& is_range(plants.site_distance_m) && plants.site_distance_m.min.value() >= 0
            &&& is_range_above(plants.tree_height_m) && is_range_above(plants.shrub_height_m)
            &&& is_range_above(plants.canopy_radius_fraction)
            &&& plants.canopy_radius_fraction.max.value() <= Single::ratio(75, 100).value()
        },
{
    broadcast use crate::report::group_kept;

    one_is_one();
    lemma_range(neighbours.setback_m);
    lemma_range(neighbours.width_m);
    lemma_range(neighbours.depth_m);
    lemma_range(neighbours.height_m);
    lemma_range(neighbours.yaw_jitter_degrees);
    lemma_range(plants.building_setback_m);
    lemma_range(plants.site_distance_m);
    lemma_range(plants.tree_height_m);
    lemma_range(plants.shrub_height_m);
    lemma_range(plants.canopy_radius_fraction);
    crate::bounds::ratios_are_finite(75, 100);
    if is_range(plants.site_distance_m) {
        order_is_value_order(plants.site_distance_m.min, Single::zero());
    }
    if is_range(plants.canopy_radius_fraction) {
        order_is_value_order(Single::ratio(75, 100), plants.canopy_radius_fraction.max);
    }
}

} // verus!
