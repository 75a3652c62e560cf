//! What an accepted scene promises.

use crate::check_scene::{
    attached_position, environment_domain, facade_half_width, first_background_rules,
    first_extension_rules, first_line_rules, first_occluder_rules, first_plant_rules,
    first_pole_rules, first_sign_rules, first_source_id_rules, footprint_radius, ground_distance,
    half_diagonal, in_footprint, infrastructure_rules, normal_position, not_negative, off_crown,
    off_ground, phase_rules, positive, positive_size, sampled_composition_rules,
    sampled_scene_rules, sound_background, sound_building, sound_environment, sound_extension,
    sound_facade, sound_infrastructure, sound_lighting, sound_line, sound_material, sound_occluder,
    sound_ordinary_roof, sound_pole, sound_roof, sound_sign, sound_vegetation, sunny_night,
    tangential_extent,
};
use crate::check_values::{
    first_material_rules, material_rules, materials_rules, probability_rules, range_rules,
    ranges_overlap, u32_range_rules, unit as is_unit, unit_range_rules,
};
use crate::composition::{
    BuildingExtensionRoof, DayPhase, FacadeSide, SampledBackgroundBuilding,
    SampledBuildingExtension, SampledEnvironment, SampledFacade, SampledSignage,
    SampledSiteInfrastructure, SampledUtilityLine, SampledUtilityPole, SampledVegetation,
    SceneDomain, SignageKind,
};
use crate::config::MaterialChoice;
use crate::geometry::{outside_target_footprint, rotated_half_extents, SceneTurns, Turn};
use crate::plan::{
    OccluderPlacement, SampledBuilding, SampledLighting, SampledMaterial, SampledOccluder,
    SampledOrdinaryRoof, SampledRoof, SampledScene,
};
use crate::report::kept;
use crate::rounding::{
    bounded_results_are_finite, literals_round, negations_change_the_sign, one_is_one,
    products_follow_signs, rounds, sums_round, whole_literals,
};
use crate::single::{order_is_value_order, Single};
use crate::types::{FloatRange, U32Range, Vec3};
use crate::whole::unit;
use vstd::prelude::*;

verus! {

/// A number that is known and lies between two others.
pub open spec fn lies_between(x: Single, low: int, high: int) -> bool {
    x.is_finite() && low <= x.value() <= high
}

/// A number that is known and larger than nothing.
pub open spec fn is_some_size(x: Single) -> bool {
    x.is_finite() && x.value() > 0
}

/// Shares lie between none and all, sizes are more than nothing, and strengths not less.
pub proof fn numbers_are_judged_by_their_value(x: Single)
    ensures
        is_unit(x) <==> lies_between(x, 0, unit()),
        positive(x) <==> is_some_size(x),
        not_negative(x) <==> x.is_finite() && x.value() >= 0,
{
    one_is_one();
    if x.is_finite() {
        order_is_value_order(Single::zero(), x);
        order_is_value_order(x, Single::one());
        order_is_value_order(x, Single::zero());
    }
}

/// A range is accepted where it is one: with known ends in their order, both above nothing
/// where that is asked; a share's range lies between none and all.
pub proof fn ranges_are_judged_by_their_ends(
    path: Seq<char>,
    range: FloatRange,
    counts: U32Range,
    share: Single,
)
    ensures
        kept(range_rules(path, range, false)) <==> range.min.is_finite() && range.max.is_finite()
            && range.min.value() <= range.max.value(),
        kept(range_rules(path, range, true)) <==> is_some_size(range.min)
            && range.max.is_finite() && range.min.value() <= range.max.value(),
        kept(range_rules(path, range, false)) ==> (kept(unit_range_rules(path, range)) <==> 0
            <= range.min.value() && range.max.value() <= unit()),
        kept(u32_range_rules(path, counts)) <==> counts.min <= counts.max,
        kept(probability_rules(path, share)) <==> lies_between(share, 0, unit()),
{
    broadcast use crate::report::group_kept;

    one_is_one();
    numbers_are_judged_by_their_value(share);
    if range.min.is_finite() && range.max.is_finite() {
        order_is_value_order(range.min, range.max);
        order_is_value_order(range.min, Single::zero());
        order_is_value_order(Single::zero(), range.min);
        order_is_value_order(range.max, Single::one());
        order_is_value_order(Single::one(), range.max);
    }
}

/// Two ranges overlap where they have a number in common.
pub proof fn overlapping_ranges_share_a_number(left: FloatRange, right: FloatRange, x: Single)
    requires
        left.is_valid(),
        right.is_valid(),
    ensures
        ranges_overlap(left, right) <==> left.min.value() <= right.max.value()
            && right.min.value() <= left.max.value(),
        left.contains(x) && right.contains(x) ==> ranges_overlap(left, right),
        ranges_overlap(left, right) == ranges_overlap(right, left),
{
    order_is_value_order(left.min, left.max);
    order_is_value_order(right.min, right.max);
    order_is_value_order(left.min, right.max);
    order_is_value_order(right.min, left.max);
    order_is_value_order(left.min, right.min);
    order_is_value_order(right.min, left.min);
    order_is_value_order(left.max, right.max);
    order_is_value_order(right.max, left.max);
    if x.is_finite() {
        order_is_value_order(left.min, x);
        order_is_value_order(x, left.max);
        order_is_value_order(right.min, x);
        order_is_value_order(x, right.max);
    }
}

/// A sound choice of a palette.
pub open spec fn is_sound_choice(materials: Seq<MaterialChoice>, i: int) -> bool {
    let own = materials[i];
    &&& !crate::text::blank(own.id@)
    &&& forall|j: int| 0 <= j < i ==> (#[trigger] materials[j]).id@ != own.id@
    &&& lies_between(own.base_color_srgb[0], 0, unit())
    &&& lies_between(own.base_color_srgb[1], 0, unit())
    &&& lies_between(own.base_color_srgb[2], 0, unit())
    &&& own.base_color_variation.is_finite()
    &&& 0 <= 2 * own.base_color_variation.value() <= unit()
    &&& lies_between(own.roughness.min, 0, own.roughness.max.value())
    &&& lies_between(own.roughness.max, 0, unit())
    &&& lies_between(own.weathering.min, 0, own.weathering.max.value())
    &&& lies_between(own.weathering.max, 0, unit())
}

pub(crate) proof fn lemma_half_literal()
    ensures
        Single::ratio(1, 2).is_finite(),
        2 * Single::ratio(1, 2).value() == unit(),
{
    one_is_one();
    crate::rounding::small_literals();
    literals_round(1, 2);
    crate::rounding::exact_results_are_kept(
        Single::ratio(1, 2),
        unit(),
        2,
        Single::ratio(5, 10),
    );
}

proof fn lemma_material(path: Seq<char>, materials: Seq<MaterialChoice>, i: int)
    ensures
        kept(material_rules(path, materials, i)) <==> is_sound_choice(materials, i),
{
    broadcast use crate::report::group_kept;

    one_is_one();
    let own = materials[i];
    numbers_are_judged_by_their_value(own.base_color_srgb[0]);
    numbers_are_judged_by_their_value(own.base_color_srgb[1]);
    numbers_are_judged_by_their_value(own.base_color_srgb[2]);
    let half = Single::ratio(1, 2);
    lemma_half_literal();
    if own.base_color_variation.is_finite() {
        order_is_value_order(Single::zero(), own.base_color_variation);
        order_is_value_order(own.base_color_variation, half);
    }
    let rough = crate::text::element(path, i, ".roughness"@);
    let weather = crate::text::element(path, i, ".weathering"@);
    ranges_are_judged_by_their_ends(rough, own.roughness, U32Range { min: 0, max: 0 }, half);
    ranges_are_judged_by_their_ends(weather, own.weathering, U32Range { min: 0, max: 0 }, half);
}

proof fn lemma_materials(path: Seq<char>, materials: Seq<MaterialChoice>, n: nat)
    requires
        n <= materials.len(),
    ensures
        kept(first_material_rules(path, materials, n)) <==> forall|i: int|
            0 <= i < n ==> #[trigger] is_sound_choice(materials, i),
    decreases n,
{
    broadcast use crate::report::group_kept;

    if n > 0 {
        lemma_materials(path, materials, (n - 1) as nat);
        lemma_material(path, materials, n - 1);
    }
}

/// A palette is accepted where each of its choices is sound and has its own name, and where
/// something can be chosen.
pub proof fn palettes_are_accepted_where_they_are_sound(
    path: Seq<char>,
    materials: Seq<MaterialChoice>,
)
    ensures
        kept(materials_rules(path, materials)) <==> {
            &&& exists|i: int| 0 <= i < materials.len() && (#[trigger] materials[i]).weight > 0
            &&& forall|i: int| 0 <= i < materials.len() ==> #[trigger] is_sound_choice(materials, i)
        },
{
    broadcast use crate::report::group_kept;

    lemma_materials(path, materials, materials.len());
}

/// A building is sound where each of its dimensions is some size, a target roof where it also
/// gets smaller from its eave to its shoulder and from there to its crown, and an ordinary one
/// where it covers the building and rises.
pub proof fn shells_are_sound_where_they_stand(
    building: SampledBuilding,
    roof: SampledRoof,
    ordinary: SampledOrdinaryRoof,
)
    ensures
        sound_building(building) <==> {
            &&& is_some_size(building.footprint_width_m)
            &&& is_some_size(building.footprint_depth_m)
            &&& is_some_size(building.wall_height_m)
            &&& is_some_size(building.ground_half_extent_m)
        },
        sound_roof(roof) <==> {
            &&& is_some_size(roof.eave_width_m) && is_some_size(roof.eave_depth_m)
            &&& is_some_size(roof.shoulder_width_m) && is_some_size(roof.shoulder_depth_m)
            &&& is_some_size(roof.crown_top_width_m) && is_some_size(roof.crown_top_depth_m)
            &&& is_some_size(roof.lower_rise_m) && is_some_size(roof.upper_rise_m)
            &&& roof.asymmetry_fraction.is_finite()
            &&& roof.crown_top_width_m.value() < roof.shoulder_width_m.value()
                < roof.eave_width_m.value()
            &&& roof.crown_top_depth_m.value() < roof.shoulder_depth_m.value()
                < roof.eave_depth_m.value()
        },
        building.footprint_width_m.is_finite() && building.footprint_depth_m.is_finite() ==> (
        sound_ordinary_roof(ordinary, building) <==> {
            &&& ordinary.eave_width_m.is_finite() && ordinary.eave_width_m.value() >= 0
            &&& ordinary.eave_depth_m.is_finite() && ordinary.eave_depth_m.value() >= 0
            &&& building.footprint_width_m.value() < ordinary.eave_width_m.value()
            &&& building.footprint_depth_m.value() < ordinary.eave_depth_m.value()
            &&& is_some_size(ordinary.rise_m)
            &&& ordinary.cap_height_m.is_finite() && ordinary.cap_height_m.value() >= 0
            &&& lies_between(ordinary.ridge_length_fraction, 0, unit())
            &&& lies_between(ordinary.inset_fraction, 0, unit())
        }),
{
    one_is_one();
    numbers_are_judged_by_their_value(building.footprint_width_m);
    numbers_are_judged_by_their_value(building.footprint_depth_m);
    numbers_are_judged_by_their_value(building.wall_height_m);
    numbers_are_judged_by_their_value(building.ground_half_extent_m);
    lemma_nested(roof);
    numbers_are_judged_by_their_value(ordinary.eave_width_m);
    numbers_are_judged_by_their_value(ordinary.eave_depth_m);
    numbers_are_judged_by_their_value(ordinary.rise_m);
    numbers_are_judged_by_their_value(ordinary.cap_height_m);
    numbers_are_judged_by_their_value(ordinary.ridge_length_fraction);
    numbers_are_judged_by_their_value(ordinary.inset_fraction);
    if ordinary.rise_m.is_finite() {
        order_is_value_order(Single::zero(), ordinary.rise_m);
    }
    if building.footprint_width_m.is_finite() && ordinary.eave_width_m.is_finite() {
        order_is_value_order(ordinary.eave_width_m, building.footprint_width_m);
    }
    if building.footprint_depth_m.is_finite() && ordinary.eave_depth_m.is_finite() {
        order_is_value_order(ordinary.eave_depth_m, building.footprint_depth_m);
    }
}

proof fn lemma_nested(roof: SampledRoof)
    ensures
        sound_roof(roof) <==> {
            &&& is_some_size(roof.eave_width_m) && is_some_size(roof.eave_depth_m)
            &&& is_some_size(roof.shoulder_width_m) && is_some_size(roof.shoulder_depth_m)
            &&& is_some_size(roof.crown_top_width_m) && is_some_size(roof.crown_top_depth_m)
            &&& is_some_size(roof.lower_rise_m) && is_some_size(roof.upper_rise_m)
            &&& roof.asymmetry_fraction.is_finite()
            &&& roof.crown_top_width_m.value() < roof.shoulder_width_m.value()
                < roof.eave_width_m.value()
            &&& roof.crown_top_depth_m.value() < roof.shoulder_depth_m.value()
                < roof.eave_depth_m.value()
        },
{
    numbers_are_judged_by_their_value(roof.eave_width_m);
    numbers_are_judged_by_their_value(roof.eave_depth_m);
    numbers_are_judged_by_their_value(roof.shoulder_width_m);
    numbers_are_judged_by_their_value(roof.shoulder_depth_m);
    numbers_are_judged_by_their_value(roof.crown_top_width_m);
    numbers_are_judged_by_their_value(roof.crown_top_depth_m);
    numbers_are_judged_by_their_value(roof.lower_rise_m);
    numbers_are_judged_by_their_value(roof.upper_rise_m);
    if roof.eave_width_m.is_finite() && roof.shoulder_width_m.is_finite() {
        order_is_value_order(roof.shoulder_width_m, roof.eave_width_m);
    }
    if roof.eave_depth_m.is_finite() && roof.shoulder_depth_m.is_finite() {
        order_is_value_order(roof.shoulder_depth_m, roof.eave_depth_m);
    }
    if roof.crown_top_width_m.is_finite() && roof.shoulder_width_m.is_finite() {
        order_is_value_order(roof.crown_top_width_m, roof.shoulder_width_m);
    }
    if roof.crown_top_depth_m.is_finite() && roof.shoulder_depth_m.is_finite() {
        order_is_value_order(roof.crown_top_depth_m, roof.shoulder_depth_m);
    }
}

/// Light and weather are sound where they are possible: shares between none and all, strengths
/// not negative, sight of some distance, and light between a candle's and a clear sky's.
pub proof fn light_is_sound_where_it_is_possible(
    light: SampledLighting,
    environment: SampledEnvironment,
)
    ensures
        sound_lighting(light) <==> {
            &&& light.sun_azimuth_degrees.is_finite() && light.sun_elevation_degrees.is_finite()
            &&& light.sun_intensity.is_finite() && light.sun_intensity.value() >= 0
            &&& light.sky_intensity.is_finite() && light.sky_intensity.value() >= 0
            &&& lies_between(light.cloud_coverage, 0, unit())
            &&& lies_between(light.haze, 0, unit())
        },
        sound_environment(environment) <==> {
            &&& lies_between(environment.shadow_softness, 0, unit())
            &&& lies_between(environment.ground_wetness, 0, unit())
            &&& is_some_size(environment.visibility_km)
            &&& lies_between(environment.color_temperature_k, 1800 * unit(), 12000 * unit())
            &&& environment.camera_exposure_ev100.is_finite()
            &&& environment.artificial_light_strength.is_finite()
            &&& environment.artificial_light_strength.value() >= 0
        },
        light.sun_elevation_degrees.is_finite() && light.sun_intensity.is_finite() ==> (sunny_night(
            light,
        ) <==> light.sun_elevation_degrees.value() > -4 * unit() || light.sun_intensity.value()
            != 0),
{
    one_is_one();
    numbers_are_judged_by_their_value(light.sun_intensity);
    numbers_are_judged_by_their_value(light.sky_intensity);
    numbers_are_judged_by_their_value(light.cloud_coverage);
    numbers_are_judged_by_their_value(light.haze);
    numbers_are_judged_by_their_value(environment.shadow_softness);
    numbers_are_judged_by_their_value(environment.ground_wetness);
    numbers_are_judged_by_their_value(environment.visibility_km);
    numbers_are_judged_by_their_value(environment.artificial_light_strength);
    whole_literals(1800);
    whole_literals(12000);
    whole_literals((-4) as i32);
    if environment.color_temperature_k.is_finite() {
        order_is_value_order(Single::ratio(1800, 1), environment.color_temperature_k);
        order_is_value_order(environment.color_temperature_k, Single::ratio(12000, 1));
    }
    if light.sun_elevation_degrees.is_finite() && light.sun_intensity.is_finite() {
        order_is_value_order(Single::ratio((-4) as i32, 1), light.sun_elevation_degrees);
        order_is_value_order(light.sun_intensity, Single::zero());
        order_is_value_order(Single::zero(), light.sun_intensity);
    }
}

/// By day the sun is not below the horizon; at night it is well below it and does not shine.
pub proof fn the_sun_suits_the_time(phase: DayPhase, light: SampledLighting)
    requires
        light.sun_elevation_degrees.is_finite(),
        light.sun_intensity.is_finite(),
    ensures
        kept(phase_rules(phase, light)) <==> {
            &&& phase == DayPhase::Day ==> light.sun_elevation_degrees.value() >= 0
            &&& phase == DayPhase::Night ==> light.sun_elevation_degrees.value() <= -4 * unit()
                && light.sun_intensity.value() == 0
        },
{
    broadcast use crate::report::group_kept;

    one_is_one();
    whole_literals((-4) as i32);
    order_is_value_order(Single::ratio((-4) as i32, 1), light.sun_elevation_degrees);
    order_is_value_order(light.sun_intensity, Single::zero());
    order_is_value_order(Single::zero(), light.sun_intensity);
    order_is_value_order(light.sun_elevation_degrees, Single::zero());
}

proof fn lemma_sizes(extent: Vec3)
    requires
        extent.is_finite(),
    ensures
        positive_size(extent) <==> extent.x.value() > 0 && extent.y.value() > 0 && extent.z.value()
            > 0,
{
    one_is_one();
    order_is_value_order(Single::zero(), extent.x);
    order_is_value_order(Single::zero(), extent.y);
    order_is_value_order(Single::zero(), extent.z);
}

/// A point with a size of its own.
pub open spec fn has_size(extent: Vec3) -> bool {
    is_some_size(extent.x) && is_some_size(extent.y) && is_some_size(extent.z)
}

/// An object is sound where it is somewhere and has some size. It is too close to the building
/// exactly where it does not keep clear of it. Whether it does, and whether it leaves a crown,
/// is the same to both sides.
pub proof fn objects_are_sound_where_they_stand(
    occluder: SampledOccluder,
    turn: Turn,
    building: SampledBuilding,
    roof: SampledRoof,
)
    ensures
        sound_occluder(occluder) <==> {
            &&& occluder.position.is_finite() && occluder.yaw_degrees.is_finite()
            &&& is_some_size(occluder.scale)
            &&& has_size(occluder.nominal_size_m)
        },
        ({
            let half = rotated_half_extents(occluder.nominal_size_m, turn);
            let clear = outside_target_footprint(occluder.position, building, half.x, half.z);
            &&& in_footprint(occluder, turn, building) ==> !clear
            &&& !clear && occluder.position.is_finite() && half.x.is_finite() && half.z.is_finite()
                && building.footprint_width_m.is_finite() && building.footprint_depth_m.is_finite()
                ==> in_footprint(occluder, turn, building)
        }),
        ({
            let other = SampledOccluder {
                position: Vec3::new(
                    occluder.position.x.negated(),
                    occluder.position.y,
                    occluder.position.z.negated(),
                ),
                ..occluder
            };
            &&& off_crown(occluder, turn, building, roof) == off_crown(other, turn, building, roof)
            &&& in_footprint(occluder, turn, building) == in_footprint(other, turn, building)
        }),
{
    one_is_one();
    numbers_are_judged_by_their_value(occluder.scale);
    if occluder.nominal_size_m.is_finite() {
        lemma_sizes(occluder.nominal_size_m);
    }
    assert(occluder.position.x.negated().abs() == occluder.position.x.abs());
    assert(occluder.position.z.negated().abs() == occluder.position.z.abs());
    let half = rotated_half_extents(occluder.nominal_size_m, turn);
    if occluder.position.is_finite() && half.x.is_finite() && half.z.is_finite()
        && building.footprint_width_m.is_finite() && building.footprint_depth_m.is_finite() {
        lemma_limit(building.footprint_width_m, half.x);
        lemma_limit(building.footprint_depth_m, half.z);
        assert(!occluder.position.x.abs().is_nan());
        assert(!occluder.position.z.abs().is_nan());
    }
}

proof fn lemma_limit(wall: Single, half: Single)
    requires
        wall.is_finite(),
        half.is_finite(),
    ensures
        !wall.times(Single::ratio(5, 10)).plus(half).plus(
            crate::geometry::occluder_target_clearance_m(),
        ).is_nan(),
{
    crate::framing_laws::lemma_half_rounds(wall);
    let a = wall.times(Single::ratio(5, 10));
    bounded_results_are_finite(a, wall.value(), 2, wall);
    sums_round(a, half);
    let clearance = crate::geometry::occluder_target_clearance_m();
    crate::bounds::ratios_are_finite(75, 100);
    if a.plus(half).is_finite() {
        sums_round(a.plus(half), clearance);
    } else {
        reveal(Single::spec_plus);
    }
}

/// The facade is sound where its shares are shares and its entrance is narrower than the
/// building.
pub proof fn facades_are_sound_where_they_fit(facade: &SampledFacade, building: SampledBuilding)
    requires
        building.footprint_width_m.is_finite(),
        building.footprint_depth_m.is_finite(),
    ensures
        sound_facade(facade, building) <==> {
            &&& lies_between(facade.glazing_fraction, 0, unit())
            &&& is_some_size(facade.entrance_width_m)
            &&& facade.entrance_width_m.value() < building.footprint_width_m.value()
            &&& facade.entrance_width_m.value() < building.footprint_depth_m.value()
            &&& lies_between(facade.weathering, 0, unit())
        },
{
    numbers_are_judged_by_their_value(facade.glazing_fraction);
    numbers_are_judged_by_their_value(facade.entrance_width_m);
    numbers_are_judged_by_their_value(facade.weathering);
    if facade.entrance_width_m.is_finite() {
        order_is_value_order(building.footprint_width_m, facade.entrance_width_m);
        order_is_value_order(building.footprint_depth_m, facade.entrance_width_m);
        order_is_value_order(building.footprint_depth_m, building.footprint_width_m);
    }
}

/// Where an addition has to be is where additions are put: outside of its wall by half of its
/// own depth, less some centimetres inside of it. What counts is its place across its wall,
/// how far it reaches along it, and half of that wall.
pub proof fn additions_belong_at_their_facade(
    extension: SampledBuildingExtension,
    building: SampledBuilding,
)
    requires
        crate::camera_laws::is_usual_length(building.footprint_width_m),
        crate::camera_laws::is_usual_length(building.footprint_depth_m),
        crate::camera_laws::is_usual_length(extension.size_m.x),
        crate::camera_laws::is_usual_length(extension.size_m.z),
        extension.position.is_finite(),
    ensures
        ({
            let place = attached_position(extension, building);
            let ends = extension.facade == FacadeSide::Front || extension.facade
                == FacadeSide::Back;
            let extent = extension.size_m;
            &&& extension.facade == FacadeSide::Back ==> crate::site_laws::beyond(
                place,
                building.footprint_depth_m,
                extent.z,
            )
            &&& extension.facade == FacadeSide::Right ==> crate::site_laws::beyond(
                place,
                building.footprint_width_m,
                extent.x,
            )
            &&& extension.facade == FacadeSide::Front ==> crate::site_laws::beyond(
                place.negated(),
                building.footprint_depth_m,
                extent.z,
            )
            &&& extension.facade == FacadeSide::Left ==> crate::site_laws::beyond(
                place.negated(),
                building.footprint_width_m,
                extent.x,
            )
            &&& ends ==> normal_position(extension) == extension.position.z
            &&& !ends ==> normal_position(extension) == extension.position.x
            &&& ends ==> rounds(
                facade_half_width(extension, building),
                building.footprint_width_m.value(),
                2,
            )
            &&& !ends ==> rounds(
                facade_half_width(extension, building),
                building.footprint_depth_m.value(),
                2,
            )
            &&& ends ==> exists|half: Single| #[trigger]
                rounds(half, extent.x.value(), 2) && rounds(
                    tangential_extent(extension),
                    extension.position.x.abs().value() + half.value(),
                    1,
                )
            &&& !ends ==> exists|half: Single| #[trigger]
                rounds(half, extent.z.value(), 2) && rounds(
                    tangential_extent(extension),
                    extension.position.z.abs().value() + half.value(),
                    1,
                )
        }),
{
    let (w, d) = (building.footprint_width_m, building.footprint_depth_m);
    let extent = extension.size_m;
    crate::site_laws::lemma_outward(d, extent.z);
    crate::site_laws::lemma_outward(w, extent.x);
    negations_change_the_sign(crate::site_laws::inward(d, extent.z));
    negations_change_the_sign(crate::site_laws::inward(w, extent.x));
    let half = Single::ratio(5, 10);
    crate::framing_laws::lemma_half_rounds(w);
    crate::framing_laws::lemma_half_rounds(d);
    crate::framing_laws::lemma_half_rounds(extent.x);
    crate::framing_laws::lemma_half_rounds(extent.z);
    let (a, b) = (extent.x.times(half), extent.z.times(half));
    bounded_results_are_finite(a, extent.x.value(), 2, extent.x);
    bounded_results_are_finite(b, extent.z.value(), 2, extent.z);
    crate::geometry_laws::lemma_abs(extension.position.x);
    crate::geometry_laws::lemma_abs(extension.position.z);
    sums_round(extension.position.x.abs(), a);
    sums_round(extension.position.z.abs(), b);
    assert(rounds(a, extent.x.value(), 2));
    assert(rounds(b, extent.z.value(), 2));
}

/// An addition is sound where it stands on the ground with some size, lower with its roof than
/// the walls, close to where it belongs and along its facade; a flat roof does not rise and a
/// lean-to does.
pub proof fn additions_are_sound_where_they_fit(
    extension: SampledBuildingExtension,
    building: SampledBuilding,
)
    requires
        building.wall_height_m.is_finite(),
        extension.size_m.y.plus(extension.roof_rise_m).is_finite(),
        attached_position(extension, building).minus(normal_position(extension)).is_finite(),
        facade_half_width(extension, building).plus(Single::ratio(1, 1000)).is_finite(),
        tangential_extent(extension).is_finite(),
    ensures
        sound_extension(extension, building) <==> {
            &&& extension.position.is_finite() && extension.position.y.value() == 0
            &&& has_size(extension.size_m)
            &&& extension.size_m.y.value() < building.wall_height_m.value()
            &&& extension.roof_rise_m.is_finite() && extension.roof_rise_m.value() >= 0
            &&& extension.size_m.y.plus(extension.roof_rise_m).value()
                < building.wall_height_m.value()
            &&& extension.roof == BuildingExtensionRoof::Flat ==> extension.roof_rise_m.value()
                == 0
            &&& extension.roof == BuildingExtensionRoof::Shed ==> extension.roof_rise_m.value() > 0
            &&& attached_position(extension, building).minus(
                normal_position(extension),
            ).abs().value() <= Single::ratio(1, 1000).value()
            &&& tangential_extent(extension).value() <= facade_half_width(
                extension,
                building,
            ).plus(Single::ratio(1, 1000)).value()
        },
{
    one_is_one();
    crate::single::fractions_lie_in_the_unit_interval(1, 1000);
    let rise = extension.roof_rise_m;
    numbers_are_judged_by_their_value(rise);
    if extension.size_m.is_finite() {
        lemma_sizes(extension.size_m);
        order_is_value_order(building.wall_height_m, extension.size_m.y);
    }
    if rise.is_finite() {
        order_is_value_order(rise, Single::zero());
        order_is_value_order(Single::zero(), rise);
    }
    if extension.position.is_finite() {
        order_is_value_order(extension.position.y, Single::zero());
        order_is_value_order(Single::zero(), extension.position.y);
    }
    order_is_value_order(building.wall_height_m, extension.size_m.y.plus(rise));
    let gap = attached_position(extension, building).minus(normal_position(extension));
    crate::geometry_laws::lemma_abs(gap);
    order_is_value_order(Single::ratio(1, 1000), gap.abs());
    order_is_value_order(
        facade_half_width(extension, building).plus(Single::ratio(1, 1000)),
        tangential_extent(extension),
    );
}

/// A sign is sound where it has some size below the walls' height and some weathering, and a
/// ghost where it also does not shine.
pub proof fn signs_are_sound_where_they_fit(sign: &SampledSignage, building: SampledBuilding)
    requires
        building.wall_height_m.is_finite(),
    ensures
        sound_sign(sign, building) <==> {
            &&& sign.center.is_finite()
            &&& is_some_size(sign.size_m.x) && is_some_size(sign.size_m.y)
            &&& sign.size_m.y.value() < building.wall_height_m.value()
            &&& sign.emissive_strength.is_finite() && sign.emissive_strength.value() >= 0
            &&& lies_between(sign.weathering, 0, unit())
            &&& sign.kind == SignageKind::RemovedGhost ==> sign.emissive_strength.value() == 0
        },
{
    one_is_one();
    numbers_are_judged_by_their_value(sign.emissive_strength);
    numbers_are_judged_by_their_value(sign.weathering);
    if sign.emissive_strength.is_finite() {
        order_is_value_order(sign.emissive_strength, Single::zero());
        order_is_value_order(Single::zero(), sign.emissive_strength);
    }
    if sign.size_m.is_finite() {
        order_is_value_order(Single::zero(), sign.size_m.x);
        order_is_value_order(Single::zero(), sign.size_m.y);
        order_is_value_order(building.wall_height_m, sign.size_m.y);
    }
}

/// Distances over the ground do not depend on the height, nor on which way they lead, and
/// half of a diagonal is the distance of a corner from the middle.
pub proof fn distances_are_the_same_all_around(position: Vec3, other: Single, w: Single, d: Single)
    requires
        position.is_finite(),
        w.is_finite(),
        d.is_finite(),
    ensures
        ground_distance(position) == ground_distance(Vec3::new(position.z, other, position.x)),
        ground_distance(position) == ground_distance(
            Vec3::new(position.x.negated(), other, position.z),
        ),
        half_diagonal(w, d) == half_diagonal(d, w),
        half_diagonal(w, d) == ground_distance(
            Vec3::new(w.times(Single::ratio(5, 10)), other, d.times(Single::ratio(5, 10))),
        ),
{
    let (x, z) = (position.x, position.z);
    lemma_squares(x, z);
    products_follow_signs(x, x.negated());
    products_follow_signs(x, x);
    negations_change_the_sign(x);
    negations_change_the_sign(x.times(x));
    let half = Single::ratio(5, 10);
    crate::framing_laws::lemma_half_rounds(w);
    crate::framing_laws::lemma_half_rounds(d);
    bounded_results_are_finite(w.times(half), w.value(), 2, w);
    bounded_results_are_finite(d.times(half), d.value(), 2, d);
    lemma_squares(w.times(half), d.times(half));
}

pub(crate) proof fn lemma_squares(x: Single, z: Single)
    requires
        x.is_finite(),
        z.is_finite(),
    ensures
        x.times(x).plus(z.times(z)) == z.times(z).plus(x.times(x)),
{
    let (a, b) = (x.times(x), z.times(z));
    crate::rounding::products_round(x, x);
    crate::rounding::products_round(z, z);
    if a.is_finite() && b.is_finite() {
        crate::single::sums_and_products_commute(a, b);
    } else {
        reveal(Single::spec_plus);
        reveal(Single::spec_times);
    }
}

/// A plant is sound where it has some size and a season, a pole where it is between three and
/// eighteen metres high, a line where it hangs between two poles of the site, and a site where
/// its bays have some size, its road lanes of a usual width, and its domain is that of the
/// environment.
pub proof fn sites_are_sound_where_they_are_possible(
    pole: SampledUtilityPole,
    line: SampledUtilityLine,
    poles: usize,
    site: &SampledSiteInfrastructure,
    domain: Option<SceneDomain>,
)
    ensures
        sound_pole(pole) <==> pole.position.is_finite() && lies_between(
            pole.height_m,
            3 * unit(),
            18 * unit(),
        ),
        sound_line(line, poles) <==> line.start_pole < poles && line.end_pole < poles
            && line.start_pole != line.end_pole && is_some_size(line.sag_m),
        sound_infrastructure(site, domain) <==> {
            &&& domain matches Some(own) ==> site.domain == own
            &&& site.parking_center.is_finite() && site.parking_yaw_degrees.is_finite()
            &&& is_some_size(site.parking_bay_size_m.x) && is_some_size(site.parking_bay_size_m.y)
            &&& site.road_lanes > 0 && site.road_center_z_m.is_finite()
            &&& lies_between(
                site.lane_width_m,
                Single::ratio(26, 10).value(),
                Single::ratio(42, 10).value(),
            )
        },
        rounds(Single::ratio(26, 10), 13 * unit(), 5),
        rounds(Single::ratio(42, 10), 21 * unit(), 5),
{
    one_is_one();
    whole_literals(3);
    whole_literals(18);
    numbers_are_judged_by_their_value(line.sag_m);
    if pole.height_m.is_finite() {
        order_is_value_order(Single::ratio(3, 1), pole.height_m);
        order_is_value_order(pole.height_m, Single::ratio(18, 1));
    }
    if site.parking_bay_size_m.is_finite() {
        order_is_value_order(Single::zero(), site.parking_bay_size_m.x);
        order_is_value_order(Single::zero(), site.parking_bay_size_m.y);
    }
    crate::bounds::ratios_are_finite(26, 10);
    crate::bounds::ratios_are_finite(42, 10);
    if site.lane_width_m.is_finite() {
        order_is_value_order(Single::ratio(26, 10), site.lane_width_m);
        order_is_value_order(site.lane_width_m, Single::ratio(42, 10));
    }
    literals_round(26, 10);
    literals_round(42, 10);
    crate::bounds::lemma_same_fraction(13 * unit(), 5, 2);
    crate::bounds::lemma_same_fraction(21 * unit(), 5, 2);
}

/// Plants and neighbours are sound where they have some size and stand outside of the circle
/// around the building, a neighbour with the circle around itself.
pub proof fn surroundings_are_sound_where_they_stand(
    plant: SampledVegetation,
    neighbour: SampledBackgroundBuilding,
    building: SampledBuilding,
)
    ensures
        sound_vegetation(plant, building) <==> {
            &&& plant.position.is_finite() && plant.yaw_degrees.is_finite()
            &&& is_some_size(plant.height_m) && is_some_size(plant.canopy_radius_m)
            &&& lies_between(plant.seasonal_variation, -unit(), unit())
            &&& !ground_distance(plant.position).at_most(footprint_radius(building))
        },
        sound_background(neighbour.position, neighbour.size_m, neighbour.yaw_degrees, building)
            <==> {
            &&& neighbour.position.is_finite() && neighbour.yaw_degrees.is_finite()
            &&& has_size(neighbour.size_m)
            &&& !ground_distance(neighbour.position).at_most(
                footprint_radius(building).plus(
                    half_diagonal(neighbour.size_m.x, neighbour.size_m.z),
                ),
            )
        },
        footprint_radius(building) == half_diagonal(
            building.footprint_width_m,
            building.footprint_depth_m,
        ),
{
    one_is_one();
    whole_literals((-1) as i32);
    numbers_are_judged_by_their_value(plant.height_m);
    numbers_are_judged_by_their_value(plant.canopy_radius_m);
    if plant.seasonal_variation.is_finite() {
        order_is_value_order(Single::ratio((-1) as i32, 1), plant.seasonal_variation);
        order_is_value_order(plant.seasonal_variation, Single::one());
    }
    if neighbour.size_m.is_finite() {
        lemma_sizes(neighbour.size_m);
    }
}

/// A material is sound where it has a name and its values are shares.
pub proof fn materials_are_sound_where_they_are_possible(material: SampledMaterial)
    ensures
        sound_material(material) <==> {
            &&& !crate::text::blank(material.id@)
            &&& lies_between(material.base_color_srgb[0], 0, unit())
            &&& lies_between(material.base_color_srgb[1], 0, unit())
            &&& lies_between(material.base_color_srgb[2], 0, unit())
            &&& lies_between(material.roughness, 0, unit())
            &&& lies_between(material.weathering, 0, unit())
        },
{
    numbers_are_judged_by_their_value(material.base_color_srgb[0]);
    numbers_are_judged_by_their_value(material.base_color_srgb[1]);
    numbers_are_judged_by_their_value(material.base_color_srgb[2]);
    numbers_are_judged_by_their_value(material.roughness);
    numbers_are_judged_by_their_value(material.weathering);
}

/// An object of a scene is where it may be.
pub open spec fn is_placed(scene: SampledScene, turns: SceneTurns, i: int) -> bool {
    let own = scene.occluders@[i];
    &&& sound_occluder(own)
    &&& own.placement == OccluderPlacement::Rooftop ==> !off_crown(
        own,
        turns.occluders@[i],
        scene.building,
        scene.roof,
    )
    &&& own.placement != OccluderPlacement::Rooftop ==> !in_footprint(
        own,
        turns.occluders@[i],
        scene.building,
    )
}

proof fn lemma_occluders(scene: SampledScene, turns: SceneTurns, n: nat)
    requires
        n <= scene.occluders@.len(),
    ensures
        kept(
            first_occluder_rules(
                scene.occluders@,
                turns.occluders@,
                scene.building,
                scene.roof,
                n,
            ),
        ) <==> forall|i: int| 0 <= i < n ==> #[trigger] is_placed(scene, turns, i),
    decreases n,
{
    broadcast use crate::report::group_kept;

    if n > 0 {
        lemma_occluders(scene, turns, (n - 1) as nat);
        let holds = kept(
            first_occluder_rules(
                scene.occluders@,
                turns.occluders@,
                scene.building,
                scene.roof,
                n,
            ),
        );
        let before = kept(
            first_occluder_rules(
                scene.occluders@,
                turns.occluders@,
                scene.building,
                scene.roof,
                (n - 1) as nat,
            ),
        );
        assert(holds <==> before && is_placed(scene, turns, n - 1));
    }
}

/// A scene is accepted where its building, roofs, materials and light are sound, each object
/// is where it may be, the ground holds everything, and its composition is accepted.
#[verifier::rlimit(40)]
pub proof fn scenes_are_accepted_where_they_are_sound(scene: SampledScene, turns: SceneTurns)
    ensures
        kept(sampled_scene_rules(scene, turns)) <==> {
            &&& sound_building(scene.building)
            &&& sound_roof(scene.roof)
            &&& scene.ordinary_roof matches Some(own) ==> sound_ordinary_roof(own, scene.building)
            &&& sound_material(scene.roof_material)
            &&& sound_material(scene.wall_material)
            &&& sound_lighting(scene.lighting)
            &&& forall|i: int|
                0 <= i < scene.occluders@.len() ==> #[trigger] is_placed(scene, turns, i)
            &&& kept(sampled_composition_rules(scene))
            &&& !off_ground(scene, turns)
        },
{
    broadcast use crate::report::group_kept;

    reveal(sampled_scene_rules);
    lemma_occluders(scene, turns, scene.occluders@.len());
    let ordinary = crate::check_scene::ordinary_roof_rules(scene.ordinary_roof, scene.building);
    assert(kept(ordinary) <==> (scene.ordinary_roof is Some ==> sound_ordinary_roof(
        scene.ordinary_roof->0,
        scene.building,
    )));
    let placed = first_occluder_rules(
        scene.occluders@,
        turns.occluders@,
        scene.building,
        scene.roof,
        scene.occluders@.len(),
    );
    assert(kept(sampled_scene_rules(scene, turns)) <==> {
        &&& sound_building(scene.building)
        &&& sound_roof(scene.roof)
        &&& kept(ordinary)
        &&& sound_material(scene.roof_material)
        &&& sound_material(scene.wall_material)
        &&& sound_lighting(scene.lighting)
        &&& kept(placed)
        &&& kept(sampled_composition_rules(scene))
        &&& !off_ground(scene, turns)
    });
}

spec fn is_named(ids: Seq<String>, i: int) -> bool {
    &&& !crate::text::blank(ids[i]@)
    &&& forall|j: int| 0 <= j < i ==> (#[trigger] ids[j])@ != ids[i]@
}

proof fn lemma_ids(ids: Seq<String>, n: nat)
    requires
        n <= ids.len(),
    ensures
        kept(first_source_id_rules(ids, n)) <==> forall|i: int|
            0 <= i < n ==> #[trigger] is_named(ids, i),
    decreases n,
{
    broadcast use crate::report::group_kept;

    if n > 0 {
        lemma_ids(ids, (n - 1) as nat);
        assert(kept(first_source_id_rules(ids, n)) <==> kept(
            first_source_id_rules(ids, (n - 1) as nat),
        ) && is_named(ids, n - 1));
    }
}

/// An addition fits, and no earlier one stands at its facade.
pub open spec fn is_alone(
    extensions: Seq<SampledBuildingExtension>,
    building: SampledBuilding,
    i: int,
) -> bool {
    &&& sound_extension(extensions[i], building)
    &&& forall|j: int| 0 <= j < i ==> (#[trigger] extensions[j]).facade != extensions[i].facade
}

proof fn lemma_extensions(
    extensions: Seq<SampledBuildingExtension>,
    building: SampledBuilding,
    n: nat,
)
    requires
        n <= extensions.len(),
    ensures
        kept(first_extension_rules(extensions, building, n)) <==> forall|i: int|
            0 <= i < n ==> #[trigger] is_alone(extensions, building, i),
    decreases n,
{
    broadcast use crate::report::group_kept;

    if n > 0 {
        lemma_extensions(extensions, building, (n - 1) as nat);
        assert(kept(first_extension_rules(extensions, building, n)) <==> kept(
            first_extension_rules(extensions, building, (n - 1) as nat),
        ) && is_alone(extensions, building, n - 1));
    }
}

proof fn lemma_signs(signs: Seq<SampledSignage>, building: SampledBuilding, n: nat)
    requires
        n <= signs.len(),
    ensures
        kept(first_sign_rules(signs, building, n)) <==> forall|i: int|
            0 <= i < n ==> sound_sign(&#[trigger] signs[i], building),
    decreases n,
{
    broadcast use crate::report::group_kept;

    if n > 0 {
        lemma_signs(signs, building, (n - 1) as nat);
        assert(kept(first_sign_rules(signs, building, n)) <==> kept(
            first_sign_rules(signs, building, (n - 1) as nat),
        ) && sound_sign(&signs[n - 1], building));
    }
}

/// A neighbour with its material stands where it may.
pub open spec fn is_neighbour(own: SampledBackgroundBuilding, building: SampledBuilding) -> bool {
    sound_material(own.material) && sound_background(
        own.position,
        own.size_m,
        own.yaw_degrees,
        building,
    )
}

proof fn lemma_backgrounds(
    backgrounds: Seq<SampledBackgroundBuilding>,
    building: SampledBuilding,
    n: nat,
)
    requires
        n <= backgrounds.len(),
    ensures
        kept(first_background_rules(backgrounds, building, n)) <==> forall|i: int|
            0 <= i < n ==> is_neighbour(#[trigger] backgrounds[i], building),
    decreases n,
{
    broadcast use crate::report::group_kept;

    if n > 0 {
        lemma_backgrounds(backgrounds, building, (n - 1) as nat);
        assert(kept(first_background_rules(backgrounds, building, n)) <==> kept(
            first_background_rules(backgrounds, building, (n - 1) as nat),
        ) && is_neighbour(backgrounds[n - 1], building));
    }
}

proof fn lemma_plants(plants: Seq<SampledVegetation>, building: SampledBuilding, n: nat)
    requires
        n <= plants.len(),
    ensures
        kept(first_plant_rules(plants, building, n)) <==> forall|i: int|
            0 <= i < n ==> sound_vegetation(#[trigger] plants[i], building),
    decreases n,
{
    broadcast use crate::report::group_kept;

    if n > 0 {
        lemma_plants(plants, building, (n - 1) as nat);
        assert(kept(first_plant_rules(plants, building, n)) <==> kept(
            first_plant_rules(plants, building, (n - 1) as nat),
        ) && sound_vegetation(plants[n - 1], building));
    }
}

proof fn lemma_poles(poles: Seq<SampledUtilityPole>, n: nat)
    requires
        n <= poles.len(),
    ensures
        kept(first_pole_rules(poles, n)) <==> forall|i: int|
            0 <= i < n ==> sound_pole(#[trigger] poles[i]),
    decreases n,
{
    broadcast use crate::report::group_kept;

    if n > 0 {
        lemma_poles(poles, (n - 1) as nat);
        assert(kept(first_pole_rules(poles, n)) <==> kept(
            first_pole_rules(poles, (n - 1) as nat),
        ) && sound_pole(poles[n - 1]));
    }
}

proof fn lemma_lines(lines: Seq<SampledUtilityLine>, poles: usize, n: nat)
    requires
        n <= lines.len(),
    ensures
        kept(first_line_rules(lines, poles, n)) <==> forall|i: int|
            0 <= i < n ==> sound_line(#[trigger] lines[i], poles),
    decreases n,
{
    broadcast use crate::report::group_kept;

    if n > 0 {
        lemma_lines(lines, poles, (n - 1) as nat);
        assert(kept(first_line_rules(lines, poles, n)) <==> kept(
            first_line_rules(lines, poles, (n - 1) as nat),
        ) && sound_line(lines[n - 1], poles));
    }
}

/// A site is accepted where it is possible, each of its poles is, and each of its lines hangs
/// between two of them.
pub proof fn sites_are_accepted_where_they_are_sound(
    site: SampledSiteInfrastructure,
    domain: Option<SceneDomain>,
)
    ensures
        kept(infrastructure_rules(Some(site), domain)) <==> {
            &&& sound_infrastructure(&site, domain)
            &&& forall|i: int|
                0 <= i < site.utility_poles@.len() ==> sound_pole(#[trigger] site.utility_poles@[i])
            &&& forall|i: int|
                0 <= i < site.utility_lines@.len() ==> sound_line(
                    #[trigger] site.utility_lines@[i],
                    site.utility_poles.len(),
                )
        },
        !kept(infrastructure_rules(None, domain)),
{
    broadcast use crate::report::group_kept;

    lemma_poles(site.utility_poles@, site.utility_poles@.len());
    lemma_lines(site.utility_lines@, site.utility_poles.len(), site.utility_lines@.len());
}

/// An accepted composition has an environment that suits the light, a ground, a facade and a
/// site, and each of its additions, signs, neighbours and plants is sound.
pub proof fn accepted_compositions_are_sound(scene: SampledScene)
    ensures
        kept(sampled_composition_rules(scene)) ==> {
            let own = scene.composition;
            &&& own.environment matches Some(environment) && sound_environment(environment) && kept(
                phase_rules(environment.day_phase, scene.lighting),
            )
            &&& own.ground_material matches Some(ground) && sound_material(ground)
            &&& own.facade matches Some(facade) && sound_material(facade.glazing_material)
                && sound_facade(&facade, scene.building)
            &&& own.infrastructure is Some && kept(
                infrastructure_rules(own.infrastructure, environment_domain(own.environment)),
            )
            &&& environment_domain(own.environment) == Some(own.environment->0.domain)
        },
        kept(sampled_composition_rules(scene)) ==> {
            let own = scene.composition;
            &&& forall|i: int|
                0 <= i < own.building_extensions@.len() ==> #[trigger] is_alone(
                    own.building_extensions@,
                    scene.building,
                    i,
                )
            &&& forall|i: int|
                0 <= i < own.signage@.len() ==> sound_sign(
                    &#[trigger] own.signage@[i],
                    scene.building,
                )
            &&& forall|i: int|
                0 <= i < own.background_buildings@.len() ==> is_neighbour(
                    #[trigger] own.background_buildings@[i],
                    scene.building,
                )
            &&& forall|i: int|
                0 <= i < own.vegetation@.len() ==> sound_vegetation(
                    #[trigger] own.vegetation@[i],
                    scene.building,
                )
            &&& forall|i: int, j: int|
                0 <= j < i < own.source_asset_ids@.len() ==> (
                #[trigger] own.source_asset_ids@[j])@ != (#[trigger] own.source_asset_ids@[i])@
        },
{
    broadcast use crate::report::group_kept;

    let own = scene.composition;
    lemma_ids(own.source_asset_ids@, own.source_asset_ids@.len());
    lemma_extensions(own.building_extensions@, scene.building, own.building_extensions@.len());
    lemma_signs(own.signage@, scene.building, own.signage@.len());
    lemma_backgrounds(own.background_buildings@, scene.building, own.background_buildings@.len());
    lemma_plants(own.vegetation@, scene.building, own.vegetation@.len());
    if kept(sampled_composition_rules(scene)) {
        assert forall|i: int, j: int| 0 <= j < i < own.source_asset_ids@.len() implies (
        #[trigger] own.source_asset_ids@[j])@ != (#[trigger] own.source_asset_ids@[i])@ by {
            assert(is_named(own.source_asset_ids@, i));
        }
    }
}

} // verus!
