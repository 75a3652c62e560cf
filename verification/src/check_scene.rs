//! Rules for sampled scenes.

use crate::check_values::{is_unit_color, unit};
use crate::composition::{
    BuildingExtensionRoof, DayPhase, FacadeSide, SampledBackgroundBuilding,
    SampledBuildingExtension, SampledComposition, SampledEnvironment, SampledFacade,
    SampledSignage, SampledSiteInfrastructure, SampledUtilityLine, SampledUtilityPole,
    SampledVegetation, SceneDomain, SignageKind,
};
use crate::geometry::{
    actual_roof_envelope, ground_edge_margin_m, occluder_target_clearance_m,
    rooftop_edge_clearance_m, rotated_half_extents, sampled_content_half_extent, SceneTurns, Turn,
};
use crate::plan::{
    OccluderPlacement, SampledBuilding, SampledLighting, SampledMaterial, SampledOccluder,
    SampledOrdinaryRoof, SampledRoof, SampledScene,
};
use crate::report::ValidationReport;
use crate::single::Single;
use crate::text::{element_path, is_blank, same_text};
use crate::types::Vec3;
use vstd::prelude::*;

verus! {

broadcast use crate::report::group_rules;

/// Whether a length is finite and positive.
pub open spec fn spec_positive(value: Single) -> bool {
    value.is_finite() && Single::zero().less(value)
}

/// Whether a length is finite and positive.
#[verifier::when_used_as_spec(spec_positive)]
pub fn positive(value: Single) -> (r: bool)
    ensures
        r == spec_positive(value),
{
    value.is_finite() && Single::zero().less(value)
}

/// Whether all three sizes are positive.
pub open spec fn spec_positive_size(size: Vec3) -> bool {
    Single::zero().less(size.x) && Single::zero().less(size.y) && Single::zero().less(size.z)
}

/// Whether all three sizes are positive.
#[verifier::when_used_as_spec(spec_positive_size)]
pub fn positive_size(size: Vec3) -> (r: bool)
    ensures
        r == spec_positive_size(size),
{
    Single::zero().less(size.x) && Single::zero().less(size.y) && Single::zero().less(size.z)
}

/// Whether every dimension of a building is finite and positive.
pub open spec fn spec_sound_building(building: SampledBuilding) -> bool {
    positive(building.footprint_width_m)
        && positive(building.footprint_depth_m)
        && positive(building.wall_height_m)
        && positive(building.ground_half_extent_m)
}

/// Whether every dimension of a building is finite and positive.
#[verifier::when_used_as_spec(spec_sound_building)]
pub fn sound_building(building: SampledBuilding) -> (r: bool)
    ensures
        r == spec_sound_building(building),
{
    positive(building.footprint_width_m)
        && positive(building.footprint_depth_m)
        && positive(building.wall_height_m)
        && positive(building.ground_half_extent_m)
}

/// Whether the dimensions of a roof are finite and positive and form three nested rectangles.
pub open spec fn spec_sound_roof(roof: SampledRoof) -> bool {
    positive(roof.eave_width_m)
        && positive(roof.eave_depth_m)
        && positive(roof.shoulder_width_m)
        && positive(roof.shoulder_depth_m)
        && positive(roof.lower_rise_m)
        && positive(roof.upper_rise_m)
        && positive(roof.crown_top_width_m)
        && positive(roof.crown_top_depth_m)
        && roof.asymmetry_fraction.is_finite()
        && roof.shoulder_width_m.less(roof.eave_width_m)
        && roof.shoulder_depth_m.less(roof.eave_depth_m)
        && roof.crown_top_width_m.less(roof.shoulder_width_m)
        && roof.crown_top_depth_m.less(roof.shoulder_depth_m)
}

/// Whether the dimensions of a roof are finite and positive and form three nested rectangles.
#[verifier::when_used_as_spec(spec_sound_roof)]
pub fn sound_roof(roof: SampledRoof) -> (r: bool)
    ensures
        r == spec_sound_roof(roof),
{
    positive(roof.eave_width_m)
        && positive(roof.eave_depth_m)
        && positive(roof.shoulder_width_m)
        && positive(roof.shoulder_depth_m)
        && positive(roof.lower_rise_m)
        && positive(roof.upper_rise_m)
        && positive(roof.crown_top_width_m)
        && positive(roof.crown_top_depth_m)
        && roof.asymmetry_fraction.is_finite()
        && roof.shoulder_width_m.less(roof.eave_width_m)
        && roof.shoulder_depth_m.less(roof.eave_depth_m)
        && roof.crown_top_width_m.less(roof.shoulder_width_m)
        && roof.crown_top_depth_m.less(roof.shoulder_depth_m)
}

/// Whether a length is finite and not negative.
pub open spec fn spec_not_negative(value: Single) -> bool {
    value.is_finite() && Single::zero().at_most(value)
}

/// Whether a length is finite and not negative.
#[verifier::when_used_as_spec(spec_not_negative)]
pub fn not_negative(value: Single) -> (r: bool)
    ensures
        r == spec_not_negative(value),
{
    value.is_finite() && Single::zero().at_most(value)
}

/// Whether the dimensions and fractions of an ordinary roof are physically bounded.
pub open spec fn spec_sound_ordinary_roof(
    ordinary: SampledOrdinaryRoof,
    building: SampledBuilding,
) -> bool {
    not_negative(ordinary.eave_width_m)
        && not_negative(ordinary.eave_depth_m)
        && not_negative(ordinary.rise_m)
        && not_negative(ordinary.cap_height_m)
        && !ordinary.eave_width_m.at_most(building.footprint_width_m)
        && !ordinary.eave_depth_m.at_most(building.footprint_depth_m)
        && Single::zero().less(ordinary.rise_m)
        && unit(ordinary.ridge_length_fraction)
        && unit(ordinary.inset_fraction)
}

/// Whether the dimensions and fractions of an ordinary roof are physically bounded.
#[verifier::when_used_as_spec(spec_sound_ordinary_roof)]
pub fn sound_ordinary_roof(ordinary: SampledOrdinaryRoof, building: SampledBuilding) -> (r: bool)
    ensures
        r == spec_sound_ordinary_roof(ordinary, building),
{
    not_negative(ordinary.eave_width_m)
        && not_negative(ordinary.eave_depth_m)
        && not_negative(ordinary.rise_m)
        && not_negative(ordinary.cap_height_m)
        && !ordinary.eave_width_m.at_most(building.footprint_width_m)
        && !ordinary.eave_depth_m.at_most(building.footprint_depth_m)
        && Single::zero().less(ordinary.rise_m)
        && unit(ordinary.ridge_length_fraction)
        && unit(ordinary.inset_fraction)
}

/// Whether lighting values are finite and bounded.
pub open spec fn spec_sound_lighting(light: SampledLighting) -> bool {
    light.sun_azimuth_degrees.is_finite()
        && light.sun_elevation_degrees.is_finite()
        && not_negative(light.sun_intensity)
        && not_negative(light.sky_intensity)
        && unit(light.cloud_coverage)
        && unit(light.haze)
}

/// Whether lighting values are finite and bounded.
#[verifier::when_used_as_spec(spec_sound_lighting)]
pub fn sound_lighting(light: SampledLighting) -> (r: bool)
    ensures
        r == spec_sound_lighting(light),
{
    light.sun_azimuth_degrees.is_finite()
        && light.sun_elevation_degrees.is_finite()
        && not_negative(light.sun_intensity)
        && not_negative(light.sky_intensity)
        && unit(light.cloud_coverage)
        && unit(light.haze)
}

/// Whether the placement and the size of an occluder are finite, and its size positive.
pub open spec fn spec_sound_occluder(occluder: SampledOccluder) -> bool {
    occluder.position.is_finite()
        && occluder.yaw_degrees.is_finite()
        && positive(occluder.scale)
        && occluder.nominal_size_m.is_finite()
        && positive_size(occluder.nominal_size_m)
}

/// Whether the placement and the size of an occluder are finite, and its size positive.
#[verifier::when_used_as_spec(spec_sound_occluder)]
pub fn sound_occluder(occluder: SampledOccluder) -> (r: bool)
    ensures
        r == spec_sound_occluder(occluder),
{
    occluder.position.is_finite()
        && occluder.yaw_degrees.is_finite()
        && positive(occluder.scale)
        && occluder.nominal_size_m.is_finite()
        && positive_size(occluder.nominal_size_m)
}

/// Whether rooftop equipment leaves the flat crown top.
pub open spec fn spec_off_crown(
    occluder: SampledOccluder,
    turn: Turn,
    building: SampledBuilding,
    roof: SampledRoof,
) -> bool {
    let half = rotated_half_extents(occluder.nominal_size_m, turn);
    let roof_top = building.wall_height_m.plus(roof.lower_rise_m).plus(roof.upper_rise_m);
    occluder.position.y.less(roof_top.minus(Single::ratio(1, 1000)))
        || roof.crown_top_width_m.times(Single::ratio(5, 10)).plus(Single::ratio(1, 1000)).less(
            occluder.position.x.abs().plus(half.x).plus(rooftop_edge_clearance_m()),
        )
        || roof.crown_top_depth_m.times(Single::ratio(5, 10)).plus(Single::ratio(1, 1000)).less(
            occluder.position.z.abs().plus(half.z).plus(rooftop_edge_clearance_m()),
        )
}

/// Whether rooftop equipment leaves the flat crown top.
#[verifier::when_used_as_spec(spec_off_crown)]
pub fn off_crown(
    occluder: SampledOccluder,
    turn: Turn,
    building: SampledBuilding,
    roof: SampledRoof,
) -> (r: bool)
    ensures
        r == spec_off_crown(occluder, turn, building, roof),
{
    let half = rotated_half_extents(occluder.nominal_size_m, turn);
    let roof_top = building.wall_height_m.plus(roof.lower_rise_m).plus(roof.upper_rise_m);
    occluder.position.y.less(roof_top.minus(Single::ratio(1, 1000)))
        || roof.crown_top_width_m.times(Single::ratio(5, 10)).plus(Single::ratio(1, 1000)).less(
            occluder.position.x.abs().plus(half.x).plus(rooftop_edge_clearance_m()),
        )
        || roof.crown_top_depth_m.times(Single::ratio(5, 10)).plus(Single::ratio(1, 1000)).less(
            occluder.position.z.abs().plus(half.z).plus(rooftop_edge_clearance_m()),
        )
}

/// Whether clutter stands too close to the building.
pub open spec fn spec_in_footprint(
    occluder: SampledOccluder,
    turn: Turn,
    building: SampledBuilding,
) -> bool {
    let half = rotated_half_extents(occluder.nominal_size_m, turn);
    occluder.position.x.abs().less(
        building.footprint_width_m.times(Single::ratio(5, 10)).plus(half.x).plus(
            occluder_target_clearance_m(),
        ),
    )
        && occluder.position.z.abs().less(
            building.footprint_depth_m.times(Single::ratio(5, 10)).plus(half.z).plus(
                occluder_target_clearance_m(),
            ),
        )
}

/// Whether clutter stands too close to the building.
#[verifier::when_used_as_spec(spec_in_footprint)]
pub fn in_footprint(occluder: SampledOccluder, turn: Turn, building: SampledBuilding) -> (r: bool)
    ensures
        r == spec_in_footprint(occluder, turn, building),
{
    let half = rotated_half_extents(occluder.nominal_size_m, turn);
    occluder.position.x.abs().less(
        building.footprint_width_m.times(Single::ratio(5, 10)).plus(half.x).plus(
            occluder_target_clearance_m(),
        ),
    )
        && occluder.position.z.abs().less(
            building.footprint_depth_m.times(Single::ratio(5, 10)).plus(half.z).plus(
                occluder_target_clearance_m(),
            ),
        )
}

/// Whether the environment values are finite and physically bounded.
pub open spec fn spec_sound_environment(environment: SampledEnvironment) -> bool {
    unit(environment.shadow_softness)
        && unit(environment.ground_wetness)
        && positive(environment.visibility_km)
        && environment.color_temperature_k.is_finite()
        && environment.color_temperature_k.within(Single::ratio(1800, 1), Single::ratio(12000, 1))
        && environment.camera_exposure_ev100.is_finite()
        && not_negative(environment.artificial_light_strength)
}

/// Whether the environment values are finite and physically bounded.
#[verifier::when_used_as_spec(spec_sound_environment)]
pub fn sound_environment(environment: SampledEnvironment) -> (r: bool)
    ensures
        r == spec_sound_environment(environment),
{
    unit(environment.shadow_softness)
        && unit(environment.ground_wetness)
        && positive(environment.visibility_km)
        && environment.color_temperature_k.is_finite()
        && environment.color_temperature_k.within(Single::ratio(1800, 1), Single::ratio(12000, 1))
        && environment.camera_exposure_ev100.is_finite()
        && not_negative(environment.artificial_light_strength)
}

/// Whether the lighting of a night has a sun that is high or shines.
pub open spec fn spec_sunny_night(light: SampledLighting) -> bool {
    Single::ratio((-4) as i32, 1).less(light.sun_elevation_degrees)
        || !light.sun_intensity.equals(Single::zero())
}

/// Whether the lighting of a night has a sun that is high or shines.
#[verifier::when_used_as_spec(spec_sunny_night)]
pub fn sunny_night(light: SampledLighting) -> (r: bool)
    ensures
        r == spec_sunny_night(light),
{
    Single::ratio((-4) as i32, 1).less(light.sun_elevation_degrees)
        || !light.sun_intensity.equals(Single::zero())
}

/// Whether facade fractions and the entrance are physically bounded.
pub open spec fn spec_sound_facade(facade: &SampledFacade, building: SampledBuilding) -> bool {
    unit(facade.glazing_fraction)
        && positive(facade.entrance_width_m)
        && !building.footprint_width_m.min(building.footprint_depth_m).at_most(
            facade.entrance_width_m,
        )
        && unit(facade.weathering)
}

/// Whether facade fractions and the entrance are physically bounded.
#[verifier::when_used_as_spec(spec_sound_facade)]
pub fn sound_facade(facade: &SampledFacade, building: SampledBuilding) -> (r: bool)
    ensures
        r == spec_sound_facade(facade, building),
{
    unit(facade.glazing_fraction)
        && positive(facade.entrance_width_m)
        && !building.footprint_width_m.min(building.footprint_depth_m).at_most(
            facade.entrance_width_m,
        )
        && unit(facade.weathering)
}

/// Where the middle of an extension has to be along the normal of its facade.
pub open spec fn spec_attached_position(
    extension: SampledBuildingExtension,
    building: SampledBuilding,
) -> Single {
    match extension.facade {
        FacadeSide::Front => building.footprint_depth_m.negated().times(
            Single::ratio(5, 10),
        ).minus(extension.size_m.z.times(Single::ratio(5, 10))).plus(Single::ratio(12, 100)),
        FacadeSide::Back => building.footprint_depth_m.times(Single::ratio(5, 10)).plus(
            extension.size_m.z.times(Single::ratio(5, 10)),
        ).minus(Single::ratio(12, 100)),
        FacadeSide::Right => building.footprint_width_m.times(Single::ratio(5, 10)).plus(
            extension.size_m.x.times(Single::ratio(5, 10)),
        ).minus(Single::ratio(12, 100)),
        FacadeSide::Left => building.footprint_width_m.negated().times(Single::ratio(5, 10)).minus(
            extension.size_m.x.times(Single::ratio(5, 10)),
        ).plus(Single::ratio(12, 100)),
    }
}

/// Where the middle of an extension has to be along the normal of its facade.
#[verifier::when_used_as_spec(spec_attached_position)]
pub fn attached_position(
    extension: SampledBuildingExtension,
    building: SampledBuilding,
) -> (r: Single)
    ensures
        r == spec_attached_position(extension, building),
{
    match extension.facade {
        FacadeSide::Front => building.footprint_depth_m.negated().times(
            Single::ratio(5, 10),
        ).minus(extension.size_m.z.times(Single::ratio(5, 10))).plus(Single::ratio(12, 100)),
        FacadeSide::Back => building.footprint_depth_m.times(Single::ratio(5, 10)).plus(
            extension.size_m.z.times(Single::ratio(5, 10)),
        ).minus(Single::ratio(12, 100)),
        FacadeSide::Right => building.footprint_width_m.times(Single::ratio(5, 10)).plus(
            extension.size_m.x.times(Single::ratio(5, 10)),
        ).minus(Single::ratio(12, 100)),
        FacadeSide::Left => building.footprint_width_m.negated().times(Single::ratio(5, 10)).minus(
            extension.size_m.x.times(Single::ratio(5, 10)),
        ).plus(Single::ratio(12, 100)),
    }
}

/// Where the middle of an extension is along the normal of its facade.
pub open spec fn spec_normal_position(extension: SampledBuildingExtension) -> Single {
    match extension.facade {
        FacadeSide::Front => extension.position.z,
        FacadeSide::Back => extension.position.z,
        FacadeSide::Right => extension.position.x,
        FacadeSide::Left => extension.position.x,
    }
}

/// Where the middle of an extension is along the normal of its facade.
#[verifier::when_used_as_spec(spec_normal_position)]
pub fn normal_position(extension: SampledBuildingExtension) -> (r: Single)
    ensures
        r == spec_normal_position(extension),
{
    match extension.facade {
        FacadeSide::Front => extension.position.z,
        FacadeSide::Back => extension.position.z,
        FacadeSide::Right => extension.position.x,
        FacadeSide::Left => extension.position.x,
    }
}

/// Half of the width of the facade that an extension stands at.
pub open spec fn spec_facade_half_width(
    extension: SampledBuildingExtension,
    building: SampledBuilding,
) -> Single {
    match extension.facade {
        FacadeSide::Front => building.footprint_width_m.times(Single::ratio(5, 10)),
        FacadeSide::Back => building.footprint_width_m.times(Single::ratio(5, 10)),
        FacadeSide::Right => building.footprint_depth_m.times(Single::ratio(5, 10)),
        FacadeSide::Left => building.footprint_depth_m.times(Single::ratio(5, 10)),
    }
}

/// Half of the width of the facade that an extension stands at.
#[verifier::when_used_as_spec(spec_facade_half_width)]
pub fn facade_half_width(
    extension: SampledBuildingExtension,
    building: SampledBuilding,
) -> (r: Single)
    ensures
        r == spec_facade_half_width(extension, building),
{
    match extension.facade {
        FacadeSide::Front => building.footprint_width_m.times(Single::ratio(5, 10)),
        FacadeSide::Back => building.footprint_width_m.times(Single::ratio(5, 10)),
        FacadeSide::Right => building.footprint_depth_m.times(Single::ratio(5, 10)),
        FacadeSide::Left => building.footprint_depth_m.times(Single::ratio(5, 10)),
    }
}

/// How far an extension reaches along its facade.
pub open spec fn spec_tangential_extent(extension: SampledBuildingExtension) -> Single {
    match extension.facade {
        FacadeSide::Front => extension.position.x.abs().plus(
            extension.size_m.x.times(Single::ratio(5, 10)),
        ),
        FacadeSide::Back => extension.position.x.abs().plus(
            extension.size_m.x.times(Single::ratio(5, 10)),
        ),
        FacadeSide::Right => extension.position.z.abs().plus(
            extension.size_m.z.times(Single::ratio(5, 10)),
        ),
        FacadeSide::Left => extension.position.z.abs().plus(
            extension.size_m.z.times(Single::ratio(5, 10)),
        ),
    }
}

/// How far an extension reaches along its facade.
#[verifier::when_used_as_spec(spec_tangential_extent)]
pub fn tangential_extent(extension: SampledBuildingExtension) -> (r: Single)
    ensures
        r == spec_tangential_extent(extension),
{
    match extension.facade {
        FacadeSide::Front => extension.position.x.abs().plus(
            extension.size_m.x.times(Single::ratio(5, 10)),
        ),
        FacadeSide::Back => extension.position.x.abs().plus(
            extension.size_m.x.times(Single::ratio(5, 10)),
        ),
        FacadeSide::Right => extension.position.z.abs().plus(
            extension.size_m.z.times(Single::ratio(5, 10)),
        ),
        FacadeSide::Left => extension.position.z.abs().plus(
            extension.size_m.z.times(Single::ratio(5, 10)),
        ),
    }
}

/// Whether a flat roof has no rise and a shed roof has one.
pub open spec fn spec_consistent_extension_roof(extension: SampledBuildingExtension) -> bool {
    match extension.roof {
        BuildingExtensionRoof::Flat => extension.roof_rise_m.equals(Single::zero()),
        BuildingExtensionRoof::Shed => Single::zero().less(extension.roof_rise_m),
    }
}

/// Whether a flat roof has no rise and a shed roof has one.
#[verifier::when_used_as_spec(spec_consistent_extension_roof)]
pub fn consistent_extension_roof(extension: SampledBuildingExtension) -> (r: bool)
    ensures
        r == spec_consistent_extension_roof(extension),
{
    match extension.roof {
        BuildingExtensionRoof::Flat => extension.roof_rise_m.equals(Single::zero()),
        BuildingExtensionRoof::Shed => Single::zero().less(extension.roof_rise_m),
    }
}

/// Whether an extension is finite, stays below the eave, and is attached to its facade.
pub open spec fn spec_sound_extension(
    extension: SampledBuildingExtension,
    building: SampledBuilding,
) -> bool {
    extension.position.is_finite()
        && extension.position.y.equals(Single::zero())
        && extension.size_m.is_finite()
        && positive_size(extension.size_m)
        && !building.wall_height_m.at_most(extension.size_m.y)
        && not_negative(extension.roof_rise_m)
        && !building.wall_height_m.at_most(extension.size_m.y.plus(extension.roof_rise_m))
        && consistent_extension_roof(extension)
        && !Single::ratio(1, 1000).less(
            attached_position(extension, building).minus(normal_position(extension)).abs(),
        )
        && !facade_half_width(extension, building).plus(Single::ratio(1, 1000)).less(
            tangential_extent(extension),
        )
}

/// Whether an extension is finite, stays below the eave, and is attached to its facade.
#[verifier::when_used_as_spec(spec_sound_extension)]
pub fn sound_extension(
    extension: SampledBuildingExtension,
    building: SampledBuilding,
) -> (r: bool)
    ensures
        r == spec_sound_extension(extension, building),
{
    extension.position.is_finite()
        && extension.position.y.equals(Single::zero())
        && extension.size_m.is_finite()
        && positive_size(extension.size_m)
        && !building.wall_height_m.at_most(extension.size_m.y)
        && not_negative(extension.roof_rise_m)
        && !building.wall_height_m.at_most(extension.size_m.y.plus(extension.roof_rise_m))
        && consistent_extension_roof(extension)
        && !Single::ratio(1, 1000).less(
            attached_position(extension, building).minus(normal_position(extension)).abs(),
        )
        && !facade_half_width(extension, building).plus(Single::ratio(1, 1000)).less(
            tangential_extent(extension),
        )
}

/// Whether a sign is physically plausible; the ghost of a removed one does not shine.
pub open spec fn spec_sound_sign(sign: &SampledSignage, building: SampledBuilding) -> bool {
    sign.center.is_finite()
        && sign.size_m.is_finite()
        && Single::zero().less(sign.size_m.x)
        && Single::zero().less(sign.size_m.y)
        && !building.wall_height_m.at_most(sign.size_m.y)
        && not_negative(sign.emissive_strength)
        && unit(sign.weathering)
        && !(sign.kind == SignageKind::RemovedGhost
            && !sign.emissive_strength.equals(Single::zero()))
}

/// Whether a sign is physically plausible; the ghost of a removed one does not shine.
#[verifier::when_used_as_spec(spec_sound_sign)]
pub fn sound_sign(sign: &SampledSignage, building: SampledBuilding) -> (r: bool)
    ensures
        r == spec_sound_sign(sign, building),
{
    sign.center.is_finite()
        && sign.size_m.is_finite()
        && Single::zero().less(sign.size_m.x)
        && Single::zero().less(sign.size_m.y)
        && !building.wall_height_m.at_most(sign.size_m.y)
        && not_negative(sign.emissive_strength)
        && unit(sign.weathering)
        && !(sign.kind == SignageKind::RemovedGhost
            && !sign.emissive_strength.equals(Single::zero()))
}

/// Length of the half diagonal of a rectangle.
pub open spec fn spec_half_diagonal(width: Single, depth: Single) -> Single {
    width.times(Single::ratio(5, 10)).times(width.times(Single::ratio(5, 10))).plus(
        depth.times(Single::ratio(5, 10)).times(depth.times(Single::ratio(5, 10))),
    ).root()
}

/// Length of the half diagonal of a rectangle.
#[verifier::when_used_as_spec(spec_half_diagonal)]
pub fn half_diagonal(width: Single, depth: Single) -> (r: Single)
    ensures
        r == spec_half_diagonal(width, depth),
{
    width.times(Single::ratio(5, 10)).times(width.times(Single::ratio(5, 10))).plus(
        depth.times(Single::ratio(5, 10)).times(depth.times(Single::ratio(5, 10))),
    ).root()
}

/// Distance of a position from the vertical axis through the origin.
pub open spec fn spec_ground_distance(position: Vec3) -> Single {
    position.x.times(position.x).plus(position.z.times(position.z)).root()
}

/// Distance of a position from the vertical axis through the origin.
#[verifier::when_used_as_spec(spec_ground_distance)]
pub fn ground_distance(position: Vec3) -> (r: Single)
    ensures
        r == spec_ground_distance(position),
{
    position.x.times(position.x).plus(position.z.times(position.z)).root()
}

/// Radius of the circle around the footprint of a building.
pub open spec fn spec_footprint_radius(building: SampledBuilding) -> Single {
    half_diagonal(building.footprint_width_m, building.footprint_depth_m)
}

/// Radius of the circle around the footprint of a building.
#[verifier::when_used_as_spec(spec_footprint_radius)]
pub fn footprint_radius(building: SampledBuilding) -> (r: Single)
    ensures
        r == spec_footprint_radius(building),
{
    half_diagonal(building.footprint_width_m, building.footprint_depth_m)
}

/// Whether a background building is finite, positive, and outside the target footprint.
pub open spec fn spec_sound_background(
    position: Vec3,
    size: Vec3,
    yaw_degrees: Single,
    building: SampledBuilding,
) -> bool {
    position.is_finite()
        && size.is_finite()
        && positive_size(size)
        && yaw_degrees.is_finite()
        && !ground_distance(position).at_most(
            footprint_radius(building).plus(half_diagonal(size.x, size.z)),
        )
}

/// Whether a background building is finite, positive, and outside the target footprint.
#[verifier::when_used_as_spec(spec_sound_background)]
pub fn sound_background(
    position: Vec3,
    size: Vec3,
    yaw_degrees: Single,
    building: SampledBuilding,
) -> (r: bool)
    ensures
        r == spec_sound_background(position, size, yaw_degrees, building),
{
    position.is_finite()
        && size.is_finite()
        && positive_size(size)
        && yaw_degrees.is_finite()
        && !ground_distance(position).at_most(
            footprint_radius(building).plus(half_diagonal(size.x, size.z)),
        )
}

/// Whether a plant is finite and outside the target footprint.
pub open spec fn spec_sound_vegetation(
    vegetation: SampledVegetation,
    building: SampledBuilding,
) -> bool {
    vegetation.position.is_finite()
        && positive(vegetation.height_m)
        && positive(vegetation.canopy_radius_m)
        && vegetation.yaw_degrees.is_finite()
        && vegetation.seasonal_variation.is_finite()
        && vegetation.seasonal_variation.within(Single::ratio((-1) as i32, 1), Single::one())
        && !ground_distance(vegetation.position).at_most(footprint_radius(building))
}

/// Whether a plant is finite and outside the target footprint.
#[verifier::when_used_as_spec(spec_sound_vegetation)]
pub fn sound_vegetation(vegetation: SampledVegetation, building: SampledBuilding) -> (r: bool)
    ensures
        r == spec_sound_vegetation(vegetation, building),
{
    vegetation.position.is_finite()
        && positive(vegetation.height_m)
        && positive(vegetation.canopy_radius_m)
        && vegetation.yaw_degrees.is_finite()
        && vegetation.seasonal_variation.is_finite()
        && vegetation.seasonal_variation.within(Single::ratio((-1) as i32, 1), Single::one())
        && !ground_distance(vegetation.position).at_most(footprint_radius(building))
}

/// Whether infrastructure matches the domain of the environment, where there is one, and has
/// plausible dimensions.
pub open spec fn spec_sound_infrastructure(
    infrastructure: &SampledSiteInfrastructure,
    domain: Option<SceneDomain>,
) -> bool {
    (match domain {
        Some(domain) => infrastructure.domain == domain,
        None => true,
    })
        && infrastructure.parking_center.is_finite()
        && infrastructure.parking_bay_size_m.is_finite()
        && Single::zero().less(infrastructure.parking_bay_size_m.x)
        && Single::zero().less(infrastructure.parking_bay_size_m.y)
        && infrastructure.parking_yaw_degrees.is_finite()
        && infrastructure.road_lanes != 0
        && infrastructure.lane_width_m.is_finite()
        && infrastructure.lane_width_m.within(Single::ratio(26, 10), Single::ratio(42, 10))
        && infrastructure.road_center_z_m.is_finite()
}

/// Whether infrastructure matches the domain of the environment, where there is one, and has
/// plausible dimensions.
#[verifier::when_used_as_spec(spec_sound_infrastructure)]
pub fn sound_infrastructure(
    infrastructure: &SampledSiteInfrastructure,
    domain: Option<SceneDomain>,
) -> (r: bool)
    ensures
        r == spec_sound_infrastructure(infrastructure, domain),
{
    (match domain {
        Some(domain) => infrastructure.domain == domain,
        None => true,
    })
        && infrastructure.parking_center.is_finite()
        && infrastructure.parking_bay_size_m.is_finite()
        && Single::zero().less(infrastructure.parking_bay_size_m.x)
        && Single::zero().less(infrastructure.parking_bay_size_m.y)
        && infrastructure.parking_yaw_degrees.is_finite()
        && infrastructure.road_lanes != 0
        && infrastructure.lane_width_m.is_finite()
        && infrastructure.lane_width_m.within(Single::ratio(26, 10), Single::ratio(42, 10))
        && infrastructure.road_center_z_m.is_finite()
}

/// Whether a pole has a finite place and a plausible height.
pub open spec fn spec_sound_pole(pole: SampledUtilityPole) -> bool {
    pole.position.is_finite()
        && pole.height_m.is_finite()
        && pole.height_m.within(Single::ratio(3, 1), Single::ratio(18, 1))
}

/// Whether a pole has a finite place and a plausible height.
#[verifier::when_used_as_spec(spec_sound_pole)]
pub fn sound_pole(pole: SampledUtilityPole) -> (r: bool)
    ensures
        r == spec_sound_pole(pole),
{
    pole.position.is_finite()
        && pole.height_m.is_finite()
        && pole.height_m.within(Single::ratio(3, 1), Single::ratio(18, 1))
}

/// Whether a line hangs between two distinct poles.
pub open spec fn spec_sound_line(line: SampledUtilityLine, poles: usize) -> bool {
    (line.start_pole as usize) < poles
        && (line.end_pole as usize) < poles
        && line.start_pole != line.end_pole
        && positive(line.sag_m)
}

/// Whether a line hangs between two distinct poles.
#[verifier::when_used_as_spec(spec_sound_line)]
pub fn sound_line(line: SampledUtilityLine, poles: usize) -> (r: bool)
    ensures
        r == spec_sound_line(line, poles),
{
    (line.start_pole as usize) < poles
        && (line.end_pole as usize) < poles
        && line.start_pole != line.end_pole
        && positive(line.sag_m)
}

/// A material with an identifier whose values are finite and physically bounded.
pub open spec fn sound_material(material: SampledMaterial) -> bool {
    &&& !crate::text::blank(material.id@)
    &&& crate::check_values::unit_color(material.base_color_srgb@)
    &&& unit(material.roughness)
    &&& unit(material.weathering)
}

/// What a sampled material has to meet.
pub open spec fn sampled_material_rules(path: Seq<char>, material: SampledMaterial) -> Seq<
    crate::report::Rule,
> {
    crate::report::error_if(
        !sound_material(material),
        "invalid_sampled_material"@,
        path,
        "sampled material values must be finite and physically bounded"@,
    )
}

/// Checks a sampled material.
pub fn validate_sampled_material(
    report: &mut ValidationReport,
    path: &str,
    material: &SampledMaterial,
)
    ensures
        final(report)@ == crate::report::applied(
            old(report)@,
            sampled_material_rules(path@, *material),
        ),
{
    report.check(
        is_blank(&material.id) || !is_unit_color(&material.base_color_srgb)
            || !unit(material.roughness) || !unit(material.weathering),
        "invalid_sampled_material",
        path,
        "sampled material values must be finite and physically bounded",
    );
}

/// What an optional ordinary roof has to meet.
pub open spec fn ordinary_roof_rules(
    ordinary: Option<SampledOrdinaryRoof>,
    building: SampledBuilding,
) -> Seq<crate::report::Rule> {
    match ordinary {
        Some(ordinary) => crate::report::error_if(
            !sound_ordinary_roof(ordinary, building),
            "invalid_sampled_ordinary_roof"@,
            "scene.ordinary_roof"@,
            "ordinary-roof dimensions and topology fractions must be finite and physically bounded"@,
        ),
        None => Seq::empty(),
    }
}

fn check_ordinary_roof(
    report: &mut ValidationReport,
    ordinary: Option<SampledOrdinaryRoof>,
    building: SampledBuilding,
)
    ensures
        final(report)@ == crate::report::applied(
            old(report)@,
            ordinary_roof_rules(ordinary, building),
        ),
{
    if let Some(ordinary) = ordinary {
        report.check(
            !sound_ordinary_roof(ordinary, building),
            "invalid_sampled_ordinary_roof",
            "scene.ordinary_roof",
            "ordinary-roof dimensions and topology fractions must be finite and physically bounded",
        );
    }
}

/// What the first `n` occluders have to meet.
pub open spec fn first_occluder_rules(
    occluders: Seq<SampledOccluder>,
    turns: Seq<Turn>,
    building: SampledBuilding,
    roof: SampledRoof,
    n: nat,
) -> Seq<crate::report::Rule>
    decreases n,
{
    if n == 0 {
        Seq::empty()
    } else {
        first_occluder_rules(occluders, turns, building, roof, (n - 1) as nat)
            + crate::report::error_if(
                !sound_occluder(occluders[n - 1]),
                "invalid_sampled_occluder"@,
                crate::text::element("scene.occluders"@, n - 1, ""@),
                "sampled occluder placement and scale must be finite"@,
            )
            + crate::report::error_if(
                occluders[n - 1].placement == OccluderPlacement::Rooftop && off_crown(
                    occluders[n - 1],
                    turns[n - 1],
                    building,
                    roof,
                ),
                "rooftop_occluder_outside_roof"@,
                crate::text::element("scene.occluders"@, n - 1, ".position"@),
                "rooftop equipment base and footprint must remain on the flat crown top"@,
            )
            + crate::report::error_if(
                occluders[n - 1].placement != OccluderPlacement::Rooftop && in_footprint(
                    occluders[n - 1],
                    turns[n - 1],
                    building,
                ),
                "occluder_intersects_target"@,
                crate::text::element("scene.occluders"@, n - 1, ".position"@),
                "non-rooftop occluders must clear the target footprint"@,
            )
    }
}

/// Checks the occluders of a scene.
pub fn check_occluder(
    report: &mut ValidationReport,
    occluders: &Vec<SampledOccluder>,
    turns: &Vec<Turn>,
    building: SampledBuilding,
    roof: SampledRoof,
)
    requires
        turns@.len() == occluders@.len(),
    ensures
        final(report)@ == crate::report::applied(
            old(report)@,
            first_occluder_rules(occluders@, turns@, building, roof, occluders@.len()),
        ),
{
    let ghost start = report@;
    let mut i: usize = 0;
    while i < occluders.len()
        invariant
            turns@.len() == occluders@.len(),
            i <= occluders@.len(),
            report@ == crate::report::applied(
                start,
                first_occluder_rules(occluders@, turns@, building, roof, i as nat),
            ),
        decreases occluders@.len() - i,
    {
        report.check_element(
            !sound_occluder(occluders[i]),
            "invalid_sampled_occluder",
            "scene.occluders",
            i,
            "",
            "sampled occluder placement and scale must be finite",
        );
        report.check_element(
            occluders[i].placement == OccluderPlacement::Rooftop && off_crown(
                occluders[i],
                turns[i],
                building,
                roof,
            ),
            "rooftop_occluder_outside_roof",
            "scene.occluders",
            i,
            ".position",
            "rooftop equipment base and footprint must remain on the flat crown top",
        );
        report.check_element(
            occluders[i].placement != OccluderPlacement::Rooftop && in_footprint(
                occluders[i],
                turns[i],
                building,
            ),
            "occluder_intersects_target",
            "scene.occluders",
            i,
            ".position",
            "non-rooftop occluders must clear the target footprint",
        );
        i = i + 1;
    }
}

/// The identifier occurs earlier.
pub open spec fn repeated_id(ids: Seq<String>, i: int) -> bool {
    exists|j: int| 0 <= j < i && (#[trigger] ids[j])@ == ids[i]@
}

fn is_repeated_id(ids: &Vec<String>, i: usize) -> (r: bool)
    requires
        i < ids@.len(),
    ensures
        r == repeated_id(ids@, i as int),
{
    let mut j: usize = 0;
    while j < i
        invariant
            j <= i < ids@.len(),
            forall|k: int| 0 <= k < j ==> (#[trigger] ids@[k])@ != ids@[i as int]@,
        decreases i - j,
    {
        if same_text(&ids[j], &ids[i]) {
            return true;
        }
        j = j + 1;
    }
    false
}

/// What the first `n` source identifiers have to meet.
pub open spec fn first_source_id_rules(ids: Seq<String>, n: nat) -> Seq<crate::report::Rule>
    decreases n,
{
    if n == 0 {
        Seq::empty()
    } else {
        first_source_id_rules(ids, (n - 1) as nat)
            + crate::report::error_if(
                crate::text::blank(ids[n - 1]@) || repeated_id(ids, n - 1),
                "invalid_source_asset_id"@,
                crate::text::element("scene.composition.source_asset_ids"@, n - 1, ""@),
                "resolved source asset IDs must be non-empty and unique"@,
            )
    }
}

/// Checks the source identifiers of a scene.
pub fn check_source_id(report: &mut ValidationReport, ids: &Vec<String>)
    ensures
        final(report)@ == crate::report::applied(
            old(report)@,
            first_source_id_rules(ids@, ids@.len()),
        ),
{
    let ghost start = report@;
    let mut i: usize = 0;
    while i < ids.len()
        invariant
            i <= ids@.len(),
            report@ == crate::report::applied(start, first_source_id_rules(ids@, i as nat)),
        decreases ids@.len() - i,
    {
        report.check_element(
            is_blank(&ids[i]) || is_repeated_id(ids, i),
            "invalid_source_asset_id",
            "scene.composition.source_asset_ids",
            i,
            "",
            "resolved source asset IDs must be non-empty and unique",
        );
        i = i + 1;
    }
}

/// An earlier extension stands at the same facade.
pub open spec fn repeated_facade(extensions: Seq<SampledBuildingExtension>, i: int) -> bool {
    exists|j: int| 0 <= j < i && (#[trigger] extensions[j]).facade == extensions[i].facade
}

fn is_repeated_facade(extensions: &Vec<SampledBuildingExtension>, i: usize) -> (r: bool)
    requires
        i < extensions@.len(),
    ensures
        r == repeated_facade(extensions@, i as int),
{
    let mut j: usize = 0;
    while j < i
        invariant
            j <= i < extensions@.len(),
            forall|k: int| 0 <= k < j ==> (#[trigger] extensions@[k]).facade != extensions@[i as int].facade,
        decreases i - j,
    {
        if extensions[j].facade == extensions[i].facade {
            return true;
        }
        j = j + 1;
    }
    false
}

/// What the first `n` extensions have to meet.
pub open spec fn first_extension_rules(
    extensions: Seq<SampledBuildingExtension>,
    building: SampledBuilding,
    n: nat,
) -> Seq<crate::report::Rule>
    decreases n,
{
    if n == 0 {
        Seq::empty()
    } else {
        first_extension_rules(extensions, building, (n - 1) as nat)
            + crate::report::error_if(
                repeated_facade(extensions, n - 1) || !sound_extension(extensions[n - 1], building),
                "invalid_sampled_building_extension"@,
                crate::text::element("scene.composition.building_extensions"@, n - 1, ""@),
                "extensions must be finite, below the main eave, attached to distinct façades, and remain within the host façade span"@,
            )
    }
}

/// Checks the building extensions of a scene.
pub fn check_extension(
    report: &mut ValidationReport,
    extensions: &Vec<SampledBuildingExtension>,
    building: SampledBuilding,
)
    ensures
        final(report)@ == crate::report::applied(
            old(report)@,
            first_extension_rules(extensions@, building, extensions@.len()),
        ),
{
    let ghost start = report@;
    let mut i: usize = 0;
    while i < extensions.len()
        invariant
            i <= extensions@.len(),
            report@ == crate::report::applied(
                start,
                first_extension_rules(extensions@, building, i as nat),
            ),
        decreases extensions@.len() - i,
    {
        report.check_element(
            is_repeated_facade(extensions, i) || !sound_extension(extensions[i], building),
            "invalid_sampled_building_extension",
            "scene.composition.building_extensions",
            i,
            "",
            "extensions must be finite, below the main eave, attached to distinct façades, and remain within the host façade span",
        );
        i = i + 1;
    }
}

/// What the first `n` signs have to meet.
pub open spec fn first_sign_rules(
    signs: Seq<SampledSignage>,
    building: SampledBuilding,
    n: nat,
) -> Seq<crate::report::Rule>
    decreases n,
{
    if n == 0 {
        Seq::empty()
    } else {
        first_sign_rules(signs, building, (n - 1) as nat)
            + crate::report::error_if(
                !sound_sign(&signs[n - 1], building),
                "invalid_sampled_signage"@,
                crate::text::element("scene.composition.signage"@, n - 1, ""@),
                "sign dimensions, material state, and emission must be physically plausible"@,
            )
    }
}

/// Checks the signs of a scene.
pub fn check_sign(
    report: &mut ValidationReport,
    signs: &Vec<SampledSignage>,
    building: SampledBuilding,
)
    ensures
        final(report)@ == crate::report::applied(
            old(report)@,
            first_sign_rules(signs@, building, signs@.len()),
        ),
{
    let ghost start = report@;
    let mut i: usize = 0;
    while i < signs.len()
        invariant
            i <= signs@.len(),
            report@ == crate::report::applied(start, first_sign_rules(signs@, building, i as nat)),
        decreases signs@.len() - i,
    {
        report.check_element(
            !sound_sign(&signs[i], building),
            "invalid_sampled_signage",
            "scene.composition.signage",
            i,
            "",
            "sign dimensions, material state, and emission must be physically plausible",
        );
        i = i + 1;
    }
}

/// What the first `n` background buildings have to meet.
pub open spec fn first_background_rules(
    backgrounds: Seq<SampledBackgroundBuilding>,
    building: SampledBuilding,
    n: nat,
) -> Seq<crate::report::Rule>
    decreases n,
{
    if n == 0 {
        Seq::empty()
    } else {
        first_background_rules(backgrounds, building, (n - 1) as nat)
            + sampled_material_rules(
                crate::text::element(
                    "scene.composition.background_buildings"@,
                    n - 1,
                    ".material"@,
                ),
                backgrounds[n - 1].material,
            )
            + crate::report::error_if(
                !sound_background(
                    backgrounds[n - 1].position,
                    backgrounds[n - 1].size_m,
                    backgrounds[n - 1].yaw_degrees,
                    building,
                ),
                "invalid_background_building"@,
                crate::text::element("scene.composition.background_buildings"@, n - 1, ""@),
                "background buildings must be finite, positive, and outside the target footprint"@,
            )
    }
}

/// Checks the background buildings of a scene.
pub fn check_background(
    report: &mut ValidationReport,
    backgrounds: &Vec<SampledBackgroundBuilding>,
    building: SampledBuilding,
)
    ensures
        final(report)@ == crate::report::applied(
            old(report)@,
            first_background_rules(backgrounds@, building, backgrounds@.len()),
        ),
{
    let ghost start = report@;
    let mut i: usize = 0;
    while i < backgrounds.len()
        invariant
            i <= backgrounds@.len(),
            report@ == crate::report::applied(
                start,
                first_background_rules(backgrounds@, building, i as nat),
            ),
        decreases backgrounds@.len() - i,
    {
        validate_sampled_material(
            report,
            &element_path("scene.composition.background_buildings", i, ".material"),
            &backgrounds[i].material,
        );
        report.check_element(
            !sound_background(
                backgrounds[i].position,
                backgrounds[i].size_m,
                backgrounds[i].yaw_degrees,
                building,
            ),
            "invalid_background_building",
            "scene.composition.background_buildings",
            i,
            "",
            "background buildings must be finite, positive, and outside the target footprint",
        );
        i = i + 1;
    }
}

/// What the first `n` plants have to meet.
pub open spec fn first_plant_rules(
    plants: Seq<SampledVegetation>,
    building: SampledBuilding,
    n: nat,
) -> Seq<crate::report::Rule>
    decreases n,
{
    if n == 0 {
        Seq::empty()
    } else {
        first_plant_rules(plants, building, (n - 1) as nat)
            + crate::report::error_if(
                !sound_vegetation(plants[n - 1], building),
                "invalid_sampled_vegetation"@,
                crate::text::element("scene.composition.vegetation"@, n - 1, ""@),
                "vegetation must have finite dimensions and remain outside the target footprint"@,
            )
    }
}

/// Checks the plants of a scene.
pub fn check_plant(
    report: &mut ValidationReport,
    plants: &Vec<SampledVegetation>,
    building: SampledBuilding,
)
    ensures
        final(report)@ == crate::report::applied(
            old(report)@,
            first_plant_rules(plants@, building, plants@.len()),
        ),
{
    let ghost start = report@;
    let mut i: usize = 0;
    while i < plants.len()
        invariant
            i <= plants@.len(),
            report@ == crate::report::applied(
                start,
                first_plant_rules(plants@, building, i as nat),
            ),
        decreases plants@.len() - i,
    {
        report.check_element(
            !sound_vegetation(plants[i], building),
            "invalid_sampled_vegetation",
            "scene.composition.vegetation",
            i,
            "",
            "vegetation must have finite dimensions and remain outside the target footprint",
        );
        i = i + 1;
    }
}

/// What the first `n` poles have to meet.
pub open spec fn first_pole_rules(
    poles: Seq<SampledUtilityPole>,
    n: nat,
) -> Seq<crate::report::Rule>
    decreases n,
{
    if n == 0 {
        Seq::empty()
    } else {
        first_pole_rules(poles, (n - 1) as nat)
            + crate::report::error_if(
                !sound_pole(poles[n - 1]),
                "invalid_utility_pole"@,
                crate::text::element("scene.composition.infrastructure.utility_poles"@, n - 1, ""@),
                "utility poles require finite placement and plausible height"@,
            )
    }
}

/// Checks the utility poles of a scene.
pub fn check_pole(report: &mut ValidationReport, poles: &Vec<SampledUtilityPole>)
    ensures
        final(report)@ == crate::report::applied(
            old(report)@,
            first_pole_rules(poles@, poles@.len()),
        ),
{
    let ghost start = report@;
    let mut i: usize = 0;
    while i < poles.len()
        invariant
            i <= poles@.len(),
            report@ == crate::report::applied(start, first_pole_rules(poles@, i as nat)),
        decreases poles@.len() - i,
    {
        report.check_element(
            !sound_pole(poles[i]),
            "invalid_utility_pole",
            "scene.composition.infrastructure.utility_poles",
            i,
            "",
            "utility poles require finite placement and plausible height",
        );
        i = i + 1;
    }
}

/// What the first `n` lines have to meet.
pub open spec fn first_line_rules(
    lines: Seq<SampledUtilityLine>,
    poles: usize,
    n: nat,
) -> Seq<crate::report::Rule>
    decreases n,
{
    if n == 0 {
        Seq::empty()
    } else {
        first_line_rules(lines, poles, (n - 1) as nat)
            + crate::report::error_if(
                !sound_line(lines[n - 1], poles),
                "invalid_utility_line"@,
                crate::text::element("scene.composition.infrastructure.utility_lines"@, n - 1, ""@),
                "utility lines must connect distinct valid poles with positive sag"@,
            )
    }
}

/// Checks the utility lines of a scene.
pub fn check_line(report: &mut ValidationReport, lines: &Vec<SampledUtilityLine>, poles: usize)
    ensures
        final(report)@ == crate::report::applied(
            old(report)@,
            first_line_rules(lines@, poles, lines@.len()),
        ),
{
    let ghost start = report@;
    let mut i: usize = 0;
    while i < lines.len()
        invariant
            i <= lines@.len(),
            report@ == crate::report::applied(start, first_line_rules(lines@, poles, i as nat)),
        decreases lines@.len() - i,
    {
        report.check_element(
            !sound_line(lines[i], poles),
            "invalid_utility_line",
            "scene.composition.infrastructure.utility_lines",
            i,
            "",
            "utility lines must connect distinct valid poles with positive sag",
        );
        i = i + 1;
    }
}

/// Sun and day phase fit.
pub open spec fn phase_rules(phase: DayPhase, light: SampledLighting) -> Seq<crate::report::Rule> {
    crate::report::error_if(
        phase == DayPhase::Day && light.sun_elevation_degrees.less(Single::zero()),
        "day_lighting_mismatch"@,
        "scene.lighting.sun_elevation_degrees"@,
        "day regime cannot have a below-horizon sun"@,
    ) + crate::report::error_if(
        phase == DayPhase::Night && sunny_night(light),
        "night_lighting_mismatch"@,
        "scene.lighting"@,
        "night regime requires a below-horizon sun and zero direct solar intensity"@,
    )
}

/// What the ground material has to meet.
pub open spec fn ground_rules(material: Option<SampledMaterial>) -> Seq<crate::report::Rule> {
    match material {
        Some(material) => sampled_material_rules("scene.composition.ground_material"@, material),
        None => crate::report::error_if(
            true,
            "missing_ground_material"@,
            "scene.composition.ground_material"@,
            "new sequence plans require a resolved ground material"@,
        ),
    }
}

/// What the facade has to meet.
pub open spec fn facade_rules(facade: Option<SampledFacade>, building: SampledBuilding) -> Seq<
    crate::report::Rule,
> {
    match facade {
        Some(facade) => sampled_material_rules(
            "scene.composition.facade.glazing_material"@,
            facade.glazing_material,
        ) + crate::report::error_if(
            !sound_facade(&facade, building),
            "invalid_sampled_facade"@,
            "scene.composition.facade"@,
            "façade fractions and entrance dimensions must be physically bounded"@,
        ),
        None => crate::report::error_if(
            true,
            "missing_sampled_facade"@,
            "scene.composition.facade"@,
            "new sequence plans require resolved façade detail"@,
        ),
    }
}

/// What the infrastructure has to meet, given the domain of the environment where there is
/// one.
pub open spec fn infrastructure_rules(
    infrastructure: Option<SampledSiteInfrastructure>,
    domain: Option<SceneDomain>,
) -> Seq<crate::report::Rule> {
    match infrastructure {
        Some(infrastructure) => crate::report::error_if(
            !sound_infrastructure(&infrastructure, domain),
            "invalid_site_infrastructure"@,
            "scene.composition.infrastructure"@,
            "site infrastructure must match its domain and use plausible dimensions"@,
        ) + first_pole_rules(
            infrastructure.utility_poles@,
            infrastructure.utility_poles@.len(),
        ) + first_line_rules(
            infrastructure.utility_lines@,
            infrastructure.utility_poles.len(),
            infrastructure.utility_lines@.len(),
        ),
        None => crate::report::error_if(
            true,
            "missing_site_infrastructure"@,
            "scene.composition.infrastructure"@,
            "new sequence plans require a correlated parking, road, curb, and utility layout"@,
        ),
    }
}

/// What the environment has to meet under a light.
pub open spec fn environment_rules(
    environment: Option<SampledEnvironment>,
    light: SampledLighting,
) -> Seq<crate::report::Rule> {
    match environment {
        Some(environment) => crate::report::error_if(
            !sound_environment(environment),
            "invalid_sampled_environment"@,
            "scene.composition.environment"@,
            "environment values must be finite and physically bounded"@,
        ) + phase_rules(environment.day_phase, light),
        None => crate::report::error_if(
            true,
            "missing_sampled_environment"@,
            "scene.composition.environment"@,
            "new sequence plans require a correlated environment regime"@,
        ),
    }
}

/// The domain of an environment, where there is one.
pub open spec fn spec_environment_domain(
    environment: Option<SampledEnvironment>,
) -> Option<SceneDomain> {
    match environment {
        Some(environment) => Some(environment.domain),
        None => None,
    }
}

/// The domain of an environment, where there is one.
#[verifier::when_used_as_spec(spec_environment_domain)]
pub fn environment_domain(environment: Option<SampledEnvironment>) -> (r: Option<SceneDomain>)
    ensures
        r == spec_environment_domain(environment),
{
    match environment {
        Some(environment) => Some(environment.domain),
        None => None,
    }
}

/// What the composition of a scene has to meet. One without an environment still has to meet
/// everything that does not speak of it.
pub open spec fn sampled_composition_rules(scene: SampledScene) -> Seq<crate::report::Rule> {
    let composition = scene.composition;
    let building = scene.building;
    first_source_id_rules(composition.source_asset_ids@, composition.source_asset_ids@.len())
        + environment_rules(composition.environment, scene.lighting) + ground_rules(
        composition.ground_material,
    ) + facade_rules(composition.facade, building) + first_extension_rules(
        composition.building_extensions@,
        building,
        composition.building_extensions@.len(),
    ) + first_sign_rules(composition.signage@, building, composition.signage@.len())
        + first_background_rules(
        composition.background_buildings@,
        building,
        composition.background_buildings@.len(),
    ) + first_plant_rules(composition.vegetation@, building, composition.vegetation@.len())
        + infrastructure_rules(
        composition.infrastructure,
        environment_domain(composition.environment),
    )
}

fn check_facade(
    report: &mut ValidationReport,
    facade: &Option<SampledFacade>,
    building: SampledBuilding,
)
    ensures
        final(report)@ == crate::report::applied(old(report)@, facade_rules(*facade, building)),
{
    match facade {
        Some(facade) => {
            validate_sampled_material(
                report,
                "scene.composition.facade.glazing_material",
                &facade.glazing_material,
            );
            report.check(
                !sound_facade(facade, building),
                "invalid_sampled_facade",
                "scene.composition.facade",
                "façade fractions and entrance dimensions must be physically bounded",
            );
        },
        None => {
            report.check(
                true,
                "missing_sampled_facade",
                "scene.composition.facade",
                "new sequence plans require resolved façade detail",
            );
        },
    }
}

fn check_infrastructure(
    report: &mut ValidationReport,
    infrastructure: &Option<SampledSiteInfrastructure>,
    domain: Option<SceneDomain>,
)
    ensures
        final(report)@ == crate::report::applied(
            old(report)@,
            infrastructure_rules(*infrastructure, domain),
        ),
{
    match infrastructure {
        Some(infrastructure) => {
            report.check(
                !sound_infrastructure(infrastructure, domain),
                "invalid_site_infrastructure",
                "scene.composition.infrastructure",
                "site infrastructure must match its domain and use plausible dimensions",
            );
            check_pole(report, &infrastructure.utility_poles);
            check_line(
                report,
                &infrastructure.utility_lines,
                infrastructure.utility_poles.len(),
            );
        },
        None => {
            report.check(
                true,
                "missing_site_infrastructure",
                "scene.composition.infrastructure",
                "new sequence plans require a correlated parking, road, curb, and utility layout",
            );
        },
    }
}

fn check_environment(
    report: &mut ValidationReport,
    environment: Option<SampledEnvironment>,
    light: SampledLighting,
)
    ensures
        final(report)@ == crate::report::applied(
            old(report)@,
            environment_rules(environment, light),
        ),
{
    match environment {
        Some(environment) => {
            report.check(
                !sound_environment(environment),
                "invalid_sampled_environment",
                "scene.composition.environment",
                "environment values must be finite and physically bounded",
            );
            report.check(
                environment.day_phase == DayPhase::Day && light.sun_elevation_degrees.less(
                    Single::zero(),
                ),
                "day_lighting_mismatch",
                "scene.lighting.sun_elevation_degrees",
                "day regime cannot have a below-horizon sun",
            );
            report.check(
                environment.day_phase == DayPhase::Night && sunny_night(light),
                "night_lighting_mismatch",
                "scene.lighting",
                "night regime requires a below-horizon sun and zero direct solar intensity",
            );
        },
        None => {
            report.check(
                true,
                "missing_sampled_environment",
                "scene.composition.environment",
                "new sequence plans require a correlated environment regime",
            );
        },
    }
}

/// Checks the composition of a scene.
pub fn validate_sampled_composition(report: &mut ValidationReport, scene: &SampledScene)
    ensures
        final(report)@ == crate::report::applied(old(report)@, sampled_composition_rules(*scene)),
{
    let composition: &SampledComposition = &scene.composition;
    let building = scene.building;
    check_source_id(report, &composition.source_asset_ids);
    check_environment(report, composition.environment, scene.lighting);
    match &composition.ground_material {
        Some(material) => {
            validate_sampled_material(report, "scene.composition.ground_material", material);
        },
        None => {
            report.check(
                true,
                "missing_ground_material",
                "scene.composition.ground_material",
                "new sequence plans require a resolved ground material",
            );
        },
    }
    check_facade(report, &composition.facade, building);
    check_extension(report, &composition.building_extensions, building);
    check_sign(report, &composition.signage, building);
    check_background(report, &composition.background_buildings, building);
    check_plant(report, &composition.vegetation, building);
    check_infrastructure(
        report,
        &composition.infrastructure,
        environment_domain(composition.environment),
    );
}

/// The ground ends before the content of a scene and its margin do.
pub open spec fn off_ground(scene: SampledScene, turns: SceneTurns) -> bool {
    let required = crate::geometry::content_half_extent(
        scene.building,
        actual_roof_envelope(&scene),
        scene.composition,
        scene.occluders@,
        turns,
        Seq::empty(),
    ).plus(ground_edge_margin_m());
    scene.building.ground_half_extent_m.plus(Single::ratio(1, 1000)).less(required)
}

fn is_off_ground(scene: &SampledScene, turns: &SceneTurns) -> (r: bool)
    requires
        turns.cover(*scene),
    ensures
        r == off_ground(*scene, *turns),
{
    let none: Vec<Vec3> = Vec::new();
    let required = sampled_content_half_extent(
        scene.building,
        actual_roof_envelope(scene),
        &scene.composition,
        &scene.occluders,
        turns,
        &none,
    ).plus(ground_edge_margin_m());
    assert(none@ =~= Seq::empty());
    scene.building.ground_half_extent_m.plus(Single::ratio(1, 1000)).less(required)
}

/// Everything that a sampled scene has to meet.
#[verifier::opaque]
pub open spec fn sampled_scene_rules(scene: SampledScene, turns: SceneTurns) -> Seq<
    crate::report::Rule,
> {
    crate::report::error_if(
        !sound_building(scene.building),
        "invalid_sampled_building"@,
        "scene.building"@,
        "all sampled building dimensions must be finite and positive"@,
    ) + crate::report::error_if(
        !sound_roof(scene.roof),
        "invalid_sampled_roof"@,
        "scene.roof"@,
        "roof dimensions must be finite, positive, and form three nested rectangles"@,
    ) + ordinary_roof_rules(scene.ordinary_roof, scene.building) + sampled_material_rules(
        "scene.roof_material"@,
        scene.roof_material,
    ) + sampled_material_rules("scene.wall_material"@, scene.wall_material)
        + crate::report::error_if(
        !sound_lighting(scene.lighting),
        "invalid_sampled_lighting"@,
        "scene.lighting"@,
        "sampled lighting must be finite with bounded cloud and haze values"@,
    ) + first_occluder_rules(
        scene.occluders@,
        turns.occluders@,
        scene.building,
        scene.roof,
        scene.occluders@.len(),
    ) + sampled_composition_rules(scene) + crate::report::error_if(
        off_ground(scene, turns),
        "scene_outside_ground"@,
        "scene.building.ground_half_extent_m"@,
        "finite ground must contain all sampled scene content with an edge margin"@,
    )
}

/// Checks a sampled scene, given the turns of its yawed objects.
pub fn validate_sampled_scene(
    report: &mut ValidationReport,
    scene: &SampledScene,
    turns: &SceneTurns,
)
    requires
        turns.cover(*scene),
    ensures
        final(report)@ == crate::report::applied(
            old(report)@,
            sampled_scene_rules(*scene, *turns),
        ),
{
    proof {
        reveal(sampled_scene_rules);
    }
    report.check(
        !sound_building(scene.building),
        "invalid_sampled_building",
        "scene.building",
        "all sampled building dimensions must be finite and positive",
    );
    report.check(
        !sound_roof(scene.roof),
        "invalid_sampled_roof",
        "scene.roof",
        "roof dimensions must be finite, positive, and form three nested rectangles",
    );
    check_ordinary_roof(report, scene.ordinary_roof, scene.building);
    validate_sampled_material(report, "scene.roof_material", &scene.roof_material);
    validate_sampled_material(report, "scene.wall_material", &scene.wall_material);
    report.check(
        !sound_lighting(scene.lighting),
        "invalid_sampled_lighting",
        "scene.lighting",
        "sampled lighting must be finite with bounded cloud and haze values",
    );
    check_occluder(report, &scene.occluders, &turns.occluders, scene.building, scene.roof);
    validate_sampled_composition(report, scene);
    report.check(
        is_off_ground(scene, turns),
        "scene_outside_ground",
        "scene.building.ground_half_extent_m",
        "finite ground must contain all sampled scene content with an edge margin",
    );
}

} // verus!
