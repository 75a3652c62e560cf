//! What the visible scene of a sampled one shows of it.

use crate::composition::{
    BuildingExtensionKind, BuildingExtensionRoof, DayPhase, FacadeSide, RoadKind, SceneDomain,
    SignageKind, VegetationKind, WeatherPreset,
};
use crate::config::OccluderKind;
use crate::plan::SampledScene;
use crate::rounding::{
    bounded_results_are_finite, literals_round, neutral_operands, one_is_one, products_round,
    results_are_close, size, whole_literals,
};
use crate::sample_site::tau;
use crate::scene::{
    BuildingSide, EnvironmentDomain, SceneOccluderKind, SignMount, SignStyle, SiteRoadKind,
    TimeOfDay, TreeKind, WeatherAppearance,
};
use crate::scene_sampled::{
    described, map_exposure, quarter_turn, scene_seed, time_from_sun_elevation,
};
use crate::single::{order_is_value_order, Single};
use crate::whole::unit;
use vstd::prelude::*;

verus! {

/// A wall of the described building is the sampled one.
pub open spec fn same_side(drawn: BuildingSide, sampled: FacadeSide) -> bool {
    &&& drawn == BuildingSide::Front <==> sampled == FacadeSide::Front
    &&& drawn == BuildingSide::Right <==> sampled == FacadeSide::Right
    &&& drawn == BuildingSide::Back <==> sampled == FacadeSide::Back
    &&& drawn == BuildingSide::Left <==> sampled == FacadeSide::Left
}

/// Coordinates are those of a point.
pub open spec fn same_point(drawn: [Single; 3], sampled: crate::types::Vec3) -> bool {
    drawn[0] == sampled.x && drawn[1] == sampled.y && drawn[2] == sampled.z
}

/// The building stands as it was sampled: with its footprint, its walls and its ground.
pub proof fn buildings_keep_their_dimensions(sampled: &SampledScene)
    ensures
        described(sampled).footprint_width_m == sampled.building.footprint_width_m,
        described(sampled).footprint_depth_m == sampled.building.footprint_depth_m,
        described(sampled).wall_height_m == sampled.building.wall_height_m,
        described(sampled).ground_half_extent_m == sampled.building.ground_half_extent_m,
        described(sampled).environment.seed == scene_seed(sampled),
        described(sampled).environment.cloud_cover == sampled.lighting.cloud_coverage,
        described(sampled).environment.haze == sampled.lighting.haze,
{
}

/// A sign is drawn as what it is: with the brand exactly where it is a branded one, as a
/// tenant's exactly where the building was rebranded, and as a ghost exactly where it was
/// taken down. It hangs on its facade where it was put, as large and as bright as it was
/// sampled, and lies along its wall: those at the sides of the building are turned by a
/// quarter, four of which are a full turn.
pub proof fn signs_are_drawn_as_what_they_are(sampled: &SampledScene, i: int)
    requires
        0 <= i < sampled.composition.signage@.len(),
    ensures
        ({
            let own = sampled.composition.signage@[i];
            let drawn = described(sampled).signs[i];
            &&& drawn.style == SignStyle::PizzaHut <==> own.kind == SignageKind::PizzaHut
            &&& drawn.style == SignStyle::Tenant <==> own.kind == SignageKind::RebrandedTenant
            &&& drawn.style == SignStyle::RemovedGhost <==> own.kind == SignageKind::RemovedGhost
            &&& drawn.mount == SignMount::Facade
            &&& same_point(drawn.center, own.center)
            &&& drawn.size == [own.size_m.x, own.size_m.y]
            &&& drawn.emissive_strength == own.emissive_strength
            &&& drawn.weathering == own.weathering
            &&& own.facade == FacadeSide::Front || own.facade == FacadeSide::Back
                ==> drawn.yaw_radians.value() == 0
            &&& own.facade == FacadeSide::Right || own.facade == FacadeSide::Left
                ==> 4 * drawn.yaw_radians.value() == tau().value()
            &&& tau().value() > 0
        }),
{
    let (quarter, full) = (quarter_turn(), tau());
    one_is_one();
    crate::single::lemma_split(quarter.code());
    crate::single::lemma_split(full.code());
    vstd::arithmetic::power2::lemma2_to64();
    vstd::arithmetic::power2::lemma_pow2_adds(2, 126);
    vstd::arithmetic::power2::lemma_pow2_pos(126);
    crate::single::lemma_magnitude(126, 0xc9_0fdb);
    crate::single::lemma_magnitude(128, 0xc9_0fdb);
    assert(quarter.value() == 0xc9_0fdb * pow2_of(126));
    assert(full.value() == 0xc9_0fdb * pow2_of(128));
}

spec fn pow2_of(e: nat) -> int {
    vstd::arithmetic::power2::pow2(e) as int
}

/// An addition is drawn as what it is, where and how large it was sampled.
pub proof fn additions_are_drawn_as_what_they_are(sampled: &SampledScene, i: int)
    requires
        0 <= i < sampled.composition.building_extensions@.len(),
    ensures
        ({
            let own = sampled.composition.building_extensions@[i];
            let drawn = described(sampled).building_extensions[i];
            &&& drawn.kind == crate::scene::BuildingExtensionKind::DiningWing <==> own.kind
                == BuildingExtensionKind::DiningWing
            &&& drawn.kind == crate::scene::BuildingExtensionKind::EntranceVestibule <==> own.kind
                == BuildingExtensionKind::EntranceVestibule
            &&& drawn.kind == crate::scene::BuildingExtensionKind::ServiceAnnex <==> own.kind
                == BuildingExtensionKind::ServiceAnnex
            &&& drawn.roof == crate::scene::BuildingExtensionRoof::Shed <==> own.roof
                == BuildingExtensionRoof::Shed
            &&& drawn.roof_rise_m == own.roof_rise_m
            &&& same_side(drawn.facade, own.facade)
            &&& same_point(drawn.position, own.position)
            &&& same_point(drawn.size, own.size_m)
        }),
{
}

/// A neighbour is drawn as what it is, where and how large it was sampled and in its own
/// material. Its walls are treated as the name of the material says, brick before cladding,
/// and have windows unless it is a shed.
pub proof fn neighbours_are_drawn_as_what_they_are(sampled: &SampledScene, i: int)
    requires
        0 <= i < sampled.composition.background_buildings@.len(),
    ensures
        ({
            let own = sampled.composition.background_buildings@[i];
            let drawn = described(sampled).background_buildings[i];
            let shed = own.kind == crate::composition::BackgroundBuildingKind::IndustrialShed;
            let brick = crate::text::occurs(own.material.id@, "brick"@);
            let clad = !brick && (crate::text::occurs(own.material.id@, "cladding"@)
                || crate::text::occurs(own.material.id@, "repaint"@));
            let pattern = drawn.surface_pattern;
            &&& same_point(drawn.center, own.position)
            &&& same_point(drawn.size, own.size_m)
            &&& drawn.kind == crate::scene::BackgroundBuildingKind::LowCommercial <==> own.kind
                == crate::composition::BackgroundBuildingKind::LowCommercial
            &&& drawn.kind == crate::scene::BackgroundBuildingKind::MidriseMixedUse <==> own.kind
                == crate::composition::BackgroundBuildingKind::MidriseMixedUse
            &&& drawn.kind == crate::scene::BackgroundBuildingKind::Residential <==> own.kind
                == crate::composition::BackgroundBuildingKind::Residential
            &&& drawn.kind == crate::scene::BackgroundBuildingKind::IndustrialShed <==> shed
            &&& drawn.base_color_srgb == own.material.base_color_srgb
            &&& drawn.roughness == own.material.roughness
            &&& drawn.weathering == own.material.weathering
            &&& pattern == crate::surface::SurfacePattern::brick() <==> brick && shed
            &&& pattern == crate::surface::SurfacePattern::background_windows_brick() <==> brick
                && !shed
            &&& pattern == crate::surface::SurfacePattern::vertical_cladding() <==> clad && shed
            &&& pattern == crate::surface::SurfacePattern::background_windows_cladding() <==> clad
                && !shed
            &&& pattern == crate::surface::SurfacePattern::background_windows() <==> !brick
                && !clad && !shed
            &&& pattern == crate::surface::SurfacePattern::smooth() <==> !brick && !clad && shed
        }),
{
}

/// A plant is drawn as what it is, where and how large it was sampled.
pub proof fn plants_are_drawn_as_what_they_are(sampled: &SampledScene, i: int)
    requires
        0 <= i < sampled.composition.vegetation@.len(),
    ensures
        ({
            let own = sampled.composition.vegetation@[i];
            let drawn = described(sampled).trees[i];
            &&& drawn.kind == TreeKind::Deciduous <==> own.kind == VegetationKind::DeciduousTree
            &&& drawn.kind == TreeKind::Evergreen <==> own.kind == VegetationKind::EvergreenTree
            &&& drawn.kind == TreeKind::Palm <==> own.kind == VegetationKind::Palm
            &&& drawn.kind == TreeKind::Shrub <==> own.kind == VegetationKind::Shrub
            &&& same_point(drawn.position, own.position)
            &&& drawn.height_m == own.height_m
            &&& drawn.crown_radius_m == own.canopy_radius_m
            &&& drawn.seasonal_variation == own.seasonal_variation
        }),
{
}

/// An object in the way is drawn as what it is, where and how large it was sampled.
pub proof fn occluders_are_drawn_as_what_they_are(sampled: &SampledScene, i: int)
    requires
        0 <= i < sampled.occluders@.len(),
    ensures
        ({
            let own = sampled.occluders@[i];
            let drawn = described(sampled).occluders[i];
            &&& drawn.kind == SceneOccluderKind::Vegetation <==> own.kind
                == OccluderKind::Vegetation
            &&& drawn.kind == SceneOccluderKind::Vehicle <==> own.kind == OccluderKind::Vehicle
            &&& drawn.kind == SceneOccluderKind::UtilityPole <==> own.kind == OccluderKind::Pole
            &&& drawn.kind == SceneOccluderKind::PoleSign <==> own.kind == OccluderKind::Sign
            &&& drawn.kind == SceneOccluderKind::Building <==> own.kind == OccluderKind::Building
            &&& drawn.kind == SceneOccluderKind::Pedestrian <==> own.kind
                == OccluderKind::Pedestrian
            &&& drawn.kind == SceneOccluderKind::Hvac <==> own.kind
                == OccluderKind::RooftopEquipment
            &&& same_point(drawn.position, own.position)
            &&& drawn.scale == own.scale
            &&& same_point(drawn.nominal_size_m, own.nominal_size_m)
        }),
{
}

/// Sampled infrastructure is built as it was sampled: its parking, its road, its curb and its
/// poles.
pub proof fn sites_are_built_as_sampled(sampled: &SampledScene, i: int)
    ensures
        sampled.composition.infrastructure matches Some(own) ==> {
            let site = described(sampled).site;
            &&& site.parking_bays == own.parking_bays
            &&& same_point(site.parking_center, own.parking_center)
            &&& site.parking_bay_size_m == [own.parking_bay_size_m.x, own.parking_bay_size_m.y]
            &&& site.road_lanes == own.road_lanes
            &&& site.lane_width_m == own.lane_width_m
            &&& site.road_center_z_m == own.road_center_z_m
            &&& site.raised_curb == own.raised_curb
            &&& site.road_kind == SiteRoadKind::LocalStreet <==> own.road_kind
                == RoadKind::LocalStreet
            &&& site.road_kind == SiteRoadKind::UrbanArterial <==> own.road_kind
                == RoadKind::UrbanArterial
            &&& site.road_kind == SiteRoadKind::HighwayFrontage <==> own.road_kind
                == RoadKind::HighwayFrontage
            &&& site.road_kind == SiteRoadKind::RuralRoad <==> own.road_kind
                == RoadKind::RuralRoad
            &&& 0 <= i < own.utility_poles@.len() ==> {
                &&& same_point(site.utility_poles[i].position, own.utility_poles@[i].position)
                &&& site.utility_poles[i].height_m == own.utility_poles@[i].height_m
                &&& site.utility_poles[i].has_light == own.utility_poles@[i].has_light
            }
        },
{
}

/// A cable hangs between the two poles that it names, over their feet and below their tops
/// but in the upper half of each, and sags as it was sampled.
pub proof fn cables_hang_between_their_poles(sampled: &SampledScene, i: int)
    requires
        sampled.composition.infrastructure is Some,
        0 <= i < sampled.composition.infrastructure->0.utility_lines@.len(),
    ensures
        ({
            let own = sampled.composition.infrastructure->0;
            let line = own.utility_lines@[i];
            let drawn = described(sampled).site.utility_lines[i];
            let (a, b) = (line.start_pole as int, line.end_pole as int);
            &&& drawn.sag_m == line.sag_m
            &&& a < own.utility_poles@.len() ==> fixed_to(drawn.start, own.utility_poles@[a])
            &&& b < own.utility_poles@.len() ==> fixed_to(drawn.end, own.utility_poles@[b])
        }),
{
    let own = sampled.composition.infrastructure->0;
    let line = own.utility_lines@[i];
    let (a, b) = (line.start_pole as int, line.end_pole as int);
    if a < own.utility_poles@.len() {
        lemma_fixed(own.utility_poles@[a]);
    }
    if b < own.utility_poles@.len() {
        lemma_fixed(own.utility_poles@[b]);
    }
}

/// A point is in the upper half of a pole, where that stands on the ground.
pub open spec fn fixed_to(
    point: [Single; 3],
    pole: crate::composition::SampledUtilityPole,
) -> bool {
    &&& point[0] == pole.position.x
    &&& point[2] == pole.position.z
    &&& pole.height_m.is_finite() && pole.height_m.value() > 0 && pole.position.y.is_finite()
        && pole.position.y.value() == 0 ==> {
        &&& point[1].is_finite()
        &&& point[1].value() <= pole.height_m.value()
        &&& pole.height_m.value() >= 4 ==> 2 * point[1].value() >= pole.height_m.value()
    }
}

proof fn lemma_fixed(pole: crate::composition::SampledUtilityPole)
    ensures
        fixed_to(crate::scene_sampled::described_pole(pole).cable_point(), pole),
{
    let h = pole.height_m;
    let y = pole.position.y;
    if h.is_finite() && h.value() > 0 && y.is_finite() && y.value() == 0 {
        one_is_one();
        let share = Single::ratio(91, 100);
        let part = h.times(share);
        literals_round(91, 100);
        let u = unit();
        bounded_results_are_finite(share, 91 * u, 100, Single::one());
        results_are_close(share, 91 * u, 100);
        lemma_unit_large();
        products_round(h, share);
        let (a, s) = (h.value(), share.value());
        assert(0 <= a * s <= a * u) by (nonlinear_arith)
            requires
                0 <= s <= u,
                0 <= a,
        ;
        bounded_results_are_finite(part, a * s, u, h);
        results_are_close(part, a * s, u);
        neutral_operands(part, y);
        if a >= 4 {
            let p = part.value();
            assert(10 * s >= 9 * u);
            assert(10 * (a * s) >= 9 * (a * u)) by (nonlinear_arith)
                requires
                    10 * s >= 9 * u,
                    a >= 0,
            ;
            assert(p * u * 0x100_0000 >= a * s * 0xff_ffff - 0x80_0000 * u);
            assert(2 * p >= a) by (nonlinear_arith)
                requires
                    p * u * 0x100_0000 >= a * s * 0xff_ffff - 0x80_0000 * u,
                    10 * (a * s) >= 9 * (a * u),
                    a >= 4,
                    u > 0,
            {
                if 2 * p < a {
                    assert(2 * (p * u) <= (a - 1) * u);
                    assert(a * u >= 4 * u);
                }
            }
        }
    }
}

pub(crate) proof fn lemma_unit_large()
    ensures
        unit() >= 0x1_0000_0000_0000_0000,
{
    vstd::arithmetic::power2::lemma2_to64();
    vstd::arithmetic::power2::lemma_pow2_adds(64, 85);
    vstd::arithmetic::power2::lemma_pow2_pos(85);
    let p = vstd::arithmetic::power2::pow2(85) as int;
    assert(0x1_0000_0000_0000_0000 * p >= 0x1_0000_0000_0000_0000) by (nonlinear_arith)
        requires
            p >= 1,
    ;
}

/// A sampled environment decides the sky: its domain, its time of day and its weather are
/// those that were sampled, and so are visibility, colour, shadows and wetness.
pub proof fn skies_are_drawn_as_sampled(sampled: &SampledScene)
    ensures
        sampled.composition.environment matches Some(own) ==> {
            let drawn = described(sampled).environment;
            &&& drawn.domain == EnvironmentDomain::City <==> own.domain == SceneDomain::City
            &&& drawn.domain == EnvironmentDomain::Remote <==> own.domain == SceneDomain::Remote
            &&& drawn.time_of_day == TimeOfDay::Day <==> own.day_phase == DayPhase::Day
            &&& drawn.time_of_day == TimeOfDay::Twilight <==> own.day_phase == DayPhase::Twilight
            &&& drawn.time_of_day == TimeOfDay::Night <==> own.day_phase == DayPhase::Night
            &&& drawn.weather == WeatherAppearance::Clear <==> own.weather == WeatherPreset::Clear
            &&& drawn.weather == WeatherAppearance::PartlyCloudy <==> own.weather
                == WeatherPreset::PartlyCloudy
            &&& drawn.weather == WeatherAppearance::Overcast <==> own.weather
                == WeatherPreset::Overcast
            &&& drawn.weather == WeatherAppearance::Hazy <==> own.weather == WeatherPreset::Hazy
            &&& drawn.weather == WeatherAppearance::AfterRain <==> own.weather
                == WeatherPreset::AfterRain
            &&& drawn.visibility_km == own.visibility_km
            &&& drawn.color_temperature_kelvin == own.color_temperature_k
            &&& drawn.shadow_softness == own.shadow_softness
            &&& drawn.ground_wetness == own.ground_wetness
        },
{
}

/// Without a sampled environment the sun decides the time of day: above ten degrees it is
/// day, from eight below the horizon down it is night, and between them twilight.
pub proof fn the_sun_decides_the_time(elevation: Single)
    requires
        elevation.is_finite(),
    ensures
        time_from_sun_elevation(elevation) == TimeOfDay::Day <==> elevation.value() > 10 * unit(),
        time_from_sun_elevation(elevation) == TimeOfDay::Night <==> elevation.value() <= -8
            * unit(),
        time_from_sun_elevation(elevation) == TimeOfDay::Twilight <==> -8 * unit()
            < elevation.value() <= 10 * unit(),
{
    one_is_one();
    whole_literals(10);
    whole_literals((-8) as i32);
    order_is_value_order(Single::ratio(10, 1), elevation);
    order_is_value_order(Single::ratio((-8) as i32, 1), elevation);
}

/// Where no environment was sampled the sun, and nothing else, sets the time of day, the
/// domain is urban, and the scene is dry and of neutral colour.
pub proof fn scenes_without_environment(sampled: &SampledScene)
    requires
        sampled.composition.environment is None,
    ensures
        ({
            let drawn = described(sampled).environment;
            &&& drawn.time_of_day == time_from_sun_elevation(
                sampled.lighting.sun_elevation_degrees,
            )
            &&& drawn.domain == EnvironmentDomain::Urban
            &&& drawn.weather == WeatherAppearance::PartlyCloudy
            &&& drawn.ground_wetness.value() == 0
            &&& drawn.exposure_ev.value() == 0
            &&& drawn.color_temperature_kelvin.value() == 6500 * unit()
        }),
{
    one_is_one();
    whole_literals(6500);
}

/// Maps are brighter by day than at twilight and darkest at night, and at night the darker
/// the more city there is.
pub proof fn nights_are_darker(domain: EnvironmentDomain, other: EnvironmentDomain)
    ensures
        map_exposure(TimeOfDay::Twilight, domain).less(map_exposure(TimeOfDay::Day, other)),
        map_exposure(TimeOfDay::Night, domain).less(map_exposure(TimeOfDay::Twilight, other)),
        map_exposure(TimeOfDay::Night, EnvironmentDomain::City).less(
            map_exposure(TimeOfDay::Night, EnvironmentDomain::Urban),
        ),
        map_exposure(TimeOfDay::Night, EnvironmentDomain::Urban).less(
            map_exposure(TimeOfDay::Night, EnvironmentDomain::Remote),
        ),
        map_exposure(TimeOfDay::Day, domain) == map_exposure(TimeOfDay::Day, other),
        Single::zero().less(map_exposure(TimeOfDay::Night, domain)),
        map_exposure(TimeOfDay::Day, domain).less(Single::one()),
{
    broadcast use crate::bounds::group_literals;

    crate::bounds::literals_of_whole_numbers(1, 1);
    crate::bounds::ratios_stay_apart(6, 10, 9, 10);
    crate::bounds::ratios_stay_apart(24, 100, 6, 10);
    crate::bounds::ratios_stay_apart(32, 100, 6, 10);
    crate::bounds::ratios_stay_apart(52, 100, 6, 10);
    crate::bounds::ratios_stay_apart(24, 100, 32, 100);
    crate::bounds::ratios_stay_apart(32, 100, 52, 100);
    crate::bounds::ratios_stay_apart(0, 1, 24, 100);
    crate::bounds::ratios_stay_apart(0, 1, 32, 100);
    crate::bounds::ratios_stay_apart(0, 1, 52, 100);
    crate::bounds::ratios_stay_apart(9, 10, 1, 1);
}

} // verus!
