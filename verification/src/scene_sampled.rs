//! Visible scenes for sampled ones.

use crate::composition::{
    DayPhase, FacadeSide, SampledBackgroundBuilding, SampledBuildingExtension, SampledEnvironment,
    SampledFacade, SampledSignage, SampledSiteInfrastructure, SampledUtilityLine,
    SampledUtilityPole, SampledVegetation, SceneDomain, WeatherPreset,
};
use crate::config::OccluderKind;
use crate::plan::{SampledBuilding, SampledLighting, SampledOccluder, SampledScene};
use crate::render_error::RenderError;
use crate::sample_camera::radians;
use crate::sample_site::tau;
use crate::scene::{
    BackgroundBuilding, BackgroundBuildingKind, BuildingExtensionDescription,
    BuildingExtensionKind, BuildingExtensionRoof, BuildingSide, EnvironmentDomain,
    FacadeDescription, RenderEnvironment, SceneDescription, SceneLight, SceneModel, SceneOccluder,
    SceneOccluderKind, SignDescription, SignMount, SignStyle, SiteInfrastructure, SiteModel,
    SiteRoadKind, TimeOfDay, TreeInstance, TreeKind, UtilityLineDescription,
    UtilityPoleDescription, WeatherAppearance, MAX_LIGHTS,
};
use crate::scene_context::bare_scene;
use crate::single::Single;
use crate::surface::SurfacePattern;
use crate::text::contains;
use crate::types::Vec3;
use vstd::prelude::*;

verus! {

/// The coordinates of a point.
pub open spec fn spec_vec3_array(value: Vec3) -> [Single; 3] {
    [value.x, value.y, value.z]
}

/// The coordinates of a point.
#[verifier::when_used_as_spec(spec_vec3_array)]
pub fn vec3_array(value: Vec3) -> (r: [Single; 3])
    ensures
        r == spec_vec3_array(value),
{
    [value.x, value.y, value.z]
}

/// The density of a sampled domain.
pub open spec fn spec_map_domain(domain: SceneDomain) -> EnvironmentDomain {
    match domain {
        SceneDomain::City => EnvironmentDomain::City,
        SceneDomain::Urban => EnvironmentDomain::Urban,
        SceneDomain::Suburban => EnvironmentDomain::Urban,
        SceneDomain::Roadside => EnvironmentDomain::Urban,
        SceneDomain::Remote => EnvironmentDomain::Remote,
    }
}

/// The density of a sampled domain.
#[verifier::when_used_as_spec(spec_map_domain)]
pub fn map_domain(domain: SceneDomain) -> (r: EnvironmentDomain)
    ensures
        r == spec_map_domain(domain),
{
    match domain {
        SceneDomain::City => EnvironmentDomain::City,
        SceneDomain::Urban => EnvironmentDomain::Urban,
        SceneDomain::Suburban => EnvironmentDomain::Urban,
        SceneDomain::Roadside => EnvironmentDomain::Urban,
        SceneDomain::Remote => EnvironmentDomain::Remote,
    }
}

/// The lighting period of a sampled phase.
pub open spec fn spec_map_day_phase(phase: DayPhase) -> TimeOfDay {
    match phase {
        DayPhase::Day => TimeOfDay::Day,
        DayPhase::Twilight => TimeOfDay::Twilight,
        DayPhase::Night => TimeOfDay::Night,
    }
}

/// The lighting period of a sampled phase.
#[verifier::when_used_as_spec(spec_map_day_phase)]
pub fn map_day_phase(phase: DayPhase) -> (r: TimeOfDay)
    ensures
        r == spec_map_day_phase(phase),
{
    match phase {
        DayPhase::Day => TimeOfDay::Day,
        DayPhase::Twilight => TimeOfDay::Twilight,
        DayPhase::Night => TimeOfDay::Night,
    }
}

/// The appearance of a sampled weather.
pub open spec fn spec_map_weather(weather: WeatherPreset) -> WeatherAppearance {
    match weather {
        WeatherPreset::Clear => WeatherAppearance::Clear,
        WeatherPreset::PartlyCloudy => WeatherAppearance::PartlyCloudy,
        WeatherPreset::Overcast => WeatherAppearance::Overcast,
        WeatherPreset::Hazy => WeatherAppearance::Hazy,
        WeatherPreset::AfterRain => WeatherAppearance::AfterRain,
    }
}

/// The appearance of a sampled weather.
#[verifier::when_used_as_spec(spec_map_weather)]
pub fn map_weather(weather: WeatherPreset) -> (r: WeatherAppearance)
    ensures
        r == spec_map_weather(weather),
{
    match weather {
        WeatherPreset::Clear => WeatherAppearance::Clear,
        WeatherPreset::PartlyCloudy => WeatherAppearance::PartlyCloudy,
        WeatherPreset::Overcast => WeatherAppearance::Overcast,
        WeatherPreset::Hazy => WeatherAppearance::Hazy,
        WeatherPreset::AfterRain => WeatherAppearance::AfterRain,
    }
}

/// The wall of a sampled side.
pub open spec fn spec_map_facade_side(side: FacadeSide) -> BuildingSide {
    match side {
        FacadeSide::Front => BuildingSide::Front,
        FacadeSide::Right => BuildingSide::Right,
        FacadeSide::Back => BuildingSide::Back,
        FacadeSide::Left => BuildingSide::Left,
    }
}

/// The wall of a sampled side.
#[verifier::when_used_as_spec(spec_map_facade_side)]
pub fn map_facade_side(side: FacadeSide) -> (r: BuildingSide)
    ensures
        r == spec_map_facade_side(side),
{
    match side {
        FacadeSide::Front => BuildingSide::Front,
        FacadeSide::Right => BuildingSide::Right,
        FacadeSide::Back => BuildingSide::Back,
        FacadeSide::Left => BuildingSide::Left,
    }
}

/// The lighting period at an elevation of the sun.
pub open spec fn spec_time_from_sun_elevation(elevation_degrees: Single) -> TimeOfDay {
    if Single::ratio(10, 1).less(elevation_degrees) {
        TimeOfDay::Day
    } else if Single::ratio((-8) as i32, 1).less(elevation_degrees) {
        TimeOfDay::Twilight
    } else {
        TimeOfDay::Night
    }
}

/// The lighting period at an elevation of the sun.
#[verifier::when_used_as_spec(spec_time_from_sun_elevation)]
pub fn time_from_sun_elevation(elevation_degrees: Single) -> (r: TimeOfDay)
    ensures
        r == spec_time_from_sun_elevation(elevation_degrees),
{
    if Single::ratio(10, 1).less(elevation_degrees) {
        TimeOfDay::Day
    } else if Single::ratio((-8) as i32, 1).less(elevation_degrees) {
        TimeOfDay::Twilight
    } else {
        TimeOfDay::Night
    }
}

/// The wall treatment that the name of a material asks for.
pub open spec fn wall_pattern(
    material_id: Seq<char>,
    kind: crate::composition::BackgroundBuildingKind,
) -> SurfacePattern {
    let windowed = kind != crate::composition::BackgroundBuildingKind::IndustrialShed;
    if crate::text::occurs(material_id, "brick"@) {
        if windowed {
            SurfacePattern::background_windows_brick()
        } else {
            SurfacePattern::brick()
        }
    } else if crate::text::occurs(material_id, "cladding"@) || crate::text::occurs(
        material_id,
        "repaint"@,
    ) {
        if windowed {
            SurfacePattern::background_windows_cladding()
        } else {
            SurfacePattern::vertical_cladding()
        }
    } else if windowed {
        SurfacePattern::background_windows()
    } else {
        SurfacePattern::smooth()
    }
}

/// The wall treatment that the name of a material asks for.
pub fn background_surface_pattern(
    material_id: &str,
    kind: crate::composition::BackgroundBuildingKind,
) -> (r: SurfacePattern)
    ensures
        r == wall_pattern(material_id@, kind),
{
    let windowed = kind != crate::composition::BackgroundBuildingKind::IndustrialShed;
    if contains(material_id, "brick") {
        if windowed {
            SurfacePattern::background_windows_brick()
        } else {
            SurfacePattern::brick()
        }
    } else if contains(material_id, "cladding") || contains(material_id, "repaint") {
        if windowed {
            SurfacePattern::background_windows_cladding()
        } else {
            SurfacePattern::vertical_cladding()
        }
    } else if windowed {
        SurfacePattern::background_windows()
    } else {
        SurfacePattern::smooth()
    }
}

/// Start of the hash of a scene.
pub const SEED_BASIS: u32 = 2_166_136_261;

/// Factor of the hash of a scene.
pub const SEED_PRIME: u32 = 16_777_619;

/// A hash after it has taken in bytes.
pub open spec fn mixed(hash: u32, bytes: Seq<u8>) -> u32
    decreases bytes.len(),
{
    if bytes.len() == 0 {
        hash
    } else {
        (mixed(hash, bytes.drop_last()) ^ (bytes.last() as u32)).wrapping_mul(SEED_PRIME)
    }
}

fn mix(hash: u32, bytes: &[u8]) -> (r: u32)
    ensures
        r == mixed(hash, bytes@),
{
    let mut state: u32 = hash;
    let mut i: usize = 0;
    while i < bytes.len()
        invariant
            i <= bytes@.len(),
            state == mixed(hash, bytes@.take(i as int)),
        decreases bytes@.len() - i,
    {
        proof {
            assert(bytes@.take(i + 1).drop_last() =~= bytes@.take(i as int));
        }
        state = (state ^ (bytes[i] as u32)).wrapping_mul(SEED_PRIME);
        i = i + 1;
    }
    assert(bytes@.take(i as int) =~= bytes@);
    state
}

proof fn lemma_mixed_concat(hash: u32, a: Seq<u8>, b: Seq<u8>)
    ensures
        mixed(hash, a + b) == mixed(mixed(hash, a), b),
    decreases b.len(),
{
    if b.len() == 0 {
        assert(a + b =~= a);
    } else {
        assert((a + b).drop_last() =~= a + b.drop_last());
        lemma_mixed_concat(hash, a, b.drop_last());
    }
}

/// The bytes that the seed of a scene is made from.
pub open spec fn seed_bytes(sampled: &SampledScene) -> Seq<u8> {
    crate::deterministic::bytes_of(sampled.roof_material.id@)
        + crate::deterministic::bytes_of(sampled.wall_material.id@)
        + vstd::bytes::spec_u32_to_le_bytes(sampled.building.footprint_width_m.bits)
        + vstd::bytes::spec_u32_to_le_bytes(sampled.building.footprint_depth_m.bits)
        + vstd::bytes::spec_u32_to_le_bytes(sampled.building.wall_height_m.bits)
        + vstd::bytes::spec_u32_to_le_bytes(sampled.roof.crown_top_width_m.bits)
        + vstd::bytes::spec_u32_to_le_bytes(sampled.roof.crown_top_depth_m.bits)
}

/// The seed of a scene, never zero.
pub open spec fn scene_seed(sampled: &SampledScene) -> u32 {
    let hash = mixed(SEED_BASIS, seed_bytes(sampled));
    if hash > 1 {
        hash
    } else {
        1
    }
}

fn mix_number(hash: u32, n: u32) -> (r: u32)
    ensures
        r == mixed(hash, vstd::bytes::spec_u32_to_le_bytes(n)),
{
    let bytes: Vec<u8> = vstd::bytes::u32_to_le_bytes(n);
    mix(hash, bytes.as_slice())
}

/// Hashes the materials and dimensions of a scene to its seed.
pub fn sampled_scene_seed(sampled: &SampledScene) -> (r: u32)
    ensures
        r == scene_seed(sampled),
        r > 0,
{
    let a: u32 = mix(SEED_BASIS, sampled.roof_material.id.as_str().as_bytes());
    let b: u32 = mix(a, sampled.wall_material.id.as_str().as_bytes());
    let c: u32 = mix_number(b, sampled.building.footprint_width_m.to_bits());
    let d: u32 = mix_number(c, sampled.building.footprint_depth_m.to_bits());
    let e: u32 = mix_number(d, sampled.building.wall_height_m.to_bits());
    let f: u32 = mix_number(e, sampled.roof.crown_top_width_m.to_bits());
    let hash: u32 = mix_number(f, sampled.roof.crown_top_depth_m.to_bits());
    proof {
        let roof = crate::deterministic::bytes_of(sampled.roof_material.id@);
        let wall = crate::deterministic::bytes_of(sampled.wall_material.id@);
        let p1 = vstd::bytes::spec_u32_to_le_bytes(sampled.building.footprint_width_m.bits);
        let p2 = vstd::bytes::spec_u32_to_le_bytes(sampled.building.footprint_depth_m.bits);
        let p3 = vstd::bytes::spec_u32_to_le_bytes(sampled.building.wall_height_m.bits);
        let p4 = vstd::bytes::spec_u32_to_le_bytes(sampled.roof.crown_top_width_m.bits);
        let p5 = vstd::bytes::spec_u32_to_le_bytes(sampled.roof.crown_top_depth_m.bits);
        lemma_mixed_concat(SEED_BASIS, roof, wall);
        lemma_mixed_concat(SEED_BASIS, roof + wall, p1);
        lemma_mixed_concat(SEED_BASIS, roof + wall + p1, p2);
        lemma_mixed_concat(SEED_BASIS, roof + wall + p1 + p2, p3);
        lemma_mixed_concat(SEED_BASIS, roof + wall + p1 + p2 + p3, p4);
        lemma_mixed_concat(SEED_BASIS, roof + wall + p1 + p2 + p3 + p4, p5);
    }
    if hash > 1 {
        hash
    } else {
        1
    }
}

/// The environment rotation of a seed.
pub open spec fn spec_seed_to_yaw(seed: u32) -> Single {
    Single::from_u32(seed).over(Single::from_u32(4294967295)).times(tau())
}

/// The environment rotation of a seed.
#[verifier::when_used_as_spec(spec_seed_to_yaw)]
pub fn seed_to_yaw(seed: u32) -> (r: Single)
    ensures
        r == spec_seed_to_yaw(seed),
{
    Single::from_u32(seed).over(Single::from_u32(4294967295)).times(tau())
}

/// How bright an environment map is at a time of day in a domain.
pub open spec fn spec_map_exposure(time: TimeOfDay, domain: EnvironmentDomain) -> Single {
    match time {
        TimeOfDay::Day => Single::ratio(9, 10),
        TimeOfDay::Twilight => Single::ratio(6, 10),
        TimeOfDay::Night => match domain {
            EnvironmentDomain::City => Single::ratio(24, 100),
            EnvironmentDomain::Urban => Single::ratio(32, 100),
            EnvironmentDomain::Remote => Single::ratio(52, 100),
        },
    }
}

/// How bright an environment map is at a time of day in a domain.
#[verifier::when_used_as_spec(spec_map_exposure)]
pub fn map_exposure(time: TimeOfDay, domain: EnvironmentDomain) -> (r: Single)
    ensures
        r == spec_map_exposure(time, domain),
{
    match time {
        TimeOfDay::Day => Single::ratio(9, 10),
        TimeOfDay::Twilight => Single::ratio(6, 10),
        TimeOfDay::Night => match domain {
            EnvironmentDomain::City => Single::ratio(24, 100),
            EnvironmentDomain::Urban => Single::ratio(32, 100),
            EnvironmentDomain::Remote => Single::ratio(52, 100),
        },
    }
}

/// The environment controls of a sampled scene.
pub open spec fn spec_sampled_environment(
    environment: Option<SampledEnvironment>,
    lighting: SampledLighting,
    seed: u32,
) -> RenderEnvironment {
    let domain = match environment {
        Some(sampled) => map_domain(sampled.domain),
        None => EnvironmentDomain::Urban,
    };
    let time_of_day = match environment {
        Some(sampled) => map_day_phase(sampled.day_phase),
        None => time_from_sun_elevation(lighting.sun_elevation_degrees),
    };
    RenderEnvironment {
        domain,
        time_of_day,
        cloud_cover: lighting.cloud_coverage,
        haze: lighting.haze,
        visibility_km: match environment {
            Some(sampled) => sampled.visibility_km,
            None => Single::ratio(60, 1).times(Single::one().minus(lighting.haze)).max(
                Single::ratio(2, 1),
            ),
        },
        weather: match environment {
            Some(sampled) => map_weather(sampled.weather),
            None => WeatherAppearance::PartlyCloudy,
        },
        environment_exposure: map_exposure(time_of_day, domain),
        exposure_ev: match environment {
            Some(sampled) => Single::ratio(10, 1).minus(sampled.camera_exposure_ev100).times(
                Single::ratio(8, 100),
            ).clamp(Single::ratio((-65) as i32, 100), Single::ratio(65, 100)),
            None => Single::zero(),
        },
        color_temperature_kelvin: match environment {
            Some(sampled) => sampled.color_temperature_k,
            None => Single::ratio(6500, 1),
        },
        shadow_softness: match environment {
            Some(sampled) => sampled.shadow_softness,
            None => Single::ratio(25, 100),
        },
        ground_wetness: match environment {
            Some(sampled) => sampled.ground_wetness,
            None => Single::zero(),
        },
        seed,
        environment_yaw_radians: seed_to_yaw(seed),
    }
}

/// The environment controls of a sampled scene.
#[verifier::when_used_as_spec(spec_sampled_environment)]
pub fn sampled_environment(
    environment: Option<SampledEnvironment>,
    lighting: SampledLighting,
    seed: u32,
) -> (r: RenderEnvironment)
    ensures
        r == spec_sampled_environment(environment, lighting, seed),
{
    let domain = match environment {
        Some(sampled) => map_domain(sampled.domain),
        None => EnvironmentDomain::Urban,
    };
    let time_of_day = match environment {
        Some(sampled) => map_day_phase(sampled.day_phase),
        None => time_from_sun_elevation(lighting.sun_elevation_degrees),
    };
    RenderEnvironment {
        domain,
        time_of_day,
        cloud_cover: lighting.cloud_coverage,
        haze: lighting.haze,
        visibility_km: match environment {
            Some(sampled) => sampled.visibility_km,
            None => Single::ratio(60, 1).times(Single::one().minus(lighting.haze)).max(
                Single::ratio(2, 1),
            ),
        },
        weather: match environment {
            Some(sampled) => map_weather(sampled.weather),
            None => WeatherAppearance::PartlyCloudy,
        },
        environment_exposure: map_exposure(time_of_day, domain),
        exposure_ev: match environment {
            Some(sampled) => Single::ratio(10, 1).minus(sampled.camera_exposure_ev100).times(
                Single::ratio(8, 100),
            ).clamp(Single::ratio((-65) as i32, 100), Single::ratio(65, 100)),
            None => Single::zero(),
        },
        color_temperature_kelvin: match environment {
            Some(sampled) => sampled.color_temperature_k,
            None => Single::ratio(6500, 1),
        },
        shadow_softness: match environment {
            Some(sampled) => sampled.shadow_softness,
            None => Single::ratio(25, 100),
        },
        ground_wetness: match environment {
            Some(sampled) => sampled.ground_wetness,
            None => Single::zero(),
        },
        seed,
        environment_yaw_radians: seed_to_yaw(seed),
    }
}

/// How much glass a facade has beside the usual share.
pub open spec fn spec_glazing_scale(glazing_fraction: Single) -> Single {
    glazing_fraction.over(Single::ratio(25, 100)).clamp(
        Single::ratio(45, 100),
        Single::ratio(18, 10),
    )
}

/// How much glass a facade has beside the usual share.
#[verifier::when_used_as_spec(spec_glazing_scale)]
pub fn glazing_scale(glazing_fraction: Single) -> (r: Single)
    ensures
        r == spec_glazing_scale(glazing_fraction),
{
    glazing_fraction.over(Single::ratio(25, 100)).clamp(
        Single::ratio(45, 100),
        Single::ratio(18, 10),
    )
}

/// Windows along a side of a length, no more than a limit.
pub open spec fn spec_window_count(length: Single, scale: Single, limit: Single) -> u32 {
    length.over(Single::ratio(25, 10)).times(scale).round().clamp(Single::one(), limit).to_u32()
}

/// Windows along a side of a length, no more than a limit.
#[verifier::when_used_as_spec(spec_window_count)]
pub fn window_count(length: Single, scale: Single, limit: Single) -> (r: u32)
    ensures
        r == spec_window_count(length, scale, limit),
{
    length.over(Single::ratio(25, 10)).times(scale).round().clamp(Single::one(), limit).to_u32()
}

/// Whether a window band of a metre or more fits the walls of a building.
pub open spec fn spec_windows_fit(building: SampledBuilding) -> bool {
    Single::one().at_most(building.wall_height_m.times(Single::ratio(58, 100)))
}

/// Whether a window band of a metre or more fits the walls of a building.
#[verifier::when_used_as_spec(spec_windows_fit)]
pub fn windows_fit(building: SampledBuilding) -> (r: bool)
    ensures
        r == spec_windows_fit(building),
{
    Single::one().at_most(building.wall_height_m.times(Single::ratio(58, 100)))
}

/// The facade of a sampled one.
pub open spec fn described_facade(
    facade: &SampledFacade,
    building: SampledBuilding,
) -> FacadeDescription {
    facade_from(
        facade.glazing_fraction,
        facade.glazing_material.base_color_srgb,
        facade.glazing_material.roughness,
        facade.glazing_material.weathering,
        facade.entrance_side,
        facade.entrance_width_m,
        facade.weathering,
        building,
    )
}

fn describe_facade(facade: &SampledFacade, building: SampledBuilding) -> (r: FacadeDescription)
    ensures
        r == described_facade(facade, building),
{
    facade_from(
        facade.glazing_fraction,
        facade.glazing_material.base_color_srgb,
        facade.glazing_material.roughness,
        facade.glazing_material.weathering,
        facade.entrance_side,
        facade.entrance_width_m,
        facade.weathering,
        building,
    )
}

/// A facade with the given glazing and entrance on the walls of a building.
pub open spec fn spec_facade_from(
    glazing_fraction: Single,
    glazing_color_srgb: [Single; 3],
    glazing_roughness: Single,
    glazing_weathering: Single,
    entrance_side: FacadeSide,
    entrance_width_m: Single,
    weathering: Single,
    building: SampledBuilding,
) -> FacadeDescription {
    let scale = glazing_scale(glazing_fraction);
    let wall_height = building.wall_height_m;
    FacadeDescription {
        window_sill_height_m: wall_height.times(Single::ratio(18, 100)).clamp(
            Single::ratio(55, 100),
            Single::ratio(9, 10),
        ),
        window_height_m: wall_height.times(glazing_fraction).times(Single::ratio(135, 100)).clamp(
            Single::one(),
            wall_height.times(Single::ratio(58, 100)),
        ),
        long_side_window_count: window_count(
            building.footprint_width_m,
            scale,
            Single::ratio(18, 1),
        ),
        short_side_window_count: window_count(
            building.footprint_depth_m,
            scale,
            Single::ratio(14, 1),
        ),
        entrance_width_m,
        entrance_height_m: Single::ratio(225, 100).min(wall_height.minus(Single::ratio(35, 100))),
        entrance_canopy: true,
        entrance_side: map_facade_side(entrance_side),
        weathering,
        glazing_color_srgb,
        glazing_roughness,
        glazing_weathering,
    }
}

/// A facade with the given glazing and entrance on the walls of a building.
#[verifier::when_used_as_spec(spec_facade_from)]
pub fn facade_from(
    glazing_fraction: Single,
    glazing_color_srgb: [Single; 3],
    glazing_roughness: Single,
    glazing_weathering: Single,
    entrance_side: FacadeSide,
    entrance_width_m: Single,
    weathering: Single,
    building: SampledBuilding,
) -> (r: FacadeDescription)
    ensures
        r == spec_facade_from(
            glazing_fraction,
            glazing_color_srgb,
            glazing_roughness,
            glazing_weathering,
            entrance_side,
            entrance_width_m,
            weathering,
            building,
        ),
{
    let scale = glazing_scale(glazing_fraction);
    let wall_height = building.wall_height_m;
    FacadeDescription {
        window_sill_height_m: wall_height.times(Single::ratio(18, 100)).clamp(
            Single::ratio(55, 100),
            Single::ratio(9, 10),
        ),
        window_height_m: wall_height.times(glazing_fraction).times(Single::ratio(135, 100)).clamp(
            Single::one(),
            wall_height.times(Single::ratio(58, 100)),
        ),
        long_side_window_count: window_count(
            building.footprint_width_m,
            scale,
            Single::ratio(18, 1),
        ),
        short_side_window_count: window_count(
            building.footprint_depth_m,
            scale,
            Single::ratio(14, 1),
        ),
        entrance_width_m,
        entrance_height_m: Single::ratio(225, 100).min(wall_height.minus(Single::ratio(35, 100))),
        entrance_canopy: true,
        entrance_side: map_facade_side(entrance_side),
        weathering,
        glazing_color_srgb,
        glazing_roughness,
        glazing_weathering,
    }
}

/// The addition of a sampled one.
pub open spec fn spec_described_extension(
    extension: SampledBuildingExtension,
) -> BuildingExtensionDescription {
    BuildingExtensionDescription {
        kind: match extension.kind {
            crate::composition::BuildingExtensionKind::DiningWing => BuildingExtensionKind::DiningWing,
            crate::composition::BuildingExtensionKind::EntranceVestibule => BuildingExtensionKind::EntranceVestibule,
            crate::composition::BuildingExtensionKind::ServiceAnnex => BuildingExtensionKind::ServiceAnnex,
        },
        facade: map_facade_side(extension.facade),
        position: vec3_array(extension.position),
        size: vec3_array(extension.size_m),
        roof: match extension.roof {
            crate::composition::BuildingExtensionRoof::Flat => BuildingExtensionRoof::Flat,
            crate::composition::BuildingExtensionRoof::Shed => BuildingExtensionRoof::Shed,
        },
        roof_rise_m: extension.roof_rise_m,
    }
}

/// The addition of a sampled one.
#[verifier::when_used_as_spec(spec_described_extension)]
pub fn described_extension(
    extension: SampledBuildingExtension,
) -> (r: BuildingExtensionDescription)
    ensures
        r == spec_described_extension(extension),
{
    BuildingExtensionDescription {
        kind: match extension.kind {
            crate::composition::BuildingExtensionKind::DiningWing => BuildingExtensionKind::DiningWing,
            crate::composition::BuildingExtensionKind::EntranceVestibule => BuildingExtensionKind::EntranceVestibule,
            crate::composition::BuildingExtensionKind::ServiceAnnex => BuildingExtensionKind::ServiceAnnex,
        },
        facade: map_facade_side(extension.facade),
        position: vec3_array(extension.position),
        size: vec3_array(extension.size_m),
        roof: match extension.roof {
            crate::composition::BuildingExtensionRoof::Flat => BuildingExtensionRoof::Flat,
            crate::composition::BuildingExtensionRoof::Shed => BuildingExtensionRoof::Shed,
        },
        roof_rise_m: extension.roof_rise_m,
    }
}

/// A quarter turn in radians.
pub open spec fn spec_quarter_turn() -> Single {
    Single { bits: 0x3fc9_0fdb }
}

/// A quarter turn in radians.
#[verifier::when_used_as_spec(spec_quarter_turn)]
pub fn quarter_turn() -> (r: Single)
    ensures
        r == spec_quarter_turn(),
{
    Single { bits: 0x3fc9_0fdb }
}

/// The panel of a sampled sign.
pub open spec fn spec_described_sign(sign: &SampledSignage) -> SignDescription {
    SignDescription {
        style: match sign.kind {
            crate::composition::SignageKind::PizzaHut => SignStyle::PizzaHut,
            crate::composition::SignageKind::RemovedGhost => SignStyle::RemovedGhost,
            crate::composition::SignageKind::RebrandedTenant => SignStyle::Tenant,
        },
        mount: SignMount::Facade,
        center: vec3_array(sign.center),
        size: [sign.size_m.x, sign.size_m.y],
        yaw_radians: match sign.facade {
            FacadeSide::Front => Single::zero(),
            FacadeSide::Back => Single::zero(),
            FacadeSide::Right => quarter_turn(),
            FacadeSide::Left => quarter_turn(),
        },
        emissive_strength: sign.emissive_strength,
        weathering: sign.weathering,
    }
}

/// The panel of a sampled sign.
#[verifier::when_used_as_spec(spec_described_sign)]
pub fn described_sign(sign: &SampledSignage) -> (r: SignDescription)
    ensures
        r == spec_described_sign(sign),
{
    SignDescription {
        style: match sign.kind {
            crate::composition::SignageKind::PizzaHut => SignStyle::PizzaHut,
            crate::composition::SignageKind::RemovedGhost => SignStyle::RemovedGhost,
            crate::composition::SignageKind::RebrandedTenant => SignStyle::Tenant,
        },
        mount: SignMount::Facade,
        center: vec3_array(sign.center),
        size: [sign.size_m.x, sign.size_m.y],
        yaw_radians: match sign.facade {
            FacadeSide::Front => Single::zero(),
            FacadeSide::Back => Single::zero(),
            FacadeSide::Right => quarter_turn(),
            FacadeSide::Left => quarter_turn(),
        },
        emissive_strength: sign.emissive_strength,
        weathering: sign.weathering,
    }
}

/// The massing of a sampled kind of neighbour.
pub open spec fn spec_map_background_kind(
    kind: crate::composition::BackgroundBuildingKind,
) -> BackgroundBuildingKind {
    match kind {
        crate::composition::BackgroundBuildingKind::LowCommercial => BackgroundBuildingKind::LowCommercial,
        crate::composition::BackgroundBuildingKind::MidriseMixedUse => BackgroundBuildingKind::MidriseMixedUse,
        crate::composition::BackgroundBuildingKind::Residential => BackgroundBuildingKind::Residential,
        crate::composition::BackgroundBuildingKind::IndustrialShed => BackgroundBuildingKind::IndustrialShed,
    }
}

/// The massing of a sampled kind of neighbour.
#[verifier::when_used_as_spec(spec_map_background_kind)]
pub fn map_background_kind(
    kind: crate::composition::BackgroundBuildingKind,
) -> (r: BackgroundBuildingKind)
    ensures
        r == spec_map_background_kind(kind),
{
    match kind {
        crate::composition::BackgroundBuildingKind::LowCommercial => BackgroundBuildingKind::LowCommercial,
        crate::composition::BackgroundBuildingKind::MidriseMixedUse => BackgroundBuildingKind::MidriseMixedUse,
        crate::composition::BackgroundBuildingKind::Residential => BackgroundBuildingKind::Residential,
        crate::composition::BackgroundBuildingKind::IndustrialShed => BackgroundBuildingKind::IndustrialShed,
    }
}

/// The mass of a sampled neighbour.
pub open spec fn described_background(building: &SampledBackgroundBuilding) -> BackgroundBuilding {
    BackgroundBuilding {
        center: vec3_array(building.position),
        size: vec3_array(building.size_m),
        yaw_radians: radians(building.yaw_degrees),
        kind: map_background_kind(building.kind),
        base_color_srgb: building.material.base_color_srgb,
        weathering: building.material.weathering,
        roughness: building.material.roughness,
        surface_pattern: wall_pattern(building.material.id@, building.kind),
    }
}

fn describe_background(building: &SampledBackgroundBuilding) -> (r: BackgroundBuilding)
    ensures
        r == described_background(building),
{
    BackgroundBuilding {
        center: vec3_array(building.position),
        size: vec3_array(building.size_m),
        yaw_radians: radians(building.yaw_degrees),
        kind: map_background_kind(building.kind),
        base_color_srgb: building.material.base_color_srgb,
        weathering: building.material.weathering,
        roughness: building.material.roughness,
        surface_pattern: background_surface_pattern(
            building.material.id.as_str(),
            building.kind,
        ),
    }
}

/// The plant of a sampled one.
pub open spec fn spec_described_tree(vegetation: SampledVegetation) -> TreeInstance {
    TreeInstance {
        position: vec3_array(vegetation.position),
        height_m: vegetation.height_m,
        crown_radius_m: vegetation.canopy_radius_m,
        kind: match vegetation.kind {
            crate::composition::VegetationKind::DeciduousTree => TreeKind::Deciduous,
            crate::composition::VegetationKind::EvergreenTree => TreeKind::Evergreen,
            crate::composition::VegetationKind::Palm => TreeKind::Palm,
            crate::composition::VegetationKind::Shrub => TreeKind::Shrub,
        },
        yaw_radians: radians(vegetation.yaw_degrees),
        seasonal_variation: vegetation.seasonal_variation,
    }
}

/// The plant of a sampled one.
#[verifier::when_used_as_spec(spec_described_tree)]
pub fn described_tree(vegetation: SampledVegetation) -> (r: TreeInstance)
    ensures
        r == spec_described_tree(vegetation),
{
    TreeInstance {
        position: vec3_array(vegetation.position),
        height_m: vegetation.height_m,
        crown_radius_m: vegetation.canopy_radius_m,
        kind: match vegetation.kind {
            crate::composition::VegetationKind::DeciduousTree => TreeKind::Deciduous,
            crate::composition::VegetationKind::EvergreenTree => TreeKind::Evergreen,
            crate::composition::VegetationKind::Palm => TreeKind::Palm,
            crate::composition::VegetationKind::Shrub => TreeKind::Shrub,
        },
        yaw_radians: radians(vegetation.yaw_degrees),
        seasonal_variation: vegetation.seasonal_variation,
    }
}

/// The object of a sampled occluder.
pub open spec fn spec_described_occluder(occluder: SampledOccluder) -> SceneOccluder {
    SceneOccluder {
        kind: match occluder.kind {
            OccluderKind::Vegetation => SceneOccluderKind::Vegetation,
            OccluderKind::Vehicle => SceneOccluderKind::Vehicle,
            OccluderKind::Pole => SceneOccluderKind::UtilityPole,
            OccluderKind::Sign => SceneOccluderKind::PoleSign,
            OccluderKind::Building => SceneOccluderKind::Building,
            OccluderKind::Pedestrian => SceneOccluderKind::Pedestrian,
            OccluderKind::RooftopEquipment => SceneOccluderKind::Hvac,
        },
        position: vec3_array(occluder.position),
        yaw_radians: radians(occluder.yaw_degrees),
        scale: occluder.scale,
        nominal_size_m: vec3_array(occluder.nominal_size_m),
    }
}

/// The object of a sampled occluder.
#[verifier::when_used_as_spec(spec_described_occluder)]
pub fn described_occluder(occluder: SampledOccluder) -> (r: SceneOccluder)
    ensures
        r == spec_described_occluder(occluder),
{
    SceneOccluder {
        kind: match occluder.kind {
            OccluderKind::Vegetation => SceneOccluderKind::Vegetation,
            OccluderKind::Vehicle => SceneOccluderKind::Vehicle,
            OccluderKind::Pole => SceneOccluderKind::UtilityPole,
            OccluderKind::Sign => SceneOccluderKind::PoleSign,
            OccluderKind::Building => SceneOccluderKind::Building,
            OccluderKind::Pedestrian => SceneOccluderKind::Pedestrian,
            OccluderKind::RooftopEquipment => SceneOccluderKind::Hvac,
        },
        position: vec3_array(occluder.position),
        yaw_radians: radians(occluder.yaw_degrees),
        scale: occluder.scale,
        nominal_size_m: vec3_array(occluder.nominal_size_m),
    }
}

/// The pole of a sampled one.
pub open spec fn spec_described_pole(pole: SampledUtilityPole) -> UtilityPoleDescription {
    UtilityPoleDescription {
        position: vec3_array(pole.position),
        height_m: pole.height_m,
        has_light: pole.has_light,
    }
}

/// The pole of a sampled one.
#[verifier::when_used_as_spec(spec_described_pole)]
pub fn described_pole(pole: SampledUtilityPole) -> (r: UtilityPoleDescription)
    ensures
        r == spec_described_pole(pole),
{
    UtilityPoleDescription {
        position: vec3_array(pole.position),
        height_m: pole.height_m,
        has_light: pole.has_light,
    }
}

/// The descriptions of sampled ones, in order.
pub open spec fn described_extensions(
    items: Seq<SampledBuildingExtension>,
) -> Seq<BuildingExtensionDescription> {
    items.map_values(|item: SampledBuildingExtension| described_extension(item))
}

fn list_described_extensions(
    items: &Vec<SampledBuildingExtension>,
) -> (r: Vec<BuildingExtensionDescription>)
    ensures
        r@ == described_extensions(items@),
{
    let mut r: Vec<BuildingExtensionDescription> = Vec::new();
    let mut i: usize = 0;
    while i < items.len()
        invariant
            i <= items@.len(),
            r@.len() == i,
            forall|j: int| 0 <= j < i ==> #[trigger] r@[j] == described_extension(items@[j]),
        decreases items@.len() - i,
    {
        r.push(described_extension(items[i]));
        i = i + 1;
    }
    proof {
        assert(r@ =~= described_extensions(items@));
    }
    r
}

/// The descriptions of sampled ones, in order.
pub open spec fn described_signs(items: Seq<SampledSignage>) -> Seq<SignDescription> {
    items.map_values(|item: SampledSignage| described_sign(&item))
}

fn list_described_signs(items: &Vec<SampledSignage>) -> (r: Vec<SignDescription>)
    ensures
        r@ == described_signs(items@),
{
    let mut r: Vec<SignDescription> = Vec::new();
    let mut i: usize = 0;
    while i < items.len()
        invariant
            i <= items@.len(),
            r@.len() == i,
            forall|j: int| 0 <= j < i ==> #[trigger] r@[j] == described_sign(&items@[j]),
        decreases items@.len() - i,
    {
        r.push(described_sign(&items[i]));
        i = i + 1;
    }
    proof {
        assert(r@ =~= described_signs(items@));
    }
    r
}

/// The descriptions of sampled ones, in order.
pub open spec fn described_backgrounds(
    items: Seq<SampledBackgroundBuilding>,
) -> Seq<BackgroundBuilding> {
    items.map_values(|item: SampledBackgroundBuilding| described_background(&item))
}

fn list_described_backgrounds(
    items: &Vec<SampledBackgroundBuilding>,
) -> (r: Vec<BackgroundBuilding>)
    ensures
        r@ == described_backgrounds(items@),
{
    let mut r: Vec<BackgroundBuilding> = Vec::new();
    let mut i: usize = 0;
    while i < items.len()
        invariant
            i <= items@.len(),
            r@.len() == i,
            forall|j: int| 0 <= j < i ==> #[trigger] r@[j] == described_background(&items@[j]),
        decreases items@.len() - i,
    {
        r.push(describe_background(&items[i]));
        i = i + 1;
    }
    proof {
        assert(r@ =~= described_backgrounds(items@));
    }
    r
}

/// The descriptions of sampled ones, in order.
pub open spec fn described_trees(items: Seq<SampledVegetation>) -> Seq<TreeInstance> {
    items.map_values(|item: SampledVegetation| described_tree(item))
}

fn list_described_trees(items: &Vec<SampledVegetation>) -> (r: Vec<TreeInstance>)
    ensures
        r@ == described_trees(items@),
{
    let mut r: Vec<TreeInstance> = Vec::new();
    let mut i: usize = 0;
    while i < items.len()
        invariant
            i <= items@.len(),
            r@.len() == i,
            forall|j: int| 0 <= j < i ==> #[trigger] r@[j] == described_tree(items@[j]),
        decreases items@.len() - i,
    {
        r.push(described_tree(items[i]));
        i = i + 1;
    }
    proof {
        assert(r@ =~= described_trees(items@));
    }
    r
}

/// The descriptions of sampled ones, in order.
pub open spec fn described_occluders(items: Seq<SampledOccluder>) -> Seq<SceneOccluder> {
    items.map_values(|item: SampledOccluder| described_occluder(item))
}

fn list_described_occluders(items: &Vec<SampledOccluder>) -> (r: Vec<SceneOccluder>)
    ensures
        r@ == described_occluders(items@),
{
    let mut r: Vec<SceneOccluder> = Vec::new();
    let mut i: usize = 0;
    while i < items.len()
        invariant
            i <= items@.len(),
            r@.len() == i,
            forall|j: int| 0 <= j < i ==> #[trigger] r@[j] == described_occluder(items@[j]),
        decreases items@.len() - i,
    {
        r.push(described_occluder(items[i]));
        i = i + 1;
    }
    proof {
        assert(r@ =~= described_occluders(items@));
    }
    r
}

/// The descriptions of sampled ones, in order.
pub open spec fn described_poles(items: Seq<SampledUtilityPole>) -> Seq<UtilityPoleDescription> {
    items.map_values(|item: SampledUtilityPole| described_pole(item))
}

fn list_described_poles(items: &Vec<SampledUtilityPole>) -> (r: Vec<UtilityPoleDescription>)
    ensures
        r@ == described_poles(items@),
{
    let mut r: Vec<UtilityPoleDescription> = Vec::new();
    let mut i: usize = 0;
    while i < items.len()
        invariant
            i <= items@.len(),
            r@.len() == i,
            forall|j: int| 0 <= j < i ==> #[trigger] r@[j] == described_pole(items@[j]),
        decreases items@.len() - i,
    {
        r.push(described_pole(items[i]));
        i = i + 1;
    }
    proof {
        assert(r@ =~= described_poles(items@));
    }
    r
}

/// Whether a cable names two poles of its site.
pub open spec fn spec_line_resolves(line: SampledUtilityLine, pole_count: usize) -> bool {
    (line.start_pole as usize) < pole_count && (line.end_pole as usize) < pole_count
}

/// Whether a cable names two poles of its site.
#[verifier::when_used_as_spec(spec_line_resolves)]
pub fn line_resolves(line: SampledUtilityLine, pole_count: usize) -> (r: bool)
    ensures
        r == spec_line_resolves(line, pole_count),
{
    (line.start_pole as usize) < pole_count && (line.end_pole as usize) < pole_count
}

/// Whether every cable names two poles of its site.
pub open spec fn lines_resolve(infrastructure: &SampledSiteInfrastructure) -> bool {
    forall|i: int|
        0 <= i < infrastructure.utility_lines@.len() ==> line_resolves(
            #[trigger] infrastructure.utility_lines@[i],
            infrastructure.utility_poles@.len() as usize,
        )
}

/// The cable of a sampled one, between poles of its site.
pub open spec fn described_line(
    line: SampledUtilityLine,
    poles: Seq<UtilityPoleDescription>,
) -> UtilityLineDescription {
    UtilityLineDescription {
        start: poles[line.start_pole as int].cable_point(),
        end: poles[line.end_pole as int].cable_point(),
        sag_m: line.sag_m,
    }
}

/// The cables of sampled ones, in order.
pub open spec fn described_lines(
    lines: Seq<SampledUtilityLine>,
    poles: Seq<UtilityPoleDescription>,
) -> Seq<UtilityLineDescription> {
    lines.map_values(|line: SampledUtilityLine| described_line(line, poles))
}

/// The appearance of a sampled road.
pub open spec fn spec_map_road(kind: crate::composition::RoadKind) -> SiteRoadKind {
    match kind {
        crate::composition::RoadKind::LocalStreet => SiteRoadKind::LocalStreet,
        crate::composition::RoadKind::UrbanArterial => SiteRoadKind::UrbanArterial,
        crate::composition::RoadKind::HighwayFrontage => SiteRoadKind::HighwayFrontage,
        crate::composition::RoadKind::RuralRoad => SiteRoadKind::RuralRoad,
    }
}

/// The appearance of a sampled road.
#[verifier::when_used_as_spec(spec_map_road)]
pub fn map_road(kind: crate::composition::RoadKind) -> (r: SiteRoadKind)
    ensures
        r == spec_map_road(kind),
{
    match kind {
        crate::composition::RoadKind::LocalStreet => SiteRoadKind::LocalStreet,
        crate::composition::RoadKind::UrbanArterial => SiteRoadKind::UrbanArterial,
        crate::composition::RoadKind::HighwayFrontage => SiteRoadKind::HighwayFrontage,
        crate::composition::RoadKind::RuralRoad => SiteRoadKind::RuralRoad,
    }
}

/// The site of sampled infrastructure.
pub open spec fn described_site(infrastructure: &SampledSiteInfrastructure) -> SiteModel {
    let poles = described_poles(infrastructure.utility_poles@);
    SiteModel {
        parking_bays: infrastructure.parking_bays,
        parking_center: vec3_array(infrastructure.parking_center),
        parking_bay_size_m: [
            infrastructure.parking_bay_size_m.x,
            infrastructure.parking_bay_size_m.y,
        ],
        parking_yaw_radians: radians(infrastructure.parking_yaw_degrees),
        road_lanes: infrastructure.road_lanes,
        road_kind: map_road(infrastructure.road_kind),
        lane_width_m: infrastructure.lane_width_m,
        road_center_z_m: infrastructure.road_center_z_m,
        raised_curb: infrastructure.raised_curb,
        utility_poles: poles,
        utility_lines: described_lines(infrastructure.utility_lines@, poles),
    }
}

fn describe_site(infrastructure: &SampledSiteInfrastructure) -> (r: Result<
    SiteInfrastructure,
    RenderError,
>)
    ensures
        r is Ok <==> lines_resolve(infrastructure),
        r matches Ok(site) ==> site@ == described_site(infrastructure),
        r matches Err(error) ==> error == RenderError::InvalidSceneDescription,
{
    let utility_poles = list_described_poles(&infrastructure.utility_poles);
    let lines = &infrastructure.utility_lines;
    let mut utility_lines: Vec<UtilityLineDescription> = Vec::new();
    let mut i: usize = 0;
    while i < lines.len()
        invariant
            i <= lines@.len(),
            *lines == infrastructure.utility_lines,
            utility_poles@ == described_poles(infrastructure.utility_poles@),
            utility_lines@.len() == i,
            forall|j: int|
                0 <= j < i ==> line_resolves(
                    #[trigger] lines@[j],
                    infrastructure.utility_poles@.len() as usize,
                ),
            forall|j: int|
                0 <= j < i ==> #[trigger] utility_lines@[j] == described_line(
                    lines@[j],
                    utility_poles@,
                ),
        decreases lines@.len() - i,
    {
        let line = lines[i];
        let pole_count: usize = utility_poles.len();
        if !line_resolves(line, pole_count) {
            assert(!line_resolves(
                infrastructure.utility_lines@[i as int],
                infrastructure.utility_poles@.len() as usize,
            ));
            return Err(RenderError::InvalidSceneDescription);
        }
        utility_lines.push(
            UtilityLineDescription {
                start: utility_poles[line.start_pole as usize].cable_point(),
                end: utility_poles[line.end_pole as usize].cable_point(),
                sag_m: line.sag_m,
            },
        );
        i = i + 1;
    }
    proof {
        assert(utility_lines@ =~= described_lines(lines@, utility_poles@));
    }
    Ok(
        SiteInfrastructure {
            parking_bays: infrastructure.parking_bays,
            parking_center: vec3_array(infrastructure.parking_center),
            parking_bay_size_m: [
                infrastructure.parking_bay_size_m.x,
                infrastructure.parking_bay_size_m.y,
            ],
            parking_yaw_radians: radians(infrastructure.parking_yaw_degrees),
            road_lanes: infrastructure.road_lanes,
            road_kind: map_road(infrastructure.road_kind),
            lane_width_m: infrastructure.lane_width_m,
            road_center_z_m: infrastructure.road_center_z_m,
            raised_curb: infrastructure.raised_curb,
            utility_poles,
            utility_lines,
        },
    )
}

/// Whether a sign throws light at a time of day.
pub open spec fn spec_sign_shines(sign: SignDescription, time: TimeOfDay) -> bool {
    Single::zero().less(time.emission_scale()) && Single::zero().less(sign.emissive_strength)
}

/// Whether a sign throws light at a time of day.
#[verifier::when_used_as_spec(spec_sign_shines)]
pub fn sign_shines(sign: SignDescription, time: TimeOfDay) -> (r: bool)
    ensures
        r == spec_sign_shines(sign, time),
{
    Single::zero().less(time.emission_scale()) && Single::zero().less(sign.emissive_strength)
}

/// The light of a sign.
pub open spec fn spec_sign_light(sign: SignDescription) -> SceneLight {
    SceneLight {
        position: sign.center,
        color: [Single::one(), Single::ratio(62, 100), Single::ratio(32, 100)],
        intensity: sign.emissive_strength,
        range_m: sign.size[0].times(Single::ratio(25, 10)).max(Single::ratio(5, 1)),
    }
}

/// The light of a sign.
#[verifier::when_used_as_spec(spec_sign_light)]
pub fn sign_light(sign: SignDescription) -> (r: SceneLight)
    ensures
        r == spec_sign_light(sign),
{
    SceneLight {
        position: sign.center,
        color: [Single::one(), Single::ratio(62, 100), Single::ratio(32, 100)],
        intensity: sign.emissive_strength,
        range_m: sign.size[0].times(Single::ratio(25, 10)).max(Single::ratio(5, 1)),
    }
}

/// Whether a pole throws light at a time of day.
pub open spec fn spec_pole_shines(
    pole: UtilityPoleDescription,
    time: TimeOfDay,
    strength: Single,
) -> bool {
    Single::zero().less(time.emission_scale()) && pole.has_light && Single::zero().less(strength)
}

/// Whether a pole throws light at a time of day.
#[verifier::when_used_as_spec(spec_pole_shines)]
pub fn pole_shines(pole: UtilityPoleDescription, time: TimeOfDay, strength: Single) -> (r: bool)
    ensures
        r == spec_pole_shines(pole, time, strength),
{
    Single::zero().less(time.emission_scale()) && pole.has_light && Single::zero().less(strength)
}

/// The light of a pole.
pub open spec fn spec_pole_light(pole: UtilityPoleDescription, strength: Single) -> SceneLight {
    SceneLight {
        position: [
            pole.position[0].plus(Single::one()),
            pole.position[1].plus(pole.height_m).minus(Single::ratio(25, 100)),
            pole.position[2],
        ],
        color: [Single::one(), Single::ratio(78, 100), Single::ratio(5, 10)],
        intensity: strength.times(Single::ratio(3, 1)),
        range_m: pole.height_m.times(Single::ratio(24, 10)).max(Single::ratio(10, 1)),
    }
}

/// The light of a pole.
#[verifier::when_used_as_spec(spec_pole_light)]
pub fn pole_light(pole: UtilityPoleDescription, strength: Single) -> (r: SceneLight)
    ensures
        r == spec_pole_light(pole, strength),
{
    SceneLight {
        position: [
            pole.position[0].plus(Single::one()),
            pole.position[1].plus(pole.height_m).minus(Single::ratio(25, 100)),
            pole.position[2],
        ],
        color: [Single::one(), Single::ratio(78, 100), Single::ratio(5, 10)],
        intensity: strength.times(Single::ratio(3, 1)),
        range_m: pole.height_m.times(Single::ratio(24, 10)).max(Single::ratio(10, 1)),
    }
}

/// The lights of the first `n` signs, while there is room.
pub open spec fn sign_lights(
    signs: Seq<SignDescription>,
    time: TimeOfDay,
    n: int,
) -> Seq<SceneLight>
    decreases n,
{
    if n <= 0 {
        Seq::empty()
    } else {
        let before = sign_lights(signs, time, n - 1);
        if sign_shines(signs[n - 1], time) && before.len() < MAX_LIGHTS {
            before.push(sign_light(signs[n - 1]))
        } else {
            before
        }
    }
}

/// Lights followed by those of the first `n` poles, while there is room.
pub open spec fn pole_lights(
    lights: Seq<SceneLight>,
    poles: Seq<UtilityPoleDescription>,
    time: TimeOfDay,
    strength: Single,
    n: int,
) -> Seq<SceneLight>
    decreases n,
{
    if n <= 0 {
        lights
    } else {
        let before = pole_lights(lights, poles, time, strength, n - 1);
        if pole_shines(poles[n - 1], time, strength) && before.len() < MAX_LIGHTS {
            before.push(pole_light(poles[n - 1], strength))
        } else {
            before
        }
    }
}

/// Strength of the artificial light of a sampled scene.
pub open spec fn spec_artificial_strength(environment: Option<SampledEnvironment>) -> Single {
    match environment {
        Some(sampled) => sampled.artificial_light_strength,
        None => Single::zero(),
    }
}

/// Strength of the artificial light of a sampled scene.
#[verifier::when_used_as_spec(spec_artificial_strength)]
pub fn artificial_strength(environment: Option<SampledEnvironment>) -> (r: Single)
    ensures
        r == spec_artificial_strength(environment),
{
    match environment {
        Some(sampled) => sampled.artificial_light_strength,
        None => Single::zero(),
    }
}

fn list_lights(
    signs: &Vec<SignDescription>,
    poles: &Vec<UtilityPoleDescription>,
    time: TimeOfDay,
    strength: Single,
) -> (r: Vec<SceneLight>)
    ensures
        r@ == pole_lights(
            sign_lights(signs@, time, signs@.len() as int),
            poles@,
            time,
            strength,
            poles@.len() as int,
        ),
{
    let mut r: Vec<SceneLight> = Vec::new();
    let mut i: usize = 0;
    while i < signs.len()
        invariant
            i <= signs@.len(),
            r@ == sign_lights(signs@, time, i as int),
        decreases signs@.len() - i,
    {
        if sign_shines(signs[i], time) && r.len() < MAX_LIGHTS {
            r.push(sign_light(signs[i]));
        }
        i = i + 1;
    }
    let ghost first = r@;
    let mut k: usize = 0;
    while k < poles.len()
        invariant
            k <= poles@.len(),
            r@ == pole_lights(first, poles@, time, strength, k as int),
        decreases poles@.len() - k,
    {
        if pole_shines(poles[k], time, strength) && r.len() < MAX_LIGHTS {
            r.push(pole_light(poles[k], strength));
        }
        k = k + 1;
    }
    r
}

/// The visible scene of a sampled one.
pub open spec fn described(sampled: &SampledScene) -> SceneModel {
    let environment = sampled_environment(
        sampled.composition.environment,
        sampled.lighting,
        scene_seed(sampled),
    );
    let base = bare_scene(
        sampled.building.footprint_width_m,
        sampled.building.footprint_depth_m,
        sampled.building.wall_height_m,
        sampled.building.ground_half_extent_m,
        environment,
    );
    let signs = described_signs(sampled.composition.signage@);
    let site = match sampled.composition.infrastructure {
        Some(infrastructure) => described_site(&infrastructure),
        None => base.site,
    };
    SceneModel {
        facade: match sampled.composition.facade {
            Some(facade) => described_facade(&facade, sampled.building),
            None => base.facade,
        },
        building_extensions: described_extensions(sampled.composition.building_extensions@),
        site,
        signs,
        background_buildings: described_backgrounds(sampled.composition.background_buildings@),
        trees: described_trees(sampled.composition.vegetation@),
        occluders: described_occluders(sampled.occluders@),
        lights: pole_lights(
            sign_lights(signs, environment.time_of_day, signs.len() as int),
            site.utility_poles,
            environment.time_of_day,
            artificial_strength(sampled.composition.environment),
            site.utility_poles.len() as int,
        ),
        ..base
    }
}

/// Whether every cable of a sampled scene names two poles of its site.
pub open spec fn cables_resolve(sampled: &SampledScene) -> bool {
    sampled.composition.infrastructure matches Some(infrastructure) ==> lines_resolve(
        &infrastructure,
    )
}

/// Whether a sampled facade, where there is one, can have its window band.
pub open spec fn spec_glazing_fits(sampled: &SampledScene) -> bool {
    sampled.composition.facade is Some ==> windows_fit(sampled.building)
}

/// Whether a sampled facade, where there is one, can have its window band.
#[verifier::when_used_as_spec(spec_glazing_fits)]
pub fn glazing_fits(sampled: &SampledScene) -> (r: bool)
    ensures
        r == spec_glazing_fits(sampled),
{
    sampled.composition.facade.is_none() || windows_fit(sampled.building)
}

impl SceneDescription {
    /// Converts the renderer-independent sampled composition into visible geometry.
    ///
    /// This is the canonical bridge for dataset generation: every sampled
    /// occluder category, facade placement, sign, neighbouring mass, plant, road,
    /// pole, and cable span is resolved here instead of falling back to a generic
    /// contextual scene.
    pub fn from_sampled(sampled: &SampledScene) -> (r: Result<SceneDescription, RenderError>)
        requires
            glazing_fits(sampled),
        ensures
            r is Ok <==> cables_resolve(sampled) && described(sampled).sound(),
            r matches Ok(scene) ==> scene@ == described(sampled),
            r matches Err(error) ==> error == RenderError::InvalidSceneDescription,
    {
        let seed: u32 = sampled_scene_seed(sampled);
        let environment = sampled_environment(
            sampled.composition.environment,
            sampled.lighting,
            seed,
        );
        let mut scene = SceneDescription::new(
            sampled.building.footprint_width_m,
            sampled.building.footprint_depth_m,
            sampled.building.wall_height_m,
            sampled.building.ground_half_extent_m,
            environment,
        );
        match &sampled.composition.facade {
            Some(facade) => {
                scene.facade = describe_facade(facade, sampled.building);
            },
            None => {},
        }
        match &sampled.composition.infrastructure {
            Some(infrastructure) => match describe_site(infrastructure) {
                Ok(site) => {
                    scene.site = site;
                },
                Err(error) => {
                    return Err(error);
                },
            },
            None => {},
        }
        scene.building_extensions = list_described_extensions(
            &sampled.composition.building_extensions,
        );
        scene.signs = list_described_signs(&sampled.composition.signage);
        scene.background_buildings = list_described_backgrounds(
            &sampled.composition.background_buildings,
        );
        scene.trees = list_described_trees(&sampled.composition.vegetation);
        scene.occluders = list_described_occluders(&sampled.occluders);
        scene.lights = list_lights(
            &scene.signs,
            &scene.site.utility_poles,
            environment.time_of_day,
            artificial_strength(sampled.composition.environment),
        );
        assert(scene@ == described(sampled));
        match scene.validate() {
            Ok(()) => Ok(scene),
            Err(error) => Err(error),
        }
    }
}

proof fn lemma_sign_lights(signs: Seq<SignDescription>, time: TimeOfDay, n: int)
    requires
        0 <= n <= signs.len(),
    ensures
        sign_lights(signs, time, n).len() <= MAX_LIGHTS,
        time == TimeOfDay::Day ==> sign_lights(signs, time, n).len() == 0,
    decreases n,
{
    if n > 0 {
        lemma_sign_lights(signs, time, n - 1);
    }
}

proof fn lemma_pole_lights(
    lights: Seq<SceneLight>,
    poles: Seq<UtilityPoleDescription>,
    time: TimeOfDay,
    strength: Single,
    n: int,
)
    requires
        0 <= n <= poles.len(),
        lights.len() <= MAX_LIGHTS,
    ensures
        pole_lights(lights, poles, time, strength, n).len() <= MAX_LIGHTS,
        time == TimeOfDay::Day ==> pole_lights(lights, poles, time, strength, n) == lights,
    decreases n,
{
    if n > 0 {
        lemma_pole_lights(lights, poles, time, strength, n - 1);
    }
}

/// A described scene never holds more lights than the renderer takes, and none by day.
pub proof fn described_lights_are_capped(sampled: &SampledScene)
    ensures
        described(sampled).lights.len() <= MAX_LIGHTS,
        described(sampled).environment.time_of_day == TimeOfDay::Day
            ==> described(sampled).lights.len() == 0,
{
    let model = described(sampled);
    let time = model.environment.time_of_day;
    let first = sign_lights(model.signs, time, model.signs.len() as int);
    lemma_sign_lights(model.signs, time, model.signs.len() as int);
    lemma_pole_lights(
        first,
        model.site.utility_poles,
        time,
        artificial_strength(sampled.composition.environment),
        model.site.utility_poles.len() as int,
    );
}

/// Everything sampled is visible: each occluder, addition, sign, neighbour and plant has
/// its own description, in order.
pub proof fn descriptions_drop_nothing(sampled: &SampledScene)
    ensures
        described(sampled).occluders.len() == sampled.occluders@.len(),
        described(sampled).building_extensions.len()
            == sampled.composition.building_extensions@.len(),
        described(sampled).signs.len() == sampled.composition.signage@.len(),
        described(sampled).background_buildings.len()
            == sampled.composition.background_buildings@.len(),
        described(sampled).trees.len() == sampled.composition.vegetation@.len(),
        sampled.composition.infrastructure matches Some(infrastructure)
            ==> described(sampled).site.utility_poles.len() == infrastructure.utility_poles@.len()
            && described(sampled).site.utility_lines.len() == infrastructure.utility_lines@.len(),
{
}

/// Seeds are never zero, and equal materials and dimensions give equal seeds.
pub proof fn seeds_follow_materials_and_dimensions(a: &SampledScene, b: &SampledScene)
    requires
        a.roof_material.id@ == b.roof_material.id@,
        a.wall_material.id@ == b.wall_material.id@,
        a.building == b.building,
        a.roof == b.roof,
    ensures
        scene_seed(a) == scene_seed(b),
        scene_seed(a) > 0,
{
}

} // verus!
