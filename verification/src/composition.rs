//! Renderer-independent plans for realistic sites surrounding the target roof.

use crate::config::MaterialChoice;
use crate::plan::SampledMaterial;
use crate::single::Single;
use crate::types::{FloatRange, U32Range, Vec2, Vec3};
use vstd::prelude::*;
use vstd::string::*;

verus! {

/// Categorical capture-time regime with correlated sky and camera exposure.
#[derive(Clone, Copy, Debug, PartialEq, Eq, Structural)]
pub enum DayPhase {
    /// Sun clearly above the horizon.
    Day,
    /// Dawn or dusk transition with mixed natural and artificial light.
    Twilight,
    /// Sun below astronomical usefulness; site lighting dominates.
    Night,
}

/// Correlated sampling ranges for one capture-time regime.
#[derive(Clone, Copy, Debug, PartialEq, Eq, Structural)]
pub struct DayPhaseProfile {
    /// Capture-time category.
    pub phase: DayPhase,
    /// Relative integer selection weight.
    pub weight: u32,
    /// Solar elevation in degrees.
    pub sun_elevation_degrees: FloatRange,
    /// Camera exposure in EV100.
    pub camera_exposure_ev100: FloatRange,
    /// Artificial site-light strength in renderer units.
    pub artificial_light_strength: FloatRange,
}

/// Weighted day, twilight, and night regimes.
#[derive(Clone, Debug, PartialEq, Eq)]
pub struct DayPhaseSamplingConfig {
    /// Available correlated time-of-day profiles.
    pub profiles: Vec<DayPhaseProfile>,
}

impl DayPhaseSamplingConfig {
    /// Day, twilight and night.
    pub open spec fn standard_profiles() -> Seq<DayPhaseProfile> {
        seq![
            DayPhaseProfile {
                phase: DayPhase::Day,
                weight: 55,
                sun_elevation_degrees: FloatRange::decimal(10, 78, 1),
                camera_exposure_ev100: FloatRange::decimal(105, 152, 10),
                artificial_light_strength: FloatRange::decimal(0, 12, 100),
            },
            DayPhaseProfile {
                phase: DayPhase::Twilight,
                weight: 15,
                sun_elevation_degrees: FloatRange::decimal((-6) as i32, 10, 1),
                camera_exposure_ev100: FloatRange::decimal(50, 105, 10),
                artificial_light_strength: FloatRange::decimal(18, 125, 100),
            },
            DayPhaseProfile {
                phase: DayPhase::Night,
                weight: 30,
                sun_elevation_degrees: FloatRange::decimal((-20) as i32, (-6) as i32, 1),
                camera_exposure_ev100: FloatRange::decimal((-10) as i32, 55, 10),
                artificial_light_strength: FloatRange::decimal(7, 28, 10),
            },
        ]
    }

    /// Holds the standard profiles.
    pub open spec fn is_standard(self) -> bool {
        self.profiles@ == DayPhaseSamplingConfig::standard_profiles()
    }
}

impl Default for DayPhaseSamplingConfig {
    fn default() -> (r: Self)
        ensures
            r.is_standard(),
    {
        let profiles = vec![
            DayPhaseProfile {
                phase: DayPhase::Day,
                weight: 55,
                sun_elevation_degrees: FloatRange::decimal(10, 78, 1),
                camera_exposure_ev100: FloatRange::decimal(105, 152, 10),
                artificial_light_strength: FloatRange::decimal(0, 12, 100),
            },
            DayPhaseProfile {
                phase: DayPhase::Twilight,
                weight: 15,
                sun_elevation_degrees: FloatRange::decimal((-6) as i32, 10, 1),
                camera_exposure_ev100: FloatRange::decimal(50, 105, 10),
                artificial_light_strength: FloatRange::decimal(18, 125, 100),
            },
            DayPhaseProfile {
                phase: DayPhase::Night,
                weight: 30,
                sun_elevation_degrees: FloatRange::decimal((-20) as i32, (-6) as i32, 1),
                camera_exposure_ev100: FloatRange::decimal((-10) as i32, 55, 10),
                artificial_light_strength: FloatRange::decimal(7, 28, 10),
            },
        ];
        assert(profiles@ =~= DayPhaseSamplingConfig::standard_profiles());
        DayPhaseSamplingConfig { profiles }
    }
}

/// Broad site regime used to correlate built density, vegetation, and roads.
#[derive(Clone, Copy, Debug, PartialEq, Eq, Structural)]
pub enum SceneDomain {
    /// Dense central-city fabric with taller neighbours and little planting.
    City,
    /// Urban commercial corridor dominated by low shops and arterial roads.
    Urban,
    /// Car-oriented suburban retail strip with landscaping and parking.
    Suburban,
    /// Highway or major-road frontage with sparse neighbouring development.
    Roadside,
    /// Remote or small-town setting with little surrounding construction.
    Remote,
}

/// Road form associated with a sampled domain.
#[derive(Clone, Copy, Debug, PartialEq, Eq, Structural)]
pub enum RoadKind {
    /// Narrow access or local street.
    LocalStreet,
    /// Multi-lane city or suburban arterial.
    UrbanArterial,
    /// Frontage road beside a highway.
    HighwayFrontage,
    /// Low-volume rural road.
    RuralRoad,
}

/// Correlated density and infrastructure ranges for one site regime.
#[derive(Clone, Copy, Debug, PartialEq, Eq, Structural)]
pub struct SceneDomainProfile {
    /// Site category.
    pub domain: SceneDomain,
    /// Relative integer selection weight.
    pub weight: u32,
    /// Neighbouring building count.
    pub background_buildings: U32Range,
    /// Tree and shrub count.
    pub vegetation: U32Range,
    /// Marked parking-bay count.
    pub parking_bays: U32Range,
    /// Road form.
    pub road_kind: RoadKind,
    /// Number of road lanes.
    pub road_lanes: U32Range,
    /// Probability of a raised curb.
    pub curb_probability: Single,
    /// Utility or street-light pole count.
    pub utility_poles: U32Range,
    /// Probability that adjacent poles carry overhead lines.
    pub overhead_line_probability: Single,
}

/// Weighted site-domain regimes.
#[derive(Clone, Debug, PartialEq, Eq)]
pub struct SceneDomainSamplingConfig {
    /// Available correlated site profiles.
    pub profiles: Vec<SceneDomainProfile>,
}

impl SceneDomainSamplingConfig {
    /// City, urban, suburban, roadside and remote sites.
    pub open spec fn standard_profiles() -> Seq<SceneDomainProfile> {
        seq![
            SceneDomainProfile {
                domain: SceneDomain::City,
                weight: 12,
                background_buildings: U32Range::new(6, 12),
                vegetation: U32Range::new(0, 5),
                parking_bays: U32Range::new(0, 10),
                road_kind: RoadKind::UrbanArterial,
                road_lanes: U32Range::new(2, 5),
                curb_probability: Single::ratio(96, 100),
                utility_poles: U32Range::new(2, 7),
                overhead_line_probability: Single::ratio(12, 100),
            },
            SceneDomainProfile {
                domain: SceneDomain::Urban,
                weight: 24,
                background_buildings: U32Range::new(3, 9),
                vegetation: U32Range::new(1, 8),
                parking_bays: U32Range::new(6, 28),
                road_kind: RoadKind::UrbanArterial,
                road_lanes: U32Range::new(2, 4),
                curb_probability: Single::ratio(88, 100),
                utility_poles: U32Range::new(2, 8),
                overhead_line_probability: Single::ratio(52, 100),
            },
            SceneDomainProfile {
                domain: SceneDomain::Suburban,
                weight: 34,
                background_buildings: U32Range::new(1, 6),
                vegetation: U32Range::new(5, 18),
                parking_bays: U32Range::new(14, 46),
                road_kind: RoadKind::UrbanArterial,
                road_lanes: U32Range::new(2, 4),
                curb_probability: Single::ratio(82, 100),
                utility_poles: U32Range::new(1, 7),
                overhead_line_probability: Single::ratio(58, 100),
            },
            SceneDomainProfile {
                domain: SceneDomain::Roadside,
                weight: 20,
                background_buildings: U32Range::new(0, 4),
                vegetation: U32Range::new(3, 15),
                parking_bays: U32Range::new(8, 34),
                road_kind: RoadKind::HighwayFrontage,
                road_lanes: U32Range::new(2, 5),
                curb_probability: Single::ratio(45, 100),
                utility_poles: U32Range::new(1, 6),
                overhead_line_probability: Single::ratio(52, 100),
            },
            SceneDomainProfile {
                domain: SceneDomain::Remote,
                weight: 10,
                background_buildings: U32Range::new(0, 2),
                vegetation: U32Range::new(8, 24),
                parking_bays: U32Range::new(3, 18),
                road_kind: RoadKind::RuralRoad,
                road_lanes: U32Range::new(1, 2),
                curb_probability: Single::ratio(16, 100),
                utility_poles: U32Range::new(0, 5),
                overhead_line_probability: Single::ratio(68, 100),
            },
        ]
    }

    /// Holds the standard profiles.
    pub open spec fn is_standard(self) -> bool {
        self.profiles@ == SceneDomainSamplingConfig::standard_profiles()
    }
}

impl Default for SceneDomainSamplingConfig {
    fn default() -> (r: Self)
        ensures
            r.is_standard(),
    {
        let profiles = vec![
            SceneDomainProfile {
                domain: SceneDomain::City,
                weight: 12,
                background_buildings: U32Range::new(6, 12),
                vegetation: U32Range::new(0, 5),
                parking_bays: U32Range::new(0, 10),
                road_kind: RoadKind::UrbanArterial,
                road_lanes: U32Range::new(2, 5),
                curb_probability: Single::ratio(96, 100),
                utility_poles: U32Range::new(2, 7),
                overhead_line_probability: Single::ratio(12, 100),
            },
            SceneDomainProfile {
                domain: SceneDomain::Urban,
                weight: 24,
                background_buildings: U32Range::new(3, 9),
                vegetation: U32Range::new(1, 8),
                parking_bays: U32Range::new(6, 28),
                road_kind: RoadKind::UrbanArterial,
                road_lanes: U32Range::new(2, 4),
                curb_probability: Single::ratio(88, 100),
                utility_poles: U32Range::new(2, 8),
                overhead_line_probability: Single::ratio(52, 100),
            },
            SceneDomainProfile {
                domain: SceneDomain::Suburban,
                weight: 34,
                background_buildings: U32Range::new(1, 6),
                vegetation: U32Range::new(5, 18),
                parking_bays: U32Range::new(14, 46),
                road_kind: RoadKind::UrbanArterial,
                road_lanes: U32Range::new(2, 4),
                curb_probability: Single::ratio(82, 100),
                utility_poles: U32Range::new(1, 7),
                overhead_line_probability: Single::ratio(58, 100),
            },
            SceneDomainProfile {
                domain: SceneDomain::Roadside,
                weight: 20,
                background_buildings: U32Range::new(0, 4),
                vegetation: U32Range::new(3, 15),
                parking_bays: U32Range::new(8, 34),
                road_kind: RoadKind::HighwayFrontage,
                road_lanes: U32Range::new(2, 5),
                curb_probability: Single::ratio(45, 100),
                utility_poles: U32Range::new(1, 6),
                overhead_line_probability: Single::ratio(52, 100),
            },
            SceneDomainProfile {
                domain: SceneDomain::Remote,
                weight: 10,
                background_buildings: U32Range::new(0, 2),
                vegetation: U32Range::new(8, 24),
                parking_bays: U32Range::new(3, 18),
                road_kind: RoadKind::RuralRoad,
                road_lanes: U32Range::new(1, 2),
                curb_probability: Single::ratio(16, 100),
                utility_poles: U32Range::new(0, 5),
                overhead_line_probability: Single::ratio(68, 100),
            },
        ];
        assert(profiles@ =~= SceneDomainSamplingConfig::standard_profiles());
        SceneDomainSamplingConfig { profiles }
    }
}

/// Correlated outdoor condition used to avoid implausible independent lighting draws.
#[derive(Clone, Copy, Debug, PartialEq, Eq, Structural)]
pub enum WeatherPreset {
    /// Harder shadows, low cloud, and usually dry ground.
    Clear,
    /// Broken cloud with useful direct and indirect illumination.
    PartlyCloudy,
    /// Diffuse sky and soft shadows.
    Overcast,
    /// Reduced visibility and contrast despite limited cloud.
    Hazy,
    /// Broken or heavy cloud with visibly wet surfaces.
    AfterRain,
}

/// Physically correlated ranges associated with one weather category.
#[derive(Clone, Copy, Debug, PartialEq, Eq, Structural)]
pub struct WeatherProfile {
    /// Stable weather category.
    pub preset: WeatherPreset,
    /// Relative integer selection weight.
    pub weight: u32,
    /// Fractional cloud coverage.
    pub cloud_coverage: FloatRange,
    /// Atmospheric haze amount.
    pub haze: FloatRange,
    /// Direct-light intensity in renderer units.
    pub sun_intensity: FloatRange,
    /// Indirect-light intensity in renderer units.
    pub sky_intensity: FloatRange,
    /// Penumbra softness in `[0, 1]`.
    pub shadow_softness: FloatRange,
    /// Ground wetness in `[0, 1]`.
    pub ground_wetness: FloatRange,
    /// Approximate atmospheric visibility in kilometres.
    pub visibility_km: FloatRange,
    /// Correlated daylight white point in kelvin.
    pub color_temperature_k: FloatRange,
}

/// Weighted weather profiles used by one generation run.
#[derive(Clone, Debug, PartialEq, Eq)]
pub struct WeatherSamplingConfig {
    /// Available correlated outdoor conditions.
    pub profiles: Vec<WeatherProfile>,
}

impl WeatherSamplingConfig {
    /// The five weather families.
    pub open spec fn standard_profiles() -> Seq<WeatherProfile> {
        seq![
            WeatherProfile {
                preset: WeatherPreset::Clear,
                weight: 22,
                cloud_coverage: FloatRange::decimal(0, 18, 100),
                haze: FloatRange::decimal(0, 12, 100),
                sun_intensity: FloatRange::decimal(25, 60, 10),
                sky_intensity: FloatRange::decimal(15, 58, 100),
                shadow_softness: FloatRange::decimal(5, 28, 100),
                ground_wetness: FloatRange::decimal(0, 3, 100),
                visibility_km: FloatRange::decimal(35, 90, 1),
                color_temperature_k: FloatRange::decimal(5200, 6800, 1),
            },
            WeatherProfile {
                preset: WeatherPreset::PartlyCloudy,
                weight: 32,
                cloud_coverage: FloatRange::decimal(20, 62, 100),
                haze: FloatRange::decimal(2, 20, 100),
                sun_intensity: FloatRange::decimal(12, 45, 10),
                sky_intensity: FloatRange::decimal(30, 95, 100),
                shadow_softness: FloatRange::decimal(18, 58, 100),
                ground_wetness: FloatRange::decimal(0, 12, 100),
                visibility_km: FloatRange::decimal(24, 75, 1),
                color_temperature_k: FloatRange::decimal(5000, 7200, 1),
            },
            WeatherProfile {
                preset: WeatherPreset::Overcast,
                weight: 24,
                cloud_coverage: FloatRange::decimal(72, 100, 100),
                haze: FloatRange::decimal(8, 32, 100),
                sun_intensity: FloatRange::decimal(35, 90, 100),
                sky_intensity: FloatRange::decimal(62, 140, 100),
                shadow_softness: FloatRange::decimal(78, 100, 100),
                ground_wetness: FloatRange::decimal(0, 3, 10),
                visibility_km: FloatRange::decimal(12, 45, 1),
                color_temperature_k: FloatRange::decimal(6000, 7500, 1),
            },
            WeatherProfile {
                preset: WeatherPreset::Hazy,
                weight: 12,
                cloud_coverage: FloatRange::decimal(5, 46, 100),
                haze: FloatRange::decimal(38, 75, 100),
                sun_intensity: FloatRange::decimal(45, 220, 100),
                sky_intensity: FloatRange::decimal(4, 11, 10),
                shadow_softness: FloatRange::decimal(35, 72, 100),
                ground_wetness: FloatRange::decimal(0, 6, 100),
                visibility_km: FloatRange::decimal(4, 18, 1),
                color_temperature_k: FloatRange::decimal(4500, 6100, 1),
            },
            WeatherProfile {
                preset: WeatherPreset::AfterRain,
                weight: 10,
                cloud_coverage: FloatRange::decimal(45, 92, 100),
                haze: FloatRange::decimal(5, 30, 100),
                sun_intensity: FloatRange::decimal(4, 28, 10),
                sky_intensity: FloatRange::decimal(48, 130, 100),
                shadow_softness: FloatRange::decimal(45, 90, 100),
                ground_wetness: FloatRange::decimal(45, 100, 100),
                visibility_km: FloatRange::decimal(14, 55, 1),
                color_temperature_k: FloatRange::decimal(5600, 7400, 1),
            },
        ]
    }

    /// Holds the standard profiles.
    pub open spec fn is_standard(self) -> bool {
        self.profiles@ == WeatherSamplingConfig::standard_profiles()
    }
}

impl Default for WeatherSamplingConfig {
    fn default() -> (r: Self)
        ensures
            r.is_standard(),
    {
        let profiles = vec![
            WeatherProfile {
                preset: WeatherPreset::Clear,
                weight: 22,
                cloud_coverage: FloatRange::decimal(0, 18, 100),
                haze: FloatRange::decimal(0, 12, 100),
                sun_intensity: FloatRange::decimal(25, 60, 10),
                sky_intensity: FloatRange::decimal(15, 58, 100),
                shadow_softness: FloatRange::decimal(5, 28, 100),
                ground_wetness: FloatRange::decimal(0, 3, 100),
                visibility_km: FloatRange::decimal(35, 90, 1),
                color_temperature_k: FloatRange::decimal(5200, 6800, 1),
            },
            WeatherProfile {
                preset: WeatherPreset::PartlyCloudy,
                weight: 32,
                cloud_coverage: FloatRange::decimal(20, 62, 100),
                haze: FloatRange::decimal(2, 20, 100),
                sun_intensity: FloatRange::decimal(12, 45, 10),
                sky_intensity: FloatRange::decimal(30, 95, 100),
                shadow_softness: FloatRange::decimal(18, 58, 100),
                ground_wetness: FloatRange::decimal(0, 12, 100),
                visibility_km: FloatRange::decimal(24, 75, 1),
                color_temperature_k: FloatRange::decimal(5000, 7200, 1),
            },
            WeatherProfile {
                preset: WeatherPreset::Overcast,
                weight: 24,
                cloud_coverage: FloatRange::decimal(72, 100, 100),
                haze: FloatRange::decimal(8, 32, 100),
                sun_intensity: FloatRange::decimal(35, 90, 100),
                sky_intensity: FloatRange::decimal(62, 140, 100),
                shadow_softness: FloatRange::decimal(78, 100, 100),
                ground_wetness: FloatRange::decimal(0, 3, 10),
                visibility_km: FloatRange::decimal(12, 45, 1),
                color_temperature_k: FloatRange::decimal(6000, 7500, 1),
            },
            WeatherProfile {
                preset: WeatherPreset::Hazy,
                weight: 12,
                cloud_coverage: FloatRange::decimal(5, 46, 100),
                haze: FloatRange::decimal(38, 75, 100),
                sun_intensity: FloatRange::decimal(45, 220, 100),
                sky_intensity: FloatRange::decimal(4, 11, 10),
                shadow_softness: FloatRange::decimal(35, 72, 100),
                ground_wetness: FloatRange::decimal(0, 6, 100),
                visibility_km: FloatRange::decimal(4, 18, 1),
                color_temperature_k: FloatRange::decimal(4500, 6100, 1),
            },
            WeatherProfile {
                preset: WeatherPreset::AfterRain,
                weight: 10,
                cloud_coverage: FloatRange::decimal(45, 92, 100),
                haze: FloatRange::decimal(5, 30, 100),
                sun_intensity: FloatRange::decimal(4, 28, 10),
                sky_intensity: FloatRange::decimal(48, 130, 100),
                shadow_softness: FloatRange::decimal(45, 90, 100),
                ground_wetness: FloatRange::decimal(45, 100, 100),
                visibility_km: FloatRange::decimal(14, 55, 1),
                color_temperature_k: FloatRange::decimal(5600, 7400, 1),
            },
        ];
        assert(profiles@ =~= WeatherSamplingConfig::standard_profiles());
        WeatherSamplingConfig { profiles }
    }
}

/// Architectural façade details layered over the existing wall material.
#[derive(Clone, Debug, PartialEq, Eq)]
pub struct FacadeSamplingConfig {
    /// Fraction of visible wall area occupied by glazing.
    pub glazing_fraction: FloatRange,
    /// Glazing and dark window-band palette.
    pub glazing_materials: Vec<MaterialChoice>,
    /// Width of the principal entrance in metres.
    pub entrance_width_m: FloatRange,
    /// Additional façade dirt and staining amount.
    pub weathering: FloatRange,
}

/// Coarse use of an addition attached to the primary building shell.
#[derive(Clone, Copy, Debug, PartialEq, Eq, Structural)]
pub enum BuildingExtensionKind {
    /// A broad, low dining-room or seating wing.
    DiningWing,
    /// A compact glazed or enclosed entrance vestibule.
    EntranceVestibule,
    /// A plainer back-of-house, kitchen, or service annex.
    ServiceAnnex,
}

/// Roof form used by a low addition.
#[derive(Clone, Copy, Debug, PartialEq, Eq, Structural)]
pub enum BuildingExtensionRoof {
    /// A shallow flat roof with a visible perimeter cap.
    Flat,
    /// A single-slope roof rising toward the original building.
    Shed,
}

/// Distribution for optional additions attached to the primary building.
///
/// This configuration is deliberately independent of target class. A target
/// roof and an ordinary negative sampled with the same building seed therefore
/// receive exactly the same additions.
#[derive(Clone, Copy, Debug, PartialEq, Eq, Structural)]
pub struct BuildingExtensionSamplingConfig {
    /// Relative weight for leaving the original building shell unchanged.
    pub none_weight: u32,
    /// Relative weight for one attached addition.
    pub one_weight: u32,
    /// Relative weight for two additions on opposite façades.
    pub two_weight: u32,
    /// Addition width divided by the host façade width.
    pub facade_width_fraction: FloatRange,
    /// Distance projected outward from the original wall.
    pub projection_m: FloatRange,
    /// Addition wall height divided by the original wall height.
    pub wall_height_fraction: FloatRange,
    /// Centre offset divided by the remaining usable façade span.
    pub facade_offset_fraction: FloatRange,
    /// Extra rise of a shed roof toward the original building.
    pub shed_rise_m: FloatRange,
    /// Relative weight for a dining-room wing.
    pub dining_wing_weight: u32,
    /// Relative weight for an entrance vestibule.
    pub entrance_vestibule_weight: u32,
    /// Relative weight for a service annex.
    pub service_annex_weight: u32,
    /// Relative weight for a flat-roofed addition.
    pub flat_roof_weight: u32,
    /// Relative weight for a shed-roofed addition.
    pub shed_roof_weight: u32,
}

impl BuildingExtensionSamplingConfig {
    /// The standard values.
    pub open spec fn standard() -> BuildingExtensionSamplingConfig {
        BuildingExtensionSamplingConfig {
            none_weight: 52,
            one_weight: 42,
            two_weight: 6,
            facade_width_fraction: FloatRange::decimal(20, 58, 100),
            projection_m: FloatRange::decimal(18, 65, 10),
            wall_height_fraction: FloatRange::decimal(50, 84, 100),
            facade_offset_fraction: FloatRange::decimal((-85) as i32, 85, 100),
            shed_rise_m: FloatRange::decimal(18, 72, 100),
            dining_wing_weight: 44,
            entrance_vestibule_weight: 24,
            service_annex_weight: 32,
            flat_roof_weight: 58,
            shed_roof_weight: 42,
        }
    }
}

impl Default for BuildingExtensionSamplingConfig {
    fn default() -> (r: Self)
        ensures
            r == BuildingExtensionSamplingConfig::standard(),
    {
        BuildingExtensionSamplingConfig {
            none_weight: 52,
            one_weight: 42,
            two_weight: 6,
            facade_width_fraction: FloatRange::decimal(20, 58, 100),
            projection_m: FloatRange::decimal(18, 65, 10),
            wall_height_fraction: FloatRange::decimal(50, 84, 100),
            facade_offset_fraction: FloatRange::decimal((-85) as i32, 85, 100),
            shed_rise_m: FloatRange::decimal(18, 72, 100),
            dining_wing_weight: 44,
            entrance_vestibule_weight: 24,
            service_annex_weight: 32,
            flat_roof_weight: 58,
            shed_roof_weight: 42,
        }
    }
}

impl MaterialChoice {
    /// A choice of one fixed colour with the weathering that site surfaces share.
    pub open spec fn is_fixed(
        self,
        id: Seq<char>,
        weight: u32,
        color: Seq<Single>,
        roughness: FloatRange,
    ) -> bool {
        self.is(id, weight, color, Single::zero(), roughness, FloatRange::decimal(0, 82, 100))
    }
}

fn material(id: &str, weight: u32, base_color_srgb: [Single; 3], roughness: FloatRange) -> (r:
    MaterialChoice)
    ensures
        r.is_fixed(id@, weight, base_color_srgb@, roughness),
{
    MaterialChoice {
        id: id.to_owned(),
        weight,
        base_color_srgb,
        base_color_variation: Single::zero(),
        roughness,
        weathering: FloatRange::decimal(0, 82, 100),
    }
}

impl FacadeSamplingConfig {
    /// The standard façade distribution.
    pub open spec fn is_standard(self) -> bool {
        &&& self.glazing_fraction == FloatRange::decimal(10, 42, 100)
        &&& self.glazing_materials@.len() == 3
        &&& self.glazing_materials@[0].is_fixed(
            "blue_grey_glass"@,
            45,
            seq![Single::ratio(12, 100), Single::ratio(18, 100), Single::ratio(22, 100)],
            FloatRange::decimal(6, 20, 100),
        )
        &&& self.glazing_materials@[1].is_fixed(
            "neutral_glass"@,
            35,
            seq![Single::ratio(16, 100), Single::ratio(17, 100), Single::ratio(17, 100)],
            FloatRange::decimal(5, 18, 100),
        )
        &&& self.glazing_materials@[2].is_fixed(
            "dark_tint"@,
            20,
            seq![Single::ratio(45, 1000), Single::ratio(55, 1000), Single::ratio(6, 100)],
            FloatRange::decimal(8, 28, 100),
        )
        &&& self.entrance_width_m == FloatRange::decimal(16, 38, 10)
        &&& self.weathering == FloatRange::decimal(0, 72, 100)
    }
}

impl Default for FacadeSamplingConfig {
    fn default() -> (r: Self)
        ensures
            r.is_standard(),
    {
        FacadeSamplingConfig {
            glazing_fraction: FloatRange::decimal(10, 42, 100),
            glazing_materials: vec![
                material(
                    "blue_grey_glass",
                    45,
                    [Single::ratio(12, 100), Single::ratio(18, 100), Single::ratio(22, 100)],
                    FloatRange::decimal(6, 20, 100),
                ),
                material(
                    "neutral_glass",
                    35,
                    [Single::ratio(16, 100), Single::ratio(17, 100), Single::ratio(17, 100)],
                    FloatRange::decimal(5, 18, 100),
                ),
                material(
                    "dark_tint",
                    20,
                    [Single::ratio(45, 1000), Single::ratio(55, 1000), Single::ratio(6, 100)],
                    FloatRange::decimal(8, 28, 100),
                ),
            ],
            entrance_width_m: FloatRange::decimal(16, 38, 10),
            weathering: FloatRange::decimal(0, 72, 100),
        }
    }
}

/// Sign appearance independent of Pizza Hut recognition labels.
#[derive(Clone, Copy, Debug, PartialEq, Eq, Structural)]
pub enum SignageKind {
    /// A retained Pizza Hut sign.
    PizzaHut,
    /// A removed sign leaving fixings, fade, or a painted ghost.
    RemovedGhost,
    /// Signage for a later unrelated tenant.
    RebrandedTenant,
}

/// Signage distribution and physically bounded façade placement.
#[derive(Clone, Copy, Debug, PartialEq, Eq, Structural)]
pub struct SignageSamplingConfig {
    /// Weight for generating no sign.
    pub none_weight: u32,
    /// Weight for retained Pizza Hut branding.
    pub pizza_hut_weight: u32,
    /// Weight for a removed-sign trace.
    pub removed_ghost_weight: u32,
    /// Weight for unrelated tenant branding.
    pub rebranded_tenant_weight: u32,
    /// Sign width as a fraction of its façade width.
    pub width_fraction: FloatRange,
    /// Physical sign height in metres.
    pub height_m: FloatRange,
    /// Sign centre as a fraction of wall height.
    pub vertical_fraction: FloatRange,
    /// Light emission for signs that support it.
    pub emissive_strength: FloatRange,
}

impl SignageSamplingConfig {
    /// The standard values.
    pub open spec fn standard() -> SignageSamplingConfig {
        SignageSamplingConfig {
            none_weight: 20,
            pizza_hut_weight: 16,
            removed_ghost_weight: 30,
            rebranded_tenant_weight: 34,
            width_fraction: FloatRange::decimal(16, 46, 100),
            height_m: FloatRange::decimal(65, 175, 100),
            vertical_fraction: FloatRange::decimal(46, 78, 100),
            emissive_strength: FloatRange::decimal(0, 22, 10),
        }
    }
}

impl Default for SignageSamplingConfig {
    fn default() -> (r: Self)
        ensures
            r == SignageSamplingConfig::standard(),
    {
        SignageSamplingConfig {
            none_weight: 20,
            pizza_hut_weight: 16,
            removed_ghost_weight: 30,
            rebranded_tenant_weight: 34,
            width_fraction: FloatRange::decimal(16, 46, 100),
            height_m: FloatRange::decimal(65, 175, 100),
            vertical_fraction: FloatRange::decimal(46, 78, 100),
            emissive_strength: FloatRange::decimal(0, 22, 10),
        }
    }
}

/// Procedural neighbouring-building distribution.
#[derive(Clone, Copy, Debug, PartialEq, Eq, Structural)]
pub struct BackgroundBuildingSamplingConfig {
    /// Number of neighbouring masses.
    pub count: U32Range,
    /// Clear setback from the target building's bounding radius.
    pub setback_m: FloatRange,
    /// Building width.
    pub width_m: FloatRange,
    /// Building depth.
    pub depth_m: FloatRange,
    /// Building height.
    pub height_m: FloatRange,
    /// Maximum yaw perturbation around a site-facing orientation.
    pub yaw_jitter_degrees: FloatRange,
}

impl BackgroundBuildingSamplingConfig {
    /// The standard values.
    pub open spec fn standard() -> BackgroundBuildingSamplingConfig {
        BackgroundBuildingSamplingConfig {
            count: U32Range::new(0, 12),
            setback_m: FloatRange::decimal(18, 52, 1),
            width_m: FloatRange::decimal(8, 26, 1),
            depth_m: FloatRange::decimal(7, 22, 1),
            height_m: FloatRange::decimal(32, 280, 10),
            yaw_jitter_degrees: FloatRange::decimal((-18) as i32, 18, 1),
        }
    }
}

impl Default for BackgroundBuildingSamplingConfig {
    fn default() -> (r: Self)
        ensures
            r == BackgroundBuildingSamplingConfig::standard(),
    {
        BackgroundBuildingSamplingConfig {
            count: U32Range::new(0, 12),
            setback_m: FloatRange::decimal(18, 52, 1),
            width_m: FloatRange::decimal(8, 26, 1),
            depth_m: FloatRange::decimal(7, 22, 1),
            height_m: FloatRange::decimal(32, 280, 10),
            yaw_jitter_degrees: FloatRange::decimal((-18) as i32, 18, 1),
        }
    }
}

/// Coarse procedural vegetation family.
#[derive(Clone, Copy, Debug, PartialEq, Eq, Structural)]
pub enum VegetationKind {
    /// Broad-canopy deciduous tree.
    DeciduousTree,
    /// Narrow evergreen tree.
    EvergreenTree,
    /// Palm-like tree.
    Palm,
    /// Low shrub or hedge mass.
    Shrub,
}

/// Site vegetation distribution.
#[derive(Clone, Copy, Debug, PartialEq, Eq, Structural)]
pub struct VegetationSamplingConfig {
    /// Number of independent plants.
    pub count: U32Range,
    /// Relative deciduous-tree weight.
    pub deciduous_weight: u32,
    /// Relative evergreen-tree weight.
    pub evergreen_weight: u32,
    /// Relative palm weight.
    pub palm_weight: u32,
    /// Relative shrub weight.
    pub shrub_weight: u32,
    /// Clear distance from the target footprint.
    pub building_setback_m: FloatRange,
    /// Additional radial site distance.
    pub site_distance_m: FloatRange,
    /// Tree height range.
    pub tree_height_m: FloatRange,
    /// Shrub height range.
    pub shrub_height_m: FloatRange,
    /// Canopy radius divided by plant height.
    pub canopy_radius_fraction: FloatRange,
}

impl VegetationSamplingConfig {
    /// The standard values.
    pub open spec fn standard() -> VegetationSamplingConfig {
        VegetationSamplingConfig {
            count: U32Range::new(0, 24),
            deciduous_weight: 42,
            evergreen_weight: 22,
            palm_weight: 12,
            shrub_weight: 24,
            building_setback_m: FloatRange::decimal(15, 50, 10),
            site_distance_m: FloatRange::decimal(0, 28, 1),
            tree_height_m: FloatRange::decimal(45, 135, 10),
            shrub_height_m: FloatRange::decimal(55, 220, 100),
            canopy_radius_fraction: FloatRange::decimal(18, 38, 100),
        }
    }
}

impl Default for VegetationSamplingConfig {
    fn default() -> (r: Self)
        ensures
            r == VegetationSamplingConfig::standard(),
    {
        VegetationSamplingConfig {
            count: U32Range::new(0, 24),
            deciduous_weight: 42,
            evergreen_weight: 22,
            palm_weight: 12,
            shrub_weight: 24,
            building_setback_m: FloatRange::decimal(15, 50, 10),
            site_distance_m: FloatRange::decimal(0, 28, 1),
            tree_height_m: FloatRange::decimal(45, 135, 10),
            shrub_height_m: FloatRange::decimal(55, 220, 100),
            canopy_radius_fraction: FloatRange::decimal(18, 38, 100),
        }
    }
}

/// Complete site-composition configuration.
#[derive(Clone, Debug, PartialEq, Eq)]
pub struct CompositionSamplingConfig {
    /// Correlated daylight and night-time exposure regimes.
    pub day_phase: DayPhaseSamplingConfig,
    /// Correlated city, urban, suburban, roadside, and remote regimes.
    pub domains: SceneDomainSamplingConfig,
    /// Correlated weather and sky conditions.
    pub weather: WeatherSamplingConfig,
    /// Ground and car-park surface palette.
    pub ground_materials: Vec<MaterialChoice>,
    /// Glazing and entrance variation.
    pub facade: FacadeSamplingConfig,
    /// Optional wings, vestibules, and service annexes attached to the shell.
    pub building_extensions: BuildingExtensionSamplingConfig,
    /// Sign presence, type, and placement.
    pub signage: SignageSamplingConfig,
    /// Neighbouring building masses.
    pub background_buildings: BackgroundBuildingSamplingConfig,
    /// Trees and shrubs around the site.
    pub vegetation: VegetationSamplingConfig,
}

impl CompositionSamplingConfig {
    /// The standard site composition.
    pub open spec fn is_standard(self) -> bool {
        &&& self.day_phase.is_standard()
        &&& self.domains.is_standard()
        &&& self.weather.is_standard()
        &&& self.ground_materials@.len() == 4
        &&& self.ground_materials@[0].is_fixed(
            "aged_asphalt"@,
            42,
            seq![Single::ratio(19, 100), Single::ratio(2, 10), Single::ratio(19, 100)],
            FloatRange::decimal(66, 96, 100),
        )
        &&& self.ground_materials@[1].is_fixed(
            "light_concrete"@,
            26,
            seq![Single::ratio(52, 100), Single::ratio(5, 10), Single::ratio(45, 100)],
            FloatRange::decimal(58, 90, 100),
        )
        &&& self.ground_materials@[2].is_fixed(
            "dark_asphalt"@,
            22,
            seq![Single::ratio(95, 1000), Single::ratio(105, 1000), Single::ratio(1, 10)],
            FloatRange::decimal(60, 92, 100),
        )
        &&& self.ground_materials@[3].is_fixed(
            "paving_blocks"@,
            10,
            seq![Single::ratio(4, 10), Single::ratio(34, 100), Single::ratio(28, 100)],
            FloatRange::decimal(62, 94, 100),
        )
        &&& self.facade.is_standard()
        &&& self.building_extensions == BuildingExtensionSamplingConfig::standard()
        &&& self.signage == SignageSamplingConfig::standard()
        &&& self.background_buildings == BackgroundBuildingSamplingConfig::standard()
        &&& self.vegetation == VegetationSamplingConfig::standard()
    }
}

impl Default for CompositionSamplingConfig {
    fn default() -> (r: Self)
        ensures
            r.is_standard(),
    {
        CompositionSamplingConfig {
            day_phase: DayPhaseSamplingConfig::default(),
            domains: SceneDomainSamplingConfig::default(),
            weather: WeatherSamplingConfig::default(),
            ground_materials: vec![
                material(
                    "aged_asphalt",
                    42,
                    [Single::ratio(19, 100), Single::ratio(2, 10), Single::ratio(19, 100)],
                    FloatRange::decimal(66, 96, 100),
                ),
                material(
                    "light_concrete",
                    26,
                    [Single::ratio(52, 100), Single::ratio(5, 10), Single::ratio(45, 100)],
                    FloatRange::decimal(58, 90, 100),
                ),
                material(
                    "dark_asphalt",
                    22,
                    [Single::ratio(95, 1000), Single::ratio(105, 1000), Single::ratio(1, 10)],
                    FloatRange::decimal(60, 92, 100),
                ),
                material(
                    "paving_blocks",
                    10,
                    [Single::ratio(4, 10), Single::ratio(34, 100), Single::ratio(28, 100)],
                    FloatRange::decimal(62, 94, 100),
                ),
            ],
            facade: FacadeSamplingConfig::default(),
            building_extensions: BuildingExtensionSamplingConfig::default(),
            signage: SignageSamplingConfig::default(),
            background_buildings: BackgroundBuildingSamplingConfig::default(),
            vegetation: VegetationSamplingConfig::default(),
        }
    }
}

/// Cardinal façade in the right-handed, Y-up site coordinate system.
#[derive(Clone, Copy, Debug, PartialEq, Eq, Hash, Structural)]
pub enum FacadeSide {
    /// Wall at negative Z.
    Front,
    /// Wall at positive X.
    Right,
    /// Wall at positive Z.
    Back,
    /// Wall at negative X.
    Left,
}

/// Correlated sampled environment values used by sky, lighting, and materials.
#[derive(Clone, Copy, Debug, PartialEq, Eq, Structural)]
pub struct SampledEnvironment {
    /// Day, twilight, or night regime.
    pub day_phase: DayPhase,
    /// Sampled site-density regime.
    pub domain: SceneDomain,
    /// Selected weather family.
    pub weather: WeatherPreset,
    /// Penumbra softness in `[0, 1]`.
    pub shadow_softness: Single,
    /// Ground wetness in `[0, 1]`.
    pub ground_wetness: Single,
    /// Approximate atmospheric visibility in kilometres.
    pub visibility_km: Single,
    /// Correlated daylight white point in kelvin.
    pub color_temperature_k: Single,
    /// Camera exposure in EV100, correlated with day phase.
    pub camera_exposure_ev100: Single,
    /// Artificial site-light strength, correlated with day phase.
    pub artificial_light_strength: Single,
}

/// Glazing, entrance, and weathering values for the target façade.
#[derive(Clone, Debug, PartialEq, Eq)]
pub struct SampledFacade {
    /// Fraction of wall area occupied by glazing.
    pub glazing_fraction: Single,
    /// Resolved glazing material.
    pub glazing_material: SampledMaterial,
    /// Principal entrance side.
    pub entrance_side: FacadeSide,
    /// Principal entrance width in metres.
    pub entrance_width_m: Single,
    /// Additional dirt and staining amount.
    pub weathering: Single,
}

/// One low addition structurally attached to a primary-building façade.
#[derive(Clone, Copy, Debug, PartialEq, Eq, Structural)]
pub struct SampledBuildingExtension {
    /// Coarse real-world use controlling proportions and façade treatment.
    pub kind: BuildingExtensionKind,
    /// Original-building façade to which the addition is attached.
    pub facade: FacadeSide,
    /// Ground-level world-space centre of the addition footprint.
    pub position: Vec3,
    /// Axis-aligned width, wall height, and depth in metres.
    pub size_m: Vec3,
    /// Low roof form above the addition walls.
    pub roof: BuildingExtensionRoof,
    /// Shed rise toward the original building; zero for a flat roof.
    pub roof_rise_m: Single,
}

/// One resolved sign plane on the target building.
#[derive(Clone, Debug, PartialEq, Eq)]
pub struct SampledSignage {
    /// Retained, removed, or replacement sign class.
    pub kind: SignageKind,
    /// Host wall.
    pub facade: FacadeSide,
    /// Sign centre in target-building local coordinates.
    pub center: Vec3,
    /// Physical width and height in metres.
    pub size_m: Vec2,
    /// Light emission in renderer units; removed ghosts are always zero.
    pub emissive_strength: Single,
    /// Surface fading and damage in `[0, 1]`.
    pub weathering: Single,
}

/// One neighbouring building mass with a resolved façade material.
#[derive(Clone, Debug, PartialEq, Eq)]
pub struct SampledBackgroundBuilding {
    /// Coarse building use/form selected from the site regime.
    pub kind: BackgroundBuildingKind,
    /// World-space centre at ground level.
    pub position: Vec3,
    /// Width, height, and depth in metres.
    pub size_m: Vec3,
    /// Rotation around world Y.
    pub yaw_degrees: Single,
    /// Resolved façade finish.
    pub material: SampledMaterial,
}

/// Coarse neighbouring-building form.
#[derive(Clone, Copy, Debug, PartialEq, Eq, Structural)]
pub enum BackgroundBuildingKind {
    /// One- or two-storey shop, restaurant, or service building.
    LowCommercial,
    /// Denser mixed-use or office mass used mainly in city scenes.
    MidriseMixedUse,
    /// Detached or small attached residential mass.
    Residential,
    /// Warehouse or workshop shed.
    IndustrialShed,
}

impl Default for BackgroundBuildingKind {
    fn default() -> (r: Self)
        ensures
            r == BackgroundBuildingKind::LowCommercial,
    {
        BackgroundBuildingKind::LowCommercial
    }
}

/// Parking, road, curb, and utility layout correlated with a site domain.
#[derive(Clone, Debug, PartialEq, Eq)]
pub struct SampledSiteInfrastructure {
    /// Site regime from which all fields were sampled.
    pub domain: SceneDomain,
    /// Number of marked parking bays.
    pub parking_bays: u32,
    /// Centre of the principal parking field in world coordinates.
    pub parking_center: Vec3,
    /// Parking bay width and length in metres.
    pub parking_bay_size_m: Vec2,
    /// Orientation of parking rows around world Y.
    pub parking_yaw_degrees: Single,
    /// Adjacent road form.
    pub road_kind: RoadKind,
    /// Number of road lanes.
    pub road_lanes: u32,
    /// Nominal lane width in metres.
    pub lane_width_m: Single,
    /// Road centre-line offset along world Z.
    pub road_center_z_m: Single,
    /// Whether the site edge has a raised curb.
    pub raised_curb: bool,
    /// Utility and street-light poles along the road.
    pub utility_poles: Vec<SampledUtilityPole>,
    /// Overhead connections between pole indexes.
    pub utility_lines: Vec<SampledUtilityLine>,
}

/// One utility or street-light pole.
#[derive(Clone, Copy, Debug, PartialEq, Eq, Structural)]
pub struct SampledUtilityPole {
    /// Pole base in world coordinates.
    pub position: Vec3,
    /// Pole height in metres.
    pub height_m: Single,
    /// Whether the pole carries an artificial luminaire.
    pub has_light: bool,
}

/// One overhead cable span referencing sampled pole indexes.
#[derive(Clone, Copy, Debug, PartialEq, Eq, Structural)]
pub struct SampledUtilityLine {
    /// First pole index.
    pub start_pole: u16,
    /// Second pole index.
    pub end_pole: u16,
    /// Mid-span sag in metres.
    pub sag_m: Single,
}

/// One procedural plant with enough dimensions for a renderer to resolve an asset.
#[derive(Clone, Copy, Debug, PartialEq, Eq, Structural)]
pub struct SampledVegetation {
    /// Coarse plant family.
    pub kind: VegetationKind,
    /// World-space base position.
    pub position: Vec3,
    /// Overall plant height in metres.
    pub height_m: Single,
    /// Approximate canopy or hedge radius in metres.
    pub canopy_radius_m: Single,
    /// Rotation around world Y.
    pub yaw_degrees: Single,
    /// Seasonal hue/value variation in `[-1, 1]`.
    pub seasonal_variation: Single,
}

/// Fully sampled realism plan surrounding the target roof.
#[derive(Clone, Debug, PartialEq, Eq)]
pub struct SampledComposition {
    /// Source-asset IDs resolved by the producer after procedural sampling.
    /// IDs refer to hashed/licensed entries in the dataset manifest.
    pub source_asset_ids: Vec<String>,
    /// Correlated environment, absent only in legacy deserialized plans.
    pub environment: Option<SampledEnvironment>,
    /// Resolved ground material, absent only in legacy plans.
    pub ground_material: Option<SampledMaterial>,
    /// Target-building façade detail, absent only in legacy plans.
    pub facade: Option<SampledFacade>,
    /// Optional additions attached to the primary building shell.
    pub building_extensions: Vec<SampledBuildingExtension>,
    /// Zero or more façade signs.
    pub signage: Vec<SampledSignage>,
    /// Neighbouring building masses.
    pub background_buildings: Vec<SampledBackgroundBuilding>,
    /// Site vegetation.
    pub vegetation: Vec<SampledVegetation>,
    /// Parking, road, curb, and utility layout.
    pub infrastructure: Option<SampledSiteInfrastructure>,
}

impl Default for SampledComposition {
    fn default() -> (r: Self)
        ensures
            r.source_asset_ids@.len() == 0,
            r.environment is None,
            r.ground_material is None,
            r.facade is None,
            r.building_extensions@.len() == 0,
            r.signage@.len() == 0,
            r.background_buildings@.len() == 0,
            r.vegetation@.len() == 0,
            r.infrastructure is None,
    {
        SampledComposition {
            source_asset_ids: Vec::new(),
            environment: None,
            ground_material: None,
            facade: None,
            building_extensions: Vec::new(),
            signage: Vec::new(),
            background_buildings: Vec::new(),
            vegetation: Vec::new(),
            infrastructure: None,
        }
    }
}

} // verus!
