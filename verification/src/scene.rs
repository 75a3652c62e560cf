//! Procedural scenes around a roof, and what a renderer demands of them.

use crate::render_error::RenderError;
use crate::single::Single;
use crate::surface::{MaterialSelection, SurfacePattern};
use vstd::prelude::*;

verus! {

/// Local lights that one scene may hold.
pub const MAX_LIGHTS: usize = 4;

/// Whether all three numbers are finite.
pub open spec fn spec_all_finite(v: [Single; 3]) -> bool {
    v[0].is_finite() && v[1].is_finite() && v[2].is_finite()
}

/// Whether all three numbers are finite.
#[verifier::when_used_as_spec(spec_all_finite)]
pub fn all_finite(v: [Single; 3]) -> (r: bool)
    ensures
        r == spec_all_finite(v),
{
    v[0].is_finite() && v[1].is_finite() && v[2].is_finite()
}

/// Whether some of three numbers is not above zero.
pub open spec fn spec_some_vanish(v: [Single; 3]) -> bool {
    v[0].at_most(Single::zero()) || v[1].at_most(Single::zero()) || v[2].at_most(Single::zero())
}

/// Whether some of three numbers is not above zero.
#[verifier::when_used_as_spec(spec_some_vanish)]
pub fn some_vanish(v: [Single; 3]) -> (r: bool)
    ensures
        r == spec_some_vanish(v),
{
    v[0].at_most(Single::zero()) || v[1].at_most(Single::zero()) || v[2].at_most(Single::zero())
}

/// Whether some of three numbers is below zero.
pub open spec fn spec_some_negative(v: [Single; 3]) -> bool {
    v[0].less(Single::zero()) || v[1].less(Single::zero()) || v[2].less(Single::zero())
}

/// Whether some of three numbers is below zero.
#[verifier::when_used_as_spec(spec_some_negative)]
pub fn some_negative(v: [Single; 3]) -> (r: bool)
    ensures
        r == spec_some_negative(v),
{
    v[0].less(Single::zero()) || v[1].less(Single::zero()) || v[2].less(Single::zero())
}

/// Whether a number lies between nothing and all.
pub open spec fn spec_is_share(value: Single) -> bool {
    value.within(Single::zero(), Single::one())
}

/// Whether a number lies between nothing and all.
#[verifier::when_used_as_spec(spec_is_share)]
pub fn is_share(value: Single) -> (r: bool)
    ensures
        r == spec_is_share(value),
{
    value.within(Single::zero(), Single::one())
}

/// Broad setting used to vary background density and street furniture.
#[derive(Clone, Copy, Debug, PartialEq, Eq, Structural)]
pub enum EnvironmentDomain {
    /// Dense multi-storey surroundings and street lighting.
    City,
    /// Low commercial neighbours, parking, signs, and mixed vegetation.
    Urban,
    /// Open ground with sparse buildings and mature vegetation.
    Remote,
}

impl Default for EnvironmentDomain {
    fn default() -> (r: EnvironmentDomain)
        ensures
            r == EnvironmentDomain::Urban,
    {
        EnvironmentDomain::Urban
    }
}

/// Lighting period used by procedural sky, emissive materials, and local lights.
#[derive(Clone, Copy, Debug, PartialEq, Eq, Structural)]
pub enum TimeOfDay {
    /// Sun and sky illumination dominate.
    Day,
    /// Low-angle sky with partially active artificial lighting.
    Twilight,
    /// Low sky illumination with illuminated windows and signs.
    Night,
}

impl Default for TimeOfDay {
    fn default() -> (r: TimeOfDay)
        ensures
            r == TimeOfDay::Day,
    {
        TimeOfDay::Day
    }
}

impl TimeOfDay {
    /// Share of the artificial light that is switched on.
    pub open spec fn spec_emission_scale(self) -> Single {
        match self {
            TimeOfDay::Day => Single::zero(),
            TimeOfDay::Twilight => Single::ratio(45, 100),
            TimeOfDay::Night => Single::one(),
        }
    }

    /// Share of the artificial light that is switched on.
    #[verifier::when_used_as_spec(spec_emission_scale)]
    pub fn emission_scale(self) -> (r: Single)
        ensures
            r == self.spec_emission_scale(),
    {
        match self {
            TimeOfDay::Day => Single::zero(),
            TimeOfDay::Twilight => Single::ratio(45, 100),
            TimeOfDay::Night => Single::one(),
        }
    }
}

/// Weather family used for atmospheric and ground response.
#[derive(Clone, Copy, Debug, PartialEq, Eq, Structural)]
pub enum WeatherAppearance {
    /// Harder shadows and a mostly unobscured sky.
    Clear,
    /// Broken cloud with direct and indirect illumination.
    PartlyCloudy,
    /// Diffuse, cloud-dominated sky.
    Overcast,
    /// Reduced atmospheric visibility.
    Hazy,
    /// Wet ground beneath broken or heavy cloud.
    AfterRain,
}

impl Default for WeatherAppearance {
    fn default() -> (r: WeatherAppearance)
        ensures
            r == WeatherAppearance::Clear,
    {
        WeatherAppearance::Clear
    }
}

/// Reproducible environment controls carried with a render mesh.
#[derive(Clone, Copy, Debug, PartialEq)]
pub struct RenderEnvironment {
    /// Surrounding land-use density.
    pub domain: EnvironmentDomain,
    /// Day or night appearance family.
    pub time_of_day: TimeOfDay,
    /// Procedural cloud amount in `[0, 1]` when no environment map is supplied.
    pub cloud_cover: Single,
    /// Atmospheric desaturation near the horizon in `[0, 1]`.
    pub haze: Single,
    /// Approximate atmospheric visibility in kilometres.
    pub visibility_km: Single,
    /// Correlated categorical weather family.
    pub weather: WeatherAppearance,
    /// Linear exposure multiplier applied to an environment map.
    pub environment_exposure: Single,
    /// Overall RGB exposure compensation in stops.
    pub exposure_ev: Single,
    /// White-balance target in Kelvin.
    pub color_temperature_kelvin: Single,
    /// Directional shadow-filter radius in `[0, 1]`.
    pub shadow_softness: Single,
    /// Darkening and gloss applied to ground surfaces in `[0, 1]`.
    pub ground_wetness: Single,
    /// Stable seed used by shader-side surface and sky variation.
    pub seed: u32,
    /// Rotation applied to an equirectangular environment around world up.
    pub environment_yaw_radians: Single,
}

impl RenderEnvironment {
    /// A partly cloudy day in town.
    pub open spec fn spec_standard() -> RenderEnvironment {
        RenderEnvironment {
            domain: EnvironmentDomain::Urban,
            time_of_day: TimeOfDay::Day,
            cloud_cover: Single::ratio(25, 100),
            haze: Single::ratio(15, 100),
            visibility_km: Single::ratio(45, 1),
            weather: WeatherAppearance::PartlyCloudy,
            environment_exposure: Single::one(),
            exposure_ev: Single::zero(),
            color_temperature_kelvin: Single::ratio(6500, 1),
            shadow_softness: Single::ratio(25, 100),
            ground_wetness: Single::zero(),
            seed: 1,
            environment_yaw_radians: Single::zero(),
        }
    }

    /// A partly cloudy day in town.
    #[verifier::when_used_as_spec(spec_standard)]
    pub fn standard() -> (r: RenderEnvironment)
        ensures
            r == Self::spec_standard(),
    {
        RenderEnvironment {
            domain: EnvironmentDomain::Urban,
            time_of_day: TimeOfDay::Day,
            cloud_cover: Single::ratio(25, 100),
            haze: Single::ratio(15, 100),
            visibility_km: Single::ratio(45, 1),
            weather: WeatherAppearance::PartlyCloudy,
            environment_exposure: Single::one(),
            exposure_ev: Single::zero(),
            color_temperature_kelvin: Single::ratio(6500, 1),
            shadow_softness: Single::ratio(25, 100),
            ground_wetness: Single::zero(),
            seed: 1,
            environment_yaw_radians: Single::zero(),
        }
    }

    /// Whether every control is in the range that the shader takes.
    pub open spec fn spec_is_valid(self) -> bool {
        is_share(self.cloud_cover)
            && is_share(self.haze)
            && self.visibility_km.is_finite()
            && Single::zero().less(self.visibility_km)
            && self.environment_exposure.is_finite()
            && Single::zero().at_most(self.environment_exposure)
            && self.exposure_ev.is_finite()
            && self.color_temperature_kelvin.is_finite()
            && self.color_temperature_kelvin.within(Single::ratio(1500, 1), Single::ratio(12000, 1))
            && is_share(self.shadow_softness)
            && is_share(self.ground_wetness)
            && self.environment_yaw_radians.is_finite()
    }

    /// Whether every control is in the range that the shader takes.
    #[verifier::when_used_as_spec(spec_is_valid)]
    pub fn is_valid(self) -> (r: bool)
        ensures
            r == self.spec_is_valid(),
    {
        is_share(self.cloud_cover)
            && is_share(self.haze)
            && self.visibility_km.is_finite()
            && Single::zero().less(self.visibility_km)
            && self.environment_exposure.is_finite()
            && Single::zero().at_most(self.environment_exposure)
            && self.exposure_ev.is_finite()
            && self.color_temperature_kelvin.is_finite()
            && self.color_temperature_kelvin.within(Single::ratio(1500, 1), Single::ratio(12000, 1))
            && is_share(self.shadow_softness)
            && is_share(self.ground_wetness)
            && self.environment_yaw_radians.is_finite()
    }
}

impl Default for RenderEnvironment {
    fn default() -> (r: RenderEnvironment)
        ensures
            r == RenderEnvironment::standard(),
    {
        RenderEnvironment::standard()
    }
}

/// Cardinal side of the target building in its right-handed, Y-up frame.
#[derive(Clone, Copy, Debug, PartialEq, Eq, Structural)]
pub enum BuildingSide {
    /// Wall at negative Z.
    Front,
    /// Wall at positive X.
    Right,
    /// Wall at positive Z.
    Back,
    /// Wall at negative X.
    Left,
}

impl Default for BuildingSide {
    fn default() -> (r: BuildingSide)
        ensures
            r == BuildingSide::Front,
    {
        BuildingSide::Front
    }
}

/// Coarse use of an addition attached to the primary building.
#[derive(Clone, Copy, Debug, PartialEq, Eq, Structural)]
pub enum BuildingExtensionKind {
    /// A broad, windowed dining-room wing.
    DiningWing,
    /// A compact glazed entrance vestibule.
    EntranceVestibule,
    /// A plainer kitchen or service annex.
    ServiceAnnex,
}

/// Low roof form above a primary-building addition.
#[derive(Clone, Copy, Debug, PartialEq, Eq, Structural)]
pub enum BuildingExtensionRoof {
    /// Flat roof with a shallow perimeter cap.
    Flat,
    /// Single-slope roof rising toward the original building.
    Shed,
}

/// One low structural addition joined to a primary-building façade.
#[derive(Clone, Copy, Debug, PartialEq)]
pub struct BuildingExtensionDescription {
    /// Coarse real-world use controlling wall treatment.
    pub kind: BuildingExtensionKind,
    /// Original-building wall receiving the addition.
    pub facade: BuildingSide,
    /// Ground-level world-space centre of the addition footprint.
    pub position: [Single; 3],
    /// Axis-aligned width, wall height, and depth.
    pub size: [Single; 3],
    /// Addition roof form.
    pub roof: BuildingExtensionRoof,
    /// Rise toward the host wall for a shed roof.
    pub roof_rise_m: Single,
}

impl BuildingExtensionDescription {
    /// Whether an addition stands on the ground, below the eave of a wall, with a roof
    /// that fits its form.
    pub open spec fn spec_is_valid(self, wall_height_m: Single) -> bool {
        all_finite(self.position)
            && all_finite(self.size)
            && self.roof_rise_m.is_finite()
            && self.position[1].equals(Single::zero())
            && !some_vanish(self.size)
            && !wall_height_m.at_most(self.size[1].plus(self.roof_rise_m))
            && !self.roof_rise_m.less(Single::zero())
            && self.roof_fits()
    }

    /// Whether an addition stands on the ground, below the eave of a wall, with a roof
    /// that fits its form.
    #[verifier::when_used_as_spec(spec_is_valid)]
    pub fn is_valid(self, wall_height_m: Single) -> (r: bool)
        ensures
            r == self.spec_is_valid(wall_height_m),
    {
        all_finite(self.position)
            && all_finite(self.size)
            && self.roof_rise_m.is_finite()
            && self.position[1].equals(Single::zero())
            && !some_vanish(self.size)
            && !wall_height_m.at_most(self.size[1].plus(self.roof_rise_m))
            && !self.roof_rise_m.less(Single::zero())
            && self.roof_fits()
    }

    /// A flat roof does not rise, and a shed roof does.
    pub open spec fn spec_roof_fits(self) -> bool {
        match self.roof {
            BuildingExtensionRoof::Flat => self.roof_rise_m.equals(Single::zero()),
            BuildingExtensionRoof::Shed => !self.roof_rise_m.at_most(Single::zero()),
        }
    }

    /// A flat roof does not rise, and a shed roof does.
    #[verifier::when_used_as_spec(spec_roof_fits)]
    pub fn roof_fits(self) -> (r: bool)
        ensures
            r == self.spec_roof_fits(),
    {
        match self.roof {
            BuildingExtensionRoof::Flat => self.roof_rise_m.equals(Single::zero()),
            BuildingExtensionRoof::Shed => !self.roof_rise_m.at_most(Single::zero()),
        }
    }
}

/// Dimensions and repetition controls for the restaurant facade.
#[derive(Clone, Copy, Debug, PartialEq)]
pub struct FacadeDescription {
    /// Height of the bottom of the long window band.
    pub window_sill_height_m: Single,
    /// Height of facade glazing.
    pub window_height_m: Single,
    /// Number of glazed panels on the front and rear elevations.
    pub long_side_window_count: u32,
    /// Number of glazed panels on each short elevation.
    pub short_side_window_count: u32,
    /// Width of the main front entrance.
    pub entrance_width_m: Single,
    /// Height of the main front entrance.
    pub entrance_height_m: Single,
    /// Whether to add a shallow entrance canopy.
    pub entrance_canopy: bool,
    /// Wall carrying the principal entrance and its canopy.
    pub entrance_side: BuildingSide,
    /// Dirt, fading, and staining applied to exterior walls in `[0, 1]`.
    pub weathering: Single,
    /// Sampled nonlinear glazing base colour.
    pub glazing_color_srgb: [Single; 3],
    /// Sampled glazing roughness in `[0, 1]`.
    pub glazing_roughness: Single,
    /// Dirt and fading folded into glazing appearance in `[0, 1]`.
    pub glazing_weathering: Single,
}

impl FacadeDescription {
    /// A long window band on every side and a canopied front entrance.
    pub open spec fn spec_standard() -> FacadeDescription {
        FacadeDescription {
            window_sill_height_m: Single::ratio(75, 100),
            window_height_m: Single::ratio(155, 100),
            long_side_window_count: 8,
            short_side_window_count: 5,
            entrance_width_m: Single::ratio(18, 10),
            entrance_height_m: Single::ratio(225, 100),
            entrance_canopy: true,
            entrance_side: BuildingSide::Front,
            weathering: Single::ratio(15, 100),
            glazing_color_srgb: [
                Single::ratio(12, 100),
                Single::ratio(18, 100),
                Single::ratio(22, 100),
            ],
            glazing_roughness: Single::ratio(16, 100),
            glazing_weathering: Single::ratio(5, 100),
        }
    }

    /// A long window band on every side and a canopied front entrance.
    #[verifier::when_used_as_spec(spec_standard)]
    pub fn standard() -> (r: FacadeDescription)
        ensures
            r == Self::spec_standard(),
    {
        FacadeDescription {
            window_sill_height_m: Single::ratio(75, 100),
            window_height_m: Single::ratio(155, 100),
            long_side_window_count: 8,
            short_side_window_count: 5,
            entrance_width_m: Single::ratio(18, 10),
            entrance_height_m: Single::ratio(225, 100),
            entrance_canopy: true,
            entrance_side: BuildingSide::Front,
            weathering: Single::ratio(15, 100),
            glazing_color_srgb: [
                Single::ratio(12, 100),
                Single::ratio(18, 100),
                Single::ratio(22, 100),
            ],
            glazing_roughness: Single::ratio(16, 100),
            glazing_weathering: Single::ratio(5, 100),
        }
    }

    /// Whether windows and entrance fit below the eave and the finish is in range.
    pub open spec fn spec_is_valid(self, wall_height_m: Single) -> bool {
        is_size(self.window_sill_height_m)
            && is_size(self.window_height_m)
            && is_size(self.entrance_width_m)
            && is_size(self.entrance_height_m)
            && !wall_height_m.at_most(self.window_sill_height_m.plus(self.window_height_m))
            && !wall_height_m.at_most(self.entrance_height_m)
            && self.long_side_window_count != 0
            && self.short_side_window_count != 0
            && is_share(self.weathering)
            && all_finite(self.glazing_color_srgb)
            && !some_negative(self.glazing_color_srgb)
            && is_share(self.glazing_roughness)
            && is_share(self.glazing_weathering)
    }

    /// Whether windows and entrance fit below the eave and the finish is in range.
    #[verifier::when_used_as_spec(spec_is_valid)]
    pub fn is_valid(self, wall_height_m: Single) -> (r: bool)
        ensures
            r == self.spec_is_valid(wall_height_m),
    {
        is_size(self.window_sill_height_m)
            && is_size(self.window_height_m)
            && is_size(self.entrance_width_m)
            && is_size(self.entrance_height_m)
            && !wall_height_m.at_most(self.window_sill_height_m.plus(self.window_height_m))
            && !wall_height_m.at_most(self.entrance_height_m)
            && self.long_side_window_count != 0
            && self.short_side_window_count != 0
            && is_share(self.weathering)
            && all_finite(self.glazing_color_srgb)
            && !some_negative(self.glazing_color_srgb)
            && is_share(self.glazing_roughness)
            && is_share(self.glazing_weathering)
    }
}

/// Whether a number is finite and above zero.
pub open spec fn spec_is_size(value: Single) -> bool {
    value.is_finite() && !value.at_most(Single::zero())
}

/// Whether a number is finite and above zero.
#[verifier::when_used_as_spec(spec_is_size)]
pub fn is_size(value: Single) -> (r: bool)
    ensures
        r == spec_is_size(value),
{
    value.is_finite() && !value.at_most(Single::zero())
}

impl Default for FacadeDescription {
    fn default() -> (r: FacadeDescription)
        ensures
            r == FacadeDescription::standard(),
    {
        FacadeDescription::standard()
    }
}

/// Visual identity of an attached or freestanding sign.
#[derive(Clone, Copy, Debug, PartialEq, Eq, Structural)]
pub enum SignStyle {
    /// Active Pizza Hut branding.
    PizzaHut,
    /// Faded outline or mounting scar after sign removal.
    RemovedGhost,
    /// Replacement branding on a converted former restaurant.
    Tenant,
    /// Unbranded backing panel.
    Blank,
}

/// Physical mounting family for sign geometry.
#[derive(Clone, Copy, Debug, PartialEq, Eq, Structural)]
pub enum SignMount {
    /// Flat panel mounted to an exterior wall.
    Facade,
    /// Panel near the roof crown or eave.
    Roof,
    /// Freestanding panel with a generated support pole.
    Pole,
}

/// Explicit sign placement and appearance for one scene.
#[derive(Clone, Copy, Debug, PartialEq)]
pub struct SignDescription {
    /// Branding state.
    pub style: SignStyle,
    /// Attachment family.
    pub mount: SignMount,
    /// World-space panel centre.
    pub center: [Single; 3],
    /// Panel width and height in metres.
    pub size: [Single; 2],
    /// Rotation around world up in radians.
    pub yaw_radians: Single,
    /// Night-time emissive multiplier; zero disables emission.
    pub emissive_strength: Single,
    /// Surface fading and damage in `[0, 1]`.
    pub weathering: Single,
}

impl SignDescription {
    /// Whether a sign has an extent and a finish in range.
    pub open spec fn spec_is_valid(self) -> bool {
        all_finite(self.center)
            && is_size(self.size[0])
            && is_size(self.size[1])
            && self.yaw_radians.is_finite()
            && self.emissive_strength.is_finite()
            && self.weathering.is_finite()
            && !self.emissive_strength.less(Single::zero())
            && is_share(self.weathering)
    }

    /// Whether a sign has an extent and a finish in range.
    #[verifier::when_used_as_spec(spec_is_valid)]
    pub fn is_valid(self) -> (r: bool)
        ensures
            r == self.spec_is_valid(),
    {
        all_finite(self.center)
            && is_size(self.size[0])
            && is_size(self.size[1])
            && self.yaw_radians.is_finite()
            && self.emissive_strength.is_finite()
            && self.weathering.is_finite()
            && !self.emissive_strength.less(Single::zero())
            && is_share(self.weathering)
    }
}

/// Coarse geometry family for a neighbouring building.
#[derive(Clone, Copy, Debug, PartialEq, Eq, Structural)]
pub enum BackgroundBuildingKind {
    /// One- or two-storey commercial box.
    LowCommercial,
    /// Taller mixed-use or office mass with repeated windows.
    MidriseMixedUse,
    /// Smaller building with a pitched roof.
    Residential,
    /// Wide metal-clad shed or workshop.
    IndustrialShed,
}

impl Default for BackgroundBuildingKind {
    fn default() -> (r: BackgroundBuildingKind)
        ensures
            r == BackgroundBuildingKind::LowCommercial,
    {
        BackgroundBuildingKind::LowCommercial
    }
}

/// One non-target building contributing depth and appearance context.
#[derive(Clone, Copy, Debug, PartialEq)]
pub struct BackgroundBuilding {
    /// World-space centre of the footprint at ground level.
    pub center: [Single; 3],
    /// Width, height, and depth in metres.
    pub size: [Single; 3],
    /// Rotation around world up in radians.
    pub yaw_radians: Single,
    /// Coarse massing family.
    pub kind: BackgroundBuildingKind,
    /// Sampled nonlinear base-colour tint.
    pub base_color_srgb: [Single; 3],
    /// Surface weathering in `[0, 1]`.
    pub weathering: Single,
    /// Sampled surface roughness in `[0, 1]`.
    pub roughness: Single,
    /// Per-building wall treatment; roof caps use a non-windowed derivative.
    pub surface_pattern: SurfacePattern,
}

impl BackgroundBuilding {
    /// Whether a neighbour has an extent, a finish in range and a known treatment.
    pub open spec fn spec_is_valid(self) -> bool {
        all_finite(self.center)
            && all_finite(self.size)
            && all_finite(self.base_color_srgb)
            && self.yaw_radians.is_finite()
            && self.weathering.is_finite()
            && self.roughness.is_finite()
            && !some_vanish(self.size)
            && !some_negative(self.base_color_srgb)
            && is_share(self.weathering)
            && is_share(self.roughness)
            && self.surface_pattern.is_known()
    }

    /// Whether a neighbour has an extent, a finish in range and a known treatment.
    #[verifier::when_used_as_spec(spec_is_valid)]
    pub fn is_valid(self) -> (r: bool)
        ensures
            r == self.spec_is_valid(),
    {
        all_finite(self.center)
            && all_finite(self.size)
            && all_finite(self.base_color_srgb)
            && self.yaw_radians.is_finite()
            && self.weathering.is_finite()
            && self.roughness.is_finite()
            && !some_vanish(self.size)
            && !some_negative(self.base_color_srgb)
            && is_share(self.weathering)
            && is_share(self.roughness)
            && self.surface_pattern.is_known()
    }
}

/// Coarse geometry family for one procedural plant.
#[derive(Clone, Copy, Debug, PartialEq, Eq, Structural)]
pub enum TreeKind {
    /// Broad-canopy deciduous tree.
    Deciduous,
    /// Narrow layered evergreen.
    Evergreen,
    /// Tall trunk with a compact frond crown.
    Palm,
    /// Low multi-lobed shrub or hedge mass.
    Shrub,
}

impl Default for TreeKind {
    fn default() -> (r: TreeKind)
        ensures
            r == TreeKind::Deciduous,
    {
        TreeKind::Deciduous
    }
}

/// One low-poly vegetation instance.
#[derive(Clone, Copy, Debug, PartialEq)]
pub struct TreeInstance {
    /// World-space position at the centre of the trunk base.
    pub position: [Single; 3],
    /// Total tree height in metres.
    pub height_m: Single,
    /// Approximate crown radius in metres.
    pub crown_radius_m: Single,
    /// Coarse plant geometry family.
    pub kind: TreeKind,
    /// Rotation around world up in radians.
    pub yaw_radians: Single,
    /// Seasonal foliage variation in `[-1, 1]`.
    pub seasonal_variation: Single,
}

impl TreeInstance {
    /// Whether a plant has an extent and a season in range.
    pub open spec fn spec_is_valid(self) -> bool {
        all_finite(self.position)
            && is_size(self.height_m)
            && is_size(self.crown_radius_m)
            && self.yaw_radians.is_finite()
            && self.seasonal_variation.is_finite()
            && self.seasonal_variation.within(Single::ratio((-1) as i32, 1), Single::one())
    }

    /// Whether a plant has an extent and a season in range.
    #[verifier::when_used_as_spec(spec_is_valid)]
    pub fn is_valid(self) -> (r: bool)
        ensures
            r == self.spec_is_valid(),
    {
        all_finite(self.position)
            && is_size(self.height_m)
            && is_size(self.crown_radius_m)
            && self.yaw_radians.is_finite()
            && self.seasonal_variation.is_finite()
            && self.seasonal_variation.within(Single::ratio((-1) as i32, 1), Single::one())
    }
}

/// Supported renderer-side coarse occluder geometry.
#[derive(Clone, Copy, Debug, PartialEq, Eq, Structural)]
pub enum SceneOccluderKind {
    /// Parked passenger vehicle.
    Vehicle,
    /// Freestanding commercial sign.
    PoleSign,
    /// Utility pole, cross-arm, and short cable runs.
    UtilityPole,
    /// Low planted shrub cluster.
    Shrub,
    /// Rooftop or ground-mounted HVAC cabinet.
    Hvac,
    /// Street or parking-lot lamp.
    StreetLight,
    /// Standing low-poly person for near-camera occlusion.
    Pedestrian,
    /// Generic neighbouring commercial building.
    Building,
    /// Generic vegetation resolved as a small tree cluster.
    Vegetation,
}

/// Placement of one generated occluder.
#[derive(Clone, Copy, Debug, PartialEq)]
pub struct SceneOccluder {
    /// Geometry family.
    pub kind: SceneOccluderKind,
    /// World-space base position.
    pub position: [Single; 3],
    /// Rotation around world up in radians.
    pub yaw_radians: Single,
    /// Uniform size multiplier used only with family-default geometry.
    ///
    /// When `nominal_size_m` is populated it is already the fully resolved size
    /// and this value is retained solely as sampling provenance.
    pub scale: Single,
    /// Fully resolved width, height, and depth in metres, or all zeros to request
    /// that the renderer multiply its family default by `scale`.
    pub nominal_size_m: [Single; 3],
}

impl SceneOccluder {
    /// Whether an object has a scale, and sizes that are either all given or all left to
    /// its family.
    pub open spec fn spec_is_valid(self) -> bool {
        all_finite(self.position)
            && all_finite(self.nominal_size_m)
            && self.yaw_radians.is_finite()
            && is_size(self.scale)
            && !some_negative(self.nominal_size_m)
            && (self.is_unsized() || self.is_sized())
    }

    /// Whether an object has a scale, and sizes that are either all given or all left to
    /// its family.
    #[verifier::when_used_as_spec(spec_is_valid)]
    pub fn is_valid(self) -> (r: bool)
        ensures
            r == self.spec_is_valid(),
    {
        all_finite(self.position)
            && all_finite(self.nominal_size_m)
            && self.yaw_radians.is_finite()
            && is_size(self.scale)
            && !some_negative(self.nominal_size_m)
            && (self.is_unsized() || self.is_sized())
    }

    /// Whether no size is given.
    pub open spec fn spec_is_unsized(self) -> bool {
        self.nominal_size_m[0].equals(Single::zero())
            && self.nominal_size_m[1].equals(Single::zero())
            && self.nominal_size_m[2].equals(Single::zero())
    }

    /// Whether no size is given.
    #[verifier::when_used_as_spec(spec_is_unsized)]
    pub fn is_unsized(self) -> (r: bool)
        ensures
            r == self.spec_is_unsized(),
    {
        self.nominal_size_m[0].equals(Single::zero())
            && self.nominal_size_m[1].equals(Single::zero())
            && self.nominal_size_m[2].equals(Single::zero())
    }

    /// Whether every size is given.
    pub open spec fn spec_is_sized(self) -> bool {
        Single::zero().less(self.nominal_size_m[0])
            && Single::zero().less(self.nominal_size_m[1])
            && Single::zero().less(self.nominal_size_m[2])
    }

    /// Whether every size is given.
    #[verifier::when_used_as_spec(spec_is_sized)]
    pub fn is_sized(self) -> (r: bool)
        ensures
            r == self.spec_is_sized(),
    {
        Single::zero().less(self.nominal_size_m[0])
            && Single::zero().less(self.nominal_size_m[1])
            && Single::zero().less(self.nominal_size_m[2])
    }
}

/// Coarse adjacent-road appearance family.
#[derive(Clone, Copy, Debug, PartialEq, Eq, Structural)]
pub enum SiteRoadKind {
    /// Narrow access or local street.
    LocalStreet,
    /// Multi-lane city or suburban arterial.
    UrbanArterial,
    /// Marked frontage road with shoulders.
    HighwayFrontage,
    /// Low-volume rural road with a centre line.
    RuralRoad,
}

impl Default for SiteRoadKind {
    fn default() -> (r: SiteRoadKind)
        ensures
            r == SiteRoadKind::UrbanArterial,
    {
        SiteRoadKind::UrbanArterial
    }
}

/// One pole generated from sampled site infrastructure.
#[derive(Clone, Copy, Debug, PartialEq)]
pub struct UtilityPoleDescription {
    /// World-space base position.
    pub position: [Single; 3],
    /// Pole height in metres.
    pub height_m: Single,
    /// Whether a luminaire is attached near the top.
    pub has_light: bool,
}

impl UtilityPoleDescription {
    /// Whether a pole has a place and a height.
    pub open spec fn spec_is_valid(self) -> bool {
        all_finite(self.position)
            && self.height_m.is_finite()
            && Single::zero().less(self.height_m)
    }

    /// Whether a pole has a place and a height.
    #[verifier::when_used_as_spec(spec_is_valid)]
    pub fn is_valid(self) -> (r: bool)
        ensures
            r == self.spec_is_valid(),
    {
        all_finite(self.position)
            && self.height_m.is_finite()
            && Single::zero().less(self.height_m)
    }

    /// Where a cable meets the pole.
    pub open spec fn spec_cable_point(self) -> [Single; 3] {
        [
            self.position[0],
            self.position[1].plus(self.height_m.times(Single::ratio(91, 100))),
            self.position[2],
        ]
    }

    /// Where a cable meets the pole.
    #[verifier::when_used_as_spec(spec_cable_point)]
    pub fn cable_point(self) -> (r: [Single; 3])
        ensures
            r == self.spec_cable_point(),
    {
        [
            self.position[0],
            self.position[1].plus(self.height_m.times(Single::ratio(91, 100))),
            self.position[2],
        ]
    }
}

/// One sagging overhead cable represented by world-space endpoints.
#[derive(Clone, Copy, Debug, PartialEq)]
pub struct UtilityLineDescription {
    /// Cable endpoint on the first pole.
    pub start: [Single; 3],
    /// Cable endpoint on the second pole.
    pub end: [Single; 3],
    /// Mid-span vertical sag in metres.
    pub sag_m: Single,
}

impl UtilityLineDescription {
    /// Whether a cable joins two different places and does not rise.
    pub open spec fn spec_is_valid(self) -> bool {
        all_finite(self.start)
            && all_finite(self.end)
            && self.sag_m.is_finite()
            && Single::zero().at_most(self.sag_m)
            && !self.is_closed()
    }

    /// Whether a cable joins two different places and does not rise.
    #[verifier::when_used_as_spec(spec_is_valid)]
    pub fn is_valid(self) -> (r: bool)
        ensures
            r == self.spec_is_valid(),
    {
        all_finite(self.start)
            && all_finite(self.end)
            && self.sag_m.is_finite()
            && Single::zero().at_most(self.sag_m)
            && !self.is_closed()
    }

    /// Whether both ends are one place.
    pub open spec fn spec_is_closed(self) -> bool {
        self.start[0].equals(self.end[0])
            && self.start[1].equals(self.end[1])
            && self.start[2].equals(self.end[2])
    }

    /// Whether both ends are one place.
    #[verifier::when_used_as_spec(spec_is_closed)]
    pub fn is_closed(self) -> (r: bool)
        ensures
            r == self.spec_is_closed(),
    {
        self.start[0].equals(self.end[0])
            && self.start[1].equals(self.end[1])
            && self.start[2].equals(self.end[2])
    }
}

/// Local point light embedded in the scene description.
#[derive(Clone, Copy, Debug, PartialEq)]
pub struct SceneLight {
    /// World-space light position.
    pub position: [Single; 3],
    /// Linear RGB light colour.
    pub color: [Single; 3],
    /// Radiometric scale used by the compact shader.
    pub intensity: Single,
    /// Distance at which contribution reaches zero.
    pub range_m: Single,
}

impl SceneLight {
    /// Whether a light has a place, a reach, and nothing negative.
    pub open spec fn spec_is_valid(self) -> bool {
        all_finite(self.position)
            && all_finite(self.color)
            && self.intensity.is_finite()
            && self.range_m.is_finite()
            && !some_negative(self.color)
            && Single::zero().at_most(self.intensity)
            && Single::zero().less(self.range_m)
    }

    /// Whether a light has a place, a reach, and nothing negative.
    #[verifier::when_used_as_spec(spec_is_valid)]
    pub fn is_valid(self) -> (r: bool)
        ensures
            r == self.spec_is_valid(),
    {
        all_finite(self.position)
            && all_finite(self.color)
            && self.intensity.is_finite()
            && self.range_m.is_finite()
            && !some_negative(self.color)
            && Single::zero().at_most(self.intensity)
            && Single::zero().less(self.range_m)
    }
}

/// Parking and adjacent-road geometry surrounding the target building.
#[derive(Clone, Debug, PartialEq)]
pub struct SiteInfrastructure {
    /// Number of marked parking bays.
    pub parking_bays: u32,
    /// World-space centre of the principal parking row.
    pub parking_center: [Single; 3],
    /// Width and length of one parking bay in metres.
    pub parking_bay_size_m: [Single; 2],
    /// Parking-row orientation around world up.
    pub parking_yaw_radians: Single,
    /// Number of lanes in the adjacent road.
    pub road_lanes: u32,
    /// Coarse road family controlling markings and shoulders.
    pub road_kind: SiteRoadKind,
    /// Width of one road lane in metres.
    pub lane_width_m: Single,
    /// Road centre-line position along world Z.
    pub road_center_z_m: Single,
    /// Whether a raised curb separates the site and road.
    pub raised_curb: bool,
    /// Exact utility or street-light pole placements.
    pub utility_poles: Vec<UtilityPoleDescription>,
    /// Exact overhead cable spans between poles.
    pub utility_lines: Vec<UtilityLineDescription>,
}

/// Complete renderer-side scene assembled around one semantic roof.
#[derive(Clone, Debug, PartialEq)]
pub struct SceneDescription {
    /// Building exterior width.
    pub footprint_width_m: Single,
    /// Building exterior depth.
    pub footprint_depth_m: Single,
    /// Eave height above the ground plane.
    pub wall_height_m: Single,
    /// Half extent of the generated ground square.
    pub ground_half_extent_m: Single,
    /// Facade layout controls.
    pub facade: FacadeDescription,
    /// Optional low wings, vestibules, and service annexes.
    pub building_extensions: Vec<BuildingExtensionDescription>,
    /// Sky, density, and time-of-day controls.
    pub environment: RenderEnvironment,
    /// Logical-to-physical PBR texture selection for this building and context.
    pub materials: MaterialSelection,
    /// Parking, road, curb, pole, and cable geometry.
    pub site: SiteInfrastructure,
    /// Attached, roof, ghost, tenant, and freestanding signs.
    pub signs: Vec<SignDescription>,
    /// Explicit contextual building boxes.
    pub background_buildings: Vec<BackgroundBuilding>,
    /// Explicit vegetation placements.
    pub trees: Vec<TreeInstance>,
    /// Explicit foreground, utility, rooftop, and sign objects.
    pub occluders: Vec<SceneOccluder>,
    /// Additional local lights, capped by the renderer at four.
    pub lights: Vec<SceneLight>,
}

/// Parking, road, poles and cables of a site.
pub struct SiteModel {
    /// See [`SiteInfrastructure::parking_bays`].
    pub parking_bays: u32,
    /// See [`SiteInfrastructure::parking_center`].
    pub parking_center: [Single; 3],
    /// See [`SiteInfrastructure::parking_bay_size_m`].
    pub parking_bay_size_m: [Single; 2],
    /// See [`SiteInfrastructure::parking_yaw_radians`].
    pub parking_yaw_radians: Single,
    /// See [`SiteInfrastructure::road_lanes`].
    pub road_lanes: u32,
    /// See [`SiteInfrastructure::road_kind`].
    pub road_kind: SiteRoadKind,
    /// See [`SiteInfrastructure::lane_width_m`].
    pub lane_width_m: Single,
    /// See [`SiteInfrastructure::road_center_z_m`].
    pub road_center_z_m: Single,
    /// See [`SiteInfrastructure::raised_curb`].
    pub raised_curb: bool,
    /// See [`SiteInfrastructure::utility_poles`].
    pub utility_poles: Seq<UtilityPoleDescription>,
    /// See [`SiteInfrastructure::utility_lines`].
    pub utility_lines: Seq<UtilityLineDescription>,
}

impl View for SiteInfrastructure {
    type V = SiteModel;

    open spec fn view(&self) -> SiteModel {
        SiteModel {
            parking_bays: self.parking_bays,
            parking_center: self.parking_center,
            parking_bay_size_m: self.parking_bay_size_m,
            parking_yaw_radians: self.parking_yaw_radians,
            road_lanes: self.road_lanes,
            road_kind: self.road_kind,
            lane_width_m: self.lane_width_m,
            road_center_z_m: self.road_center_z_m,
            raised_curb: self.raised_curb,
            utility_poles: self.utility_poles@,
            utility_lines: self.utility_lines@,
        }
    }
}

/// All that a scene description holds.
pub struct SceneModel {
    /// See [`SceneDescription::footprint_width_m`].
    pub footprint_width_m: Single,
    /// See [`SceneDescription::footprint_depth_m`].
    pub footprint_depth_m: Single,
    /// See [`SceneDescription::wall_height_m`].
    pub wall_height_m: Single,
    /// See [`SceneDescription::ground_half_extent_m`].
    pub ground_half_extent_m: Single,
    /// See [`SceneDescription::facade`].
    pub facade: FacadeDescription,
    /// See [`SceneDescription::building_extensions`].
    pub building_extensions: Seq<BuildingExtensionDescription>,
    /// See [`SceneDescription::environment`].
    pub environment: RenderEnvironment,
    /// See [`SceneDescription::materials`].
    pub materials: MaterialSelection,
    /// See [`SceneDescription::site`].
    pub site: SiteModel,
    /// See [`SceneDescription::signs`].
    pub signs: Seq<SignDescription>,
    /// See [`SceneDescription::background_buildings`].
    pub background_buildings: Seq<BackgroundBuilding>,
    /// See [`SceneDescription::trees`].
    pub trees: Seq<TreeInstance>,
    /// See [`SceneDescription::occluders`].
    pub occluders: Seq<SceneOccluder>,
    /// See [`SceneDescription::lights`].
    pub lights: Seq<SceneLight>,
}

impl View for SceneDescription {
    type V = SceneModel;

    open spec fn view(&self) -> SceneModel {
        SceneModel {
            footprint_width_m: self.footprint_width_m,
            footprint_depth_m: self.footprint_depth_m,
            wall_height_m: self.wall_height_m,
            ground_half_extent_m: self.ground_half_extent_m,
            facade: self.facade,
            building_extensions: self.building_extensions@,
            environment: self.environment,
            materials: self.materials,
            site: self.site@,
            signs: self.signs@,
            background_buildings: self.background_buildings@,
            trees: self.trees@,
            occluders: self.occluders@,
            lights: self.lights@,
        }
    }
}

impl SiteModel {
    /// Whether parking and road have extents and every pole and cable is valid.
    pub open spec fn sound(self) -> bool {
        &&& sound_ground(
            self.parking_center,
            self.parking_bay_size_m,
            self.parking_yaw_radians,
            self.road_lanes,
            self.lane_width_m,
            self.road_center_z_m,
        )
        &&& valid_poles(self.utility_poles)
        &&& valid_lines(self.utility_lines)
    }
}

/// Whether parking and road have extents.
pub open spec fn spec_sound_ground(
    parking_center: [Single; 3],
    bay_size: [Single; 2],
    yaw: Single,
    lanes: u32,
    lane_width: Single,
    road_center: Single,
) -> bool {
    all_finite(parking_center)
        && bay_size[0].is_finite()
        && bay_size[1].is_finite()
        && yaw.is_finite()
        && lane_width.is_finite()
        && road_center.is_finite()
        && Single::zero().less(bay_size[0])
        && Single::zero().less(bay_size[1])
        && lanes > 0
        && Single::zero().less(lane_width)
}

/// Whether parking and road have extents.
#[verifier::when_used_as_spec(spec_sound_ground)]
pub fn sound_ground(
    parking_center: [Single; 3],
    bay_size: [Single; 2],
    yaw: Single,
    lanes: u32,
    lane_width: Single,
    road_center: Single,
) -> (r: bool)
    ensures
        r == spec_sound_ground(parking_center, bay_size, yaw, lanes, lane_width, road_center),
{
    all_finite(parking_center)
        && bay_size[0].is_finite()
        && bay_size[1].is_finite()
        && yaw.is_finite()
        && lane_width.is_finite()
        && road_center.is_finite()
        && Single::zero().less(bay_size[0])
        && Single::zero().less(bay_size[1])
        && lanes > 0
        && Single::zero().less(lane_width)
}

/// Whether the building has an extent and stands on its ground.
pub open spec fn spec_sound_shell(
    width: Single,
    depth: Single,
    wall_height: Single,
    ground: Single,
) -> bool {
    is_size(width)
        && is_size(depth)
        && is_size(wall_height)
        && is_size(ground)
        && !ground.less(width.max(depth).times(Single::ratio(5, 10)))
}

/// Whether the building has an extent and stands on its ground.
#[verifier::when_used_as_spec(spec_sound_shell)]
pub fn sound_shell(width: Single, depth: Single, wall_height: Single, ground: Single) -> (r: bool)
    ensures
        r == spec_sound_shell(width, depth, wall_height, ground),
{
    is_size(width)
        && is_size(depth)
        && is_size(wall_height)
        && is_size(ground)
        && !ground.less(width.max(depth).times(Single::ratio(5, 10)))
}

impl SceneModel {
    /// Whether a renderer takes the scene.
    pub open spec fn sound(self) -> bool {
        &&& sound_shell(
            self.footprint_width_m,
            self.footprint_depth_m,
            self.wall_height_m,
            self.ground_half_extent_m,
        )
        &&& self.facade.is_valid(self.wall_height_m)
        &&& self.environment.is_valid()
        &&& self.materials.is_valid()
        &&& self.site.sound()
        &&& valid_extensions(self.building_extensions, self.wall_height_m)
        &&& valid_signs(self.signs)
        &&& valid_backgrounds(self.background_buildings)
        &&& valid_trees(self.trees)
        &&& valid_occluders(self.occluders)
        &&& self.lights.len() <= MAX_LIGHTS
        &&& valid_lights(self.lights)
    }
}

/// Whether every one is valid.
pub open spec fn valid_poles(items: Seq<UtilityPoleDescription>) -> bool {
    forall|i: int| 0 <= i < items.len() ==> (#[trigger] items[i]).is_valid()
}

fn poles_hold(items: &Vec<UtilityPoleDescription>) -> (r: bool)
    ensures
        r == valid_poles(items@),
{
    let mut i: usize = 0;
    while i < items.len()
        invariant
            i <= items@.len(),
            forall|j: int| 0 <= j < i ==> (#[trigger] items@[j]).is_valid(),
        decreases items@.len() - i,
    {
        if !items[i].is_valid() {
            return false;
        }
        i = i + 1;
    }
    true
}

/// Whether every one is valid.
pub open spec fn valid_lines(items: Seq<UtilityLineDescription>) -> bool {
    forall|i: int| 0 <= i < items.len() ==> (#[trigger] items[i]).is_valid()
}

fn lines_hold(items: &Vec<UtilityLineDescription>) -> (r: bool)
    ensures
        r == valid_lines(items@),
{
    let mut i: usize = 0;
    while i < items.len()
        invariant
            i <= items@.len(),
            forall|j: int| 0 <= j < i ==> (#[trigger] items@[j]).is_valid(),
        decreases items@.len() - i,
    {
        if !items[i].is_valid() {
            return false;
        }
        i = i + 1;
    }
    true
}

/// Whether every one is valid.
pub open spec fn valid_extensions(
    items: Seq<BuildingExtensionDescription>,
    wall_height_m: Single,
) -> bool {
    forall|i: int| 0 <= i < items.len() ==> (#[trigger] items[i]).is_valid(wall_height_m)
}

fn extensions_hold(items: &Vec<BuildingExtensionDescription>, wall_height_m: Single) -> (r: bool)
    ensures
        r == valid_extensions(items@, wall_height_m),
{
    let mut i: usize = 0;
    while i < items.len()
        invariant
            i <= items@.len(),
            forall|j: int| 0 <= j < i ==> (#[trigger] items@[j]).is_valid(wall_height_m),
        decreases items@.len() - i,
    {
        if !items[i].is_valid(wall_height_m) {
            return false;
        }
        i = i + 1;
    }
    true
}

/// Whether every one is valid.
pub open spec fn valid_signs(items: Seq<SignDescription>) -> bool {
    forall|i: int| 0 <= i < items.len() ==> (#[trigger] items[i]).is_valid()
}

fn signs_hold(items: &Vec<SignDescription>) -> (r: bool)
    ensures
        r == valid_signs(items@),
{
    let mut i: usize = 0;
    while i < items.len()
        invariant
            i <= items@.len(),
            forall|j: int| 0 <= j < i ==> (#[trigger] items@[j]).is_valid(),
        decreases items@.len() - i,
    {
        if !items[i].is_valid() {
            return false;
        }
        i = i + 1;
    }
    true
}

/// Whether every one is valid.
pub open spec fn valid_backgrounds(items: Seq<BackgroundBuilding>) -> bool {
    forall|i: int| 0 <= i < items.len() ==> (#[trigger] items[i]).is_valid()
}

fn backgrounds_hold(items: &Vec<BackgroundBuilding>) -> (r: bool)
    ensures
        r == valid_backgrounds(items@),
{
    let mut i: usize = 0;
    while i < items.len()
        invariant
            i <= items@.len(),
            forall|j: int| 0 <= j < i ==> (#[trigger] items@[j]).is_valid(),
        decreases items@.len() - i,
    {
        if !items[i].is_valid() {
            return false;
        }
        i = i + 1;
    }
    true
}

/// Whether every one is valid.
pub open spec fn valid_trees(items: Seq<TreeInstance>) -> bool {
    forall|i: int| 0 <= i < items.len() ==> (#[trigger] items[i]).is_valid()
}

fn trees_hold(items: &Vec<TreeInstance>) -> (r: bool)
    ensures
        r == valid_trees(items@),
{
    let mut i: usize = 0;
    while i < items.len()
        invariant
            i <= items@.len(),
            forall|j: int| 0 <= j < i ==> (#[trigger] items@[j]).is_valid(),
        decreases items@.len() - i,
    {
        if !items[i].is_valid() {
            return false;
        }
        i = i + 1;
    }
    true
}

/// Whether every one is valid.
pub open spec fn valid_occluders(items: Seq<SceneOccluder>) -> bool {
    forall|i: int| 0 <= i < items.len() ==> (#[trigger] items[i]).is_valid()
}

fn occluders_hold(items: &Vec<SceneOccluder>) -> (r: bool)
    ensures
        r == valid_occluders(items@),
{
    let mut i: usize = 0;
    while i < items.len()
        invariant
            i <= items@.len(),
            forall|j: int| 0 <= j < i ==> (#[trigger] items@[j]).is_valid(),
        decreases items@.len() - i,
    {
        if !items[i].is_valid() {
            return false;
        }
        i = i + 1;
    }
    true
}

/// Whether every one is valid.
pub open spec fn valid_lights(items: Seq<SceneLight>) -> bool {
    forall|i: int| 0 <= i < items.len() ==> (#[trigger] items[i]).is_valid()
}

/// Whether every light is valid.
pub fn lights_hold(items: &Vec<SceneLight>) -> (r: bool)
    ensures
        r == valid_lights(items@),
{
    let mut i: usize = 0;
    while i < items.len()
        invariant
            i <= items@.len(),
            forall|j: int| 0 <= j < i ==> (#[trigger] items@[j]).is_valid(),
        decreases items@.len() - i,
    {
        if !items[i].is_valid() {
            return false;
        }
        i = i + 1;
    }
    true
}

impl SiteInfrastructure {
    /// Whether parking and road have extents and every pole and cable is valid.
    pub fn is_valid(&self) -> (r: bool)
        ensures
            r == self@.sound(),
    {
        sound_ground(
            self.parking_center,
            self.parking_bay_size_m,
            self.parking_yaw_radians,
            self.road_lanes,
            self.lane_width_m,
            self.road_center_z_m,
        ) && poles_hold(&self.utility_poles) && lines_hold(&self.utility_lines)
    }
}

impl SceneDescription {
    /// Checks dimensions, object transforms, and light limits before mesh assembly.
    pub fn validate(&self) -> (r: Result<(), RenderError>)
        ensures
            r == (if self@.sound() {
                Ok::<(), RenderError>(())
            } else {
                Err(RenderError::InvalidSceneDescription)
            }),
    {
        let sound = sound_shell(
            self.footprint_width_m,
            self.footprint_depth_m,
            self.wall_height_m,
            self.ground_half_extent_m,
        ) && self.facade.is_valid(self.wall_height_m) && self.environment.is_valid()
            && self.materials.is_valid() && self.site.is_valid() && extensions_hold(
            &self.building_extensions,
            self.wall_height_m,
        ) && signs_hold(&self.signs) && backgrounds_hold(&self.background_buildings)
            && trees_hold(&self.trees) && occluders_hold(&self.occluders) && self.lights.len()
            <= MAX_LIGHTS && lights_hold(&self.lights);
        if !sound {
            return Err(RenderError::InvalidSceneDescription);
        }
        Ok(())
    }
}

} // verus!
