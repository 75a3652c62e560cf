//! Rules for site-composition configurations.

use crate::check_values::{
    validate_materials, validate_probability, validate_range, validate_unit_range, intersect_u32,
    ranges_overlap, validate_u32_range,
};
use crate::composition::{
    BackgroundBuildingSamplingConfig, BuildingExtensionSamplingConfig, CompositionSamplingConfig,
    DayPhase, DayPhaseProfile, SceneDomainProfile, SignageSamplingConfig,
    VegetationSamplingConfig, WeatherProfile,
};
use crate::config::{GeneratorConfig, LightingSamplingConfig};
use crate::report::ValidationReport;
use crate::single::Single;
use crate::text::{element_path, joined};
use vstd::prelude::*;

verus! {

broadcast use crate::report::group_rules;

/// Ground and glazing palettes and the façade ranges are sound.
pub open spec fn surfaces_rules(
    composition: CompositionSamplingConfig,
) -> Seq<crate::report::Rule> {
    crate::check_values::materials_rules(
        "composition.ground_materials"@,
        composition.ground_materials@,
    )
        + crate::check_values::materials_rules(
            "composition.facade.glazing_materials"@,
            composition.facade.glazing_materials@,
        )
        + crate::check_values::range_rules(
            "composition.facade.glazing_fraction"@,
            composition.facade.glazing_fraction,
            false,
        )
        + crate::check_values::unit_range_rules(
            "composition.facade.glazing_fraction"@,
            composition.facade.glazing_fraction,
        )
        + crate::check_values::range_rules(
            "composition.facade.entrance_width_m"@,
            composition.facade.entrance_width_m,
            true,
        )
        + crate::check_values::range_rules(
            "composition.facade.weathering"@,
            composition.facade.weathering,
            false,
        )
        + crate::check_values::unit_range_rules(
            "composition.facade.weathering"@,
            composition.facade.weathering,
        )
}

/// Checks ground and glazing palettes and the façade ranges.
pub fn check_surfaces(report: &mut ValidationReport, composition: &CompositionSamplingConfig)
    ensures
        final(report)@ == crate::report::applied(old(report)@, surfaces_rules(*composition)),
{
    validate_materials(report, "composition.ground_materials", &composition.ground_materials);
    validate_materials(
        report,
        "composition.facade.glazing_materials",
        &composition.facade.glazing_materials,
    );
    validate_range(
        report,
        "composition.facade.glazing_fraction",
        composition.facade.glazing_fraction,
        false,
    );
    validate_unit_range(
        report,
        "composition.facade.glazing_fraction",
        composition.facade.glazing_fraction,
    );
    validate_range(
        report,
        "composition.facade.entrance_width_m",
        composition.facade.entrance_width_m,
        true,
    );
    validate_range(report, "composition.facade.weathering", composition.facade.weathering, false);
    validate_unit_range(report, "composition.facade.weathering", composition.facade.weathering);
}

/// Extension distributions are not empty and their dimensions are plausible.
pub open spec fn extension_sampling_rules(
    extensions: BuildingExtensionSamplingConfig,
) -> Seq<crate::report::Rule> {
    crate::report::error_if(
        extensions.none_weight == 0 && extensions.one_weight == 0 && extensions.two_weight == 0,
        "empty_building_extension_distribution"@,
        "composition.building_extensions"@,
        "at least one extension-count weight must be positive"@,
    )
        + crate::report::error_if(
            (extensions.dining_wing_weight == 0 && extensions.entrance_vestibule_weight == 0
            && extensions.service_annex_weight == 0)
            || (extensions.flat_roof_weight == 0 && extensions.shed_roof_weight == 0),
            "empty_building_extension_kind_distribution"@,
            "composition.building_extensions"@,
            "extension kind and roof distributions each need a positive weight"@,
        )
        + crate::check_values::range_rules(
            "composition.building_extensions.facade_width_fraction"@,
            extensions.facade_width_fraction,
            true,
        )
        + crate::check_values::range_rules(
            "composition.building_extensions.projection_m"@,
            extensions.projection_m,
            true,
        )
        + crate::check_values::range_rules(
            "composition.building_extensions.wall_height_fraction"@,
            extensions.wall_height_fraction,
            true,
        )
        + crate::check_values::range_rules(
            "composition.building_extensions.facade_offset_fraction"@,
            extensions.facade_offset_fraction,
            false,
        )
        + crate::check_values::range_rules(
            "composition.building_extensions.shed_rise_m"@,
            extensions.shed_rise_m,
            true,
        )
        + crate::check_values::unit_range_rules(
            "composition.building_extensions.facade_width_fraction"@,
            extensions.facade_width_fraction,
        )
        + crate::check_values::unit_range_rules(
            "composition.building_extensions.wall_height_fraction"@,
            extensions.wall_height_fraction,
        )
        + crate::report::error_if(
            extensions.facade_offset_fraction.min.less(Single::ratio((-1) as i32, 1))
            || Single::one().less(extensions.facade_offset_fraction.max)
            || Single::ratio(12, 1).less(extensions.projection_m.max)
            || Single::ratio(2, 1).less(extensions.shed_rise_m.max),
            "implausible_building_extension_distribution"@,
            "composition.building_extensions"@,
            "extension offset, projection, and roof rise exceed supported physical bounds"@,
        )
}

/// Checks the extension distribution.
pub fn check_extension_sampling(
    report: &mut ValidationReport,
    extensions: BuildingExtensionSamplingConfig,
)
    ensures
        final(report)@ == crate::report::applied(
            old(report)@,
            extension_sampling_rules(extensions),
        ),
{
    report.check(
        extensions.none_weight == 0 && extensions.one_weight == 0 && extensions.two_weight == 0,
        "empty_building_extension_distribution",
        "composition.building_extensions",
        "at least one extension-count weight must be positive",
    );
    report.check(
        (extensions.dining_wing_weight == 0 && extensions.entrance_vestibule_weight == 0
        && extensions.service_annex_weight == 0)
        || (extensions.flat_roof_weight == 0 && extensions.shed_roof_weight == 0),
        "empty_building_extension_kind_distribution",
        "composition.building_extensions",
        "extension kind and roof distributions each need a positive weight",
    );
    validate_range(
        report,
        "composition.building_extensions.facade_width_fraction",
        extensions.facade_width_fraction,
        true,
    );
    validate_range(
        report,
        "composition.building_extensions.projection_m",
        extensions.projection_m,
        true,
    );
    validate_range(
        report,
        "composition.building_extensions.wall_height_fraction",
        extensions.wall_height_fraction,
        true,
    );
    validate_range(
        report,
        "composition.building_extensions.facade_offset_fraction",
        extensions.facade_offset_fraction,
        false,
    );
    validate_range(
        report,
        "composition.building_extensions.shed_rise_m",
        extensions.shed_rise_m,
        true,
    );
    validate_unit_range(
        report,
        "composition.building_extensions.facade_width_fraction",
        extensions.facade_width_fraction,
    );
    validate_unit_range(
        report,
        "composition.building_extensions.wall_height_fraction",
        extensions.wall_height_fraction,
    );
    report.check(
        extensions.facade_offset_fraction.min.less(Single::ratio((-1) as i32, 1))
        || Single::one().less(extensions.facade_offset_fraction.max)
        || Single::ratio(12, 1).less(extensions.projection_m.max)
        || Single::ratio(2, 1).less(extensions.shed_rise_m.max),
        "implausible_building_extension_distribution",
        "composition.building_extensions",
        "extension offset, projection, and roof rise exceed supported physical bounds",
    );
}

/// The sign distribution is not empty and its ranges are sound.
pub open spec fn signage_sampling_rules(
    signage: SignageSamplingConfig,
) -> Seq<crate::report::Rule> {
    crate::report::error_if(
        signage.none_weight == 0 && signage.pizza_hut_weight == 0
        && signage.removed_ghost_weight == 0 && signage.rebranded_tenant_weight == 0,
        "empty_signage_distribution"@,
        "composition.signage"@,
        "at least one blank or sign-state weight must be positive"@,
    )
        + crate::check_values::range_rules(
            "composition.signage.width_fraction"@,
            signage.width_fraction,
            true,
        )
        + crate::check_values::range_rules("composition.signage.height_m"@, signage.height_m, true)
        + crate::check_values::range_rules(
            "composition.signage.vertical_fraction"@,
            signage.vertical_fraction,
            true,
        )
        + crate::check_values::range_rules(
            "composition.signage.emissive_strength"@,
            signage.emissive_strength,
            false,
        )
        + crate::check_values::unit_range_rules(
            "composition.signage.width_fraction"@,
            signage.width_fraction,
        )
        + crate::check_values::unit_range_rules(
            "composition.signage.vertical_fraction"@,
            signage.vertical_fraction,
        )
}

/// Checks the sign distribution.
pub fn check_signage_sampling(report: &mut ValidationReport, signage: SignageSamplingConfig)
    ensures
        final(report)@ == crate::report::applied(old(report)@, signage_sampling_rules(signage)),
{
    report.check(
        signage.none_weight == 0 && signage.pizza_hut_weight == 0
        && signage.removed_ghost_weight == 0 && signage.rebranded_tenant_weight == 0,
        "empty_signage_distribution",
        "composition.signage",
        "at least one blank or sign-state weight must be positive",
    );
    validate_range(report, "composition.signage.width_fraction", signage.width_fraction, true);
    validate_range(report, "composition.signage.height_m", signage.height_m, true);
    validate_range(
        report,
        "composition.signage.vertical_fraction",
        signage.vertical_fraction,
        true,
    );
    validate_range(
        report,
        "composition.signage.emissive_strength",
        signage.emissive_strength,
        false,
    );
    validate_unit_range(report, "composition.signage.width_fraction", signage.width_fraction);
    validate_unit_range(report, "composition.signage.vertical_fraction", signage.vertical_fraction);
}

/// A profile of the phase has a positive weight.
pub open spec fn has_phase(profiles: Seq<DayPhaseProfile>, phase: DayPhase) -> bool {
    exists|i: int|
        0 <= i < profiles.len() && (#[trigger] profiles[i]).phase == phase && profiles[i].weight > 0
}

fn includes_phase(profiles: &Vec<DayPhaseProfile>, phase: DayPhase) -> (r: bool)
    ensures
        r == has_phase(profiles@, phase),
{
    let mut i: usize = 0;
    while i < profiles.len()
        invariant
            i <= profiles@.len(),
            forall|j: int|
                0 <= j < i ==> !((#[trigger] profiles@[j]).phase == phase && profiles@[j].weight > 0),
        decreases profiles@.len() - i,
    {
        if profiles[i].phase == phase && profiles[i].weight > 0 {
            return true;
        }
        i = i + 1;
    }
    false
}

/// No profile has a positive weight.
pub open spec fn weightless_day_phases(profiles: Seq<DayPhaseProfile>) -> bool {
    forall|i: int| 0 <= i < profiles.len() ==> (#[trigger] profiles[i]).weight == 0
}

fn are_weightless_day_phases(profiles: &Vec<DayPhaseProfile>) -> (r: bool)
    ensures
        r == weightless_day_phases(profiles@),
{
    let mut i: usize = 0;
    while i < profiles.len()
        invariant
            i <= profiles@.len(),
            forall|j: int| 0 <= j < i ==> (#[trigger] profiles@[j]).weight == 0,
        decreases profiles@.len() - i,
    {
        if profiles[i].weight != 0 {
            return false;
        }
        i = i + 1;
    }
    true
}

/// Day-phase light is nonnegative, overlaps the global sun range, and agrees with its phase.
pub open spec fn day_phase_rules(
    base: Seq<char>,
    profile: DayPhaseProfile,
    lighting: LightingSamplingConfig,
) -> Seq<crate::report::Rule> {
    crate::check_values::range_rules(
        base + ".sun_elevation_degrees"@,
        profile.sun_elevation_degrees,
        false,
    )
        + crate::check_values::range_rules(
            base + ".camera_exposure_ev100"@,
            profile.camera_exposure_ev100,
            false,
        )
        + crate::check_values::range_rules(
            base + ".artificial_light_strength"@,
            profile.artificial_light_strength,
            false,
        )
        + crate::report::error_if(
            profile.artificial_light_strength.min.less(Single::zero()) || !crate::check_values::ranges_overlap(
            profile.sun_elevation_degrees,
            lighting.sun_elevation_degrees,
        ),
            "invalid_day_phase_profile"@,
            base,
            "day-phase light must be nonnegative and solar elevation must overlap global bounds"@,
        )
        + crate::report::error_if(
            profile.phase == DayPhase::Day && profile.sun_elevation_degrees.min.less(
                Single::zero(),
            ),
            "day_sun_below_horizon"@,
            base + ".sun_elevation_degrees"@,
            "day profile cannot place the sun below the horizon"@,
        )
        + crate::report::error_if(
            profile.phase == DayPhase::Night && Single::ratio((-4) as i32, 1).less(
            profile.sun_elevation_degrees.max,
        ),
            "night_sun_too_high"@,
            base + ".sun_elevation_degrees"@,
            "night profile must keep the sun at least four degrees below the horizon"@,
        )
}

/// Checks one day-phase profile.
pub fn check_day_phase(
    report: &mut ValidationReport,
    base: &str,
    profile: DayPhaseProfile,
    lighting: LightingSamplingConfig,
)
    ensures
        final(report)@ == crate::report::applied(
            old(report)@,
            day_phase_rules(base@, profile, lighting),
        ),
{
    validate_range(
        report,
        &joined(base, ".sun_elevation_degrees"),
        profile.sun_elevation_degrees,
        false,
    );
    validate_range(
        report,
        &joined(base, ".camera_exposure_ev100"),
        profile.camera_exposure_ev100,
        false,
    );
    validate_range(
        report,
        &joined(base, ".artificial_light_strength"),
        profile.artificial_light_strength,
        false,
    );
    report.check(
        profile.artificial_light_strength.min.less(Single::zero()) || !ranges_overlap(
        profile.sun_elevation_degrees,
        lighting.sun_elevation_degrees,
    ),
        "invalid_day_phase_profile",
        base,
        "day-phase light must be nonnegative and solar elevation must overlap global bounds",
    );
    report.check_field(
        profile.phase == DayPhase::Day && profile.sun_elevation_degrees.min.less(Single::zero()),
        "day_sun_below_horizon",
        base,
        ".sun_elevation_degrees",
        "day profile cannot place the sun below the horizon",
    );
    report.check_field(
        profile.phase == DayPhase::Night && Single::ratio((-4) as i32, 1).less(
        profile.sun_elevation_degrees.max,
    ),
        "night_sun_too_high",
        base,
        ".sun_elevation_degrees",
        "night profile must keep the sun at least four degrees below the horizon",
    );
}

/// What the first `n` day-phase profiles have to meet.
pub open spec fn first_day_phase_rules(
    profiles: Seq<DayPhaseProfile>,
    lighting: LightingSamplingConfig,
    n: nat,
) -> Seq<crate::report::Rule>
    decreases n,
{
    if n == 0 {
        Seq::empty()
    } else {
        first_day_phase_rules(profiles, lighting, (n - 1) as nat) + day_phase_rules(
            crate::text::element("composition.day_phase.profiles"@, n - 1, ""@),
            profiles[n - 1], lighting,
        )
    }
}

/// Day phases form a distribution that can yield both day and night.
pub open spec fn day_phases_rules(
    profiles: Seq<DayPhaseProfile>,
    lighting: LightingSamplingConfig,
) -> Seq<crate::report::Rule> {
    crate::report::error_if(
        weightless_day_phases(profiles),
        "empty_day_phase_distribution"@,
        "composition.day_phase.profiles"@,
        "at least one positive-weight day-phase profile is required"@,
    )
        + crate::report::error_if(
        !has_phase(profiles, DayPhase::Day) || !has_phase(profiles, DayPhase::Night),
        "missing_day_or_night_regime"@,
        "composition.day_phase.profiles"@,
        "default training generation must include positive-weight day and night regimes"@,
    ) + first_day_phase_rules(profiles, lighting, profiles.len())
}

/// Checks every day-phase profile.
pub fn check_day_phases(
    report: &mut ValidationReport,
    profiles: &Vec<DayPhaseProfile>,
    lighting: LightingSamplingConfig,
)
    ensures
        final(report)@ == crate::report::applied(
            old(report)@,
            day_phases_rules(profiles@, lighting),
        ),
{
    report.check(
        are_weightless_day_phases(profiles),
        "empty_day_phase_distribution",
        "composition.day_phase.profiles",
        "at least one positive-weight day-phase profile is required",
    );
    report.check(
        !includes_phase(profiles, DayPhase::Day) || !includes_phase(profiles, DayPhase::Night),
        "missing_day_or_night_regime",
        "composition.day_phase.profiles",
        "default training generation must include positive-weight day and night regimes",
    );
    let ghost start = report@;
    let mut i: usize = 0;
    while i < profiles.len()
        invariant
            i <= profiles@.len(),
            report@ == crate::report::applied(
                start,
                first_day_phase_rules(profiles@, lighting, i as nat),
            ),
        decreases profiles@.len() - i,
    {
        let base = element_path("composition.day_phase.profiles", i, "");
        check_day_phase(report, &base, profiles[i], lighting);
        i = i + 1;
    }
}

/// No profile has a positive weight.
pub open spec fn weightless_weathers(profiles: Seq<WeatherProfile>) -> bool {
    forall|i: int| 0 <= i < profiles.len() ==> (#[trigger] profiles[i]).weight == 0
}

fn are_weightless_weathers(profiles: &Vec<WeatherProfile>) -> (r: bool)
    ensures
        r == weightless_weathers(profiles@),
{
    let mut i: usize = 0;
    while i < profiles.len()
        invariant
            i <= profiles@.len(),
            forall|j: int| 0 <= j < i ==> (#[trigger] profiles@[j]).weight == 0,
        decreases profiles@.len() - i,
    {
        if profiles[i].weight != 0 {
            return false;
        }
        i = i + 1;
    }
    true
}

/// Weather ranges are sound, plausible, and overlap the global light ranges.
pub open spec fn weather_rules(
    base: Seq<char>,
    profile: WeatherProfile,
    lighting: LightingSamplingConfig,
) -> Seq<crate::report::Rule> {
    crate::check_values::range_rules(base + ".cloud_coverage"@, profile.cloud_coverage, false)
        + crate::check_values::range_rules(base + ".haze"@, profile.haze, false)
        + crate::check_values::range_rules(base + ".sun_intensity"@, profile.sun_intensity, false)
        + crate::check_values::range_rules(base + ".sky_intensity"@, profile.sky_intensity, false)
        + crate::check_values::range_rules(
            base + ".shadow_softness"@,
            profile.shadow_softness,
            false,
        )
        + crate::check_values::range_rules(base + ".ground_wetness"@, profile.ground_wetness, false)
        + crate::check_values::range_rules(base + ".visibility_km"@, profile.visibility_km, true)
        + crate::check_values::range_rules(
            base + ".color_temperature_k"@,
            profile.color_temperature_k,
            true,
        )
        + crate::check_values::unit_range_rules(base + ".cloud_coverage"@, profile.cloud_coverage)
        + crate::check_values::unit_range_rules(base + ".haze"@, profile.haze)
        + crate::check_values::unit_range_rules(base + ".shadow_softness"@, profile.shadow_softness)
        + crate::check_values::unit_range_rules(base + ".ground_wetness"@, profile.ground_wetness)
        + crate::report::error_if(
            profile.sun_intensity.min.less(Single::zero()) || profile.sky_intensity.min.less(
            Single::zero(),
        ) || profile.color_temperature_k.min.less(Single::ratio(1_800, 1))
            || Single::ratio(12_000, 1).less(profile.color_temperature_k.max)
            || !crate::check_values::ranges_overlap(profile.cloud_coverage, lighting.cloud_coverage)
            || !crate::check_values::ranges_overlap(profile.haze, lighting.haze)
            || !crate::check_values::ranges_overlap(profile.sun_intensity, lighting.sun_intensity)
            || !crate::check_values::ranges_overlap(profile.sky_intensity, lighting.sky_intensity),
            "invalid_weather_profile"@,
            base,
            "weather profile must overlap global lighting bounds and remain physically plausible"@,
        )
}

/// Checks one weather profile.
pub fn check_weather(
    report: &mut ValidationReport,
    base: &str,
    profile: WeatherProfile,
    lighting: LightingSamplingConfig,
)
    ensures
        final(report)@ == crate::report::applied(
            old(report)@,
            weather_rules(base@, profile, lighting),
        ),
{
    validate_range(report, &joined(base, ".cloud_coverage"), profile.cloud_coverage, false);
    validate_range(report, &joined(base, ".haze"), profile.haze, false);
    validate_range(report, &joined(base, ".sun_intensity"), profile.sun_intensity, false);
    validate_range(report, &joined(base, ".sky_intensity"), profile.sky_intensity, false);
    validate_range(report, &joined(base, ".shadow_softness"), profile.shadow_softness, false);
    validate_range(report, &joined(base, ".ground_wetness"), profile.ground_wetness, false);
    validate_range(report, &joined(base, ".visibility_km"), profile.visibility_km, true);
    validate_range(
        report,
        &joined(base, ".color_temperature_k"),
        profile.color_temperature_k,
        true,
    );
    validate_unit_range(report, &joined(base, ".cloud_coverage"), profile.cloud_coverage);
    validate_unit_range(report, &joined(base, ".haze"), profile.haze);
    validate_unit_range(report, &joined(base, ".shadow_softness"), profile.shadow_softness);
    validate_unit_range(report, &joined(base, ".ground_wetness"), profile.ground_wetness);
    report.check(
        profile.sun_intensity.min.less(Single::zero()) || profile.sky_intensity.min.less(
        Single::zero(),
    ) || profile.color_temperature_k.min.less(Single::ratio(1_800, 1))
        || Single::ratio(12_000, 1).less(profile.color_temperature_k.max)
        || !ranges_overlap(profile.cloud_coverage, lighting.cloud_coverage)
        || !ranges_overlap(profile.haze, lighting.haze)
        || !ranges_overlap(profile.sun_intensity, lighting.sun_intensity)
        || !ranges_overlap(profile.sky_intensity, lighting.sky_intensity),
        "invalid_weather_profile",
        base,
        "weather profile must overlap global lighting bounds and remain physically plausible",
    );
}

/// What the first `n` weather profiles have to meet.
pub open spec fn first_weather_rules(
    profiles: Seq<WeatherProfile>,
    lighting: LightingSamplingConfig,
    n: nat,
) -> Seq<crate::report::Rule>
    decreases n,
{
    if n == 0 {
        Seq::empty()
    } else {
        first_weather_rules(profiles, lighting, (n - 1) as nat) + weather_rules(
            crate::text::element("composition.weather.profiles"@, n - 1, ""@),
            profiles[n - 1], lighting,
        )
    }
}

/// Weather profiles form a distribution.
pub open spec fn weathers_rules(
    profiles: Seq<WeatherProfile>,
    lighting: LightingSamplingConfig,
) -> Seq<crate::report::Rule> {
    crate::report::error_if(
        weightless_weathers(profiles),
        "empty_weather_distribution"@,
        "composition.weather.profiles"@,
        "at least one positive-weight weather profile is required"@,
    ) + first_weather_rules(profiles, lighting, profiles.len())
}

/// Checks every weather profile.
pub fn check_weathers(
    report: &mut ValidationReport,
    profiles: &Vec<WeatherProfile>,
    lighting: LightingSamplingConfig,
)
    ensures
        final(report)@ == crate::report::applied(old(report)@, weathers_rules(profiles@, lighting)),
{
    report.check(
        are_weightless_weathers(profiles),
        "empty_weather_distribution",
        "composition.weather.profiles",
        "at least one positive-weight weather profile is required",
    );
    let ghost start = report@;
    let mut i: usize = 0;
    while i < profiles.len()
        invariant
            i <= profiles@.len(),
            report@ == crate::report::applied(
                start,
                first_weather_rules(profiles@, lighting, i as nat),
            ),
        decreases profiles@.len() - i,
    {
        let base = element_path("composition.weather.profiles", i, "");
        check_weather(report, &base, profiles[i], lighting);
        i = i + 1;
    }
}

/// No profile has a positive weight.
pub open spec fn weightless_domains(profiles: Seq<SceneDomainProfile>) -> bool {
    forall|i: int| 0 <= i < profiles.len() ==> (#[trigger] profiles[i]).weight == 0
}

fn are_weightless_domains(profiles: &Vec<SceneDomainProfile>) -> (r: bool)
    ensures
        r == weightless_domains(profiles@),
{
    let mut i: usize = 0;
    while i < profiles.len()
        invariant
            i <= profiles@.len(),
            forall|j: int| 0 <= j < i ==> (#[trigger] profiles@[j]).weight == 0,
        decreases profiles@.len() - i,
    {
        if profiles[i].weight != 0 {
            return false;
        }
        i = i + 1;
    }
    true
}

/// Domain counts are sound, overlap the global ones, and leave a lane and countable poles.
pub open spec fn domain_rules(
    base: Seq<char>,
    profile: SceneDomainProfile,
    background: BackgroundBuildingSamplingConfig,
    vegetation: VegetationSamplingConfig,
) -> Seq<crate::report::Rule> {
    crate::check_values::u32_range_rules(
        base + ".background_buildings"@,
        profile.background_buildings,
    )
        + crate::check_values::u32_range_rules(base + ".vegetation"@, profile.vegetation)
        + crate::check_values::u32_range_rules(base + ".parking_bays"@, profile.parking_bays)
        + crate::check_values::u32_range_rules(base + ".road_lanes"@, profile.road_lanes)
        + crate::check_values::u32_range_rules(base + ".utility_poles"@, profile.utility_poles)
        + crate::check_values::probability_rules(
            base + ".curb_probability"@,
            profile.curb_probability,
        )
        + crate::check_values::probability_rules(
            base + ".overhead_line_probability"@,
            profile.overhead_line_probability,
        )
        + crate::report::error_if(
            profile.road_lanes.min == 0 || profile.utility_poles.max > 65_535
            || crate::check_values::intersect_u32(profile.background_buildings, background.count) is None
            || crate::check_values::intersect_u32(profile.vegetation, vegetation.count) is None,
            "invalid_domain_profile"@,
            base,
            "domain counts must overlap global composition bounds, roads need a lane, and pole indexes must fit u16"@,
        )
}

/// Checks one domain profile.
pub fn check_domain(
    report: &mut ValidationReport,
    base: &str,
    profile: SceneDomainProfile,
    background: BackgroundBuildingSamplingConfig,
    vegetation: VegetationSamplingConfig,
)
    ensures
        final(report)@ == crate::report::applied(
            old(report)@,
            domain_rules(base@, profile, background, vegetation),
        ),
{
    validate_u32_range(
        report,
        &joined(base, ".background_buildings"),
        profile.background_buildings,
    );
    validate_u32_range(report, &joined(base, ".vegetation"), profile.vegetation);
    validate_u32_range(report, &joined(base, ".parking_bays"), profile.parking_bays);
    validate_u32_range(report, &joined(base, ".road_lanes"), profile.road_lanes);
    validate_u32_range(report, &joined(base, ".utility_poles"), profile.utility_poles);
    validate_probability(report, &joined(base, ".curb_probability"), profile.curb_probability);
    validate_probability(
        report,
        &joined(base, ".overhead_line_probability"),
        profile.overhead_line_probability,
    );
    report.check(
        profile.road_lanes.min == 0 || profile.utility_poles.max > 65_535
        || intersect_u32(profile.background_buildings, background.count).is_none()
        || intersect_u32(profile.vegetation, vegetation.count).is_none(),
        "invalid_domain_profile",
        base,
        "domain counts must overlap global composition bounds, roads need a lane, and pole indexes must fit u16",
    );
}

/// What the first `n` domain profiles have to meet.
pub open spec fn first_domain_rules(
    profiles: Seq<SceneDomainProfile>,
    background: BackgroundBuildingSamplingConfig,
    vegetation: VegetationSamplingConfig,
    n: nat,
) -> Seq<crate::report::Rule>
    decreases n,
{
    if n == 0 {
        Seq::empty()
    } else {
        first_domain_rules(profiles, background, vegetation, (n - 1) as nat) + domain_rules(
            crate::text::element("composition.domains.profiles"@, n - 1, ""@),
            profiles[n - 1], background, vegetation,
        )
    }
}

/// Site domains form a distribution.
pub open spec fn domains_rules(
    profiles: Seq<SceneDomainProfile>,
    background: BackgroundBuildingSamplingConfig,
    vegetation: VegetationSamplingConfig,
) -> Seq<crate::report::Rule> {
    crate::report::error_if(
        weightless_domains(profiles),
        "empty_domain_distribution"@,
        "composition.domains.profiles"@,
        "at least one positive-weight site domain is required"@,
    ) + first_domain_rules(profiles, background, vegetation, profiles.len())
}

/// Checks every domain profile.
pub fn check_domains(
    report: &mut ValidationReport,
    profiles: &Vec<SceneDomainProfile>,
    background: BackgroundBuildingSamplingConfig,
    vegetation: VegetationSamplingConfig,
)
    ensures
        final(report)@ == crate::report::applied(
            old(report)@,
            domains_rules(profiles@, background, vegetation),
        ),
{
    report.check(
        are_weightless_domains(profiles),
        "empty_domain_distribution",
        "composition.domains.profiles",
        "at least one positive-weight site domain is required",
    );
    let ghost start = report@;
    let mut i: usize = 0;
    while i < profiles.len()
        invariant
            i <= profiles@.len(),
            report@ == crate::report::applied(
                start,
                first_domain_rules(profiles@, background, vegetation, i as nat),
            ),
        decreases profiles@.len() - i,
    {
        let base = element_path("composition.domains.profiles", i, "");
        check_domain(report, &base, profiles[i], background, vegetation);
        i = i + 1;
    }
}

/// Background-building ranges are sound.
pub open spec fn background_rules(
    background: BackgroundBuildingSamplingConfig,
) -> Seq<crate::report::Rule> {
    crate::check_values::u32_range_rules(
        "composition.background_buildings.count"@,
        background.count,
    )
        + crate::check_values::range_rules(
            "composition.background_buildings.setback_m"@,
            background.setback_m,
            true,
        )
        + crate::check_values::range_rules(
            "composition.background_buildings.width_m"@,
            background.width_m,
            true,
        )
        + crate::check_values::range_rules(
            "composition.background_buildings.depth_m"@,
            background.depth_m,
            true,
        )
        + crate::check_values::range_rules(
            "composition.background_buildings.height_m"@,
            background.height_m,
            true,
        )
        + crate::check_values::range_rules(
            "composition.background_buildings.yaw_jitter_degrees"@,
            background.yaw_jitter_degrees,
            false,
        )
}

/// Checks the background-building distribution.
pub fn check_background(report: &mut ValidationReport, background: BackgroundBuildingSamplingConfig)
    ensures
        final(report)@ == crate::report::applied(old(report)@, background_rules(background)),
{
    validate_u32_range(report, "composition.background_buildings.count", background.count);
    validate_range(
        report,
        "composition.background_buildings.setback_m",
        background.setback_m,
        true,
    );
    validate_range(report, "composition.background_buildings.width_m", background.width_m, true);
    validate_range(report, "composition.background_buildings.depth_m", background.depth_m, true);
    validate_range(report, "composition.background_buildings.height_m", background.height_m, true);
    validate_range(
        report,
        "composition.background_buildings.yaw_jitter_degrees",
        background.yaw_jitter_degrees,
        false,
    );
}

/// Plant distributions are not empty and their layout is plausible.
pub open spec fn vegetation_rules(
    vegetation: VegetationSamplingConfig,
) -> Seq<crate::report::Rule> {
    crate::check_values::u32_range_rules("composition.vegetation.count"@, vegetation.count)
        + crate::report::error_if(
            vegetation.deciduous_weight == 0 && vegetation.evergreen_weight == 0
            && vegetation.palm_weight == 0 && vegetation.shrub_weight == 0,
            "empty_vegetation_distribution"@,
            "composition.vegetation"@,
            "at least one plant-family weight must be positive"@,
        )
        + crate::check_values::range_rules(
            "composition.vegetation.building_setback_m"@,
            vegetation.building_setback_m,
            true,
        )
        + crate::check_values::range_rules(
            "composition.vegetation.site_distance_m"@,
            vegetation.site_distance_m,
            false,
        )
        + crate::check_values::range_rules(
            "composition.vegetation.tree_height_m"@,
            vegetation.tree_height_m,
            true,
        )
        + crate::check_values::range_rules(
            "composition.vegetation.shrub_height_m"@,
            vegetation.shrub_height_m,
            true,
        )
        + crate::check_values::range_rules(
            "composition.vegetation.canopy_radius_fraction"@,
            vegetation.canopy_radius_fraction,
            true,
        )
        + crate::report::error_if(
            vegetation.site_distance_m.min.less(Single::zero())
            || Single::ratio(75, 100).less(vegetation.canopy_radius_fraction.max),
            "implausible_vegetation_layout"@,
            "composition.vegetation"@,
            "site distance cannot be negative and canopy radius must stay below 75% of height"@,
        )
}

/// Checks the plant distribution.
pub fn check_vegetation(report: &mut ValidationReport, vegetation: VegetationSamplingConfig)
    ensures
        final(report)@ == crate::report::applied(old(report)@, vegetation_rules(vegetation)),
{
    validate_u32_range(report, "composition.vegetation.count", vegetation.count);
    report.check(
        vegetation.deciduous_weight == 0 && vegetation.evergreen_weight == 0
        && vegetation.palm_weight == 0 && vegetation.shrub_weight == 0,
        "empty_vegetation_distribution",
        "composition.vegetation",
        "at least one plant-family weight must be positive",
    );
    validate_range(
        report,
        "composition.vegetation.building_setback_m",
        vegetation.building_setback_m,
        true,
    );
    validate_range(
        report,
        "composition.vegetation.site_distance_m",
        vegetation.site_distance_m,
        false,
    );
    validate_range(report, "composition.vegetation.tree_height_m", vegetation.tree_height_m, true);
    validate_range(
        report,
        "composition.vegetation.shrub_height_m",
        vegetation.shrub_height_m,
        true,
    );
    validate_range(
        report,
        "composition.vegetation.canopy_radius_fraction",
        vegetation.canopy_radius_fraction,
        true,
    );
    report.check(
        vegetation.site_distance_m.min.less(Single::zero())
        || Single::ratio(75, 100).less(vegetation.canopy_radius_fraction.max),
        "implausible_vegetation_layout",
        "composition.vegetation",
        "site distance cannot be negative and canopy radius must stay below 75% of height",
    );
}

/// Everything that a site composition has to meet.
pub open spec fn composition_rules(c: GeneratorConfig) -> Seq<crate::report::Rule> {
    surfaces_rules(c.composition)
        + extension_sampling_rules(c.composition.building_extensions)
        + signage_sampling_rules(c.composition.signage)
        + day_phases_rules(c.composition.day_phase.profiles@, c.lighting)
        + weathers_rules(c.composition.weather.profiles@, c.lighting)
        + domains_rules(
            c.composition.domains.profiles@,
            c.composition.background_buildings,
            c.composition.vegetation,
        )
        + background_rules(c.composition.background_buildings)
        + vegetation_rules(c.composition.vegetation)
}

/// Checks a site composition against its configuration.
pub fn validate_composition_config(report: &mut ValidationReport, c: &GeneratorConfig)
    ensures
        final(report)@ == crate::report::applied(old(report)@, composition_rules(*c)),
{
    check_surfaces(report, &c.composition);
    check_extension_sampling(report, c.composition.building_extensions);
    check_signage_sampling(report, c.composition.signage);
    check_day_phases(report, &c.composition.day_phase.profiles, c.lighting);
    check_weathers(report, &c.composition.weather.profiles, c.lighting);
    check_domains(
        report,
        &c.composition.domains.profiles,
        c.composition.background_buildings,
        c.composition.vegetation,
    );
    check_background(report, c.composition.background_buildings);
    check_vegetation(report, c.composition.vegetation);
}

} // verus!
