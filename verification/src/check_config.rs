//! Rules for generator configurations.

use crate::check_composition::validate_composition_config;
use crate::check_values::{
    validate_materials, validate_probability, validate_range, validate_unit_range, validate_u32_range,
};
use crate::config::{
    CameraSamplingConfig, GeneratorConfig, LightingSamplingConfig, OccluderChoice, OccluderKind,
    OccluderSamplingConfig, RoofMorphologyProfile, RoofSamplingConfig, SceneSamplingConfig,
};
use crate::report::{Validate, ValidationReport};
use crate::single::Single;
use crate::text::{element_path, joined};
use crate::types::FloatRange;
use vstd::prelude::*;

verus! {

broadcast use crate::report::group_rules;

/// Images and sequences are not empty.
pub open spec fn output_rules(c: GeneratorConfig) -> Seq<crate::report::Rule> {
    crate::report::error_if(
        c.image.width == 0 || c.image.height == 0,
        "empty_image"@,
        "image"@,
        "image width and height must both be positive"@,
    )
        + crate::report::error_if(
            c.sequence.frame_count == 0,
            "empty_sequence"@,
            "sequence.frame_count"@,
            "at least one frame is required"@,
        )
        + crate::report::error_if(
            c.sequence.frame_interval_ms == 0,
            "zero_frame_interval"@,
            "sequence.frame_interval_ms"@,
            "frame interval must be positive"@,
        )
}

/// Checks that images and sequences are not empty.
pub fn check_output(report: &mut ValidationReport, c: &GeneratorConfig)
    ensures
        final(report)@ == crate::report::applied(old(report)@, output_rules(*c)),
{
    report.check(
        c.image.width == 0 || c.image.height == 0,
        "empty_image",
        "image",
        "image width and height must both be positive",
    );
    report.check(
        c.sequence.frame_count == 0,
        "empty_sequence",
        "sequence.frame_count",
        "at least one frame is required",
    );
    report.check(
        c.sequence.frame_interval_ms == 0,
        "zero_frame_interval",
        "sequence.frame_interval_ms",
        "frame interval must be positive",
    );
}

/// Building dimensions are positive ranges.
pub open spec fn shell_rules(scene: SceneSamplingConfig) -> Seq<crate::report::Rule> {
    crate::check_values::range_rules("scene.footprint_width_m"@, scene.footprint_width_m, true)
        + crate::check_values::range_rules(
            "scene.footprint_depth_m"@,
            scene.footprint_depth_m,
            true,
        )
        + crate::check_values::range_rules("scene.wall_height_m"@, scene.wall_height_m, true)
        + crate::check_values::range_rules(
            "scene.ground_half_extent_m"@,
            scene.ground_half_extent_m,
            true,
        )
}

/// Checks that building dimensions are positive ranges.
pub fn check_shell(report: &mut ValidationReport, scene: SceneSamplingConfig)
    ensures
        final(report)@ == crate::report::applied(old(report)@, shell_rules(scene)),
{
    validate_range(report, "scene.footprint_width_m", scene.footprint_width_m, true);
    validate_range(report, "scene.footprint_depth_m", scene.footprint_depth_m, true);
    validate_range(report, "scene.wall_height_m", scene.wall_height_m, true);
    validate_range(report, "scene.ground_half_extent_m", scene.ground_half_extent_m, true);
}

/// Roof dimensions are positive ranges, fractions stay below one, and asymmetry is small.
pub open spec fn roof_rules(roof: RoofSamplingConfig) -> Seq<crate::report::Rule> {
    crate::check_values::range_rules("roof.overhang_m"@, roof.overhang_m, true)
        + crate::check_values::range_rules(
            "roof.shoulder_width_fraction"@,
            roof.shoulder_width_fraction,
            true,
        )
        + crate::check_values::range_rules(
            "roof.shoulder_depth_fraction"@,
            roof.shoulder_depth_fraction,
            true,
        )
        + crate::check_values::range_rules("roof.lower_rise_m"@, roof.lower_rise_m, true)
        + crate::check_values::range_rules("roof.upper_rise_m"@, roof.upper_rise_m, true)
        + crate::check_values::range_rules(
            "roof.crown_top_width_fraction"@,
            roof.crown_top_width_fraction,
            true,
        )
        + crate::check_values::range_rules(
            "roof.crown_top_depth_fraction"@,
            roof.crown_top_depth_fraction,
            true,
        )
        + crate::check_values::range_rules(
            "roof.asymmetry_fraction"@,
            roof.asymmetry_fraction,
            false,
        )
        + crate::check_values::unit_range_rules(
            "roof.shoulder_width_fraction"@,
            roof.shoulder_width_fraction,
        )
        + crate::check_values::unit_range_rules(
            "roof.shoulder_depth_fraction"@,
            roof.shoulder_depth_fraction,
        )
        + crate::check_values::unit_range_rules(
            "roof.crown_top_width_fraction"@,
            roof.crown_top_width_fraction,
        )
        + crate::check_values::unit_range_rules(
            "roof.crown_top_depth_fraction"@,
            roof.crown_top_depth_fraction,
        )
        + crate::report::error_if(
            roof.asymmetry_fraction.min.less(Single::ratio((-25) as i32, 100))
            || Single::ratio(25, 100).less(roof.asymmetry_fraction.max),
            "excessive_asymmetry"@,
            "roof.asymmetry_fraction"@,
            "asymmetry must remain within [-0.25, 0.25]"@,
        )
}

/// Checks the global roof ranges.
pub fn check_roof(report: &mut ValidationReport, roof: &RoofSamplingConfig)
    ensures
        final(report)@ == crate::report::applied(old(report)@, roof_rules(*roof)),
{
    validate_range(report, "roof.overhang_m", roof.overhang_m, true);
    validate_range(report, "roof.shoulder_width_fraction", roof.shoulder_width_fraction, true);
    validate_range(report, "roof.shoulder_depth_fraction", roof.shoulder_depth_fraction, true);
    validate_range(report, "roof.lower_rise_m", roof.lower_rise_m, true);
    validate_range(report, "roof.upper_rise_m", roof.upper_rise_m, true);
    validate_range(report, "roof.crown_top_width_fraction", roof.crown_top_width_fraction, true);
    validate_range(report, "roof.crown_top_depth_fraction", roof.crown_top_depth_fraction, true);
    validate_range(report, "roof.asymmetry_fraction", roof.asymmetry_fraction, false);
    validate_unit_range(report, "roof.shoulder_width_fraction", roof.shoulder_width_fraction);
    validate_unit_range(report, "roof.shoulder_depth_fraction", roof.shoulder_depth_fraction);
    validate_unit_range(report, "roof.crown_top_width_fraction", roof.crown_top_width_fraction);
    validate_unit_range(report, "roof.crown_top_depth_fraction", roof.crown_top_depth_fraction);
    report.check(
        roof.asymmetry_fraction.min.less(Single::ratio((-25) as i32, 100))
        || Single::ratio(25, 100).less(roof.asymmetry_fraction.max),
        "excessive_asymmetry",
        "roof.asymmetry_fraction",
        "asymmetry must remain within [-0.25, 0.25]",
    );
}

/// No profile has a positive weight.
pub open spec fn weightless_profiles(profiles: Seq<RoofMorphologyProfile>) -> bool {
    forall|i: int| 0 <= i < profiles.len() ==> (#[trigger] profiles[i]).weight == 0
}

/// The same morphology occurs earlier in the list.
pub open spec fn repeated_morphology(profiles: Seq<RoofMorphologyProfile>, i: int) -> bool {
    exists|j: int| 0 <= j < i && (#[trigger] profiles[j]).morphology == profiles[i].morphology
}

/// The footprint aspect ratios that the scene bounds admit.
pub open spec fn feasible_aspect(scene: SceneSamplingConfig) -> Option<FloatRange> {
    if scene.footprint_width_m.is_valid() && scene.footprint_depth_m.is_valid()
        && Single::zero().less(scene.footprint_width_m.min) && Single::zero().less(
        scene.footprint_depth_m.min,
    ) {
        Some(
            FloatRange {
                min: scene.footprint_width_m.min.over(scene.footprint_depth_m.max),
                max: scene.footprint_width_m.max.over(scene.footprint_depth_m.min),
            },
        )
    } else {
        None
    }
}

fn find_feasible_aspect(scene: SceneSamplingConfig) -> (r: Option<FloatRange>)
    ensures
        r == feasible_aspect(scene),
{
    if scene.footprint_width_m.is_valid() && scene.footprint_depth_m.is_valid()
        && Single::zero().less(scene.footprint_width_m.min) && Single::zero().less(
        scene.footprint_depth_m.min,
    ) {
        Some(
            FloatRange {
                min: scene.footprint_width_m.min.over(scene.footprint_depth_m.max),
                max: scene.footprint_width_m.max.over(scene.footprint_depth_m.min),
            },
        )
    } else {
        None
    }
}

/// Two valid ranges without a common value.
pub open spec fn spec_disjoint(a: FloatRange, b: FloatRange) -> bool {
    a.is_valid() && b.is_valid() && a.intersection(b) is None
}

/// Whether two ranges are valid and have no common value.
#[verifier::when_used_as_spec(spec_disjoint)]
pub fn disjoint(a: FloatRange, b: FloatRange) -> (r: bool)
    ensures
        r == spec_disjoint(a, b),
{
    a.is_valid() && b.is_valid() && a.intersection(b).is_none()
}

/// What one roof profile has to meet: positive ranges, fractions strictly below one, and a
/// common value with every global range.
pub open spec fn profile_rules(
    base: Seq<char>,
    profile: RoofMorphologyProfile,
    roof: RoofSamplingConfig,
    aspect: Option<FloatRange>,
) -> Seq<crate::report::Rule> {
    crate::check_values::range_rules(
        base + ".footprint_aspect_ratio"@,
        profile.footprint_aspect_ratio,
        true,
    )
        + crate::check_values::range_rules(base + ".overhang_m"@, profile.overhang_m, true)
        + crate::check_values::range_rules(
            base + ".shoulder_width_fraction"@,
            profile.shoulder_width_fraction,
            true,
        )
        + crate::check_values::range_rules(
            base + ".shoulder_depth_fraction"@,
            profile.shoulder_depth_fraction,
            true,
        )
        + crate::check_values::range_rules(base + ".lower_rise_m"@, profile.lower_rise_m, true)
        + crate::check_values::range_rules(base + ".upper_rise_m"@, profile.upper_rise_m, true)
        + crate::check_values::range_rules(
            base + ".crown_top_width_fraction"@,
            profile.crown_top_width_fraction,
            true,
        )
        + crate::check_values::range_rules(
            base + ".crown_top_depth_fraction"@,
            profile.crown_top_depth_fraction,
            true,
        )
        + crate::check_values::unit_range_rules(
            base + ".shoulder_width_fraction"@,
            profile.shoulder_width_fraction,
        )
        + crate::report::error_if(
            profile.shoulder_width_fraction.is_valid() && Single::one().at_most(
                profile.shoulder_width_fraction.max,
            ),
            "non_nested_roof_profile"@,
            base + ".shoulder_width_fraction"@,
            "roof profile fractions must remain strictly below one"@,
        )
        + crate::check_values::unit_range_rules(
            base + ".shoulder_depth_fraction"@,
            profile.shoulder_depth_fraction,
        )
        + crate::report::error_if(
            profile.shoulder_depth_fraction.is_valid() && Single::one().at_most(
                profile.shoulder_depth_fraction.max,
            ),
            "non_nested_roof_profile"@,
            base + ".shoulder_depth_fraction"@,
            "roof profile fractions must remain strictly below one"@,
        )
        + crate::check_values::unit_range_rules(
            base + ".crown_top_width_fraction"@,
            profile.crown_top_width_fraction,
        )
        + crate::report::error_if(
            profile.crown_top_width_fraction.is_valid() && Single::one().at_most(
                profile.crown_top_width_fraction.max,
            ),
            "non_nested_roof_profile"@,
            base + ".crown_top_width_fraction"@,
            "roof profile fractions must remain strictly below one"@,
        )
        + crate::check_values::unit_range_rules(
            base + ".crown_top_depth_fraction"@,
            profile.crown_top_depth_fraction,
        )
        + crate::report::error_if(
            profile.crown_top_depth_fraction.is_valid() && Single::one().at_most(
                profile.crown_top_depth_fraction.max,
            ),
            "non_nested_roof_profile"@,
            base + ".crown_top_depth_fraction"@,
            "roof profile fractions must remain strictly below one"@,
        )
        + crate::report::error_if(
            disjoint(roof.overhang_m, profile.overhang_m),
            "unsupported_roof_profile_range"@,
            base + ".overhang_m"@,
            "profile range must overlap the corresponding global roof range"@,
        )
        + crate::report::error_if(
            disjoint(roof.shoulder_width_fraction, profile.shoulder_width_fraction),
            "unsupported_roof_profile_range"@,
            base + ".shoulder_width_fraction"@,
            "profile range must overlap the corresponding global roof range"@,
        )
        + crate::report::error_if(
            disjoint(roof.shoulder_depth_fraction, profile.shoulder_depth_fraction),
            "unsupported_roof_profile_range"@,
            base + ".shoulder_depth_fraction"@,
            "profile range must overlap the corresponding global roof range"@,
        )
        + crate::report::error_if(
            disjoint(roof.lower_rise_m, profile.lower_rise_m),
            "unsupported_roof_profile_range"@,
            base + ".lower_rise_m"@,
            "profile range must overlap the corresponding global roof range"@,
        )
        + crate::report::error_if(
            disjoint(roof.upper_rise_m, profile.upper_rise_m),
            "unsupported_roof_profile_range"@,
            base + ".upper_rise_m"@,
            "profile range must overlap the corresponding global roof range"@,
        )
        + crate::report::error_if(
            disjoint(roof.crown_top_width_fraction, profile.crown_top_width_fraction),
            "unsupported_roof_profile_range"@,
            base + ".crown_top_width_fraction"@,
            "profile range must overlap the corresponding global roof range"@,
        )
        + crate::report::error_if(
            disjoint(roof.crown_top_depth_fraction, profile.crown_top_depth_fraction),
            "unsupported_roof_profile_range"@,
            base + ".crown_top_depth_fraction"@,
            "profile range must overlap the corresponding global roof range"@,
        )
        + crate::report::error_if(
            aspect is Some && profile.footprint_aspect_ratio.is_valid()
            && profile.footprint_aspect_ratio.intersection(aspect->0) is None,
            "unsupported_footprint_aspect"@,
            base + ".footprint_aspect_ratio"@,
            "profile aspect ratio must admit width and depth inside the global scene bounds"@,
        )
}

/// Checks the ranges of one roof profile.
fn check_profile(
    report: &mut ValidationReport,
    base: &str,
    profile: RoofMorphologyProfile,
    roof: &RoofSamplingConfig,
    aspect: Option<FloatRange>,
)
    ensures
        final(report)@ == crate::report::applied(
            old(report)@,
            profile_rules(base@, profile, *roof, aspect),
        ),
{
    validate_range(
        report,
        &joined(base, ".footprint_aspect_ratio"),
        profile.footprint_aspect_ratio,
        true,
    );
    validate_range(report, &joined(base, ".overhang_m"), profile.overhang_m, true);
    validate_range(
        report,
        &joined(base, ".shoulder_width_fraction"),
        profile.shoulder_width_fraction,
        true,
    );
    validate_range(
        report,
        &joined(base, ".shoulder_depth_fraction"),
        profile.shoulder_depth_fraction,
        true,
    );
    validate_range(report, &joined(base, ".lower_rise_m"), profile.lower_rise_m, true);
    validate_range(report, &joined(base, ".upper_rise_m"), profile.upper_rise_m, true);
    validate_range(
        report,
        &joined(base, ".crown_top_width_fraction"),
        profile.crown_top_width_fraction,
        true,
    );
    validate_range(
        report,
        &joined(base, ".crown_top_depth_fraction"),
        profile.crown_top_depth_fraction,
        true,
    );
    validate_unit_range(
        report,
        &joined(base, ".shoulder_width_fraction"),
        profile.shoulder_width_fraction,
    );
    report.check_field(
        profile.shoulder_width_fraction.is_valid() && Single::one().at_most(
            profile.shoulder_width_fraction.max,
        ),
        "non_nested_roof_profile",
        base,
        ".shoulder_width_fraction",
        "roof profile fractions must remain strictly below one",
    );
    validate_unit_range(
        report,
        &joined(base, ".shoulder_depth_fraction"),
        profile.shoulder_depth_fraction,
    );
    report.check_field(
        profile.shoulder_depth_fraction.is_valid() && Single::one().at_most(
            profile.shoulder_depth_fraction.max,
        ),
        "non_nested_roof_profile",
        base,
        ".shoulder_depth_fraction",
        "roof profile fractions must remain strictly below one",
    );
    validate_unit_range(
        report,
        &joined(base, ".crown_top_width_fraction"),
        profile.crown_top_width_fraction,
    );
    report.check_field(
        profile.crown_top_width_fraction.is_valid() && Single::one().at_most(
            profile.crown_top_width_fraction.max,
        ),
        "non_nested_roof_profile",
        base,
        ".crown_top_width_fraction",
        "roof profile fractions must remain strictly below one",
    );
    validate_unit_range(
        report,
        &joined(base, ".crown_top_depth_fraction"),
        profile.crown_top_depth_fraction,
    );
    report.check_field(
        profile.crown_top_depth_fraction.is_valid() && Single::one().at_most(
            profile.crown_top_depth_fraction.max,
        ),
        "non_nested_roof_profile",
        base,
        ".crown_top_depth_fraction",
        "roof profile fractions must remain strictly below one",
    );
    report.check_field(
        disjoint(roof.overhang_m, profile.overhang_m),
        "unsupported_roof_profile_range",
        base,
        ".overhang_m",
        "profile range must overlap the corresponding global roof range",
    );
    report.check_field(
        disjoint(roof.shoulder_width_fraction, profile.shoulder_width_fraction),
        "unsupported_roof_profile_range",
        base,
        ".shoulder_width_fraction",
        "profile range must overlap the corresponding global roof range",
    );
    report.check_field(
        disjoint(roof.shoulder_depth_fraction, profile.shoulder_depth_fraction),
        "unsupported_roof_profile_range",
        base,
        ".shoulder_depth_fraction",
        "profile range must overlap the corresponding global roof range",
    );
    report.check_field(
        disjoint(roof.lower_rise_m, profile.lower_rise_m),
        "unsupported_roof_profile_range",
        base,
        ".lower_rise_m",
        "profile range must overlap the corresponding global roof range",
    );
    report.check_field(
        disjoint(roof.upper_rise_m, profile.upper_rise_m),
        "unsupported_roof_profile_range",
        base,
        ".upper_rise_m",
        "profile range must overlap the corresponding global roof range",
    );
    report.check_field(
        disjoint(roof.crown_top_width_fraction, profile.crown_top_width_fraction),
        "unsupported_roof_profile_range",
        base,
        ".crown_top_width_fraction",
        "profile range must overlap the corresponding global roof range",
    );
    report.check_field(
        disjoint(roof.crown_top_depth_fraction, profile.crown_top_depth_fraction),
        "unsupported_roof_profile_range",
        base,
        ".crown_top_depth_fraction",
        "profile range must overlap the corresponding global roof range",
    );
    report.check_field(
        match aspect {
        Some(range) => profile.footprint_aspect_ratio.is_valid()
            && profile.footprint_aspect_ratio.intersection(range).is_none(),
        None => false,
    },
        "unsupported_footprint_aspect",
        base,
        ".footprint_aspect_ratio",
        "profile aspect ratio must admit width and depth inside the global scene bounds",
    );
}

/// What the first `n` roof profiles have to meet.
pub open spec fn first_profile_rules(c: GeneratorConfig, n: nat) -> Seq<crate::report::Rule>
    decreases n,
{
    if n == 0 {
        Seq::empty()
    } else {
        let base = crate::text::element("roof.profiles"@, n - 1, ""@);
        first_profile_rules(c, (n - 1) as nat) + crate::report::error_if(
            repeated_morphology(c.roof.profiles@, n - 1),
            "duplicate_roof_morphology"@,
            crate::text::element("roof.profiles"@, n - 1, ".morphology"@),
            "each roof morphology may appear at most once"@,
        ) + profile_rules(base, c.roof.profiles@[n - 1], c.roof, feasible_aspect(c.scene))
    }
}

/// The roof profiles form a distribution of distinct, supported morphologies.
pub open spec fn profiles_rules(c: GeneratorConfig) -> Seq<crate::report::Rule> {
    crate::report::error_if(
        weightless_profiles(c.roof.profiles@),
        "empty_roof_morphology_distribution"@,
        "roof.profiles"@,
        "at least one positive-weight roof morphology profile is required"@,
    ) + first_profile_rules(c, c.roof.profiles@.len())
}

fn are_weightless(profiles: &Vec<RoofMorphologyProfile>) -> (r: bool)
    ensures
        r == weightless_profiles(profiles@),
{
    let mut i: usize = 0;
    while i < profiles.len()
        invariant
            i <= profiles@.len(),
            forall|j: int| 0 <= j < i ==> (#[trigger] profiles@[j]).weight == 0,
        decreases profiles@.len() - i,
    {
        if profiles[i].weight != 0 {
            return false;
        }
        i = i + 1;
    }
    true
}

fn is_repeated_morphology(profiles: &Vec<RoofMorphologyProfile>, i: usize) -> (r: bool)
    requires
        i < profiles@.len(),
    ensures
        r == repeated_morphology(profiles@, i as int),
{
    let mut j: usize = 0;
    while j < i
        invariant
            j <= i < profiles@.len(),
            forall|k: int|
                0 <= k < j ==> (#[trigger] profiles@[k]).morphology
                    != profiles@[i as int].morphology,
        decreases i - j,
    {
        if profiles[j].morphology == profiles[i].morphology {
            return true;
        }
        j = j + 1;
    }
    false
}

/// Checks the roof profiles against each other and against the global ranges.
pub fn validate_roof_profiles(report: &mut ValidationReport, c: &GeneratorConfig)
    ensures
        final(report)@ == crate::report::applied(old(report)@, profiles_rules(*c)),
{
    let profiles = &c.roof.profiles;
    report.check(
        are_weightless(profiles),
        "empty_roof_morphology_distribution",
        "roof.profiles",
        "at least one positive-weight roof morphology profile is required",
    );
    let aspect = find_feasible_aspect(c.scene);
    let ghost start = report@;
    let mut i: usize = 0;
    while i < profiles.len()
        invariant
            i <= profiles@.len(),
            profiles@ == c.roof.profiles@,
            aspect == feasible_aspect(c.scene),
            report@ == crate::report::applied(start, first_profile_rules(*c, i as nat)),
        decreases profiles@.len() - i,
    {
        report.check_element(
            is_repeated_morphology(profiles, i),
            "duplicate_roof_morphology",
            "roof.profiles",
            i,
            ".morphology",
            "each roof morphology may appear at most once",
        );
        let base = element_path("roof.profiles", i, "");
        check_profile(report, &base, profiles[i], &c.roof, aspect);
        i = i + 1;
    }
}

/// Camera ranges are sound, path and scale distributions are not empty, and lenses, crops and
/// sway stay within physical bounds.
pub open spec fn camera_sampling_rules(camera: CameraSamplingConfig) -> Seq<crate::report::Rule> {
    crate::check_values::range_rules("camera.distance_m"@, camera.distance_m, true)
        + crate::check_values::range_rules("camera.height_m"@, camera.height_m, true)
        + crate::check_values::range_rules("camera.sweep_degrees"@, camera.sweep_degrees, true)
        + crate::check_values::range_rules(
            "camera.radial_motion_fraction"@,
            camera.radial_motion_fraction,
            false,
        )
        + crate::check_values::range_rules(
            "camera.horizontal_fov_degrees"@,
            camera.horizontal_fov_degrees,
            true,
        )
        + crate::check_values::range_rules(
            "camera.target_above_eave_m"@,
            camera.target_above_eave_m,
            false,
        )
        + crate::check_values::range_rules("camera.zoom_ratio"@, camera.zoom_ratio, true)
        + crate::check_values::range_rules(
            "camera.target_width_fraction"@,
            camera.target_width_fraction,
            true,
        )
        + crate::check_values::range_rules(
            "camera.distant_target_width_fraction"@,
            camera.distant_target_width_fraction,
            true,
        )
        + crate::check_values::range_rules(
            "camera.close_target_width_fraction"@,
            camera.close_target_width_fraction,
            true,
        )
        + crate::check_values::range_rules(
            "camera.partial_target_width_fraction"@,
            camera.partial_target_width_fraction,
            true,
        )
        + crate::check_values::range_rules(
            "camera.framing_offset_fraction"@,
            camera.framing_offset_fraction,
            true,
        )
        + crate::check_values::range_rules("camera.handheld_sway_m"@, camera.handheld_sway_m, false)
        + crate::report::error_if(
            camera.horizontal_fov_degrees.min.at_most(Single::one())
            || Single::ratio(179, 1).at_most(camera.horizontal_fov_degrees.max),
            "invalid_camera_fov"@,
            "camera.horizontal_fov_degrees"@,
            "horizontal field of view must remain between 1 and 179 degrees"@,
        )
        + crate::report::error_if(
            camera.radial_motion_fraction.min.at_most(Single::ratio((-1) as i32, 1)),
            "invalid_radial_motion"@,
            "camera.radial_motion_fraction"@,
            "radial motion cannot place the camera at or through the origin"@,
        )
        + crate::report::error_if(
            camera.orbit_weight == 0 && camera.lateral_walk_weight == 0
            && camera.approach_arc_weight == 0 && camera.corner_reveal_weight == 0,
            "empty_camera_path_distribution"@,
            "camera"@,
            "at least one camera-path weight must be positive"@,
        )
        + crate::report::error_if(
            camera.distant_view_weight == 0 && camera.normal_view_weight == 0
            && camera.close_view_weight == 0,
            "empty_camera_scale_distribution"@,
            "camera"@,
            "at least one apparent-scale weight must be positive"@,
        )
        + crate::check_values::probability_rules(
            "camera.zoom_probability"@,
            camera.zoom_probability,
        )
        + crate::check_values::probability_rules(
            "camera.partial_crop_probability"@,
            camera.partial_crop_probability,
        )
        + crate::report::error_if(
            camera.zoom_ratio.min.less(Single::ratio(1, 2))
            || Single::ratio(2, 1).less(camera.zoom_ratio.max),
            "implausible_zoom_ratio"@,
            "camera.zoom_ratio"@,
            "end/start FOV ratio must remain within [0.5, 2.0]"@,
        )
        + crate::report::error_if(
            Single::ratio(15, 10).less(camera.partial_target_width_fraction.max)
            || camera.distant_target_width_fraction.min.less(Single::ratio(1, 10))
            || Single::one().less(camera.close_target_width_fraction.max)
            || Single::ratio(6, 10).less(camera.framing_offset_fraction.max)
            || camera.handheld_sway_m.min.less(Single::zero())
            || Single::ratio(1, 2).less(camera.handheld_sway_m.max),
            "implausible_camera_composition"@,
            "camera"@,
            "crop, offset, and handheld-sway ranges exceed supported physical bounds"@,
        )
}

/// Checks the camera distribution.
pub fn check_camera_sampling(report: &mut ValidationReport, camera: CameraSamplingConfig)
    ensures
        final(report)@ == crate::report::applied(old(report)@, camera_sampling_rules(camera)),
{
    validate_range(report, "camera.distance_m", camera.distance_m, true);
    validate_range(report, "camera.height_m", camera.height_m, true);
    validate_range(report, "camera.sweep_degrees", camera.sweep_degrees, true);
    validate_range(report, "camera.radial_motion_fraction", camera.radial_motion_fraction, false);
    validate_range(report, "camera.horizontal_fov_degrees", camera.horizontal_fov_degrees, true);
    validate_range(report, "camera.target_above_eave_m", camera.target_above_eave_m, false);
    validate_range(report, "camera.zoom_ratio", camera.zoom_ratio, true);
    validate_range(report, "camera.target_width_fraction", camera.target_width_fraction, true);
    validate_range(
        report,
        "camera.distant_target_width_fraction",
        camera.distant_target_width_fraction,
        true,
    );
    validate_range(
        report,
        "camera.close_target_width_fraction",
        camera.close_target_width_fraction,
        true,
    );
    validate_range(
        report,
        "camera.partial_target_width_fraction",
        camera.partial_target_width_fraction,
        true,
    );
    validate_range(report, "camera.framing_offset_fraction", camera.framing_offset_fraction, true);
    validate_range(report, "camera.handheld_sway_m", camera.handheld_sway_m, false);
    report.check(
        camera.horizontal_fov_degrees.min.at_most(Single::one())
        || Single::ratio(179, 1).at_most(camera.horizontal_fov_degrees.max),
        "invalid_camera_fov",
        "camera.horizontal_fov_degrees",
        "horizontal field of view must remain between 1 and 179 degrees",
    );
    report.check(
        camera.radial_motion_fraction.min.at_most(Single::ratio((-1) as i32, 1)),
        "invalid_radial_motion",
        "camera.radial_motion_fraction",
        "radial motion cannot place the camera at or through the origin",
    );
    report.check(
        camera.orbit_weight == 0 && camera.lateral_walk_weight == 0
        && camera.approach_arc_weight == 0 && camera.corner_reveal_weight == 0,
        "empty_camera_path_distribution",
        "camera",
        "at least one camera-path weight must be positive",
    );
    report.check(
        camera.distant_view_weight == 0 && camera.normal_view_weight == 0
        && camera.close_view_weight == 0,
        "empty_camera_scale_distribution",
        "camera",
        "at least one apparent-scale weight must be positive",
    );
    validate_probability(report, "camera.zoom_probability", camera.zoom_probability);
    validate_probability(
        report,
        "camera.partial_crop_probability",
        camera.partial_crop_probability,
    );
    report.check(
        camera.zoom_ratio.min.less(Single::ratio(1, 2))
        || Single::ratio(2, 1).less(camera.zoom_ratio.max),
        "implausible_zoom_ratio",
        "camera.zoom_ratio",
        "end/start FOV ratio must remain within [0.5, 2.0]",
    );
    report.check(
        Single::ratio(15, 10).less(camera.partial_target_width_fraction.max)
        || camera.distant_target_width_fraction.min.less(Single::ratio(1, 10))
        || Single::one().less(camera.close_target_width_fraction.max)
        || Single::ratio(6, 10).less(camera.framing_offset_fraction.max)
        || camera.handheld_sway_m.min.less(Single::zero())
        || Single::ratio(1, 2).less(camera.handheld_sway_m.max),
        "implausible_camera_composition",
        "camera",
        "crop, offset, and handheld-sway ranges exceed supported physical bounds",
    );
}

/// Light ranges are sound and no light is negative.
pub open spec fn lighting_rules(lighting: LightingSamplingConfig) -> Seq<crate::report::Rule> {
    crate::check_values::range_rules(
        "lighting.sun_elevation_degrees"@,
        lighting.sun_elevation_degrees,
        false,
    )
        + crate::check_values::range_rules("lighting.sun_intensity"@, lighting.sun_intensity, false)
        + crate::check_values::range_rules("lighting.sky_intensity"@, lighting.sky_intensity, false)
        + crate::check_values::range_rules(
            "lighting.cloud_coverage"@,
            lighting.cloud_coverage,
            false,
        )
        + crate::check_values::range_rules("lighting.haze"@, lighting.haze, false)
        + crate::check_values::unit_range_rules("lighting.cloud_coverage"@, lighting.cloud_coverage)
        + crate::check_values::unit_range_rules("lighting.haze"@, lighting.haze)
        + crate::report::error_if(
            lighting.sun_intensity.min.less(Single::zero())
            || lighting.sky_intensity.min.less(Single::zero()),
            "negative_light"@,
            "lighting"@,
            "light intensity cannot be negative"@,
        )
}

/// Checks the lighting distribution.
pub fn check_lighting(report: &mut ValidationReport, lighting: LightingSamplingConfig)
    ensures
        final(report)@ == crate::report::applied(old(report)@, lighting_rules(lighting)),
{
    validate_range(report, "lighting.sun_elevation_degrees", lighting.sun_elevation_degrees, false);
    validate_range(report, "lighting.sun_intensity", lighting.sun_intensity, false);
    validate_range(report, "lighting.sky_intensity", lighting.sky_intensity, false);
    validate_range(report, "lighting.cloud_coverage", lighting.cloud_coverage, false);
    validate_range(report, "lighting.haze", lighting.haze, false);
    validate_unit_range(report, "lighting.cloud_coverage", lighting.cloud_coverage);
    validate_unit_range(report, "lighting.haze", lighting.haze);
    report.check(
        lighting.sun_intensity.min.less(Single::zero())
        || lighting.sky_intensity.min.less(Single::zero()),
        "negative_light",
        "lighting",
        "light intensity cannot be negative",
    );
}

/// No choice but rooftop equipment has a positive weight.
pub open spec fn without_ground_clutter(choices: Seq<OccluderChoice>) -> bool {
    forall|i: int|
        0 <= i < choices.len() ==> (#[trigger] choices[i]).kind == OccluderKind::RooftopEquipment
            || choices[i].weight == 0
}

fn lacks_ground_clutter(choices: &Vec<OccluderChoice>) -> (r: bool)
    ensures
        r == without_ground_clutter(choices@),
{
    let mut i: usize = 0;
    while i < choices.len()
        invariant
            i <= choices@.len(),
            forall|j: int|
                0 <= j < i ==> (#[trigger] choices@[j]).kind == OccluderKind::RooftopEquipment
                    || choices@[j].weight == 0,
        decreases choices@.len() - i,
    {
        if choices[i].kind != OccluderKind::RooftopEquipment && choices[i].weight != 0 {
            return false;
        }
        i = i + 1;
    }
    true
}

/// Occluder ranges are sound, and something other than rooftop equipment can be chosen.
pub open spec fn clutter_rules(occluders: OccluderSamplingConfig) -> Seq<crate::report::Rule> {
    crate::check_values::u32_range_rules("occluders.count"@, occluders.count)
        + crate::check_values::range_rules("occluders.distance_m"@, occluders.distance_m, false)
        + crate::check_values::range_rules("occluders.scale"@, occluders.scale, true)
        + crate::check_values::range_rules(
            "occluders.foreground_depth_fraction"@,
            occluders.foreground_depth_fraction,
            true,
        )
        + crate::check_values::unit_range_rules(
            "occluders.foreground_depth_fraction"@,
            occluders.foreground_depth_fraction,
        )
        + crate::check_values::range_rules(
            "occluders.foreground_lateral_offset_m"@,
            occluders.foreground_lateral_offset_m,
            false,
        )
        + crate::check_values::probability_rules(
            "occluders.foreground_probability"@,
            occluders.foreground_probability,
        )
        + crate::report::error_if(
            without_ground_clutter(occluders.choices@),
            "empty_weighted_distribution"@,
            "occluders.choices"@,
            "at least one positive-weight non-rooftop occluder choice is required"@,
        )
}

/// Checks the occluder distribution.
pub fn check_clutter(report: &mut ValidationReport, occluders: &OccluderSamplingConfig)
    ensures
        final(report)@ == crate::report::applied(old(report)@, clutter_rules(*occluders)),
{
    validate_u32_range(report, "occluders.count", occluders.count);
    validate_range(report, "occluders.distance_m", occluders.distance_m, false);
    validate_range(report, "occluders.scale", occluders.scale, true);
    validate_range(
        report,
        "occluders.foreground_depth_fraction",
        occluders.foreground_depth_fraction,
        true,
    );
    validate_unit_range(
        report,
        "occluders.foreground_depth_fraction",
        occluders.foreground_depth_fraction,
    );
    validate_range(
        report,
        "occluders.foreground_lateral_offset_m",
        occluders.foreground_lateral_offset_m,
        false,
    );
    validate_probability(
        report,
        "occluders.foreground_probability",
        occluders.foreground_probability,
    );
    report.check(
        lacks_ground_clutter(&occluders.choices),
        "empty_weighted_distribution",
        "occluders.choices",
        "at least one positive-weight non-rooftop occluder choice is required",
    );
}

impl Validate for GeneratorConfig {
    open spec fn rules(&self) -> Seq<crate::report::Rule> {
        output_rules(*self) + shell_rules(self.scene) + roof_rules(self.roof) + profiles_rules(
            *self,
        )
            + camera_sampling_rules(self.camera) + crate::check_values::materials_rules(
            "materials.roof"@,
            self.materials.roof@,
        ) + crate::check_values::materials_rules("materials.walls"@, self.materials.walls@)
            + lighting_rules(self.lighting) + clutter_rules(self.occluders)
            + crate::check_composition::composition_rules(*self)
    }

    fn validate(&self) -> (report: ValidationReport) {
        let mut report = ValidationReport::default();
        check_output(&mut report, self);
        check_shell(&mut report, self.scene);
        check_roof(&mut report, &self.roof);
        validate_roof_profiles(&mut report, self);
        check_camera_sampling(&mut report, self.camera);
        validate_materials(&mut report, "materials.roof", &self.materials.roof);
        validate_materials(&mut report, "materials.walls", &self.materials.walls);
        check_lighting(&mut report, self.lighting);
        check_clutter(&mut report, &self.occluders);
        validate_composition_config(&mut report, self);
        report
    }
}

/// The standard configuration is accepted without any finding.
pub proof fn standard_configurations_are_accepted(c: GeneratorConfig)
    requires
        c.is_standard(),
    ensures
        crate::report::broken(c.rules()).len() == 0,
        crate::report::met(c.rules()),
{
    broadcast use crate::report::group_kept;

    reveal(crate::report::kept);
    crate::standard_rules::lemma_output(c);
    crate::standard_rules::lemma_shell();
    crate::standard_rules::lemma_roof(c.roof);
    crate::standard_rules::lemma_profiles(c);
    crate::standard_rules::lemma_camera();
    crate::standard_rules::lemma_finishes(c.materials);
    crate::standard_rules::lemma_lighting();
    crate::standard_rules::lemma_clutter(c.occluders);
    crate::standard_rules::lemma_composition(c);
    assert(crate::report::kept(c.rules()));
}

} // verus!
