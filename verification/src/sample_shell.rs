//! Sampling of the building, its roof, its materials and its light.

use crate::choice::{choose_day_phase, choose_domain, choose_material, choose_roof_profile, choose_weather};
use crate::composition::{
    DayPhase, DayPhaseProfile, SampledEnvironment, SceneDomain, SceneDomainProfile, WeatherProfile,
};
use crate::config::{
    LightingSamplingConfig, MaterialChoice, RoofMorphology, RoofMorphologyProfile,
    RoofSamplingConfig, SceneSamplingConfig,
};
use crate::draws::{Draws, unit_of};
use crate::plan::{
    OrdinaryRoofFamily, SampledBuilding, SampledLighting, SampledMaterial, SampledOrdinaryRoof,
    SampledRoof, SequenceRequest,
};
use crate::single::Single;
use crate::types::FloatRange;
use vstd::prelude::*;

verus! {

/// The footprint aspect ratios that a profile and the scene both admit.
pub open spec fn spec_aspect_range(
    scene: SceneSamplingConfig,
    profile: RoofMorphologyProfile,
) -> Option<FloatRange> {
    profile.footprint_aspect_ratio.intersection(
        FloatRange::new(
            scene.footprint_width_m.min.over(scene.footprint_depth_m.max),
            scene.footprint_width_m.max.over(scene.footprint_depth_m.min),
        ),
    )
}

/// The footprint aspect ratios that a profile and the scene both admit.
#[verifier::when_used_as_spec(spec_aspect_range)]
pub fn aspect_range(
    scene: SceneSamplingConfig,
    profile: RoofMorphologyProfile,
) -> (r: Option<FloatRange>)
    ensures
        r == spec_aspect_range(scene, profile),
{
    profile.footprint_aspect_ratio.intersection(
        FloatRange::new(
            scene.footprint_width_m.min.over(scene.footprint_depth_m.max),
            scene.footprint_width_m.max.over(scene.footprint_depth_m.min),
        ),
    )
}

/// The widths for which an aspect ratio gives a depth that the scene admits.
pub open spec fn spec_width_range(
    scene: SceneSamplingConfig,
    aspect_ratio: Single,
) -> Option<FloatRange> {
    scene.footprint_width_m.intersection(
        FloatRange::new(
            scene.footprint_depth_m.min.times(aspect_ratio),
            scene.footprint_depth_m.max.times(aspect_ratio),
        ),
    )
}

/// The widths for which an aspect ratio gives a depth that the scene admits.
#[verifier::when_used_as_spec(spec_width_range)]
pub fn width_range(scene: SceneSamplingConfig, aspect_ratio: Single) -> (r: Option<FloatRange>)
    ensures
        r == spec_width_range(scene, aspect_ratio),
{
    scene.footprint_width_m.intersection(
        FloatRange::new(
            scene.footprint_depth_m.min.times(aspect_ratio),
            scene.footprint_depth_m.max.times(aspect_ratio),
        ),
    )
}

/// The building that four fractions give; none where the ranges do not meet.
pub open spec fn spec_building_from(
    scene: SceneSamplingConfig,
    profile: RoofMorphologyProfile,
    u: [Single; 4],
) -> Option<SampledBuilding> {
    match aspect_range(scene, profile) {
        None => None,
        Some(aspects) => {
            let aspect_ratio = aspects.at(u[0]);
            match width_range(scene, aspect_ratio) {
                None => None,
                Some(widths) => {
                    let footprint_width_m = widths.at(u[1]);
                    Some(
                        SampledBuilding {
                            footprint_width_m,
                            footprint_depth_m: footprint_width_m.over(aspect_ratio).clamp(
                                scene.footprint_depth_m.min,
                                scene.footprint_depth_m.max,
                            ),
                            wall_height_m: scene.wall_height_m.at(u[2]),
                            ground_half_extent_m: scene.ground_half_extent_m.at(u[3]),
                        },
                    )
                },
            }
        },
    }
}

/// The building that four fractions give; none where the ranges do not meet.
#[verifier::when_used_as_spec(spec_building_from)]
pub fn building_from(
    scene: SceneSamplingConfig,
    profile: RoofMorphologyProfile,
    u: [Single; 4],
) -> (r: Option<SampledBuilding>)
    ensures
        r == spec_building_from(scene, profile, u),
{
    match aspect_range(scene, profile) {
        None => None,
        Some(aspects) => {
            let aspect_ratio = aspects.at(u[0]);
            match width_range(scene, aspect_ratio) {
                None => None,
                Some(widths) => {
                    let footprint_width_m = widths.at(u[1]);
                    Some(
                        SampledBuilding {
                            footprint_width_m,
                            footprint_depth_m: footprint_width_m.over(aspect_ratio).clamp(
                                scene.footprint_depth_m.min,
                                scene.footprint_depth_m.max,
                            ),
                            wall_height_m: scene.wall_height_m.at(u[2]),
                            ground_half_extent_m: scene.ground_half_extent_m.at(u[3]),
                        },
                    )
                },
            }
        },
    }
}

/// Samples the building shell for a roof profile; none where the ranges do not meet.
pub open spec fn spec_sample_building(
    scene: SceneSamplingConfig,
    seed: u64,
    profile: RoofMorphologyProfile,
) -> Option<SampledBuilding> {
    let d = Draws::of(seed, "building");
    building_from(
        scene,
        profile,
        [d.unit(), d.skip(1).unit(), d.skip(2).unit(), d.skip(3).unit()],
    )
}

/// Samples the building shell for a roof profile; none where the ranges do not meet.
#[verifier::when_used_as_spec(spec_sample_building)]
pub fn sample_building(
    scene: SceneSamplingConfig,
    seed: u64,
    profile: RoofMorphologyProfile,
) -> (r: Option<SampledBuilding>)
    ensures
        r == spec_sample_building(scene, seed, profile),
{
    let d = Draws::of(seed, "building");
    let w = d.words();
    building_from(
        scene,
        profile,
        [unit_of(w[0]), unit_of(w[1]), unit_of(w[2]), unit_of(w[3])],
    )
}

/// The ranges that a profile leaves of the global roof ranges.
#[derive(Clone, Copy, Debug, PartialEq, Eq, Structural)]
pub struct RoofRanges {
    /// Eave overhang.
    pub overhang_m: FloatRange,
    /// Shoulder width over eave width.
    pub shoulder_width_fraction: FloatRange,
    /// Shoulder depth over eave depth.
    pub shoulder_depth_fraction: FloatRange,
    /// Eave-to-shoulder rise.
    pub lower_rise_m: FloatRange,
    /// Shoulder-to-crown rise.
    pub upper_rise_m: FloatRange,
    /// Crown width over shoulder width.
    pub crown_top_width_fraction: FloatRange,
    /// Crown depth over shoulder depth.
    pub crown_top_depth_fraction: FloatRange,
}

/// The ranges that a profile leaves of the global roof ranges; none where some pair does
/// not meet.
pub open spec fn spec_roof_ranges(
    roof: &RoofSamplingConfig,
    profile: RoofMorphologyProfile,
) -> Option<RoofRanges> {
    let overhang = roof.overhang_m.intersection(profile.overhang_m);
    let shoulder_width = roof.shoulder_width_fraction.intersection(profile.shoulder_width_fraction);
    let shoulder_depth = roof.shoulder_depth_fraction.intersection(profile.shoulder_depth_fraction);
    let lower = roof.lower_rise_m.intersection(profile.lower_rise_m);
    let upper = roof.upper_rise_m.intersection(profile.upper_rise_m);
    let crown_width = roof.crown_top_width_fraction.intersection(profile.crown_top_width_fraction);
    let crown_depth = roof.crown_top_depth_fraction.intersection(profile.crown_top_depth_fraction);
    if overhang.is_some() && shoulder_width.is_some() && shoulder_depth.is_some() && lower.is_some()
        && upper.is_some() && crown_width.is_some() && crown_depth.is_some() {
        Some(
            RoofRanges {
                overhang_m: overhang.unwrap(),
                shoulder_width_fraction: shoulder_width.unwrap(),
                shoulder_depth_fraction: shoulder_depth.unwrap(),
                lower_rise_m: lower.unwrap(),
                upper_rise_m: upper.unwrap(),
                crown_top_width_fraction: crown_width.unwrap(),
                crown_top_depth_fraction: crown_depth.unwrap(),
            },
        )
    } else {
        None
    }
}

/// The ranges that a profile leaves of the global roof ranges; none where some pair does
/// not meet.
#[verifier::when_used_as_spec(spec_roof_ranges)]
pub fn roof_ranges(
    roof: &RoofSamplingConfig,
    profile: RoofMorphologyProfile,
) -> (r: Option<RoofRanges>)
    ensures
        r == spec_roof_ranges(roof, profile),
{
    let overhang = roof.overhang_m.intersection(profile.overhang_m);
    let shoulder_width = roof.shoulder_width_fraction.intersection(profile.shoulder_width_fraction);
    let shoulder_depth = roof.shoulder_depth_fraction.intersection(profile.shoulder_depth_fraction);
    let lower = roof.lower_rise_m.intersection(profile.lower_rise_m);
    let upper = roof.upper_rise_m.intersection(profile.upper_rise_m);
    let crown_width = roof.crown_top_width_fraction.intersection(profile.crown_top_width_fraction);
    let crown_depth = roof.crown_top_depth_fraction.intersection(profile.crown_top_depth_fraction);
    if overhang.is_some() && shoulder_width.is_some() && shoulder_depth.is_some() && lower.is_some()
        && upper.is_some() && crown_width.is_some() && crown_depth.is_some() {
        Some(
            RoofRanges {
                overhang_m: overhang.unwrap(),
                shoulder_width_fraction: shoulder_width.unwrap(),
                shoulder_depth_fraction: shoulder_depth.unwrap(),
                lower_rise_m: lower.unwrap(),
                upper_rise_m: upper.unwrap(),
                crown_top_width_fraction: crown_width.unwrap(),
                crown_top_depth_fraction: crown_depth.unwrap(),
            },
        )
    } else {
        None
    }
}

/// The roof that eight fractions give.
pub open spec fn spec_roof_from(
    ranges: RoofRanges,
    asymmetry: FloatRange,
    morphology: RoofMorphology,
    building: SampledBuilding,
    u: [Single; 8],
) -> SampledRoof {
    let overhang = ranges.overhang_m.at(u[0]);
    let eave_width_m = building.footprint_width_m.plus(Single::ratio(2, 1).times(overhang));
    let eave_depth_m = building.footprint_depth_m.plus(Single::ratio(2, 1).times(overhang));
    let shoulder_width_m = eave_width_m.times(ranges.shoulder_width_fraction.at(u[1]));
    let shoulder_depth_m = eave_depth_m.times(ranges.shoulder_depth_fraction.at(u[2]));
    let crown_top_width_m = shoulder_width_m.times(ranges.crown_top_width_fraction.at(u[3]));
    let crown_top_depth_m = shoulder_depth_m.times(ranges.crown_top_depth_fraction.at(u[4]));
    SampledRoof {
        morphology,
        eave_width_m,
        eave_depth_m,
        shoulder_width_m,
        shoulder_depth_m,
        lower_rise_m: ranges.lower_rise_m.at(u[5]),
        upper_rise_m: ranges.upper_rise_m.at(u[6]),
        crown_top_width_m,
        crown_top_depth_m,
        asymmetry_fraction: asymmetry.at(u[7]),
    }
}

/// The roof that eight fractions give.
#[verifier::when_used_as_spec(spec_roof_from)]
pub fn roof_from(
    ranges: RoofRanges,
    asymmetry: FloatRange,
    morphology: RoofMorphology,
    building: SampledBuilding,
    u: [Single; 8],
) -> (r: SampledRoof)
    ensures
        r == spec_roof_from(ranges, asymmetry, morphology, building, u),
{
    let overhang = ranges.overhang_m.at(u[0]);
    let eave_width_m = building.footprint_width_m.plus(Single::ratio(2, 1).times(overhang));
    let eave_depth_m = building.footprint_depth_m.plus(Single::ratio(2, 1).times(overhang));
    let shoulder_width_m = eave_width_m.times(ranges.shoulder_width_fraction.at(u[1]));
    let shoulder_depth_m = eave_depth_m.times(ranges.shoulder_depth_fraction.at(u[2]));
    let crown_top_width_m = shoulder_width_m.times(ranges.crown_top_width_fraction.at(u[3]));
    let crown_top_depth_m = shoulder_depth_m.times(ranges.crown_top_depth_fraction.at(u[4]));
    SampledRoof {
        morphology,
        eave_width_m,
        eave_depth_m,
        shoulder_width_m,
        shoulder_depth_m,
        lower_rise_m: ranges.lower_rise_m.at(u[5]),
        upper_rise_m: ranges.upper_rise_m.at(u[6]),
        crown_top_width_m,
        crown_top_depth_m,
        asymmetry_fraction: asymmetry.at(u[7]),
    }
}

/// Samples a two-stage roof on a building; none where the ranges do not meet.
pub open spec fn spec_sample_roof(
    roof: &RoofSamplingConfig,
    seed: u64,
    building: SampledBuilding,
    profile: RoofMorphologyProfile,
) -> Option<SampledRoof> {
    let d = Draws::of(seed, "roof");
    match roof_ranges(roof, profile) {
        None => None,
        Some(ranges) => Some(
            roof_from(
                ranges,
                roof.asymmetry_fraction,
                profile.morphology,
                building,
                [
                    d.unit(),
                    d.skip(1).unit(),
                    d.skip(2).unit(),
                    d.skip(3).unit(),
                    d.skip(4).unit(),
                    d.skip(5).unit(),
                    d.skip(6).unit(),
                    d.skip(7).unit(),
                ],
            ),
        ),
    }
}

/// Samples a two-stage roof on a building; none where the ranges do not meet.
#[verifier::when_used_as_spec(spec_sample_roof)]
pub fn sample_roof(
    roof: &RoofSamplingConfig,
    seed: u64,
    building: SampledBuilding,
    profile: RoofMorphologyProfile,
) -> (r: Option<SampledRoof>)
    ensures
        r == spec_sample_roof(roof, seed, building, profile),
{
    let d = Draws::of(seed, "roof");
    let w = d.words();
    match roof_ranges(roof, profile) {
        None => None,
        Some(ranges) => Some(
            roof_from(
                ranges,
                roof.asymmetry_fraction,
                profile.morphology,
                building,
                [
                    unit_of(w[0]),
                    unit_of(w[1]),
                    unit_of(w[2]),
                    unit_of(w[3]),
                    unit_of(w[4]),
                    unit_of(w[5]),
                    unit_of(w[6]),
                    unit_of(w[7]),
                ],
            ),
        ),
    }
}

/// The rises that an ordinary roof of a family can have.
pub open spec fn spec_rise_range(family: OrdinaryRoofFamily) -> FloatRange {
    match family {
        OrdinaryRoofFamily::Flat => FloatRange::decimal(16, 48, 100),
        OrdinaryRoofFamily::Gable => FloatRange::decimal(14, 46, 10),
        OrdinaryRoofFamily::Hip => FloatRange::decimal(14, 46, 10),
        OrdinaryRoofFamily::Shed => FloatRange::decimal(10, 38, 10),
        OrdinaryRoofFamily::Mansard => FloatRange::decimal(18, 42, 10),
        OrdinaryRoofFamily::Pyramid => FloatRange::decimal(20, 52, 10),
        OrdinaryRoofFamily::Cupola => FloatRange::decimal(12, 34, 10),
    }
}

/// The rises that an ordinary roof of a family can have.
#[verifier::when_used_as_spec(spec_rise_range)]
pub fn rise_range(family: OrdinaryRoofFamily) -> (r: FloatRange)
    ensures
        r == spec_rise_range(family),
{
    match family {
        OrdinaryRoofFamily::Flat => FloatRange::decimal(16, 48, 100),
        OrdinaryRoofFamily::Gable => FloatRange::decimal(14, 46, 10),
        OrdinaryRoofFamily::Hip => FloatRange::decimal(14, 46, 10),
        OrdinaryRoofFamily::Shed => FloatRange::decimal(10, 38, 10),
        OrdinaryRoofFamily::Mansard => FloatRange::decimal(18, 42, 10),
        OrdinaryRoofFamily::Pyramid => FloatRange::decimal(20, 52, 10),
        OrdinaryRoofFamily::Cupola => FloatRange::decimal(12, 34, 10),
    }
}

/// The ordinary roof of a family that four fractions give. Its eaves are those of the
/// paired target, so that neither overhang nor building size becomes a class cue.
pub open spec fn spec_ordinary_roof_from(
    family: OrdinaryRoofFamily,
    matched: SampledRoof,
    u: [Single; 4],
) -> SampledOrdinaryRoof {
    SampledOrdinaryRoof {
        family,
        eave_width_m: matched.eave_width_m,
        eave_depth_m: matched.eave_depth_m,
        rise_m: rise_range(family).at(u[0]),
        ridge_length_fraction: FloatRange::decimal(28, 72, 100).at(u[1]),
        inset_fraction: FloatRange::decimal(18, 68, 100).at(u[2]),
        cap_height_m: if family == OrdinaryRoofFamily::Cupola {
            FloatRange::decimal(8, 21, 10).at(u[3])
        } else {
            Single::zero()
        },
    }
}

/// The ordinary roof of a family that four fractions give. Its eaves are those of the
/// paired target, so that neither overhang nor building size becomes a class cue.
#[verifier::when_used_as_spec(spec_ordinary_roof_from)]
pub fn ordinary_roof_from(
    family: OrdinaryRoofFamily,
    matched: SampledRoof,
    u: [Single; 4],
) -> (r: SampledOrdinaryRoof)
    ensures
        r == spec_ordinary_roof_from(family, matched, u),
{
    SampledOrdinaryRoof {
        family,
        eave_width_m: matched.eave_width_m,
        eave_depth_m: matched.eave_depth_m,
        rise_m: rise_range(family).at(u[0]),
        ridge_length_fraction: FloatRange::decimal(28, 72, 100).at(u[1]),
        inset_fraction: FloatRange::decimal(18, 68, 100).at(u[2]),
        cap_height_m: if family == OrdinaryRoofFamily::Cupola {
            FloatRange::decimal(8, 21, 10).at(u[3])
        } else {
            Single::zero()
        },
    }
}

/// The family that a request names, or else a drawn one, and the place after the draw.
pub open spec fn ordinary_family(d: Draws, building_family: Seq<char>) -> (
    OrdinaryRoofFamily,
    Draws,
) {
    match OrdinaryRoofFamily::named(building_family) {
        Some(family) => (family, d),
        None => {
            let drawn = d.between(0, 6);
            (OrdinaryRoofFamily::at(drawn.0 as int), drawn.1)
        },
    }
}

fn find_ordinary_family(d: Draws, building_family: &str) -> (r: (OrdinaryRoofFamily, Draws))
    ensures
        r == ordinary_family(d, building_family@),
{
    match OrdinaryRoofFamily::from_building_family(building_family) {
        Some(family) => (family, d),
        None => {
            let drawn = d.between(0, 6);
            let all = OrdinaryRoofFamily::ALL;
            (all[drawn.0 as usize], drawn.1)
        },
    }
}

/// The ordinary roof of a negative.
pub open spec fn ordinary_roof(
    seed: u64,
    matched: SampledRoof,
    building_family: Seq<char>,
) -> SampledOrdinaryRoof {
    let (family, d) = ordinary_family(Draws::of(seed, "ordinary-roof"), building_family);
    ordinary_roof_from(
        family,
        matched,
        [d.unit(), d.skip(1).unit(), d.skip(2).unit(), d.skip(3).unit()],
    )
}

/// Samples the ordinary roof of a negative, with the eaves of the paired target roof.
pub fn sample_ordinary_roof(seed: u64, matched: SampledRoof, request: &SequenceRequest) -> (r:
    SampledOrdinaryRoof)
    ensures
        r == ordinary_roof(seed, matched, request.building_family@),
{
    let found = find_ordinary_family(Draws::of(seed, "ordinary-roof"), &request.building_family);
    let d = found.1;
    let w = d.words();
    ordinary_roof_from(
        found.0,
        matched,
        [unit_of(w[0]), unit_of(w[1]), unit_of(w[2]), unit_of(w[3])],
    )
}

/// A colour channel moved by a share of the allowed variation.
pub open spec fn spec_varied_channel(
    channel: Single,
    variation: Single,
    fraction: Single,
) -> Single {
    let offset = FloatRange::new(variation.negated(), variation).at(fraction);
    channel.times(Single::one().plus(offset)).clamp(Single::zero(), Single::one())
}

/// A colour channel moved by a share of the allowed variation.
#[verifier::when_used_as_spec(spec_varied_channel)]
pub fn varied_channel(channel: Single, variation: Single, fraction: Single) -> (r: Single)
    ensures
        r == spec_varied_channel(channel, variation, fraction),
{
    let offset = FloatRange::new(variation.negated(), variation).at(fraction);
    channel.times(Single::one().plus(offset)).clamp(Single::zero(), Single::one())
}

/// The base colour of a material, moved by three fractions where it may vary.
pub open spec fn spec_varied_color(
    color: [Single; 3],
    variation: Single,
    u: [Single; 3],
) -> [Single; 3] {
    if variation.equals(Single::zero()) {
        color
    } else {
        [
            varied_channel(color[0], variation, u[0]),
            varied_channel(color[1], variation, u[1]),
            varied_channel(color[2], variation, u[2]),
        ]
    }
}

/// The base colour of a material, moved by three fractions where it may vary.
#[verifier::when_used_as_spec(spec_varied_color)]
pub fn varied_color(color: [Single; 3], variation: Single, u: [Single; 3]) -> (r: [Single; 3])
    ensures
        r == spec_varied_color(color, variation, u),
{
    if variation.equals(Single::zero()) {
        color
    } else {
        [
            varied_channel(color[0], variation, u[0]),
            varied_channel(color[1], variation, u[1]),
            varied_channel(color[2], variation, u[2]),
        ]
    }
}

/// The place after the words that the colour of a material uses up.
pub open spec fn spec_after_color(d: Draws, variation: Single) -> Draws {
    if variation.equals(Single::zero()) {
        d
    } else {
        d.skip(3)
    }
}

/// The place after the words that the colour of a material uses up.
#[verifier::when_used_as_spec(spec_after_color)]
pub fn after_color(d: Draws, variation: Single) -> (r: Draws)
    ensures
        r == spec_after_color(d, variation),
{
    if variation.equals(Single::zero()) {
        d
    } else {
        d.skip(3)
    }
}

/// The material that a choice gives with three fractions for its colour and two for its
/// surface.
pub open spec fn material_from(
    choice: MaterialChoice,
    u: [Single; 3],
    v: [Single; 2],
) -> SampledMaterial {
    SampledMaterial {
        id: choice.id,
        base_color_srgb: varied_color(choice.base_color_srgb, choice.base_color_variation, u),
        roughness: choice.roughness.at(v[0]),
        weathering: choice.weathering.at(v[1]),
    }
}

/// Resolves a choice with three fractions for its colour and two for its surface.
pub fn make_material(choice: &MaterialChoice, u: [Single; 3], v: [Single; 2]) -> (r:
    SampledMaterial)
    ensures
        r == material_from(*choice, u, v),
{
    SampledMaterial {
        id: choice.id.clone(),
        base_color_srgb: varied_color(choice.base_color_srgb, choice.base_color_variation, u),
        roughness: choice.roughness.at(v[0]),
        weathering: choice.weathering.at(v[1]),
    }
}

/// The material that a choice gives at a place, and the place after it.
pub open spec fn resolved_choice(d: Draws, choice: MaterialChoice) -> (SampledMaterial, Draws) {
    let surface = after_color(d, choice.base_color_variation);
    (
        material_from(
            choice,
            [d.unit(), d.skip(1).unit(), d.skip(2).unit()],
            [surface.unit(), surface.skip(1).unit()],
        ),
        surface.skip(2),
    )
}

/// Resolves a choice, and gives the place after it.
pub fn resolve_material_choice(d: Draws, choice: &MaterialChoice) -> (r: (SampledMaterial, Draws))
    ensures
        r == resolved_choice(d, *choice),
{
    let w = d.words();
    let surface = after_color(d, choice.base_color_variation);
    let v: [u32; 2] = if choice.base_color_variation.equals(Single::zero()) {
        [w[0], w[1]]
    } else {
        [w[3], w[4]]
    };
    assert(d.skip(3).skip(1) == d.skip(4));
    (
        make_material(
            choice,
            [unit_of(w[0]), unit_of(w[1]), unit_of(w[2])],
            [unit_of(v[0]), unit_of(v[1])],
        ),
        surface.skip(2),
    )
}

/// A material drawn from a palette, and the place after it.
pub open spec fn palette_material(
    d: Draws,
    choices: Seq<MaterialChoice>,
) -> (SampledMaterial, Draws) {
    let (entry, after) = crate::choice::chosen(d, crate::choice::material_weights(choices));
    resolved_choice(after, choices[entry])
}

/// Draws and resolves a material, and gives the place after it.
pub fn resolved_material(d: Draws, choices: &Vec<MaterialChoice>) -> (r: (SampledMaterial, Draws))
    requires
        choices@.len() <= u32::MAX,
        crate::choice::total_weight(crate::choice::material_weights(choices@)) > 0,
    ensures
        r == palette_material(d, choices@),
{
    let drawn = choose_material(d, choices);
    resolve_material_choice(drawn.1, &choices[drawn.0])
}

/// How bright a domain is at night, relative to a suburb.
pub open spec fn spec_domain_light(domain: SceneDomain) -> Single {
    match domain {
        SceneDomain::City => Single::ratio(13, 10),
        SceneDomain::Urban => Single::ratio(115, 100),
        SceneDomain::Suburban => Single::one(),
        SceneDomain::Roadside => Single::ratio(78, 100),
        SceneDomain::Remote => Single::ratio(42, 100),
    }
}

/// How bright a domain is at night, relative to a suburb.
#[verifier::when_used_as_spec(spec_domain_light)]
pub fn domain_light(domain: SceneDomain) -> (r: Single)
    ensures
        r == spec_domain_light(domain),
{
    match domain {
        SceneDomain::City => Single::ratio(13, 10),
        SceneDomain::Urban => Single::ratio(115, 100),
        SceneDomain::Suburban => Single::one(),
        SceneDomain::Roadside => Single::ratio(78, 100),
        SceneDomain::Remote => Single::ratio(42, 100),
    }
}

/// The common part of two ranges, which need not be ordered.
pub open spec fn spec_intersect_ranges(left: FloatRange, right: FloatRange) -> FloatRange {
    FloatRange::new(left.min.max(right.min), left.max.min(right.max))
}

/// The common part of two ranges, which need not be ordered.
#[verifier::when_used_as_spec(spec_intersect_ranges)]
pub fn intersect_ranges(left: FloatRange, right: FloatRange) -> (r: FloatRange)
    ensures
        r == spec_intersect_ranges(left, right),
{
    FloatRange::new(left.min.max(right.min), left.max.min(right.max))
}

/// The common part of a range with a preferred one, or the whole range where there is none.
pub open spec fn spec_preferred_intersection(
    source: FloatRange,
    preferred: FloatRange,
) -> FloatRange {
    let intersection = intersect_ranges(source, preferred);
    if intersection.is_valid() {
        intersection
    } else {
        source
    }
}

/// The common part of a range with a preferred one, or the whole range where there is none.
#[verifier::when_used_as_spec(spec_preferred_intersection)]
pub fn preferred_intersection(source: FloatRange, preferred: FloatRange) -> (r: FloatRange)
    ensures
        r == spec_preferred_intersection(source, preferred),
{
    let intersection = intersect_ranges(source, preferred);
    if intersection.is_valid() {
        intersection
    } else {
        source
    }
}

/// The colour temperatures of a weather in a phase of the day.
pub open spec fn spec_temperature_range(weather: WeatherProfile, phase: DayPhase) -> FloatRange {
    match phase {
        DayPhase::Day => weather.color_temperature_k,
        DayPhase::Twilight => preferred_intersection(
            weather.color_temperature_k,
            FloatRange::decimal(3_400, 6_800, 1),
        ),
        DayPhase::Night => preferred_intersection(
            weather.color_temperature_k,
            FloatRange::decimal(2_600, 4_800, 1),
        ),
    }
}

/// The colour temperatures of a weather in a phase of the day.
#[verifier::when_used_as_spec(spec_temperature_range)]
pub fn temperature_range(weather: WeatherProfile, phase: DayPhase) -> (r: FloatRange)
    ensures
        r == spec_temperature_range(weather, phase),
{
    match phase {
        DayPhase::Day => weather.color_temperature_k,
        DayPhase::Twilight => preferred_intersection(
            weather.color_temperature_k,
            FloatRange::decimal(3_400, 6_800, 1),
        ),
        DayPhase::Night => preferred_intersection(
            weather.color_temperature_k,
            FloatRange::decimal(2_600, 4_800, 1),
        ),
    }
}

/// Direct light after the phase of the day: less at twilight, none at night.
pub open spec fn spec_phased_sun(phase: DayPhase, intensity: Single) -> Single {
    match phase {
        DayPhase::Day => intensity,
        DayPhase::Twilight => intensity.times(Single::ratio(28, 100)),
        DayPhase::Night => Single::zero(),
    }
}

/// Direct light after the phase of the day: less at twilight, none at night.
#[verifier::when_used_as_spec(spec_phased_sun)]
pub fn phased_sun(phase: DayPhase, intensity: Single) -> (r: Single)
    ensures
        r == spec_phased_sun(phase, intensity),
{
    match phase {
        DayPhase::Day => intensity,
        DayPhase::Twilight => intensity.times(Single::ratio(28, 100)),
        DayPhase::Night => Single::zero(),
    }
}

/// Sky light after the phase of the day and the light of the domain.
pub open spec fn spec_phased_sky(
    phase: DayPhase,
    intensity: Single,
    domain: SceneDomain,
) -> Single {
    match phase {
        DayPhase::Day => intensity,
        DayPhase::Twilight => intensity.times(Single::ratio(62, 100)),
        DayPhase::Night => intensity.times(Single::ratio(12, 100).times(domain_light(domain))),
    }
}

/// Sky light after the phase of the day and the light of the domain.
#[verifier::when_used_as_spec(spec_phased_sky)]
pub fn phased_sky(phase: DayPhase, intensity: Single, domain: SceneDomain) -> (r: Single)
    ensures
        r == spec_phased_sky(phase, intensity, domain),
{
    match phase {
        DayPhase::Day => intensity,
        DayPhase::Twilight => intensity.times(Single::ratio(62, 100)),
        DayPhase::Night => intensity.times(Single::ratio(12, 100).times(domain_light(domain))),
    }
}

/// The light that ten fractions give.
pub open spec fn spec_lighting_from(
    light: LightingSamplingConfig,
    weather: WeatherProfile,
    phase: DayPhaseProfile,
    domain: SceneDomain,
    u: [Single; 10],
) -> SampledLighting {
    SampledLighting {
        sun_azimuth_degrees: FloatRange::decimal(0, 360, 1).at(u[4]),
        sun_elevation_degrees: intersect_ranges(
            light.sun_elevation_degrees,
            phase.sun_elevation_degrees,
        ).at(u[0]),
        sun_intensity: phased_sun(
            phase.phase,
            intersect_ranges(light.sun_intensity, weather.sun_intensity).at(u[1]),
        ),
        sky_intensity: phased_sky(
            phase.phase,
            intersect_ranges(light.sky_intensity, weather.sky_intensity).at(u[2]),
            domain,
        ),
        cloud_coverage: intersect_ranges(light.cloud_coverage, weather.cloud_coverage).at(u[5]),
        haze: intersect_ranges(light.haze, weather.haze).at(u[6]),
    }
}

/// The light that ten fractions give.
#[verifier::when_used_as_spec(spec_lighting_from)]
pub fn lighting_from(
    light: LightingSamplingConfig,
    weather: WeatherProfile,
    phase: DayPhaseProfile,
    domain: SceneDomain,
    u: [Single; 10],
) -> (r: SampledLighting)
    ensures
        r == spec_lighting_from(light, weather, phase, domain, u),
{
    SampledLighting {
        sun_azimuth_degrees: FloatRange::decimal(0, 360, 1).at(u[4]),
        sun_elevation_degrees: intersect_ranges(
            light.sun_elevation_degrees,
            phase.sun_elevation_degrees,
        ).at(u[0]),
        sun_intensity: phased_sun(
            phase.phase,
            intersect_ranges(light.sun_intensity, weather.sun_intensity).at(u[1]),
        ),
        sky_intensity: phased_sky(
            phase.phase,
            intersect_ranges(light.sky_intensity, weather.sky_intensity).at(u[2]),
            domain,
        ),
        cloud_coverage: intersect_ranges(light.cloud_coverage, weather.cloud_coverage).at(u[5]),
        haze: intersect_ranges(light.haze, weather.haze).at(u[6]),
    }
}

/// The environment that the same ten fractions and two of the day phase give.
pub open spec fn spec_environment_from(
    weather: WeatherProfile,
    phase: DayPhaseProfile,
    domain: SceneDomain,
    u: [Single; 10],
    v: [Single; 2],
) -> SampledEnvironment {
    SampledEnvironment {
        day_phase: phase.phase,
        domain,
        weather: weather.preset,
        shadow_softness: weather.shadow_softness.at(u[7]),
        ground_wetness: weather.ground_wetness.at(u[8]),
        visibility_km: weather.visibility_km.at(u[9]),
        color_temperature_k: temperature_range(weather, phase.phase).at(u[3]),
        camera_exposure_ev100: phase.camera_exposure_ev100.at(v[1]),
        artificial_light_strength: phase.artificial_light_strength.at(v[0]).times(
            domain_light(domain),
        ),
    }
}

/// The environment that the same ten fractions and two of the day phase give.
#[verifier::when_used_as_spec(spec_environment_from)]
pub fn environment_from(
    weather: WeatherProfile,
    phase: DayPhaseProfile,
    domain: SceneDomain,
    u: [Single; 10],
    v: [Single; 2],
) -> (r: SampledEnvironment)
    ensures
        r == spec_environment_from(weather, phase, domain, u, v),
{
    SampledEnvironment {
        day_phase: phase.phase,
        domain,
        weather: weather.preset,
        shadow_softness: weather.shadow_softness.at(u[7]),
        ground_wetness: weather.ground_wetness.at(u[8]),
        visibility_km: weather.visibility_km.at(u[9]),
        color_temperature_k: temperature_range(weather, phase.phase).at(u[3]),
        camera_exposure_ev100: phase.camera_exposure_ev100.at(v[1]),
        artificial_light_strength: phase.artificial_light_strength.at(v[0]).times(
            domain_light(domain),
        ),
    }
}

/// Ten fractions from ten words.
pub open spec fn spec_ten_units(d: Draws) -> [Single; 10] {
    [
        d.unit(),
        d.skip(1).unit(),
        d.skip(2).unit(),
        d.skip(3).unit(),
        d.skip(4).unit(),
        d.skip(5).unit(),
        d.skip(6).unit(),
        d.skip(7).unit(),
        d.skip(8).unit(),
        d.skip(9).unit(),
    ]
}

/// Ten fractions from ten words.
#[verifier::when_used_as_spec(spec_ten_units)]
pub fn ten_units(d: Draws) -> (r: [Single; 10])
    ensures
        r == spec_ten_units(d),
{
    let w = d.words();
    [
        unit_of(w[0]),
        unit_of(w[1]),
        unit_of(w[2]),
        unit_of(w[3]),
        unit_of(w[4]),
        unit_of(w[5]),
        unit_of(w[6]),
        unit_of(w[7]),
        unit_of(w[8]),
        unit_of(w[9]),
    ]
}

/// The weather and the day phase of a seed, and the place after the draw of the phase.
pub open spec fn weather_and_phase(
    seed: u64,
    weathers: Seq<WeatherProfile>,
    phases: Seq<DayPhaseProfile>,
) -> (WeatherProfile, DayPhaseProfile, Draws) {
    let weather = crate::choice::chosen(
        Draws::of(seed, "weather"),
        crate::choice::weather_weights(weathers),
    );
    let phase = crate::choice::chosen(
        Draws::of(seed, "day-phase"),
        crate::choice::day_phase_weights(phases),
    );
    (weathers[weather.0], phases[phase.0], phase.1)
}

/// Light and environment of a seed in a domain.
pub open spec fn light_and_environment(
    seed: u64,
    light: LightingSamplingConfig,
    weathers: Seq<WeatherProfile>,
    phases: Seq<DayPhaseProfile>,
    domain: SceneDomain,
) -> (SampledLighting, SampledEnvironment) {
    let (weather, phase, p) = weather_and_phase(seed, weathers, phases);
    let u = ten_units(Draws::of(seed, "lighting"));
    (
        lighting_from(light, weather, phase, domain, u),
        environment_from(weather, phase, domain, u, [p.unit(), p.skip(1).unit()]),
    )
}

/// Samples light and environment, which are correlated through weather and day phase.
pub fn sample_environment(
    seed: u64,
    light: LightingSamplingConfig,
    weathers: &Vec<WeatherProfile>,
    phases: &Vec<DayPhaseProfile>,
    domain: SceneDomain,
) -> (r: (SampledLighting, SampledEnvironment))
    requires
        weathers@.len() <= u32::MAX,
        phases@.len() <= u32::MAX,
        crate::choice::total_weight(crate::choice::weather_weights(weathers@)) > 0,
        crate::choice::total_weight(crate::choice::day_phase_weights(phases@)) > 0,
    ensures
        r == light_and_environment(seed, light, weathers@, phases@, domain),
{
    let weather_draw = choose_weather(Draws::of(seed, "weather"), weathers);
    let phase_draw = choose_day_phase(Draws::of(seed, "day-phase"), phases);
    let weather = weathers[weather_draw.0];
    let phase = phases[phase_draw.0];
    let p = phase_draw.1;
    let w = p.words();
    let u = ten_units(Draws::of(seed, "lighting"));
    (
        lighting_from(light, weather, phase, domain, u),
        environment_from(weather, phase, domain, u, [unit_of(w[0]), unit_of(w[1])]),
    )
}

/// Samples the roof profile of a seed.
pub fn sample_roof_profile(seed: u64, profiles: &Vec<RoofMorphologyProfile>) -> (r:
    RoofMorphologyProfile)
    requires
        profiles@.len() <= u32::MAX,
        crate::choice::total_weight(crate::choice::roof_profile_weights(profiles@)) > 0,
    ensures
        r == profiles@[crate::choice::chosen(
            Draws::of(seed, "roof-morphology"),
            crate::choice::roof_profile_weights(profiles@),
        ).0],
        profiles@.contains(r),
        r.weight > 0,
{
    let drawn = choose_roof_profile(Draws::of(seed, "roof-morphology"), profiles);
    profiles[drawn.0]
}

/// Samples the site domain of a seed.
pub fn sample_domain(seed: u64, profiles: &Vec<SceneDomainProfile>) -> (r: SceneDomainProfile)
    requires
        profiles@.len() <= u32::MAX,
        crate::choice::total_weight(crate::choice::domain_weights(profiles@)) > 0,
    ensures
        r == profiles@[crate::choice::chosen(
            Draws::of(seed, "site-domain"),
            crate::choice::domain_weights(profiles@),
        ).0],
        profiles@.contains(r),
        r.weight > 0,
{
    let drawn = choose_domain(Draws::of(seed, "site-domain"), profiles);
    profiles[drawn.0]
}

/// The name of the substream for the material of the roof or of the walls.
pub open spec fn spec_material_domain(roof: bool) -> &'static str {
    if roof {
        "roof-material"
    } else {
        "wall-material"
    }
}

/// The name of the substream for the material of the roof or of the walls.
#[verifier::when_used_as_spec(spec_material_domain)]
pub fn material_domain(roof: bool) -> (r: &'static str)
    ensures
        r == spec_material_domain(roof),
{
    if roof {
        "roof-material"
    } else {
        "wall-material"
    }
}

/// Samples the material of the roof or of the walls.
pub fn sample_material(seed: u64, choices: &Vec<MaterialChoice>, roof: bool) -> (r: SampledMaterial)
    requires
        choices@.len() <= u32::MAX,
        crate::choice::total_weight(crate::choice::material_weights(choices@)) > 0,
    ensures
        r == palette_material(Draws::of(seed, material_domain(roof)), choices@).0,
{
    resolved_material(Draws::of(seed, material_domain(roof)), choices).0
}

/// A night has no direct sunlight, whatever is drawn.
pub proof fn nights_have_no_sun(
    light: LightingSamplingConfig,
    weather: WeatherProfile,
    phase: DayPhaseProfile,
    domain: SceneDomain,
    u: [Single; 10],
)
    requires
        phase.phase == DayPhase::Night,
    ensures
        lighting_from(light, weather, phase, domain, u).sun_intensity == Single::zero(),
{
}

/// A negative has the eaves of its paired target, whatever is drawn.
pub proof fn negatives_share_target_eaves(
    seed: u64,
    matched: SampledRoof,
    building_family: Seq<char>,
)
    ensures
        ordinary_roof(seed, matched, building_family).eave_width_m == matched.eave_width_m,
        ordinary_roof(seed, matched, building_family).eave_depth_m == matched.eave_depth_m,
{
}

} // verus!
