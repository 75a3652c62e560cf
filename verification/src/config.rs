//! Complete input to deterministic scene sampling.

use crate::composition::CompositionSamplingConfig;
use crate::single::Single;
use crate::types::{FloatRange, U32Range};
use vstd::prelude::*;
use vstd::string::*;

verus! {

/// Complete input to deterministic scene sampling.
#[derive(Clone, Debug, PartialEq, Eq)]
pub struct GeneratorConfig {
    /// Output image dimensions.
    pub image: ImageConfig,
    /// Sequence length and cadence.
    pub sequence: SequenceConfig,
    /// Building shell ranges.
    pub scene: SceneSamplingConfig,
    /// Parametric roof ranges.
    pub roof: RoofSamplingConfig,
    /// Camera-path ranges.
    pub camera: CameraSamplingConfig,
    /// Roof and wall material distributions.
    pub materials: MaterialSamplingConfig,
    /// Sun, sky, and cloud ranges.
    pub lighting: LightingSamplingConfig,
    /// Foreground and rooftop clutter distribution.
    pub occluders: OccluderSamplingConfig,
    /// Site, weather, façade, signage, background, and vegetation composition.
    pub composition: CompositionSamplingConfig,
}

impl GeneratorConfig {
    /// The standard configuration.
    pub open spec fn is_standard(self) -> bool {
        &&& self.image == ImageConfig::standard()
        &&& self.sequence == SequenceConfig::standard()
        &&& self.scene == SceneSamplingConfig::standard()
        &&& self.roof.is_standard()
        &&& self.camera == CameraSamplingConfig::standard()
        &&& self.materials.is_standard()
        &&& self.lighting == LightingSamplingConfig::standard()
        &&& self.occluders.is_standard()
        &&& self.composition.is_standard()
    }
}

impl Default for GeneratorConfig {
    fn default() -> (r: Self)
        ensures
            r.is_standard(),
    {
        GeneratorConfig {
            image: ImageConfig::default(),
            sequence: SequenceConfig::default(),
            scene: SceneSamplingConfig::default(),
            roof: RoofSamplingConfig::default(),
            camera: CameraSamplingConfig::default(),
            materials: MaterialSamplingConfig::default(),
            lighting: LightingSamplingConfig::default(),
            occluders: OccluderSamplingConfig::default(),
            composition: CompositionSamplingConfig::default(),
        }
    }
}

/// Render-target dimensions.
#[derive(Clone, Copy, Debug, PartialEq, Eq, Structural)]
pub struct ImageConfig {
    /// Width in pixels.
    pub width: u32,
    /// Height in pixels.
    pub height: u32,
}

impl ImageConfig {
    /// The standard values.
    pub open spec fn standard() -> ImageConfig {
        ImageConfig {
            width: 640,
            height: 480,
        }
    }
}

impl Default for ImageConfig {
    fn default() -> (r: Self)
        ensures
            r == ImageConfig::standard(),
    {
        ImageConfig {
            width: 640,
            height: 480,
        }
    }
}

/// Coherent sequence settings.
#[derive(Clone, Copy, Debug, PartialEq, Eq, Structural)]
pub struct SequenceConfig {
    /// Number of camera frames generated around one building.
    pub frame_count: u32,
    /// Nominal elapsed time between frames.
    pub frame_interval_ms: u32,
}

impl SequenceConfig {
    /// The standard values.
    pub open spec fn standard() -> SequenceConfig {
        SequenceConfig {
            frame_count: 24,
            frame_interval_ms: 100,
        }
    }
}

impl Default for SequenceConfig {
    fn default() -> (r: Self)
        ensures
            r == SequenceConfig::standard(),
    {
        SequenceConfig {
            frame_count: 24,
            frame_interval_ms: 100,
        }
    }
}

/// Building shell ranges, in metres.
#[derive(Clone, Copy, Debug, PartialEq, Eq, Structural)]
pub struct SceneSamplingConfig {
    /// Exterior wall-to-wall width.
    pub footprint_width_m: FloatRange,
    /// Exterior wall-to-wall depth.
    pub footprint_depth_m: FloatRange,
    /// Wall height up to the eave.
    pub wall_height_m: FloatRange,
    /// Minimum half-extent of generated ground around the building. Sampling
    /// grows it when necessary to contain the complete scene and camera path.
    pub ground_half_extent_m: FloatRange,
}

impl SceneSamplingConfig {
    /// The standard values.
    pub open spec fn standard() -> SceneSamplingConfig {
        SceneSamplingConfig {
            footprint_width_m: FloatRange::decimal(18, 31, 1),
            footprint_depth_m: FloatRange::decimal(14, 25, 1),
            wall_height_m: FloatRange::decimal(33, 52, 10),
            ground_half_extent_m: FloatRange::decimal(35, 65, 1),
        }
    }
}

impl Default for SceneSamplingConfig {
    fn default() -> (r: Self)
        ensures
            r == SceneSamplingConfig::standard(),
    {
        SceneSamplingConfig {
            footprint_width_m: FloatRange::decimal(18, 31, 1),
            footprint_depth_m: FloatRange::decimal(14, 25, 1),
            wall_height_m: FloatRange::decimal(33, 52, 10),
            ground_half_extent_m: FloatRange::decimal(35, 65, 1),
        }
    }
}

/// Recognizable proportion families found across former and surviving huts.
///
/// The category is deliberately architectural rather than chronological: it
/// describes where the two roof stages break and how strongly the crown rises.
#[derive(Clone, Copy, Debug, PartialEq, Eq, PartialOrd, Ord, Hash, Structural)]
pub enum RoofMorphology {
    /// A compact footprint with an early break into a conspicuously tall crown.
    TallEarlyCrown,
    /// A near-square footprint with a steep skirt and especially tall crown.
    NearSquareTall,
    /// The common, evenly proportioned two-stage silhouette.
    BalancedClassic,
    /// A broad footprint whose lower roof carries farther inward to a low crown.
    LowWideLate,
    /// A shallow, broad-crowned silhouette associated with later remodelling.
    ShallowRemodelled,
}

impl Default for RoofMorphology {
    fn default() -> (r: Self)
        ensures
            r == RoofMorphology::BalancedClassic,
    {
        RoofMorphology::BalancedClassic
    }
}

/// Correlated dimensional envelope for one roof morphology.
#[derive(Clone, Copy, Debug, PartialEq, Eq, Structural)]
pub struct RoofMorphologyProfile {
    /// Stable morphology category persisted into each sampled scene.
    pub morphology: RoofMorphology,
    /// Relative integer selection weight.
    pub weight: u32,
    /// Building width divided by building depth.
    pub footprint_aspect_ratio: FloatRange,
    /// Eave extension beyond each wall.
    pub overhang_m: FloatRange,
    /// Upper shoulder width divided by eave width.
    pub shoulder_width_fraction: FloatRange,
    /// Upper shoulder depth divided by eave depth.
    pub shoulder_depth_fraction: FloatRange,
    /// Rise from the eave to the shoulder.
    pub lower_rise_m: FloatRange,
    /// Rise from the crown base/shoulder to its flat top.
    pub upper_rise_m: FloatRange,
    /// Crown-top width divided by crown-base/shoulder width.
    pub crown_top_width_fraction: FloatRange,
    /// Crown-top depth divided by crown-base/shoulder depth.
    pub crown_top_depth_fraction: FloatRange,
}

/// Ranges for the recognizable two-stage roof silhouette.
#[derive(Clone, Debug, PartialEq, Eq)]
pub struct RoofSamplingConfig {
    /// Eave extension beyond each wall.
    pub overhang_m: FloatRange,
    /// Upper shoulder width divided by eave width.
    pub shoulder_width_fraction: FloatRange,
    /// Upper shoulder depth divided by eave depth.
    pub shoulder_depth_fraction: FloatRange,
    /// Rise from the eave to the shoulder.
    pub lower_rise_m: FloatRange,
    /// Rise from the crown base/shoulder to its flat top.
    pub upper_rise_m: FloatRange,
    /// Crown-top width divided by crown-base/shoulder width.
    pub crown_top_width_fraction: FloatRange,
    /// Crown-top depth divided by crown-base/shoulder depth.
    pub crown_top_depth_fraction: FloatRange,
    /// Small, bounded left/right dimensional perturbation.
    pub asymmetry_fraction: FloatRange,
    /// Weighted, correlated silhouette families. Each profile is intersected
    /// with the global roof and scene bounds before sampling.
    pub profiles: Vec<RoofMorphologyProfile>,
}

impl RoofSamplingConfig {
    /// The standard silhouette families.
    pub open spec fn standard_profiles() -> Seq<RoofMorphologyProfile> {
        seq![
            RoofMorphologyProfile {
                morphology: RoofMorphology::TallEarlyCrown,
                weight: 24,
                footprint_aspect_ratio: FloatRange::decimal(105, 134, 100),
                overhang_m: FloatRange::decimal(135, 240, 100),
                shoulder_width_fraction: FloatRange::decimal(44, 53, 100),
                shoulder_depth_fraction: FloatRange::decimal(36, 47, 100),
                lower_rise_m: FloatRange::decimal(26, 38, 10),
                upper_rise_m: FloatRange::decimal(325, 420, 100),
                crown_top_width_fraction: FloatRange::decimal(78, 89, 100),
                crown_top_depth_fraction: FloatRange::decimal(68, 82, 100),
            },
            RoofMorphologyProfile {
                morphology: RoofMorphology::NearSquareTall,
                weight: 11,
                footprint_aspect_ratio: FloatRange::decimal(92, 118, 100),
                overhang_m: FloatRange::decimal(12, 25, 10),
                shoulder_width_fraction: FloatRange::decimal(40, 52, 100),
                shoulder_depth_fraction: FloatRange::decimal(40, 54, 100),
                lower_rise_m: FloatRange::decimal(27, 41, 10),
                upper_rise_m: FloatRange::decimal(33, 46, 10),
                crown_top_width_fraction: FloatRange::decimal(72, 88, 100),
                crown_top_depth_fraction: FloatRange::decimal(65, 84, 100),
            },
            RoofMorphologyProfile {
                morphology: RoofMorphology::BalancedClassic,
                weight: 38,
                footprint_aspect_ratio: FloatRange::decimal(118, 158, 100),
                overhang_m: FloatRange::decimal(120, 215, 100),
                shoulder_width_fraction: FloatRange::decimal(48, 58, 100),
                shoulder_depth_fraction: FloatRange::decimal(40, 51, 100),
                lower_rise_m: FloatRange::decimal(24, 35, 10),
                upper_rise_m: FloatRange::decimal(255, 345, 100),
                crown_top_width_fraction: FloatRange::decimal(81, 92, 100),
                crown_top_depth_fraction: FloatRange::decimal(68, 84, 100),
            },
            RoofMorphologyProfile {
                morphology: RoofMorphology::LowWideLate,
                weight: 18,
                footprint_aspect_ratio: FloatRange::decimal(142, 190, 100),
                overhang_m: FloatRange::decimal(10, 18, 10),
                shoulder_width_fraction: FloatRange::decimal(54, 62, 100),
                shoulder_depth_fraction: FloatRange::decimal(46, 54, 100),
                lower_rise_m: FloatRange::decimal(22, 30, 10),
                upper_rise_m: FloatRange::decimal(220, 285, 100),
                crown_top_width_fraction: FloatRange::decimal(85, 94, 100),
                crown_top_depth_fraction: FloatRange::decimal(74, 86, 100),
            },
            RoofMorphologyProfile {
                morphology: RoofMorphology::ShallowRemodelled,
                weight: 9,
                footprint_aspect_ratio: FloatRange::decimal(115, 175, 100),
                overhang_m: FloatRange::decimal(75, 170, 100),
                shoulder_width_fraction: FloatRange::decimal(52, 68, 100),
                shoulder_depth_fraction: FloatRange::decimal(44, 62, 100),
                lower_rise_m: FloatRange::decimal(135, 255, 100),
                upper_rise_m: FloatRange::decimal(115, 235, 100),
                crown_top_width_fraction: FloatRange::decimal(82, 97, 100),
                crown_top_depth_fraction: FloatRange::decimal(74, 94, 100),
            },
        ]
    }

    /// The standard roof distribution.
    pub open spec fn is_standard(self) -> bool {
        &&& self.overhang_m == FloatRange::decimal(75, 250, 100)
        &&& self.shoulder_width_fraction == FloatRange::decimal(40, 68, 100)
        &&& self.shoulder_depth_fraction == FloatRange::decimal(36, 62, 100)
        &&& self.lower_rise_m == FloatRange::decimal(135, 410, 100)
        &&& self.upper_rise_m == FloatRange::decimal(115, 460, 100)
        &&& self.crown_top_width_fraction == FloatRange::decimal(72, 97, 100)
        &&& self.crown_top_depth_fraction == FloatRange::decimal(62, 94, 100)
        &&& self.asymmetry_fraction == FloatRange::decimal((-25) as i32, 25, 1000)
        &&& self.profiles@ == RoofSamplingConfig::standard_profiles()
    }
}

impl Default for RoofSamplingConfig {
    fn default() -> (r: Self)
        ensures
            r.is_standard(),
    {
        let profiles = vec![
            RoofMorphologyProfile {
                morphology: RoofMorphology::TallEarlyCrown,
                weight: 24,
                footprint_aspect_ratio: FloatRange::decimal(105, 134, 100),
                overhang_m: FloatRange::decimal(135, 240, 100),
                shoulder_width_fraction: FloatRange::decimal(44, 53, 100),
                shoulder_depth_fraction: FloatRange::decimal(36, 47, 100),
                lower_rise_m: FloatRange::decimal(26, 38, 10),
                upper_rise_m: FloatRange::decimal(325, 420, 100),
                crown_top_width_fraction: FloatRange::decimal(78, 89, 100),
                crown_top_depth_fraction: FloatRange::decimal(68, 82, 100),
            },
            RoofMorphologyProfile {
                morphology: RoofMorphology::NearSquareTall,
                weight: 11,
                footprint_aspect_ratio: FloatRange::decimal(92, 118, 100),
                overhang_m: FloatRange::decimal(12, 25, 10),
                shoulder_width_fraction: FloatRange::decimal(40, 52, 100),
                shoulder_depth_fraction: FloatRange::decimal(40, 54, 100),
                lower_rise_m: FloatRange::decimal(27, 41, 10),
                upper_rise_m: FloatRange::decimal(33, 46, 10),
                crown_top_width_fraction: FloatRange::decimal(72, 88, 100),
                crown_top_depth_fraction: FloatRange::decimal(65, 84, 100),
            },
            RoofMorphologyProfile {
                morphology: RoofMorphology::BalancedClassic,
                weight: 38,
                footprint_aspect_ratio: FloatRange::decimal(118, 158, 100),
                overhang_m: FloatRange::decimal(120, 215, 100),
                shoulder_width_fraction: FloatRange::decimal(48, 58, 100),
                shoulder_depth_fraction: FloatRange::decimal(40, 51, 100),
                lower_rise_m: FloatRange::decimal(24, 35, 10),
                upper_rise_m: FloatRange::decimal(255, 345, 100),
                crown_top_width_fraction: FloatRange::decimal(81, 92, 100),
                crown_top_depth_fraction: FloatRange::decimal(68, 84, 100),
            },
            RoofMorphologyProfile {
                morphology: RoofMorphology::LowWideLate,
                weight: 18,
                footprint_aspect_ratio: FloatRange::decimal(142, 190, 100),
                overhang_m: FloatRange::decimal(10, 18, 10),
                shoulder_width_fraction: FloatRange::decimal(54, 62, 100),
                shoulder_depth_fraction: FloatRange::decimal(46, 54, 100),
                lower_rise_m: FloatRange::decimal(22, 30, 10),
                upper_rise_m: FloatRange::decimal(220, 285, 100),
                crown_top_width_fraction: FloatRange::decimal(85, 94, 100),
                crown_top_depth_fraction: FloatRange::decimal(74, 86, 100),
            },
            RoofMorphologyProfile {
                morphology: RoofMorphology::ShallowRemodelled,
                weight: 9,
                footprint_aspect_ratio: FloatRange::decimal(115, 175, 100),
                overhang_m: FloatRange::decimal(75, 170, 100),
                shoulder_width_fraction: FloatRange::decimal(52, 68, 100),
                shoulder_depth_fraction: FloatRange::decimal(44, 62, 100),
                lower_rise_m: FloatRange::decimal(135, 255, 100),
                upper_rise_m: FloatRange::decimal(115, 235, 100),
                crown_top_width_fraction: FloatRange::decimal(82, 97, 100),
                crown_top_depth_fraction: FloatRange::decimal(74, 94, 100),
            },
        ];
        assert(profiles@ =~= RoofSamplingConfig::standard_profiles());
        RoofSamplingConfig {
            overhang_m: FloatRange::decimal(75, 250, 100),
            shoulder_width_fraction: FloatRange::decimal(40, 68, 100),
            shoulder_depth_fraction: FloatRange::decimal(36, 62, 100),
            lower_rise_m: FloatRange::decimal(135, 410, 100),
            upper_rise_m: FloatRange::decimal(115, 460, 100),
            crown_top_width_fraction: FloatRange::decimal(72, 97, 100),
            crown_top_depth_fraction: FloatRange::decimal(62, 94, 100),
            asymmetry_fraction: FloatRange::decimal((-25) as i32, 25, 1000),
            profiles,
        }
    }
}

/// Camera placement and lens distributions.
#[derive(Clone, Copy, Debug, PartialEq, Eq, Structural)]
pub struct CameraSamplingConfig {
    /// Horizontal distance from the building origin, in metres.
    pub distance_m: FloatRange,
    /// Camera height above the ground, in metres.
    pub height_m: FloatRange,
    /// Signed orbit arc covered by a sequence, in degrees.
    pub sweep_degrees: FloatRange,
    /// Relative radial movement over the orbit.
    pub radial_motion_fraction: FloatRange,
    /// Horizontal field of view, in degrees.
    pub horizontal_fov_degrees: FloatRange,
    /// Vertical point-of-interest offset above the wall eave, in metres.
    pub target_above_eave_m: FloatRange,
    /// Relative orbit-path selection weight.
    pub orbit_weight: u32,
    /// Relative lateral-walk selection weight.
    pub lateral_walk_weight: u32,
    /// Relative approach-arc selection weight.
    pub approach_arc_weight: u32,
    /// Relative corner-reveal selection weight.
    pub corner_reveal_weight: u32,
    /// Probability of a smooth focal-length change over the sequence.
    pub zoom_probability: Single,
    /// End/start horizontal-FOV ratio for zoomed sequences.
    pub zoom_ratio: FloatRange,
    /// Probability of deliberately cropping part of the roof.
    pub partial_crop_probability: Single,
    /// Desired target-width fraction for ordinary views.
    pub target_width_fraction: FloatRange,
    /// Desired target-width fraction for distant views.
    pub distant_target_width_fraction: FloatRange,
    /// Desired target-width fraction for close, but non-truncated, views.
    pub close_target_width_fraction: FloatRange,
    /// Relative selection weight for distant views.
    pub distant_view_weight: u32,
    /// Relative selection weight for ordinary views.
    pub normal_view_weight: u32,
    /// Relative selection weight for close views.
    pub close_view_weight: u32,
    /// Desired target-width fraction for deliberate partial crops; values over one crop.
    pub partial_target_width_fraction: FloatRange,
    /// Desired crop depth as a fraction of the roof's projected image span.
    pub framing_offset_fraction: FloatRange,
    /// Smooth handheld positional sway amplitude in metres.
    pub handheld_sway_m: FloatRange,
}

impl CameraSamplingConfig {
    /// The standard values.
    pub open spec fn standard() -> CameraSamplingConfig {
        CameraSamplingConfig {
            distance_m: FloatRange::decimal(8, 180, 1),
            height_m: FloatRange::decimal(135, 200, 100),
            sweep_degrees: FloatRange::decimal(24, 95, 1),
            radial_motion_fraction: FloatRange::decimal((-18) as i32, 18, 100),
            horizontal_fov_degrees: FloatRange::decimal(52, 76, 1),
            target_above_eave_m: FloatRange::decimal(12, 35, 10),
            orbit_weight: 38,
            lateral_walk_weight: 26,
            approach_arc_weight: 18,
            corner_reveal_weight: 18,
            zoom_probability: Single::ratio(34, 100),
            zoom_ratio: FloatRange::decimal(72, 128, 100),
            partial_crop_probability: Single::ratio(8, 100),
            target_width_fraction: FloatRange::decimal(3, 7, 10),
            distant_target_width_fraction: FloatRange::decimal(15, 30, 100),
            close_target_width_fraction: FloatRange::decimal(68, 84, 100),
            distant_view_weight: 20,
            normal_view_weight: 60,
            close_view_weight: 20,
            partial_target_width_fraction: FloatRange::decimal(90, 108, 100),
            framing_offset_fraction: FloatRange::decimal(10, 22, 100),
            handheld_sway_m: FloatRange::decimal(0, 75, 1000),
        }
    }
}

impl Default for CameraSamplingConfig {
    fn default() -> (r: Self)
        ensures
            r == CameraSamplingConfig::standard(),
    {
        CameraSamplingConfig {
            distance_m: FloatRange::decimal(8, 180, 1),
            height_m: FloatRange::decimal(135, 200, 100),
            sweep_degrees: FloatRange::decimal(24, 95, 1),
            radial_motion_fraction: FloatRange::decimal((-18) as i32, 18, 100),
            horizontal_fov_degrees: FloatRange::decimal(52, 76, 1),
            target_above_eave_m: FloatRange::decimal(12, 35, 10),
            orbit_weight: 38,
            lateral_walk_weight: 26,
            approach_arc_weight: 18,
            corner_reveal_weight: 18,
            zoom_probability: Single::ratio(34, 100),
            zoom_ratio: FloatRange::decimal(72, 128, 100),
            partial_crop_probability: Single::ratio(8, 100),
            target_width_fraction: FloatRange::decimal(3, 7, 10),
            distant_target_width_fraction: FloatRange::decimal(15, 30, 100),
            close_target_width_fraction: FloatRange::decimal(68, 84, 100),
            distant_view_weight: 20,
            normal_view_weight: 60,
            close_view_weight: 20,
            partial_target_width_fraction: FloatRange::decimal(90, 108, 100),
            framing_offset_fraction: FloatRange::decimal(10, 22, 100),
            handheld_sway_m: FloatRange::decimal(0, 75, 1000),
        }
    }
}

/// Weighted material entry.
#[derive(Clone, Debug, PartialEq, Eq)]
pub struct MaterialChoice {
    /// Stable palette identifier recorded in generated samples.
    pub id: String,
    /// Relative integer selection weight.
    pub weight: u32,
    /// Base color in nonlinear sRGB, each channel in `[0, 1]`.
    pub base_color_srgb: [Single; 3],
    /// Maximum independent fractional sRGB-channel variation per instance.
    ///
    /// At most one half; zero keeps the exact fixed colour.
    pub base_color_variation: Single,
    /// Physically based roughness range.
    pub roughness: FloatRange,
    /// Amount of fading, staining, and patch variation.
    pub weathering: FloatRange,
}

impl MaterialChoice {
    /// The contents of a choice.
    pub open spec fn is(
        self,
        id: Seq<char>,
        weight: u32,
        color: Seq<Single>,
        variation: Single,
        roughness: FloatRange,
        weathering: FloatRange,
    ) -> bool {
        &&& self.id@ == id
        &&& self.weight == weight
        &&& self.base_color_srgb@ == color
        &&& self.base_color_variation == variation
        &&& self.roughness == roughness
        &&& self.weathering == weathering
    }
}

/// Material distributions for a generated building.
#[derive(Clone, Debug, PartialEq, Eq)]
pub struct MaterialSamplingConfig {
    /// Roof surface palette.
    pub roof: Vec<MaterialChoice>,
    /// Wall surface palette.
    pub walls: Vec<MaterialChoice>,
}

impl MaterialChoice {
    /// A building finish: a named colour with the roughness and weathering that
    /// finishes share.
    pub open spec fn is_finish(
        self,
        id: Seq<char>,
        weight: u32,
        color: Seq<Single>,
        variation: Single,
    ) -> bool {
        self.is(
            id,
            weight,
            color,
            variation,
            FloatRange::decimal(48, 92, 100),
            FloatRange::decimal(0, 8, 10),
        )
    }
}

fn finish(id: &str, weight: u32, base_color_srgb: [Single; 3], base_color_variation: Single) -> (r:
    MaterialChoice)
    ensures
        r.is_finish(id@, weight, base_color_srgb@, base_color_variation),
{
    MaterialChoice {
        id: id.to_owned(),
        weight,
        base_color_srgb,
        base_color_variation,
        roughness: FloatRange::decimal(48, 92, 100),
        weathering: FloatRange::decimal(0, 8, 10),
    }
}

impl MaterialSamplingConfig {
    /// The standard palettes.
    pub open spec fn is_standard(self) -> bool {
        &&& self.roof@.len() == 9
        &&& self.roof@[0].is_finish(
            "original_red"@,
            24,
            seq![Single::ratio(58, 100), Single::ratio(55, 1000), Single::ratio(35, 1000)],
            Single::ratio(14, 100),
        )
        &&& self.roof@[1].is_finish(
            "faded_red"@,
            18,
            seq![Single::ratio(46, 100), Single::ratio(1, 10), Single::ratio(75, 1000)],
            Single::ratio(14, 100),
        )
        &&& self.roof@[2].is_finish(
            "terracotta_orange"@,
            9,
            seq![Single::ratio(68, 100), Single::ratio(24, 100), Single::ratio(8, 100)],
            Single::ratio(12, 100),
        )
        &&& self.roof@[3].is_finish(
            "weathered_tan_brown"@,
            7,
            seq![Single::ratio(4, 10), Single::ratio(27, 100), Single::ratio(15, 100)],
            Single::ratio(12, 100),
        )
        &&& self.roof@[4].is_finish(
            "light_metal"@,
            8,
            seq![Single::ratio(72, 100), Single::ratio(74, 100), Single::ratio(72, 100)],
            Single::ratio(8, 100),
        )
        &&& self.roof@[5].is_finish(
            "repainted_neutral"@,
            34,
            seq![Single::ratio(37, 100), Single::ratio(38, 100), Single::ratio(37, 100)],
            Single::ratio(12, 100),
        )
        &&& self.roof@[6].is_finish(
            "repainted_dark"@,
            24,
            seq![Single::ratio(12, 100), Single::ratio(15, 100), Single::ratio(17, 100)],
            Single::ratio(12, 100),
        )
        &&& self.roof@[7].is_finish(
            "repainted_blue"@,
            13,
            seq![Single::ratio(8, 100), Single::ratio(22, 100), Single::ratio(34, 100)],
            Single::ratio(14, 100),
        )
        &&& self.roof@[8].is_finish(
            "repainted_green"@,
            11,
            seq![Single::ratio(1, 10), Single::ratio(25, 100), Single::ratio(16, 100)],
            Single::ratio(14, 100),
        )
        &&& self.walls@.len() == 6
        &&& self.walls@[0].is_finish(
            "warm_brick"@,
            28,
            seq![Single::ratio(39, 100), Single::ratio(18, 100), Single::ratio(11, 100)],
            Single::ratio(1, 10),
        )
        &&& self.walls@[1].is_finish(
            "painted_render"@,
            30,
            seq![Single::ratio(68, 100), Single::ratio(64, 100), Single::ratio(54, 100)],
            Single::ratio(8, 100),
        )
        &&& self.walls@[2].is_finish(
            "neutral_cladding"@,
            18,
            seq![Single::ratio(43, 100), Single::ratio(44, 100), Single::ratio(42, 100)],
            Single::ratio(8, 100),
        )
        &&& self.walls@[3].is_finish(
            "dark_repaint"@,
            10,
            seq![Single::ratio(12, 100), Single::ratio(14, 100), Single::ratio(15, 100)],
            Single::ratio(1, 10),
        )
        &&& self.walls@[4].is_finish(
            "blue_repaint"@,
            8,
            seq![Single::ratio(12, 100), Single::ratio(27, 100), Single::ratio(38, 100)],
            Single::ratio(1, 10),
        )
        &&& self.walls@[5].is_finish(
            "green_repaint"@,
            6,
            seq![Single::ratio(14, 100), Single::ratio(31, 100), Single::ratio(2, 10)],
            Single::ratio(1, 10),
        )
    }
}

impl Default for MaterialSamplingConfig {
    fn default() -> (r: Self)
        ensures
            r.is_standard(),
    {
        MaterialSamplingConfig {
            roof: vec![
                finish(
                    "original_red",
                    24,
                    [Single::ratio(58, 100), Single::ratio(55, 1000), Single::ratio(35, 1000)],
                    Single::ratio(14, 100),
                ),
                finish(
                    "faded_red",
                    18,
                    [Single::ratio(46, 100), Single::ratio(1, 10), Single::ratio(75, 1000)],
                    Single::ratio(14, 100),
                ),
                finish(
                    "terracotta_orange",
                    9,
                    [Single::ratio(68, 100), Single::ratio(24, 100), Single::ratio(8, 100)],
                    Single::ratio(12, 100),
                ),
                finish(
                    "weathered_tan_brown",
                    7,
                    [Single::ratio(4, 10), Single::ratio(27, 100), Single::ratio(15, 100)],
                    Single::ratio(12, 100),
                ),
                finish(
                    "light_metal",
                    8,
                    [Single::ratio(72, 100), Single::ratio(74, 100), Single::ratio(72, 100)],
                    Single::ratio(8, 100),
                ),
                finish(
                    "repainted_neutral",
                    34,
                    [Single::ratio(37, 100), Single::ratio(38, 100), Single::ratio(37, 100)],
                    Single::ratio(12, 100),
                ),
                finish(
                    "repainted_dark",
                    24,
                    [Single::ratio(12, 100), Single::ratio(15, 100), Single::ratio(17, 100)],
                    Single::ratio(12, 100),
                ),
                finish(
                    "repainted_blue",
                    13,
                    [Single::ratio(8, 100), Single::ratio(22, 100), Single::ratio(34, 100)],
                    Single::ratio(14, 100),
                ),
                finish(
                    "repainted_green",
                    11,
                    [Single::ratio(1, 10), Single::ratio(25, 100), Single::ratio(16, 100)],
                    Single::ratio(14, 100),
                ),
            ],
            walls: vec![
                finish(
                    "warm_brick",
                    28,
                    [Single::ratio(39, 100), Single::ratio(18, 100), Single::ratio(11, 100)],
                    Single::ratio(1, 10),
                ),
                finish(
                    "painted_render",
                    30,
                    [Single::ratio(68, 100), Single::ratio(64, 100), Single::ratio(54, 100)],
                    Single::ratio(8, 100),
                ),
                finish(
                    "neutral_cladding",
                    18,
                    [Single::ratio(43, 100), Single::ratio(44, 100), Single::ratio(42, 100)],
                    Single::ratio(8, 100),
                ),
                finish(
                    "dark_repaint",
                    10,
                    [Single::ratio(12, 100), Single::ratio(14, 100), Single::ratio(15, 100)],
                    Single::ratio(1, 10),
                ),
                finish(
                    "blue_repaint",
                    8,
                    [Single::ratio(12, 100), Single::ratio(27, 100), Single::ratio(38, 100)],
                    Single::ratio(1, 10),
                ),
                finish(
                    "green_repaint",
                    6,
                    [Single::ratio(14, 100), Single::ratio(31, 100), Single::ratio(2, 10)],
                    Single::ratio(1, 10),
                ),
            ],
        }
    }
}

/// Outdoor illumination ranges.
#[derive(Clone, Copy, Debug, PartialEq, Eq, Structural)]
pub struct LightingSamplingConfig {
    /// Sun elevation above the horizon, in degrees.
    pub sun_elevation_degrees: FloatRange,
    /// Direct-light intensity in arbitrary renderer units.
    pub sun_intensity: FloatRange,
    /// Indirect sky-light intensity in arbitrary renderer units.
    pub sky_intensity: FloatRange,
    /// Cloud coverage in `[0, 1]`.
    pub cloud_coverage: FloatRange,
    /// Atmospheric haze in `[0, 1]`.
    pub haze: FloatRange,
}

impl LightingSamplingConfig {
    /// The standard values.
    pub open spec fn standard() -> LightingSamplingConfig {
        LightingSamplingConfig {
            sun_elevation_degrees: FloatRange::decimal((-20) as i32, 78, 1),
            sun_intensity: FloatRange::decimal(35, 600, 100),
            sky_intensity: FloatRange::decimal(15, 140, 100),
            cloud_coverage: FloatRange::decimal(0, 1, 1),
            haze: FloatRange::decimal(0, 75, 100),
        }
    }
}

impl Default for LightingSamplingConfig {
    fn default() -> (r: Self)
        ensures
            r == LightingSamplingConfig::standard(),
    {
        LightingSamplingConfig {
            sun_elevation_degrees: FloatRange::decimal((-20) as i32, 78, 1),
            sun_intensity: FloatRange::decimal(35, 600, 100),
            sky_intensity: FloatRange::decimal(15, 140, 100),
            cloud_coverage: FloatRange::decimal(0, 1, 1),
            haze: FloatRange::decimal(0, 75, 100),
        }
    }
}

/// Coarse occluder category. Asset selection belongs to the renderer/scene crate.
#[derive(Clone, Copy, Debug, PartialEq, Eq, Structural)]
pub enum OccluderKind {
    /// Tree or large bush.
    Vegetation,
    /// Parked or moving vehicle.
    Vehicle,
    /// Pole, mast, or street light.
    Pole,
    /// Road or tenant sign.
    Sign,
    /// Adjacent built structure.
    Building,
    /// Person in the foreground.
    Pedestrian,
    /// Roof-mounted plant or duct.
    ///
    /// Kept so that existing records decode. New datasets do not sample this kind
    /// because credible placement differs between roof
    /// topologies and would otherwise leak the target class.
    RooftopEquipment,
}

/// Weighted occluder-category entry.
#[derive(Clone, Copy, Debug, PartialEq, Eq, Structural)]
pub struct OccluderChoice {
    /// Coarse renderer-independent category.
    pub kind: OccluderKind,
    /// Relative integer selection weight.
    pub weight: u32,
}

/// Distribution of independent scene occluders.
#[derive(Clone, Debug, PartialEq, Eq)]
pub struct OccluderSamplingConfig {
    /// Number of instances in a scene.
    pub count: U32Range,
    /// Weighted categories.
    pub choices: Vec<OccluderChoice>,
    /// Radial placement from the building centre, in metres.
    pub distance_m: FloatRange,
    /// Uniform instance scale multiplier.
    pub scale: FloatRange,
    /// Probability that a non-rooftop instance is staged between camera and target.
    pub foreground_probability: Single,
    /// Fraction along the camera-to-target segment for foreground placement.
    pub foreground_depth_fraction: FloatRange,
    /// Absolute lateral offset from the sightline in metres.
    pub foreground_lateral_offset_m: FloatRange,
}

impl OccluderSamplingConfig {
    /// The standard categories.
    pub open spec fn standard_choices() -> Seq<OccluderChoice> {
        seq![
            OccluderChoice {
                kind: OccluderKind::Vegetation,
                weight: 18,
            },
            OccluderChoice {
                kind: OccluderKind::Vehicle,
                weight: 30,
            },
            OccluderChoice {
                kind: OccluderKind::Pole,
                weight: 12,
            },
            OccluderChoice {
                kind: OccluderKind::Sign,
                weight: 10,
            },
            OccluderChoice {
                kind: OccluderKind::Building,
                weight: 5,
            },
            OccluderChoice {
                kind: OccluderKind::Pedestrian,
                weight: 12,
            },
        ]
    }

    /// The standard clutter distribution.
    pub open spec fn is_standard(self) -> bool {
        &&& self.choices@ == OccluderSamplingConfig::standard_choices()
        &&& self.count == U32Range::new(0, 5)
        &&& self.distance_m == FloatRange::decimal(4, 34, 1)
        &&& self.scale == FloatRange::decimal(65, 125, 100)
        &&& self.foreground_probability == Single::ratio(2, 10)
        &&& self.foreground_depth_fraction == FloatRange::decimal(18, 72, 100)
        &&& self.foreground_lateral_offset_m == FloatRange::decimal(125, 750, 100)
    }
}

impl Default for OccluderSamplingConfig {
    fn default() -> (r: Self)
        ensures
            r.is_standard(),
    {
        let choices = vec![
            OccluderChoice {
                kind: OccluderKind::Vegetation,
                weight: 18,
            },
            OccluderChoice {
                kind: OccluderKind::Vehicle,
                weight: 30,
            },
            OccluderChoice {
                kind: OccluderKind::Pole,
                weight: 12,
            },
            OccluderChoice {
                kind: OccluderKind::Sign,
                weight: 10,
            },
            OccluderChoice {
                kind: OccluderKind::Building,
                weight: 5,
            },
            OccluderChoice {
                kind: OccluderKind::Pedestrian,
                weight: 12,
            },
        ];
        assert(choices@ =~= OccluderSamplingConfig::standard_choices());
        OccluderSamplingConfig {
            count: U32Range::new(0, 5),
            choices,
            distance_m: FloatRange::decimal(4, 34, 1),
            scale: FloatRange::decimal(65, 125, 100),
            foreground_probability: Single::ratio(2, 10),
            foreground_depth_fraction: FloatRange::decimal(18, 72, 100),
            foreground_lateral_offset_m: FloatRange::decimal(125, 750, 100),
        }
    }
}

} // verus!
