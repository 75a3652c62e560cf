//! Sampling of whole sequences, the checks that sampled plans meet, and what is drawn of them.

use std::collections::{BTreeMap, BTreeSet, HashSet};

use synth_roof::assembly::SceneLooks;
use synth_roof::check_sequence::DatasetValidator;
use synth_roof::choice::opposite_facade;
use synth_roof::composition::{
    BackgroundBuildingSamplingConfig, BuildingExtensionSamplingConfig, CompositionSamplingConfig,
    DayPhase, DayPhaseProfile, DayPhaseSamplingConfig, FacadeSamplingConfig, FacadeSide, RoadKind,
    SampledSignage, SceneDomain, SceneDomainProfile, SceneDomainSamplingConfig, SignageKind,
    SignageSamplingConfig, VegetationKind, VegetationSamplingConfig, WeatherPreset, WeatherProfile,
    WeatherSamplingConfig,
};
use synth_roof::config::{
    CameraSamplingConfig, GeneratorConfig, ImageConfig, LightingSamplingConfig, MaterialChoice,
    MaterialSamplingConfig, OccluderChoice, OccluderKind, OccluderSamplingConfig, RoofMorphology,
    RoofMorphologyProfile, RoofSamplingConfig, SceneSamplingConfig, SequenceConfig,
};
use synth_roof::geometry::{
    SceneTurns, Turn, actual_roof_envelope, camera_point_intersects_occluders,
    camera_point_intersects_vegetation, camera_segment_intersects_occluders,
    camera_segment_intersects_vegetation, find_camera_positions, sampled_content_half_extent,
};
use synth_roof::manifest::{
    DatasetManifest, GeneratorDescriptor, LabelClass, SourceAsset, SourceAssetKind,
};
use synth_roof::mesh::RenderMesh;
use synth_roof::mips::linear_base;
use synth_roof::plan::{
    FramingIntent, OccluderPlacement, OrdinaryRoofFamily, SampledBuilding, SampledOccluder,
    SampledOrdinaryRoof, SampledRoof, SampledScene, SequencePlan, SequenceRequest, ZoomBehavior,
};
use synth_roof::record::{
    AssetRef, CameraIntrinsics, DenseLabelRefs, EdgeLabel, EdgeVisibility, FrameAssets,
    FrameIdentity, FrameRecord, KeypointLabel, LocatorLabel, NormalizedBoundingBox,
    StructuralLabels, TargetKind, Visibility,
};
use synth_roof::report::{Validate, ValidationReport};
use synth_roof::sample_camera::{look_at, radians, sample_camera_choices};
use synth_roof::sample_plan::{is_timed, scene_turns};
use synth_roof::sampler::{SamplingError, SequenceSampler, is_countable};
use synth_roof::scene::{
    BuildingSide, EnvironmentDomain, SceneDescription, SceneOccluderKind, TimeOfDay,
};
use synth_roof::scene_sampled::{glazing_fits, sampled_scene_seed};
use synth_roof::single::Single;
use synth_roof::split::{DatasetSplit, SplitPolicy};
use synth_roof::surface::MaterialSlot;
use synth_roof::types::{FloatRange, RigidTransform, U32Range, Vec2, Vec3};
use synth_roof::view::{RaisedColors, RenderSettings, SunTurns, faded_channel};

fn s(value: f32) -> Single {
    Single::from_bits(value.to_bits())
}

fn f(value: Single) -> f32 {
    f32::from_bits(value.to_bits())
}

fn range(min: f32, max: f32) -> FloatRange {
    FloatRange::new(s(min), s(max))
}

fn turn(angle: Single) -> Turn {
    Turn { cosine: s(libm::cosf(f(angle))), sine: s(libm::sinf(f(angle))) }
}

fn tangent(angle: Single) -> Single {
    s(libm::tanf(f(angle)))
}

trait Json {
    fn json(&self) -> String;
}

impl Json for Single {
    fn json(&self) -> String {
        format!("{:?}", f(*self))
    }
}

impl Json for u32 {
    fn json(&self) -> String {
        format!("{self}")
    }
}

impl Json for String {
    fn json(&self) -> String {
        quoted(self)
    }
}

impl<T: Json> Json for Vec<T> {
    fn json(&self) -> String {
        let items: Vec<String> = self.iter().map(|item| item.json()).collect();
        format!("[{}]", items.join(","))
    }
}

impl Json for [Single; 3] {
    fn json(&self) -> String {
        self.to_vec().json()
    }
}

fn quoted(text: &str) -> String {
    format!("\"{text}\"")
}

fn object(fields: &[(&str, String)]) -> String {
    let fields: Vec<String> = fields
        .iter()
        .map(|(name, value)| format!("\"{name}\":{value}"))
        .collect();
    format!("{{{}}}", fields.join(","))
}

impl Json for BackgroundBuildingSamplingConfig {
    fn json(&self) -> String {
        object(&[
            ("count", self.count.json()),
            ("setback_m", self.setback_m.json()),
            ("width_m", self.width_m.json()),
            ("depth_m", self.depth_m.json()),
            ("height_m", self.height_m.json()),
            ("yaw_jitter_degrees", self.yaw_jitter_degrees.json()),
        ])
    }
}

impl Json for BuildingExtensionSamplingConfig {
    fn json(&self) -> String {
        object(&[
            ("none_weight", self.none_weight.json()),
            ("one_weight", self.one_weight.json()),
            ("two_weight", self.two_weight.json()),
            ("facade_width_fraction", self.facade_width_fraction.json()),
            ("projection_m", self.projection_m.json()),
            ("wall_height_fraction", self.wall_height_fraction.json()),
            ("facade_offset_fraction", self.facade_offset_fraction.json()),
            ("shed_rise_m", self.shed_rise_m.json()),
            ("dining_wing_weight", self.dining_wing_weight.json()),
            ("entrance_vestibule_weight", self.entrance_vestibule_weight.json()),
            ("service_annex_weight", self.service_annex_weight.json()),
            ("flat_roof_weight", self.flat_roof_weight.json()),
            ("shed_roof_weight", self.shed_roof_weight.json()),
        ])
    }
}

impl Json for CameraSamplingConfig {
    fn json(&self) -> String {
        object(&[
            ("distance_m", self.distance_m.json()),
            ("height_m", self.height_m.json()),
            ("sweep_degrees", self.sweep_degrees.json()),
            ("radial_motion_fraction", self.radial_motion_fraction.json()),
            ("horizontal_fov_degrees", self.horizontal_fov_degrees.json()),
            ("target_above_eave_m", self.target_above_eave_m.json()),
            ("orbit_weight", self.orbit_weight.json()),
            ("lateral_walk_weight", self.lateral_walk_weight.json()),
            ("approach_arc_weight", self.approach_arc_weight.json()),
            ("corner_reveal_weight", self.corner_reveal_weight.json()),
            ("zoom_probability", self.zoom_probability.json()),
            ("zoom_ratio", self.zoom_ratio.json()),
            ("partial_crop_probability", self.partial_crop_probability.json()),
            ("target_width_fraction", self.target_width_fraction.json()),
            ("distant_target_width_fraction", self.distant_target_width_fraction.json()),
            ("close_target_width_fraction", self.close_target_width_fraction.json()),
            ("distant_view_weight", self.distant_view_weight.json()),
            ("normal_view_weight", self.normal_view_weight.json()),
            ("close_view_weight", self.close_view_weight.json()),
            ("partial_target_width_fraction", self.partial_target_width_fraction.json()),
            ("framing_offset_fraction", self.framing_offset_fraction.json()),
            ("handheld_sway_m", self.handheld_sway_m.json()),
        ])
    }
}

impl Json for CompositionSamplingConfig {
    fn json(&self) -> String {
        object(&[
            ("day_phase", self.day_phase.json()),
            ("domains", self.domains.json()),
            ("weather", self.weather.json()),
            ("ground_materials", self.ground_materials.json()),
            ("facade", self.facade.json()),
            ("building_extensions", self.building_extensions.json()),
            ("signage", self.signage.json()),
            ("background_buildings", self.background_buildings.json()),
            ("vegetation", self.vegetation.json()),
        ])
    }
}

impl Json for DayPhase {
    fn json(&self) -> String {
        quoted(match self {
            DayPhase::Day => "day",
            DayPhase::Twilight => "twilight",
            DayPhase::Night => "night",
        })
    }
}

impl Json for DayPhaseProfile {
    fn json(&self) -> String {
        object(&[
            ("phase", self.phase.json()),
            ("weight", self.weight.json()),
            ("sun_elevation_degrees", self.sun_elevation_degrees.json()),
            ("camera_exposure_ev100", self.camera_exposure_ev100.json()),
            ("artificial_light_strength", self.artificial_light_strength.json()),
        ])
    }
}

impl Json for DayPhaseSamplingConfig {
    fn json(&self) -> String {
        object(&[
            ("profiles", self.profiles.json()),
        ])
    }
}

impl Json for FacadeSamplingConfig {
    fn json(&self) -> String {
        object(&[
            ("glazing_fraction", self.glazing_fraction.json()),
            ("glazing_materials", self.glazing_materials.json()),
            ("entrance_width_m", self.entrance_width_m.json()),
            ("weathering", self.weathering.json()),
        ])
    }
}

impl Json for FloatRange {
    fn json(&self) -> String {
        object(&[
            ("min", self.min.json()),
            ("max", self.max.json()),
        ])
    }
}

impl Json for GeneratorConfig {
    fn json(&self) -> String {
        object(&[
            ("image", self.image.json()),
            ("sequence", self.sequence.json()),
            ("scene", self.scene.json()),
            ("roof", self.roof.json()),
            ("camera", self.camera.json()),
            ("materials", self.materials.json()),
            ("lighting", self.lighting.json()),
            ("occluders", self.occluders.json()),
            ("composition", self.composition.json()),
        ])
    }
}

impl Json for ImageConfig {
    fn json(&self) -> String {
        object(&[
            ("width", self.width.json()),
            ("height", self.height.json()),
        ])
    }
}

impl Json for LightingSamplingConfig {
    fn json(&self) -> String {
        object(&[
            ("sun_elevation_degrees", self.sun_elevation_degrees.json()),
            ("sun_intensity", self.sun_intensity.json()),
            ("sky_intensity", self.sky_intensity.json()),
            ("cloud_coverage", self.cloud_coverage.json()),
            ("haze", self.haze.json()),
        ])
    }
}

impl Json for MaterialChoice {
    fn json(&self) -> String {
        object(&[
            ("id", self.id.json()),
            ("weight", self.weight.json()),
            ("base_color_srgb", self.base_color_srgb.json()),
            ("base_color_variation", self.base_color_variation.json()),
            ("roughness", self.roughness.json()),
            ("weathering", self.weathering.json()),
        ])
    }
}

impl Json for MaterialSamplingConfig {
    fn json(&self) -> String {
        object(&[
            ("roof", self.roof.json()),
            ("walls", self.walls.json()),
        ])
    }
}

impl Json for OccluderChoice {
    fn json(&self) -> String {
        object(&[
            ("kind", self.kind.json()),
            ("weight", self.weight.json()),
        ])
    }
}

impl Json for OccluderKind {
    fn json(&self) -> String {
        quoted(match self {
            OccluderKind::Vegetation => "vegetation",
            OccluderKind::Vehicle => "vehicle",
            OccluderKind::Pole => "pole",
            OccluderKind::Sign => "sign",
            OccluderKind::Building => "building",
            OccluderKind::Pedestrian => "pedestrian",
            OccluderKind::RooftopEquipment => "rooftop_equipment",
        })
    }
}

impl Json for OccluderSamplingConfig {
    fn json(&self) -> String {
        object(&[
            ("count", self.count.json()),
            ("choices", self.choices.json()),
            ("distance_m", self.distance_m.json()),
            ("scale", self.scale.json()),
            ("foreground_probability", self.foreground_probability.json()),
            ("foreground_depth_fraction", self.foreground_depth_fraction.json()),
            ("foreground_lateral_offset_m", self.foreground_lateral_offset_m.json()),
        ])
    }
}

impl Json for RoadKind {
    fn json(&self) -> String {
        quoted(match self {
            RoadKind::LocalStreet => "local_street",
            RoadKind::UrbanArterial => "urban_arterial",
            RoadKind::HighwayFrontage => "highway_frontage",
            RoadKind::RuralRoad => "rural_road",
        })
    }
}

impl Json for RoofMorphology {
    fn json(&self) -> String {
        quoted(match self {
            RoofMorphology::TallEarlyCrown => "tall_early_crown",
            RoofMorphology::NearSquareTall => "near_square_tall",
            RoofMorphology::BalancedClassic => "balanced_classic",
            RoofMorphology::LowWideLate => "low_wide_late",
            RoofMorphology::ShallowRemodelled => "shallow_remodelled",
        })
    }
}

impl Json for RoofMorphologyProfile {
    fn json(&self) -> String {
        object(&[
            ("morphology", self.morphology.json()),
            ("weight", self.weight.json()),
            ("footprint_aspect_ratio", self.footprint_aspect_ratio.json()),
            ("overhang_m", self.overhang_m.json()),
            ("shoulder_width_fraction", self.shoulder_width_fraction.json()),
            ("shoulder_depth_fraction", self.shoulder_depth_fraction.json()),
            ("lower_rise_m", self.lower_rise_m.json()),
            ("upper_rise_m", self.upper_rise_m.json()),
            ("crown_top_width_fraction", self.crown_top_width_fraction.json()),
            ("crown_top_depth_fraction", self.crown_top_depth_fraction.json()),
        ])
    }
}

impl Json for RoofSamplingConfig {
    fn json(&self) -> String {
        object(&[
            ("overhang_m", self.overhang_m.json()),
            ("shoulder_width_fraction", self.shoulder_width_fraction.json()),
            ("shoulder_depth_fraction", self.shoulder_depth_fraction.json()),
            ("lower_rise_m", self.lower_rise_m.json()),
            ("upper_rise_m", self.upper_rise_m.json()),
            ("crown_top_width_fraction", self.crown_top_width_fraction.json()),
            ("crown_top_depth_fraction", self.crown_top_depth_fraction.json()),
            ("asymmetry_fraction", self.asymmetry_fraction.json()),
            ("profiles", self.profiles.json()),
        ])
    }
}

impl Json for SceneDomain {
    fn json(&self) -> String {
        quoted(match self {
            SceneDomain::City => "city",
            SceneDomain::Urban => "urban",
            SceneDomain::Suburban => "suburban",
            SceneDomain::Roadside => "roadside",
            SceneDomain::Remote => "remote",
        })
    }
}

impl Json for SceneDomainProfile {
    fn json(&self) -> String {
        object(&[
            ("domain", self.domain.json()),
            ("weight", self.weight.json()),
            ("background_buildings", self.background_buildings.json()),
            ("vegetation", self.vegetation.json()),
            ("parking_bays", self.parking_bays.json()),
            ("road_kind", self.road_kind.json()),
            ("road_lanes", self.road_lanes.json()),
            ("curb_probability", self.curb_probability.json()),
            ("utility_poles", self.utility_poles.json()),
            ("overhead_line_probability", self.overhead_line_probability.json()),
        ])
    }
}

impl Json for SceneDomainSamplingConfig {
    fn json(&self) -> String {
        object(&[
            ("profiles", self.profiles.json()),
        ])
    }
}

impl Json for SceneSamplingConfig {
    fn json(&self) -> String {
        object(&[
            ("footprint_width_m", self.footprint_width_m.json()),
            ("footprint_depth_m", self.footprint_depth_m.json()),
            ("wall_height_m", self.wall_height_m.json()),
            ("ground_half_extent_m", self.ground_half_extent_m.json()),
        ])
    }
}

impl Json for SequenceConfig {
    fn json(&self) -> String {
        object(&[
            ("frame_count", self.frame_count.json()),
            ("frame_interval_ms", self.frame_interval_ms.json()),
        ])
    }
}

impl Json for SignageSamplingConfig {
    fn json(&self) -> String {
        object(&[
            ("none_weight", self.none_weight.json()),
            ("pizza_hut_weight", self.pizza_hut_weight.json()),
            ("removed_ghost_weight", self.removed_ghost_weight.json()),
            ("rebranded_tenant_weight", self.rebranded_tenant_weight.json()),
            ("width_fraction", self.width_fraction.json()),
            ("height_m", self.height_m.json()),
            ("vertical_fraction", self.vertical_fraction.json()),
            ("emissive_strength", self.emissive_strength.json()),
        ])
    }
}

impl Json for U32Range {
    fn json(&self) -> String {
        object(&[
            ("min", self.min.json()),
            ("max", self.max.json()),
        ])
    }
}

impl Json for VegetationSamplingConfig {
    fn json(&self) -> String {
        object(&[
            ("count", self.count.json()),
            ("deciduous_weight", self.deciduous_weight.json()),
            ("evergreen_weight", self.evergreen_weight.json()),
            ("palm_weight", self.palm_weight.json()),
            ("shrub_weight", self.shrub_weight.json()),
            ("building_setback_m", self.building_setback_m.json()),
            ("site_distance_m", self.site_distance_m.json()),
            ("tree_height_m", self.tree_height_m.json()),
            ("shrub_height_m", self.shrub_height_m.json()),
            ("canopy_radius_fraction", self.canopy_radius_fraction.json()),
        ])
    }
}

impl Json for WeatherPreset {
    fn json(&self) -> String {
        quoted(match self {
            WeatherPreset::Clear => "clear",
            WeatherPreset::PartlyCloudy => "partly_cloudy",
            WeatherPreset::Overcast => "overcast",
            WeatherPreset::Hazy => "hazy",
            WeatherPreset::AfterRain => "after_rain",
        })
    }
}

impl Json for WeatherProfile {
    fn json(&self) -> String {
        object(&[
            ("preset", self.preset.json()),
            ("weight", self.weight.json()),
            ("cloud_coverage", self.cloud_coverage.json()),
            ("haze", self.haze.json()),
            ("sun_intensity", self.sun_intensity.json()),
            ("sky_intensity", self.sky_intensity.json()),
            ("shadow_softness", self.shadow_softness.json()),
            ("ground_wetness", self.ground_wetness.json()),
            ("visibility_km", self.visibility_km.json()),
            ("color_temperature_k", self.color_temperature_k.json()),
        ])
    }
}

impl Json for WeatherSamplingConfig {
    fn json(&self) -> String {
        object(&[
            ("profiles", self.profiles.json()),
        ])
    }
}

fn sampler_of(config: GeneratorConfig) -> Result<SequenceSampler, SamplingError> {
    let encoded = config.json();
    SequenceSampler::new(config, encoded.as_bytes())
}

fn sampler() -> SequenceSampler {
    sampler_of(GeneratorConfig::default()).expect("default config should be valid")
}

fn short_sampler(frame_count: u32) -> SequenceSampler {
    let mut config = GeneratorConfig::default();
    config.sequence.frame_count = frame_count;
    sampler_of(config).unwrap()
}

fn turns_of(scene: &SampledScene) -> SceneTurns {
    scene_turns(scene, &turn)
}

fn sample(sampler: &SequenceSampler, request: SequenceRequest) -> SequencePlan {
    sampler
        .sample(request, &turn, &tangent)
        .unwrap()
        .expect("the footprint ranges hold every aspect ratio")
}

fn target(sampler: &SequenceSampler, seed: u64) -> SequencePlan {
    sample(sampler, SequenceRequest::procedural("classic_two_stage", seed, TargetKind::Target))
}

fn ordinary(sampler: &SequenceSampler, family: OrdinaryRoofFamily, seed: u64) -> SequencePlan {
    let family = format!("ordinary_{}", family.as_str());
    sample(sampler, SequenceRequest::procedural(&family, seed, TargetKind::Negative))
}

fn check(plan: &SequencePlan) -> ValidationReport {
    plan.validate(&turns_of(&plan.scene))
}

fn asset(path: &str, media_type: &str, encoding: &str) -> AssetRef {
    AssetRef {
        path: path.to_owned(),
        media_type: media_type.to_owned(),
        encoding: encoding.to_owned(),
        content_hash: Some("blake3:0123456789abcdef".to_owned()),
    }
}

fn manifest(sampler: &SequenceSampler) -> DatasetManifest {
    let generator =
        GeneratorDescriptor::chacha20("roof-synth", "0.1.0", sampler.config_fingerprint());
    let mut manifest = DatasetManifest::new("roof-test-v001", generator, 0);
    manifest.labels.keypoints = vec![LabelClass { id: 1, name: "crown_top_corner".to_owned() }];
    manifest.labels.edges = vec![LabelClass { id: 2, name: "crown_top_edge".to_owned() }];
    manifest.labels.parts = vec![LabelClass { id: 1, name: "roof".to_owned() }];
    manifest.labels.faces = vec![LabelClass { id: 1, name: "front_lower".to_owned() }];
    manifest
}

fn bounding_box(min: (f32, f32), max: (f32, f32)) -> NormalizedBoundingBox {
    NormalizedBoundingBox { min: Vec2::new(s(min.0), s(min.1)), max: Vec2::new(s(max.0), s(max.1)) }
}

fn target_frames(plan: &SequencePlan, split: DatasetSplit) -> Vec<FrameRecord> {
    plan.frames
        .iter()
        .map(|frame| {
            let key = plan
                .frame_key(frame.frame_index)
                .expect("sampled frame index should be in range");
            let mut record = FrameRecord::new(
                FrameIdentity::new(&key, &plan.sequence_id, frame.frame_index, frame.timestamp_ns),
                split,
                frame.camera,
                LocatorLabel {
                    target_kind: TargetKind::Target,
                    bounding_box: Some(bounding_box((0.2, 0.25), (0.8, 0.7))),
                    amodal_bounding_box: Some(bounding_box((0.15, 0.2), (0.85, 0.75))),
                    visible_fraction: s(0.8),
                    occluded_fraction: s(0.1),
                    truncated: false,
                },
                FrameAssets {
                    rgb: asset(&format!("{key}.rgb.jpg"), "image/jpeg", "jpeg"),
                    surface_normals: None,
                    motion_vectors: None,
                },
            );
            record.roof = plan.roof_instance();
            record.labels = StructuralLabels {
                keypoints: vec![KeypointLabel {
                    class_id: 1,
                    instance_id: 10,
                    roof_position: Vec3::new(
                        s(0.0),
                        s(f(plan.scene.roof.lower_rise_m) + f(plan.scene.roof.upper_rise_m)),
                        s(0.0),
                    ),
                    image_position: Some(Vec2::new(s(0.5), s(0.4))),
                    visibility: Visibility::Visible,
                }],
                edges: vec![EdgeLabel {
                    class_id: 2,
                    instance_id: 20,
                    polyline: vec![Vec2::new(s(0.4), s(0.4)), Vec2::new(s(0.6), s(0.4))],
                    visibility: EdgeVisibility::Visible,
                }],
                dense: DenseLabelRefs {
                    roof_mask: Some(asset(&format!("{key}.roof-mask.png"), "image/png", "uint8")),
                    amodal_roof_mask: Some(asset(
                        &format!("{key}.amodal-roof-mask.png"),
                        "image/png",
                        "uint8",
                    )),
                    part_mask: Some(asset(&format!("{key}.parts.png"), "image/png", "uint16")),
                    face_id_map: Some(asset(&format!("{key}.faces.png"), "image/png", "uint16")),
                    face_coordinates: Some(asset(
                        &format!("{key}.face-coordinates.bin.zst"),
                        "application/octet-stream",
                        "rg16float-zstd",
                    )),
                },
            };
            record
        })
        .collect()
}

type Point = [f32; 3];

fn point(value: Vec3) -> Point {
    [f(value.x), f(value.y), f(value.z)]
}

fn dot(left: Point, right: Point) -> f32 {
    left[0] * right[0] + left[1] * right[1] + left[2] * right[2]
}

fn roof_control_points(building: SampledBuilding, roof: SampledRoof) -> Vec<Point> {
    let rectangle = |width: f32, depth: f32, y: f32| {
        [
            [-width * 0.5, y, -depth * 0.5],
            [width * 0.5, y, -depth * 0.5],
            [width * 0.5, y, depth * 0.5],
            [-width * 0.5, y, depth * 0.5],
        ]
    };
    let wall = f(building.wall_height_m);
    let lower = f(roof.lower_rise_m);
    let upper = f(roof.upper_rise_m);
    let mut points = rectangle(f(roof.eave_width_m), f(roof.eave_depth_m), wall).to_vec();
    points.extend(rectangle(f(roof.shoulder_width_m), f(roof.shoulder_depth_m), wall + lower));
    points.extend(rectangle(
        f(roof.crown_top_width_m),
        f(roof.crown_top_depth_m),
        wall + lower + upper,
    ));
    points
}

fn ordinary_control_points(building: SampledBuilding, roof: SampledOrdinaryRoof) -> Vec<Point> {
    let x = f(roof.eave_width_m) * 0.5;
    let z = f(roof.eave_depth_m) * 0.5;
    let y = f(building.wall_height_m);
    let top = y + f(roof.rise_m);
    let mut points = vec![[-x, y, -z], [x, y, -z], [x, y, z], [-x, y, z]];
    match roof.family {
        OrdinaryRoofFamily::Flat => {
            points.extend([[-x, top, -z], [x, top, -z], [x, top, z], [-x, top, z]]);
        }
        OrdinaryRoofFamily::Gable => points.extend([[-x, top, 0.0], [x, top, 0.0]]),
        OrdinaryRoofFamily::Hip => {
            let ridge_x = x * f(roof.ridge_length_fraction);
            points.extend([[-ridge_x, top, 0.0], [ridge_x, top, 0.0]]);
        }
        OrdinaryRoofFamily::Shed => points.extend([[-x, top, z], [x, top, z]]),
        OrdinaryRoofFamily::Mansard => {
            let inset_x = x * f(roof.inset_fraction);
            let inset_z = z * f(roof.inset_fraction);
            points.extend([
                [-inset_x, top, -inset_z],
                [inset_x, top, -inset_z],
                [inset_x, top, inset_z],
                [-inset_x, top, inset_z],
            ]);
        }
        OrdinaryRoofFamily::Pyramid => points.push([0.0, top, 0.0]),
        OrdinaryRoofFamily::Cupola => {
            let cupola_x = x * f(roof.inset_fraction).clamp(0.12, 0.32);
            let cupola_z = z * f(roof.inset_fraction).clamp(0.12, 0.32);
            let body_top = top + f(roof.cap_height_m) * 0.62;
            let cap_top = top + f(roof.cap_height_m);
            points.extend([
                [0.0, top, 0.0],
                [-cupola_x, top, -cupola_z],
                [cupola_x, top, -cupola_z],
                [cupola_x, top, cupola_z],
                [-cupola_x, top, cupola_z],
                [-cupola_x, body_top, -cupola_z],
                [cupola_x, body_top, -cupola_z],
                [cupola_x, body_top, cupola_z],
                [-cupola_x, body_top, cupola_z],
                [0.0, cap_top, 0.0],
            ]);
        }
    }
    points
}

fn projected_roof_bounds(plan: &SequencePlan, frame_index: usize) -> Option<(f32, f32, f32, f32)> {
    let camera = plan.frames[frame_index].camera;
    let [x, y, z, w] = camera.world_from_camera.rotation_xyzw.map(f);
    let right = [1.0 - 2.0 * (y * y + z * z), 2.0 * (x * y + z * w), 2.0 * (x * z - y * w)];
    let up = [2.0 * (x * y - z * w), 1.0 - 2.0 * (x * x + z * z), 2.0 * (y * z + x * w)];
    let back = [2.0 * (x * z + y * w), 2.0 * (y * z - x * w), 1.0 - 2.0 * (x * x + y * y)];
    let position = point(camera.world_from_camera.translation);
    let mut bounds = (f32::INFINITY, f32::NEG_INFINITY, f32::INFINITY, f32::NEG_INFINITY);
    let points = plan.scene.ordinary_roof.map_or_else(
        || roof_control_points(plan.scene.building, plan.scene.roof),
        |roof| ordinary_control_points(plan.scene.building, roof),
    );
    let intrinsics = camera.intrinsics;
    for point in points {
        let relative = [point[0] - position[0], point[1] - position[1], point[2] - position[2]];
        let depth = -dot(relative, back);
        if depth <= 0.0 {
            return None;
        }
        let image_x = f(intrinsics.fx) * dot(relative, right) / depth + f(intrinsics.cx);
        let image_y = f(intrinsics.cy) - f(intrinsics.fy) * dot(relative, up) / depth;
        bounds.0 = bounds.0.min(image_x);
        bounds.1 = bounds.1.max(image_x);
        bounds.2 = bounds.2.min(image_y);
        bounds.3 = bounds.3.max(image_y);
    }
    Some(bounds)
}

fn is_cropped(
    intent: FramingIntent,
    bounds: (f32, f32, f32, f32),
    intrinsics: CameraIntrinsics,
) -> bool {
    match intent {
        FramingIntent::PartialLeft => bounds.0 < 0.0,
        FramingIntent::PartialRight => bounds.1 > intrinsics.width as f32,
        FramingIntent::PartialTop => bounds.2 < 0.0,
        FramingIntent::PartialBottom => bounds.3 > intrinsics.height as f32,
        FramingIntent::Centered => true,
    }
}

fn has_code(report: &ValidationReport, code: &str) -> bool {
    report.issues.iter().any(|issue| issue.code == code)
}

#[test]
fn deterministic_sampling_is_byte_identical() {
    let sampler = sampler();
    let first = target(&sampler, 42);
    let second = target(&sampler, 42);

    assert_eq!(first, second);
    assert_eq!(format!("{first:?}"), format!("{second:?}"));
    assert!(f(first.scene.roof.crown_top_width_m) < f(first.scene.roof.shoulder_width_m));
    assert!(f(first.scene.roof.crown_top_depth_m) < f(first.scene.roof.shoulder_depth_m));
    assert_eq!(first.sequence_id, "seq-fa9539a22cfcb329");
    assert_eq!(first.config_fingerprint, "stable64:402bbb3703bce52f");
    assert_eq!(first.scene.roof.eave_width_m.to_bits(), 1_103_896_300);
}

#[test]
fn independent_substreams_localize_configuration_changes() {
    let default_sampler = sampler();
    let mut changed_config = GeneratorConfig::default();
    changed_config.occluders.count = U32Range::new(0, 0);
    let changed_sampler = sampler_of(changed_config).unwrap();
    let default_plan = target(&default_sampler, 777);
    let changed_plan = target(&changed_sampler, 777);

    assert_eq!(default_plan.scene.building, changed_plan.scene.building);
    assert_eq!(default_plan.scene.roof, changed_plan.scene.roof);
    assert_eq!(default_plan.scene.roof_material, changed_plan.scene.roof_material);
    assert_eq!(default_plan.scene.wall_material, changed_plan.scene.wall_material);
    assert_eq!(default_plan.scene.lighting, changed_plan.scene.lighting);
    assert_eq!(default_plan.frames, changed_plan.frames);
    assert_ne!(default_plan.scene.occluders, changed_plan.scene.occluders);
    assert_ne!(default_plan.config_fingerprint, changed_plan.config_fingerprint);
}

#[test]
fn records_round_trip_and_validate_as_a_sequence() {
    let sampler = sampler();
    let manifest = manifest(&sampler);
    assert!(manifest.validate().is_valid());

    let plan = target(&sampler, 9_821);
    let split = plan.split(&manifest.split_policy).unwrap();
    let frames = target_frames(&plan, split);
    let camera_motion = plan.camera_motion;
    let sequence = plan.into_record(&manifest.split_policy).unwrap();
    assert_eq!(sequence.camera_motion, camera_motion);
    let turns = turns_of(&sequence.scene);
    let report = DatasetValidator::new(&manifest).validate_sequence(&sequence, &turns, &frames);
    assert!(report.is_valid(), "{}", report.message());
    assert_eq!(report.warning_count(), 0);
}

#[test]
fn sequence_source_assets_must_resolve_in_the_manifest() {
    let sampler = sampler();
    let mut manifest = manifest(&sampler);
    let mut request = SequenceRequest::procedural("classic_two_stage", 9_822, TargetKind::Target);
    request.source_asset_group = Some("site-textures-a".to_owned());
    let plan = sample(&sampler, request);
    let split = plan.split(&manifest.split_policy).unwrap();
    let frames = target_frames(&plan, split);
    let mut sequence = plan.into_record(&manifest.split_policy).unwrap();
    let turns = turns_of(&sequence.scene);
    sequence.scene.composition.source_asset_ids = vec!["ground-asphalt-01".to_owned()];

    let unresolved = DatasetValidator::new(&manifest).validate_sequence(&sequence, &turns, &frames);
    assert!(has_code(&unresolved, "unknown_source_asset_id"));

    manifest.source_assets.push(SourceAsset {
        id: "ground-asphalt-01".to_owned(),
        kind: SourceAssetKind::Texture,
        content_hash: "blake3:0123456789abcdef".to_owned(),
        license: "internal-training".to_owned(),
        split_group: Some("wrong-group".to_owned()),
    });
    let mismatched = DatasetValidator::new(&manifest).validate_sequence(&sequence, &turns, &frames);
    assert!(has_code(&mismatched, "source_asset_group_mismatch"));

    manifest.source_assets[0].split_group = Some("site-textures-a".to_owned());
    let resolved = DatasetValidator::new(&manifest).validate_sequence(&sequence, &turns, &frames);
    assert!(resolved.is_valid(), "{}", resolved.message());
}

#[test]
fn validator_reports_multiple_corruptions() {
    let sampler = sampler();
    let manifest = manifest(&sampler);
    let plan = target(&sampler, 12);
    let split = plan.split(&manifest.split_policy).unwrap();
    let mut frame = target_frames(&plan, split).remove(0);
    frame.camera.world_from_camera = RigidTransform {
        translation: Vec3::new(s(f32::NAN), s(0.0), s(0.0)),
        rotation_xyzw: [s(0.0), s(0.0), s(0.0), s(1.0)],
    };
    frame.assets.rgb.path = "../escape.jpg".to_owned();
    frame.labels.keypoints[0].image_position = Some(Vec2::new(s(1.5), s(0.5)));
    frame.labels.dense.face_id_map = None;

    let report = DatasetValidator::new(&manifest).validate_frame(&frame);
    assert!(!report.is_valid());
    assert!(has_code(&report, "invalid_camera_transform"));
    assert!(has_code(&report, "unsafe_asset_path"));
    assert!(has_code(&report, "invalid_visible_projection"));
    assert!(has_code(&report, "orphan_face_coordinates"));
}

#[test]
fn validator_rejects_any_target_geometry_on_negative_frames() {
    let sampler = sampler();
    let manifest = manifest(&sampler);
    let plan = target(&sampler, 99);
    let split = plan.split(&manifest.split_policy).unwrap();
    let mut frame = target_frames(&plan, split).remove(0);
    frame.locator = LocatorLabel {
        target_kind: TargetKind::Negative,
        bounding_box: None,
        amodal_bounding_box: None,
        visible_fraction: s(0.0),
        occluded_fraction: s(0.0),
        truncated: false,
    };

    let report = DatasetValidator::new(&manifest).validate_frame(&frame);
    assert!(!report.is_valid());
    assert!(has_code(&report, "negative_has_target_geometry"));
}

#[test]
fn invalid_config_is_rejected_before_rng_is_touched() {
    let mut config = GeneratorConfig::default();
    config.camera.distance_m.min = s(f32::NAN);
    let error = sampler_of(config).expect_err("NaN config must fail");
    assert!(error.message().contains("invalid generator configuration"));
}

#[test]
fn split_policy_is_independent_of_frame_count() {
    let policy = SplitPolicy::default();
    let original = target(&sampler(), 55);
    let shorter = target(&short_sampler(3), 55);
    assert_eq!(original.split(&policy), shorter.split(&policy));
}

#[test]
fn sequence_ids_cover_target_intent_and_generator_configuration() {
    let default_sampler = sampler();
    let near_miss =
        SequenceRequest::procedural("classic_two_stage", 55, TargetKind::NearMiss);
    let negative = SequenceRequest::procedural("classic_two_stage", 55, TargetKind::Negative);
    let mut changed_config = GeneratorConfig::default();
    changed_config.sequence.frame_interval_ms += 1;
    let changed_sampler = sampler_of(changed_config).unwrap();

    let ids = BTreeSet::from([
        target(&default_sampler, 55).sequence_id,
        sample(&default_sampler, near_miss).sequence_id,
        sample(&default_sampler, negative).sequence_id,
        target(&changed_sampler, 55).sequence_id,
    ]);
    assert_eq!(ids.len(), 4);
}

#[test]
fn negative_requests_sample_only_explicit_ordinary_roofs() {
    let sampler = sampler();
    for family in OrdinaryRoofFamily::ALL {
        let plan = ordinary(&sampler, family, 10_000 + family as u64);

        assert_eq!(plan.scene.ordinary_roof.unwrap().family, family);
        assert!(plan.roof_instance().is_none());
        assert!(check(&plan).is_valid());
    }
    let target = target(&sampler, 22);
    assert!(target.scene.ordinary_roof.is_none());
    assert!(target.roof_instance().is_some());
}

#[test]
fn paired_target_and_negative_share_scale_framing_and_occluder_distributions() {
    let sampler = sampler();
    let mut family_counts = BTreeMap::new();
    let mut target_kind_counts = BTreeMap::new();
    let mut negative_kind_counts = BTreeMap::new();

    for seed in 0..512_u64 {
        let family = OrdinaryRoofFamily::ALL[seed as usize % OrdinaryRoofFamily::ALL.len()];
        let target = target(&sampler, seed);
        let negative = ordinary(&sampler, family, seed);
        let roof = negative.scene.ordinary_roof.unwrap();

        let (left, right) = (target.scene.building, negative.scene.building);
        assert_eq!(left.footprint_width_m, right.footprint_width_m);
        assert_eq!(left.footprint_depth_m, right.footprint_depth_m);
        assert_eq!(left.wall_height_m, right.wall_height_m);
        assert_eq!(target.scene.roof, negative.scene.roof);
        assert_eq!(roof.eave_width_m, target.scene.roof.eave_width_m);
        assert_eq!(roof.eave_depth_m, target.scene.roof.eave_depth_m);
        assert_eq!(
            (f(roof.eave_width_m) - f(right.footprint_width_m)) * 0.5,
            (f(target.scene.roof.eave_width_m) - f(left.footprint_width_m)) * 0.5,
        );
        assert_eq!(
            negative.camera_motion.target_width_fraction_goal,
            target.camera_motion.target_width_fraction_goal,
        );
        assert_eq!(negative.camera_motion.apparent_scale, target.camera_motion.apparent_scale);
        assert_eq!(negative.camera_motion.framing_intent, target.camera_motion.framing_intent);

        let target_kinds: Vec<OccluderKind> =
            target.scene.occluders.iter().map(|occluder| occluder.kind).collect();
        let negative_kinds: Vec<OccluderKind> =
            negative.scene.occluders.iter().map(|occluder| occluder.kind).collect();
        assert_eq!(target_kinds, negative_kinds);
        assert!(target_kinds.iter().all(|kind| *kind != OccluderKind::RooftopEquipment));
        for kind in target_kinds {
            *target_kind_counts.entry(format!("{kind:?}")).or_insert(0) += 1;
        }
        for kind in negative_kinds {
            *negative_kind_counts.entry(format!("{kind:?}")).or_insert(0) += 1;
        }
        *family_counts.entry(roof.family.as_str()).or_insert(0) += 1;
    }

    assert_eq!(target_kind_counts, negative_kind_counts);
    assert_eq!(family_counts.len(), OrdinaryRoofFamily::ALL.len());
    assert!(family_counts.values().all(|count| *count >= 73));
}

#[test]
fn rooftop_equipment_cannot_be_the_only_new_dataset_occluder() {
    let mut config = GeneratorConfig::default();
    config.occluders.choices =
        vec![OccluderChoice { kind: OccluderKind::RooftopEquipment, weight: 1 }];
    let error = sampler_of(config).unwrap_err().message();
    assert!(error.contains("non-rooftop occluder choice"));
}

#[test]
fn color_temperature_never_escapes_custom_weather_bounds() {
    let mut config = GeneratorConfig::default();
    for weather in &mut config.composition.weather.profiles {
        weather.color_temperature_k = range(1_800.0, 2_500.0);
    }
    let sampler = sampler_of(config).unwrap();
    let mut twilight_samples = 0;
    for seed in 0..512 {
        let plan = target(&sampler, seed);
        let environment = plan.scene.composition.environment.unwrap();
        assert!((1_800.0..=2_500.0).contains(&f(environment.color_temperature_k)));
        if environment.day_phase == DayPhase::Twilight {
            twilight_samples += 1;
        }
    }
    assert!(twilight_samples > 20);
}

#[test]
fn sampled_spatial_plans_are_clear_and_ground_contained() {
    let sampler = sampler();
    for seed in [2_u64, 13, 12_823] {
        let report = check(&target(&sampler, seed));
        assert!(report.is_valid(), "known regression seed {seed}: {}", report.message());
    }
    for seed in 0..2_500 {
        let report = check(&target(&sampler, seed));
        assert!(report.is_valid(), "seed {seed}: {}", report.message());
    }
}

#[test]
fn further_sampled_spatial_plans_are_clear_and_ground_contained() {
    let sampler = sampler();
    for seed in 2_500..5_000 {
        let report = check(&target(&sampler, seed));
        assert!(report.is_valid(), "seed {seed}: {}", report.message());
    }
}

#[test]
fn partial_framing_crops_the_declared_image_edge() {
    let sampler = sampler();
    let mut partial_sequences = 0_u32;
    let mut partial_frames = 0_u32;
    for seed in 0..5_000 {
        let intent = sample_camera_choices(seed, sampler.config().camera).framing_intent;
        if intent == FramingIntent::Centered {
            continue;
        }
        let plan = target(&sampler, seed);
        assert_eq!(plan.camera_motion.framing_intent, intent);
        partial_sequences += 1;
        for (frame_index, frame) in plan.frames.iter().enumerate() {
            let bounds = projected_roof_bounds(&plan, frame_index).unwrap_or_else(|| {
                panic!("seed {seed}, frame {frame_index}: roof point behind camera")
            });
            assert!(
                is_cropped(intent, bounds, frame.camera.intrinsics),
                "seed {seed}, frame {frame_index}, intent {intent:?}, bounds {bounds:?}"
            );
            partial_frames += 1;
        }
    }
    assert!(partial_sequences > 300);
    assert!(partial_sequences < 500);
    assert!(partial_frames > 7_200);
    assert!(partial_frames < 12_000);
}

#[test]
fn negative_partial_framing_uses_the_rendered_ordinary_roof() {
    let sampler = sampler();
    let mut checked = 0_u32;
    for seed in 0..1_000_u64 {
        let family = OrdinaryRoofFamily::ALL[seed as usize % OrdinaryRoofFamily::ALL.len()];
        let plan = ordinary(&sampler, family, seed);
        let intent = plan.camera_motion.framing_intent;
        if intent == FramingIntent::Centered {
            continue;
        }
        for (frame_index, frame) in plan.frames.iter().enumerate() {
            let bounds = projected_roof_bounds(&plan, frame_index).unwrap();
            assert!(
                is_cropped(intent, bounds, frame.camera.intrinsics),
                "seed {seed}, family {family:?}, frame {frame_index}, bounds {bounds:?}"
            );
            checked += 1;
        }
    }
    assert!(checked > 1_200);
    assert!(checked < 2_600);
}

#[test]
fn realism_plans_stay_valid_and_camera_motion_is_coherent() {
    let sampler = sampler();
    for seed in 0..384 {
        let plan = target(&sampler, seed);
        let report = check(&plan);
        assert!(report.is_valid(), "seed {seed}: {}", report.message());

        let fovs: Vec<f32> = plan
            .frames
            .iter()
            .map(|frame| {
                let intrinsics = frame.camera.intrinsics;
                2.0 * (intrinsics.width as f32 / (2.0 * f(intrinsics.fx))).atan()
            })
            .collect();
        match plan.camera_motion.zoom_behavior {
            ZoomBehavior::Fixed => {
                assert!((fovs.first().unwrap() - fovs.last().unwrap()).abs() < 0.002);
            }
            ZoomBehavior::SmoothIn => {
                assert!(fovs.windows(2).all(|pair| pair[1] <= pair[0] + 1.0e-6));
            }
            ZoomBehavior::SmoothOut => {
                assert!(fovs.windows(2).all(|pair| pair[1] + 1.0e-6 >= pair[0]));
            }
        }
        let environment = plan.scene.composition.environment.unwrap();
        if environment.day_phase == DayPhase::Night {
            assert_eq!(f(plan.scene.lighting.sun_intensity), 0.0);
            assert!(f(plan.scene.lighting.sun_elevation_degrees) <= -6.0);
            assert!(f(environment.artificial_light_strength) > 0.0);
        }
    }
}

fn names(items: &[&str]) -> BTreeSet<String> {
    items.iter().map(|item| (*item).to_owned()).collect()
}

#[test]
fn defaults_generate_all_required_categorical_regimes() {
    let sampler = sampler();
    let mut phases = BTreeSet::new();
    let mut domains = BTreeSet::new();
    let mut weather = BTreeSet::new();
    let mut roof_materials = BTreeSet::new();
    let mut signs = BTreeSet::new();
    let mut camera_paths = BTreeSet::new();
    let mut framing = BTreeSet::new();
    let mut apparent_scales = BTreeSet::new();
    let mut occluder_placements = BTreeSet::new();

    for seed in 0..2_000 {
        let plan = target(&sampler, seed);
        let environment = plan.scene.composition.environment.unwrap();
        phases.insert(format!("{:?}", environment.day_phase));
        domains.insert(format!("{:?}", environment.domain));
        weather.insert(format!("{:?}", environment.weather));
        roof_materials.insert(plan.scene.roof_material.id.clone());
        signs.insert(
            plan.scene
                .composition
                .signage
                .first()
                .map_or_else(|| "Blank".to_owned(), |sign| format!("{:?}", sign.kind)),
        );
        camera_paths.insert(format!("{:?}", plan.camera_motion.path_kind));
        framing.insert(format!("{:?}", plan.camera_motion.framing_intent));
        apparent_scales.insert(format!("{:?}", plan.camera_motion.apparent_scale));
        occluder_placements
            .extend(plan.scene.occluders.iter().map(|item| format!("{:?}", item.placement)));
    }

    assert_eq!(phases, names(&["Day", "Night", "Twilight"]));
    assert_eq!(domains, names(&["City", "Remote", "Roadside", "Suburban", "Urban"]));
    assert_eq!(weather.len(), 5);
    for required in [
        "original_red",
        "faded_red",
        "terracotta_orange",
        "weathered_tan_brown",
        "light_metal",
        "repainted_neutral",
        "repainted_dark",
        "repainted_blue",
        "repainted_green",
    ] {
        assert!(roof_materials.contains(required), "missing {required}");
    }
    assert_eq!(signs, names(&["Blank", "PizzaHut", "RebrandedTenant", "RemovedGhost"]));
    assert_eq!(camera_paths.len(), 4);
    assert_eq!(framing.len(), 5);
    assert_eq!(apparent_scales, names(&["Close", "Distant", "Normal", "Partial"]));
    assert_eq!(occluder_placements, names(&["Foreground", "Site"]));
}

#[test]
fn building_extensions_are_class_independent_and_structurally_valid() {
    let sampler = short_sampler(1);
    let mut plans_with_extensions = 0_u32;
    let mut kinds = BTreeSet::new();
    let mut roofs = BTreeSet::new();

    for seed in 0..1_000 {
        let target = target(&sampler, seed);
        let negative = ordinary(&sampler, OrdinaryRoofFamily::Flat, seed);
        assert_eq!(
            target.scene.composition.building_extensions,
            negative.scene.composition.building_extensions,
            "target class changed extension sampling for seed {seed}"
        );
        assert!(check(&target).is_valid(), "target seed {seed}");
        assert!(check(&negative).is_valid(), "negative seed {seed}");

        if !target.scene.composition.building_extensions.is_empty() {
            plans_with_extensions += 1;
        }
        for extension in &target.scene.composition.building_extensions {
            kinds.insert(format!("{:?}", extension.kind));
            roofs.insert(format!("{:?}", extension.roof));
        }
    }

    assert!((400..=560).contains(&plans_with_extensions));
    assert_eq!(kinds, names(&["DiningWing", "EntranceVestibule", "ServiceAnnex"]));
    assert_eq!(roofs, names(&["Flat", "Shed"]));
}

#[derive(Default)]
struct Aggregate {
    samples: u32,
    backgrounds: u32,
    vegetation: u32,
    parking: u32,
}

#[test]
fn site_domains_produce_distinct_correlated_density() {
    let sampler = sampler();
    let mut by_domain = BTreeMap::<String, Aggregate>::new();
    for seed in 0..2_500 {
        let plan = target(&sampler, seed);
        let composition = &plan.scene.composition;
        let environment = composition.environment.unwrap();
        let infrastructure = composition.infrastructure.as_ref().unwrap();
        let aggregate = by_domain.entry(format!("{:?}", environment.domain)).or_default();
        aggregate.samples += 1;
        aggregate.backgrounds += composition.background_buildings.len() as u32;
        aggregate.vegetation += composition.vegetation.len() as u32;
        aggregate.parking += infrastructure.parking_bays;
    }
    let average = |domain: &str, field: fn(&Aggregate) -> u32| {
        let aggregate = &by_domain[domain];
        field(aggregate) as f32 / aggregate.samples as f32
    };
    assert!(
        average("City", |value| value.backgrounds)
            > average("Remote", |value| value.backgrounds) + 4.0
    );
    assert!(
        average("Remote", |value| value.vegetation)
            > average("City", |value| value.vegetation) + 7.0
    );
    assert!(
        average("Suburban", |value| value.parking) > average("City", |value| value.parking) + 10.0
    );
}

fn assert_camera_path_clears_sampled_clutter(plan: &SequencePlan) {
    let vegetation = &plan.scene.composition.vegetation;
    let occluders = &plan.scene.occluders;
    let turns = turns_of(&plan.scene).occluders;
    let seed = plan.request.building_seed;
    let mut previous = None;
    for frame in &plan.frames {
        let position = frame.camera.world_from_camera.translation;
        let index = frame.frame_index;
        assert!(
            !camera_point_intersects_vegetation(position, vegetation),
            "seed {seed} frame {index} intersects composition vegetation",
        );
        assert!(
            !camera_point_intersects_occluders(position, occluders, &turns),
            "seed {seed} frame {index} intersects a sampled occluder",
        );
        if let Some(start) = previous {
            assert!(
                !camera_segment_intersects_vegetation(start, position, vegetation),
                "seed {seed} segment ending at frame {index} intersects composition vegetation",
            );
            assert!(
                !camera_segment_intersects_occluders(start, position, occluders, &turns),
                "seed {seed} segment ending at frame {index} intersects a sampled occluder",
            );
        }
        previous = Some(position);
    }
}

#[test]
fn look_at_produces_valid_transform() {
    let transform =
        look_at(Vec3::new(s(4.0), s(2.0), s(7.0)), Vec3::new(s(0.0), s(5.0), s(0.0)));
    assert!(transform.is_valid());
}

#[test]
fn seed_2713_camera_clears_the_sampled_evergreen() {
    let plan = target(&short_sampler(1), 2713);

    assert!(
        plan.scene
            .composition
            .vegetation
            .iter()
            .any(|item| item.kind == VegetationKind::EvergreenTree),
        "the regression seed must retain its composition evergreens",
    );
    assert_camera_path_clears_sampled_clutter(&plan);
    assert!(check(&plan).is_valid());
}

#[test]
fn bounded_seed_sweep_keeps_camera_paths_clear_of_sampled_clutter() {
    let sampler = short_sampler(5);
    for seed in 0..512_u64 {
        let target_kind = if seed % 2 == 0 { TargetKind::Target } else { TargetKind::Negative };
        let request = SequenceRequest::procedural("classic_two_stage", seed, target_kind);
        let plan = sample(&sampler, request);
        assert_camera_path_clears_sampled_clutter(&plan);
        assert!(check(&plan).is_valid(), "seed {seed} generated an invalid plan");
    }
}

fn assert_near(value: f32, expected: f32) {
    let tolerance = 2.0e-5 * expected.abs().max(1.0);
    assert!(
        (value - expected).abs() <= tolerance,
        "expected {value} to be within {tolerance} of {expected}"
    );
}

fn holds(range: FloatRange, value: f32) -> bool {
    range.contains(s(value))
}

fn assert_profile_envelope(
    config: &GeneratorConfig,
    profile: RoofMorphologyProfile,
    plan: &SequencePlan,
) {
    let building = plan.scene.building;
    let roof = plan.scene.roof;
    assert_eq!(roof.morphology, profile.morphology);

    let width = f(building.footprint_width_m);
    let depth = f(building.footprint_depth_m);
    assert!(holds(profile.footprint_aspect_ratio, width / depth));
    assert!(holds(config.scene.footprint_width_m, width));
    assert!(holds(config.scene.footprint_depth_m, depth));

    let width_overhang = (f(roof.eave_width_m) - width) * 0.5;
    let depth_overhang = (f(roof.eave_depth_m) - depth) * 0.5;
    assert_near(width_overhang, depth_overhang);
    assert!(holds(profile.overhang_m, width_overhang));
    assert!(holds(config.roof.overhang_m, width_overhang));

    for (value, profile_range, global_range) in [
        (
            f(roof.shoulder_width_m) / f(roof.eave_width_m),
            profile.shoulder_width_fraction,
            config.roof.shoulder_width_fraction,
        ),
        (
            f(roof.shoulder_depth_m) / f(roof.eave_depth_m),
            profile.shoulder_depth_fraction,
            config.roof.shoulder_depth_fraction,
        ),
        (
            f(roof.crown_top_width_m) / f(roof.shoulder_width_m),
            profile.crown_top_width_fraction,
            config.roof.crown_top_width_fraction,
        ),
        (
            f(roof.crown_top_depth_m) / f(roof.shoulder_depth_m),
            profile.crown_top_depth_fraction,
            config.roof.crown_top_depth_fraction,
        ),
        (f(roof.lower_rise_m), profile.lower_rise_m, config.roof.lower_rise_m),
        (f(roof.upper_rise_m), profile.upper_rise_m, config.roof.upper_rise_m),
    ] {
        assert!(holds(profile_range, value));
        assert!(holds(global_range, value));
    }

    assert!(f(roof.crown_top_width_m) < f(roof.shoulder_width_m));
    assert!(f(roof.shoulder_width_m) < f(roof.eave_width_m));
    assert!(f(roof.crown_top_depth_m) < f(roof.shoulder_depth_m));
    assert!(f(roof.shoulder_depth_m) < f(roof.eave_depth_m));
}

#[test]
fn sweep_draws_every_correlated_profile_within_its_envelope() {
    let mut config = GeneratorConfig::default();
    config.sequence.frame_count = 1;
    let sampler = sampler_of(config.clone()).unwrap();
    let mut observed = BTreeSet::new();

    for seed in 0..4_096 {
        let plan = target(&sampler, seed);
        let profile = config
            .roof
            .profiles
            .iter()
            .find(|profile| profile.morphology == plan.scene.roof.morphology)
            .copied()
            .unwrap();
        assert_profile_envelope(&config, profile, &plan);
        assert!(check(&plan).is_valid());
        observed.insert(format!("{:?}", plan.scene.roof.morphology));
    }

    assert_eq!(
        observed,
        names(&[
            "TallEarlyCrown",
            "NearSquareTall",
            "BalancedClassic",
            "LowWideLate",
            "ShallowRemodelled",
        ])
    );
}

#[test]
fn each_profile_is_byte_deterministic_for_fixed_seeds() {
    for morphology in [
        RoofMorphology::TallEarlyCrown,
        RoofMorphology::BalancedClassic,
        RoofMorphology::LowWideLate,
    ] {
        let mut config = GeneratorConfig::default();
        config.sequence.frame_count = 2;
        config.roof.profiles.retain(|profile| profile.morphology == morphology);
        config.roof.profiles[0].weight = 1;
        let sampler = sampler_of(config).unwrap();

        for seed in [0, 1, 42, 7_777, u32::MAX as u64] {
            let first = target(&sampler, seed);
            let second = target(&sampler, seed);
            assert_eq!(first.scene.roof.morphology, morphology);
            assert_eq!(first, second);
            assert_eq!(format!("{first:?}"), format!("{second:?}"));
        }
    }
}

#[test]
fn invalid_profile_distributions_are_rejected_before_sampling() {
    let mut empty = GeneratorConfig::default();
    empty.roof.profiles.clear();
    assert!(sampler_of(empty).is_err());

    let mut duplicate = GeneratorConfig::default();
    duplicate.roof.profiles[1].morphology = duplicate.roof.profiles[0].morphology;
    assert!(sampler_of(duplicate).is_err());

    let mut disjoint = GeneratorConfig::default();
    disjoint.roof.profiles[0].overhang_m = range(5.0, 6.0);
    assert!(sampler_of(disjoint).is_err());

    let mut impossible_aspect = GeneratorConfig::default();
    impossible_aspect.roof.profiles[0].footprint_aspect_ratio = range(5.0, 6.0);
    assert!(sampler_of(impossible_aspect).is_err());
}

fn color_bits(color: [Single; 3]) -> [u32; 3] {
    color.map(Single::to_bits)
}

#[test]
fn one_named_material_produces_continuous_deterministic_colours() {
    let mut config = GeneratorConfig::default();
    config.sequence.frame_count = 1;
    config.materials.roof.truncate(1);
    config.materials.roof[0].weight = 1;
    config.materials.walls.truncate(1);
    config.materials.walls[0].weight = 1;
    let roof_choice = config.materials.roof[0].clone();
    let wall_choice = config.materials.walls[0].clone();
    let sampler = sampler_of(config).unwrap();
    let mut roof_colours = HashSet::new();
    let mut wall_colours = HashSet::new();

    for seed in 0..64 {
        let first = target(&sampler, seed);
        let repeated = target(&sampler, seed);
        assert_eq!(first, repeated);

        for (sampled, choice) in [
            (&first.scene.roof_material, &roof_choice),
            (&first.scene.wall_material, &wall_choice),
        ] {
            assert_eq!(sampled.id, choice.id);
            let variation = f(choice.base_color_variation);
            for (channel, base) in sampled.base_color_srgb.iter().zip(choice.base_color_srgb) {
                let minimum = f(base) * (1.0 - variation);
                let maximum = (f(base) * (1.0 + variation)).min(1.0);
                assert!(f(*channel) >= minimum && f(*channel) <= maximum);
            }
        }
        roof_colours.insert(color_bits(first.scene.roof_material.base_color_srgb));
        wall_colours.insert(color_bits(first.scene.wall_material.base_color_srgb));
    }

    assert!(roof_colours.len() > 48);
    assert!(wall_colours.len() > 48);
}

#[test]
fn materials_without_variation_keep_their_exact_colours() {
    let mut config = GeneratorConfig::default();
    config.sequence.frame_count = 1;
    for choice in config.materials.roof.iter_mut().chain(&mut config.materials.walls) {
        choice.base_color_variation = s(0.0);
    }
    let roof_palette = config.materials.roof.clone();
    let wall_palette = config.materials.walls.clone();
    let sampler = sampler_of(config).unwrap();

    for seed in 0..32 {
        let plan = target(&sampler, seed);
        let roof = plan.scene.roof_material;
        let wall = plan.scene.wall_material;
        let roof_choice = roof_palette.iter().find(|choice| choice.id == roof.id).unwrap();
        let wall_choice = wall_palette.iter().find(|choice| choice.id == wall.id).unwrap();
        assert_eq!(roof.base_color_srgb, roof_choice.base_color_srgb);
        assert_eq!(wall.base_color_srgb, wall_choice.base_color_srgb);
    }
}

#[test]
fn excessive_material_colour_variation_is_rejected() {
    let mut config = GeneratorConfig::default();
    config.materials.roof[0].base_color_variation = s(0.51);
    let report = config.validate();
    assert!(!report.is_valid());
    assert!(report.message().contains("base_color_variation"));
}

#[test]
fn default_generator_configuration_is_valid() {
    assert!(GeneratorConfig::default().validate().is_valid());
}

#[test]
fn standard_configuration_has_no_finding() {
    assert!(GeneratorConfig::default().validate().issues.is_empty());
    let encoded = b"any encoding of it";
    assert!(SequenceSampler::new(GeneratorConfig::default(), encoded).is_ok());

    let mut swapped = GeneratorConfig::default();
    swapped.scene.wall_height_m =
        range(f(swapped.scene.wall_height_m.max), f(swapped.scene.wall_height_m.min));
    assert_eq!(swapped.validate().error_count(), 1);
    match SequenceSampler::new(swapped, encoded) {
        Err(SamplingError::InvalidConfig(report)) => {
            assert_eq!(report.issues[0].path, "scene.wall_height_m");
        }
        _ => panic!("a range from high to low was accepted"),
    }
}

#[test]
fn configuration_collects_multiple_failures() {
    let mut config = GeneratorConfig::default();
    config.image.width = 0;
    config.roof.lower_rise_m = range(4.0, 2.0);
    config.materials.roof.clear();
    let report = config.validate();
    assert!(report.error_count() >= 3);
}

#[test]
fn blank_families_are_refused() {
    let request = SequenceRequest::procedural(" \t", 1, TargetKind::Target);
    let error = sampler().sample(request, &turn, &tangent).unwrap_err();
    assert_eq!(error, SamplingError::EmptyBuildingFamily);
    assert_eq!(error.message(), "building family must not be empty");
}

#[test]
fn cameras_inside_the_building_are_refused() {
    let sampler = sampler();
    let mut plan = target(&sampler, 42);
    assert_eq!(check(&plan).error_count(), 0);
    // A camera inside the building is no longer clear of it.
    plan.frames[3].camera.world_from_camera.translation = Vec3::origin();
    assert!(!check(&plan).is_valid());
}

fn turned(angle: Single) -> Turn {
    Turn { cosine: s(f(angle).cos()), sine: s(f(angle).sin()) }
}

fn power(base: Single) -> Single {
    s(f(base).powf(2.4))
}

fn looks_of(scene: &SceneDescription) -> SceneLooks {
    SceneLooks::of(scene, &turned, &power)
}


#[test]
fn every_ordinary_negative_roof_is_unlabelled_render_geometry() {
    let sampler = sampler();
    for (index, family) in OrdinaryRoofFamily::ALL.into_iter().enumerate() {
        let sampled = ordinary(&sampler, family, 40_000 + index as u64).scene;
        let roof = sampled.ordinary_roof.expect("ordinary roof dimensions");
        assert!(glazing_fits(&sampled));
        let description = SceneDescription::from_sampled(&sampled).expect("scene description");
        let looks = looks_of(&description);
        let mesh = RenderMesh::from_ordinary_scene(roof, &description, &looks)
            .expect("ordinary scene mesh");

        assert_eq!(roof.family, family);
        assert!(mesh.vertices.iter().all(|vertex| vertex.semantic_id == 0));
        assert!(mesh.vertices.iter().any(|vertex| vertex.material == MaterialSlot::Roof));
        assert!(mesh.vertices.iter().any(|vertex| {
            vertex.material == MaterialSlot::Roof
                && f(vertex.position[1]) > f(sampled.building.wall_height_m)
        }));
    }
}

#[test]
fn artificial_emission_is_suppressed_by_day_and_scaled_at_twilight() {
    assert_eq!(f(TimeOfDay::Day.emission_scale()), 0.0);
    assert_eq!(f(TimeOfDay::Twilight.emission_scale()), 0.45);
    assert_eq!(f(TimeOfDay::Night.emission_scale()), 1.0);

    let mut sampled = target(&sampler(), 17).scene;
    sampled.composition.infrastructure = None;
    sampled.composition.signage = vec![SampledSignage {
        kind: SignageKind::PizzaHut,
        facade: FacadeSide::Front,
        center: Vec3::new(s(0.0), s(3.0), s(-7.0)),
        size_m: Vec2::new(s(4.0), s(1.2)),
        emissive_strength: s(2.0),
        weathering: s(0.1),
    }];
    let mut environment = sampled.composition.environment.expect("sampled environment");
    environment.artificial_light_strength = s(0.0);
    environment.day_phase = DayPhase::Day;
    sampled.composition.environment = Some(environment);
    let day = SceneDescription::from_sampled(&sampled).unwrap();
    assert!(day.lights.is_empty());
    environment.day_phase = DayPhase::Twilight;
    sampled.composition.environment = Some(environment);
    let twilight = SceneDescription::from_sampled(&sampled).unwrap();
    assert_eq!(twilight.lights.len(), 1);
    assert_eq!(
        f(twilight.lights[0].intensity) * f(TimeOfDay::Twilight.emission_scale()),
        0.9
    );
    environment.day_phase = DayPhase::Night;
    sampled.composition.environment = Some(environment);
    let night = SceneDescription::from_sampled(&sampled).unwrap();
    assert_eq!(night.lights.len(), 1);
    assert_eq!(f(night.lights[0].intensity), 2.0);
}

#[test]
fn sampled_scene_maps_full_composition_into_visible_description() {
    let mut sampled = target(&sampler(), 73).scene;
    let facade = sampled.composition.facade.as_mut().expect("sampled facade");
    facade.entrance_side = FacadeSide::Left;
    facade.weathering = s(0.72);
    let environment = sampled.composition.environment.as_mut().expect("sampled environment");
    environment.day_phase = DayPhase::Night;
    environment.domain = SceneDomain::Remote;
    environment.visibility_km = s(6.5);
    environment.shadow_softness = s(0.81);
    environment.ground_wetness = s(0.64);
    let kinds = [
        OccluderKind::Vegetation,
        OccluderKind::Vehicle,
        OccluderKind::Pole,
        OccluderKind::Sign,
        OccluderKind::Building,
        OccluderKind::Pedestrian,
        OccluderKind::RooftopEquipment,
    ];
    sampled.occluders = kinds
        .into_iter()
        .enumerate()
        .map(|(index, kind)| SampledOccluder {
            kind,
            position: Vec3::new(s(index as f32 * 2.0 - 6.0), s(0.0), s(10.0)),
            yaw_degrees: s(index as f32 * 17.0),
            scale: s(1.0),
            placement: OccluderPlacement::Site,
            nominal_size_m: Vec3::new(s(2.0), s(3.0), s(1.5)),
        })
        .collect();

    let description = SceneDescription::from_sampled(&sampled).unwrap();
    assert_eq!(description.facade.entrance_side, BuildingSide::Left);
    assert_eq!(f(description.facade.weathering), 0.72);
    assert_eq!(description.environment.time_of_day, TimeOfDay::Night);
    assert_eq!(description.environment.domain, EnvironmentDomain::Remote);
    assert_eq!(f(description.environment.visibility_km), 6.5);
    assert_eq!(f(description.environment.shadow_softness), 0.81);
    assert_eq!(f(description.environment.ground_wetness), 0.64);
    assert_ne!(f(description.environment.environment_yaw_radians), 0.0);
    assert_eq!(
        description.site.parking_bays,
        sampled
            .composition
            .infrastructure
            .as_ref()
            .expect("sampled infrastructure")
            .parking_bays
    );
    for expected in [
        SceneOccluderKind::Vegetation,
        SceneOccluderKind::Vehicle,
        SceneOccluderKind::UtilityPole,
        SceneOccluderKind::PoleSign,
        SceneOccluderKind::Building,
        SceneOccluderKind::Pedestrian,
        SceneOccluderKind::Hvac,
    ] {
        assert!(description.occluders.iter().any(|occluder| occluder.kind == expected));
    }
}

#[test]
fn sampled_render_settings_preserve_absolute_light_and_roughness() {
    let mut plan = target(&sampler(), 91);
    plan.scene.lighting.sun_intensity = s(4.75);
    plan.scene.lighting.sky_intensity = s(0.37);
    plan.scene.roof_material.roughness = s(0.61);
    plan.scene.wall_material.roughness = s(0.83);
    let ground = plan.scene.composition.ground_material.as_mut().expect("sampled ground");
    ground.roughness = s(0.92);
    let roof = faded_channel(
        plan.scene.roof_material.base_color_srgb[2],
        plan.scene.roof_material.weathering,
    );
    let raised = RaisedColors::of(&plan.scene, &power);
    assert_eq!(f(raised.roof[2]), f(linear_base(roof)).powf(2.4));
    let sun = SunTurns::of(plan.scene.lighting, &turned);
    assert_eq!(sun.azimuth, turned(radians(plan.scene.lighting.sun_azimuth_degrees)));

    let settings =
        RenderSettings::from_sampled(&plan.scene, plan.frames[0].camera, sun, raised).unwrap();
    assert_eq!(f(settings.direct_light), 4.75);
    assert_eq!(f(settings.ambient_light), 0.37);
    assert_eq!(f(settings.roof_roughness), 0.61);
    assert_eq!(f(settings.wall_roughness), 0.83);
    assert_eq!(f(settings.ground_roughness), 0.92);
}

#[test]
fn grounds_hold_all_content_and_every_camera() {
    let plan = target(&short_sampler(6), 3);
    let turns = turns_of(&plan.scene);
    let cameras = find_camera_positions(&plan.frames);
    let roof = actual_roof_envelope(&plan.scene);
    let extent = |cameras: &Vec<Vec3>| {
        f(sampled_content_half_extent(
            plan.scene.building,
            roof,
            &plan.scene.composition,
            &plan.scene.occluders,
            &turns,
            cameras,
        ))
    };
    let reach = extent(&cameras);
    assert!(extent(&Vec::new()) <= reach);
    for camera in &cameras {
        assert!(f(camera.x).abs() <= reach && f(camera.z).abs() <= reach);
    }
    assert!(f(plan.scene.building.ground_half_extent_m) >= reach);
}

#[test]
fn sampled_details_keep_their_rules() {
    let sampler = short_sampler(2);
    for seed in 0..120 {
        let plan = target(&sampler, seed);
        let composition = &plan.scene.composition;
        let extensions = &composition.building_extensions;
        assert!(extensions.len() <= 2);
        if extensions.len() == 2 {
            assert_eq!(opposite_facade(extensions[0].facade), extensions[1].facade);
        }
        for sign in &composition.signage {
            if sign.kind == SignageKind::RemovedGhost {
                assert_eq!(f(sign.emissive_strength), 0.0);
            }
        }
        let infrastructure = composition.infrastructure.as_ref().unwrap();
        for line in &infrastructure.utility_lines {
            assert_eq!(line.start_pole + 1, line.end_pole);
            assert!(usize::from(line.end_pole) < infrastructure.utility_poles.len());
        }
        for (index, frame) in plan.frames.iter().enumerate() {
            assert_eq!(frame.frame_index as usize, index);
        }
        assert!(plan.frames[0].timestamp_ns < plan.frames[1].timestamp_ns);
        if plan.camera_motion.framing_intent == FramingIntent::Centered {
            assert_eq!(point(plan.camera_motion.framing_offset), [0.0; 3]);
        }
        let description = SceneDescription::from_sampled(&plan.scene).unwrap();
        assert!(description.lights.len() <= 4);
        assert_eq!(description.trees.len(), composition.vegetation.len());
        assert_eq!(description.occluders.len(), plan.scene.occluders.len());
        assert_eq!(sampled_scene_seed(&plan.scene), description.environment.seed);
        assert_ne!(description.environment.seed, 0);
    }
}

#[test]
fn renumbered_frames_are_reported() {
    let sampler = short_sampler(3);
    let mut plan = target(&sampler, 8);
    plan.frames[2].frame_index = 1;
    assert!(!check(&plan).is_valid());
    let mut plan = target(&sampler, 8);
    plan.frames[2].timestamp_ns = 0;
    assert!(!check(&plan).is_valid());
}

#[test]
fn sampled_frames_come_at_their_interval() {
    let mut config = GeneratorConfig::default();
    config.sequence.frame_count = 5;
    config.sequence.frame_interval_ms = 40;
    let plan = target(&sampler_of(config).unwrap(), 12);
    let frames: Vec<(u32, u64)> =
        plan.frames.iter().map(|frame| (frame.frame_index, frame.timestamp_ns)).collect();
    assert_eq!(
        frames,
        [(0, 0), (1, 40_000_000), (2, 80_000_000), (3, 120_000_000), (4, 160_000_000)],
    );
}

#[test]
fn plans_follow_the_functions_they_are_given() {
    let sampler = short_sampler(3);
    let request = || SequenceRequest::procedural("classic_two_stage", 91, TargetKind::Target);
    let plan = sample(&sampler, request());
    assert_eq!(plan, sample(&sampler, request()));
    let mirrored = |angle: Single| {
        let known = turn(angle);
        Turn { cosine: known.cosine.negated(), sine: known.sine }
    };
    let other = sampler.sample(request(), &mirrored, &tangent).unwrap().unwrap();
    assert_eq!(other.scene.roof, plan.scene.roof);
    assert_eq!(other.camera_motion.path_kind, plan.camera_motion.path_kind);
    assert_ne!(other.frames, plan.frames);
}

#[test]
fn limits_are_told_before_sampling() {
    let mut config = GeneratorConfig::default();
    assert!(is_countable(&config));
    assert!(is_timed(config.sequence));
    config.sequence.frame_count = u32::MAX;
    config.sequence.frame_interval_ms = 4_294;
    assert!(is_timed(config.sequence));
    config.sequence.frame_interval_ms = 4_295;
    assert!(!is_timed(config.sequence));
    config.sequence.frame_count = 1;
    config.sequence.frame_interval_ms = u32::MAX;
    assert!(is_timed(config.sequence));
}

#[test]
fn missing_parts_are_all_reported() {
    let mut plan = target(&short_sampler(3), 17);
    assert!(check(&plan).is_valid());
    plan.scene.composition.environment = None;
    plan.scene.composition.infrastructure = None;
    let report = check(&plan);
    assert!(has_code(&report, "missing_sampled_environment"));
    assert!(has_code(&report, "missing_site_infrastructure"));
    plan.scene.composition.ground_material = None;
    plan.scene.composition.facade = None;
    let report = check(&plan);
    assert!(has_code(&report, "missing_sampled_environment"));
    assert!(has_code(&report, "missing_ground_material"));
    assert!(has_code(&report, "missing_sampled_facade"));
    assert!(has_code(&report, "missing_site_infrastructure"));
    assert_eq!(report.error_count(), 4);
}

#[test]
fn infrastructure_is_checked_without_an_environment() {
    let mut plan = target(&short_sampler(3), 17);
    plan.scene.composition.environment = None;
    let sound = check(&plan);
    assert!(has_code(&sound, "missing_sampled_environment"));
    assert!(!has_code(&sound, "invalid_site_infrastructure"));
    plan.scene.composition.infrastructure.as_mut().unwrap().road_lanes = 0;
    assert!(has_code(&check(&plan), "invalid_site_infrastructure"));
}

#[test]
fn infrastructure_has_the_domain_of_its_environment() {
    let mut plan = target(&short_sampler(3), 17);
    let infrastructure = plan.scene.composition.infrastructure.as_mut().unwrap();
    infrastructure.domain = match infrastructure.domain {
        SceneDomain::Remote => SceneDomain::City,
        _ => SceneDomain::Remote,
    };
    assert!(has_code(&check(&plan), "invalid_site_infrastructure"));
}

#[test]
fn weightless_palettes_are_checked_to_the_end() {
    let mut config = GeneratorConfig::default();
    config.materials.roof.truncate(1);
    let material = &mut config.materials.roof[0];
    material.weight = 0;
    material.id = " ".to_owned();
    material.roughness = range(0.9, 0.1);
    let report = config.validate();
    let found: Vec<(&str, &str)> = report
        .issues
        .iter()
        .map(|issue| (issue.code.as_str(), issue.path.as_str()))
        .collect();
    assert_eq!(
        found,
        [
            ("empty_weighted_distribution", "materials.roof"),
            ("invalid_material_id", "materials.roof[0].id"),
            ("invalid_range", "materials.roof[0].roughness"),
        ],
    );
}

#[test]
fn checks_find_the_turns_of_a_scene() {
    let sampler = sampler();
    let manifest = manifest(&sampler);
    let mut plan = target(&sampler, 9_821);
    plan.scene.building.ground_half_extent_m = s(20.0);
    assert_eq!(plan.validate_turned(&turn), check(&plan));
    assert!(!plan.validate_turned(&turn).is_valid());
    let split = plan.split(&manifest.split_policy).unwrap();
    let frames = target_frames(&plan, split);
    let sequence = plan.into_record(&manifest.split_policy).unwrap();
    let turns = turns_of(&sequence.scene);
    let validator = DatasetValidator::new(&manifest);
    assert_eq!(
        validator.validate_sequence_turned(&sequence, &frames, &turn),
        validator.validate_sequence(&sequence, &turns, &frames),
    );
}

#[test]
fn standard_roofs_nest() {
    let sampler = short_sampler(1);
    for seed in 0..64 {
        let roof = target(&sampler, seed).scene.roof;
        assert!(f(roof.crown_top_width_m) > 0.0 && f(roof.crown_top_depth_m) > 0.0);
        assert!(f(roof.crown_top_width_m) < f(roof.shoulder_width_m));
        assert!(f(roof.shoulder_width_m) < f(roof.eave_width_m));
        assert!(f(roof.crown_top_depth_m) < f(roof.shoulder_depth_m));
        assert!(f(roof.shoulder_depth_m) < f(roof.eave_depth_m));
    }
}

#[test]
fn names_of_roof_parameters_ascend() {
    let roof = target(&short_sampler(1), 5).roof_instance().unwrap();
    assert!(roof.parameters.windows(2).all(|pair| pair[0].name < pair[1].name));
    let generator = GeneratorDescriptor::chacha20("roof-synth", "0.1.0", "stable64:0");
    assert!(generator.execution_environment.is_empty());
}
