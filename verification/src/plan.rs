//! Sampled scenes and camera plans, ready to render.

use crate::composition::SampledComposition;
use crate::config::{OccluderKind, RoofMorphology};
use crate::deterministic::stable_hash64;
use crate::record::{
    CameraModel, RoofInstanceRecord, RoofParameter, SequenceFrameRef, SequenceRecord, TargetKind,
};
use crate::single::Single;
use crate::split::{DatasetSplit, SplitKey, SplitPolicy, SplitPolicyError};
use crate::text::{joined, push_hex, push_padded, same_text};
use crate::types::{RigidTransform, Vec3};
use vstd::prelude::*;
use vstd::string::*;

verus! {

/// One deterministic generation request. Every camera view shares this identity.
#[derive(Clone, Debug, PartialEq, Eq)]
pub struct SequenceRequest {
    /// Procedural building/roof family.
    pub building_family: String,
    /// Root seed for the building, scene, and camera sequence.
    pub building_seed: u64,
    /// Accepted target, deliberate near miss, or empty negative.
    pub target_kind: TargetKind,
    /// Optional source asset group that must remain in one split.
    pub source_asset_group: Option<String>,
}

impl SequenceRequest {
    /// Creates a wholly procedural request.
    pub fn procedural(
        building_family: &str,
        building_seed: u64,
        target_kind: TargetKind,
    ) -> (r: Self)
        ensures
            r.building_family@ == building_family@,
            r.building_seed == building_seed,
            r.target_kind == target_kind,
            r.source_asset_group is None,
    {
        SequenceRequest {
            building_family: building_family.to_owned(),
            building_seed,
            target_kind,
            source_asset_group: None,
        }
    }

    /// The key under which a building is split.
    pub open spec fn key(self) -> SplitKey {
        SplitKey {
            building_family: self.building_family,
            building_seed: self.building_seed,
            source_asset_group: self.source_asset_group,
        }
    }

    /// The key under which this building is split.
    pub fn split_key(&self) -> (r: SplitKey)
        ensures
            r == self.key(),
    {
        let source_asset_group = match &self.source_asset_group {
            Some(group) => Some(group.clone()),
            None => None,
        };
        SplitKey {
            building_family: self.building_family.clone(),
            building_seed: self.building_seed,
            source_asset_group,
        }
    }
}

/// Fully sampled building shell.
#[derive(Clone, Copy, Debug, PartialEq, Eq, Structural)]
pub struct SampledBuilding {
    /// Exterior width in metres.
    pub footprint_width_m: Single,
    /// Exterior depth in metres.
    pub footprint_depth_m: Single,
    /// Wall height to the roof eave in metres.
    pub wall_height_m: Single,
    /// Ground-plane half extent in metres, expanded after composition so every
    /// finite scene element and camera position retains an edge margin.
    pub ground_half_extent_m: Single,
}

/// Fully sampled two-stage roof geometry.
///
/// These names intentionally map directly to the shared roof-geometry parameters.
#[derive(Clone, Copy, Debug, PartialEq, Eq, Structural)]
pub struct SampledRoof {
    /// Correlated architectural proportion family used to generate the dimensions.
    pub morphology: RoofMorphology,
    /// Overall eave width in metres.
    pub eave_width_m: Single,
    /// Overall eave depth in metres.
    pub eave_depth_m: Single,
    /// Upper shoulder width in metres.
    pub shoulder_width_m: Single,
    /// Upper shoulder depth in metres.
    pub shoulder_depth_m: Single,
    /// Eave-to-shoulder rise in metres.
    pub lower_rise_m: Single,
    /// Crown-base to crown-top rise in metres.
    pub upper_rise_m: Single,
    /// Full width of the inset crown-top rectangle in metres.
    pub crown_top_width_m: Single,
    /// Full depth of the inset crown-top rectangle in metres.
    pub crown_top_depth_m: Single,
    /// Signed bounded perturbation available to family-specific geometry.
    pub asymmetry_fraction: Single,
}

/// Ordinary non-target roof families used for same-renderer negative examples.
///
/// None of these families contains the target's two stacked rectangular
/// frusta. They deliberately share the target generator's building shell,
/// materials, lighting, signage, and surroundings so roof form remains the
/// discriminating signal.
#[derive(Clone, Copy, Debug, PartialEq, Eq, PartialOrd, Ord, Hash, Structural)]
pub enum OrdinaryRoofFamily {
    /// Nearly level commercial roof with a shallow fascia.
    Flat,
    /// Two planes meeting along a ridge.
    Gable,
    /// Four planes meeting along a shortened ridge.
    Hip,
    /// One continuous mono-pitch plane.
    Shed,
    /// Steep perimeter slopes terminating at one flat top.
    Mansard,
    /// Four planes meeting at a single apex.
    Pyramid,
    /// Conventional hipped roof with a small ventilating cupola.
    Cupola,
}

impl OrdinaryRoofFamily {
    /// Stable order used to balance generated negative corpora.
    pub const ALL: [OrdinaryRoofFamily; 7] = [
        OrdinaryRoofFamily::Flat,
        OrdinaryRoofFamily::Gable,
        OrdinaryRoofFamily::Hip,
        OrdinaryRoofFamily::Shed,
        OrdinaryRoofFamily::Mansard,
        OrdinaryRoofFamily::Pyramid,
        OrdinaryRoofFamily::Cupola,
    ];

    /// Stable request and manifest spelling.
    pub open spec fn name(self) -> Seq<char> {
        match self {
            OrdinaryRoofFamily::Flat => "flat"@,
            OrdinaryRoofFamily::Gable => "gable"@,
            OrdinaryRoofFamily::Hip => "hip"@,
            OrdinaryRoofFamily::Shed => "shed"@,
            OrdinaryRoofFamily::Mansard => "mansard"@,
            OrdinaryRoofFamily::Pyramid => "pyramid"@,
            OrdinaryRoofFamily::Cupola => "cupola"@,
        }
    }

    /// A name, with or without its prefix, spells this family.
    pub open spec fn spelled(self, value: Seq<char>) -> bool {
        value == self.name() || value == "ordinary_"@ + self.name()
    }

    /// The family that a name spells, if it spells one.
    pub open spec fn named(value: Seq<char>) -> Option<OrdinaryRoofFamily> {
        if exists|family: OrdinaryRoofFamily| #[trigger] family.spelled(value) {
            Some(choose|family: OrdinaryRoofFamily| #[trigger] family.spelled(value))
        } else {
            None
        }
    }

    /// The family with a place in the stable order.
    pub open spec fn at(place: int) -> OrdinaryRoofFamily {
        OrdinaryRoofFamily::ALL@[place]
    }

    /// Every family has a place in the stable order.
    pub proof fn order_is_complete(self)
        ensures
            exists|place: int| 0 <= place < 7 && #[trigger] OrdinaryRoofFamily::at(place) == self,
    {
        let all = OrdinaryRoofFamily::ALL@;
        let place: int = match self {
            OrdinaryRoofFamily::Flat => 0,
            OrdinaryRoofFamily::Gable => 1,
            OrdinaryRoofFamily::Hip => 2,
            OrdinaryRoofFamily::Shed => 3,
            OrdinaryRoofFamily::Mansard => 4,
            OrdinaryRoofFamily::Pyramid => 5,
            OrdinaryRoofFamily::Cupola => 6,
        };
        assert(OrdinaryRoofFamily::at(place) == self);
    }

    /// A name spells at most one family.
    pub proof fn spelling_is_unique(self, other: OrdinaryRoofFamily, value: Seq<char>)
        requires
            self.spelled(value),
            other.spelled(value),
        ensures
            self == other,
    {
        reveal_strlit("flat");
        reveal_strlit("gable");
        reveal_strlit("hip");
        reveal_strlit("shed");
        reveal_strlit("mansard");
        reveal_strlit("pyramid");
        reveal_strlit("cupola");
        reveal_strlit("ordinary_");
        let n = "ordinary_"@.len();
        let (a, b) = (self.name(), other.name());
        if value == "ordinary_"@ + a && value == "ordinary_"@ + b {
            assert(value.skip(n as int) =~= a);
            assert(value.skip(n as int) =~= b);
        }
        assert(a == b);
        assert(a.len() == b.len() && a[0] == b[0]);
    }

    /// The family that a building family names, with or without its prefix.
    pub fn from_building_family(value: &str) -> (r: Option<OrdinaryRoofFamily>)
        ensures
            r == OrdinaryRoofFamily::named(value@),
    {
        let all = OrdinaryRoofFamily::ALL;
        let mut i: usize = 0;
        while i < 7
            invariant
                i <= 7,
                all@ == OrdinaryRoofFamily::ALL@,
                forall|j: int| 0 <= j < i ==> !(#[trigger] OrdinaryRoofFamily::at(j)).spelled(
                    value@,
                ),
            decreases 7 - i,
        {
            let family = all[i];
            assert(family == OrdinaryRoofFamily::at(i as int));
            if same_text(value, family.as_str()) || same_text(
                value,
                &joined("ordinary_", family.as_str()),
            ) {
                proof {
                    assert(family.spelled(value@));
                    let named = choose|named: OrdinaryRoofFamily| #[trigger] named.spelled(value@);
                    family.spelling_is_unique(named, value@);
                }
                return Some(family);
            }
            i = i + 1;
        }
        proof {
            assert forall|family: OrdinaryRoofFamily| !#[trigger] family.spelled(value@) by {
                family.order_is_complete();
            }
        }
        None
    }

    /// Stable request and manifest spelling.
    pub fn as_str(self) -> (r: &'static str)
        ensures
            r@ == self.name(),
    {
        match self {
            OrdinaryRoofFamily::Flat => "flat",
            OrdinaryRoofFamily::Gable => "gable",
            OrdinaryRoofFamily::Hip => "hip",
            OrdinaryRoofFamily::Shed => "shed",
            OrdinaryRoofFamily::Mansard => "mansard",
            OrdinaryRoofFamily::Pyramid => "pyramid",
            OrdinaryRoofFamily::Cupola => "cupola",
        }
    }
}

/// Fully sampled dimensions for an ordinary non-target roof.
#[derive(Clone, Copy, Debug, PartialEq, Eq, Structural)]
pub struct SampledOrdinaryRoof {
    /// Procedural roof topology.
    pub family: OrdinaryRoofFamily,
    /// Overall roof width including overhang.
    pub eave_width_m: Single,
    /// Overall roof depth including overhang.
    pub eave_depth_m: Single,
    /// Main vertical rise above the wall plate.
    pub rise_m: Single,
    /// Ridge length as a fraction of eave width for ridge-bearing families.
    pub ridge_length_fraction: Single,
    /// Width/depth fraction of a flat mansard top or cupola body.
    pub inset_fraction: Single,
    /// Additional cupola body/cap height; zero for other families.
    pub cap_height_m: Single,
}

impl SampledOrdinaryRoof {
    /// Highest point above the wall plate, used by camera and clutter planning.
    pub open spec fn spec_maximum_height_m(self) -> Single {
        self.rise_m.plus(self.cap_height_m)
    }

    /// Highest point above the wall plate, used by camera and clutter planning.
    #[verifier::when_used_as_spec(spec_maximum_height_m)]
    pub fn maximum_height_m(self) -> (r: Single)
        ensures
            r == self.spec_maximum_height_m(),
    {
        self.rise_m.plus(self.cap_height_m)
    }
}

impl SampledRoof {
    /// The named parameters of a roof.
    pub open spec fn parameters_are(self, parameters: Seq<RoofParameter>) -> bool {
        &&& parameters.len() == 8
        &&& parameters[0].name@ == "crown_top_depth"@ && parameters[0].value == self.crown_top_depth_m
        &&& parameters[1].name@ == "crown_top_width"@ && parameters[1].value == self.crown_top_width_m
        &&& parameters[2].name@ == "eave_depth"@ && parameters[2].value == self.eave_depth_m
        &&& parameters[3].name@ == "eave_width"@ && parameters[3].value == self.eave_width_m
        &&& parameters[4].name@ == "lower_rise"@ && parameters[4].value == self.lower_rise_m
        &&& parameters[5].name@ == "shoulder_depth"@ && parameters[5].value == self.shoulder_depth_m
        &&& parameters[6].name@ == "shoulder_width"@ && parameters[6].value == self.shoulder_width_m
        &&& parameters[7].name@ == "upper_rise"@ && parameters[7].value == self.upper_rise_m
    }

    /// Returns the exact parameter names that roof geometry consumes.
    pub fn geometry_parameters(self) -> (r: Vec<RoofParameter>)
        ensures
            self.parameters_are(r@),
            crate::text::ascending(crate::record::parameter_names(r@)),
    {
        let r = vec![
            RoofParameter { name: "crown_top_depth".to_owned(), value: self.crown_top_depth_m },
            RoofParameter { name: "crown_top_width".to_owned(), value: self.crown_top_width_m },
            RoofParameter { name: "eave_depth".to_owned(), value: self.eave_depth_m },
            RoofParameter { name: "eave_width".to_owned(), value: self.eave_width_m },
            RoofParameter { name: "lower_rise".to_owned(), value: self.lower_rise_m },
            RoofParameter { name: "shoulder_depth".to_owned(), value: self.shoulder_depth_m },
            RoofParameter { name: "shoulder_width".to_owned(), value: self.shoulder_width_m },
            RoofParameter { name: "upper_rise".to_owned(), value: self.upper_rise_m },
        ];
        proof {
            lemma_parameter_names(r@);
        }
        r
    }
}

/// Fully resolved surface material.
#[derive(Clone, Debug, PartialEq, Eq)]
pub struct SampledMaterial {
    /// Stable palette identifier.
    pub id: String,
    /// Nonlinear sRGB base colour.
    pub base_color_srgb: [Single; 3],
    /// PBR roughness.
    pub roughness: Single,
    /// Weathering amount in `[0, 1]`.
    pub weathering: Single,
}

impl SampledMaterial {
    /// An equal material.
    pub fn duplicate(&self) -> (r: SampledMaterial)
        ensures
            r == *self,
    {
        SampledMaterial {
            id: self.id.clone(),
            base_color_srgb: self.base_color_srgb,
            roughness: self.roughness,
            weathering: self.weathering,
        }
    }
}

/// Fully sampled outdoor illumination.
#[derive(Clone, Copy, Debug, PartialEq, Eq, Structural)]
pub struct SampledLighting {
    /// Sun bearing around world +Y, in degrees.
    pub sun_azimuth_degrees: Single,
    /// Sun elevation in degrees.
    pub sun_elevation_degrees: Single,
    /// Direct-light renderer intensity.
    pub sun_intensity: Single,
    /// Indirect sky renderer intensity.
    pub sky_intensity: Single,
    /// Cloud coverage in `[0, 1]`.
    pub cloud_coverage: Single,
    /// Atmospheric haze in `[0, 1]`.
    pub haze: Single,
}

/// Renderer-independent placement of a coarse occluder category.
#[derive(Clone, Copy, Debug, PartialEq, Eq, Structural)]
pub struct SampledOccluder {
    /// Category later resolved to an asset by the scene renderer.
    pub kind: OccluderKind,
    /// World-space base position.
    pub position: Vec3,
    /// World-Y rotation in degrees.
    pub yaw_degrees: Single,
    /// Uniform asset scale multiplier.
    pub scale: Single,
    /// Camera/site relationship used by composition and coverage checks.
    pub placement: OccluderPlacement,
    /// Approximate width, height, and depth after scaling, in metres.
    pub nominal_size_m: Vec3,
}

/// Placement regime for a coarse occluding object.
#[derive(Clone, Copy, Debug, PartialEq, Eq, Structural)]
pub enum OccluderPlacement {
    /// General site clutter independent of the camera path.
    Site,
    /// Intentionally between the coherent camera path and the target.
    Foreground,
    /// Equipment placed within the roof footprint.
    Rooftop,
}

impl Default for OccluderPlacement {
    fn default() -> (r: Self)
        ensures
            r == OccluderPlacement::Site,
    {
        OccluderPlacement::Site
    }
}

/// Complete scene state shared by every frame in a sequence.
#[derive(Clone, Debug, PartialEq, Eq)]
pub struct SampledScene {
    /// Building envelope.
    pub building: SampledBuilding,
    /// Two-tier target dimensions. In negative scenes these are retained only
    /// as a matched distribution reference; camera planning uses
    /// `ordinary_roof`, which is the geometry actually rendered.
    pub roof: SampledRoof,
    /// Non-target roof rendered for negative scenes. When present it replaces,
    /// rather than relabels, the two-stage target geometry.
    pub ordinary_roof: Option<SampledOrdinaryRoof>,
    /// Roof finish.
    pub roof_material: SampledMaterial,
    /// Wall finish.
    pub wall_material: SampledMaterial,
    /// Lighting environment.
    pub lighting: SampledLighting,
    /// Independent foreground, background, and rooftop clutter.
    pub occluders: Vec<SampledOccluder>,
    /// Correlated site-realism and environmental plan.
    pub composition: SampledComposition,
}

/// Smooth camera-path family shared by a coherent sequence.
#[derive(Clone, Copy, Debug, PartialEq, Eq, Structural)]
pub enum CameraPathKind {
    /// Curved walk around the building.
    Orbit,
    /// Predominantly sideways motion past one façade view.
    LateralWalk,
    /// Simultaneous approach and modest orbit.
    ApproachArc,
    /// Eased orbit that reveals another corner late in the sequence.
    CornerReveal,
}

impl Default for CameraPathKind {
    fn default() -> (r: Self)
        ensures
            r == CameraPathKind::Orbit,
    {
        CameraPathKind::Orbit
    }
}

/// Smooth focal-length behavior over one sequence.
#[derive(Clone, Copy, Debug, PartialEq, Eq, Structural)]
pub enum ZoomBehavior {
    /// Constant horizontal field of view.
    Fixed,
    /// Horizontal field of view decreases smoothly.
    SmoothIn,
    /// Horizontal field of view increases smoothly.
    SmoothOut,
}

impl Default for ZoomBehavior {
    fn default() -> (r: Self)
        ensures
            r == ZoomBehavior::Fixed,
    {
        ZoomBehavior::Fixed
    }
}

/// Deliberate composition intent. Actual coverage remains render-derived ground truth.
#[derive(Clone, Copy, Debug, PartialEq, Eq, Structural)]
pub enum FramingIntent {
    /// Keep the target near the image centre.
    Centered,
    /// Deliberately crop the target's left side.
    PartialLeft,
    /// Deliberately crop the target's right side.
    PartialRight,
    /// Deliberately crop the target's upper side.
    PartialTop,
    /// Deliberately crop the target's lower side.
    PartialBottom,
}

impl Default for FramingIntent {
    fn default() -> (r: Self)
        ensures
            r == FramingIntent::Centered,
    {
        FramingIntent::Centered
    }
}

/// Apparent primary-building scale selected before exact camera placement.
#[derive(Clone, Copy, Debug, PartialEq, Eq, Structural)]
pub enum ApparentScale {
    /// Building roof spans roughly 15--30% of image width.
    Distant,
    /// Building roof spans roughly 30--70% of image width.
    Normal,
    /// Building roof spans roughly 70--95% of image width.
    Close,
    /// Intentional edge truncation.
    Partial,
}

impl Default for ApparentScale {
    fn default() -> (r: Self)
        ensures
            r == ApparentScale::Normal,
    {
        ApparentScale::Normal
    }
}

/// Sequence-level camera plan explaining the exact per-frame poses and intrinsics.
#[derive(Clone, Copy, Debug, PartialEq, Eq, Structural)]
pub struct CameraMotionPlan {
    /// Coherent translation family.
    pub path_kind: CameraPathKind,
    /// Constant or smooth focal-length behavior.
    pub zoom_behavior: ZoomBehavior,
    /// Centered or deliberately partial composition.
    pub framing_intent: FramingIntent,
    /// Distant, normal, close, or deliberately partial framing stratum.
    pub apparent_scale: ApparentScale,
    /// Desired roof-width/image-width ratio used to choose distance. It is an
    /// intent, not a semantic label; values over one deliberately request a crop.
    pub target_width_fraction_goal: Single,
    /// Initial horizontal field of view in degrees.
    pub start_horizontal_fov_degrees: Single,
    /// Final horizontal field of view in degrees.
    pub end_horizontal_fov_degrees: Single,
    /// World-space point of interest before the sampled framing offset.
    pub target_center: Vec3,
    /// World-space aim offset at the sequence midpoint. Curved paths rotate the
    /// corresponding offset in camera right/up space per frame.
    pub framing_offset: Vec3,
    /// Smooth positional sway amplitude in metres.
    pub handheld_sway_m: Single,
}

impl CameraMotionPlan {
    /// The standard values.
    pub open spec fn standard() -> CameraMotionPlan {
        CameraMotionPlan {
            path_kind: CameraPathKind::Orbit,
            zoom_behavior: ZoomBehavior::Fixed,
            framing_intent: FramingIntent::Centered,
            apparent_scale: ApparentScale::Normal,
            target_width_fraction_goal: Single::ratio(5, 10),
            start_horizontal_fov_degrees: Single::ratio(60, 1),
            end_horizontal_fov_degrees: Single::ratio(60, 1),
            target_center: Vec3::origin(),
            framing_offset: Vec3::origin(),
            handheld_sway_m: Single::zero(),
        }
    }
}

impl Default for CameraMotionPlan {
    fn default() -> (r: Self)
        ensures
            r == CameraMotionPlan::standard(),
    {
        CameraMotionPlan {
            path_kind: CameraPathKind::Orbit,
            zoom_behavior: ZoomBehavior::Fixed,
            framing_intent: FramingIntent::Centered,
            apparent_scale: ApparentScale::Normal,
            target_width_fraction_goal: Single::ratio(5, 10),
            start_horizontal_fov_degrees: Single::ratio(60, 1),
            end_horizontal_fov_degrees: Single::ratio(60, 1),
            target_center: Vec3::origin(),
            framing_offset: Vec3::origin(),
            handheld_sway_m: Single::zero(),
        }
    }
}

/// Exact camera associated with a generation frame.
#[derive(Clone, Copy, Debug, PartialEq, Eq)]
pub struct CameraFramePlan {
    /// Zero-based frame index.
    pub frame_index: u32,
    /// Nominal sequence time in nanoseconds.
    pub timestamp_ns: u64,
    /// Pose and intrinsics used by every render pass.
    pub camera: CameraModel,
}

/// Deterministically sampled scene and coherent camera path, ready to render.
#[derive(Clone, Debug, PartialEq, Eq)]
pub struct SequencePlan {
    /// Stable sequence ID derived from request identity.
    pub sequence_id: String,
    /// Original building-level request.
    pub request: SequenceRequest,
    /// Hash of the complete serialized generator configuration.
    pub config_fingerprint: String,
    /// Sampled scene state.
    pub scene: SampledScene,
    /// Ordered camera views.
    pub frames: Vec<CameraFramePlan>,
    /// Coherent path, zoom, and composition intent behind the exact frame cameras.
    pub camera_motion: CameraMotionPlan,
}

impl SequencePlan {
    /// The sample key of a frame.
    pub open spec fn key_of(self, frame_index: int) -> Seq<char> {
        frame_key_text(self.sequence_id@, frame_index)
    }

    /// Returns the exact sample key for an in-range frame index.
    pub fn frame_key(&self, frame_index: u32) -> (r: Option<String>)
        ensures
            r is Some <==> frame_index < self.frames@.len(),
            r matches Some(key) ==> key@ == self.key_of(frame_index as int),
    {
        if (frame_index as usize) < self.frames.len() {
            Some(frame_key(&self.sequence_id, frame_index))
        } else {
            None
        }
    }

    /// Creates the compact roof instance used by final frame records.
    ///
    /// Negative scenes render their independent ordinary roof and never expose
    /// the target parameterization as supervision.
    pub fn roof_instance(&self) -> (r: Option<RoofInstanceRecord>)
        ensures
            r is None <==> self.request.target_kind == TargetKind::Negative,
            r matches Some(roof) ==> {
                &&& roof.family@ == self.request.building_family@
                &&& roof.world_from_roof.translation == Vec3::new(
                    Single::zero(),
                    self.scene.building.wall_height_m,
                    Single::zero(),
                )
                &&& roof.world_from_roof.rotation_xyzw == RigidTransform::identity().rotation_xyzw
                &&& self.scene.roof.parameters_are(roof.parameters@)
                &&& roof.wf()
            },
    {
        if self.request.target_kind == TargetKind::Negative {
            return None;
        }
        let identity = RigidTransform::identity();
        Some(
            RoofInstanceRecord {
                family: self.request.building_family.clone(),
                world_from_roof: RigidTransform {
                    translation: Vec3::new(
                        Single::zero(),
                        self.scene.building.wall_height_m,
                        Single::zero(),
                    ),
                    rotation_xyzw: identity.rotation_xyzw,
                },
                parameters: self.scene.roof.geometry_parameters(),
            },
        )
    }

    /// A record that holds this plan under a split.
    pub open spec fn recorded_as(self, record: SequenceRecord, split: DatasetSplit) -> bool {
        &&& record.schema_version@ == crate::manifest::DATASET_SCHEMA_VERSION@
        &&& record.sequence_id == self.sequence_id
        &&& record.building_family == self.request.building_family
        &&& record.building_seed == self.request.building_seed
        &&& record.source_asset_group == self.request.source_asset_group
        &&& record.split == split
        &&& record.target_kind == self.request.target_kind
        &&& record.config_fingerprint == self.config_fingerprint
        &&& record.scene == self.scene
        &&& record.camera_motion == self.camera_motion
        &&& record.frames@.len() == self.frames@.len()
        &&& forall|i: int|
            0 <= i < self.frames@.len() ==> {
                &&& (#[trigger] record.frames@[i]).sample_key@ == self.key_of(
                    self.frames@[i].frame_index as int,
                )
                &&& record.frames@[i].frame_index == self.frames@[i].frame_index
                &&& record.frames@[i].timestamp_ns == self.frames@[i].timestamp_ns
            }
    }

    /// Applies the building-level split policy and creates a sequence record.
    pub fn into_record(self, policy: &SplitPolicy) -> (r: Result<SequenceRecord, SplitPolicyError>)
        ensures
            match r {
                Ok(record) => policy.assignment(self.request.key()) is Ok && self.recorded_as(
                    record,
                    policy.assignment(self.request.key())->Ok_0,
                ),
                Err(error) => policy.assignment(self.request.key()) == Err::<
                    DatasetSplit,
                    SplitPolicyError,
                >(error),
            },
    {
        let key = self.request.split_key();
        let split = match policy.assign(&key) {
            Ok(split) => split,
            Err(error) => return Err(error),
        };
        let mut frames: Vec<SequenceFrameRef> = Vec::new();
        let mut i: usize = 0;
        while i < self.frames.len()
            invariant
                i <= self.frames@.len(),
                frames@.len() == i,
                forall|j: int|
                    0 <= j < i ==> {
                        &&& (#[trigger] frames@[j]).sample_key@ == self.key_of(
                            self.frames@[j].frame_index as int,
                        )
                        &&& frames@[j].frame_index == self.frames@[j].frame_index
                        &&& frames@[j].timestamp_ns == self.frames@[j].timestamp_ns
                    },
            decreases self.frames@.len() - i,
        {
            let frame = &self.frames[i];
            frames.push(
                SequenceFrameRef {
                    sample_key: frame_key(&self.sequence_id, frame.frame_index),
                    frame_index: frame.frame_index,
                    timestamp_ns: frame.timestamp_ns,
                },
            );
            i = i + 1;
        }
        Ok(
            SequenceRecord {
                schema_version: crate::manifest::DATASET_SCHEMA_VERSION.to_owned(),
                sequence_id: self.sequence_id,
                building_family: self.request.building_family,
                building_seed: self.request.building_seed,
                source_asset_group: self.request.source_asset_group,
                split,
                target_kind: self.request.target_kind,
                config_fingerprint: self.config_fingerprint,
                scene: self.scene,
                camera_motion: self.camera_motion,
                frames,
            },
        )
    }

    /// Computes the split without consuming the plan.
    pub fn split(&self, policy: &SplitPolicy) -> (r: Result<DatasetSplit, SplitPolicyError>)
        ensures
            r == policy.assignment(self.request.key()),
    {
        policy.assign(&self.request.split_key())
    }
}

/// Sequence identifier, hyphen, and the frame index in at least six digits.
pub open spec fn frame_key_text(sequence_id: Seq<char>, frame_index: int) -> Seq<char> {
    sequence_id + "-"@ + crate::text::padded(frame_index, 6)
}

/// The sample key of one frame of a sequence.
pub fn frame_key(sequence_id: &str, frame_index: u32) -> (r: String)
    ensures
        r@ == frame_key_text(sequence_id@, frame_index as int),
{
    let mut r: String = joined(sequence_id, "-");
    push_padded(&mut r, frame_index as u64, 6);
    r
}

/// Sample keys sort as their frame indexes do, up to the million frames that six
/// digits can number.
pub proof fn frame_keys_sort_by_index(sequence_id: Seq<char>, a: int, b: int)
    requires
        0 <= a < b < 1_000_000,
    ensures
        crate::text::precedes(frame_key_text(sequence_id, a), frame_key_text(sequence_id, b)),
{
    crate::text::padded_numbers_sort(a, b, 6);
    let head = sequence_id + "-"@;
    let (x, y) = (crate::text::padded(a, 6), crate::text::padded(b, 6));
    let at = choose|at: int| crate::text::precedes_at(x, y, at);
    let n = head.len() as int;
    assert((head + x).take(n + at) =~= head + x.take(at));
    assert((head + y).take(n + at) =~= head + y.take(at));
    assert(crate::text::precedes_at(head + x, head + y, n + at));
}

/// Distinct frames of a sequence have distinct keys.
pub proof fn frame_keys_are_unique(sequence_id: Seq<char>, a: int, b: int)
    requires
        a >= 0,
        b >= 0,
        a != b,
    ensures
        frame_key_text(sequence_id, a) != frame_key_text(sequence_id, b),
{
    let head = sequence_id + "-"@;
    let (x, y) = (crate::text::padded(a, 6), crate::text::padded(b, 6));
    crate::text::padded_numbers_differ(a, b, 6);
    assert((head + x).skip(head.len() as int) =~= x);
    assert((head + y).skip(head.len() as int) =~= y);
}

/// Spelling of a target kind inside sequence identities.
pub open spec fn kind_text(kind: TargetKind) -> Seq<char> {
    match kind {
        TargetKind::Target => "target"@,
        TargetKind::NearMiss => "near_miss"@,
        TargetKind::Negative => "negative"@,
    }
}

/// What the identifier of a sequence covers.
pub open spec fn sequence_identity(
    request: SequenceRequest,
    fingerprint: Seq<char>,
) -> Seq<Seq<u8>> {
    seq![
        crate::deterministic::bytes_of("sequence-id-v2"@),
        crate::deterministic::bytes_of(request.building_family@),
        crate::deterministic::number_bytes(request.building_seed),
        crate::deterministic::bytes_of(
            match request.source_asset_group {
                Some(group) => group@,
                None => ""@,
            },
        ),
        crate::deterministic::bytes_of(kind_text(request.target_kind)),
        crate::deterministic::bytes_of(fingerprint),
    ]
}

/// The identifier of the sequence that a request asks for under a configuration.
pub open spec fn sequence_id_text(request: SequenceRequest, fingerprint: Seq<char>) -> Seq<char> {
    "seq-"@ + crate::text::hex(
        crate::deterministic::stable_hash(sequence_identity(request, fingerprint)) as int,
        16,
    )
}

/// The identifier of the sequence that a request asks for under a configuration.
pub fn sequence_id(request: &SequenceRequest, fingerprint: &str) -> (r: String)
    ensures
        r@ == sequence_id_text(*request, fingerprint@),
{
    let seed: Vec<u8> = vstd::bytes::u64_to_le_bytes(request.building_seed);
    let group: &str = match &request.source_asset_group {
        Some(group) => group.as_str(),
        None => "",
    };
    let kind: &str = match request.target_kind {
        TargetKind::Target => "target",
        TargetKind::NearMiss => "near_miss",
        TargetKind::Negative => "negative",
    };
    let mut parts: Vec<&[u8]> = Vec::new();
    parts.push("sequence-id-v2".as_bytes());
    parts.push(request.building_family.as_str().as_bytes());
    parts.push(seed.as_slice());
    parts.push(group.as_bytes());
    parts.push(kind.as_bytes());
    parts.push(fingerprint.as_bytes());
    let hash = stable_hash64(parts.as_slice());
    assert(crate::deterministic::contents(parts@) =~= sequence_identity(*request, fingerprint@));
    let mut r: String = "seq-".to_owned();
    push_hex(&mut r, hash, 16);
    r
}

/// Requests that differ in family, seed, group or kind, or that are sampled under
/// another configuration, are hashed from different bytes. A missing group and an
/// empty one are alike.
pub proof fn sequence_identities_differ(
    a: SequenceRequest,
    b: SequenceRequest,
    fingerprint_a: Seq<char>,
    fingerprint_b: Seq<char>,
)
    requires
        sequence_identity(a, fingerprint_a) == sequence_identity(b, fingerprint_b),
    ensures
        a.building_family@ == b.building_family@,
        a.building_seed == b.building_seed,
        a.target_kind == b.target_kind,
        fingerprint_a == fingerprint_b,
        (match a.source_asset_group {
            Some(group) => group@,
            None => ""@,
        }) == (match b.source_asset_group {
            Some(group) => group@,
            None => ""@,
        }),
{
    broadcast use vstd::utf8::encode_utf8_decode_utf8;

    let (x, y) = (sequence_identity(a, fingerprint_a), sequence_identity(b, fingerprint_b));
    vstd::bytes::lemma_auto_spec_u64_to_from_le_bytes();
    assert(x[1] == y[1]);
    assert(x[2] == y[2]);
    assert(x[3] == y[3]);
    assert(x[4] == y[4]);
    assert(x[5] == y[5]);
    reveal_strlit("target");
    reveal_strlit("near_miss");
    reveal_strlit("negative");
    assert("near_miss"@[2] == 'a');
    assert("negative"@[2] == 'g');
    assert(vstd::utf8::decode_utf8(x[1]) == a.building_family@);
    assert(vstd::utf8::decode_utf8(y[1]) == b.building_family@);
    let group_a = match a.source_asset_group {
        Some(group) => group@,
        None => ""@,
    };
    let group_b = match b.source_asset_group {
        Some(group) => group@,
        None => ""@,
    };
    assert(vstd::utf8::decode_utf8(x[3]) == group_a);
    assert(vstd::utf8::decode_utf8(y[3]) == group_b);
    assert(vstd::utf8::decode_utf8(x[4]) == kind_text(a.target_kind));
    assert(vstd::utf8::decode_utf8(y[4]) == kind_text(b.target_kind));
    assert(vstd::utf8::decode_utf8(x[5]) == fingerprint_a);
    assert(vstd::utf8::decode_utf8(y[5]) == fingerprint_b);
}

proof fn lemma_parameter_names(parameters: Seq<RoofParameter>)
    requires
        parameters.len() == 8,
        parameters[0].name@ == "crown_top_depth"@,
        parameters[1].name@ == "crown_top_width"@,
        parameters[2].name@ == "eave_depth"@,
        parameters[3].name@ == "eave_width"@,
        parameters[4].name@ == "lower_rise"@,
        parameters[5].name@ == "shoulder_depth"@,
        parameters[6].name@ == "shoulder_width"@,
        parameters[7].name@ == "upper_rise"@,
    ensures
        crate::text::ascending(crate::record::parameter_names(parameters)),
{
    reveal_strlit("crown_top_depth");
    reveal_strlit("crown_top_width");
    reveal_strlit("eave_depth");
    reveal_strlit("eave_width");
    reveal_strlit("lower_rise");
    reveal_strlit("shoulder_depth");
    reveal_strlit("shoulder_width");
    reveal_strlit("upper_rise");
    assert("crown_top_depth"@.take(10) =~= "crown_top_width"@.take(10));
    assert(crate::text::precedes_at("crown_top_depth"@, "crown_top_width"@, 10));
    assert("crown_top_width"@.take(0) =~= "eave_depth"@.take(0));
    assert(crate::text::precedes_at("crown_top_width"@, "eave_depth"@, 0));
    assert("eave_depth"@.take(5) =~= "eave_width"@.take(5));
    assert(crate::text::precedes_at("eave_depth"@, "eave_width"@, 5));
    assert("eave_width"@.take(0) =~= "lower_rise"@.take(0));
    assert(crate::text::precedes_at("eave_width"@, "lower_rise"@, 0));
    assert("lower_rise"@.take(0) =~= "shoulder_depth"@.take(0));
    assert(crate::text::precedes_at("lower_rise"@, "shoulder_depth"@, 0));
    assert("shoulder_depth"@.take(9) =~= "shoulder_width"@.take(9));
    assert(crate::text::precedes_at("shoulder_depth"@, "shoulder_width"@, 9));
    assert("shoulder_width"@.take(0) =~= "upper_rise"@.take(0));
    assert(crate::text::precedes_at("shoulder_width"@, "upper_rise"@, 0));
}

} // verus!
