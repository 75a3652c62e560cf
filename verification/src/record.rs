//! Annotation records of frames and sequences.

use crate::appearance::FrameAppearance;
use crate::plan::{CameraMotionPlan, SampledScene};
use crate::single::Single;
use crate::split::DatasetSplit;
use crate::types::{RigidTransform, Vec2, Vec3};
use vstd::prelude::*;
use vstd::string::*;

verus! {

/// Whether a scene is a recognized target, a deliberate near miss, or empty of it.
#[derive(Clone, Copy, Debug, PartialEq, Eq, Structural)]
pub enum TargetKind {
    /// Accepted classic roof family.
    Target,
    /// Structurally similar roof outside the accepted family.
    NearMiss,
    /// Scene without a relevant roof.
    Negative,
}

/// Portable reference to a file grouped under a WebDataset sample key.
#[derive(Clone, Debug, PartialEq, Eq)]
pub struct AssetRef {
    /// Relative archive member name or dataset-relative path.
    pub path: String,
    /// Internet media type, such as `image/jpeg`.
    pub media_type: String,
    /// Codec or scalar layout, such as `jpeg` or `rg16float-zstd`.
    pub encoding: String,
    /// Optional content digest including algorithm prefix.
    pub content_hash: Option<String>,
}

impl AssetRef {
    /// Creates an unhashed asset reference. Writers should fill the digest before
    /// accepting the final shard.
    pub fn new(path: &str, media_type: &str, encoding: &str) -> (r: Self)
        ensures
            r.path@ == path@,
            r.media_type@ == media_type@,
            r.encoding@ == encoding@,
            r.content_hash is None,
    {
        AssetRef {
            path: path.to_owned(),
            media_type: media_type.to_owned(),
            encoding: encoding.to_owned(),
            content_hash: None,
        }
    }
}

/// Camera intrinsic matrix in pixels.
#[derive(Clone, Copy, Debug, PartialEq, Eq, Structural)]
pub struct CameraIntrinsics {
    /// Image width.
    pub width: u32,
    /// Image height.
    pub height: u32,
    /// Horizontal focal length.
    pub fx: Single,
    /// Vertical focal length.
    pub fy: Single,
    /// Horizontal principal point.
    pub cx: Single,
    /// Vertical principal point.
    pub cy: Single,
    /// Intrinsic skew, normally zero.
    pub skew: Single,
}

/// Lens distortion applied to the stored image and labels.
#[derive(Clone, Copy, Debug, PartialEq, Eq)]
pub enum DistortionModel {
    /// Ideal pinhole camera.
    Pinhole,
    /// Brown-Conrady radial and tangential distortion.
    BrownConrady {
        /// First radial coefficient.
        k1: Single,
        /// Second radial coefficient.
        k2: Single,
        /// First tangential coefficient.
        p1: Single,
        /// Second tangential coefficient.
        p2: Single,
        /// Third radial coefficient.
        k3: Single,
    },
}

/// Row-major homogeneous mapping between two image-coordinate spaces.
#[derive(Clone, Copy, Debug, PartialEq, Eq)]
pub struct ImageTransform(pub [Single; 9]);

impl ImageTransform {
    /// The identity image mapping.
    pub open spec fn spec_identity() -> ImageTransform {
        ImageTransform(
            [
                Single::one(),
                Single::zero(),
                Single::zero(),
                Single::zero(),
                Single::one(),
                Single::zero(),
                Single::zero(),
                Single::zero(),
                Single::one(),
            ],
        )
    }

    /// The identity image mapping.
    #[verifier::when_used_as_spec(spec_identity)]
    pub fn identity() -> (r: ImageTransform)
        ensures
            r == Self::spec_identity(),
    {
        ImageTransform(
            [
                Single::one(),
                Single::zero(),
                Single::zero(),
                Single::zero(),
                Single::one(),
                Single::zero(),
                Single::zero(),
                Single::zero(),
                Single::one(),
            ],
        )
    }
}

/// Camera pose, calibration, and geometric augmentation used for one frame.
#[derive(Clone, Copy, Debug, PartialEq, Eq)]
pub struct CameraModel {
    /// Exact intrinsics for the stored output image.
    pub intrinsics: CameraIntrinsics,
    /// Lens model already reflected in the image and annotations.
    pub distortion: DistortionModel,
    /// Maps camera coordinates into the sampled scene world.
    pub world_from_camera: RigidTransform,
    /// Sensor-image to stored-output mapping after crop, rotation, and resize.
    pub output_from_sensor: ImageTransform,
}

/// Visibility state for a projected structural point.
#[derive(Clone, Copy, Debug, PartialEq, Eq, Structural)]
pub enum Visibility {
    /// Projected inside the frame and passes the scene depth test.
    Visible,
    /// Projected inside the frame but hidden by scene geometry.
    Occluded,
    /// Projection lies outside the retained image crop.
    Truncated,
    /// Point has non-positive camera-space depth.
    BehindCamera,
}

/// Compact projected structural point; names live in the manifest taxonomy.
#[derive(Clone, Debug, PartialEq, Eq)]
pub struct KeypointLabel {
    /// Dataset-wide keypoint class identifier.
    pub class_id: u16,
    /// Stable instance identifier within the roof geometry.
    pub instance_id: u16,
    /// Exact procedural point in roof-local metres.
    pub roof_position: Vec3,
    /// Projected normalized position, where the top-left is `(0, 0)`.
    pub image_position: Option<Vec2>,
    /// Occlusion and framing result.
    pub visibility: Visibility,
}

/// Visibility summary for a structural polyline.
#[derive(Clone, Copy, Debug, PartialEq, Eq, Structural)]
pub enum EdgeVisibility {
    /// Entire retained polyline passes depth testing.
    Visible,
    /// Retained polyline contains both visible and hidden spans.
    PartiallyOccluded,
    /// Projected polyline lies in the image but is hidden.
    Occluded,
    /// Projection crosses or lies outside an image boundary.
    Truncated,
    /// Edge lies behind the camera.
    BehindCamera,
}

/// Projected semantic roof edge.
#[derive(Clone, Debug, PartialEq, Eq)]
pub struct EdgeLabel {
    /// Dataset-wide edge class identifier.
    pub class_id: u16,
    /// Stable edge identifier within the roof geometry.
    pub instance_id: u16,
    /// Clipped normalized image polyline. Tangents are derived when loading.
    pub polyline: Vec<Vec2>,
    /// Aggregate visibility of the projected edge.
    pub visibility: EdgeVisibility,
}

/// Dense ground-truth files whose contents remain outside compact JSON.
#[derive(Clone, Debug, PartialEq, Eq)]
pub struct DenseLabelRefs {
    /// Binary visible-roof silhouette after scene occlusion.
    pub roof_mask: Option<AssetRef>,
    /// Binary in-frame roof silhouette before scene occlusion.
    pub amodal_roof_mask: Option<AssetRef>,
    /// Integer semantic-part image.
    pub part_mask: Option<AssetRef>,
    /// Integer stable face-identity image.
    pub face_id_map: Option<AssetRef>,
    /// Per-pixel normalized coordinates within each roof face.
    pub face_coordinates: Option<AssetRef>,
}

impl Default for DenseLabelRefs {
    fn default() -> (r: Self)
        ensures
            r.roof_mask is None,
            r.amodal_roof_mask is None,
            r.part_mask is None,
            r.face_id_map is None,
            r.face_coordinates is None,
    {
        DenseLabelRefs {
            roof_mask: None,
            amodal_roof_mask: None,
            part_mask: None,
            face_id_map: None,
            face_coordinates: None,
        }
    }
}

/// All exact compact and dense structural supervision for one frame.
#[derive(Clone, Debug, PartialEq, Eq)]
pub struct StructuralLabels {
    /// Procedurally projected structural points.
    pub keypoints: Vec<KeypointLabel>,
    /// Procedurally projected structural edges.
    pub edges: Vec<EdgeLabel>,
    /// References to exact raster labels.
    pub dense: DenseLabelRefs,
}

impl StructuralLabels {
    /// No point, no edge and no raster label.
    pub open spec fn is_empty(self) -> bool {
        &&& self.keypoints@.len() == 0
        &&& self.edges@.len() == 0
        &&& self.dense.roof_mask is None
        &&& self.dense.amodal_roof_mask is None
        &&& self.dense.part_mask is None
        &&& self.dense.face_id_map is None
        &&& self.dense.face_coordinates is None
    }
}

impl Default for StructuralLabels {
    fn default() -> (r: Self)
        ensures
            r.is_empty(),
    {
        StructuralLabels { keypoints: Vec::new(), edges: Vec::new(), dense: DenseLabelRefs::default() }
    }
}

/// Bounding box in normalized image coordinates with top-left origin.
#[derive(Clone, Copy, Debug, PartialEq, Eq, Structural)]
pub struct NormalizedBoundingBox {
    /// Minimum X and Y.
    pub min: Vec2,
    /// Maximum X and Y.
    pub max: Vec2,
}

/// Locator and sample-quality supervision.
#[derive(Clone, Copy, Debug, PartialEq, Eq)]
pub struct LocatorLabel {
    /// Target class for the full image.
    pub target_kind: TargetKind,
    /// Retained visible target bounds, absent for negative scenes.
    pub bounding_box: Option<NormalizedBoundingBox>,
    /// In-frame target bounds before scene occlusion, absent for negative scenes.
    pub amodal_bounding_box: Option<NormalizedBoundingBox>,
    /// Fraction of the in-frame roof-only raster visible in the complete scene.
    /// Crop loss is represented independently by `truncated`.
    pub visible_fraction: Single,
    /// Fraction of the in-frame roof-only raster hidden by other scene geometry.
    pub occluded_fraction: Single,
    /// Whether the roof silhouette intersects the output boundary.
    pub truncated: bool,
}

/// One named geometry value.
#[derive(Clone, Debug, PartialEq, Eq)]
pub struct RoofParameter {
    /// Name of the value.
    pub name: String,
    /// Value in metres, or a documented unitless fraction.
    pub value: Single,
}

/// The names of geometry values.
pub open spec fn parameter_names(parameters: Seq<RoofParameter>) -> Seq<Seq<char>> {
    Seq::new(parameters.len(), |i: int| parameters[i].name@)
}

/// Ground-truth fitted roof instance for target and near-miss frames.
#[derive(Clone, Debug, PartialEq, Eq)]
pub struct RoofInstanceRecord {
    /// Stable procedural family.
    pub family: String,
    /// Maps roof-local points into scene world space.
    pub world_from_roof: RigidTransform,
    /// Named geometry values, by ascending name.
    pub parameters: Vec<RoofParameter>,
}

impl RoofInstanceRecord {
    /// The names of the geometry values ascend, so that none occurs twice.
    pub open spec fn wf(self) -> bool {
        crate::text::ascending(parameter_names(self.parameters@))
    }
}

/// Non-label image files associated with a frame.
#[derive(Clone, Debug, PartialEq, Eq)]
pub struct FrameAssets {
    /// Model input image after camera effects.
    pub rgb: AssetRef,
    /// Optional renderer diagnostic, never a runtime model requirement.
    pub surface_normals: Option<AssetRef>,
    /// Optional motion vectors for tracking regression data.
    pub motion_vectors: Option<AssetRef>,
}

/// Identity and timing fields used when constructing a frame record.
#[derive(Clone, Debug, PartialEq, Eq)]
pub struct FrameIdentity {
    /// Basename shared by files in this WebDataset sample.
    pub sample_key: String,
    /// Parent coherent camera sequence.
    pub sequence_id: String,
    /// Zero-based index within the sequence.
    pub frame_index: u32,
    /// Nominal sequence time in nanoseconds.
    pub timestamp_ns: u64,
}

impl FrameIdentity {
    /// Creates a frame identity.
    pub fn new(
        sample_key: &str,
        sequence_id: &str,
        frame_index: u32,
        timestamp_ns: u64,
    ) -> (r: Self)
        ensures
            r.sample_key@ == sample_key@,
            r.sequence_id@ == sequence_id@,
            r.frame_index == frame_index,
            r.timestamp_ns == timestamp_ns,
    {
        FrameIdentity {
            sample_key: sample_key.to_owned(),
            sequence_id: sequence_id.to_owned(),
            frame_index,
            timestamp_ns,
        }
    }
}

/// Complete training annotation stored beside one rendered frame.
#[derive(Clone, Debug, PartialEq, Eq)]
pub struct FrameRecord {
    /// Dataset schema version.
    pub schema_version: String,
    /// Basename shared by files in this WebDataset sample.
    pub sample_key: String,
    /// Parent coherent camera sequence.
    pub sequence_id: String,
    /// Zero-based index within the sequence.
    pub frame_index: u32,
    /// Nominal sequence time in nanoseconds.
    pub timestamp_ns: u64,
    /// Building-level split, repeated to permit frame-only loading.
    pub split: DatasetSplit,
    /// Exact camera used by RGB and every label pass.
    pub camera: CameraModel,
    /// Parametric roof instance, absent for empty negative scenes.
    pub roof: Option<RoofInstanceRecord>,
    /// Full-frame locator target.
    pub locator: LocatorLabel,
    /// Compact and dense structural targets.
    pub labels: StructuralLabels,
    /// RGB and optional diagnostic output references.
    pub assets: FrameAssets,
    /// Exact post-render appearance transform applied to stored RGB.
    pub appearance: FrameAppearance,
}

impl FrameRecord {
    /// Creates a record with the current schema version.
    pub fn new(
        identity: FrameIdentity,
        split: DatasetSplit,
        camera: CameraModel,
        locator: LocatorLabel,
        assets: FrameAssets,
    ) -> (r: Self)
        ensures
            r.schema_version@ == crate::manifest::DATASET_SCHEMA_VERSION@,
            r.sample_key == identity.sample_key,
            r.sequence_id == identity.sequence_id,
            r.frame_index == identity.frame_index,
            r.timestamp_ns == identity.timestamp_ns,
            r.split == split,
            r.camera == camera,
            r.roof is None,
            r.locator == locator,
            r.labels.is_empty(),
            r.assets == assets,
            r.appearance.photometric_profile is None,
    {
        FrameRecord {
            schema_version: crate::manifest::DATASET_SCHEMA_VERSION.to_owned(),
            sample_key: identity.sample_key,
            sequence_id: identity.sequence_id,
            frame_index: identity.frame_index,
            timestamp_ns: identity.timestamp_ns,
            split,
            camera,
            roof: None,
            locator,
            labels: StructuralLabels::default(),
            assets,
            appearance: FrameAppearance::default(),
        }
    }
}

/// Lightweight reference from a coherent sequence to one frame sample.
#[derive(Clone, Debug, PartialEq, Eq)]
pub struct SequenceFrameRef {
    /// WebDataset sample basename.
    pub sample_key: String,
    /// Zero-based frame index.
    pub frame_index: u32,
    /// Nominal sequence time in nanoseconds.
    pub timestamp_ns: u64,
}

/// Sequence-level record stored once per generated building and camera path.
#[derive(Clone, Debug, PartialEq, Eq)]
pub struct SequenceRecord {
    /// Dataset schema version.
    pub schema_version: String,
    /// Stable sequence identity derived from family and building seed.
    pub sequence_id: String,
    /// Procedural family used as a split group.
    pub building_family: String,
    /// Building-level seed shared by every frame.
    pub building_seed: u64,
    /// Optional source-asset grouping key used during split assignment.
    pub source_asset_group: Option<String>,
    /// Stable split assigned before rendering.
    pub split: DatasetSplit,
    /// Target, near-miss, or negative generation intent.
    pub target_kind: TargetKind,
    /// Hash of the complete generator configuration.
    pub config_fingerprint: String,
    /// Fully sampled scene state needed for exact replay.
    pub scene: SampledScene,
    /// Coherent path, zoom, and framing intent behind the exact frame cameras.
    pub camera_motion: CameraMotionPlan,
    /// Ordered references to frame annotations and images.
    pub frames: Vec<SequenceFrameRef>,
}

} // verus!
