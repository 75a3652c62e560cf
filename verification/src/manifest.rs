//! Dataset-level provenance and interpretation.

use crate::split::SplitPolicy;
use vstd::prelude::*;
use vstd::string::*;

verus! {

/// Current annotation and manifest schema version.
pub const DATASET_SCHEMA_VERSION: &'static str = "1.0.0";

/// Dataset-level provenance and interpretation contract.
#[derive(Clone, Debug, PartialEq, Eq)]
pub struct DatasetManifest {
    /// Human- and machine-readable dataset identifier, such as `roof-synth-v003`.
    pub dataset_id: String,
    /// Schema understood by readers of every record in this dataset.
    pub schema_version: String,
    /// Exact generator implementation identity.
    pub generator: GeneratorDescriptor,
    /// Root seed or seed-range namespace used by the generation run.
    pub root_seed: u64,
    /// Spatial and image coordinate conventions.
    pub coordinates: CoordinateSystem,
    /// Stable building-level split allocation.
    pub split_policy: SplitPolicy,
    /// Semantic integer-ID definitions.
    pub labels: LabelTaxonomy,
    /// External assets that may influence rendered samples.
    pub source_assets: Vec<SourceAsset>,
    /// Dense and image outputs written beside JSON records.
    pub outputs: Vec<OutputDefinition>,
    /// Final accepted record counts.
    pub statistics: DatasetStatistics,
}

impl DatasetManifest {
    /// The generator is well formed.
    pub open spec fn wf(self) -> bool {
        self.generator.wf()
    }

    /// Creates a manifest with current schema and coordinate defaults.
    pub fn new(dataset_id: &str, generator: GeneratorDescriptor, root_seed: u64) -> (r: Self)
        ensures
            r.dataset_id@ == dataset_id@,
            r.schema_version@ == DATASET_SCHEMA_VERSION@,
            r.generator == generator,
            generator.wf() ==> r.wf(),
            r.root_seed == root_seed,
            r.coordinates.is_standard(),
            r.split_policy.is_standard(),
            r.labels.is_empty(),
            r.source_assets@.len() == 0,
            OutputDefinition::are_standard(r.outputs@),
            r.statistics == (DatasetStatistics {
                train_frames: 0,
                validation_frames: 0,
                test_frames: 0,
                sequences: 0,
            }),
    {
        DatasetManifest {
            dataset_id: dataset_id.to_owned(),
            schema_version: DATASET_SCHEMA_VERSION.to_owned(),
            generator,
            root_seed,
            coordinates: CoordinateSystem::default(),
            split_policy: SplitPolicy::default(),
            labels: LabelTaxonomy::default(),
            source_assets: Vec::new(),
            outputs: OutputDefinition::standard_outputs(),
            statistics: DatasetStatistics::default(),
        }
    }
}

/// One named detail of the machine that rendered a dataset.
#[derive(Clone, Debug, PartialEq, Eq)]
pub struct EnvironmentEntry {
    /// Name of the detail.
    pub name: String,
    /// Its value.
    pub value: String,
}

/// Generator build and reproducibility information.
#[derive(Clone, Debug, PartialEq, Eq)]
pub struct GeneratorDescriptor {
    /// Executable or pipeline name.
    pub name: String,
    /// Released generator version.
    pub version: String,
    /// Source-control revision, if generation occurred from a checkout.
    pub source_revision: Option<String>,
    /// Explicit PRNG algorithm contract.
    pub rng_algorithm: String,
    /// Hash of the complete serialized generator configuration.
    pub config_fingerprint: String,
    /// Sorted renderer and execution details needed to audit non-bit-exact RGB.
    pub execution_environment: Vec<EnvironmentEntry>,
}

/// The names of machine details.
pub open spec fn entry_names(entries: Seq<EnvironmentEntry>) -> Seq<Seq<char>> {
    Seq::new(entries.len(), |i: int| entries[i].name@)
}

impl GeneratorDescriptor {
    /// The names of the machine details ascend, so that none occurs twice.
    pub open spec fn wf(self) -> bool {
        crate::text::ascending(entry_names(self.execution_environment@))
    }
}

impl GeneratorDescriptor {
    /// Creates a descriptor for the default ChaCha20 sampling contract.
    pub fn chacha20(name: &str, version: &str, config_fingerprint: &str) -> (r: Self)
        ensures
            r.name@ == name@,
            r.version@ == version@,
            r.source_revision is None,
            r.rng_algorithm@ == "rand_chacha::ChaCha20Rng/0.9"@,
            r.config_fingerprint@ == config_fingerprint@,
            r.execution_environment@.len() == 0,
            r.wf(),
    {
        GeneratorDescriptor {
            name: name.to_owned(),
            version: version.to_owned(),
            source_revision: None,
            rng_algorithm: "rand_chacha::ChaCha20Rng/0.9".to_owned(),
            config_fingerprint: config_fingerprint.to_owned(),
            execution_environment: Vec::new(),
        }
    }
}

/// Fixed transform and image conventions used throughout a dataset.
#[derive(Clone, Debug, PartialEq, Eq)]
pub struct CoordinateSystem {
    /// World handedness and up axis.
    pub world: String,
    /// Camera forward and image-axis convention.
    pub camera: String,
    /// Image coordinate origin and units for compact annotations.
    pub image: String,
    /// Unit used for positions and dimensions.
    pub length_unit: String,
}

impl CoordinateSystem {
    /// The fixed conventions.
    pub open spec fn is_standard(self) -> bool {
        &&& self.world@ == "right_handed_y_up"@
        &&& self.camera@ == "right_handed_negative_z_forward_x_right_y_up"@
        &&& self.image@ == "normalized_top_left_x_right_y_down"@
        &&& self.length_unit@ == "metre"@
    }
}

impl Default for CoordinateSystem {
    fn default() -> (r: Self)
        ensures
            r.is_standard(),
    {
        CoordinateSystem {
            world: "right_handed_y_up".to_owned(),
            camera: "right_handed_negative_z_forward_x_right_y_up".to_owned(),
            image: "normalized_top_left_x_right_y_down".to_owned(),
            length_unit: "metre".to_owned(),
        }
    }
}

/// Integer semantic class stored in compact per-frame labels.
#[derive(Clone, Debug, PartialEq, Eq)]
pub struct LabelClass {
    /// Stable integer value written to records or dense maps.
    pub id: u16,
    /// Stable snake-case name.
    pub name: String,
}

/// Dataset-wide class maps, avoiding repeated strings in each frame.
#[derive(Clone, Debug, PartialEq, Eq)]
pub struct LabelTaxonomy {
    /// Structural point classes.
    pub keypoints: Vec<LabelClass>,
    /// Eave, pitch-break, crown-corner, crown-top, and silhouette edge classes.
    pub edges: Vec<LabelClass>,
    /// Semantic roof-part classes used by part masks.
    pub parts: Vec<LabelClass>,
    /// Parametric face identities used by face maps.
    pub faces: Vec<LabelClass>,
}

impl LabelTaxonomy {
    /// No class of any kind.
    pub open spec fn is_empty(self) -> bool {
        &&& self.keypoints@.len() == 0
        &&& self.edges@.len() == 0
        &&& self.parts@.len() == 0
        &&& self.faces@.len() == 0
    }
}

impl Default for LabelTaxonomy {
    fn default() -> (r: Self)
        ensures
            r.is_empty(),
    {
        LabelTaxonomy { keypoints: Vec::new(), edges: Vec::new(), parts: Vec::new(), faces: Vec::new() }
    }
}

/// Kind of external source data used to build scenes.
#[derive(Clone, Copy, Debug, PartialEq, Eq, Structural)]
pub enum SourceAssetKind {
    /// Mesh or procedural geometry input.
    Geometry,
    /// Surface image or material scan.
    Texture,
    /// High-dynamic-range environment lighting.
    Environment,
    /// Real photograph used as a background or appearance source.
    Photograph,
    /// Camera or sensor profile measured from a device.
    DeviceProfile,
}

/// Provenance for an asset that may influence one or more generated scenes.
#[derive(Clone, Debug, PartialEq, Eq)]
pub struct SourceAsset {
    /// Stable asset identifier used in scene metadata.
    pub id: String,
    /// Coarse content category.
    pub kind: SourceAssetKind,
    /// Hex-encoded content digest including algorithm prefix.
    pub content_hash: String,
    /// Licence or internal-rights identifier.
    pub license: String,
    /// Group assigned atomically to one dataset split.
    pub split_group: Option<String>,
}

/// Encoding contract for one file associated with a frame sample key.
#[derive(Clone, Debug, PartialEq, Eq)]
pub struct OutputDefinition {
    /// Stable suffix, such as `rgb` or `face_coordinates`.
    pub name: String,
    /// Internet media type.
    pub media_type: String,
    /// Codec or scalar layout.
    pub encoding: String,
    /// Whether target-positive records must contain this output.
    pub required_for_targets: bool,
}

impl OutputDefinition {
    /// An output that every target needs.
    pub open spec fn is_required(
        self,
        name: Seq<char>,
        media_type: Seq<char>,
        encoding: Seq<char>,
    ) -> bool {
        &&& self.name@ == name
        &&& self.media_type@ == media_type
        &&& self.encoding@ == encoding
        &&& self.required_for_targets
    }

    /// The outputs that every dataset writes.
    pub open spec fn are_standard(outputs: Seq<OutputDefinition>) -> bool {
        &&& outputs.len() == 6
        &&& outputs[0].is_required("rgb"@, "image/jpeg"@, "jpeg"@)
        &&& outputs[1].is_required("roof_mask"@, "image/png"@, "uint8"@)
        &&& outputs[2].is_required("amodal_roof_mask"@, "image/png"@, "uint8"@)
        &&& outputs[3].is_required("part_mask"@, "image/png"@, "uint16"@)
        &&& outputs[4].is_required("face_id_map"@, "image/png"@, "uint16"@)
        &&& outputs[5].is_required(
            "face_coordinates"@,
            "application/octet-stream"@,
            "rg16float-zstd"@,
        )
    }

    fn required(name: &str, media_type: &str, encoding: &str) -> (r: OutputDefinition)
        ensures
            r.is_required(name@, media_type@, encoding@),
    {
        OutputDefinition {
            name: name.to_owned(),
            media_type: media_type.to_owned(),
            encoding: encoding.to_owned(),
            required_for_targets: true,
        }
    }

    /// The outputs that every dataset writes.
    pub fn standard_outputs() -> (r: Vec<OutputDefinition>)
        ensures
            OutputDefinition::are_standard(r@),
    {
        vec![
            OutputDefinition::required("rgb", "image/jpeg", "jpeg"),
            OutputDefinition::required("roof_mask", "image/png", "uint8"),
            OutputDefinition::required("amodal_roof_mask", "image/png", "uint8"),
            OutputDefinition::required("part_mask", "image/png", "uint16"),
            OutputDefinition::required("face_id_map", "image/png", "uint16"),
            OutputDefinition::required(
                "face_coordinates",
                "application/octet-stream",
                "rg16float-zstd",
            ),
        ]
    }
}

/// Accepted sample counts, split by partition.
#[derive(Clone, Copy, Debug, PartialEq, Eq, Structural)]
pub struct DatasetStatistics {
    /// Accepted training frames.
    pub train_frames: u64,
    /// Accepted validation frames.
    pub validation_frames: u64,
    /// Accepted test frames.
    pub test_frames: u64,
    /// Accepted coherent sequences.
    pub sequences: u64,
}

impl Default for DatasetStatistics {
    fn default() -> (r: Self)
        ensures
            r == (DatasetStatistics {
                train_frames: 0,
                validation_frames: 0,
                test_frames: 0,
                sequences: 0,
            }),
    {
        DatasetStatistics { train_frames: 0, validation_frames: 0, test_frames: 0, sequences: 0 }
    }
}

} // verus!
