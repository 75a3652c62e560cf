//! Deterministic sampling of scenes and camera sequences.

use crate::composition::{
    BuildingExtensionSamplingConfig, CompositionSamplingConfig, DayPhase, DayPhaseProfile,
    SampledBackgroundBuilding, SampledBuildingExtension,
    SampledComposition, SampledEnvironment, SampledFacade, SampledSignage,
    SampledSiteInfrastructure, SampledVegetation, SceneDomainProfile, SignageSamplingConfig,
    VegetationSamplingConfig, WeatherProfile,
};
use crate::config::{
    CameraSamplingConfig, GeneratorConfig, LightingSamplingConfig, OccluderChoice, OccluderKind,
    OccluderSamplingConfig, RoofMorphologyProfile,
};
use crate::deterministic::stable_hash64;
use crate::draws::Draws;
use crate::geometry::{
    actual_roof_envelope, find_camera_positions, ground_edge_margin_m,
    sampled_content_half_extent, RoofEnvelope, SceneTurns, Turn,
};
use crate::plan::{
    sequence_id, CameraFramePlan, CameraMotionPlan, SampledBuilding, SampledLighting,
    SampledMaterial, SampledOccluder, SampledOrdinaryRoof, SampledRoof, SampledScene, SequencePlan,
    SequenceRequest,
};
use crate::record::TargetKind;
use crate::report::{Rule, Validate, ValidationReport};
use crate::sample_shell::{
    aspect_range, resolved_material, roof_ranges, sample_building, sample_domain,
    sample_environment, sample_material, sample_ordinary_roof, sample_roof, sample_roof_profile,
};
use crate::sample_site::{
    intersect_u32_ranges, sample_background_buildings, sample_building_extensions, sample_facade,
    sample_infrastructure, sample_signage, sample_vegetation, BackgroundPlacement,
    VegetationPlacement,
};
use crate::single::Single;
use crate::text::{is_blank, push_hex};
use vstd::prelude::*;
use vstd::string::*;

verus! {

/// Sampling cannot proceed with an invalid configuration or request.
#[derive(Clone, Debug, PartialEq, Eq)]
pub enum SamplingError {
    /// Configuration validation found one or more errors.
    InvalidConfig(ValidationReport),
    /// Stable grouping requires a non-empty family.
    EmptyBuildingFamily,
}

impl SamplingError {
    /// A sentence for people.
    pub open spec fn text(self) -> Seq<char> {
        match self {
            SamplingError::InvalidConfig(report) => "invalid generator configuration: "@
                + ValidationReport::text(report@),
            SamplingError::EmptyBuildingFamily => "building family must not be empty"@,
        }
    }

    /// A sentence for people.
    pub fn message(&self) -> (r: String)
        ensures
            r@ == self.text(),
    {
        match self {
            SamplingError::InvalidConfig(report) => crate::text::joined(
                "invalid generator configuration: ",
                &report.message(),
            ),
            SamplingError::EmptyBuildingFamily => "building family must not be empty".to_owned(),
        }
    }
}

/// Every list of choices can be counted in 32 bits.
pub open spec fn countable(c: GeneratorConfig) -> bool {
    &&& c.roof.profiles@.len() <= u32::MAX
    &&& c.materials.roof@.len() <= u32::MAX
    &&& c.materials.walls@.len() <= u32::MAX
    &&& c.occluders.choices@.len() <= u32::MAX
    &&& c.composition.ground_materials@.len() <= u32::MAX
    &&& c.composition.facade.glazing_materials@.len() <= u32::MAX
    &&& c.composition.weather.profiles@.len() <= u32::MAX
    &&& c.composition.day_phase.profiles@.len() <= u32::MAX
    &&& c.composition.domains.profiles@.len() <= u32::MAX
}

/// Whether every list of choices can be counted in 32 bits.
pub fn is_countable(c: &GeneratorConfig) -> (r: bool)
    ensures
        r == countable(*c),
{
    let limit: u64 = u32::MAX as u64;
    c.roof.profiles.len() as u64 <= limit && c.materials.roof.len() as u64 <= limit
        && c.materials.walls.len() as u64 <= limit && c.occluders.choices.len() as u64 <= limit
        && c.composition.ground_materials.len() as u64 <= limit
        && c.composition.facade.glazing_materials.len() as u64 <= limit
        && c.composition.weather.profiles.len() as u64 <= limit
        && c.composition.day_phase.profiles.len() as u64 <= limit
        && c.composition.domains.profiles.len() as u64 <= limit
}

/// Every list of choices has a positive total weight.
pub open spec fn weighted(c: GeneratorConfig) -> bool {
    &&& crate::choice::total_weight(crate::choice::roof_profile_weights(c.roof.profiles@)) > 0
    &&& crate::choice::total_weight(crate::choice::material_weights(c.materials.roof@)) > 0
    &&& crate::choice::total_weight(crate::choice::material_weights(c.materials.walls@)) > 0
    &&& crate::choice::total_weight(crate::choice::ground_weights(c.occluders.choices@)) > 0
    &&& crate::choice::total_weight(crate::choice::camera_path_weights(c.camera)) > 0
    &&& crate::choice::view_weight(c.camera) > 0
}

/// Every list of choices of the composition has a positive total weight.
pub open spec fn weighted_composition(c: CompositionSamplingConfig) -> bool {
    &&& crate::choice::total_weight(crate::choice::material_weights(c.ground_materials@)) > 0
    &&& crate::choice::total_weight(
        crate::choice::material_weights(c.facade.glazing_materials@),
    ) > 0
    &&& crate::choice::total_weight(crate::choice::weather_weights(c.weather.profiles@)) > 0
    &&& crate::choice::total_weight(crate::choice::day_phase_weights(c.day_phase.profiles@)) > 0
    &&& crate::choice::total_weight(crate::choice::domain_weights(c.domains.profiles@)) > 0
    &&& crate::choice::total_weight(
        crate::choice::extension_count_weights(c.building_extensions),
    ) > 0
    &&& crate::choice::total_weight(
        crate::choice::extension_kind_weights(c.building_extensions),
    ) > 0
    &&& crate::choice::total_weight(
        crate::choice::extension_roof_weights(c.building_extensions),
    ) > 0
    &&& crate::choice::total_weight(crate::choice::sign_weights(c.signage)) > 0
    &&& crate::choice::total_weight(crate::choice::vegetation_kind_weights(c.vegetation)) > 0
}

/// A roof profile whose ranges all meet the global ones.
pub open spec fn supported_profile(c: GeneratorConfig, profile: RoofMorphologyProfile) -> bool {
    &&& roof_ranges(&c.roof, profile) is Some
    &&& aspect_range(c.scene, profile) is Some
}

/// A domain whose counts can all be drawn.
pub open spec fn supported_domain(
    c: CompositionSamplingConfig,
    domain: SceneDomainProfile,
) -> bool {
    &&& intersect_u32_ranges(
        c.background_buildings.count,
        domain.background_buildings,
    ).is_valid()
    &&& intersect_u32_ranges(c.vegetation.count, domain.vegetation).is_valid()
    &&& domain.parking_bays.is_valid()
    &&& domain.road_lanes.is_valid()
    &&& domain.utility_poles.is_valid()
    &&& domain.utility_poles.max <= 65_535
}

/// A configuration from which everything can be drawn.
pub open spec fn supported(c: GeneratorConfig) -> bool {
    &&& weighted(c)
    &&& weighted_composition(c.composition)
    &&& c.occluders.count.is_valid()
    &&& forall|i: int|
        0 <= i < c.roof.profiles@.len() ==> supported_profile(c, #[trigger] c.roof.profiles@[i])
    &&& forall|i: int|
        0 <= i < c.composition.domains.profiles@.len() ==> supported_domain(
            c.composition,
            #[trigger] c.composition.domains.profiles@[i],
        )
}

proof fn lemma_profile(c: GeneratorConfig, n: nat, i: int)
    requires
        crate::report::met(crate::check_config::roof_rules(c.roof)),
        crate::report::met(crate::check_config::shell_rules(c.scene)),
        crate::report::met(crate::check_config::first_profile_rules(c, n)),
        0 <= i < n,
    ensures
        supported_profile(c, c.roof.profiles@[i]),
    decreases n,
{
    broadcast use crate::report::group_acceptance;

    if i < n - 1 {
        lemma_profile(c, (n - 1) as nat, i);
    }
}

proof fn lemma_domain(c: CompositionSamplingConfig, n: nat, i: int)
    requires
        crate::report::met(
            crate::check_composition::first_domain_rules(
                c.domains.profiles@,
                c.background_buildings,
                c.vegetation,
                n,
            ),
        ),
        0 <= i < n,
    ensures
        supported_domain(c, c.domains.profiles@[i]),
    decreases n,
{
    broadcast use crate::report::group_acceptance;

    if i < n - 1 {
        lemma_domain(c, (n - 1) as nat, i);
    }
}

proof fn lemma_materials(path: Seq<char>, materials: Seq<crate::config::MaterialChoice>)
    requires
        crate::report::met(crate::check_values::materials_rules(path, materials)),
    ensures
        crate::choice::total_weight(crate::choice::material_weights(materials)) > 0,
{
    broadcast use crate::report::group_acceptance;

    let weights = crate::choice::material_weights(materials);
    let i = choose|i: int| 0 <= i < materials.len() && (#[trigger] materials[i]).weight != 0;
    assert(weights[i] == materials[i].weight);
    crate::choice::lemma_total_positive(weights, i);
}

proof fn lemma_profiles_weight(profiles: Seq<RoofMorphologyProfile>)
    requires
        !crate::check_config::weightless_profiles(profiles),
    ensures
        crate::choice::total_weight(crate::choice::roof_profile_weights(profiles)) > 0,
{
    let i = choose|i: int| 0 <= i < profiles.len() && (#[trigger] profiles[i]).weight != 0;
    assert(crate::choice::roof_profile_weights(profiles)[i] == profiles[i].weight);
    crate::choice::lemma_total_positive(crate::choice::roof_profile_weights(profiles), i);
}

proof fn lemma_clutter_weight(choices: Seq<OccluderChoice>)
    requires
        !crate::check_config::without_ground_clutter(choices),
    ensures
        crate::choice::total_weight(crate::choice::ground_weights(choices)) > 0,
{
    let j = choose|j: int|
        0 <= j < choices.len() && (#[trigger] choices[j]).kind != OccluderKind::RooftopEquipment
            && choices[j].weight != 0;
    assert(crate::choice::ground_weights(choices)[j] == choices[j].weight);
    crate::choice::lemma_total_positive(crate::choice::ground_weights(choices), j);
}

proof fn lemma_first_positive(weights: Seq<u32>, a: int, b: int, c: int, d: int)
    requires
        0 <= a < weights.len(),
        0 <= b < weights.len(),
        0 <= c < weights.len(),
        0 <= d < weights.len(),
        weights[a] > 0 || weights[b] > 0 || weights[c] > 0 || weights[d] > 0,
    ensures
        crate::choice::total_weight(weights) > 0,
{
    crate::choice::lemma_total_positive(
        weights,
        if weights[a] > 0 {
            a
        } else if weights[b] > 0 {
            b
        } else if weights[c] > 0 {
            c
        } else {
            d
        },
    );
}

proof fn lemma_camera_weights(camera: CameraSamplingConfig)
    requires
        crate::report::met(crate::check_config::camera_sampling_rules(camera)),
    ensures
        crate::choice::total_weight(crate::choice::camera_path_weights(camera)) > 0,
        crate::choice::view_weight(camera) > 0,
{
    broadcast use crate::report::group_acceptance;

    lemma_first_positive(crate::choice::camera_path_weights(camera), 0, 1, 2, 3);
}

proof fn lemma_clutter(occluders: OccluderSamplingConfig)
    requires
        crate::report::met(crate::check_config::clutter_rules(occluders)),
    ensures
        crate::choice::total_weight(crate::choice::ground_weights(occluders.choices@)) > 0,
        occluders.count.is_valid(),
{
    broadcast use crate::report::group_acceptance;

    lemma_clutter_weight(occluders.choices@);
}

proof fn lemma_profiles(c: GeneratorConfig)
    requires
        crate::report::met(crate::check_config::profiles_rules(c)),
        crate::report::met(crate::check_config::roof_rules(c.roof)),
        crate::report::met(crate::check_config::shell_rules(c.scene)),
    ensures
        crate::choice::total_weight(crate::choice::roof_profile_weights(c.roof.profiles@)) > 0,
        forall|i: int|
            0 <= i < c.roof.profiles@.len() ==> supported_profile(
                c,
                #[trigger] c.roof.profiles@[i],
            ),
{
    broadcast use crate::report::group_acceptance;

    lemma_profiles_weight(c.roof.profiles@);
    assert forall|i: int| 0 <= i < c.roof.profiles@.len() implies supported_profile(
        c,
        #[trigger] c.roof.profiles@[i],
    ) by {
        lemma_profile(c, c.roof.profiles@.len(), i);
    }
}

proof fn lemma_surfaces(c: CompositionSamplingConfig)
    requires
        crate::report::met(crate::check_composition::surfaces_rules(c)),
    ensures
        crate::choice::total_weight(crate::choice::material_weights(c.ground_materials@)) > 0,
        crate::choice::total_weight(
            crate::choice::material_weights(c.facade.glazing_materials@),
        ) > 0,
{
    broadcast use crate::report::group_acceptance;

    lemma_materials("composition.ground_materials"@, c.ground_materials@);
    lemma_materials("composition.facade.glazing_materials"@, c.facade.glazing_materials@);
}

proof fn lemma_extensions(extensions: BuildingExtensionSamplingConfig)
    requires
        crate::report::met(crate::check_composition::extension_sampling_rules(extensions)),
    ensures
        crate::choice::total_weight(crate::choice::extension_count_weights(extensions)) > 0,
        crate::choice::total_weight(crate::choice::extension_kind_weights(extensions)) > 0,
        crate::choice::total_weight(crate::choice::extension_roof_weights(extensions)) > 0,
{
    broadcast use crate::report::group_acceptance;

    lemma_first_positive(crate::choice::extension_count_weights(extensions), 0, 1, 2, 2);
    lemma_first_positive(crate::choice::extension_kind_weights(extensions), 0, 1, 2, 2);
    lemma_first_positive(crate::choice::extension_roof_weights(extensions), 0, 1, 1, 1);
}

proof fn lemma_signage(signage: SignageSamplingConfig)
    requires
        crate::report::met(crate::check_composition::signage_sampling_rules(signage)),
    ensures
        crate::choice::total_weight(crate::choice::sign_weights(signage)) > 0,
{
    broadcast use crate::report::group_acceptance;

    lemma_first_positive(crate::choice::sign_weights(signage), 0, 1, 2, 3);
}

proof fn lemma_vegetation(vegetation: VegetationSamplingConfig)
    requires
        crate::report::met(crate::check_composition::vegetation_rules(vegetation)),
    ensures
        crate::choice::total_weight(crate::choice::vegetation_kind_weights(vegetation)) > 0,
{
    broadcast use crate::report::group_acceptance;

    lemma_first_positive(crate::choice::vegetation_kind_weights(vegetation), 0, 1, 2, 3);
}

proof fn lemma_weathers(profiles: Seq<WeatherProfile>, lighting: LightingSamplingConfig)
    requires
        crate::report::met(crate::check_composition::weathers_rules(profiles, lighting)),
    ensures
        crate::choice::total_weight(crate::choice::weather_weights(profiles)) > 0,
{
    broadcast use crate::report::group_acceptance;

    let i = choose|i: int| 0 <= i < profiles.len() && (#[trigger] profiles[i]).weight != 0;
    assert(crate::choice::weather_weights(profiles)[i] == profiles[i].weight);
    crate::choice::lemma_total_positive(crate::choice::weather_weights(profiles), i);
}

proof fn lemma_day_phases(profiles: Seq<DayPhaseProfile>, lighting: LightingSamplingConfig)
    requires
        crate::report::met(crate::check_composition::day_phases_rules(profiles, lighting)),
    ensures
        crate::choice::total_weight(crate::choice::day_phase_weights(profiles)) > 0,
{
    broadcast use crate::report::group_acceptance;

    let i = choose|i: int| 0 <= i < profiles.len() && (#[trigger] profiles[i]).weight != 0;
    assert(crate::choice::day_phase_weights(profiles)[i] == profiles[i].weight);
    crate::choice::lemma_total_positive(crate::choice::day_phase_weights(profiles), i);
}

proof fn lemma_domains(c: CompositionSamplingConfig)
    requires
        crate::report::met(
            crate::check_composition::domains_rules(
                c.domains.profiles@,
                c.background_buildings,
                c.vegetation,
            ),
        ),
    ensures
        crate::choice::total_weight(crate::choice::domain_weights(c.domains.profiles@)) > 0,
        forall|i: int|
            0 <= i < c.domains.profiles@.len() ==> supported_domain(
                c,
                #[trigger] c.domains.profiles@[i],
            ),
{
    broadcast use crate::report::group_acceptance;

    let profiles = c.domains.profiles@;
    let i = choose|i: int| 0 <= i < profiles.len() && (#[trigger] profiles[i]).weight != 0;
    assert(crate::choice::domain_weights(profiles)[i] == profiles[i].weight);
    crate::choice::lemma_total_positive(crate::choice::domain_weights(profiles), i);
    assert forall|i: int| 0 <= i < profiles.len() implies supported_domain(
        c,
        #[trigger] profiles[i],
    ) by {
        lemma_domain(c, profiles.len(), i);
    }
}

proof fn lemma_composition(c: GeneratorConfig)
    requires
        crate::report::met(crate::check_composition::composition_rules(c)),
    ensures
        weighted_composition(c.composition),
        forall|i: int|
            0 <= i < c.composition.domains.profiles@.len() ==> supported_domain(
                c.composition,
                #[trigger] c.composition.domains.profiles@[i],
            ),
{
    let composition = c.composition;
    let parts = (
        crate::check_composition::surfaces_rules(composition),
        crate::check_composition::extension_sampling_rules(composition.building_extensions),
        crate::check_composition::signage_sampling_rules(composition.signage),
        crate::check_composition::day_phases_rules(
            composition.day_phase.profiles@,
            c.lighting,
        ),
        crate::check_composition::weathers_rules(composition.weather.profiles@, c.lighting),
        crate::check_composition::domains_rules(
            composition.domains.profiles@,
            composition.background_buildings,
            composition.vegetation,
        ),
        crate::check_composition::background_rules(composition.background_buildings),
        crate::check_composition::vegetation_rules(composition.vegetation),
    );
    lemma_eight_parts(
        parts.0,
        parts.1,
        parts.2,
        parts.3,
        parts.4,
        parts.5,
        parts.6,
        parts.7,
    );
    lemma_surfaces(composition);
    lemma_extensions(composition.building_extensions);
    lemma_signage(composition.signage);
    lemma_day_phases(composition.day_phase.profiles@, c.lighting);
    lemma_weathers(composition.weather.profiles@, c.lighting);
    lemma_domains(composition);
    lemma_vegetation(composition.vegetation);
}

proof fn lemma_eight_parts(
    a: Seq<Rule>,
    b: Seq<Rule>,
    c: Seq<Rule>,
    d: Seq<Rule>,
    e: Seq<Rule>,
    f: Seq<Rule>,
    g: Seq<Rule>,
    h: Seq<Rule>,
)
    requires
        crate::report::met(a + b + c + d + e + f + g + h),
    ensures
        crate::report::met(a),
        crate::report::met(b),
        crate::report::met(c),
        crate::report::met(d),
        crate::report::met(e),
        crate::report::met(f),
        crate::report::met(g),
        crate::report::met(h),
{
    broadcast use crate::report::group_acceptance;

}

proof fn lemma_parts(c: GeneratorConfig)
    requires
        crate::report::met(c.rules()),
    ensures
        crate::report::met(crate::check_config::shell_rules(c.scene)),
        crate::report::met(crate::check_config::roof_rules(c.roof)),
        crate::report::met(crate::check_config::profiles_rules(c)),
        crate::report::met(crate::check_config::camera_sampling_rules(c.camera)),
        crate::report::met(
            crate::check_values::materials_rules("materials.roof"@, c.materials.roof@),
        ),
        crate::report::met(
            crate::check_values::materials_rules("materials.walls"@, c.materials.walls@),
        ),
        crate::report::met(crate::check_config::clutter_rules(c.occluders)),
        crate::report::met(crate::check_composition::composition_rules(c)),
{
    let head = crate::check_config::output_rules(c);
    let shell = crate::check_config::shell_rules(c.scene);
    let roof = crate::check_config::roof_rules(c.roof);
    let profiles = crate::check_config::profiles_rules(c);
    let camera = crate::check_config::camera_sampling_rules(c.camera);
    let first = crate::check_values::materials_rules("materials.roof"@, c.materials.roof@);
    let second = crate::check_values::materials_rules("materials.walls"@, c.materials.walls@);
    let lighting = crate::check_config::lighting_rules(c.lighting);
    let clutter = crate::check_config::clutter_rules(c.occluders);
    let composition = crate::check_composition::composition_rules(c);
    crate::report::met_concat(
        head + shell + roof + profiles + camera + first + second + lighting + clutter,
        composition,
    );
    crate::report::met_concat(
        head + shell + roof + profiles + camera + first + second + lighting,
        clutter,
    );
    lemma_eight_parts(head, shell, roof, profiles, camera, first, second, lighting);
}

/// An accepted configuration leaves nothing that cannot be drawn: every distribution has
/// weight, every roof profile meets the global ranges, and every domain count is possible.
pub proof fn accepted_configurations_are_supported(c: GeneratorConfig)
    requires
        crate::report::met(c.rules()),
    ensures
        supported(c),
{
    lemma_parts(c);
    lemma_profiles(c);
    lemma_camera_weights(c.camera);
    lemma_materials("materials.roof"@, c.materials.roof@);
    lemma_materials("materials.walls"@, c.materials.walls@);
    lemma_clutter(c.occluders);
    lemma_composition(c);
}

/// Building, roofs, finishes and light of a scene.
#[derive(Clone, Debug, PartialEq, Eq)]
pub struct ShellDraft {
    /// Building envelope.
    pub building: SampledBuilding,
    /// Two-tier target dimensions.
    pub roof: SampledRoof,
    /// Non-target roof of a negative.
    pub ordinary_roof: Option<SampledOrdinaryRoof>,
    /// Roof finish.
    pub roof_material: SampledMaterial,
    /// Wall finish.
    pub wall_material: SampledMaterial,
    /// Lighting environment.
    pub lighting: SampledLighting,
    /// Correlated environment regime.
    pub environment: SampledEnvironment,
}

/// Everything around a building, before its neighbours and plants have their places.
#[derive(Clone, Debug, PartialEq, Eq)]
pub struct SiteDraft {
    /// Ground material.
    pub ground_material: SampledMaterial,
    /// Facade detail.
    pub facade: SampledFacade,
    /// Attached building volumes.
    pub building_extensions: Vec<SampledBuildingExtension>,
    /// Signs.
    pub signage: Vec<SampledSignage>,
    /// Neighbours, each with the direction in which it stands.
    pub background_buildings: Vec<BackgroundPlacement>,
    /// Plants, each with the direction in which it stands.
    pub vegetation: Vec<VegetationPlacement>,
    /// Parking, road, poles and lines.
    pub infrastructure: SampledSiteInfrastructure,
}

/// A scene before its neighbours and plants have their places.
#[derive(Clone, Debug, PartialEq, Eq)]
pub struct SceneDraft {
    /// Building, roofs, finishes and light.
    pub shell: ShellDraft,
    /// Everything around the building.
    pub site: SiteDraft,
}

/// The roof profile of a seed.
pub open spec fn profile_of(c: GeneratorConfig, seed: u64) -> RoofMorphologyProfile {
    let profiles = c.roof.profiles@;
    profiles[crate::choice::chosen(
        Draws::of(seed, "roof-morphology"),
        crate::choice::roof_profile_weights(profiles),
    ).0]
}

/// The site domain of a seed.
pub open spec fn domain_of(c: GeneratorConfig, seed: u64) -> SceneDomainProfile {
    let profiles = c.composition.domains.profiles@;
    profiles[crate::choice::chosen(
        Draws::of(seed, "site-domain"),
        crate::choice::domain_weights(profiles),
    ).0]
}

/// The building of a seed; none where rounding leaves no footprint for the drawn aspect
/// ratio.
pub open spec fn building_of(c: GeneratorConfig, seed: u64) -> Option<SampledBuilding> {
    sample_building(c.scene, seed, profile_of(c, seed))
}

/// The shell of a draft is that of a seed.
pub open spec fn shell_is(
    draft: ShellDraft,
    c: GeneratorConfig,
    request: SequenceRequest,
    building: SampledBuilding,
) -> bool {
    let seed = request.building_seed;
    &&& draft.building == building
    &&& Some(draft.roof) == sample_roof(&c.roof, seed, building, profile_of(c, seed))
    &&& draft.ordinary_roof == if request.target_kind == TargetKind::Negative {
        Some(
            crate::sample_shell::ordinary_roof(seed, draft.roof, request.building_family@),
        )
    } else {
        None
    }
    &&& draft.roof_material == crate::sample_shell::palette_material(
        Draws::of(seed, "roof-material"),
        c.materials.roof@,
    ).0
    &&& draft.wall_material == crate::sample_shell::palette_material(
        Draws::of(seed, "wall-material"),
        c.materials.walls@,
    ).0
    &&& (draft.lighting, draft.environment) == crate::sample_shell::light_and_environment(
        seed,
        c.lighting,
        c.composition.weather.profiles@,
        c.composition.day_phase.profiles@,
        domain_of(c, seed).domain,
    )
}

/// The site of a draft is that of a seed.
pub open spec fn site_is(
    draft: SiteDraft,
    c: GeneratorConfig,
    seed: u64,
    building: SampledBuilding,
    phase: DayPhase,
) -> bool {
    let composition = c.composition;
    let domain = domain_of(c, seed);
    &&& draft.ground_material == crate::sample_shell::palette_material(
        Draws::of(seed, "ground-material"),
        composition.ground_materials@,
    ).0
    &&& draft.facade == crate::sample_site::facade_of(seed, composition.facade, building)
    &&& draft.building_extensions@ == crate::sample_site::extensions_of(
        seed,
        composition.building_extensions,
        building,
    )
    &&& draft.signage@ == crate::sample_site::signs_of(
        seed,
        composition.signage,
        building,
        phase,
    )
    &&& draft.background_buildings@ == crate::sample_site::backgrounds_of(
        seed,
        composition.background_buildings,
        c.materials.walls@,
        building,
        domain,
    )
    &&& draft.vegetation@ == crate::sample_site::plants_of(
        seed,
        composition.vegetation,
        building,
        domain,
    )
    &&& crate::sample_site::is_infrastructure_of(draft.infrastructure, seed, building, domain)
}

/// The draft of a request under a configuration: none exactly where there is no building.
pub open spec fn draft_is(
    draft: Option<SceneDraft>,
    c: GeneratorConfig,
    request: SequenceRequest,
) -> bool {
    match building_of(c, request.building_seed) {
        Some(building) => draft matches Some(draft) && shell_is(draft.shell, c, request, building)
            && site_is(
            draft.site,
            c,
            request.building_seed,
            building,
            draft.shell.environment.day_phase,
        ),
        None => draft is None,
    }
}

fn draft_domain(config: &GeneratorConfig, seed: u64) -> (r: SceneDomainProfile)
    requires
        countable(*config),
        supported(*config),
    ensures
        r == domain_of(*config, seed),
        supported_domain(config.composition, r),
{
    let domain = sample_domain(seed, &config.composition.domains.profiles);
    assert(supported_domain(config.composition, domain)) by {
        let profiles = config.composition.domains.profiles@;
        let at = choose|at: int| 0 <= at < profiles.len() && profiles[at] == domain;
        assert(supported_domain(config.composition, profiles[at]));
    }
    domain
}

fn draft_profile(config: &GeneratorConfig, seed: u64) -> (r: RoofMorphologyProfile)
    requires
        countable(*config),
        supported(*config),
    ensures
        r == profile_of(*config, seed),
        supported_profile(*config, r),
        config.roof.profiles@.contains(r),
{
    let profile = sample_roof_profile(seed, &config.roof.profiles);
    assert(supported_profile(*config, profile)) by {
        let profiles = config.roof.profiles@;
        let at = choose|at: int| 0 <= at < profiles.len() && profiles[at] == profile;
        assert(supported_profile(*config, profiles[at]));
    }
    profile
}

fn draft_shell(
    config: &GeneratorConfig,
    request: &SequenceRequest,
    domain: SceneDomainProfile,
) -> (r: Option<ShellDraft>)
    requires
        countable(*config),
        supported(*config),
        domain == domain_of(*config, request.building_seed),
    ensures
        match building_of(*config, request.building_seed) {
            Some(building) => r matches Some(draft) && shell_is(
                draft,
                *config,
                *request,
                building,
            ),
            None => r is None,
        },
        config.is_standard() ==> r is Some,
{
    let seed: u64 = request.building_seed;
    let profile = draft_profile(config, seed);
    proof {
        if config.is_standard() {
            crate::standard::standard_profiles_have_buildings(seed, profile);
        }
    }
    let building = match sample_building(config.scene, seed, profile) {
        Some(building) => building,
        None => return None,
    };
    let roof = match sample_roof(&config.roof, seed, building, profile) {
        Some(roof) => roof,
        None => return None,
    };
    let ordinary_roof = if request.target_kind == TargetKind::Negative {
        Some(sample_ordinary_roof(seed, roof, request))
    } else {
        None
    };
    let light = sample_environment(
        seed,
        config.lighting,
        &config.composition.weather.profiles,
        &config.composition.day_phase.profiles,
        domain.domain,
    );
    Some(
        ShellDraft {
            building,
            roof,
            ordinary_roof,
            roof_material: sample_material(seed, &config.materials.roof, true),
            wall_material: sample_material(seed, &config.materials.walls, false),
            lighting: light.0,
            environment: light.1,
        },
    )
}

fn draft_site(
    config: &GeneratorConfig,
    seed: u64,
    domain: SceneDomainProfile,
    building: SampledBuilding,
    phase: DayPhase,
) -> (r: SiteDraft)
    requires
        countable(*config),
        supported(*config),
        domain == domain_of(*config, seed),
        supported_domain(config.composition, domain),
    ensures
        site_is(r, *config, seed, building, phase),
{
    let composition = &config.composition;
    let ground = resolved_material(
        Draws::of(seed, "ground-material"),
        &composition.ground_materials,
    );
    SiteDraft {
        ground_material: ground.0,
        facade: sample_facade(seed, &composition.facade, building),
        building_extensions: sample_building_extensions(
            seed,
            composition.building_extensions,
            building,
        ),
        signage: sample_signage(seed, composition.signage, building, phase),
        background_buildings: sample_background_buildings(
            seed,
            composition.background_buildings,
            &config.materials.walls,
            building,
            domain,
        ),
        vegetation: sample_vegetation(seed, composition.vegetation, building, domain),
        infrastructure: sample_infrastructure(seed, building, domain),
    }
}

impl SiteDraft {
    /// There is a turn for the direction of each neighbour and plant.
    pub open spec fn covered(self, backgrounds: Seq<Turn>, plants: Seq<Turn>) -> bool {
        &&& backgrounds.len() == self.background_buildings@.len()
        &&& plants.len() == self.vegetation@.len()
    }

    /// The composition once neighbours and plants have their places.
    pub open spec fn composed(
        self,
        environment: SampledEnvironment,
        r: SampledComposition,
        backgrounds: Seq<Turn>,
        plants: Seq<Turn>,
    ) -> bool {
        &&& r.source_asset_ids@.len() == 0
        &&& r.environment == Some(environment)
        &&& r.ground_material == Some(self.ground_material)
        &&& r.facade == Some(self.facade)
        &&& r.building_extensions == self.building_extensions
        &&& r.signage == self.signage
        &&& r.background_buildings@.len() == self.background_buildings@.len()
        &&& forall|i: int|
            0 <= i < self.background_buildings@.len() ==> #[trigger] r.background_buildings@[i]
                == self.background_buildings@[i].placed(backgrounds[i])
        &&& r.vegetation@.len() == self.vegetation@.len()
        &&& forall|i: int|
            0 <= i < self.vegetation@.len() ==> #[trigger] r.vegetation@[i]
                == self.vegetation@[i].placed(plants[i])
        &&& r.infrastructure == Some(self.infrastructure)
    }
}

/// Puts neighbours and plants at their places, given the turns of their directions.
pub fn compose(
    site: SiteDraft,
    environment: SampledEnvironment,
    backgrounds: &Vec<Turn>,
    plants: &Vec<Turn>,
) -> (r: SampledComposition)
    requires
        site.covered(backgrounds@, plants@),
    ensures
        site.composed(environment, r, backgrounds@, plants@),
{
    let ghost all = site;
    let mut built: Vec<SampledBackgroundBuilding> = Vec::new();
    let mut i: usize = 0;
    while i < backgrounds.len()
        invariant
            backgrounds@.len() == all.background_buildings@.len(),
            site.background_buildings == all.background_buildings,
            i <= backgrounds@.len(),
            built@.len() == i,
            forall|j: int|
                0 <= j < i ==> #[trigger] built@[j] == all.background_buildings@[j].placed(
                    backgrounds@[j],
                ),
        decreases backgrounds@.len() - i,
    {
        built.push(site.background_buildings[i].place(backgrounds[i]));
        i = i + 1;
    }
    let mut planted: Vec<SampledVegetation> = Vec::new();
    let mut k: usize = 0;
    while k < plants.len()
        invariant
            plants@.len() == all.vegetation@.len(),
            site.vegetation == all.vegetation,
            k <= plants@.len(),
            planted@.len() == k,
            forall|j: int|
                0 <= j < k ==> #[trigger] planted@[j] == all.vegetation@[j].placed(plants@[j]),
        decreases plants@.len() - k,
    {
        planted.push(site.vegetation[k].placed(plants[k]));
        k = k + 1;
    }
    SampledComposition {
        source_asset_ids: Vec::new(),
        environment: Some(environment),
        ground_material: Some(site.ground_material),
        facade: Some(site.facade),
        building_extensions: site.building_extensions,
        signage: site.signage,
        background_buildings: built,
        vegetation: planted,
        infrastructure: Some(site.infrastructure),
    }
}

/// What the fingerprint of a configuration covers.
pub open spec fn fingerprint_text(encoded: Seq<u8>) -> Seq<char> {
    "stable64:"@ + crate::text::hex(
        crate::deterministic::stable_hash(
            seq![crate::deterministic::bytes_of("generator-config-v2"@), encoded],
        ) as int,
        16,
    )
}

/// The reproducibility fingerprint of an encoded configuration.
pub fn config_fingerprint(encoded: &[u8]) -> (r: String)
    ensures
        r@ == fingerprint_text(encoded@),
{
    let mut parts: Vec<&[u8]> = Vec::new();
    parts.push("generator-config-v2".as_bytes());
    parts.push(encoded);
    let hash = stable_hash64(parts.as_slice());
    assert(crate::deterministic::contents(parts@)
        =~= seq![crate::deterministic::bytes_of("generator-config-v2"@), encoded@]);
    let mut r: String = "stable64:".to_owned();
    push_hex(&mut r, hash, 16);
    r
}

/// Validated deterministic sampler. It is cheap to clone and safe to use per job.
#[derive(Clone, Debug)]
pub struct SequenceSampler {
    config: GeneratorConfig,
    config_fingerprint: String,
}

impl SequenceSampler {
    /// The configuration.
    pub closed spec fn configuration(&self) -> GeneratorConfig {
        self.config
    }

    /// The fingerprint.
    pub closed spec fn fingerprint(&self) -> Seq<char> {
        self.config_fingerprint@
    }

    /// The configuration was accepted.
    #[verifier::opaque]
    pub open spec fn wf(&self) -> bool {
        &&& crate::report::met(self.configuration().rules())
        &&& countable(self.configuration())
    }

    /// Validates a generator configuration and fingerprints its encoding.
    pub fn new(config: GeneratorConfig, encoded: &[u8]) -> (r: Result<Self, SamplingError>)
        requires
            countable(config),
        ensures
            match r {
                Ok(sampler) => {
                    &&& crate::report::met(config.rules())
                    &&& sampler.wf()
                    &&& sampler.configuration() == config
                    &&& sampler.fingerprint() == fingerprint_text(encoded@)
                },
                Err(error) => {
                    &&& !crate::report::met(config.rules())
                    &&& error matches SamplingError::InvalidConfig(report) && report@
                        == crate::report::broken(config.rules())
                },
            },
            config.is_standard() ==> r is Ok,
    {
        proof {
            if config.is_standard() {
                crate::check_config::standard_configurations_are_accepted(config);
            }
        }
        let report = config.validate();
        if !report.is_valid() {
            return Err(SamplingError::InvalidConfig(report));
        }
        let config_fingerprint = config_fingerprint(encoded);
        proof {
            reveal(SequenceSampler::wf);
        }
        Ok(SequenceSampler { config, config_fingerprint })
    }

    /// Returns the validated configuration.
    pub fn config(&self) -> (r: &GeneratorConfig)
        ensures
            *r == self.configuration(),
    {
        &self.config
    }

    /// Returns the reproducibility fingerprint stored in plans and manifests.
    pub fn config_fingerprint(&self) -> (r: &str)
        ensures
            r@ == self.fingerprint(),
    {
        self.config_fingerprint.as_str()
    }

    /// Samples everything of a scene but the places of neighbours and plants, from
    /// independent ChaCha20 substreams. There is no draft where rounding leaves no
    /// footprint for the drawn aspect ratio, which never happens with the standard
    /// configuration.
    pub fn draft(&self, request: &SequenceRequest) -> (r: Result<
        Option<SceneDraft>,
        SamplingError,
    >)
        requires
            self.wf(),
        ensures
            match r {
                Ok(draft) => !crate::text::blank(request.building_family@) && draft_is(
                    draft,
                    self.configuration(),
                    *request,
                ),
                Err(error) => crate::text::blank(request.building_family@) && error
                    == SamplingError::EmptyBuildingFamily,
            },
            self.configuration().is_standard() ==> r != Ok::<Option<SceneDraft>, SamplingError>(
                None,
            ),
    {
        if is_blank(&request.building_family) {
            return Err(SamplingError::EmptyBuildingFamily);
        }
        proof {
            reveal(SequenceSampler::wf);
            accepted_configurations_are_supported(self.config);
        }
        let domain = draft_domain(&self.config, request.building_seed);
        match draft_shell(&self.config, request, domain) {
            Some(shell) => {
                let site = draft_site(
                    &self.config,
                    request.building_seed,
                    domain,
                    shell.building,
                    shell.environment.day_phase,
                );
                Ok(Some(SceneDraft { shell, site }))
            },
            None => Ok(None),
        }
    }

    /// The building with its ground widened to all content and every camera.
    pub open spec fn grounded(
        building: SampledBuilding,
        roof: RoofEnvelope,
        composition: SampledComposition,
        occluders: Seq<SampledOccluder>,
        turns: SceneTurns,
        frames: Seq<CameraFramePlan>,
    ) -> SampledBuilding {
        let extent = crate::geometry::content_half_extent(
            building,
            roof,
            composition,
            occluders,
            turns,
            crate::geometry::camera_positions(frames),
        );
        SampledBuilding {
            ground_half_extent_m: building.ground_half_extent_m.max(
                extent.plus(ground_edge_margin_m()),
            ),
            ..building
        }
    }

    /// A plan that holds a sampled scene and its cameras.
    pub open spec fn planned(
        self,
        plan: SequencePlan,
        request: SequenceRequest,
        scene: SampledScene,
        turns: SceneTurns,
        camera_motion: CameraMotionPlan,
        frames: Vec<CameraFramePlan>,
    ) -> bool {
        &&& plan.sequence_id@ == crate::plan::sequence_id_text(request, self.fingerprint())
        &&& plan.request == request
        &&& plan.config_fingerprint@ == self.fingerprint()
        &&& plan.scene == SampledScene {
            building: SequenceSampler::grounded(
                scene.building,
                actual_roof_envelope(&scene),
                scene.composition,
                scene.occluders@,
                turns,
                frames@,
            ),
            ..scene
        }
        &&& plan.frames == frames
        &&& plan.camera_motion == camera_motion
    }

    /// Assembles the plan of a sampled scene and its cameras: widens the ground to all of
    /// them and gives the sequence its identifier.
    pub fn finish(
        &self,
        request: SequenceRequest,
        scene: SampledScene,
        turns: &SceneTurns,
        camera_motion: CameraMotionPlan,
        frames: Vec<CameraFramePlan>,
    ) -> (r: SequencePlan)
        requires
            turns.cover(scene),
        ensures
            self.planned(r, request, scene, *turns, camera_motion, frames),
    {
        let cameras = find_camera_positions(&frames);
        let extent = sampled_content_half_extent(
            scene.building,
            actual_roof_envelope(&scene),
            &scene.composition,
            &scene.occluders,
            turns,
            &cameras,
        );
        let building = SampledBuilding {
            footprint_width_m: scene.building.footprint_width_m,
            footprint_depth_m: scene.building.footprint_depth_m,
            wall_height_m: scene.building.wall_height_m,
            ground_half_extent_m: scene.building.ground_half_extent_m.max(
                extent.plus(ground_edge_margin_m()),
            ),
        };
        let id = sequence_id(&request, self.config_fingerprint.as_str());
        SequencePlan {
            sequence_id: id,
            request,
            config_fingerprint: self.config_fingerprint.clone(),
            scene: SampledScene { building, ..scene },
            frames,
            camera_motion,
        }
    }
}

/// The ground of a finished plan holds all content and every camera with a margin: it is
/// at least their extent plus the margin.
pub proof fn finished_ground_holds_all_content(
    sampler: SequenceSampler,
    plan: SequencePlan,
    request: SequenceRequest,
    scene: SampledScene,
    turns: SceneTurns,
    camera_motion: CameraMotionPlan,
    frames: Vec<CameraFramePlan>,
)
    requires
        sampler.planned(plan, request, scene, turns, camera_motion, frames),
        crate::geometry::content_half_extent(
            scene.building,
            actual_roof_envelope(&scene),
            scene.composition,
            scene.occluders@,
            turns,
            crate::geometry::camera_positions(frames@),
        ).is_finite(),
    ensures
        crate::geometry::content_half_extent(
            scene.building,
            actual_roof_envelope(&scene),
            scene.composition,
            scene.occluders@,
            turns,
            crate::geometry::camera_positions(frames@),
        ).plus(ground_edge_margin_m()).at_most(plan.scene.building.ground_half_extent_m),
{
    let extent = crate::geometry::content_half_extent(
        scene.building,
        actual_roof_envelope(&scene),
        scene.composition,
        scene.occluders@,
        turns,
        crate::geometry::camera_positions(frames@),
    );
    crate::single::lemma_margin(extent);
}

/// A finished plan passes the rule that its ground holds the content of its scene.
pub proof fn finished_scenes_stand_on_their_ground(
    sampler: SequenceSampler,
    plan: SequencePlan,
    request: SequenceRequest,
    scene: SampledScene,
    turns: SceneTurns,
    camera_motion: CameraMotionPlan,
    frames: Vec<CameraFramePlan>,
)
    requires
        sampler.planned(plan, request, scene, turns, camera_motion, frames),
        crate::geometry::content_half_extent(
            scene.building,
            actual_roof_envelope(&scene),
            scene.composition,
            scene.occluders@,
            turns,
            crate::geometry::camera_positions(frames@),
        ).is_finite(),
        !crate::geometry::cluttered_extent(
            actual_roof_envelope(&scene),
            scene.composition,
            scene.occluders@,
            turns,
        ).is_nan(),
    ensures
        !crate::check_scene::off_ground(plan.scene, turns),
{
    let roof = actual_roof_envelope(&scene);
    let cameras = crate::geometry::camera_positions(frames@);
    let wide = crate::geometry::content_half_extent(
        scene.building,
        roof,
        scene.composition,
        scene.occluders@,
        turns,
        cameras,
    );
    let bare = crate::geometry::content_half_extent(
        plan.scene.building,
        actual_roof_envelope(&plan.scene),
        plan.scene.composition,
        plan.scene.occluders@,
        turns,
        Seq::empty(),
    );
    finished_ground_holds_all_content(
        sampler,
        plan,
        request,
        scene,
        turns,
        camera_motion,
        frames,
    );
    crate::geometry::cameras_only_widen(
        scene.building,
        roof,
        scene.composition,
        scene.occluders@,
        turns,
        cameras,
    );
    let ground = plan.scene.building.ground_half_extent_m;
    let margin = ground_edge_margin_m();
    let slack = Single::ratio(1, 1000);
    crate::single::fractions_lie_in_the_unit_interval(1, 1000);
    crate::single::lemma_four();
    if bare.is_finite() {
        crate::single::sums_are_monotone(bare, wide, margin);
    } else {
        crate::single::lemma_margin(bare);
    }
    if ground.is_finite() {
        crate::single::sums_do_not_shrink(ground, slack);
    } else {
        reveal(Single::spec_plus);
    }
}

/// A negative and a target of the same seed share building, roof reference, finishes and
/// light: only the roof that is rendered tells them apart.
pub proof fn paired_requests_share_their_scene(
    c: GeneratorConfig,
    a: SequenceRequest,
    b: SequenceRequest,
    first: SceneDraft,
    second: SceneDraft,
)
    requires
        a.building_seed == b.building_seed,
        draft_is(Some(first), c, a),
        draft_is(Some(second), c, b),
    ensures
        first.shell.building == second.shell.building,
        first.shell.roof == second.shell.roof,
        first.shell.roof_material == second.shell.roof_material,
        first.shell.wall_material == second.shell.wall_material,
        first.shell.lighting == second.shell.lighting,
        first.shell.environment == second.shell.environment,
        first.site.ground_material == second.site.ground_material,
        first.site.facade == second.site.facade,
        first.site.building_extensions@ == second.site.building_extensions@,
        first.site.signage@ == second.site.signage@,
        first.site.background_buildings@ == second.site.background_buildings@,
        first.site.vegetation@ == second.site.vegetation@,
{
}

/// The same request under the same configuration always gives the same draft.
pub proof fn drafts_are_reproducible(
    c: GeneratorConfig,
    request: SequenceRequest,
    first: SceneDraft,
    second: SceneDraft,
)
    requires
        draft_is(Some(first), c, request),
        draft_is(Some(second), c, request),
    ensures
        first.shell == second.shell,
        first.site.ground_material == second.site.ground_material,
        first.site.facade == second.site.facade,
        first.site.building_extensions@ == second.site.building_extensions@,
        first.site.signage@ == second.site.signage@,
        first.site.background_buildings@ == second.site.background_buildings@,
        first.site.vegetation@ == second.site.vegetation@,
        first.site.infrastructure.domain == second.site.infrastructure.domain,
        first.site.infrastructure.parking_bays == second.site.infrastructure.parking_bays,
        first.site.infrastructure.parking_center == second.site.infrastructure.parking_center,
        first.site.infrastructure.parking_bay_size_m == second.site.infrastructure.parking_bay_size_m,
        first.site.infrastructure.parking_yaw_degrees == second.site.infrastructure.parking_yaw_degrees,
        first.site.infrastructure.road_kind == second.site.infrastructure.road_kind,
        first.site.infrastructure.road_lanes == second.site.infrastructure.road_lanes,
        first.site.infrastructure.lane_width_m == second.site.infrastructure.lane_width_m,
        first.site.infrastructure.road_center_z_m == second.site.infrastructure.road_center_z_m,
        first.site.infrastructure.raised_curb == second.site.infrastructure.raised_curb,
        first.site.infrastructure.utility_poles@ == second.site.infrastructure.utility_poles@,
        first.site.infrastructure.utility_lines@ == second.site.infrastructure.utility_lines@,
{
    paired_requests_share_their_scene(c, request, request, first, second);
}

} // verus!
