//! Weighted choices.

use crate::composition::{
    BuildingExtensionKind, BuildingExtensionRoof, BuildingExtensionSamplingConfig, DayPhaseProfile,
    FacadeSide, BackgroundBuildingKind, SceneDomain, SceneDomainProfile, SignageKind, SignageSamplingConfig, VegetationKind,
    VegetationSamplingConfig, WeatherProfile,
};
use crate::config::{
    CameraSamplingConfig, MaterialChoice, OccluderChoice, OccluderKind, RoofMorphologyProfile,
};
use crate::draws::Draws;
use crate::plan::{ApparentScale, CameraPathKind, FramingIntent};
use vstd::prelude::*;

verus! {

/// Sum of the first `n` weights.
pub open spec fn weight_before(weights: Seq<u32>, n: int) -> int
    decreases n,
{
    if n <= 0 {
        0
    } else {
        weight_before(weights, n - 1) + weights[n - 1]
    }
}

/// Sum of all weights.
pub open spec fn total_weight(weights: Seq<u32>) -> int {
    weight_before(weights, weights.len() as int)
}

/// The entry whose share of the total a draw falls into.
pub open spec fn picks(weights: Seq<u32>, draw: int, entry: int) -> bool {
    &&& 0 <= entry < weights.len()
    &&& weight_before(weights, entry) <= draw < weight_before(weights, entry + 1)
}

/// The entry whose share of the total a draw falls into.
pub open spec fn picked(weights: Seq<u32>, draw: int) -> int {
    choose|entry: int| picks(weights, draw, entry)
}

/// Sums of weights do not decrease.
pub proof fn lemma_weight_before_grows(weights: Seq<u32>, a: int, b: int)
    requires
        0 <= a <= b <= weights.len(),
    ensures
        0 <= weight_before(weights, a) <= weight_before(weights, b) <= b * 0xffff_ffff,
    decreases b,
{
    if a < b {
        lemma_weight_before_grows(weights, a, b - 1);
    } else if b > 0 {
        lemma_weight_before_grows(weights, a - 1, b - 1);
    }
}

/// A draw below the total falls into the share of exactly one entry, and that entry has
/// a positive weight.
pub proof fn every_draw_picks_one_entry(weights: Seq<u32>, draw: int)
    requires
        0 <= draw < total_weight(weights),
    ensures
        picks(weights, draw, picked(weights, draw)),
        weights[picked(weights, draw)] > 0,
        forall|entry: int| #[trigger]
            picks(weights, draw, entry) ==> entry == picked(weights, draw),
{
    lemma_some_entry(weights, draw, weights.len() as int);
    let found = picked(weights, draw);
    assert forall|entry: int| #[trigger] picks(weights, draw, entry) implies entry == found by {
        if entry < found {
            lemma_weight_before_grows(weights, entry + 1, found);
        }
        if found < entry {
            lemma_weight_before_grows(weights, found + 1, entry);
        }
    }
}

/// Each entry is picked by exactly as many draws as its weight.
pub proof fn shares_are_weights(weights: Seq<u32>, entry: int, draw: int)
    requires
        0 <= entry < weights.len(),
    ensures
        picks(weights, draw, entry) <==> 0 <= draw - weight_before(weights, entry)
            < weights[entry],
{
}

proof fn lemma_some_entry(weights: Seq<u32>, draw: int, n: int)
    requires
        0 <= n <= weights.len(),
        0 <= draw < weight_before(weights, n),
    ensures
        exists|entry: int| picks(weights, draw, entry),
    decreases n,
{
    if weight_before(weights, n - 1) <= draw {
        assert(picks(weights, draw, n - 1));
    } else {
        lemma_some_entry(weights, draw, n - 1);
    }
}

/// A positive weight makes the total positive.
pub proof fn lemma_total_positive(weights: Seq<u32>, entry: int)
    requires
        0 <= entry < weights.len(),
        weights[entry] > 0,
    ensures
        total_weight(weights) > 0,
{
    lemma_weight_before_grows(weights, 0, entry);
    lemma_weight_before_grows(weights, entry + 1, weights.len() as int);
}

/// Sums weights up.
pub fn sum_weights(weights: &Vec<u32>) -> (r: u64)
    requires
        weights@.len() <= u32::MAX,
    ensures
        r == total_weight(weights@),
{
    let mut sum: u64 = 0;
    let mut i: usize = 0;
    while i < weights.len()
        invariant
            weights@.len() <= u32::MAX,
            i <= weights@.len(),
            sum == weight_before(weights@, i as int),
        decreases weights@.len() - i,
    {
        proof {
            lemma_weight_before_grows(weights@, 0, i as int);
            assert(i * 0xffff_ffff <= 0xffff_ffff * 0xffff_ffff) by (nonlinear_arith)
                requires
                    i < 0xffff_ffff,
            ;
        }
        sum = sum + weights[i] as u64;
        i = i + 1;
    }
    sum
}

/// The entry whose share of the total a draw falls into.
pub fn pick(weights: &Vec<u32>, draw: u64) -> (r: usize)
    requires
        draw < total_weight(weights@),
    ensures
        r < weights@.len(),
        r == picked(weights@, draw as int),
        weights@[r as int] > 0,
{
    let mut left: u64 = draw;
    let mut i: usize = 0;
    while i < weights.len()
        invariant
            draw < total_weight(weights@),
            i <= weights@.len(),
            left == draw - weight_before(weights@, i as int),
        decreases weights@.len() - i,
    {
        let weight: u64 = weights[i] as u64;
        if left < weight {
            proof {
                every_draw_picks_one_entry(weights@, draw as int);
                assert(picks(weights@, draw as int, i as int));
            }
            return i;
        }
        left = left - weight;
        i = i + 1;
    }
    proof {
        assert(false);
    }
    0
}

/// An entry drawn in proportion to its weight, and the place after the draw.
pub open spec fn chosen(draws: Draws, weights: Seq<u32>) -> (int, Draws) {
    let drawn = draws.below(total_weight(weights) as u64);
    (picked(weights, drawn.0 as int), drawn.1)
}

/// Draws an entry in proportion to its weight.
pub fn choose_entry(draws: Draws, weights: &Vec<u32>) -> (r: (usize, Draws))
    requires
        weights@.len() <= u32::MAX,
        total_weight(weights@) > 0,
    ensures
        r.0 < weights@.len(),
        weights@[r.0 as int] > 0,
        (r.0 as int, r.1) == chosen(draws, weights@),
{
    let total: u64 = sum_weights(weights);
    let drawn = draws.below(total);
    (pick(weights, drawn.0), drawn.1)
}

/// The weights of a list.
pub open spec fn material_weights(choices: Seq<MaterialChoice>) -> Seq<u32> {
    choices.map_values(|choice: MaterialChoice| choice.weight)
}

/// Draws a material in proportion to its weight.
pub fn choose_material(draws: Draws, choices: &Vec<MaterialChoice>) -> (r: (usize, Draws))
    requires
        choices@.len() <= u32::MAX,
        total_weight(material_weights(choices@)) > 0,
    ensures
        r.0 < choices@.len(),
        choices@[r.0 as int].weight > 0,
        (r.0 as int, r.1) == chosen(draws, material_weights(choices@)),
{
    let mut weights: Vec<u32> = Vec::new();
    let mut i: usize = 0;
    while i < choices.len()
        invariant
            i <= choices@.len(),
            weights@.len() == i,
            forall|j: int| 0 <= j < i ==> #[trigger] weights@[j] == choices@[j].weight,
        decreases choices@.len() - i,
    {
        weights.push(choices[i].weight);
        i = i + 1;
    }
    assert(weights@ =~= material_weights(choices@));
    choose_entry(draws, &weights)
}

/// The weights of a list.
pub open spec fn weather_weights(choices: Seq<WeatherProfile>) -> Seq<u32> {
    choices.map_values(|choice: WeatherProfile| choice.weight)
}

/// Draws a weather profile in proportion to its weight.
pub fn choose_weather(draws: Draws, choices: &Vec<WeatherProfile>) -> (r: (usize, Draws))
    requires
        choices@.len() <= u32::MAX,
        total_weight(weather_weights(choices@)) > 0,
    ensures
        r.0 < choices@.len(),
        choices@[r.0 as int].weight > 0,
        (r.0 as int, r.1) == chosen(draws, weather_weights(choices@)),
{
    let mut weights: Vec<u32> = Vec::new();
    let mut i: usize = 0;
    while i < choices.len()
        invariant
            i <= choices@.len(),
            weights@.len() == i,
            forall|j: int| 0 <= j < i ==> #[trigger] weights@[j] == choices@[j].weight,
        decreases choices@.len() - i,
    {
        weights.push(choices[i].weight);
        i = i + 1;
    }
    assert(weights@ =~= weather_weights(choices@));
    choose_entry(draws, &weights)
}

/// The weights of a list.
pub open spec fn day_phase_weights(choices: Seq<DayPhaseProfile>) -> Seq<u32> {
    choices.map_values(|choice: DayPhaseProfile| choice.weight)
}

/// Draws a day phase in proportion to its weight.
pub fn choose_day_phase(draws: Draws, choices: &Vec<DayPhaseProfile>) -> (r: (usize, Draws))
    requires
        choices@.len() <= u32::MAX,
        total_weight(day_phase_weights(choices@)) > 0,
    ensures
        r.0 < choices@.len(),
        choices@[r.0 as int].weight > 0,
        (r.0 as int, r.1) == chosen(draws, day_phase_weights(choices@)),
{
    let mut weights: Vec<u32> = Vec::new();
    let mut i: usize = 0;
    while i < choices.len()
        invariant
            i <= choices@.len(),
            weights@.len() == i,
            forall|j: int| 0 <= j < i ==> #[trigger] weights@[j] == choices@[j].weight,
        decreases choices@.len() - i,
    {
        weights.push(choices[i].weight);
        i = i + 1;
    }
    assert(weights@ =~= day_phase_weights(choices@));
    choose_entry(draws, &weights)
}

/// The weights of a list.
pub open spec fn domain_weights(choices: Seq<SceneDomainProfile>) -> Seq<u32> {
    choices.map_values(|choice: SceneDomainProfile| choice.weight)
}

/// Draws a site domain in proportion to its weight.
pub fn choose_domain(draws: Draws, choices: &Vec<SceneDomainProfile>) -> (r: (usize, Draws))
    requires
        choices@.len() <= u32::MAX,
        total_weight(domain_weights(choices@)) > 0,
    ensures
        r.0 < choices@.len(),
        choices@[r.0 as int].weight > 0,
        (r.0 as int, r.1) == chosen(draws, domain_weights(choices@)),
{
    let mut weights: Vec<u32> = Vec::new();
    let mut i: usize = 0;
    while i < choices.len()
        invariant
            i <= choices@.len(),
            weights@.len() == i,
            forall|j: int| 0 <= j < i ==> #[trigger] weights@[j] == choices@[j].weight,
        decreases choices@.len() - i,
    {
        weights.push(choices[i].weight);
        i = i + 1;
    }
    assert(weights@ =~= domain_weights(choices@));
    choose_entry(draws, &weights)
}

/// The weights of a list.
pub open spec fn roof_profile_weights(choices: Seq<RoofMorphologyProfile>) -> Seq<u32> {
    choices.map_values(|choice: RoofMorphologyProfile| choice.weight)
}

/// Draws a roof profile in proportion to its weight.
pub fn choose_roof_profile(
    draws: Draws,
    choices: &Vec<RoofMorphologyProfile>,
) -> (r: (usize, Draws))
    requires
        choices@.len() <= u32::MAX,
        total_weight(roof_profile_weights(choices@)) > 0,
    ensures
        r.0 < choices@.len(),
        choices@[r.0 as int].weight > 0,
        (r.0 as int, r.1) == chosen(draws, roof_profile_weights(choices@)),
{
    let mut weights: Vec<u32> = Vec::new();
    let mut i: usize = 0;
    while i < choices.len()
        invariant
            i <= choices@.len(),
            weights@.len() == i,
            forall|j: int| 0 <= j < i ==> #[trigger] weights@[j] == choices@[j].weight,
        decreases choices@.len() - i,
    {
        weights.push(choices[i].weight);
        i = i + 1;
    }
    assert(weights@ =~= roof_profile_weights(choices@));
    choose_entry(draws, &weights)
}

/// The weight of a choice that is not rooftop equipment; rooftop equipment counts nothing.
pub open spec fn ground_weight(choice: OccluderChoice) -> u32 {
    if choice.kind == OccluderKind::RooftopEquipment {
        0
    } else {
        choice.weight
    }
}

/// The weights of occluder choices on the ground.
pub open spec fn ground_weights(choices: Seq<OccluderChoice>) -> Seq<u32> {
    choices.map_values(|choice: OccluderChoice| ground_weight(choice))
}

/// Draws an occluder that is not rooftop equipment in proportion to its weight.
pub fn choose_non_rooftop_occluder(draws: Draws, choices: &Vec<OccluderChoice>) -> (r: (
    usize,
    Draws,
))
    requires
        choices@.len() <= u32::MAX,
        total_weight(ground_weights(choices@)) > 0,
    ensures
        r.0 < choices@.len(),
        choices@[r.0 as int].kind != OccluderKind::RooftopEquipment,
        choices@[r.0 as int].weight > 0,
        (r.0 as int, r.1) == chosen(draws, ground_weights(choices@)),
{
    let mut weights: Vec<u32> = Vec::new();
    let mut i: usize = 0;
    while i < choices.len()
        invariant
            i <= choices@.len(),
            weights@.len() == i,
            forall|j: int| 0 <= j < i ==> #[trigger] weights@[j] == ground_weight(choices@[j]),
        decreases choices@.len() - i,
    {
        let choice = &choices[i];
        if choice.kind == OccluderKind::RooftopEquipment {
            weights.push(0);
        } else {
            weights.push(choice.weight);
        }
        i = i + 1;
    }
    assert(weights@ =~= ground_weights(choices@));
    choose_entry(draws, &weights)
}

/// The opposite side of a building.
pub open spec fn spec_opposite_facade(facade: FacadeSide) -> FacadeSide {
    match facade {
        FacadeSide::Front => FacadeSide::Back,
        FacadeSide::Right => FacadeSide::Left,
        FacadeSide::Back => FacadeSide::Front,
        FacadeSide::Left => FacadeSide::Right,
    }
}

/// The opposite side of a building.
#[verifier::when_used_as_spec(spec_opposite_facade)]
pub fn opposite_facade(facade: FacadeSide) -> (r: FacadeSide)
    ensures
        r == spec_opposite_facade(facade),
{
    match facade {
        FacadeSide::Front => FacadeSide::Back,
        FacadeSide::Right => FacadeSide::Left,
        FacadeSide::Back => FacadeSide::Front,
        FacadeSide::Left => FacadeSide::Right,
    }
}

/// Opposites come in pairs, and no side is its own opposite.
pub proof fn opposites_pair_up(facade: FacadeSide)
    ensures
        opposite_facade(opposite_facade(facade)) == facade,
        opposite_facade(facade) != facade,
{
}

/// The side with a number.
pub open spec fn spec_facade_side(number: u32) -> FacadeSide {
    if number == 0 {
        FacadeSide::Front
    } else if number == 1 {
        FacadeSide::Right
    } else if number == 2 {
        FacadeSide::Back
    } else {
        FacadeSide::Left
    }
}

/// The side with a number.
#[verifier::when_used_as_spec(spec_facade_side)]
pub fn facade_side(number: u32) -> (r: FacadeSide)
    ensures
        r == spec_facade_side(number),
{
    if number == 0 {
        FacadeSide::Front
    } else if number == 1 {
        FacadeSide::Right
    } else if number == 2 {
        FacadeSide::Back
    } else {
        FacadeSide::Left
    }
}

/// Draws a side of a building.
pub open spec fn spec_sample_facade_side(draws: Draws) -> (FacadeSide, Draws) {
    let drawn = draws.between(0, 3);
    (facade_side(drawn.0), drawn.1)
}

/// Draws a side of a building.
#[verifier::when_used_as_spec(spec_sample_facade_side)]
pub fn sample_facade_side(draws: Draws) -> (r: (FacadeSide, Draws))
    ensures
        r == spec_sample_facade_side(draws),
{
    let drawn = draws.between(0, 3);
    (facade_side(drawn.0), drawn.1)
}

/// The kind of background building for a draw out of a hundred in a domain.
pub open spec fn spec_background_kind(domain: SceneDomain, draw: u32) -> BackgroundBuildingKind {
    match domain {
        SceneDomain::City => if draw < 54 {
            BackgroundBuildingKind::MidriseMixedUse
        } else if draw < 86 {
            BackgroundBuildingKind::LowCommercial
        } else {
            BackgroundBuildingKind::Residential
        },
        SceneDomain::Urban => if draw < 64 {
            BackgroundBuildingKind::LowCommercial
        } else if draw < 82 {
            BackgroundBuildingKind::MidriseMixedUse
        } else {
            BackgroundBuildingKind::IndustrialShed
        },
        SceneDomain::Suburban => if draw < 62 {
            BackgroundBuildingKind::LowCommercial
        } else if draw < 84 {
            BackgroundBuildingKind::Residential
        } else {
            BackgroundBuildingKind::IndustrialShed
        },
        SceneDomain::Roadside => if draw < 55 {
            BackgroundBuildingKind::LowCommercial
        } else {
            BackgroundBuildingKind::IndustrialShed
        },
        SceneDomain::Remote => if draw < 44 {
            BackgroundBuildingKind::Residential
        } else if draw < 72 {
            BackgroundBuildingKind::LowCommercial
        } else {
            BackgroundBuildingKind::IndustrialShed
        },
    }
}

/// The kind of background building for a draw out of a hundred in a domain.
#[verifier::when_used_as_spec(spec_background_kind)]
pub fn background_kind(domain: SceneDomain, draw: u32) -> (r: BackgroundBuildingKind)
    ensures
        r == spec_background_kind(domain, draw),
{
    match domain {
        SceneDomain::City => if draw < 54 {
            BackgroundBuildingKind::MidriseMixedUse
        } else if draw < 86 {
            BackgroundBuildingKind::LowCommercial
        } else {
            BackgroundBuildingKind::Residential
        },
        SceneDomain::Urban => if draw < 64 {
            BackgroundBuildingKind::LowCommercial
        } else if draw < 82 {
            BackgroundBuildingKind::MidriseMixedUse
        } else {
            BackgroundBuildingKind::IndustrialShed
        },
        SceneDomain::Suburban => if draw < 62 {
            BackgroundBuildingKind::LowCommercial
        } else if draw < 84 {
            BackgroundBuildingKind::Residential
        } else {
            BackgroundBuildingKind::IndustrialShed
        },
        SceneDomain::Roadside => if draw < 55 {
            BackgroundBuildingKind::LowCommercial
        } else {
            BackgroundBuildingKind::IndustrialShed
        },
        SceneDomain::Remote => if draw < 44 {
            BackgroundBuildingKind::Residential
        } else if draw < 72 {
            BackgroundBuildingKind::LowCommercial
        } else {
            BackgroundBuildingKind::IndustrialShed
        },
    }
}

/// Draws the kind of a background building.
pub open spec fn spec_sample_background_kind(
    draws: Draws,
    domain: SceneDomain,
) -> (BackgroundBuildingKind, Draws) {
    let drawn = draws.between(0, 99);
    (background_kind(domain, drawn.0), drawn.1)
}

/// Draws the kind of a background building.
#[verifier::when_used_as_spec(spec_sample_background_kind)]
pub fn sample_background_kind(
    draws: Draws,
    domain: SceneDomain,
) -> (r: (BackgroundBuildingKind, Draws))
    ensures
        r == spec_sample_background_kind(draws, domain),
{
    let drawn = draws.between(0, 99);
    (background_kind(domain, drawn.0), drawn.1)
}

/// The framing for a draw out of four.
pub open spec fn spec_partial_framing(number: u32) -> FramingIntent {
    if number == 0 {
        FramingIntent::PartialLeft
    } else if number == 1 {
        FramingIntent::PartialRight
    } else if number == 2 {
        FramingIntent::PartialTop
    } else {
        FramingIntent::PartialBottom
    }
}

/// The framing for a draw out of four.
#[verifier::when_used_as_spec(spec_partial_framing)]
pub fn partial_framing(number: u32) -> (r: FramingIntent)
    ensures
        r == spec_partial_framing(number),
{
    if number == 0 {
        FramingIntent::PartialLeft
    } else if number == 1 {
        FramingIntent::PartialRight
    } else if number == 2 {
        FramingIntent::PartialTop
    } else {
        FramingIntent::PartialBottom
    }
}

/// The weights of the numbers of extensions.
pub open spec fn extension_count_weights(config: BuildingExtensionSamplingConfig) -> Seq<u32> {
    seq![config.none_weight, config.one_weight, config.two_weight]
}

/// What stands at a place in the list of weights.
pub open spec fn spec_extension_count_at(entry: usize) -> u32 {
    if entry == 0 {
        0
    } else if entry == 1 {
        1
    } else {
        2
    }
}

/// What stands at a place in the list of weights.
#[verifier::when_used_as_spec(spec_extension_count_at)]
pub fn extension_count_at(entry: usize) -> (r: u32)
    ensures
        r == spec_extension_count_at(entry),
{
    if entry == 0 {
        0
    } else if entry == 1 {
        1
    } else {
        2
    }
}

/// Draws the number of extensions.
pub open spec fn spec_sample_extension_count(
    draws: Draws,
    config: BuildingExtensionSamplingConfig,
) -> (u32, Draws) {
    let drawn = chosen(draws, extension_count_weights(config));
    (extension_count_at(drawn.0 as usize), drawn.1)
}

/// Draws the number of extensions.
#[verifier::when_used_as_spec(spec_sample_extension_count)]
pub fn sample_extension_count(
    draws: Draws,
    config: BuildingExtensionSamplingConfig,
) -> (r: (u32, Draws))
    requires
        total_weight(extension_count_weights(config)) > 0,
    ensures
        r == spec_sample_extension_count(draws, config),
        r.0 == 0 ==> config.none_weight > 0,
        r.0 == 1 ==> config.one_weight > 0,
        r.0 == 2 ==> config.two_weight > 0,
{
    let weights: Vec<u32> = vec![config.none_weight, config.one_weight, config.two_weight];
    assert(weights@ =~= extension_count_weights(config));
    let drawn = choose_entry(draws, &weights);
    (extension_count_at(drawn.0), drawn.1)
}

/// The weights of the kinds of extensions.
pub open spec fn extension_kind_weights(config: BuildingExtensionSamplingConfig) -> Seq<u32> {
    seq![config.dining_wing_weight, config.entrance_vestibule_weight, config.service_annex_weight]
}

/// What stands at a place in the list of weights.
pub open spec fn spec_extension_kind_at(entry: usize) -> BuildingExtensionKind {
    if entry == 0 {
        BuildingExtensionKind::DiningWing
    } else if entry == 1 {
        BuildingExtensionKind::EntranceVestibule
    } else {
        BuildingExtensionKind::ServiceAnnex
    }
}

/// What stands at a place in the list of weights.
#[verifier::when_used_as_spec(spec_extension_kind_at)]
pub fn extension_kind_at(entry: usize) -> (r: BuildingExtensionKind)
    ensures
        r == spec_extension_kind_at(entry),
{
    if entry == 0 {
        BuildingExtensionKind::DiningWing
    } else if entry == 1 {
        BuildingExtensionKind::EntranceVestibule
    } else {
        BuildingExtensionKind::ServiceAnnex
    }
}

/// Draws the kind of an extension.
pub open spec fn spec_sample_extension_kind(
    draws: Draws,
    config: BuildingExtensionSamplingConfig,
) -> (BuildingExtensionKind, Draws) {
    let drawn = chosen(draws, extension_kind_weights(config));
    (extension_kind_at(drawn.0 as usize), drawn.1)
}

/// Draws the kind of an extension.
#[verifier::when_used_as_spec(spec_sample_extension_kind)]
pub fn sample_extension_kind(
    draws: Draws,
    config: BuildingExtensionSamplingConfig,
) -> (r: (BuildingExtensionKind, Draws))
    requires
        total_weight(extension_kind_weights(config)) > 0,
    ensures
        r == spec_sample_extension_kind(draws, config),
        r.0 == BuildingExtensionKind::DiningWing ==> config.dining_wing_weight > 0,
        r.0 == BuildingExtensionKind::EntranceVestibule ==> config.entrance_vestibule_weight > 0,
        r.0 == BuildingExtensionKind::ServiceAnnex ==> config.service_annex_weight > 0,
{
    let weights: Vec<u32> = vec![config.dining_wing_weight, config.entrance_vestibule_weight, config.service_annex_weight];
    assert(weights@ =~= extension_kind_weights(config));
    let drawn = choose_entry(draws, &weights);
    (extension_kind_at(drawn.0), drawn.1)
}

/// The weights of the roofs of extensions.
pub open spec fn extension_roof_weights(config: BuildingExtensionSamplingConfig) -> Seq<u32> {
    seq![config.flat_roof_weight, config.shed_roof_weight]
}

/// What stands at a place in the list of weights.
pub open spec fn spec_extension_roof_at(entry: usize) -> BuildingExtensionRoof {
    if entry == 0 {
        BuildingExtensionRoof::Flat
    } else {
        BuildingExtensionRoof::Shed
    }
}

/// What stands at a place in the list of weights.
#[verifier::when_used_as_spec(spec_extension_roof_at)]
pub fn extension_roof_at(entry: usize) -> (r: BuildingExtensionRoof)
    ensures
        r == spec_extension_roof_at(entry),
{
    if entry == 0 {
        BuildingExtensionRoof::Flat
    } else {
        BuildingExtensionRoof::Shed
    }
}

/// Draws the roof of an extension.
pub open spec fn spec_sample_extension_roof(
    draws: Draws,
    config: BuildingExtensionSamplingConfig,
) -> (BuildingExtensionRoof, Draws) {
    let drawn = chosen(draws, extension_roof_weights(config));
    (extension_roof_at(drawn.0 as usize), drawn.1)
}

/// Draws the roof of an extension.
#[verifier::when_used_as_spec(spec_sample_extension_roof)]
pub fn sample_extension_roof(
    draws: Draws,
    config: BuildingExtensionSamplingConfig,
) -> (r: (BuildingExtensionRoof, Draws))
    requires
        total_weight(extension_roof_weights(config)) > 0,
    ensures
        r == spec_sample_extension_roof(draws, config),
        r.0 == BuildingExtensionRoof::Flat ==> config.flat_roof_weight > 0,
        r.0 == BuildingExtensionRoof::Shed ==> config.shed_roof_weight > 0,
{
    let weights: Vec<u32> = vec![config.flat_roof_weight, config.shed_roof_weight];
    assert(weights@ =~= extension_roof_weights(config));
    let drawn = choose_entry(draws, &weights);
    (extension_roof_at(drawn.0), drawn.1)
}

/// The weights of a blank facade and of the kinds of signs.
pub open spec fn sign_weights(config: SignageSamplingConfig) -> Seq<u32> {
    seq![config.none_weight, config.pizza_hut_weight, config.removed_ghost_weight, config.rebranded_tenant_weight]
}

/// What stands at a place in the list of weights.
pub open spec fn spec_sign_at(entry: usize) -> Option<SignageKind> {
    if entry == 0 {
        None
    } else if entry == 1 {
        Some(SignageKind::PizzaHut)
    } else if entry == 2 {
        Some(SignageKind::RemovedGhost)
    } else {
        Some(SignageKind::RebrandedTenant)
    }
}

/// What stands at a place in the list of weights.
#[verifier::when_used_as_spec(spec_sign_at)]
pub fn sign_at(entry: usize) -> (r: Option<SignageKind>)
    ensures
        r == spec_sign_at(entry),
{
    if entry == 0 {
        None
    } else if entry == 1 {
        Some(SignageKind::PizzaHut)
    } else if entry == 2 {
        Some(SignageKind::RemovedGhost)
    } else {
        Some(SignageKind::RebrandedTenant)
    }
}

/// Draws a blank facade or the kind of its sign.
pub open spec fn spec_sample_sign_kind(
    draws: Draws,
    config: SignageSamplingConfig,
) -> (Option<SignageKind>, Draws) {
    let drawn = chosen(draws, sign_weights(config));
    (sign_at(drawn.0 as usize), drawn.1)
}

/// Draws a blank facade or the kind of its sign.
#[verifier::when_used_as_spec(spec_sample_sign_kind)]
pub fn sample_sign_kind(
    draws: Draws,
    config: SignageSamplingConfig,
) -> (r: (Option<SignageKind>, Draws))
    requires
        total_weight(sign_weights(config)) > 0,
    ensures
        r == spec_sample_sign_kind(draws, config),
        r.0 == None::<SignageKind> ==> config.none_weight > 0,
        r.0 == Some(SignageKind::PizzaHut) ==> config.pizza_hut_weight > 0,
        r.0 == Some(SignageKind::RemovedGhost) ==> config.removed_ghost_weight > 0,
        r.0 == Some(SignageKind::RebrandedTenant) ==> config.rebranded_tenant_weight > 0,
{
    let weights: Vec<u32> = vec![config.none_weight, config.pizza_hut_weight, config.removed_ghost_weight, config.rebranded_tenant_weight];
    assert(weights@ =~= sign_weights(config));
    let drawn = choose_entry(draws, &weights);
    (sign_at(drawn.0), drawn.1)
}

/// The weights of the camera paths.
pub open spec fn camera_path_weights(config: CameraSamplingConfig) -> Seq<u32> {
    seq![config.orbit_weight, config.lateral_walk_weight, config.approach_arc_weight, config.corner_reveal_weight]
}

/// What stands at a place in the list of weights.
pub open spec fn spec_camera_path_at(entry: usize) -> CameraPathKind {
    if entry == 0 {
        CameraPathKind::Orbit
    } else if entry == 1 {
        CameraPathKind::LateralWalk
    } else if entry == 2 {
        CameraPathKind::ApproachArc
    } else {
        CameraPathKind::CornerReveal
    }
}

/// What stands at a place in the list of weights.
#[verifier::when_used_as_spec(spec_camera_path_at)]
pub fn camera_path_at(entry: usize) -> (r: CameraPathKind)
    ensures
        r == spec_camera_path_at(entry),
{
    if entry == 0 {
        CameraPathKind::Orbit
    } else if entry == 1 {
        CameraPathKind::LateralWalk
    } else if entry == 2 {
        CameraPathKind::ApproachArc
    } else {
        CameraPathKind::CornerReveal
    }
}

/// Draws a camera path.
pub open spec fn spec_choose_camera_path(
    draws: Draws,
    config: CameraSamplingConfig,
) -> (CameraPathKind, Draws) {
    let drawn = chosen(draws, camera_path_weights(config));
    (camera_path_at(drawn.0 as usize), drawn.1)
}

/// Draws a camera path.
#[verifier::when_used_as_spec(spec_choose_camera_path)]
pub fn choose_camera_path(
    draws: Draws,
    config: CameraSamplingConfig,
) -> (r: (CameraPathKind, Draws))
    requires
        total_weight(camera_path_weights(config)) > 0,
    ensures
        r == spec_choose_camera_path(draws, config),
        r.0 == CameraPathKind::Orbit ==> config.orbit_weight > 0,
        r.0 == CameraPathKind::LateralWalk ==> config.lateral_walk_weight > 0,
        r.0 == CameraPathKind::ApproachArc ==> config.approach_arc_weight > 0,
        r.0 == CameraPathKind::CornerReveal ==> config.corner_reveal_weight > 0,
{
    let weights: Vec<u32> = vec![config.orbit_weight, config.lateral_walk_weight, config.approach_arc_weight, config.corner_reveal_weight];
    assert(weights@ =~= camera_path_weights(config));
    let drawn = choose_entry(draws, &weights);
    (camera_path_at(drawn.0), drawn.1)
}

/// The weights of the plants.
pub open spec fn vegetation_kind_weights(config: VegetationSamplingConfig) -> Seq<u32> {
    seq![config.deciduous_weight, config.evergreen_weight, config.palm_weight, config.shrub_weight]
}

/// What stands at a place in the list of weights.
pub open spec fn spec_vegetation_kind_at(entry: usize) -> VegetationKind {
    if entry == 0 {
        VegetationKind::DeciduousTree
    } else if entry == 1 {
        VegetationKind::EvergreenTree
    } else if entry == 2 {
        VegetationKind::Palm
    } else {
        VegetationKind::Shrub
    }
}

/// What stands at a place in the list of weights.
#[verifier::when_used_as_spec(spec_vegetation_kind_at)]
pub fn vegetation_kind_at(entry: usize) -> (r: VegetationKind)
    ensures
        r == spec_vegetation_kind_at(entry),
{
    if entry == 0 {
        VegetationKind::DeciduousTree
    } else if entry == 1 {
        VegetationKind::EvergreenTree
    } else if entry == 2 {
        VegetationKind::Palm
    } else {
        VegetationKind::Shrub
    }
}

/// Draws the kind of a plant.
pub open spec fn spec_sample_vegetation_kind(
    draws: Draws,
    config: VegetationSamplingConfig,
) -> (VegetationKind, Draws) {
    let drawn = chosen(draws, vegetation_kind_weights(config));
    (vegetation_kind_at(drawn.0 as usize), drawn.1)
}

/// Draws the kind of a plant.
#[verifier::when_used_as_spec(spec_sample_vegetation_kind)]
pub fn sample_vegetation_kind(
    draws: Draws,
    config: VegetationSamplingConfig,
) -> (r: (VegetationKind, Draws))
    requires
        total_weight(vegetation_kind_weights(config)) > 0,
    ensures
        r == spec_sample_vegetation_kind(draws, config),
        r.0 == VegetationKind::DeciduousTree ==> config.deciduous_weight > 0,
        r.0 == VegetationKind::EvergreenTree ==> config.evergreen_weight > 0,
        r.0 == VegetationKind::Palm ==> config.palm_weight > 0,
        r.0 == VegetationKind::Shrub ==> config.shrub_weight > 0,
{
    let weights: Vec<u32> = vec![config.deciduous_weight, config.evergreen_weight, config.palm_weight, config.shrub_weight];
    assert(weights@ =~= vegetation_kind_weights(config));
    let drawn = choose_entry(draws, &weights);
    (vegetation_kind_at(drawn.0), drawn.1)
}

/// The scale for a draw below the sum of the three view weights, each sum kept below
/// `2^32`.
pub open spec fn spec_apparent_scale(config: CameraSamplingConfig, draw: u32) -> ApparentScale {
    if draw < config.distant_view_weight {
        ApparentScale::Distant
    } else if draw < config.distant_view_weight.saturating_add(config.normal_view_weight) {
        ApparentScale::Normal
    } else {
        ApparentScale::Close
    }
}

/// The scale for a draw below the sum of the three view weights, each sum kept below
/// `2^32`.
#[verifier::when_used_as_spec(spec_apparent_scale)]
pub fn apparent_scale(config: CameraSamplingConfig, draw: u32) -> (r: ApparentScale)
    ensures
        r == spec_apparent_scale(config, draw),
{
    if draw < config.distant_view_weight {
        ApparentScale::Distant
    } else if draw < config.distant_view_weight.saturating_add(config.normal_view_weight) {
        ApparentScale::Normal
    } else {
        ApparentScale::Close
    }
}

/// The sum of the three view weights, kept below `2^32`.
pub open spec fn spec_view_weight(config: CameraSamplingConfig) -> u32 {
    config.distant_view_weight.saturating_add(config.normal_view_weight).saturating_add(
        config.close_view_weight,
    )
}

/// The sum of the three view weights, kept below `2^32`.
#[verifier::when_used_as_spec(spec_view_weight)]
pub fn view_weight(config: CameraSamplingConfig) -> (r: u32)
    ensures
        r == spec_view_weight(config),
{
    config.distant_view_weight.saturating_add(config.normal_view_weight).saturating_add(
        config.close_view_weight,
    )
}

/// Of the draws for numbers of additions, each outcome gets exactly as many as its weight, one after the
/// other; one without weight gets none.
pub proof fn extension_counts_get_their_weights(config: BuildingExtensionSamplingConfig, draw: int)
    requires
        0 <= draw < total_weight(extension_count_weights(config)),
    ensures
        ({
            let kind = extension_count_at(picked(extension_count_weights(config), draw) as usize);
            kind == 0 <==> 0 <= draw < config.none_weight
        }),
        ({
            let kind = extension_count_at(picked(extension_count_weights(config), draw) as usize);
            kind == 1 <==> config.none_weight <= draw < config.none_weight + config.one_weight
        }),
        ({
            let kind = extension_count_at(picked(extension_count_weights(config), draw) as usize);
            kind == 2 <==> config.none_weight + config.one_weight <= draw < config.none_weight + config.one_weight + config.two_weight
        }),
{
    let weights = extension_count_weights(config);
    every_draw_picks_one_entry(weights, draw);
    reveal_with_fuel(weight_before, 4);
    shares_are_weights(weights, 0, draw);
    shares_are_weights(weights, 1, draw);
    shares_are_weights(weights, 2, draw);
}

/// Of the draws for kinds of additions, each outcome gets exactly as many as its weight, one after the
/// other; one without weight gets none.
pub proof fn extension_kinds_get_their_weights(config: BuildingExtensionSamplingConfig, draw: int)
    requires
        0 <= draw < total_weight(extension_kind_weights(config)),
    ensures
        ({
            let kind = extension_kind_at(picked(extension_kind_weights(config), draw) as usize);
            kind == BuildingExtensionKind::DiningWing <==> 0 <= draw < config.dining_wing_weight
        }),
        ({
            let kind = extension_kind_at(picked(extension_kind_weights(config), draw) as usize);
            kind == BuildingExtensionKind::EntranceVestibule <==> config.dining_wing_weight <= draw < config.dining_wing_weight + config.entrance_vestibule_weight
        }),
        ({
            let kind = extension_kind_at(picked(extension_kind_weights(config), draw) as usize);
            kind == BuildingExtensionKind::ServiceAnnex <==> config.dining_wing_weight + config.entrance_vestibule_weight <= draw < config.dining_wing_weight + config.entrance_vestibule_weight + config.service_annex_weight
        }),
{
    let weights = extension_kind_weights(config);
    every_draw_picks_one_entry(weights, draw);
    reveal_with_fuel(weight_before, 4);
    shares_are_weights(weights, 0, draw);
    shares_are_weights(weights, 1, draw);
    shares_are_weights(weights, 2, draw);
}

/// Of the draws for roofs of additions, each outcome gets exactly as many as its weight, one after the
/// other; one without weight gets none.
pub proof fn extension_roofs_get_their_weights(config: BuildingExtensionSamplingConfig, draw: int)
    requires
        0 <= draw < total_weight(extension_roof_weights(config)),
    ensures
        ({
            let kind = extension_roof_at(picked(extension_roof_weights(config), draw) as usize);
            kind == BuildingExtensionRoof::Flat <==> 0 <= draw < config.flat_roof_weight
        }),
        ({
            let kind = extension_roof_at(picked(extension_roof_weights(config), draw) as usize);
            kind == BuildingExtensionRoof::Shed <==> config.flat_roof_weight <= draw < config.flat_roof_weight + config.shed_roof_weight
        }),
{
    let weights = extension_roof_weights(config);
    every_draw_picks_one_entry(weights, draw);
    reveal_with_fuel(weight_before, 3);
    shares_are_weights(weights, 0, draw);
    shares_are_weights(weights, 1, draw);
}

/// Of the draws for signs, each outcome gets exactly as many as its weight, one after the
/// other; one without weight gets none.
pub proof fn signs_get_their_weights(config: SignageSamplingConfig, draw: int)
    requires
        0 <= draw < total_weight(sign_weights(config)),
    ensures
        ({
            let kind = sign_at(picked(sign_weights(config), draw) as usize);
            kind == None::<SignageKind> <==> 0 <= draw < config.none_weight
        }),
        ({
            let kind = sign_at(picked(sign_weights(config), draw) as usize);
            kind == Some(SignageKind::PizzaHut) <==> config.none_weight <= draw < config.none_weight + config.pizza_hut_weight
        }),
        ({
            let kind = sign_at(picked(sign_weights(config), draw) as usize);
            kind == Some(SignageKind::RemovedGhost) <==> config.none_weight + config.pizza_hut_weight <= draw < config.none_weight + config.pizza_hut_weight + config.removed_ghost_weight
        }),
        ({
            let kind = sign_at(picked(sign_weights(config), draw) as usize);
            kind == Some(SignageKind::RebrandedTenant) <==> config.none_weight + config.pizza_hut_weight + config.removed_ghost_weight <= draw < config.none_weight + config.pizza_hut_weight + config.removed_ghost_weight + config.rebranded_tenant_weight
        }),
{
    let weights = sign_weights(config);
    every_draw_picks_one_entry(weights, draw);
    reveal_with_fuel(weight_before, 5);
    shares_are_weights(weights, 0, draw);
    shares_are_weights(weights, 1, draw);
    shares_are_weights(weights, 2, draw);
    shares_are_weights(weights, 3, draw);
}

/// Of the draws for camera paths, each outcome gets exactly as many as its weight, one after the
/// other; one without weight gets none.
pub proof fn camera_paths_get_their_weights(config: CameraSamplingConfig, draw: int)
    requires
        0 <= draw < total_weight(camera_path_weights(config)),
    ensures
        ({
            let kind = camera_path_at(picked(camera_path_weights(config), draw) as usize);
            kind == CameraPathKind::Orbit <==> 0 <= draw < config.orbit_weight
        }),
        ({
            let kind = camera_path_at(picked(camera_path_weights(config), draw) as usize);
            kind == CameraPathKind::LateralWalk <==> config.orbit_weight <= draw < config.orbit_weight + config.lateral_walk_weight
        }),
        ({
            let kind = camera_path_at(picked(camera_path_weights(config), draw) as usize);
            kind == CameraPathKind::ApproachArc <==> config.orbit_weight + config.lateral_walk_weight <= draw < config.orbit_weight + config.lateral_walk_weight + config.approach_arc_weight
        }),
        ({
            let kind = camera_path_at(picked(camera_path_weights(config), draw) as usize);
            kind == CameraPathKind::CornerReveal <==> config.orbit_weight + config.lateral_walk_weight + config.approach_arc_weight <= draw < config.orbit_weight + config.lateral_walk_weight + config.approach_arc_weight + config.corner_reveal_weight
        }),
{
    let weights = camera_path_weights(config);
    every_draw_picks_one_entry(weights, draw);
    reveal_with_fuel(weight_before, 5);
    shares_are_weights(weights, 0, draw);
    shares_are_weights(weights, 1, draw);
    shares_are_weights(weights, 2, draw);
    shares_are_weights(weights, 3, draw);
}

/// Of the draws for plants, each outcome gets exactly as many as its weight, one after the
/// other; one without weight gets none.
pub proof fn plants_get_their_weights(config: VegetationSamplingConfig, draw: int)
    requires
        0 <= draw < total_weight(vegetation_kind_weights(config)),
    ensures
        ({
            let kind = vegetation_kind_at(picked(vegetation_kind_weights(config), draw) as usize);
            kind == VegetationKind::DeciduousTree <==> 0 <= draw < config.deciduous_weight
        }),
        ({
            let kind = vegetation_kind_at(picked(vegetation_kind_weights(config), draw) as usize);
            kind == VegetationKind::EvergreenTree <==> config.deciduous_weight <= draw < config.deciduous_weight + config.evergreen_weight
        }),
        ({
            let kind = vegetation_kind_at(picked(vegetation_kind_weights(config), draw) as usize);
            kind == VegetationKind::Palm <==> config.deciduous_weight + config.evergreen_weight <= draw < config.deciduous_weight + config.evergreen_weight + config.palm_weight
        }),
        ({
            let kind = vegetation_kind_at(picked(vegetation_kind_weights(config), draw) as usize);
            kind == VegetationKind::Shrub <==> config.deciduous_weight + config.evergreen_weight + config.palm_weight <= draw < config.deciduous_weight + config.evergreen_weight + config.palm_weight + config.shrub_weight
        }),
{
    let weights = vegetation_kind_weights(config);
    every_draw_picks_one_entry(weights, draw);
    reveal_with_fuel(weight_before, 5);
    shares_are_weights(weights, 0, draw);
    shares_are_weights(weights, 1, draw);
    shares_are_weights(weights, 2, draw);
    shares_are_weights(weights, 3, draw);
}

/// Of the draws for a framing scale, each outcome gets exactly as many as its weight.
pub proof fn scales_get_their_weights(config: CameraSamplingConfig, draw: u32)
    requires
        config.distant_view_weight + config.normal_view_weight + config.close_view_weight
            <= u32::MAX,
        draw < view_weight(config),
    ensures
        view_weight(config) == config.distant_view_weight + config.normal_view_weight
            + config.close_view_weight,
        apparent_scale(config, draw) == ApparentScale::Distant <==> draw
            < config.distant_view_weight,
        apparent_scale(config, draw) == ApparentScale::Normal <==> config.distant_view_weight
            <= draw < config.distant_view_weight + config.normal_view_weight,
        apparent_scale(config, draw) == ApparentScale::Close <==> config.distant_view_weight
            + config.normal_view_weight <= draw,
{
}

/// Every number below four is another side of the building, and another side of the image.
pub proof fn numbers_name_different_sides(a: u32, b: u32)
    requires
        a < 4,
        b < 4,
        a != b,
    ensures
        facade_side(a) != facade_side(b),
        partial_framing(a) != partial_framing(b),
        partial_framing(a) != FramingIntent::Centered,
        (a + 2) % 4 == b ==> opposite_facade(facade_side(a)) == facade_side(b),
{
}

/// Neighbours suit their domain: a tall one stands only in a city or an urban place, most
/// often in a city, where no shed stands; no house stands in an urban place or by a road; and
/// the larger share of those elsewhere are shops.
pub proof fn neighbours_suit_their_domain(domain: SceneDomain, draw: u32)
    requires
        draw < 100,
    ensures
        background_kind(domain, draw) == BackgroundBuildingKind::MidriseMixedUse ==> domain
            == SceneDomain::City || domain == SceneDomain::Urban,
        background_kind(domain, draw) == BackgroundBuildingKind::IndustrialShed ==> domain
            != SceneDomain::City,
        background_kind(domain, draw) == BackgroundBuildingKind::Residential ==> domain
            != SceneDomain::Urban && domain != SceneDomain::Roadside,
        draw < 50 && domain == SceneDomain::City ==> background_kind(domain, draw)
            == BackgroundBuildingKind::MidriseMixedUse,
        draw < 50 && (domain == SceneDomain::Urban || domain == SceneDomain::Suburban || domain
            == SceneDomain::Roadside) ==> background_kind(domain, draw)
            == BackgroundBuildingKind::LowCommercial,
        draw < 40 && domain == SceneDomain::Remote ==> background_kind(domain, draw)
            == BackgroundBuildingKind::Residential,
        draw >= 90 && domain != SceneDomain::City ==> background_kind(domain, draw)
            == BackgroundBuildingKind::IndustrialShed,
        draw >= 90 && domain == SceneDomain::City ==> background_kind(domain, draw)
            == BackgroundBuildingKind::Residential,
{
}

} // verus!
