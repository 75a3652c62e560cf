//! What the standard configuration gives for every seed.

use crate::bounds::{
    drawn_fractions_span, fractions_shrink, product_spans, products_are_monotone, quotient_spans,
    range_spans, ratio_spans, spans, sum_spans,
};
use crate::config::{
    GeneratorConfig, RoofMorphologyProfile, RoofSamplingConfig, SceneSamplingConfig,
};
use crate::draws::Draws;
use crate::geometry::Turn;
use crate::plan::{SampledBuilding, SampledRoof, SequencePlan, SequenceRequest};
use crate::sample_shell::{aspect_range, roof_ranges, sample_building, sample_roof, width_range};
use crate::single::{order_is_value_order, Single};
use crate::types::FloatRange;
use vstd::arithmetic::power2::{lemma_pow2_pos, pow2};
use vstd::prelude::*;

verus! {

proof fn lemma_wider(x: Single, a: int, b: int, low: int, high: int)
    requires
        spans(x, a, b),
        low <= a,
        b <= high,
    ensures
        spans(x, low, high),
{
    let unit = pow2(139) as int;
    assert(low * unit <= a * unit && b * unit <= high * unit) by (nonlinear_arith)
        requires
            low <= a,
            b <= high,
            unit >= 0,
    ;
}

proof fn lemma_decimal(min: i32, max: i32, den: u32, low: int, mid: int, high: int)
    requires
        0 <= min,
        0 <= max,
        den > 0,
        0 <= low <= mid <= high < 0x100_0000,
        low * den <= min * 1024 <= mid * den,
        mid * den <= max * 1024 <= high * den,
    ensures
        spans(FloatRange::decimal(min, max, den).min, low, high),
        spans(FloatRange::decimal(min, max, den).max, low, high),
        FloatRange::decimal(min, max, den).min.value() <= FloatRange::decimal(
            min,
            max,
            den,
        ).max.value(),
        FloatRange::decimal(min, max, den).is_valid(),
{
    let range = FloatRange::decimal(min, max, den);
    ratio_spans(min, den, low, mid);
    ratio_spans(max, den, mid, high);
    lemma_wider(range.min, low, mid, low, high);
    lemma_wider(range.max, mid, high, low, high);
    order_is_value_order(range.min, range.max);
}

/// The part that a range shares with a bounded one is bounded as that one is.
proof fn lemma_overlap(x: FloatRange, y: FloatRange, bounded: FloatRange, a: int, b: int)
    requires
        bounded == x || bounded == y,
        spans(bounded.min, a, b),
        spans(bounded.max, a, b),
        a >= 1,
        x.intersection(y) is Some,
    ensures
        spans(x.intersection(y)->0.min, a, b),
        spans(x.intersection(y)->0.max, a, b),
        x.intersection(y)->0.min.value() <= x.intersection(y)->0.max.value(),
{
    let common = x.intersection(y)->0;
    let unit = pow2(139) as int;
    lemma_pow2_pos(139);
    assert(a * unit > 0) by (nonlinear_arith)
        requires
            a >= 1,
            unit > 0,
    ;
    assert(crate::single::magnitude(0) == 0);
    order_is_value_order(bounded.min, common.min);
    order_is_value_order(common.min, common.max);
    order_is_value_order(common.max, bounded.max);
}

proof fn lemma_feasible_aspects()
    ensures
        ({
            let scene = SceneSamplingConfig::standard();
            let feasible = FloatRange::new(
                scene.footprint_width_m.min.over(scene.footprint_depth_m.max),
                scene.footprint_width_m.max.over(scene.footprint_depth_m.min),
            );
            &&& spans(feasible.min, 737, 738)
            &&& spans(feasible.max, 2267, 2268)
        }),
{
    ratio_spans(18, 1, 18432, 18432);
    ratio_spans(31, 1, 31744, 31744);
    ratio_spans(14, 1, 14336, 14336);
    ratio_spans(25, 1, 25600, 25600);
    quotient_spans(
        Single::ratio(18, 1),
        Single::ratio(25, 1),
        18432,
        18432,
        25600,
        25600,
        737,
        738,
    );
    quotient_spans(
        Single::ratio(31, 1),
        Single::ratio(14, 1),
        31744,
        31744,
        14336,
        14336,
        2267,
        2268,
    );
}

proof fn lemma_standard_aspects(profile: RoofMorphologyProfile)
    requires
        RoofSamplingConfig::standard_profiles().contains(profile),
    ensures
        spans(profile.footprint_aspect_ratio.min, 942, 1946),
        spans(profile.footprint_aspect_ratio.max, 942, 1946),
        profile.footprint_aspect_ratio.is_valid(),
        profile.footprint_aspect_ratio.min.value() <= profile.footprint_aspect_ratio.max.value(),
{
    lemma_decimal(105, 134, 100, 942, 1100, 1946);
    lemma_decimal(92, 118, 100, 942, 1100, 1946);
    lemma_decimal(118, 158, 100, 942, 1400, 1946);
    lemma_decimal(142, 190, 100, 942, 1600, 1946);
    lemma_decimal(115, 175, 100, 942, 1400, 1946);
}

/// The scene admits every aspect ratio of a standard profile.
pub(crate) proof fn lemma_aspects_overlap(profile: RoofMorphologyProfile)
    requires
        RoofSamplingConfig::standard_profiles().contains(profile),
    ensures
        aspect_range(SceneSamplingConfig::standard(), profile) == Some(
            profile.footprint_aspect_ratio,
        ),
{
    let scene = SceneSamplingConfig::standard();
    let own = profile.footprint_aspect_ratio;
    let feasible = FloatRange::new(
        scene.footprint_width_m.min.over(scene.footprint_depth_m.max),
        scene.footprint_width_m.max.over(scene.footprint_depth_m.min),
    );
    lemma_standard_aspects(profile);
    lemma_feasible_aspects();
    lemma_pow2_pos(139);
    order_is_value_order(feasible.min, feasible.max);
    order_is_value_order(feasible.min, own.min);
    order_is_value_order(own.min, feasible.min);
    order_is_value_order(own.max, feasible.max);
    order_is_value_order(feasible.max, own.max);
}

/// Whichever standard profile is drawn, every seed has a building.
pub proof fn standard_profiles_have_buildings(seed: u64, profile: RoofMorphologyProfile)
    requires
        RoofSamplingConfig::standard_profiles().contains(profile),
    ensures
        sample_building(SceneSamplingConfig::standard(), seed, profile) is Some,
{
    let scene = SceneSamplingConfig::standard();
    let own = profile.footprint_aspect_ratio;
    lemma_standard_aspects(profile);
    lemma_aspects_overlap(profile);
    let d = Draws::of(seed, "building");
    drawn_fractions_span(d.word());
    let aspect = own.at(d.unit());
    range_spans(own, d.unit(), 942, 1946, 1);
    lemma_decimal(18, 31, 1, 18432, 31744, 31744);
    ratio_spans(18, 1, 18432, 18432);
    ratio_spans(31, 1, 31744, 31744);
    ratio_spans(14, 1, 14336, 14336);
    ratio_spans(25, 1, 25600, 25600);
    let (shallow, deep) = (Single::ratio(14, 1), Single::ratio(25, 1));
    product_spans(shallow, aspect, 14336, 14336, 942, 1947, 13188, 27258);
    product_spans(deep, aspect, 25600, 25600, 942, 1947, 23550, 48675);
    products_are_monotone(shallow, deep, aspect);
    let (low, high) = (shallow.times(aspect), deep.times(aspect));
    let (narrow, wide) = (Single::ratio(18, 1), Single::ratio(31, 1));
    order_is_value_order(low, high);
    order_is_value_order(low, wide);
    order_is_value_order(narrow, high);
    order_is_value_order(narrow, wide);
    assert(width_range(scene, aspect) is Some);
}

proof fn lemma_standard_footprint(seed: u64, profile: RoofMorphologyProfile)
    requires
        sample_building(SceneSamplingConfig::standard(), seed, profile) is Some,
    ensures
        ({
            let building = sample_building(SceneSamplingConfig::standard(), seed, profile)->0;
            &&& spans(building.footprint_width_m, 18432, 31751)
            &&& spans(building.footprint_depth_m, 14336, 25600)
        }),
{
    let scene = SceneSamplingConfig::standard();
    let feasible = FloatRange::new(
        scene.footprint_width_m.min.over(scene.footprint_depth_m.max),
        scene.footprint_width_m.max.over(scene.footprint_depth_m.min),
    );
    lemma_feasible_aspects();
    lemma_wider(feasible.min, 737, 738, 737, 2268);
    lemma_wider(feasible.max, 2267, 2268, 737, 2268);
    lemma_overlap(profile.footprint_aspect_ratio, feasible, feasible, 737, 2268);
    let aspects = aspect_range(scene, profile)->0;
    let d = Draws::of(seed, "building");
    drawn_fractions_span(d.word());
    drawn_fractions_span(d.skip(1).word());
    let aspect = aspects.at(d.unit());
    range_spans(aspects, d.unit(), 737, 2268, 1);
    lemma_decimal(18, 31, 1, 18432, 31744, 31744);
    let offered = FloatRange::new(
        scene.footprint_depth_m.min.times(aspect),
        scene.footprint_depth_m.max.times(aspect),
    );
    lemma_overlap(scene.footprint_width_m, offered, scene.footprint_width_m, 18432, 31744);
    let widths = width_range(scene, aspect)->0;
    let width = widths.at(d.skip(1).unit());
    range_spans(widths, d.skip(1).unit(), 18432, 31744, 7);
    quotient_spans(width, aspect, 18432, 31751, 737, 2269, 8318, 44116);
    lemma_decimal(14, 25, 1, 14336, 25600, 25600);
    let depth = width.over(aspect);
    order_is_value_order(depth, scene.footprint_depth_m.min);
    order_is_value_order(scene.footprint_depth_m.max, depth);
}

/// A dimension times a fraction out of a standard range is strictly smaller, and positive.
proof fn lemma_shrunk(
    whole: Single,
    a: int,
    b: int,
    range: FloatRange,
    word: u32,
    c: int,
    d: int,
    low: int,
    high: int,
)
    requires
        spans(whole, a, b),
        1 <= a,
        spans(range.min, c, d),
        spans(range.max, c, d),
        range.min.value() <= range.max.value(),
        1 <= c <= d < 1023,
        0 <= low < 0x100_0000,
        0 <= high < 0x100_0000,
        low * 1024 <= a * c,
        b * (d + 1) <= high * 1024,
    ensures
        ({
            let part = whole.times(range.at(crate::draws::unit_of(word)));
            &&& spans(part, low, high)
            &&& part.less(whole)
        }),
{
    let fraction = range.at(crate::draws::unit_of(word));
    drawn_fractions_span(word);
    range_spans(range, crate::draws::unit_of(word), c, d, 1);
    product_spans(whole, fraction, a, b, c, d + 1, low, high);
    lemma_wider(fraction, c, d + 1, c, 1023);
    fractions_shrink(whole, fraction, a, b, c);
}

/// The rectangles of a roof nest strictly.
pub open spec fn nests(roof: SampledRoof) -> bool {
    &&& Single::zero().less(roof.crown_top_width_m)
    &&& roof.crown_top_width_m.less(roof.shoulder_width_m)
    &&& roof.shoulder_width_m.less(roof.eave_width_m)
    &&& Single::zero().less(roof.crown_top_depth_m)
    &&& roof.crown_top_depth_m.less(roof.shoulder_depth_m)
    &&& roof.shoulder_depth_m.less(roof.eave_depth_m)
}

/// A roof with the standard ranges nests strictly on every building with the standard
/// footprints.
pub proof fn standard_roofs_nest(
    roof: RoofSamplingConfig,
    seed: u64,
    building: SampledBuilding,
    profile: RoofMorphologyProfile,
)
    requires
        roof.is_standard(),
        spans(building.footprint_width_m, 18432, 31751),
        spans(building.footprint_depth_m, 14336, 25600),
        sample_roof(&roof, seed, building, profile) is Some,
    ensures
        nests(sample_roof(&roof, seed, building, profile)->0),
{
    let made = sample_roof(&roof, seed, building, profile)->0;
    let ranges = roof_ranges(&roof, profile)->0;
    let d = Draws::of(seed, "roof");
    lemma_decimal(75, 250, 100, 768, 1000, 2560);
    lemma_overlap(roof.overhang_m, profile.overhang_m, roof.overhang_m, 768, 2560);
    drawn_fractions_span(d.word());
    let overhang = ranges.overhang_m.at(d.unit());
    range_spans(ranges.overhang_m, d.unit(), 768, 2560, 1);
    ratio_spans(2, 1, 2048, 2048);
    let both = Single::ratio(2, 1).times(overhang);
    product_spans(Single::ratio(2, 1), overhang, 2048, 2048, 768, 2561, 1536, 5122);
    sum_spans(building.footprint_width_m, both, 18432, 31751, 1536, 5122);
    sum_spans(building.footprint_depth_m, both, 14336, 25600, 1536, 5122);

    lemma_decimal(40, 68, 100, 409, 500, 697);
    lemma_overlap(
        roof.shoulder_width_fraction,
        profile.shoulder_width_fraction,
        roof.shoulder_width_fraction,
        409,
        697,
    );
    lemma_shrunk(
        made.eave_width_m,
        19968,
        36873,
        ranges.shoulder_width_fraction,
        d.skip(1).word(),
        409,
        697,
        7975,
        25135,
    );
    lemma_decimal(36, 62, 100, 368, 500, 635);
    lemma_overlap(
        roof.shoulder_depth_fraction,
        profile.shoulder_depth_fraction,
        roof.shoulder_depth_fraction,
        368,
        635,
    );
    lemma_shrunk(
        made.eave_depth_m,
        15872,
        30722,
        ranges.shoulder_depth_fraction,
        d.skip(2).word(),
        368,
        635,
        5704,
        19082,
    );
    lemma_decimal(72, 97, 100, 737, 900, 994);
    lemma_overlap(
        roof.crown_top_width_fraction,
        profile.crown_top_width_fraction,
        roof.crown_top_width_fraction,
        737,
        994,
    );
    lemma_shrunk(
        made.shoulder_width_m,
        7975,
        25135,
        ranges.crown_top_width_fraction,
        d.skip(3).word(),
        737,
        994,
        5739,
        24424,
    );
    lemma_decimal(62, 94, 100, 634, 900, 963);
    lemma_overlap(
        roof.crown_top_depth_fraction,
        profile.crown_top_depth_fraction,
        roof.crown_top_depth_fraction,
        634,
        963,
    );
    lemma_shrunk(
        made.shoulder_depth_m,
        5704,
        19082,
        ranges.crown_top_depth_fraction,
        d.skip(4).word(),
        634,
        963,
        3531,
        17965,
    );
    lemma_positive(made.crown_top_width_m, 5739, 24424);
    lemma_positive(made.crown_top_depth_m, 3531, 17965);
}

proof fn lemma_positive(x: Single, a: int, b: int)
    requires
        spans(x, a, b),
        a >= 1,
    ensures
        Single::zero().less(x),
{
    let unit = pow2(139) as int;
    lemma_pow2_pos(139);
    assert(a * unit > 0) by (nonlinear_arith)
        requires
            a >= 1,
            unit > 0,
    ;
    assert(crate::single::magnitude(0) == 0);
}

/// The roof of every plan that is sampled with the standard configuration nests strictly: the
/// crown lies inside the shoulders, and these inside the eaves.
pub proof fn standard_plans_have_nested_roofs(
    plan: SequencePlan,
    c: GeneratorConfig,
    fingerprint: Seq<char>,
    request: SequenceRequest,
    turn: spec_fn(Single) -> Turn,
    tangent: spec_fn(Single) -> Single,
)
    requires
        crate::sample_plan::plan_is(plan, c, fingerprint, request, turn, tangent),
        c.is_standard(),
    ensures
        nests(plan.scene.roof),
{
    reveal(crate::sample_plan::plan_is);
    reveal(crate::sample_plan::scene_is);
    let seed = request.building_seed;
    let profile = crate::sampler::profile_of(c, seed);
    let building = crate::sampler::building_of(c, seed)->0;
    lemma_standard_footprint(seed, profile);
    standard_roofs_nest(c.roof, seed, building, profile);
}

} // verus!
