//! What is drawn for a building, its roof, its materials and its light.

use crate::camera_laws::is_share;
use crate::composition::{DayPhase, DayPhaseProfile, SceneDomain, WeatherProfile};
use crate::config::{
    LightingSamplingConfig, MaterialChoice, RoofMorphology, RoofMorphologyProfile,
    RoofSamplingConfig, SceneSamplingConfig,
};
use crate::framing_laws::drawn_from;
use crate::plan::{OrdinaryRoofFamily, SampledBuilding, SampledRoof};
use crate::rounding::{
    bounded_results_are_finite, neutral_operands, one_is_one, products_round, results_are_close,
    results_keep_order, rounds, size, small_literals, sums_round,
};
use crate::sample_shell::{
    building_from, domain_light, environment_from, intersect_ranges, lighting_from, material_from,
    ordinary_roof_from, phased_sky, phased_sun, preferred_intersection, rise_range, roof_from,
    roof_ranges, varied_channel, RoofRanges,
};
use crate::single::{order_is_value_order, Single};
use crate::types::FloatRange;
use crate::whole::unit;
use vstd::prelude::*;

verus! {

/// A range lies inside another one.
pub open spec fn inside(part: FloatRange, whole: FloatRange) -> bool {
    part.is_valid() && whole.min.at_most(part.min) && part.max.at_most(whole.max)
}

/// A building is drawn from what the scene and its roof profile admit: its width and its
/// aspect ratio from parts of their ranges, its walls and its ground from their ranges, and
/// its depth is the width over the aspect ratio, kept to the depths that the scene admits.
pub proof fn buildings_come_from_their_ranges(
    scene: SceneSamplingConfig,
    profile: RoofMorphologyProfile,
    u: [Single; 4],
)
    requires
        forall|i: int| 0 <= i < 4 ==> is_share(#[trigger] u@[i]),
    ensures
        building_from(scene, profile, u) matches Some(building) ==> {
            &&& drawn_from(building.wall_height_m, scene.wall_height_m)
            &&& drawn_from(building.ground_half_extent_m, scene.ground_half_extent_m)
            &&& exists|widths: FloatRange, aspects: FloatRange, aspect: Single|
                {
                    &&& inside(widths, scene.footprint_width_m)
                    &&& inside(aspects, profile.footprint_aspect_ratio)
                    &&& #[trigger] drawn_from(building.footprint_width_m, widths)
                    &&& #[trigger] drawn_from(aspect, aspects)
                    &&& building.footprint_depth_m == building.footprint_width_m.over(
                        aspect,
                    ).clamp(scene.footprint_depth_m.min, scene.footprint_depth_m.max)
                }
        },
{
    assert(is_share(u@[0]) && is_share(u@[1]) && is_share(u@[2]) && is_share(u@[3]));
    if let Some(building) = building_from(scene, profile, u) {
        let aspects = crate::sample_shell::aspect_range(scene, profile)->0;
        let aspect = aspects.at(u[0]);
        let widths = crate::sample_shell::width_range(scene, aspect)->0;
        assert(inside(widths, scene.footprint_width_m));
        assert(inside(aspects, profile.footprint_aspect_ratio));
        assert(drawn_from(building.footprint_width_m, widths));
        assert(drawn_from(aspect, aspects));
    }
}

/// A drawn depth is one that the scene admits.
pub proof fn depths_stay_in_range(
    scene: SceneSamplingConfig,
    profile: RoofMorphologyProfile,
    u: [Single; 4],
)
    requires
        scene.footprint_depth_m.is_valid(),
    ensures
        building_from(scene, profile, u) matches Some(building) ==> {
            ||| building.footprint_depth_m.is_nan()
            ||| scene.footprint_depth_m.contains(building.footprint_depth_m)
        },
{
}

/// The ranges of a roof hold exactly what the configuration and the profile both admit.
pub proof fn roof_ranges_are_common(
    roof: &RoofSamplingConfig,
    profile: RoofMorphologyProfile,
    x: Single,
)
    ensures
        roof_ranges(roof, profile) matches Some(ranges) ==> {
            &&& ranges.overhang_m.contains(x) <==> roof.overhang_m.contains(x)
                && profile.overhang_m.contains(x)
            &&& ranges.shoulder_width_fraction.contains(x)
                <==> roof.shoulder_width_fraction.contains(x)
                && profile.shoulder_width_fraction.contains(x)
            &&& ranges.shoulder_depth_fraction.contains(x)
                <==> roof.shoulder_depth_fraction.contains(x)
                && profile.shoulder_depth_fraction.contains(x)
            &&& ranges.lower_rise_m.contains(x) <==> roof.lower_rise_m.contains(x)
                && profile.lower_rise_m.contains(x)
            &&& ranges.upper_rise_m.contains(x) <==> roof.upper_rise_m.contains(x)
                && profile.upper_rise_m.contains(x)
            &&& ranges.crown_top_width_fraction.contains(x)
                <==> roof.crown_top_width_fraction.contains(x)
                && profile.crown_top_width_fraction.contains(x)
            &&& ranges.crown_top_depth_fraction.contains(x)
                <==> roof.crown_top_depth_fraction.contains(x)
                && profile.crown_top_depth_fraction.contains(x)
        },
{
}

/// A length is a fraction of another one, the fraction drawn from a range.
pub open spec fn fraction_of(part: Single, whole: Single, range: FloatRange) -> bool {
    exists|share: Single| #[trigger]
        drawn_from(share, range) && (whole.is_finite() && share.is_finite() ==> rounds(
            part,
            whole.value() * share.value(),
            unit(),
        ))
}

/// An eave is a wall and the same overhang at both ends.
pub open spec fn overhangs(eave: Single, wall: Single, overhang: Single) -> bool {
    exists|twice: Single| #[trigger]
        rounds(twice, 2 * overhang.value(), 1) && (twice.is_finite() && wall.is_finite() ==> rounds(
            eave,
            wall.value() + twice.value(),
            1,
        ))
}

/// A drawn roof is of its morphology, overhangs the walls by one drawn overhang on every
/// side, narrows to a drawn fraction at its shoulder and to a drawn fraction of that at its
/// crown, and rises as far as it was drawn.
pub proof fn roofs_come_from_their_ranges(
    ranges: RoofRanges,
    asymmetry: FloatRange,
    morphology: RoofMorphology,
    building: SampledBuilding,
    u: [Single; 8],
)
    requires
        forall|i: int| 0 <= i < 8 ==> is_share(#[trigger] u@[i]),
        ranges.overhang_m.at(u[0]).is_finite(),
    ensures
        ({
            let roof = roof_from(ranges, asymmetry, morphology, building, u);
            &&& roof.morphology == morphology
            &&& exists|overhang: Single|
                {
                    &&& #[trigger] drawn_from(overhang, ranges.overhang_m)
                    &&& overhangs(roof.eave_width_m, building.footprint_width_m, overhang)
                    &&& overhangs(roof.eave_depth_m, building.footprint_depth_m, overhang)
                }
            &&& fraction_of(
                roof.shoulder_width_m,
                roof.eave_width_m,
                ranges.shoulder_width_fraction,
            )
            &&& fraction_of(
                roof.shoulder_depth_m,
                roof.eave_depth_m,
                ranges.shoulder_depth_fraction,
            )
            &&& fraction_of(
                roof.crown_top_width_m,
                roof.shoulder_width_m,
                ranges.crown_top_width_fraction,
            )
            &&& fraction_of(
                roof.crown_top_depth_m,
                roof.shoulder_depth_m,
                ranges.crown_top_depth_fraction,
            )
            &&& drawn_from(roof.lower_rise_m, ranges.lower_rise_m)
            &&& drawn_from(roof.upper_rise_m, ranges.upper_rise_m)
            &&& drawn_from(roof.asymmetry_fraction, asymmetry)
        }),
{
    one_is_one();
    small_literals();
    assert(is_share(u@[0]) && is_share(u@[1]) && is_share(u@[2]) && is_share(u@[3]) && is_share(
        u@[4],
    ) && is_share(u@[5]) && is_share(u@[6]) && is_share(u@[7]));
    let roof = roof_from(ranges, asymmetry, morphology, building, u);
    let overhang = ranges.overhang_m.at(u[0]);
    let two = Single::ratio(2, 1);
    let twice = two.times(overhang);
    products_round(two, overhang);
    let (o, n) = (overhang.value(), unit());
    crate::bounds::lemma_same_fraction(size(2 * o), 1, n);
    assert(2 * n * o == 2 * o * n && 1 * n == n) by (nonlinear_arith);
    assert(size(2 * o) * n == 2 * o * n || size(2 * o) * n == -(2 * o * n)) by (nonlinear_arith)
        requires
            size(2 * o) == 2 * o || size(2 * o) == -(2 * o),
    ;
    assert(2 * o * n < 0 <==> o < 0) by (nonlinear_arith)
        requires
            n > 0,
    ;
    assert(rounds(twice, 2 * o, 1));
    if twice.is_finite() && building.footprint_width_m.is_finite() {
        sums_round(building.footprint_width_m, twice);
    }
    if twice.is_finite() && building.footprint_depth_m.is_finite() {
        sums_round(building.footprint_depth_m, twice);
    }
    assert(drawn_from(overhang, ranges.overhang_m));
    lemma_fraction(roof.eave_width_m, ranges.shoulder_width_fraction, u[1]);
    lemma_fraction(roof.eave_depth_m, ranges.shoulder_depth_fraction, u[2]);
    lemma_fraction(roof.shoulder_width_m, ranges.crown_top_width_fraction, u[3]);
    lemma_fraction(roof.shoulder_depth_m, ranges.crown_top_depth_fraction, u[4]);
}

pub(crate) proof fn lemma_fraction(whole: Single, range: FloatRange, share: Single)
    requires
        is_share(share),
    ensures
        fraction_of(whole.times(range.at(share)), whole, range),
{
    let part = range.at(share);
    assert(drawn_from(part, range));
    if whole.is_finite() && part.is_finite() {
        products_round(whole, part);
    }
}

/// An ordinary roof is of its family and has the eaves of the target that it is paired with.
/// Flat roofs rise less than all others, and only a cupola has a cap.
pub proof fn ordinary_roofs_match_their_target(
    family: OrdinaryRoofFamily,
    matched: SampledRoof,
    u: [Single; 4],
)
    requires
        forall|i: int| 0 <= i < 4 ==> is_share(#[trigger] u@[i]),
    ensures
        ({
            let roof = ordinary_roof_from(family, matched, u);
            &&& roof.family == family
            &&& roof.eave_width_m == matched.eave_width_m
            &&& roof.eave_depth_m == matched.eave_depth_m
            &&& drawn_from(roof.rise_m, rise_range(family))
            &&& family != OrdinaryRoofFamily::Cupola ==> roof.cap_height_m == Single::zero()
            &&& family == OrdinaryRoofFamily::Cupola ==> drawn_from(
                roof.cap_height_m,
                FloatRange::decimal(8, 21, 10),
            )
            &&& drawn_from(roof.ridge_length_fraction, FloatRange::decimal(28, 72, 100))
            &&& drawn_from(roof.inset_fraction, FloatRange::decimal(18, 68, 100))
        }),
{
    assert(is_share(u@[0]) && is_share(u@[1]) && is_share(u@[2]) && is_share(u@[3]));
}

/// Rises are ranges above zero; those of flat roofs end below half a metre and those of all
/// others begin at a metre. Pyramids rise highest, sheds and cupolas least.
pub proof fn rises_suit_their_family(family: OrdinaryRoofFamily)
    ensures
        rise_range(family).is_valid(),
        Single::zero().less(rise_range(family).min),
        family == OrdinaryRoofFamily::Flat ==> rise_range(family).max.less(Single::ratio(5, 10)),
        family != OrdinaryRoofFamily::Flat ==> Single::one().at_most(rise_range(family).min)
            && Single::ratio(3, 1).less(rise_range(family).max),
        rise_range(family).max.at_most(rise_range(OrdinaryRoofFamily::Pyramid).max),
        rise_range(OrdinaryRoofFamily::Gable) == rise_range(OrdinaryRoofFamily::Hip),
        rise_range(OrdinaryRoofFamily::Cupola).max.less(
            rise_range(OrdinaryRoofFamily::Shed).max,
        ),
        rise_range(OrdinaryRoofFamily::Shed).max.less(
            rise_range(OrdinaryRoofFamily::Mansard).max,
        ),
        rise_range(OrdinaryRoofFamily::Mansard).max.less(
            rise_range(OrdinaryRoofFamily::Gable).max,
        ),
{
    broadcast use crate::bounds::group_literals;

    crate::bounds::literals_of_whole_numbers(1, 1);
    crate::bounds::ratios_stay_apart(0, 1, 16, 100);
    crate::bounds::ratios_stay_apart(0, 1, 14, 10);
    crate::bounds::ratios_stay_apart(0, 1, 10, 10);
    crate::bounds::ratios_stay_apart(0, 1, 18, 10);
    crate::bounds::ratios_stay_apart(0, 1, 20, 10);
    crate::bounds::ratios_stay_apart(0, 1, 12, 10);
    crate::bounds::ratios_stay_apart(48, 100, 5, 10);
    crate::bounds::ratios_stay_apart(3, 1, 46, 10);
    crate::bounds::ratios_stay_apart(3, 1, 38, 10);
    crate::bounds::ratios_stay_apart(3, 1, 42, 10);
    crate::bounds::ratios_stay_apart(3, 1, 52, 10);
    crate::bounds::ratios_stay_apart(3, 1, 34, 10);
    crate::bounds::ratios_keep_order(1, 1, 14, 10);
    crate::bounds::ratios_keep_order(1, 1, 10, 10);
    crate::bounds::ratios_keep_order(1, 1, 18, 10);
    crate::bounds::ratios_keep_order(1, 1, 20, 10);
    crate::bounds::ratios_keep_order(1, 1, 12, 10);
    crate::bounds::ratios_keep_order(48, 100, 52, 10);
    crate::bounds::ratios_keep_order(46, 10, 52, 10);
    crate::bounds::ratios_keep_order(38, 10, 52, 10);
    crate::bounds::ratios_keep_order(42, 10, 52, 10);
    crate::bounds::ratios_keep_order(34, 10, 52, 10);
    crate::bounds::ratios_stay_apart(34, 10, 38, 10);
    crate::bounds::ratios_stay_apart(38, 10, 42, 10);
    crate::bounds::ratios_stay_apart(42, 10, 46, 10);
    crate::bounds::ratios_keep_order(16, 100, 48, 100);
    crate::bounds::ratios_keep_order(14, 10, 46, 10);
    crate::bounds::ratios_keep_order(10, 10, 38, 10);
    crate::bounds::ratios_keep_order(18, 10, 42, 10);
    crate::bounds::ratios_keep_order(20, 10, 52, 10);
    crate::bounds::ratios_keep_order(12, 10, 34, 10);
}

/// A material is the one that was chosen: with its name, its colour where that may not vary,
/// and a roughness and a weathering from its ranges. A colour that may vary stays between
/// none and all of each channel.
pub proof fn materials_come_from_their_choice(
    choice: MaterialChoice,
    u: [Single; 3],
    v: [Single; 2],
    i: int,
)
    requires
        is_share(v@[0]),
        is_share(v@[1]),
        0 <= i < 3,
    ensures
        ({
            let made = material_from(choice, u, v);
            let channel = made.base_color_srgb@[i];
            &&& made.id == choice.id
            &&& drawn_from(made.roughness, choice.roughness)
            &&& drawn_from(made.weathering, choice.weathering)
            &&& choice.base_color_variation.equals(Single::zero()) ==> made.base_color_srgb
                == choice.base_color_srgb
            &&& !choice.base_color_variation.equals(Single::zero()) && !channel.is_nan()
                ==> channel.within(Single::zero(), Single::one())
        }),
{
}

/// A channel is not darkened by a variation of which the whole share was drawn.
pub proof fn channels_brighten_with_the_whole_share(channel: Single, variation: Single)
    requires
        is_share(channel),
        variation.is_finite(),
        0 <= variation.value() < unit(),
    ensures
        channel.at_most(varied_channel(channel, variation, Single::one())),
{
    one_is_one();
    small_literals();
    crate::rounding::whole_literals(4);
    let one = Single::one();
    let (u, v) = (unit(), variation.value());
    crate::rounding::negations_change_the_sign(variation);
    let least = variation.negated();
    let wide = variation.minus(least);
    crate::rounding::differences_round(variation, least);
    bounded_results_are_finite(wide, 2 * v, 1, Single::ratio(2, 1));
    let zero = Single::zero();
    neutral_operands(variation, zero);
    crate::rounding::differences_round(variation, zero);
    crate::rounding::results_keep_order(variation.minus(zero), wide, v, 2 * v, 1);
    order_is_value_order(variation.minus(zero), wide);
    neutral_operands(wide, zero);
    let offset = FloatRange::new(least, variation).at(one);
    sums_round(least, wide);
    bounded_results_are_finite(offset, wide.value() - v, 1, Single::ratio(2, 1));
    results_are_close(offset, wide.value() - v, 1);
    let factor = one.plus(offset);
    sums_round(one, offset);
    bounded_results_are_finite(factor, u + offset.value(), 1, Single::ratio(4, 1));
    sums_round(one, zero);
    neutral_operands(one, zero);
    crate::rounding::results_keep_order(one.plus(zero), factor, u, u + offset.value(), 1);
    order_is_value_order(one.plus(zero), factor);
    let made = channel.times(factor);
    products_round(channel, factor);
    products_round(channel, one);
    neutral_operands(channel, zero);
    let (c, g) = (channel.value(), factor.value());
    assert(c * u <= c * g) by (nonlinear_arith)
        requires
            0 <= c,
            u <= g,
    ;
    crate::rounding::results_keep_order(channel.times(one), made, c * u, c * g, u);
    order_is_value_order(channel, one);
    order_is_value_order(zero, channel);
}

/// A channel is not brightened by a variation of which nothing was drawn.
pub proof fn channels_darken_with_no_share(channel: Single, variation: Single, none: Single)
    requires
        is_share(channel),
        variation.is_finite(),
        0 <= variation.value() < unit(),
        none.is_finite(),
        none.value() == 0,
    ensures
        varied_channel(channel, variation, none).at_most(channel),
{
    one_is_one();
    let one = Single::one();
    crate::rounding::negations_change_the_sign(variation);
    let range = FloatRange::new(variation.negated(), variation);
    let wide = variation.minus(variation.negated());
    crate::rounding::differences_round(variation, variation.negated());
    small_literals();
    let u = unit();
    bounded_results_are_finite(wide, 2 * variation.value(), 1, Single::ratio(2, 1));
    neutral_operands(wide, none);
    neutral_operands(variation.negated(), wide.times(none));
    let offset = range.at(none);
    let factor = one.plus(offset);
    sums_round(one, offset);
    let f = u - variation.value();
    bounded_results_are_finite(factor, f, 1, one);
    results_are_close(factor, f, 1);
    let made = channel.times(factor);
    products_round(channel, factor);
    let (c, g) = (channel.value(), factor.value());
    assert(0 <= c * g <= c * u) by (nonlinear_arith)
        requires
            0 <= c,
            0 <= g <= u,
    ;
    bounded_results_are_finite(made, c * g, u, channel);
    results_are_close(made, c * g, u);
    order_is_value_order(made, channel);
    order_is_value_order(made, Single::zero());
    order_is_value_order(made, one);
    order_is_value_order(Single::zero(), channel);
}

/// The sun of a day is the drawn one, that of twilight is less than a third of it, and nights
/// have none. The sky keeps more at twilight, and at night less than a sixth.
pub proof fn light_fades_with_the_day(intensity: Single, domain: SceneDomain)
    requires
        intensity.is_finite(),
        intensity.value() >= 0x100_0000,
    ensures
        phased_sun(DayPhase::Day, intensity) == intensity,
        phased_sun(DayPhase::Night, intensity).value() == 0,
        ({
            let dusk = phased_sun(DayPhase::Twilight, intensity);
            &&& dusk.is_finite()
            &&& 3 * dusk.value() < intensity.value()
            &&& 4 * dusk.value() > intensity.value()
        }),
        phased_sky(DayPhase::Day, intensity, domain) == intensity,
        ({
            let dusk = phased_sky(DayPhase::Twilight, intensity, domain);
            &&& dusk.is_finite()
            &&& 3 * dusk.value() < 2 * intensity.value()
            &&& 2 * dusk.value() > intensity.value()
        }),
        ({
            let night = phased_sky(DayPhase::Night, intensity, domain);
            &&& night.is_finite()
            &&& 6 * night.value() < intensity.value()
            &&& 24 * night.value() > intensity.value()
        }),
{
    one_is_one();
    lemma_scaled(intensity, 28, 100, 25, 33);
    lemma_scaled(intensity, 62, 100, 55, 65);
    let light = domain_light(domain);
    crate::bounds::ratio_spans(12, 100, 122, 123);
    assert(crate::bounds::spans(light, 430, 1332)) by {
        crate::bounds::literals_of_whole_numbers(1, 1);
        crate::bounds::ratio_spans(13, 10, 430, 1332);
        crate::bounds::ratio_spans(115, 100, 430, 1332);
        crate::bounds::ratio_spans(1, 1, 430, 1332);
        crate::bounds::ratio_spans(78, 100, 430, 1332);
        crate::bounds::ratio_spans(42, 100, 430, 1332);
    }
    let night = Single::ratio(12, 100).times(light);
    crate::bounds::product_spans(Single::ratio(12, 100), light, 122, 123, 430, 1332, 51, 160);
    lemma_spanned(intensity, night, 51, 160);
}

proof fn lemma_spanned(x: Single, factor: Single, low: int, high: int)
    requires
        x.is_finite(),
        x.value() >= 0x100_0000,
        crate::bounds::spans(factor, low, high),
        0 < low <= high <= 1023,
    ensures
        x.times(factor).is_finite(),
        1024 * x.times(factor).value() > (low - 1) * x.value(),
        1024 * x.times(factor).value() < (high + 1) * x.value(),
{
    one_is_one();
    vstd::arithmetic::power2::lemma2_to64();
    vstd::arithmetic::power2::lemma_pow2_adds(10, 139);
    vstd::arithmetic::power2::lemma_pow2_pos(139);
    let v = vstd::arithmetic::power2::pow2(139) as int;
    let u = unit();
    let (a, f) = (x.value(), factor.value());
    let r = x.times(factor);
    products_round(x, factor);
    assert(f <= u) by (nonlinear_arith)
        requires
            f <= high * v,
            high <= 1024,
            u == 1024 * v,
            v > 0,
    ;
    assert(0 <= a * f <= a * u) by (nonlinear_arith)
        requires
            0 <= f <= u,
            0 <= a,
    ;
    bounded_results_are_finite(r, a * f, u, x);
    results_are_close(r, a * f, u);
    let k = r.value();
    assert(low * (a * v) <= a * f && a * f <= high * (a * v)) by (nonlinear_arith)
        requires
            low * v <= f <= high * v,
            a >= 0,
    {
        assert(a * (low * v) <= a * f);
        assert(a * f <= a * (high * v));
    }
    assert(k * u == 1024 * (k * v)) by (nonlinear_arith)
        requires
            u == 1024 * v,
    ;
    assert(v * 0x100_0000 <= a * v) by (nonlinear_arith)
        requires
            a >= 0x100_0000,
            v > 0,
    ;
    assert(1024 * k > (low - 1) * a && 1024 * k < (high + 1) * a) by (nonlinear_arith)
        requires
            v > 0,
            size(1024 * (k * v) - a * f) * 0x100_0000 <= a * f + 0x80_0000 * (1024 * v),
            low * (a * v) <= a * f,
            a * f <= high * (a * v),
            v * 0x100_0000 <= a * v,
            0 < low <= high,
            high <= 1023,
    {
        assert(a * f <= 1023 * (a * v));
        assert((1024 * (k * v) - a * f) * 0x100_0000 <= 1024 * (a * v) + 512 * (a * v));
        assert((a * f - 1024 * (k * v)) * 0x100_0000 <= 1024 * (a * v) + 512 * (a * v));
        assert(1024 * (k * v) < (high + 1) * (a * v));
        assert(1024 * (k * v) > (low - 1) * (a * v));
        assert((1024 * k) * v < ((high + 1) * a) * v);
        assert((1024 * k) * v > ((low - 1) * a) * v);
    }
}

pub(crate) proof fn lemma_scaled(x: Single, num: i32, den: u32, low: int, high: int)
    requires
        x.is_finite(),
        x.value() >= 0x100_0000,
        den == 100,
        0 < low + 1 < num,
        num < high - 1,
        high < 90,
    ensures
        x.times(Single::ratio(num, den)).is_finite(),
        100 * x.times(Single::ratio(num, den)).value() > low * x.value(),
        100 * x.times(Single::ratio(num, den)).value() < high * x.value(),
{
    let a = num * 1024 / 100;
    crate::bounds::ratio_spans(num, den, a, a + 1);
    lemma_spanned(x, Single::ratio(num, den), a, a + 1);
    let (k, v) = (x.times(Single::ratio(num, den)).value(), x.value());
    assert(100 * k > low * v && 100 * k < high * v) by (nonlinear_arith)
        requires
            1024 * k > (a - 1) * v,
            1024 * k < (a + 2) * v,
            v > 0,
            100 * (a - 1) > 1024 * low,
            100 * (a + 2) < 1024 * high,
    {
        assert(100 * (1024 * k) > 100 * ((a - 1) * v));
        assert((100 * (a - 1)) * v > (1024 * low) * v);
        assert((100 * (a + 2)) * v < (1024 * high) * v);
    }
}

/// The more city, the more light at night; a suburb is the measure.
pub proof fn cities_are_bright()
    ensures
        domain_light(SceneDomain::Urban).less(domain_light(SceneDomain::City)),
        domain_light(SceneDomain::Suburban).less(domain_light(SceneDomain::Urban)),
        domain_light(SceneDomain::Roadside).less(domain_light(SceneDomain::Suburban)),
        domain_light(SceneDomain::Remote).less(domain_light(SceneDomain::Roadside)),
        domain_light(SceneDomain::Suburban) == Single::one(),
        Single::zero().less(domain_light(SceneDomain::Remote)),
{
    crate::bounds::literals_of_whole_numbers(1, 1);
    crate::bounds::ratios_stay_apart(115, 100, 13, 10);
    crate::bounds::ratios_stay_apart(1, 1, 115, 100);
    crate::bounds::ratios_stay_apart(78, 100, 1, 1);
    crate::bounds::ratios_stay_apart(42, 100, 78, 100);
    crate::bounds::ratios_stay_apart(0, 1, 42, 100);
}

/// The common part of two ranges holds what both hold, and a preferred part is taken exactly
/// where there is one.
pub proof fn common_ranges_hold_what_both_hold(a: FloatRange, b: FloatRange, x: Single)
    requires
        a.is_valid(),
        b.is_valid(),
    ensures
        intersect_ranges(a, b).contains(x) <==> a.contains(x) && b.contains(x),
        preferred_intersection(a, b).contains(x) ==> a.contains(x),
        (exists|y: Single| a.contains(y) && #[trigger] b.contains(y))
            ==> (preferred_intersection(a, b).contains(x) <==> a.contains(x) && b.contains(x)),
        !(exists|y: Single| a.contains(y) && #[trigger] b.contains(y))
            ==> preferred_intersection(a, b) == a,
{
    let common = intersect_ranges(a, b);
    if common.is_valid() {
        assert(a.contains(common.min) && b.contains(common.min));
    } else if exists|y: Single| a.contains(y) && #[trigger] b.contains(y) {
        let y = choose|y: Single| a.contains(y) && #[trigger] b.contains(y);
        assert(common.contains(y));
    }
}

/// The light of a scene is drawn from what the configuration, the weather and the phase of
/// the day have in common: the sun stands anywhere around and as high as both the light and
/// the phase admit.
pub proof fn light_comes_from_common_ranges(
    light: LightingSamplingConfig,
    weather: WeatherProfile,
    phase: DayPhaseProfile,
    domain: SceneDomain,
    u: [Single; 10],
)
    requires
        forall|i: int| 0 <= i < 10 ==> is_share(#[trigger] u@[i]),
    ensures
        ({
            let made = lighting_from(light, weather, phase, domain, u);
            &&& drawn_from(made.sun_azimuth_degrees, FloatRange::decimal(0, 360, 1))
            &&& drawn_from(
                made.sun_elevation_degrees,
                intersect_ranges(light.sun_elevation_degrees, phase.sun_elevation_degrees),
            )
            &&& drawn_from(
                made.cloud_coverage,
                intersect_ranges(light.cloud_coverage, weather.cloud_coverage),
            )
            &&& drawn_from(made.haze, intersect_ranges(light.haze, weather.haze))
            &&& exists|sun: Single|
                {
                    &&& #[trigger] drawn_from(
                        sun,
                        intersect_ranges(light.sun_intensity, weather.sun_intensity),
                    )
                    &&& made.sun_intensity == phased_sun(phase.phase, sun)
                }
            &&& exists|sky: Single|
                {
                    &&& #[trigger] drawn_from(
                        sky,
                        intersect_ranges(light.sky_intensity, weather.sky_intensity),
                    )
                    &&& made.sky_intensity == phased_sky(phase.phase, sky, domain)
                }
        }),
{
    assert(is_share(u@[0]) && is_share(u@[1]) && is_share(u@[2]) && is_share(u@[4]) && is_share(
        u@[5],
    ) && is_share(u@[6]));
    let sun = intersect_ranges(light.sun_intensity, weather.sun_intensity).at(u[1]);
    let sky = intersect_ranges(light.sky_intensity, weather.sky_intensity).at(u[2]);
    assert(drawn_from(sun, intersect_ranges(light.sun_intensity, weather.sun_intensity)));
    assert(drawn_from(sky, intersect_ranges(light.sky_intensity, weather.sky_intensity)));
}

/// The environment of a scene is of its weather, its phase and its domain, and everything in
/// it is drawn from the ranges of its weather or of its phase.
pub proof fn environments_come_from_weather_and_phase(
    weather: WeatherProfile,
    phase: DayPhaseProfile,
    domain: SceneDomain,
    u: [Single; 10],
    v: [Single; 2],
)
    requires
        forall|i: int| 0 <= i < 10 ==> is_share(#[trigger] u@[i]),
        is_share(v@[0]),
        is_share(v@[1]),
    ensures
        ({
            let made = environment_from(weather, phase, domain, u, v);
            &&& made.day_phase == phase.phase
            &&& made.domain == domain
            &&& made.weather == weather.preset
            &&& drawn_from(made.shadow_softness, weather.shadow_softness)
            &&& drawn_from(made.ground_wetness, weather.ground_wetness)
            &&& drawn_from(made.visibility_km, weather.visibility_km)
            &&& drawn_from(made.camera_exposure_ev100, phase.camera_exposure_ev100)
            &&& phase.phase == DayPhase::Day ==> drawn_from(
                made.color_temperature_k,
                weather.color_temperature_k,
            )
            &&& phase.phase == DayPhase::Night ==> drawn_from(
                made.color_temperature_k,
                preferred_intersection(
                    weather.color_temperature_k,
                    FloatRange::decimal(2_600, 4_800, 1),
                ),
            )
            &&& phase.phase == DayPhase::Twilight ==> drawn_from(
                made.color_temperature_k,
                preferred_intersection(
                    weather.color_temperature_k,
                    FloatRange::decimal(3_400, 6_800, 1),
                ),
            )
            &&& exists|lamps: Single|
                {
                    &&& #[trigger] drawn_from(lamps, phase.artificial_light_strength)
                    &&& lamps.is_finite() ==> rounds(
                        made.artificial_light_strength,
                        lamps.value() * domain_light(domain).value(),
                        unit(),
                    )
                }
        }),
{
    assert(is_share(u@[3]) && is_share(u@[7]) && is_share(u@[8]) && is_share(u@[9]));
    let lamps = phase.artificial_light_strength.at(v[0]);
    assert(drawn_from(lamps, phase.artificial_light_strength));
    if lamps.is_finite() {
        one_is_one();
        crate::bounds::ratios_are_finite(13, 10);
        crate::bounds::ratios_are_finite(115, 100);
        crate::bounds::ratios_are_finite(78, 100);
        crate::bounds::ratios_are_finite(42, 100);
        products_round(lamps, domain_light(domain));
    }
}

} // verus!
