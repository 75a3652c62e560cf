//! What surrounds a building, and what shines on it.

use crate::described_laws::same_side;
use crate::config::OccluderKind;
use crate::plan::SampledBuilding;
use crate::rounding::{
    bounded_results_are_finite, differences_round, exact_results_are_kept, integers_round,
    literals_round, negations_change_the_sign, neutral_operands, one_is_one, products_follow_signs,
    products_round, quotients_round, results_are_close, results_keep_order, rounds, size,
    small_literals, sums_round, whole_literals, whole_numbers,
};
use crate::sample_clutter::{
    draft_from, foreground_probability_scale, foreground_target, middle_of, occluder_size,
};
use crate::sample_site::tau;
use crate::scene::{
    BackgroundBuildingKind, EnvironmentDomain, SignDescription, SignMount, SignStyle, TimeOfDay,
    UtilityPoleDescription,
};
use crate::scene_context::{
    adjacent_lines, background, bays_for, context_background_at, context_background_count,
    context_pole_at, context_pole_count, front_sign, lane_for, parking_center_for, road_center_for,
    sign_strength,
};
use crate::scene_sampled::{
    facade_from, glazing_scale, pole_light, pole_shines, seed_to_yaw, sign_light, sign_shines,
    window_count, windows_fit,
};
use crate::single::{order_is_value_order, Single};
use crate::types::Vec3;
use crate::whole::{nearest_whole, unit};
use vstd::prelude::*;

verus! {

/// A known number becomes the whole one nearest to it.
proof fn lemma_whole(x: Single)
    requires
        x.is_finite(),
        0 <= x.value() <= 0x10_0000 * unit(),
    ensures
        x.round().is_finite(),
        x.round().value() == nearest_whole(x.value()) * unit(),
        0 <= nearest_whole(x.value()) <= 0x10_0001,
{
    one_is_one();
    crate::rounding::lemma_value(x);
    let (v, u) = (x.value(), unit());
    assert(crate::single::magnitude(0) == 0);
    let whole = nearest_whole(v);
    vstd::arithmetic::div_mod::lemma_fundamental_div_mod(2 * v + u, 2 * u);
    vstd::arithmetic::div_mod::lemma_mod_bound(2 * v + u, 2 * u);
    assert((2 * u) * whole <= 2 * v + u && 2 * v + u < (2 * u) * whole + 2 * u);
    assert(0 <= whole <= 0x10_0001) by (nonlinear_arith)
        requires
            (2 * u) * whole <= 2 * v + u,
            2 * v + u < (2 * u) * whole + 2 * u,
            0 <= v <= 0x10_0000 * u,
            u > 0,
    ;
    let n = whole as u32;
    whole_numbers(n);
    integers_round(n);
    let exact = Single::from_u32(n);
    crate::rounding::lemma_value(exact);
    assert(whole * u >= 0) by (nonlinear_arith)
        requires
            whole >= 0,
            u > 0,
    ;
    reveal(Single::spec_round);
    let r = x.round();
    assert(r.code() == exact.rank());
    crate::rounding::lemma_value(r);
    if x.is_negative() {
        assert(whole == 0) by (nonlinear_arith)
            requires
                (2 * u) * whole <= u,
                whole >= 0,
                u > 0,
        ;
        assert(whole * u == 0) by (nonlinear_arith)
            requires
                whole == 0,
        ;
        assert(exact.value() == 0);
        assert(r.code() == 0);
    }
}

/// A whole number kept between two others.
pub open spec fn kept_between(n: int, low: int, high: int) -> int {
    if n < low {
        low
    } else if n > high {
        high
    } else {
        n
    }
}

proof fn lemma_counted(x: Single, low: u32, high: u32)
    requires
        x.is_finite(),
        0 <= x.value() <= 0x10_0000 * unit(),
        0 < low <= high < 0x10_0000,
    ensures
        x.round().clamp(Single::ratio(low as i32, 1), Single::ratio(high as i32, 1)).to_u32()
            == kept_between(nearest_whole(x.value()), low as int, high as int),
        x.round().clamp(Single::one(), Single::ratio(high as i32, 1)).to_u32() == kept_between(
            nearest_whole(x.value()),
            1,
            high as int,
        ),
{
    one_is_one();
    lemma_whole(x);
    whole_literals(low as i32);
    whole_literals(high as i32);
    let (a, b, r, u) = (
        Single::ratio(low as i32, 1),
        Single::ratio(high as i32, 1),
        x.round(),
        unit(),
    );
    let n = nearest_whole(x.value());
    order_is_value_order(r, a);
    order_is_value_order(b, r);
    order_is_value_order(r, Single::one());
    assert(n * u < low * u <==> n < low) by (nonlinear_arith)
        requires
            u > 0,
    ;
    assert(n * u < 1 * u <==> n < 1) by (nonlinear_arith)
        requires
            u > 0,
    ;
    assert(high * u < n * u <==> high < n) by (nonlinear_arith)
        requires
            u > 0,
    ;
    lemma_told(r, n);
    lemma_told(a, low as int);
    lemma_told(b, high as int);
    lemma_told(Single::one(), 1);
}

proof fn lemma_told(x: Single, n: int)
    requires
        x.is_finite(),
        x.value() == n * unit(),
        0 <= n <= 0x10_0001,
    ensures
        x.to_u32() == n,
{
    one_is_one();
    crate::rounding::lemma_value(x);
    let u = unit();
    vstd::arithmetic::div_mod::lemma_div_multiples_vanish(n, u);
    assert(n * u == u * n) by (nonlinear_arith);
    if x.is_negative() {
        assert(n == 0) by (nonlinear_arith)
            requires
                n * u <= 0,
                n >= 0,
                u > 0,
        ;
    }
}

/// There is a window for each two and a half metres at the usual glazing, more where there is
/// more glass, at least one and no more than fit.
pub proof fn windows_suit_their_wall(length: Single, scale: Single, limit: u32)
    requires
        length.is_finite(),
        scale.is_finite(),
        0 <= length.value() <= 0x400 * unit(),
        0 <= scale.value() <= 2 * unit(),
        0 < limit < 0x1000,
    ensures
        exists|share: Single, wanted: Single|
            {
                &&& #[trigger] rounds(share, 2 * length.value(), 5)
                &&& #[trigger] rounds(wanted, share.value() * scale.value(), unit())
                &&& wanted.is_finite()
                &&& window_count(length, scale, Single::ratio(limit as i32, 1)) == kept_between(
                    nearest_whole(wanted.value()),
                    1,
                    limit as int,
                )
            },
{
    one_is_one();
    let u = unit();
    let step = Single::ratio(25, 10);
    lemma_step();
    quotients_round(length, step);
    let share = length.over(step);
    let l = length.value();
    lemma_fifth(share, l, step.value(), u);
    whole_literals(0x400);
    assert(size(2 * l) <= (0x400 * u) * 5);
    bounded_results_are_finite(share, 2 * l, 5, Single::ratio(0x400, 1));
    results_are_close(share, 2 * l, 5);
    products_round(share, scale);
    let wanted = share.times(scale);
    let (s, c) = (share.value(), scale.value());
    assert(0 <= s * c && size(s * c) <= (0x800 * u) * u) by (nonlinear_arith)
        requires
            0 <= s <= 0x400 * u,
            0 <= c <= 2 * u,
            u > 0,
    ;
    whole_literals(0x800);
    bounded_results_are_finite(wanted, s * c, u, Single::ratio(0x800, 1));
    results_are_close(wanted, s * c, u);
    lemma_counted(wanted, 1, limit);
    assert(rounds(share, 2 * l, 5));
    assert(rounds(wanted, s * c, u));
}

proof fn lemma_fifth(share: Single, l: int, step: int, u: int)
    requires
        rounds(share, l * u, step),
        2 * step == 5 * u,
        l >= 0,
        u > 0,
        u % 2 == 0,
    ensures
        rounds(share, 2 * l, 5),
{
    let half = u / 2;
    assert(u == 2 * half && step == 5 * half);
    assert(l * u == (2 * l) * half && (2 * l) * half >= 0 && half > 0) by (nonlinear_arith)
        requires
            u == 2 * half,
            l >= 0,
            u > 0,
    ;
    crate::bounds::lemma_same_fraction(2 * l, 5, half);
}

proof fn lemma_step()
    ensures
        Single::ratio(25, 10).is_finite(),
        2 * Single::ratio(25, 10).value() == 5 * unit(),
        unit() % 2 == 0,
{
    one_is_one();
    vstd::arithmetic::power2::lemma2_to64();
    vstd::arithmetic::power2::lemma_pow2_adds(1, 148);
    let u = unit();
    let code = crate::bounds::lemma_representable(5, 148);
    let own = Single { bits: code as u32 };
    assert(own.is_finite() && own.value() == 5 * vstd::arithmetic::power2::pow2(148));
    literals_round(25, 10);
    exact_results_are_kept(Single::ratio(25, 10), 25 * u, 10, own);
}

/// The facade is drawn as it was sampled: its glass and its entrance as they are, the entrance
/// no higher than the walls leave, and its windows where people look out, lower than the walls.
pub proof fn facades_are_drawn_as_sampled(
    glazing: Single,
    color: [Single; 3],
    roughness: Single,
    dirt: Single,
    side: crate::composition::FacadeSide,
    width: Single,
    weathering: Single,
    building: SampledBuilding,
)
    requires
        building.wall_height_m.is_finite(),
        glazing.is_finite(),
    ensures
        ({
            let own = facade_from(
                glazing,
                color,
                roughness,
                dirt,
                side,
                width,
                weathering,
                building,
            );
            let wall = building.wall_height_m;
            let high = wall.times(Single::ratio(58, 100));
            &&& same_side(own.entrance_side, side)
            &&& own.entrance_width_m == width && own.entrance_canopy
            &&& own.weathering == weathering && own.glazing_color_srgb == color
            &&& own.glazing_roughness == roughness && own.glazing_weathering == dirt
            &&& own.entrance_height_m.at_most(Single::ratio(225, 100))
            &&& own.entrance_height_m.at_most(wall.minus(Single::ratio(35, 100)))
            &&& own.window_sill_height_m.within(Single::ratio(55, 100), Single::ratio(9, 10))
            &&& windows_fit(building) && wall.times(glazing).is_finite()
                ==> own.window_height_m.within(Single::one(), high)
            &&& windows_fit(building) <==> Single::one().at_most(high)
            &&& own.long_side_window_count == window_count(
                building.footprint_width_m,
                glazing_scale(glazing),
                Single::ratio(18, 1),
            )
            &&& own.short_side_window_count == window_count(
                building.footprint_depth_m,
                glazing_scale(glazing),
                Single::ratio(14, 1),
            )
        }),
{
    one_is_one();
    let wall = building.wall_height_m;
    crate::bounds::ratios_are_finite(225, 100);
    crate::bounds::ratios_are_finite(35, 100);
    differences_round(wall, Single::ratio(35, 100));
    crate::bounds::ratios_are_finite(18, 100);
    crate::bounds::ratios_are_finite(55, 100);
    crate::bounds::ratios_are_finite(9, 10);
    crate::bounds::ratios_stay_apart(55, 100, 9, 10);
    products_round(wall, Single::ratio(18, 100));
    crate::bounds::ratios_are_finite(135, 100);
    if wall.times(glazing).is_finite() {
        products_round(wall.times(glazing), Single::ratio(135, 100));
    }
}

/// More glass means more windows: its share scales them from less than half to less than
/// twice, and a quarter of glass is the usual.
pub proof fn glass_scales_windows(a: Single, b: Single)
    requires
        a.is_finite(),
        b.is_finite(),
        a.value() <= b.value(),
    ensures
        glazing_scale(a).at_most(glazing_scale(b)),
        Single::ratio(45, 100).at_most(glazing_scale(a)),
        glazing_scale(a).at_most(Single::ratio(18, 10)),
        4 * a.value() == unit() ==> glazing_scale(a).value() == unit(),
{
    one_is_one();
    let quarter = Single::ratio(25, 100);
    let u = unit();
    lemma_quarter();
    quotients_round(a, quarter);
    quotients_round(b, quarter);
    let (p, q) = (a.value(), b.value());
    assert(p * u <= q * u) by (nonlinear_arith)
        requires
            p <= q,
            u > 0,
    ;
    results_keep_order(a.over(quarter), b.over(quarter), p * u, q * u, quarter.value());
    crate::bounds::ratios_are_finite(45, 100);
    crate::bounds::ratios_are_finite(18, 10);
    crate::bounds::ratios_stay_apart(45, 100, 1, 1);
    crate::bounds::ratios_stay_apart(1, 1, 18, 10);
    whole_literals(1);
    if 4 * p == u {
        assert(p * u == u * quarter.value()) by (nonlinear_arith)
            requires
                4 * p == u,
                4 * quarter.value() == u,
        ;
        exact_results_are_kept(a.over(quarter), p * u, quarter.value(), Single::one());
        order_is_value_order(a.over(quarter), Single::ratio(45, 100));
        order_is_value_order(Single::ratio(18, 10), a.over(quarter));
        order_is_value_order(Single::ratio(45, 100), Single::ratio(1, 1));
        order_is_value_order(Single::ratio(1, 1), Single::ratio(18, 10));
    }
}

pub(crate) proof fn lemma_quarter()
    ensures
        Single::ratio(25, 100).is_finite(),
        4 * Single::ratio(25, 100).value() == unit(),
{
    one_is_one();
    vstd::arithmetic::power2::lemma2_to64();
    vstd::arithmetic::power2::lemma_pow2_adds(2, 147);
    let u = unit();
    let code = crate::bounds::lemma_representable(1, 147);
    let own = Single { bits: code as u32 };
    assert(own.is_finite() && own.value() == 1 * vstd::arithmetic::power2::pow2(147));
    literals_round(25, 100);
    exact_results_are_kept(Single::ratio(25, 100), 25 * u, 100, own);
}

/// Lamps and signs shine after daylight only, where they have a light at all.
pub proof fn lamps_shine_after_daylight(
    sign: SignDescription,
    pole: UtilityPoleDescription,
    time: TimeOfDay,
    strength: Single,
)
    requires
        sign.emissive_strength.is_finite(),
        strength.is_finite(),
    ensures
        sign_shines(sign, time) <==> time != TimeOfDay::Day && sign.emissive_strength.value() > 0,
        pole_shines(pole, time, strength) <==> time != TimeOfDay::Day && pole.has_light
            && strength.value() > 0,
        TimeOfDay::Day.emission_scale().value() == 0,
        TimeOfDay::Night.emission_scale().value() == unit(),
        Single::zero().less(TimeOfDay::Twilight.emission_scale()),
        TimeOfDay::Twilight.emission_scale().less(Single::one()),
{
    one_is_one();
    crate::geometry_laws::lemma_zero(1);
    crate::bounds::ratios_are_finite(45, 100);
    crate::bounds::ratios_stay_apart(0, 1, 45, 100);
    crate::bounds::ratios_stay_apart(45, 100, 1, 1);
    whole_literals(0);
    whole_literals(1);
    order_is_value_order(Single::ratio(0, 1), Single::ratio(45, 100));
    order_is_value_order(Single::zero(), Single::ratio(45, 100));
    order_is_value_order(Single::ratio(45, 100), Single::ratio(1, 1));
    order_is_value_order(Single::ratio(45, 100), Single::one());
    order_is_value_order(Single::zero(), Single::one());
    order_is_value_order(Single::zero(), sign.emissive_strength);
    order_is_value_order(Single::zero(), strength);
}

/// A sign shines from where it is with its own strength, five metres far at least; a lamp from
/// the end of its arm below the top of its pole, three times as strong as the lights of the
/// place and ten metres far at least. Both shine warm.
pub proof fn lights_come_from_their_lamps(
    sign: SignDescription,
    pole: UtilityPoleDescription,
    strength: Single,
)
    requires
        strength.is_finite(),
        pole.position[0].is_finite(),
        pole.position[1].is_finite(),
        pole.height_m.is_finite(),
        pole.position[1].plus(pole.height_m).is_finite(),
        sign.size[0].is_finite(),
    ensures
        sign_light(sign).position == sign.center,
        sign_light(sign).intensity == sign.emissive_strength,
        Single::ratio(5, 1).at_most(sign_light(sign).range_m),
        rounds(pole_light(pole, strength).position[0], pole.position[0].value() + unit(), 1),
        pole_light(pole, strength).position[2] == pole.position[2],
        exists|top: Single|
            {
                &&& #[trigger] rounds(top, pole.position[1].value() + pole.height_m.value(), 1)
                &&& pole_light(pole, strength).position[1].less(top) || size(top.value())
                    >= 0x20_0000 * unit()
            },
        rounds(
            pole_light(pole, strength).intensity,
            strength.value() * 3,
            1,
        ),
        Single::ratio(10, 1).at_most(pole_light(pole, strength).range_m),
        sign_light(sign).color[1].less(sign_light(sign).color[0]),
        sign_light(sign).color[2].less(sign_light(sign).color[1]),
        pole_light(pole, strength).color[1].less(pole_light(pole, strength).color[0]),
        pole_light(pole, strength).color[2].less(pole_light(pole, strength).color[1]),
{
    one_is_one();
    small_literals();
    whole_literals(5);
    whole_literals(10);
    sums_round(pole.position[0], Single::one());
    let top = pole.position[1].plus(pole.height_m);
    sums_round(pole.position[1], pole.height_m);
    lemma_quarter();
    differences_round(top, Single::ratio(25, 100));
    assert(rounds(top, pole.position[1].value() + pole.height_m.value(), 1));
    lemma_below(top);
    let three = Single::ratio(3, 1);
    products_round(strength, three);
    let (s, u) = (strength.value(), unit());
    lemma_thrice(strength.times(three), s, u);
    let far = Single::ratio(24, 10);
    crate::bounds::ratios_are_finite(24, 10);
    products_round(pole.height_m, far);
    let wide = Single::ratio(25, 10);
    crate::bounds::ratios_are_finite(25, 10);
    products_round(sign.size[0], wide);
    lemma_lamp_colours();
}

proof fn lemma_thrice(r: Single, s: int, u: int)
    requires
        u > 0,
        rounds(r, s * (3 * u), u),
    ensures
        rounds(r, s * 3, 1),
{
    assert(s * (3 * u) == (s * 3) * u && (s * 3 < 0 <==> (s * 3) * u < 0) && -((s * 3) * u) == (-(
    s * 3)) * u) by (nonlinear_arith)
        requires
            u > 0,
    ;
    if s >= 0 {
        crate::bounds::lemma_same_fraction(s * 3, 1, u);
    } else {
        crate::bounds::lemma_same_fraction(-(s * 3), 1, u);
    }
}

proof fn lemma_lamp_colours()
    ensures
        Single::ratio(62, 100).less(Single::one()),
        Single::ratio(32, 100).less(Single::ratio(62, 100)),
        Single::ratio(78, 100).less(Single::one()),
        Single::ratio(5, 10).less(Single::ratio(78, 100)),
{
    one_is_one();
    whole_literals(1);
    crate::bounds::ratios_are_finite(62, 100);
    crate::bounds::ratios_are_finite(78, 100);
    crate::bounds::ratios_stay_apart(62, 100, 1, 1);
    crate::bounds::ratios_stay_apart(32, 100, 62, 100);
    crate::bounds::ratios_stay_apart(78, 100, 1, 1);
    crate::bounds::ratios_stay_apart(5, 10, 78, 100);
    order_is_value_order(Single::ratio(62, 100), Single::ratio(1, 1));
    order_is_value_order(Single::ratio(62, 100), Single::one());
    order_is_value_order(Single::ratio(78, 100), Single::ratio(1, 1));
    order_is_value_order(Single::ratio(78, 100), Single::one());
}

proof fn lemma_below(top: Single)
    requires
        top.is_finite(),
    ensures
        top.minus(Single::ratio(25, 100)).less(top) || size(top.value()) >= 0x20_0000 * unit(),
{
    one_is_one();
    lemma_quarter();
    crate::described_laws::lemma_unit_large();
    let u = unit();
    let q = Single::ratio(25, 100);
    let r = top.minus(q);
    differences_round(top, q);
    if size(top.value()) < 0x20_0000 * u {
        whole_literals(0x20_0001);
        bounded_results_are_finite(r, top.value() - q.value(), 1, Single::ratio(0x20_0001, 1));
        results_are_close(r, top.value() - q.value(), 1);
        order_is_value_order(r, top);
    }
}

/// Environments are turned by their seed: from not at all to a full turn.
pub proof fn seeds_turn_the_sky(a: u32, b: u32)
    ensures
        seed_to_yaw(0).value() == 0,
        seed_to_yaw(0xffff_ffff) == tau(),
        a <= b ==> seed_to_yaw(a).at_most(seed_to_yaw(b)),
{
    one_is_one();
    let u = unit();
    let all = Single::from_u32(4294967295);
    integers_round(4294967295);
    integers_round(a);
    integers_round(b);
    integers_round(0);
    lemma_all();
    let (x, y, n) = (Single::from_u32(a), Single::from_u32(b), Single::from_u32(0));
    whole_numbers(0);
    quotients_round(n, all);
    assert(n.value() * u == 0) by (nonlinear_arith)
        requires
            n.value() == 0,
    ;
    exact_results_are_kept(n.over(all), 0, all.value(), Single::zero());
    assert(tau().is_finite());
    neutral_operands(tau(), n.over(all));
    quotients_round(all, all);
    assert(all.value() * u == u * all.value()) by (nonlinear_arith);
    exact_results_are_kept(all.over(all), all.value() * u, all.value(), Single::one());
    neutral_operands(tau(), Single::zero());
    if a <= b {
        lemma_seed(a);
        lemma_seed(b);
        assert(a * u <= b * u) by (nonlinear_arith)
            requires
                a <= b,
                u > 0,
        ;
        results_keep_order(x, y, a * u, b * u, 1);
        order_is_value_order(x, y);
        let (p, q) = (x.value(), y.value());
        assert(p * u <= q * u) by (nonlinear_arith)
            requires
                p <= q,
                u > 0,
        ;
        quotients_round(x, all);
        quotients_round(y, all);
        results_keep_order(x.over(all), y.over(all), p * u, q * u, all.value());
        order_is_value_order(x.over(all), y.over(all));
        products_round(x.over(all), tau());
        products_round(y.over(all), tau());
        let (v, w, t) = (x.over(all).value(), y.over(all).value(), tau().value());
        crate::corridor_laws::lemma_twice_tau();
        assert(v * t <= w * t) by (nonlinear_arith)
            requires
                v <= w,
                t >= 0,
        ;
        results_keep_order(seed_to_yaw(a), seed_to_yaw(b), v * t, w * t, u);
    }
}

proof fn lemma_all()
    ensures
        Single::from_u32(4294967295).is_finite(),
        Single::from_u32(4294967295).value() > 0,
{
    lemma_seed(4294967295);
    one_is_one();
    let all = Single::from_u32(4294967295);
    integers_round(4294967295);
    crate::described_laws::lemma_unit_large();
    results_are_close(all, 4294967295 * unit(), 1);
}

proof fn lemma_seed(a: u32)
    ensures
        Single::from_u32(a).is_finite(),
        ({
            let all = Single::from_u32(4294967295);
            all.is_finite() && all.value() > 0 ==> Single::from_u32(a).over(all).is_finite()
        }),
{
    one_is_one();
    let u = unit();
    integers_round(a);
    integers_round(4294967295);
    vstd::arithmetic::power2::lemma2_to64();
    vstd::arithmetic::power2::lemma_pow2_adds(32, 149);
    let code = crate::bounds::lemma_representable(1, 181);
    let top = Single { bits: code as u32 };
    assert(top.is_finite() && top.value() == 1 * vstd::arithmetic::power2::pow2(181));
    assert(top.value() == 0x1_0000_0000 * u);
    assert(0 <= a * u && a * u <= 4294967295 * u) by (nonlinear_arith)
        requires
            0 <= a <= 4294967295,
            u > 0,
    ;
    bounded_results_are_finite(Single::from_u32(a), a * u, 1, top);
    let (x, all) = (Single::from_u32(a), Single::from_u32(4294967295));
    if all.is_finite() && all.value() > 0 {
        results_keep_order(x, all, a * u, 4294967295 * u, 1);
        results_are_close(x, a * u, 1);
        order_is_value_order(x, all);
        quotients_round(x, all);
        let (p, q) = (x.value(), all.value());
        assert(size(p * u) <= u * q) by (nonlinear_arith)
            requires
                0 <= p <= q,
                u > 0,
        ;
        bounded_results_are_finite(x.over(all), p * u, q, Single::one());
    }
}

/// Something stands on the ground, within its reach.
pub open spec fn stands_inside(position: [Single; 3], g: Single) -> bool {
    &&& position[1] == Single::zero()
    &&& position[0].is_finite() && size(position[0].value()) <= g.value()
    &&& position[2].is_finite() && size(position[2].value()) <= g.value()
}

proof fn lemma_inside(num: i32, den: u32, g: Single)
    requires
        g.is_finite(),
        g.value() >= 0,
        den > 0,
        -(den as int) <= num <= den,
    ensures
        Single::ratio(num, den).times(g).is_finite(),
        size(Single::ratio(num, den).times(g).value()) <= g.value(),
        num <= 0 ==> Single::ratio(num, den).times(g).value() <= 0,
        num >= 0 ==> Single::ratio(num, den).times(g).value() >= 0,
{
    one_is_one();
    let u = unit();
    let r = Single::ratio(num, den);
    literals_round(num, den);
    assert(size(num * u) <= u * den) by (nonlinear_arith)
        requires
            -(den as int) <= num <= den,
            u > 0,
    ;
    assert(num >= 0 ==> num * u >= 0) by (nonlinear_arith)
        requires
            u > 0,
    ;
    assert(num <= 0 ==> num * u <= 0) by (nonlinear_arith)
        requires
            u > 0,
    ;
    bounded_results_are_finite(r, num * u, den as int, Single::one());
    results_are_close(r, num * u, den as int);
    products_round(r, g);
    let (a, b) = (r.value(), g.value());
    assert(size(a * b) <= b * u) by (nonlinear_arith)
        requires
            -u <= a <= u,
            b >= 0,
            u > 0,
    ;
    assert(a >= 0 ==> a * b >= 0) by (nonlinear_arith)
        requires
            b >= 0,
    ;
    assert(a <= 0 ==> a * b <= 0) by (nonlinear_arith)
        requires
            b >= 0,
    ;
    bounded_results_are_finite(r.times(g), a * b, u, g);
    results_are_close(r.times(g), a * b, u);
}

/// The poles of a place stand on its ground, in front of the building.
pub proof fn context_poles_stand_inside(domain: EnvironmentDomain, g: Single, i: u32)
    requires
        g.is_finite(),
        g.value() >= 0,
        i < context_pole_count(domain),
    ensures
        stands_inside(context_pole_at(domain, g, i).position, g),
        context_pole_at(domain, g, i).position[2].value() <= 0,
        domain == EnvironmentDomain::City ==> context_pole_at(domain, g, i).has_light,
        domain == EnvironmentDomain::Remote ==> !context_pole_at(domain, g, i).has_light,
{
    one_is_one();
    lemma_inside((-48) as i32, 100, g);
    lemma_inside((-62) as i32, 100, g);
    lemma_inside(42, 100, g);
    lemma_inside((-7) as i32, 10, g);
    lemma_inside(7, 10, g);
    lemma_inside(62, 100, g);
    lemma_inside((-68) as i32, 100, g);
}

/// The neighbours of a place stand on its ground.
pub proof fn context_neighbours_stand_inside(domain: EnvironmentDomain, g: Single, i: u32)
    requires
        g.is_finite(),
        g.value() >= 0,
        i < context_background_count(domain),
    ensures
        stands_inside(context_background_at(domain, g, i).center, g),
{
    one_is_one();
    lemma_inside((-68) as i32, 100, g);
    lemma_inside(62, 100, g);
    lemma_inside(66, 100, g);
    lemma_inside((-72) as i32, 100, g);
    lemma_inside((-28) as i32, 100, g);
    lemma_inside(72, 100, g);
    lemma_inside((-18) as i32, 100, g);
    lemma_inside((-26) as i32, 100, g);
    lemma_inside(78, 100, g);
    lemma_inside(27, 100, g);
    lemma_inside(82, 100, g);
    lemma_inside((-62) as i32, 100, g);
    lemma_inside(65, 100, g);
    lemma_inside(57, 100, g);
    lemma_inside(7, 10, g);
}

/// A neighbour of more than nine metres is a tall one, any other a shop.
pub proof fn tall_neighbours_are_mixed_use(center: [Single; 3], extent: [Single; 3], yaw: Single)
    requires
        extent[1].is_finite(),
    ensures
        background(center, extent, yaw).kind == BackgroundBuildingKind::MidriseMixedUse
            <==> extent[1].value() > 9 * unit(),
        background(center, extent, yaw).kind == BackgroundBuildingKind::LowCommercial
            <==> extent[1].value() <= 9 * unit(),
        background(center, extent, yaw).center == center,
        background(center, extent, yaw).size == extent,
        background(center, extent, yaw).yaw_radians == yaw,
{
    whole_literals(9);
    order_is_value_order(Single::ratio(9, 1), extent[1]);
}

/// Cables hang from each pole to the next, and there is one less than there are poles.
pub proof fn cables_join_neighbouring_poles(
    poles: Seq<UtilityPoleDescription>,
    sag: Single,
    i: int,
)
    requires
        0 <= i < poles.len() - 1,
    ensures
        adjacent_lines(poles, sag).len() == poles.len() - 1,
        adjacent_lines(poles, sag)[i].start == poles[i].cable_point(),
        adjacent_lines(poles, sag)[i].end == poles[i + 1].cable_point(),
        adjacent_lines(poles, sag)[i].sag_m == sag,
        i + 1 < poles.len() - 1 ==> adjacent_lines(poles, sag)[i].end == adjacent_lines(
            poles,
            sag,
        )[i + 1].start,
{
}

/// The site of a building has a bay for each two metres and a half of its width, from two to
/// sixteen; its parking and its road lie in front of it, and its lanes are three metres wide
/// at least.
pub proof fn sites_suit_their_building(width: Single, depth: Single, g: Single)
    requires
        width.is_finite(),
        depth.is_finite(),
        g.is_finite(),
        0 <= width.value() <= 0x1_0000 * unit(),
        depth.value() >= 0,
        g.value() >= 0,
    ensures
        2 <= bays_for(width) <= 16,
        exists|wanted: Single|
            {
                &&& #[trigger] rounds(
                    wanted,
                    width.value() * unit(),
                    Single::ratio(255, 100).value(),
                )
                &&& wanted.is_finite()
                &&& bays_for(width) == kept_between(nearest_whole(wanted.value()), 2, 16)
            },
        parking_center_for(depth)[0] == Single::zero(),
        parking_center_for(depth)[2].value() <= 0,
        size(parking_center_for(depth)[2].value()) <= depth.value(),
        road_center_for(g).value() <= 0,
        size(road_center_for(g).value()) <= g.value(),
        Single::ratio(3, 1).at_most(lane_for(g)),
{
    one_is_one();
    small_literals();
    lemma_inside(82, 100, depth);
    lemma_inside(78, 100, g);
    crate::bounds::ratios_are_finite(82, 100);
    crate::bounds::ratios_are_finite(78, 100);
    products_follow_signs(depth, Single::ratio(82, 100));
    products_follow_signs(g, Single::ratio(78, 100));
    negations_change_the_sign(depth.times(Single::ratio(82, 100)));
    negations_change_the_sign(g.times(Single::ratio(78, 100)));
    crate::bounds::ratios_are_finite(14, 100);
    products_round(g, Single::ratio(14, 100));
    let step = Single::ratio(255, 100);
    crate::bounds::ratios_are_finite(255, 100);
    crate::bounds::ratios_stay_apart(1, 1, 255, 100);
    whole_literals(1);
    order_is_value_order(Single::ratio(1, 1), step);
    quotients_round(width, step);
    let wanted = width.over(step);
    let (w, s, u) = (width.value(), step.value(), unit());
    assert(0 <= w * u && size(w * u) <= (0x1_0000 * u) * s) by (nonlinear_arith)
        requires
            0 <= w <= 0x1_0000 * u,
            s >= u,
            u > 0,
    ;
    whole_literals(0x1_0000);
    bounded_results_are_finite(wanted, w * u, s, Single::ratio(0x1_0000, 1));
    results_are_close(wanted, w * u, s);
    assert(0x1_0000 * u <= 0x10_0000 * u) by (nonlinear_arith)
        requires
            u > 0,
    ;
    lemma_counted(wanted, 2, 16);
    assert(rounds(wanted, w * u, s));
}

/// The sign of a place is the brand's, hangs outside of the front wall below its top, is as
/// large as the wall allows, and shines more as it gets darker.
pub proof fn front_signs_hang_over_the_entrance(
    width: Single,
    depth: Single,
    wall: Single,
    time: TimeOfDay,
)
    requires
        crate::camera_laws::is_usual_length(depth),
        wall.is_finite(),
        width.is_finite(),
    ensures
        ({
            let sign = front_sign(width, depth, wall, time);
            &&& sign.style == SignStyle::PizzaHut && sign.mount == SignMount::Facade
            &&& sign.center[0] == Single::zero() && sign.yaw_radians == Single::zero()
            &&& -2 * sign.center[2].value() >= depth.value()
            &&& sign.size[0].within(Single::ratio(28, 10), Single::ratio(55, 10))
            &&& sign.size[1].within(Single::ratio(55, 100), Single::one())
            &&& sign.center[1].at_most(wall)
            &&& sign.emissive_strength == sign_strength(time)
        }),
        sign_strength(TimeOfDay::Day).value() == 0,
        sign_strength(TimeOfDay::Day).less(sign_strength(TimeOfDay::Twilight)),
        sign_strength(TimeOfDay::Twilight).less(sign_strength(TimeOfDay::Night)),
{
    one_is_one();
    crate::assembly_laws::lemma_outside(depth, 55, 1000);
    small_literals();
    products_follow_signs(depth, Single::ratio(5, 10));
    crate::bounds::ratios_are_finite(24, 100);
    crate::bounds::ratios_are_finite(28, 10);
    crate::bounds::ratios_are_finite(55, 10);
    crate::bounds::ratios_stay_apart(28, 10, 55, 10);
    products_round(width, Single::ratio(24, 100));
    crate::bounds::ratios_are_finite(18, 100);
    crate::bounds::ratios_are_finite(55, 100);
    products_round(wall, Single::ratio(18, 100));
    let high = wall.times(Single::ratio(18, 100)).clamp(Single::ratio(55, 100), Single::one());
    crate::bounds::ratios_stay_apart(55, 100, 1, 1);
    whole_literals(1);
    order_is_value_order(Single::ratio(55, 100), Single::ratio(1, 1));
    order_is_value_order(Single::ratio(55, 100), Single::one());
    lemma_hangs(wall, high);
    crate::bounds::ratios_stay_apart(0, 1, 6, 10);
    crate::bounds::ratios_stay_apart(6, 10, 14, 10);
    whole_literals(0);
    crate::bounds::ratios_are_finite(6, 10);
    order_is_value_order(Single::ratio(0, 1), Single::ratio(6, 10));
    order_is_value_order(Single::zero(), Single::ratio(6, 10));
}

proof fn lemma_hangs(wall: Single, high: Single)
    requires
        wall.is_finite(),
        Single::ratio(55, 100).at_most(high),
        high.at_most(Single::one()),
    ensures
        wall.minus(high.times(Single::ratio(75, 100))).at_most(wall),
{
    one_is_one();
    crate::bounds::ratios_are_finite(55, 100);
    crate::bounds::ratios_are_finite(75, 100);
    crate::single::fractions_lie_in_the_unit_interval(55, 100);
    crate::single::fractions_lie_in_the_unit_interval(75, 100);
    let share = Single::ratio(75, 100);
    crate::rounding::lemma_value(high);
    assert(high.is_finite());
    order_is_value_order(Single::ratio(55, 100), high);
    order_is_value_order(high, Single::one());
    order_is_value_order(Single::zero(), Single::ratio(55, 100));
    order_is_value_order(Single::zero(), share);
    order_is_value_order(share, Single::one());
    products_round(high, share);
    let (h, s, u) = (high.value(), share.value(), unit());
    assert(0 <= h * s && size(h * s) <= u * u) by (nonlinear_arith)
        requires
            0 <= h <= u,
            0 <= s <= u,
    ;
    let drop = high.times(share);
    bounded_results_are_finite(drop, h * s, u, Single::one());
    results_are_close(drop, h * s, u);
    differences_round(wall, drop);
    let zero = Single::zero();
    differences_round(wall, zero);
    neutral_operands(wall, zero);
    results_keep_order(
        wall.minus(drop),
        wall.minus(zero),
        wall.value() - drop.value(),
        wall.value(),
        1,
    );
    order_is_value_order(wall.minus(zero), wall);
}

/// Objects grow with their scale. A car is longer than it is high, a pole higher than it is
/// wide, and a person smaller than a building.
pub proof fn objects_grow_with_their_scale(kind: OccluderKind, scale: Single)
    ensures
        occluder_size(kind, scale) == occluder_size(kind, Single::one()).scaled(scale),
        occluder_size(OccluderKind::Vehicle, Single::one()).y.less(
            occluder_size(OccluderKind::Vehicle, Single::one()).x,
        ),
        occluder_size(OccluderKind::Pole, Single::one()).x.less(
            occluder_size(OccluderKind::Pole, Single::one()).y,
        ),
        occluder_size(OccluderKind::Pedestrian, Single::one()).y.less(
            occluder_size(OccluderKind::Building, Single::one()).y,
        ),
{
    broadcast use crate::bounds::group_literals;

    one_is_one();
    lemma_unscaled(kind);
    lemma_unscaled(OccluderKind::Vehicle);
    lemma_unscaled(OccluderKind::Pole);
    lemma_unscaled(OccluderKind::Pedestrian);
    lemma_unscaled(OccluderKind::Building);
    crate::bounds::ratios_stay_apart(17, 10, 46, 10);
    crate::bounds::ratios_stay_apart(22, 100, 75, 10);
    crate::bounds::ratios_stay_apart(172, 100, 55, 10);
}

proof fn lemma_unscaled(kind: OccluderKind)
    ensures
        ({
            let own = occluder_size(kind, Single::one());
            own.scaled(Single::one()) == own
        }),
        kind == OccluderKind::Vehicle ==> occluder_size(kind, Single::one()).x == Single::ratio(
            46,
            10,
        ) && occluder_size(kind, Single::one()).y == Single::ratio(17, 10),
        kind == OccluderKind::Pole ==> occluder_size(kind, Single::one()).x == Single::ratio(
            22,
            100,
        ) && occluder_size(kind, Single::one()).y == Single::ratio(75, 10),
        kind == OccluderKind::Pedestrian ==> occluder_size(kind, Single::one()).y
            == Single::ratio(172, 100),
        kind == OccluderKind::Building ==> occluder_size(kind, Single::one()).y == Single::ratio(
            55,
            10,
        ),
        forall|scale: Single| #[trigger]
            occluder_size(kind, scale) == occluder_size(kind, Single::one()).scaled(scale),
{
    broadcast use crate::bounds::group_literals;

    one_is_one();
    let z = Single::zero();
    neutral_operands(Single::ratio(4, 1), z);
    neutral_operands(Single::ratio(7, 1), z);
    neutral_operands(Single::ratio(46, 10), z);
    neutral_operands(Single::ratio(17, 10), z);
    neutral_operands(Single::ratio(19, 10), z);
    neutral_operands(Single::ratio(22, 100), z);
    neutral_operands(Single::ratio(75, 10), z);
    neutral_operands(Single::ratio(28, 10), z);
    neutral_operands(Single::ratio(36, 10), z);
    neutral_operands(Single::ratio(28, 100), z);
    neutral_operands(Single::ratio(9, 1), z);
    neutral_operands(Single::ratio(55, 10), z);
    neutral_operands(Single::ratio(8, 1), z);
    neutral_operands(Single::ratio(62, 100), z);
    neutral_operands(Single::ratio(172, 100), z);
    neutral_operands(Single::ratio(42, 100), z);
    neutral_operands(Single::ratio(18, 10), z);
    neutral_operands(Single::ratio(135, 100), z);
    neutral_operands(Single::ratio(15, 10), z);
}

/// People stand in the foreground as often as is asked, everything else less often, and
/// buildings and rooftop equipment never.
pub proof fn people_stand_in_front_most_often(
    config: &crate::config::OccluderSamplingConfig,
    kind: OccluderKind,
    u: [Single; 3],
    next: crate::draws::Draws,
)
    requires
        config.foreground_probability.is_finite(),
        u[2].is_finite(),
        u[2].value() >= 0,
    ensures
        ({
            let draft = draft_from(config, kind, u, next);
            &&& draft.kind == kind && draft.next == next
            &&& draft.nominal_size_m == occluder_size(kind, draft.scale)
            &&& draft.scale == config.scale.at(u[0])
            &&& kind == OccluderKind::Building || kind == OccluderKind::RooftopEquipment
                ==> !draft.foreground
            &&& kind == OccluderKind::Pedestrian ==> (draft.foreground <==> u[2].value()
                < config.foreground_probability.value())
            &&& draft.foreground && config.foreground_probability.value() >= 0 ==> u[2].value()
                < config.foreground_probability.value()
            &&& u[1].is_finite() ==> rounds(draft.yaw_degrees, u[1].value() * 360, 1)
        }),
{
    broadcast use crate::bounds::group_literals;

    one_is_one();
    let own = config.foreground_probability;
    let scale = foreground_probability_scale(kind);
    neutral_operands(own, Single::zero());
    order_is_value_order(u[2], own);
    order_is_value_order(u[2], own.times(Single::zero()));
    crate::single::fractions_lie_in_the_unit_interval(8, 10);
    crate::single::fractions_lie_in_the_unit_interval(55, 100);
    crate::single::fractions_lie_in_the_unit_interval(45, 100);
    crate::single::fractions_lie_in_the_unit_interval(35, 100);
    order_is_value_order(Single::zero(), scale);
    order_is_value_order(scale, Single::one());
    order_is_value_order(Single::zero(), Single::one());
    assert(0 <= scale.value() <= unit());
    if own.value() >= 0 {
        products_round(own, scale);
        let (p, s, e) = (own.value(), scale.value(), unit());
        assert(size(p * s) <= p * e) by (nonlinear_arith)
            requires
                0 <= p,
                0 <= s <= e,
        ;
        bounded_results_are_finite(own.times(scale), p * s, e, own);
        order_is_value_order(u[2], own.times(scale));
    }
    if u[1].is_finite() {
        whole_literals(360);
        products_round(u[1], Single::ratio(360, 1));
        lemma_turned(u[1].times(Single::ratio(360, 1)), u[1].value(), unit());
    }
}

proof fn lemma_turned(r: Single, s: int, u: int)
    requires
        u > 0,
        rounds(r, s * (360 * u), u),
    ensures
        rounds(r, s * 360, 1),
{
    assert(s * (360 * u) == (s * 360) * u && (s * 360 < 0 <==> (s * 360) * u < 0) && -((s * 360)
        * u) == (-(s * 360)) * u) by (nonlinear_arith)
        requires
            u > 0,
    ;
    if s >= 0 {
        crate::bounds::lemma_same_fraction(s * 360, 1, u);
    } else {
        crate::bounds::lemma_same_fraction(-(s * 360), 1, u);
    }
}

/// What stands in the foreground is seen from the camera in the middle of its path, against
/// the building above its walls, and stands on the ground.
pub proof fn foregrounds_stand_before_the_building(
    cameras: Seq<Vec3>,
    building: SampledBuilding,
)
    requires
        building.wall_height_m.is_finite(),
    ensures
        cameras.len() > 0 ==> exists|i: int|
            0 <= i < cameras.len() && middle_of(cameras) == #[trigger] cameras[i] && 2 * i
                <= cameras.len() < 2 * i + 2,
        foreground_target(building).x == Single::zero(),
        foreground_target(building).z == Single::zero(),
        building.wall_height_m.at_most(foreground_target(building).y),
{
    broadcast use crate::bounds::group_literals;

    one_is_one();
    if cameras.len() > 0 {
        let i = cameras.len() as int / 2;
        assert(middle_of(cameras) == cameras[i]);
    }
    crate::bounds::ratios_stay_apart(0, 1, 15, 10);
    whole_literals(0);
    order_is_value_order(Single::ratio(0, 1), Single::ratio(15, 10));
    order_is_value_order(Single::zero(), Single::ratio(15, 10));
    crate::single::sums_do_not_shrink(building.wall_height_m, Single::ratio(15, 10));
}

} // verus!
