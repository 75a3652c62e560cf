//! What is drawn around a building: its facade, additions, signs, neighbours, plants and
//! street.

use crate::camera_laws::is_share;
use crate::composition::{
    BackgroundBuildingKind, BuildingExtensionKind, BuildingExtensionRoof,
    BuildingExtensionSamplingConfig, DayPhase, FacadeSide, SceneDomain, SignageKind,
    SignageSamplingConfig, VegetationKind, VegetationSamplingConfig,
};
use crate::framing_laws::drawn_from;
use crate::geometry::Turn;
use crate::plan::SampledBuilding;
use crate::rounding::{
    bounded_results_are_finite, differences_round, exact_results_are_kept, literals_round,
    negations_change_the_sign, neutral_operands, one_is_one, products_follow_signs,
    products_round, quotients_round, results_are_close, results_keep_order, rounds, size,
    small_literals, sums_round, whole_literals, whole_numbers,
};
use crate::sample_site::{
    background_height, background_shape, bay_size, depth_scale, entrance_width, extension_from,
    extension_position, extension_size, facade_width, ground_point, height_range,
    intersect_u32_ranges, parking_yaw, pavement_from, plant_from, pole_from, pole_row, row_progress,
    sign_center, sign_from, sign_light, sign_weathering, spread_angle, width_scale, PoleRow,
};
use crate::single::{order_is_value_order, Single};
use crate::types::{FloatRange, U32Range};
use crate::whole::unit;
use vstd::prelude::*;

verus! {

/// A facade in front or behind is as wide as the building, one at a side as it is deep.
pub proof fn facades_span_their_side(building: SampledBuilding, facade: FacadeSide)
    ensures
        facade == FacadeSide::Front || facade == FacadeSide::Back ==> facade_width(
            building,
            facade,
        ) == building.footprint_width_m,
        facade == FacadeSide::Left || facade == FacadeSide::Right ==> facade_width(
            building,
            facade,
        ) == building.footprint_depth_m,
{
}

/// The common part of two integer ranges holds what both hold.
pub proof fn common_counts(a: U32Range, b: U32Range, n: u32)
    ensures
        intersect_u32_ranges(a, b).min <= n <= intersect_u32_ranges(a, b).max <==> (a.min <= n
            <= a.max && b.min <= n <= b.max),
{
}

/// An entrance is as wide as it was drawn, but never wider than about a third of either facade.
pub proof fn entrances_fit_their_facade(width: Single, building: SampledBuilding)
    requires
        width.is_finite(),
        building.footprint_width_m.is_finite(),
        building.footprint_depth_m.is_finite(),
        building.footprint_width_m.value() >= 0x100_0000,
        building.footprint_depth_m.value() >= 0x100_0000,
    ensures
        ({
            let kept = entrance_width(width, building);
            &&& kept.is_finite()
            &&& kept.at_most(width)
            &&& 20 * kept.value() <= 7 * building.footprint_width_m.value()
            &&& 20 * kept.value() <= 7 * building.footprint_depth_m.value()
            &&& 4 * width.value() <= building.footprint_width_m.value() && 4 * width.value()
                <= building.footprint_depth_m.value() ==> kept == width
        }),
{
    let (a, b) = (building.footprint_width_m, building.footprint_depth_m);
    let narrow = a.min(b);
    order_is_value_order(a, b);
    order_is_value_order(b, a);
    let limit = narrow.times(Single::ratio(32, 100));
    crate::shell_laws::lemma_scaled(narrow, 32, 100, 26, 34);
    order_is_value_order(width, limit);
    order_is_value_order(limit, width);
}

/// An addition stands outside of its own facade and along it: those in front and behind are
/// mirror images, and so are those at the two sides; one that projects further stands further
/// out.
pub proof fn additions_stand_at_their_facade(
    building: SampledBuilding,
    offset: Single,
    projection: Single,
    more: Single,
)
    requires
        crate::camera_laws::is_usual_length(building.footprint_width_m),
        crate::camera_laws::is_usual_length(building.footprint_depth_m),
        crate::camera_laws::is_usual_length(projection),
        crate::camera_laws::is_usual_length(more),
        projection.value() <= more.value(),
    ensures
        ({
            let front = extension_position(building, FacadeSide::Front, offset, projection);
            let back = extension_position(building, FacadeSide::Back, offset, projection);
            let right = extension_position(building, FacadeSide::Right, offset, projection);
            let left = extension_position(building, FacadeSide::Left, offset, projection);
            let (d, w) = (building.footprint_depth_m, building.footprint_width_m);
            &&& front.x == offset && back.x == offset && right.z == offset && left.z == offset
            &&& front.y == Single::zero() && back.y == Single::zero() && right.y == Single::zero()
                && left.y == Single::zero()
            &&& front.z.value() == -back.z.value()
            &&& left.x.value() == -right.x.value()
            &&& beyond(back.z, d, projection)
            &&& beyond(right.x, w, projection)
            &&& back.z.at_most(
                extension_position(building, FacadeSide::Back, offset, more).z,
            )
            &&& right.x.at_most(
                extension_position(building, FacadeSide::Right, offset, more).x,
            )
        }),
{
    let (d, w) = (building.footprint_depth_m, building.footprint_width_m);
    lemma_outward(d, projection);
    lemma_outward(w, projection);
    lemma_outward(d, more);
    lemma_outward(w, more);
    lemma_outward_order(d, projection, more);
    lemma_outward_order(w, projection, more);
}

/// Half of a wall and half of a projection from the middle, less an overlap of twelve
/// centimetres, up to rounding.
pub open spec fn beyond(place: Single, wall: Single, projection: Single) -> bool {
    &&& place.is_finite()
    &&& size(
        200 * place.value() - 100 * (wall.value() + projection.value()) + 24 * unit(),
    ) * 0x2_0000 <= 100 * (wall.value() + projection.value() + unit())
}

/// The middle of what leans on the far side of a wall, some centimetres inside of it.
pub open spec fn outward(wall: Single, projection: Single) -> Single {
    wall.times(Single::ratio(5, 10)).plus(projection.times(Single::ratio(5, 10))).minus(
        Single::ratio(12, 100),
    )
}

/// The middle of what leans on the near side of a wall.
pub open spec fn inward(wall: Single, projection: Single) -> Single {
    wall.negated().times(Single::ratio(5, 10)).minus(projection.times(Single::ratio(5, 10))).plus(
        Single::ratio(12, 100),
    )
}

pub(crate) proof fn lemma_half(x: Single) -> (h: Single)
    requires
        crate::camera_laws::is_usual_length(x),
    ensures
        h == x.times(Single::ratio(5, 10)),
        h.is_finite(),
        2 * h.value() == x.value(),
{
    one_is_one();
    small_literals();
    let half = Single::ratio(5, 10);
    let h = x.times(half);
    products_round(x, half);
    vstd::arithmetic::power2::lemma2_to64();
    vstd::arithmetic::power2::lemma_pow2_adds(64, 36);
    vstd::arithmetic::power2::lemma_pow2_pos(36);
    let (t, m) = crate::single::lemma_split(x.code());
    if t == 0 {
        assert(m * 1 == m);
        assert(x.value() == m);
        assert(false);
    }
    vstd::arithmetic::power2::lemma_pow2_unfold(t);
    let w = vstd::arithmetic::power2::pow2((t - 1) as nat) as int;
    let code = crate::bounds::lemma_representable(m, (t - 1) as nat);
    let y = Single::encoded(false, code);
    assert(code < (t + 1) * 0x80_0000);
    assert(y.code() == code);
    assert(m * (2 * w) == 2 * (m * w)) by (nonlinear_arith);
    assert(2 * y.value() == x.value());
    assert(x.value() * half.value() == y.value() * unit()) by (nonlinear_arith)
        requires
            2 * y.value() == x.value(),
            2 * half.value() == unit(),
    ;
    exact_results_are_kept(h, x.value() * half.value(), unit(), y);
    h
}

pub(crate) proof fn lemma_sum_fits(num: int) -> (x: Single)
    requires
        0 <= num <= 4 * vstd::arithmetic::power2::pow2(213),
    ensures
        x.is_finite(),
        num <= x.value(),
        x.value() >= 0,
{
    vstd::arithmetic::power2::lemma2_to64();
    vstd::arithmetic::power2::lemma_pow2_adds(2, 213);
    crate::single::lemma_magnitude(192, 0x80_0000);
    vstd::arithmetic::power2::lemma_pow2_adds(23, 192);
    let x = Single { bits: 0x6080_0000 };
    assert(x.code() == 192 * 0x80_0000 + 0x80_0000);
    x
}

proof fn lemma_beyond(w: int, p: int, s: int, k: int, o: int, r: int, u: int)
    requires
        w >= 0x1_0000_0000,
        p >= 0x1_0000_0000,
        u >= 0x1_0000_0000_0000,
        2 * s == w + p,
        size(k - s) * 0x100_0000 <= s + 0x80_0000,
        size(100 * o - 12 * u) * 0x100_0000 <= 12 * u + 0x80_0000 * 100,
        size(r - (k - o)) * 0x100_0000 <= size(k - o) + 0x80_0000,
    ensures
        size(200 * r - 100 * (w + p) + 24 * u) * 0x2_0000 <= 100 * (w + p + u),
        0 <= k <= w + p,
        0 <= o <= u,
{
    assert(size(k - s) * 0x80_0000 <= s);
    assert(size(100 * o - 12 * u) * 0x80_0000 <= 12 * u);
    assert(size(k - o) <= w + p + u);
    assert(size(r - (k - o)) * 0x80_0000 <= w + p + u);
    let e = 200 * r - 100 * (w + p) + 24 * u;
    assert(e == 200 * (r - (k - o)) + 200 * (k - s) - 2 * (100 * o - 12 * u));
}

pub(crate) proof fn lemma_scale_fits()
    ensures
        0x1_0000_0000_0000 * unit() <= vstd::arithmetic::power2::pow2(213),
        unit() >= 0x1_0000_0000_0000_0000,
        vstd::arithmetic::power2::pow2(100) >= 0x1_0000_0000_0000_0000,
{
    crate::described_laws::lemma_unit_large();
    vstd::arithmetic::power2::lemma2_to64();
    vstd::arithmetic::power2::lemma_pow2_adds(64, 149);
    vstd::arithmetic::power2::lemma_pow2_adds(64, 36);
    vstd::arithmetic::power2::lemma_pow2_pos(36);
    let (u, v) = (unit(), vstd::arithmetic::power2::pow2(36) as int);
    assert(0x1_0000_0000_0000 * u <= 0x1_0000_0000_0000_0000 * u) by (nonlinear_arith)
        requires
            u > 0,
    ;
    assert(0x1_0000_0000_0000_0000 * v >= 0x1_0000_0000_0000_0000) by (nonlinear_arith)
        requires
            v >= 1,
    ;
}

proof fn lemma_overlap() -> (overlap: Single)
    ensures
        overlap == Single::ratio(12, 100),
        overlap.is_finite(),
        size(100 * overlap.value() - 12 * unit()) * 0x100_0000 <= 12 * unit() + 0x80_0000 * 100,
{
    one_is_one();
    let overlap = Single::ratio(12, 100);
    literals_round(12, 100);
    bounded_results_are_finite(overlap, 12 * unit(), 100, Single::one());
    results_are_close(overlap, 12 * unit(), 100);
    overlap
}

pub(crate) proof fn lemma_outward(wall: Single, projection: Single)
    requires
        crate::camera_laws::is_usual_length(wall),
        crate::camera_laws::is_usual_length(projection),
    ensures
        beyond(outward(wall, projection), wall, projection),
        inward(wall, projection).is_finite(),
        inward(wall, projection).value() == -outward(wall, projection).value(),
{
    small_literals();
    lemma_scale_fits();
    let half = Single::ratio(5, 10);
    let (a, b) = (lemma_half(wall), lemma_half(projection));
    let overlap = lemma_overlap();
    let u = unit();
    let sum = a.plus(b);
    sums_round(a, b);
    let s = a.value() + b.value();
    let top = lemma_sum_fits(s);
    bounded_results_are_finite(sum, s, 1, top);
    results_are_close(sum, s, 1);
    let r = sum.minus(overlap);
    differences_round(sum, overlap);
    let (k, o) = (sum.value(), overlap.value());
    assert(0 <= o <= u);
    assert(0 <= k <= 2 * s);
    let far = lemma_sum_fits(size(k - o));
    bounded_results_are_finite(r, k - o, 1, far);
    results_are_close(r, k - o, 1);
    lemma_beyond(wall.value(), projection.value(), s, k, o, r.value(), u);
    products_follow_signs(wall, half);
    negations_change_the_sign(a);
    let back = a.negated().minus(b);
    differences_round(a.negated(), b);
    mirrored(back, sum, s);
    let m = back.plus(overlap);
    sums_round(back, overlap);
    mirrored(m, r, k - o);
}

/// Results of opposite exact numbers are opposite.
pub(crate) proof fn mirrored(r: Single, s: Single, num: int)
    requires
        rounds(s, num, 1),
        rounds(r, -num, 1),
        s.is_finite(),
    ensures
        r.is_finite(),
        r.value() == -s.value(),
{
    if num == 0 {
        exact_results_are_kept(r, 0, 1, Single::zero());
        exact_results_are_kept(s, 0, 1, Single::zero());
        one_is_one();
    } else {
        crate::single::lemma_nearest_exists(size(num), 1);
        assert(r.rank() == -s.rank());
        assert(crate::single::magnitude(0) == 0);
    }
}

pub(crate) proof fn lemma_outward_order(wall: Single, projection: Single, more: Single)
    requires
        crate::camera_laws::is_usual_length(wall),
        crate::camera_laws::is_usual_length(projection),
        crate::camera_laws::is_usual_length(more),
        projection.value() <= more.value(),
    ensures
        outward(wall, projection).at_most(outward(wall, more)),
{
    one_is_one();
    let overlap = Single::ratio(12, 100);
    let (a, b, c) = (lemma_half(wall), lemma_half(projection), lemma_half(more));
    let u = unit();
    literals_round(12, 100);
    bounded_results_are_finite(overlap, 12 * u, 100, Single::one());
    sums_round(a, b);
    sums_round(a, c);
    vstd::arithmetic::power2::lemma_pow2_pos(100);
    let top = lemma_sum_fits(a.value() + c.value());
    bounded_results_are_finite(a.plus(b), a.value() + b.value(), 1, top);
    bounded_results_are_finite(a.plus(c), a.value() + c.value(), 1, top);
    results_keep_order(a.plus(b), a.plus(c), a.value() + b.value(), a.value() + c.value(), 1);
    order_is_value_order(a.plus(b), a.plus(c));
    differences_round(a.plus(b), overlap);
    differences_round(a.plus(c), overlap);
    results_keep_order(
        outward(wall, projection),
        outward(wall, more),
        a.plus(b).value() - overlap.value(),
        a.plus(c).value() - overlap.value(),
        1,
    );
}

/// An addition is wide along its facade and projects from it.
pub proof fn additions_lie_along_their_facade(
    facade: FacadeSide,
    width: Single,
    height: Single,
    projection: Single,
)
    ensures
        extension_size(facade, width, height, projection).y == height,
        facade == FacadeSide::Front || facade == FacadeSide::Back ==> extension_size(
            facade,
            width,
            height,
            projection,
        ).x == width && extension_size(facade, width, height, projection).z == projection,
        facade == FacadeSide::Left || facade == FacadeSide::Right ==> extension_size(
            facade,
            width,
            height,
            projection,
        ).z == width && extension_size(facade, width, height, projection).x == projection,
{
}

/// An addition is of its kind, at its facade and under its roof. It is as high as a room,
/// lower than the walls of the building by nearly half a metre, projects between about one
/// metre and six and a half, is no wider than three quarters of its facade, and only a shed
/// roof rises.
pub proof fn additions_suit_their_building(
    config: BuildingExtensionSamplingConfig,
    building: SampledBuilding,
    facade: FacadeSide,
    kind: BuildingExtensionKind,
    roof: BuildingExtensionRoof,
    u: [Single; 5],
)
    requires
        Single::ratio(24, 10).at_most(
            facade_width(building, facade).times(Single::ratio(72, 100)),
        ),
        Single::ratio(215, 100).at_most(building.wall_height_m.minus(Single::ratio(45, 100))),
        !facade_width(building, facade).times(config.facade_width_fraction.at(u[0])).times(
            width_scale(kind),
        ).is_nan(),
        !config.projection_m.at(u[1]).times(depth_scale(kind)).is_nan(),
        !building.wall_height_m.times(config.wall_height_fraction.at(u[3])).is_nan(),
    ensures
        ({
            let made = extension_from(config, building, facade, kind, roof, u);
            let along = facade == FacadeSide::Front || facade == FacadeSide::Back;
            let width = if along {
                made.size_m.x
            } else {
                made.size_m.z
            };
            let projection = if along {
                made.size_m.z
            } else {
                made.size_m.x
            };
            &&& made.kind == kind
            &&& made.facade == facade
            &&& made.roof == roof
            &&& made.position.y == Single::zero()
            &&& Single::ratio(24, 10).at_most(width)
            &&& width.at_most(facade_width(building, facade).times(Single::ratio(72, 100)))
            &&& Single::ratio(12, 10).at_most(projection)
            &&& projection.at_most(Single::ratio(65, 10))
            &&& Single::ratio(215, 100).at_most(made.size_m.y)
            &&& made.size_m.y.at_most(building.wall_height_m.minus(Single::ratio(45, 100)))
            &&& roof == BuildingExtensionRoof::Flat ==> made.roof_rise_m == Single::zero()
        }),
{
    broadcast use crate::bounds::group_literals;

    crate::bounds::ratios_keep_order(12, 10, 65, 10);
}

/// A vestibule is smaller than an annex and an annex smaller than a dining wing, both ways.
pub proof fn wings_are_largest()
    ensures
        width_scale(BuildingExtensionKind::EntranceVestibule).less(
            width_scale(BuildingExtensionKind::ServiceAnnex),
        ),
        width_scale(BuildingExtensionKind::ServiceAnnex).less(
            width_scale(BuildingExtensionKind::DiningWing),
        ),
        depth_scale(BuildingExtensionKind::EntranceVestibule).less(
            depth_scale(BuildingExtensionKind::ServiceAnnex),
        ),
        depth_scale(BuildingExtensionKind::ServiceAnnex).less(
            depth_scale(BuildingExtensionKind::DiningWing),
        ),
        width_scale(BuildingExtensionKind::DiningWing) == Single::one(),
        depth_scale(BuildingExtensionKind::DiningWing) == Single::one(),
        Single::ratio(5, 10).less(width_scale(BuildingExtensionKind::EntranceVestibule)),
        Single::ratio(5, 10).less(depth_scale(BuildingExtensionKind::EntranceVestibule)),
{
    crate::bounds::literals_of_whole_numbers(1, 1);
    crate::bounds::ratios_stay_apart(56, 100, 78, 100);
    crate::bounds::ratios_stay_apart(78, 100, 1, 1);
    crate::bounds::ratios_stay_apart(58, 100, 82, 100);
    crate::bounds::ratios_stay_apart(82, 100, 1, 1);
    crate::bounds::ratios_stay_apart(5, 10, 56, 100);
    crate::bounds::ratios_stay_apart(5, 10, 58, 100);
}

/// A sign hangs just outside of its own facade at its height, and the signs of opposite
/// facades are turned around the middle of the building.
pub proof fn signs_hang_outside_their_facade(
    building: SampledBuilding,
    horizontal: Single,
    center_y: Single,
)
    requires
        crate::camera_laws::is_usual_length(building.footprint_width_m),
        crate::camera_laws::is_usual_length(building.footprint_depth_m),
    ensures
        ({
            let front = sign_center(building, FacadeSide::Front, horizontal, center_y);
            let back = sign_center(building, FacadeSide::Back, horizontal, center_y);
            let right = sign_center(building, FacadeSide::Right, horizontal, center_y);
            let left = sign_center(building, FacadeSide::Left, horizontal, center_y);
            let (d, w) = (building.footprint_depth_m.value(), building.footprint_width_m.value());
            &&& front.y == center_y && back.y == center_y && right.y == center_y && left.y
                == center_y
            &&& front.x == horizontal && back.x == horizontal.negated()
            &&& right.z == horizontal && left.z == horizontal.negated()
            &&& front.z.value() == -back.z.value()
            &&& left.x.value() == -right.x.value()
            &&& back.z.is_finite() && 2 * back.z.value() >= d
            &&& right.x.is_finite() && 2 * right.x.value() >= w
            &&& 20 * back.z.value() <= 10 * d + unit() + d
            &&& 20 * right.x.value() <= 10 * w + unit() + w
        }),
{
    lemma_signed_side(building.footprint_depth_m);
    lemma_signed_side(building.footprint_width_m);
}

proof fn lemma_signed_side(wall: Single)
    requires
        crate::camera_laws::is_usual_length(wall),
    ensures
        ({
            let gap = Single::ratio(35, 1000);
            let half = Single::ratio(5, 10);
            let out = wall.times(half).plus(gap);
            let mirror = wall.negated().times(half).minus(gap);
            &&& out.is_finite()
            &&& mirror.value() == -out.value()
            &&& 2 * out.value() >= wall.value()
            &&& 20 * out.value() <= 11 * wall.value() + unit()
        }),
{
    one_is_one();
    small_literals();
    let gap = Single::ratio(35, 1000);
    let half = Single::ratio(5, 10);
    let u = unit();
    literals_round(35, 1000);
    bounded_results_are_finite(gap, 35 * u, 1000, Single::one());
    results_are_close(gap, 35 * u, 1000);
    crate::described_laws::lemma_unit_large();
    let a = lemma_half(wall);
    let out = a.plus(gap);
    sums_round(a, gap);
    vstd::arithmetic::power2::lemma2_to64();
    vstd::arithmetic::power2::lemma_pow2_adds(64, 149);
    assert(u <= vstd::arithmetic::power2::pow2(213)) by (nonlinear_arith)
        requires
            vstd::arithmetic::power2::pow2(213) == 0x1_0000_0000_0000_0000 * u,
            u > 0,
    ;
    vstd::arithmetic::power2::lemma_pow2_pos(100);
    let top = lemma_sum_fits(a.value() + gap.value());
    bounded_results_are_finite(out, a.value() + gap.value(), 1, top);
    results_are_close(out, a.value() + gap.value(), 1);
    let zero = Single::zero();
    neutral_operands(a, zero);
    sums_round(a, zero);
    results_keep_order(a.plus(zero), out, a.value(), a.value() + gap.value(), 1);
    order_is_value_order(a.plus(zero), out);
    products_follow_signs(wall, half);
    negations_change_the_sign(a);
    negations_change_the_sign(gap);
    differences_round(a.negated(), gap);
    mirrored(a.negated().minus(gap), out, a.value() + gap.value());
    vstd::arithmetic::power2::lemma_pow2_adds(64, 36);
    vstd::arithmetic::power2::lemma_pow2_pos(36);
}

/// A sign is of its kind and at its facade, leaves most of a metre of the facade free, is no
/// higher than about a third of the wall, shines only after dark and never where it was
/// removed.
pub proof fn signs_suit_their_facade(
    config: SignageSamplingConfig,
    building: SampledBuilding,
    phase: DayPhase,
    kind: SignageKind,
    facade: FacadeSide,
    side: Single,
    u: [Single; 6],
)
    requires
        forall|i: int| 0 <= i < 6 ==> is_share(#[trigger] u@[i]),
        config.emissive_strength.at(u[4]).is_finite(),
        !facade_width(building, facade).times(config.width_fraction.at(u[0])).is_nan(),
        !facade_width(building, facade).minus(Single::ratio(8, 10)).is_nan(),
        !config.height_m.at(u[1]).is_nan(),
        !building.wall_height_m.times(Single::ratio(36, 100)).is_nan(),
    ensures
        ({
            let made = sign_from(config, building, phase, kind, facade, side, u);
            &&& made.kind == kind
            &&& made.facade == facade
            &&& made.size_m.x.at_most(
                facade_width(building, facade).minus(Single::ratio(8, 10)),
            )
            &&& made.size_m.y.at_most(building.wall_height_m.times(Single::ratio(36, 100)))
            &&& made.size_m.y.at_most(config.height_m.at(u[1]))
            &&& phase == DayPhase::Day || kind == SignageKind::RemovedGhost
                ==> made.emissive_strength.value() == 0
            &&& phase == DayPhase::Night && kind != SignageKind::RemovedGhost ==> drawn_from(
                made.emissive_strength,
                config.emissive_strength,
            )
            &&& drawn_from(made.weathering, sign_weathering(kind))
        }),
{
    one_is_one();
    assert(is_share(u@[4]) && is_share(u@[5]));
    neutral_operands(config.emissive_strength.at(u[4]), Single::zero());
}

/// Signs are dark by day and brightest at night. A removed sign is always weathered, and the
/// others never as much as the worst of those.
pub proof fn signs_age_and_shine()
    ensures
        sign_light(DayPhase::Day).value() == 0,
        Single::zero().less(sign_light(DayPhase::Twilight)),
        sign_light(DayPhase::Twilight).less(sign_light(DayPhase::Night)),
        sign_light(DayPhase::Night) == Single::one(),
        sign_weathering(SignageKind::RemovedGhost).max == Single::one(),
        Single::ratio(5, 10).less(sign_weathering(SignageKind::RemovedGhost).min),
        sign_weathering(SignageKind::PizzaHut).min == Single::zero() || sign_weathering(
            SignageKind::PizzaHut,
        ).min.value() == 0,
        sign_weathering(SignageKind::RebrandedTenant).min.value() == 0,
        sign_weathering(SignageKind::RebrandedTenant).max.less(
            sign_weathering(SignageKind::PizzaHut).max,
        ),
        sign_weathering(SignageKind::PizzaHut).max.less(Single::one()),
{
    one_is_one();
    broadcast use crate::bounds::group_literals;

    crate::bounds::literals_of_whole_numbers(1, 1);
    crate::bounds::ratios_stay_apart(0, 1, 48, 100);
    crate::bounds::ratios_stay_apart(48, 100, 1, 1);
    crate::bounds::ratios_stay_apart(5, 10, 52, 100);
    crate::bounds::ratios_stay_apart(52, 100, 66, 100);
    crate::bounds::ratios_stay_apart(66, 100, 1, 1);
    literals_round(100, 100);
    exact_results_are_kept(Single::ratio(100, 100), 100 * unit(), 100, Single::one());
    literals_round(0, 100);
    assert(0 * unit() == 0);
    exact_results_are_kept(Single::ratio(0, 100), 0, 100, Single::zero());
}

/// A place on the ground is at its distance in its direction.
pub proof fn places_lie_on_the_ground(turn: Turn, distance: Single)
    requires
        turn.cosine.is_finite(),
        turn.sine.is_finite(),
        distance.is_finite(),
    ensures
        crate::camera_laws::lies_in(ground_point(turn, distance), turn, distance, Single::zero()),
{
    products_round(turn.cosine, distance);
    products_round(turn.sine, distance);
}

/// A neighbour is as high as its kind: from three metres for shops and houses, from four for
/// sheds and from nine for a tall one, which alone may be higher than eleven.
pub proof fn neighbours_are_as_high_as_their_kind(kind: BackgroundBuildingKind, height: Single)
    requires
        height.is_finite(),
    ensures
        Single::ratio(3, 1).less(background_height(kind, height)),
        background_height(kind, height).at_most(Single::ratio(28, 1)),
        kind != BackgroundBuildingKind::MidriseMixedUse ==> background_height(
            kind,
            height,
        ).at_most(Single::ratio(11, 1)),
        kind == BackgroundBuildingKind::MidriseMixedUse ==> Single::ratio(9, 1).at_most(
            background_height(kind, height),
        ),
        kind == BackgroundBuildingKind::IndustrialShed ==> Single::ratio(4, 1).at_most(
            background_height(kind, height),
        ),
        kind == BackgroundBuildingKind::Residential ==> background_height(kind, height).at_most(
            Single::ratio(85, 10),
        ),
        kind == BackgroundBuildingKind::LowCommercial ==> background_height(kind, height).at_most(
            Single::ratio(95, 10),
        ),
        kind == BackgroundBuildingKind::MidriseMixedUse && Single::ratio(9, 1).at_most(height)
            && height.at_most(Single::ratio(28, 1)) ==> background_height(kind, height) == height,
{
    broadcast use crate::bounds::group_literals;

    crate::bounds::ratios_stay_apart(3, 1, 9, 1);
    crate::bounds::ratios_stay_apart(3, 1, 32, 10);
    crate::bounds::ratios_stay_apart(3, 1, 4, 1);
    crate::bounds::ratios_keep_order(9, 1, 28, 1);
    crate::bounds::ratios_keep_order(32, 10, 95, 10);
    crate::bounds::ratios_keep_order(32, 10, 85, 10);
    crate::bounds::ratios_keep_order(4, 1, 11, 1);
    crate::bounds::ratios_keep_order(95, 10, 28, 1);
    crate::bounds::ratios_keep_order(85, 10, 28, 1);
    crate::bounds::ratios_keep_order(11, 1, 28, 1);
    crate::bounds::ratios_keep_order(95, 10, 11, 1);
    crate::bounds::ratios_keep_order(85, 10, 11, 1);
    crate::bounds::ratios_keep_order(32, 10, 11, 1);
    crate::bounds::ratios_keep_order(32, 10, 28, 1);
    crate::bounds::ratios_keep_order(4, 1, 28, 1);
}

/// A neighbour has a width and a depth from their own ranges and the height of its kind.
pub proof fn neighbours_come_from_their_ranges(
    config: crate::composition::BackgroundBuildingSamplingConfig,
    building: SampledBuilding,
    kind: BackgroundBuildingKind,
    base_angle: Single,
    count: u32,
    index: u32,
    u: [Single; 6],
)
    requires
        forall|i: int| 0 <= i < 6 ==> is_share(#[trigger] u@[i]),
    ensures
        ({
            let made = background_shape(config, building, kind, base_angle, count, index, u);
            &&& drawn_from(made.size_m.x, config.width_m)
            &&& drawn_from(made.size_m.z, config.depth_m)
            &&& exists|height: Single| #[trigger]
                drawn_from(height, config.height_m) && made.size_m.y == background_height(
                    kind,
                    height,
                )
            &&& exists|setback: Single| #[trigger]
                drawn_from(setback, config.setback_m) && made.distance
                    == crate::check_scene::footprint_radius(building).plus(
                    crate::check_scene::half_diagonal(made.size_m.x, made.size_m.z),
                ).plus(setback)
        }),
{
    assert(is_share(u@[0]) && is_share(u@[1]) && is_share(u@[2]) && is_share(u@[4]));
    assert(drawn_from(config.height_m.at(u[2]), config.height_m));
    assert(drawn_from(config.setback_m.at(u[4]), config.setback_m));
}

/// Plants of a kind have heights of their own: shrubs those of shrubs and trees those of
/// trees. A crown is a fraction of the height, and colours drift one way or the other.
pub proof fn plants_come_from_their_ranges(
    config: VegetationSamplingConfig,
    building: SampledBuilding,
    kind: VegetationKind,
    base_angle: Single,
    count: u32,
    index: u32,
    side: Single,
    u: [Single; 7],
)
    requires
        forall|i: int| 0 <= i < 7 ==> is_share(#[trigger] u@[i]),
    ensures
        ({
            let made = plant_from(config, building, kind, base_angle, count, index, side, u);
            &&& made.kind == kind
            &&& kind == VegetationKind::Shrub ==> drawn_from(made.height_m, config.shrub_height_m)
            &&& kind != VegetationKind::Shrub ==> drawn_from(made.height_m, config.tree_height_m)
            &&& crate::shell_laws::fraction_of(
                made.canopy_radius_m,
                made.height_m,
                config.canopy_radius_fraction,
            )
            &&& side == Single::one() ==> is_share(made.seasonal_variation)
            &&& side == Single::one().negated() ==> is_share(made.seasonal_variation.negated())
        }),
{
    one_is_one();
    assert(is_share(u@[0]) && is_share(u@[4]) && is_share(u@[6]));
    let height = height_range(config, kind).at(u[0]);
    crate::shell_laws::lemma_fraction(height, config.canopy_radius_fraction, u[4]);
    neutral_operands(u[6], Single::zero());
    products_follow_signs(Single::one(), u[6]);
    negations_change_the_sign(u[6]);
}

/// Objects around a building are spread evenly: the first of them, unmoved, stands in the
/// base direction.
pub proof fn spreads_begin_at_their_base(
    base_angle: Single,
    count: u32,
    share: Single,
)
    requires
        base_angle.is_finite(),
        share.is_finite(),
        0 < count < 0x100_0000,
    ensures
        spread_angle(base_angle, count, 0, share, Single::ratio(5, 10)).equals(base_angle),
{
    one_is_one();
    small_literals();
    whole_numbers(0);
    whole_numbers(count);
    let half = Single::ratio(5, 10);
    let tau = crate::sample_site::tau();
    let n = Single::from_u32(count);
    let u = unit();
    let c = count as int;
    assert(c * u >= u) by (nonlinear_arith)
        requires
            c >= 1,
            u > 0,
    ;
    quotients_round(tau, n);
    let step = tau.over(n);
    lemma_tau();
    let t = tau.value();
    assert(0 <= t * u && t * u <= t * (c * u)) by (nonlinear_arith)
        requires
            u > 0,
            t > 0,
            c * u >= u,
    ;
    bounded_results_are_finite(step, t * u, c * u, tau);
    assert(0 * u == 0);
    neutral_operands(half, Single::from_u32(0));
    neutral_operands(step, Single::from_u32(0));
    let none = Single::from_u32(0).times(step);
    neutral_operands(base_angle, none);
    let gap = half.minus(half);
    neutral_operands(step, gap);
    neutral_operands(share, gap.times(step));
    let moved = gap.times(step).times(share);
    neutral_operands(base_angle.plus(none), moved);
    order_is_value_order(base_angle.plus(none).plus(moved), base_angle);
}

proof fn lemma_tau()
    ensures
        crate::sample_site::tau().is_finite(),
        crate::sample_site::tau().value() > 0,
{
    let tau = crate::sample_site::tau();
    assert(crate::single::magnitude(0) == 0);
    crate::single::lemma_magnitude_increases(0, tau.code());
}

/// Poles in a city or an urban place are always lit, and those elsewhere where it was drawn.
/// They stand in a row along the road: the first at one end, the last at the other, each
/// beyond the one before, and all at one distance from the building.
pub proof fn poles_stand_in_a_row(
    row: PoleRow,
    domain: SceneDomain,
    i: u32,
    j: u32,
    u: [Single; 2],
)
    requires
        is_share(u@[0]),
        is_share(u@[1]),
        2 <= row.count < 0x100_0000,
        i <= j < row.count,
        row.span.is_finite(),
        row.span.value() >= 0,
    ensures
        ({
            let (a, b) = (pole_from(row, domain, i, u), pole_from(row, domain, j, u));
            let first = pole_from(row, domain, 0, u);
            let last = pole_from(row, domain, (row.count - 1) as u32, u);
            &&& a.position.z == row.z
            &&& a.position.y == Single::zero()
            &&& a.position.x.at_most(b.position.x)
            &&& rounds(last.position.x, row.span.value(), 2)
            &&& first.position.x.value() == -last.position.x.value()
            &&& drawn_from(a.height_m, FloatRange::decimal(52, 108, 10))
            &&& domain == SceneDomain::City || domain == SceneDomain::Urban ==> a.has_light
            &&& domain != SceneDomain::City && domain != SceneDomain::Urban ==> a.has_light
                == u@[1].less(Single::ratio(42, 100))
        }),
{
    one_is_one();
    small_literals();
    let half = Single::ratio(5, 10);
    let one = Single::one();
    let n = row.count;
    let last = (n - 1) as u32;
    crate::camera_laws::sequences_run_from_start_to_end(i, j, n);
    crate::camera_laws::sequences_run_from_start_to_end(j, j, n);
    crate::camera_laws::sequences_run_from_start_to_end(0, last, n);
    let (p, q) = (row_progress(i, n), row_progress(j, n));
    assert(p == crate::sample_camera::sequence_progress(i, n));
    assert(q == crate::sample_camera::sequence_progress(j, n));
    let (x, y) = (p.minus(half), q.minus(half));
    differences_round(p, half);
    differences_round(q, half);
    bounded_results_are_finite(x, p.value() - half.value(), 1, half);
    bounded_results_are_finite(y, q.value() - half.value(), 1, half);
    results_keep_order(x, y, p.value() - half.value(), q.value() - half.value(), 1);
    order_is_value_order(x, y);
    products_round(x, row.span);
    products_round(y, row.span);
    let (a, b, s) = (x.value(), y.value(), row.span.value());
    assert(a * s <= b * s) by (nonlinear_arith)
        requires
            a <= b,
            s >= 0,
    ;
    results_keep_order(x.times(row.span), y.times(row.span), a * s, b * s, unit());
    let end = one.minus(half);
    differences_round(one, half);
    exact_results_are_kept(end, unit() - half.value(), 1, half);
    crate::framing_laws::lemma_half_rounds(row.span);
    crate::single::sums_and_products_commute(half, row.span);
    let zero = row_progress(0, n);
    let start = zero.minus(half);
    negations_change_the_sign(half);
    differences_round(zero, half);
    exact_results_are_kept(start, -half.value(), 1, half.negated());
    products_follow_signs(half, row.span);
    negations_change_the_sign(half.times(row.span));
}

/// Parking lies in front of the building and the road beyond it: the middle of the parking is
/// nine metres from the wall, the road starts eleven metres further, and the poles stand
/// beyond the road.
pub proof fn streets_lie_in_front(
    building: SampledBuilding,
    road_lanes: u32,
    fraction: Single,
    count: u32,
)
    requires
        building.footprint_depth_m.is_finite(),
        0 <= building.footprint_depth_m.value() <= 0x1_0000 * unit(),
        road_lanes < 0x1000,
        is_share(fraction),
        !fraction.is_negative(),
    ensures
        ({
            let made = pavement_from(building, road_lanes, fraction);
            let row = pole_row(building, made, road_lanes, count);
            &&& drawn_from(made.lane_width, FloatRange::decimal(30, 37, 10))
            &&& made.parking_center_z.is_finite()
            &&& 2 * made.parking_center_z.value() < -building.footprint_depth_m.value()
            &&& made.road_center_z.is_finite()
            &&& made.road_center_z.value() < made.parking_center_z.value()
            &&& row.count == count
            &&& row.z.is_finite()
            &&& row.z.value() < made.road_center_z.value()
        }),
{
    one_is_one();
    lemma_scale_fits();
    let u = unit();
    let half = Single::ratio(5, 10);
    small_literals();
    let depth = building.footprint_depth_m;
    let a = depth.times(half);
    products_round(depth, half);
    let d = depth.value();
    crate::framing_laws::lemma_half_rounds(depth);
    bounded_results_are_finite(a, d, 2, depth);
    results_are_close(a, d, 2);
    whole_literals(9);
    whole_literals(11);
    let nine = Single::ratio(9, 1);
    let sum = a.plus(nine);
    sums_round(a, nine);
    let big = lemma_sum_fits(a.value() + 9 * u);
    bounded_results_are_finite(sum, a.value() + 9 * u, 1, big);
    results_are_close(sum, a.value() + 9 * u, 1);
    negations_change_the_sign(sum);
    let parking = sum.negated();
    let eleven = Single::ratio(11, 1);
    let edge = parking.minus(eleven);
    differences_round(parking, eleven);
    let p = parking.value();
    let far = lemma_sum_fits(size(p - 11 * u));
    bounded_results_are_finite(edge, p - 11 * u, 1, far);
    results_are_close(edge, p - 11 * u, 1);
    let wide = FloatRange::decimal(30, 37, 10).at(fraction);
    crate::bounds::ratio_spans(30, 10, 3072, 3072);
    crate::bounds::ratio_spans(37, 10, 3788, 3789);
    lemma_fraction_spans(fraction);
    crate::bounds::range_spans(FloatRange::decimal(30, 37, 10), fraction, 3072, 3789, 1);
    let lanes = Single::from_u32(road_lanes);
    whole_numbers(road_lanes);
    let n = road_lanes as int;
    lemma_whole_spans(road_lanes);
    crate::bounds::product_spans(
        lanes,
        wide,
        n * 1024,
        n * 1024,
        3072,
        3790,
        n * 3072,
        n * 3790,
    );
    let road = lanes.times(wide);
    crate::bounds::ratio_spans(5, 10, 512, 512);
    crate::bounds::product_spans(
        road,
        half,
        n * 3072,
        n * 3790,
        512,
        512,
        n * 1536,
        n * 1895,
    );
    let reach = road.times(half);
    let m = reach.value();
    vstd::arithmetic::power2::lemma2_to64();
    vstd::arithmetic::power2::lemma_pow2_adds(10, 139);
    vstd::arithmetic::power2::lemma_pow2_pos(139);
    let v = vstd::arithmetic::power2::pow2(139) as int;
    assert(0 <= m <= 0x2000 * u) by (nonlinear_arith)
        requires
            n * 1536 * v <= m <= n * 1895 * v,
            0 <= n < 0x1000,
            u == 1024 * v,
            v > 0,
    {
        assert(n * 1895 * v <= 0x1000 * 1895 * v);
    }
    let center = edge.minus(reach);
    differences_round(edge, reach);
    let e = edge.value();
    let more = lemma_sum_fits(size(e - m));
    bounded_results_are_finite(center, e - m, 1, more);
    results_are_close(center, e - m, 1);
    let c = center.value();
    let side = center.minus(reach);
    differences_round(center, reach);
    let most = lemma_sum_fits(size(c - m));
    bounded_results_are_finite(side, c - m, 1, most);
    results_are_close(side, c - m, 1);
    let gap = Single::ratio(12, 10);
    literals_round(12, 10);
    small_literals();
    bounded_results_are_finite(gap, 12 * u, 10, Single::ratio(2, 1));
    results_are_close(gap, 12 * u, 10);
    let s = side.value();
    differences_round(side, gap);
    let end = lemma_sum_fits(size(s - gap.value()));
    bounded_results_are_finite(side.minus(gap), s - gap.value(), 1, end);
    results_are_close(side.minus(gap), s - gap.value(), 1);
    assert(is_share(fraction));
    assert(drawn_from(wide, FloatRange::decimal(30, 37, 10)));
}

proof fn lemma_fraction_spans(x: Single)
    requires
        is_share(x),
        !x.is_negative(),
    ensures
        crate::bounds::spans(x, 0, 1024),
{
    vstd::arithmetic::power2::lemma2_to64();
    vstd::arithmetic::power2::lemma_pow2_adds(10, 139);
}

proof fn lemma_whole_spans(n: u32)
    requires
        n < 0x1000,
    ensures
        crate::bounds::spans(Single::from_u32(n), n * 1024, n * 1024),
{
    whole_numbers(n);
    reveal(Single::spec_from_u32);
    vstd::arithmetic::power2::lemma2_to64();
    vstd::arithmetic::power2::lemma_pow2_adds(10, 139);
    let v = vstd::arithmetic::power2::pow2(139) as int;
    let m = n as int;
    assert(m * (1024 * v) == m * 1024 * v) by (nonlinear_arith);
    crate::single::lemma_nearest_exists(n * vstd::arithmetic::power2::pow2(149), 1);
}

/// Parking bays lie along the road or across it, and are as large as cars need.
pub proof fn bays_hold_cars(heads: bool, u: Single, v: Single)
    requires
        is_share(u),
        is_share(v),
    ensures
        heads ==> parking_yaw(heads).value() == 0,
        !heads ==> parking_yaw(heads).value() == 90 * unit(),
        drawn_from(bay_size(u, v).x, FloatRange::decimal(235, 275, 100)),
        drawn_from(bay_size(u, v).y, FloatRange::decimal(47, 56, 10)),
{
    one_is_one();
    whole_literals(90);
}

/// A row runs from its start to its end: its first place is at none of it, its last at all, a
/// later one never before an earlier one, and a single one in the middle. There is one gap
/// less than there are places.
pub proof fn rows_run_from_start_to_end(i: u32, j: u32, count: u32)
    requires
        i <= j < count < 0x100_0000,
    ensures
        crate::camera_laws::is_share(crate::sample_site::row_progress(i, count)),
        crate::sample_site::row_progress(i, count).value() <= crate::sample_site::row_progress(
            j,
            count,
        ).value(),
        count >= 2 ==> crate::sample_site::row_progress(0, count).value() == 0,
        count >= 2 ==> crate::sample_site::row_progress((count - 1) as u32, count)
            == Single::one(),
        count == 1 ==> 2 * crate::sample_site::row_progress(0, 1).value() == unit(),
        crate::sample_site::gaps_of(count) + 1 == count,
        crate::sample_site::gaps_of(0) == 0,
{
    crate::camera_laws::sequences_run_from_start_to_end(i, j, count);
}

/// Cables hang with their probability, poles are always lit except along suburban strips,
/// roads and in remote places, and shrubs have heights of their own.
pub proof fn lines_hang_with_their_probability(
    d: crate::draws::Draws,
    probability: Single,
    domain: crate::composition::SceneDomain,
    config: crate::composition::VegetationSamplingConfig,
    kind: crate::composition::VegetationKind,
)
    requires
        d.unit().is_finite(),
        probability.is_finite(),
    ensures
        crate::sample_site::line_hangs(d, probability) <==> d.unit().value()
            < probability.value(),
        crate::sample_site::always_lit(domain) <==> domain
            != crate::composition::SceneDomain::Suburban && domain
            != crate::composition::SceneDomain::Roadside && domain
            != crate::composition::SceneDomain::Remote,
        kind == crate::composition::VegetationKind::Shrub ==> crate::sample_site::height_range(
            config,
            kind,
        ) == config.shrub_height_m,
        kind != crate::composition::VegetationKind::Shrub ==> crate::sample_site::height_range(
            config,
            kind,
        ) == config.tree_height_m,
{
    crate::single::order_is_value_order(d.unit(), probability);
}

/// The glass, the entrance and the dirt of a facade come from their ranges, on the side and of
/// the glass that were chosen.
pub proof fn facades_come_from_their_ranges(
    config: crate::composition::FacadeSamplingConfig,
    building: crate::plan::SampledBuilding,
    glass: crate::plan::SampledMaterial,
    side: crate::composition::FacadeSide,
    u: [Single; 3],
)
    requires
        crate::camera_laws::is_share(u@[0]),
        crate::camera_laws::is_share(u@[1]),
        crate::camera_laws::is_share(u@[2]),
    ensures
        ({
            let own = crate::sample_site::facade_from(config, building, glass, side, u);
            &&& crate::framing_laws::drawn_from(own.glazing_fraction, config.glazing_fraction)
            &&& crate::framing_laws::drawn_from(own.weathering, config.weathering)
            &&& own.entrance_side == side && own.glazing_material == glass
            &&& exists|wide: Single| #[trigger]
                crate::framing_laws::drawn_from(wide, config.entrance_width_m)
                    && own.entrance_width_m == crate::sample_site::entrance_width(wide, building)
        }),
{
    let own = crate::sample_site::facade_from(config, building, glass, side, u);
    assert(own.glazing_fraction == config.glazing_fraction.at(u@[0]));
    assert(own.weathering == config.weathering.at(u@[2]));
    let wide = config.entrance_width_m.at(u@[1]);
    assert(crate::framing_laws::drawn_from(wide, config.entrance_width_m));
}

} // verus!
