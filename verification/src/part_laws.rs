//! What the parts of a drawn building and its site are, and where.

use crate::assembly::{
    band_corners, building_patches, door_corners, entrance_patches, extension_panel,
    facade_glass_appearance, lane_markings_item_patches, lane_markings_patches, lobe_patches,
    mullion_center, mullion_size, road_depth, road_patches, side_window_count, window_band_patches,
};
use crate::assembly_laws::holds;
use crate::camera_laws::{is_share, is_usual_length};
use crate::geometry::Turn;
use crate::mips::srgb_to_linear;
use crate::patch::Patch;
use crate::rounding::{
    bounded_results_are_finite, differences_round, neutral_operands, one_is_one, products_round,
    results_are_close, results_keep_order, rounds, size, small_literals, sums_round, whole_numbers,
};
use crate::scene::{BuildingSide, FacadeDescription, SiteRoadKind, TreeInstance};
use crate::shape_laws::{is_point, looks_like};
use crate::single::{order_is_value_order, Single};
use crate::surface::{MaterialSlot, SurfacePattern};
use crate::whole::unit;
use vstd::prelude::*;

verus! {

/// A building shows its windows on all four sides, and its entrance.
#[verifier::rlimit(40)]
pub proof fn buildings_show_windows_all_around(
    width: Single,
    depth: Single,
    wall: Single,
    facade: FacadeDescription,
    raised: [Single; 3],
)
    ensures
        ({
            let all = building_patches(width, depth, wall, facade, raised);
            let glass = facade_glass_appearance(facade, raised);
            &&& holds(
                all,
                window_band_patches(width, depth, facade, glass, BuildingSide::Front),
            )
            &&& holds(all, window_band_patches(width, depth, facade, glass, BuildingSide::Back))
            &&& holds(all, window_band_patches(width, depth, facade, glass, BuildingSide::Left))
            &&& holds(
                all,
                window_band_patches(width, depth, facade, glass, BuildingSide::Right),
            )
            &&& holds(all, entrance_patches(width, depth, facade, glass))
        }),
{
    reveal(building_patches);
    let x = width.times(Single::ratio(5, 10));
    let z = depth.times(Single::ratio(5, 10));
    let y = wall;
    let look = [Single::zero(), Single::zero(), Single::zero(), facade.weathering];
    let glass = facade_glass_appearance(facade, raised);
    let walls = crate::shapes::quad_tinted_patches(
        [
            [x, Single::zero(), z.negated()],
            [x.negated(), Single::zero(), z.negated()],
            [x.negated(), y, z.negated()],
            [x, y, z.negated()],
        ],
        MaterialSlot::Wall,
        look,
    ) + crate::shapes::quad_tinted_patches(
        [
            [x, Single::zero(), z],
            [x, Single::zero(), z.negated()],
            [x, y, z.negated()],
            [x, y, z],
        ],
        MaterialSlot::Wall,
        look,
    ) + crate::shapes::quad_tinted_patches(
        [
            [x.negated(), Single::zero(), z],
            [x, Single::zero(), z],
            [x, y, z],
            [x.negated(), y, z],
        ],
        MaterialSlot::Wall,
        look,
    ) + crate::shapes::quad_tinted_patches(
        [
            [x.negated(), Single::zero(), z.negated()],
            [x.negated(), Single::zero(), z],
            [x.negated(), y, z],
            [x.negated(), y, z.negated()],
        ],
        MaterialSlot::Wall,
        look,
    );
    let front = window_band_patches(width, depth, facade, glass, BuildingSide::Front);
    let back = window_band_patches(width, depth, facade, glass, BuildingSide::Back);
    let left = window_band_patches(width, depth, facade, glass, BuildingSide::Left);
    let right = window_band_patches(width, depth, facade, glass, BuildingSide::Right);
    let door = entrance_patches(width, depth, facade, glass);
    let post = [Single::ratio(16, 100), y, Single::ratio(16, 100)];
    let middle = y.times(Single::ratio(5, 10));
    let straight = crate::shapes::straight();
    let a = crate::shapes::box_patches(
        [x, middle, z.negated()],
        post,
        straight,
        MaterialSlot::Trim,
    );
    let b = crate::shapes::box_patches(
        [x.negated(), middle, z.negated()],
        post,
        straight,
        MaterialSlot::Trim,
    );
    let c = crate::shapes::box_patches([x, middle, z], post, straight, MaterialSlot::Trim);
    let d = crate::shapes::box_patches(
        [x.negated(), middle, z],
        post,
        straight,
        MaterialSlot::Trim,
    );
    let e = crate::shapes::box_patches(
        [
            Single::zero(),
            y.minus(Single::ratio(2, 10)),
            z.negated().minus(Single::ratio(3, 100)),
        ],
        [width, Single::ratio(22, 100), Single::ratio(12, 100)],
        straight,
        MaterialSlot::Trim,
    );
    let s1 = walls + front;
    let s2 = s1 + back;
    let s3 = s2 + left;
    let s4 = s3 + right;
    let s5 = s4 + door;
    assert(building_patches(width, depth, wall, facade, raised) == s5 + a + b + c + d + e);
    lemma_last(walls, front);
    lemma_kept(s1, back, front);
    lemma_kept(s2, left, front);
    lemma_kept(s3, right, front);
    lemma_kept(s4, door, front);
    lemma_trimmed(s5, a, b, c, d, e, front);
    lemma_last(s1, back);
    lemma_kept(s2, left, back);
    lemma_kept(s3, right, back);
    lemma_kept(s4, door, back);
    lemma_trimmed(s5, a, b, c, d, e, back);
    lemma_last(s2, left);
    lemma_kept(s3, right, left);
    lemma_kept(s4, door, left);
    lemma_trimmed(s5, a, b, c, d, e, left);
    lemma_last(s3, right);
    lemma_kept(s4, door, right);
    lemma_trimmed(s5, a, b, c, d, e, right);
    lemma_last(s4, door);
    lemma_trimmed(s5, a, b, c, d, e, door);
}

proof fn lemma_last(a: Seq<Patch>, part: Seq<Patch>)
    ensures
        holds(a + part, part),
{
    crate::assembly_laws::lemma_holds_itself(part);
    crate::assembly_laws::lemma_holds_right(a, part, part);
}

proof fn lemma_kept(a: Seq<Patch>, b: Seq<Patch>, part: Seq<Patch>)
    requires
        holds(a, part),
    ensures
        holds(a + b, part),
{
    crate::assembly_laws::lemma_holds_left(a, b, part);
}

proof fn lemma_trimmed(
    all: Seq<Patch>,
    a: Seq<Patch>,
    b: Seq<Patch>,
    c: Seq<Patch>,
    d: Seq<Patch>,
    e: Seq<Patch>,
    part: Seq<Patch>,
)
    requires
        holds(all, part),
    ensures
        holds(all + a + b + c + d + e, part),
{
    lemma_kept(all, a, part);
    lemma_kept(all + a, b, part);
    lemma_kept(all + a + b, c, part);
    lemma_kept(all + a + b + c, d, part);
    lemma_kept(all + a + b + c + d, e, part);
}

/// A band of windows is a pane of glass along its wall, from its sill up by the height of its
/// windows, and an entrance one in its door, with a canopy where there is one.
pub proof fn windows_and_doors_are_of_glass(
    width: Single,
    depth: Single,
    facade: FacadeDescription,
    glass: [Single; 4],
    side: BuildingSide,
)
    requires
        facade.window_sill_height_m.is_finite(),
        facade.window_height_m.is_finite(),
    ensures
        ({
            let band = window_band_patches(width, depth, facade, glass, side);
            let door = entrance_patches(width, depth, facade, glass);
            let pane = band[0]->Quad_corners;
            &&& looks_like(band[0], MaterialSlot::Glass, glass, SurfacePattern::inherit())
            &&& pane == band_corners(
                width,
                depth,
                facade.window_sill_height_m,
                pane[2][1],
                side,
            )
            &&& rounds(
                pane[2][1],
                facade.window_sill_height_m.value() + facade.window_height_m.value(),
                1,
            )
            &&& looks_like(door[0], MaterialSlot::Glass, glass, SurfacePattern::inherit())
            &&& door[0]->Quad_corners == door_corners(width, depth, facade)
            &&& facade.entrance_canopy ==> door.len() == 7
            &&& !facade.entrance_canopy ==> door.len() == 1
        }),
{
    sums_round(facade.window_sill_height_m, facade.window_height_m);
}

proof fn lemma_parted(
    width: Single,
    depth: Single,
    facade: FacadeDescription,
    side: BuildingSide,
    n: int,
)
    requires
        n >= 1,
    ensures
        crate::assembly::mullions_upto(width, depth, facade, side, n).len() == 6 * (n - 1),
    decreases n,
{
    if n > 1 {
        lemma_parted(width, depth, facade, side, n - 1);
    }
}

/// There is a mullion between each two windows.
pub proof fn windows_are_parted(
    width: Single,
    depth: Single,
    facade: FacadeDescription,
    glass: [Single; 4],
    side: BuildingSide,
)
    requires
        side_window_count(facade, side) > 0,
    ensures
        window_band_patches(width, depth, facade, glass, side).len() == 1 + 6 * (side_window_count(
            facade,
            side,
        ) - 1),
{
    lemma_parted(width, depth, facade, side, side_window_count(facade, side) as int);
}

proof fn lemma_lanes(
    g: Single,
    kind: SiteRoadKind,
    lanes: u32,
    lane: Single,
    center: Single,
    n: int,
)
    requires
        n >= 1,
        kind == SiteRoadKind::UrbanArterial || kind == SiteRoadKind::HighwayFrontage,
    ensures
        crate::assembly::lane_markings_upto(g, kind, lanes, lane, center, n).len() == 6 * (n - 1),
    decreases n,
{
    if n > 1 {
        lemma_lanes(g, kind, lanes, lane, center, n - 1);
    }
}

/// Wide roads have a line between each two lanes.
pub proof fn lanes_are_parted(
    g: Single,
    kind: SiteRoadKind,
    lanes: u32,
    lane: Single,
    center: Single,
)
    requires
        lanes > 0,
        kind == SiteRoadKind::UrbanArterial || kind == SiteRoadKind::HighwayFrontage,
    ensures
        lane_markings_patches(g, kind, lanes, lane, center).len() == 6 * (lanes - 1),
{
    lemma_lanes(g, kind, lanes, lane, center, lanes as int);
}

/// A mullion stands half way between sill and top, outside of its own wall, as far along it as
/// it was put; those of opposite walls mirror each other. It is thin across its wall.
pub proof fn mullions_stand_before_their_wall(
    width: Single,
    depth: Single,
    sill: Single,
    top: Single,
    place: Single,
    high: Single,
)
    requires
        sill.is_finite(),
        top.is_finite(),
        high.is_finite(),
        sill.plus(top).is_finite(),
        is_usual_length(width),
        is_usual_length(depth),
    ensures
        ({
            let front = mullion_center(width, depth, sill, top, BuildingSide::Front, place);
            let back = mullion_center(width, depth, sill, top, BuildingSide::Back, place);
            let left = mullion_center(width, depth, sill, top, BuildingSide::Left, place);
            let right = mullion_center(width, depth, sill, top, BuildingSide::Right, place);
            &&& front[1] == back[1] && front[1] == left[1] && front[1] == right[1]
            &&& exists|sum: Single| #[trigger]
                rounds(sum, sill.value() + top.value(), 1) && rounds(front[1], sum.value(), 2)
            &&& front[0] == place && back[0] == place.negated()
            &&& left[2] == place && right[2] == place.negated()
            &&& 2 * back[2].value() >= depth.value() && front[2].value() == -back[2].value()
            &&& 2 * right[0].value() >= width.value() && left[0].value() == -right[0].value()
        }),
        mullion_size(high, BuildingSide::Front) == mullion_size(high, BuildingSide::Back),
        mullion_size(high, BuildingSide::Left) == mullion_size(high, BuildingSide::Right),
        mullion_size(high, BuildingSide::Front)[0] == mullion_size(high, BuildingSide::Left)[2],
        mullion_size(high, BuildingSide::Front)[2].less(
            mullion_size(high, BuildingSide::Front)[0],
        ),
        high.at_most(mullion_size(high, BuildingSide::Front)[1]),
{
    one_is_one();
    sums_round(sill, top);
    let sum = sill.plus(top);
    crate::framing_laws::lemma_half_rounds(sum);
    assert(rounds(sum, sill.value() + top.value(), 1));
    lemma_proud(width);
    lemma_proud(depth);
    crate::bounds::ratios_stay_apart(7, 100, 11, 100);
    crate::single::fractions_lie_in_the_unit_interval(5, 100);
    crate::single::sums_do_not_shrink(high, Single::ratio(5, 100));
}

proof fn lemma_proud(wall: Single)
    requires
        is_usual_length(wall),
    ensures
        ({
            let half = wall.times(Single::ratio(5, 10));
            let gap = Single::ratio(65, 1000).times(Single::ratio(12, 10));
            &&& 2 * half.plus(gap).value() >= wall.value()
            &&& half.negated().minus(gap).value() == -half.plus(gap).value()
        }),
{
    one_is_one();
    small_literals();
    let (a, b) = (Single::ratio(65, 1000), Single::ratio(12, 10));
    crate::single::fractions_lie_in_the_unit_interval(65, 1000);
    order_is_value_order(Single::zero(), a);
    order_is_value_order(a, Single::one());
    crate::bounds::ratios_are_finite(12, 10);
    crate::bounds::ratios_stay_apart(12, 10, 2, 1);
    crate::bounds::ratios_stay_apart(0, 1, 12, 10);
    crate::rounding::whole_literals(0);
    order_is_value_order(b, Single::ratio(2, 1));
    order_is_value_order(Single::ratio(0, 1), b);
    products_round(a, b);
    let (p, q, u) = (a.value(), b.value(), unit());
    assert(0 <= p * q && size(p * q) <= (2 * u) * u) by (nonlinear_arith)
        requires
            0 <= p <= u,
            0 <= q <= 2 * u,
    ;
    let gap = a.times(b);
    bounded_results_are_finite(gap, p * q, u, Single::ratio(2, 1));
    results_are_close(gap, p * q, u);
    let half = crate::site_laws::lemma_half(wall);
    crate::site_laws::lemma_scale_fits();
    sums_round(half, gap);
    let s = half.value() + gap.value();
    let top = crate::site_laws::lemma_sum_fits(s);
    bounded_results_are_finite(half.plus(gap), s, 1, top);
    let zero = Single::zero();
    neutral_operands(half, zero);
    sums_round(half, zero);
    results_keep_order(half.plus(zero), half.plus(gap), half.value(), s, 1);
    order_is_value_order(half.plus(zero), half.plus(gap));
    crate::rounding::negations_change_the_sign(half);
    differences_round(half.negated(), gap);
    crate::site_laws::mirrored(half.negated().minus(gap), half.plus(gap), s);
}

/// The glass of an addition is outside of it, on its own side, between sill and top.
pub proof fn panels_are_on_their_side(
    side: BuildingSide,
    low: [Single; 2],
    high: [Single; 2],
    sill: Single,
    top: Single,
    inset: Single,
)
    requires
        low[0].is_finite(),
        low[1].is_finite(),
        high[0].is_finite(),
        high[1].is_finite(),
    ensures
        ({
            let c = extension_panel(side, low[0], high[0], low[1], high[1], sill, top, inset);
            &&& c[0][1] == sill && c[1][1] == sill && c[2][1] == top && c[3][1] == top
            &&& side == BuildingSide::Front ==> c[0][2].at_most(low[1]) && c[1][2] == c[0][2]
            &&& side == BuildingSide::Back ==> high[1].at_most(c[0][2]) && c[1][2] == c[0][2]
            &&& side == BuildingSide::Left ==> c[0][0].at_most(low[0]) && c[1][0] == c[0][0]
            &&& side == BuildingSide::Right ==> high[0].at_most(c[0][0]) && c[1][0] == c[0][0]
            &&& side == BuildingSide::Back ==> c[0][0] == low[0].plus(inset) && c[1][0]
                == high[0].minus(inset)
            &&& side == BuildingSide::Front ==> c[1][0] == low[0].plus(inset) && c[0][0]
                == high[0].minus(inset)
            &&& side == BuildingSide::Left ==> c[0][2] == low[1].plus(inset) && c[1][2]
                == high[1].minus(inset)
            &&& side == BuildingSide::Right ==> c[1][2] == low[1].plus(inset) && c[0][2]
                == high[1].minus(inset)
        }),
{
    lemma_little(low[0]);
    lemma_little(low[1]);
    lemma_little(high[0]);
    lemma_little(high[1]);
}

proof fn lemma_little(x: Single)
    requires
        x.is_finite(),
    ensures
        x.at_most(x.plus(Single::ratio(35, 1000))),
        x.minus(Single::ratio(35, 1000)).at_most(x),
{
    one_is_one();
    let gap = Single::ratio(35, 1000);
    crate::single::fractions_lie_in_the_unit_interval(35, 1000);
    order_is_value_order(Single::zero(), gap);
    crate::single::sums_do_not_shrink(x, gap);
    let zero = Single::zero();
    neutral_operands(x, zero);
    differences_round(x, gap);
    differences_round(x, zero);
    results_keep_order(x.minus(gap), x.minus(zero), x.value() - gap.value(), x.value(), 1);
    order_is_value_order(x.minus(zero), x);
}

/// A road is as deep as its lanes together, of asphalt, with a line only where one is drawn
/// between two lanes, lines along both edges of a highway, and a curb only where it is raised.
pub proof fn roads_hold_their_lanes(
    g: Single,
    kind: SiteRoadKind,
    lanes: u32,
    lane: Single,
    center: Single,
    curb: bool,
    i: u32,
)
    requires
        lanes < 0x100_0000,
        lane.is_finite(),
    ensures
        rounds(road_depth(lanes, lane), lanes * lane.value(), 1),
        lane_markings_item_patches(g, kind, lanes, lane, center, i).len() == (
        if crate::assembly::boundary_drawn(kind, i, lanes) {
            6int
        } else {
            0
        }),
        ({
            let all = road_patches(g, kind, lanes, lane, center, curb);
            let lines = lane_markings_patches(g, kind, lanes, lane, center);
            let edges = if kind == SiteRoadKind::HighwayFrontage {
                12int
            } else {
                0
            };
            &&& looks_like(
                all[0],
                MaterialSlot::Asphalt,
                crate::shapes::untinted(),
                SurfacePattern::inherit(),
            )
            &&& all.len() == 6 + lines.len() + edges + (if curb {
                6int
            } else {
                0
            })
            &&& curb ==> looks_like(
                all.last(),
                MaterialSlot::Concrete,
                crate::shapes::untinted(),
                SurfacePattern::inherit(),
            )
        }),
{
    one_is_one();
    whole_numbers(lanes);
    products_round(Single::from_u32(lanes), lane);
    let (l, u) = (lane.value(), unit());
    assert((lanes * u) * l == (lanes * l) * u && (lanes * l < 0 <==> (lanes * l) * u < 0) && -((
    lanes * l) * u) == (-(lanes * l)) * u) by (nonlinear_arith)
        requires
            u > 0,
    ;
    if lanes * l >= 0 {
        crate::bounds::lemma_same_fraction(lanes * l, 1, u);
    } else {
        crate::bounds::lemma_same_fraction(-(lanes * l), 1, u);
    }
}

/// The middle of a crown is over its trunk, about two thirds of the way up.
pub proof fn crowns_are_over_their_trunk(tree: TreeInstance, turn: Turn)
    requires
        is_point(tree.position),
        tree.height_m.is_finite(),
        tree.crown_radius_m.is_finite(),
        turn.cosine.is_finite(),
        turn.sine.is_finite(),
    ensures
        ({
            let z = Single::zero();
            let crown = lobe_patches(tree, turn, z, z, z)[0];
            let center = crown->Ellipsoid_center;
            &&& crown is Ellipsoid
            &&& center[0].value() == tree.position[0].value()
            &&& center[2].value() == tree.position[2].value()
            &&& exists|up: Single|
                {
                    &&& #[trigger] rounds(
                        up,
                        tree.height_m.value() * Single::ratio(68, 100).value(),
                        unit(),
                    )
                    &&& up.is_finite() && tree.position[1].plus(up).is_finite()
                        ==> center[1].value() == tree.position[1].plus(up).value()
                }
        }),
{
    one_is_one();
    let z = Single::zero();
    let shift = crate::shapes::rotate_ground_offset(z, z, turn);
    lemma_not_shifted(turn);
    neutral_operands(tree.crown_radius_m, shift[0]);
    neutral_operands(tree.crown_radius_m, shift[1]);
    neutral_operands(tree.crown_radius_m, z);
    neutral_operands(tree.position[0], shift[0].times(tree.crown_radius_m));
    neutral_operands(tree.position[2], shift[1].times(tree.crown_radius_m));
    let share = Single::ratio(68, 100);
    crate::bounds::ratios_are_finite(68, 100);
    products_round(tree.height_m, share);
    let up = tree.height_m.times(share);
    assert(rounds(up, tree.height_m.value() * share.value(), unit()));
    let middle = tree.position[1].plus(up);
    if up.is_finite() && middle.is_finite() {
        neutral_operands(middle, z.times(tree.crown_radius_m));
    }
}

proof fn lemma_not_shifted(turn: Turn)
    requires
        turn.cosine.is_finite(),
        turn.sine.is_finite(),
    ensures
        ({
            let z = Single::zero();
            let shift = crate::shapes::rotate_ground_offset(z, z, turn);
            &&& shift[0].is_finite() && shift[0].value() == 0
            &&& shift[1].is_finite() && shift[1].value() == 0
        }),
{
    one_is_one();
    let z = Single::zero();
    crate::rounding::negations_change_the_sign(turn.sine);
    neutral_operands(turn.cosine, z);
    neutral_operands(turn.sine, z);
    neutral_operands(turn.sine.negated(), z);
    neutral_operands(turn.cosine.times(z), turn.sine.times(z));
    neutral_operands(turn.sine.negated().times(z), turn.cosine.times(z));
}

/// Clean glass has its own colour, and dirty glass is not brighter.
pub proof fn dirty_glass_is_darker(facade: FacadeDescription, raised: [Single; 3], k: int)
    requires
        0 <= k < 3,
        is_share(facade.glazing_weathering),
        srgb_to_linear(facade.glazing_color_srgb@[k], raised@[k]).is_finite(),
        srgb_to_linear(facade.glazing_color_srgb@[k], raised@[k]).value() >= 0,
    ensures
        ({
            let clear = srgb_to_linear(facade.glazing_color_srgb@[k], raised@[k]);
            let seen = facade_glass_appearance(facade, raised)@[k];
            &&& seen.at_most(clear)
            &&& seen.is_finite() && seen.value() >= 0
            &&& facade.glazing_weathering.value() == 0 ==> seen.value() == clear.value()
        }),
{
    one_is_one();
    assert(k == 0 || k == 1 || k == 2);
    let clear = srgb_to_linear(facade.glazing_color_srgb@[k], raised@[k]);
    let dirt = facade.glazing_weathering;
    crate::single::fractions_lie_in_the_unit_interval(32, 100);
    crate::single::fractions_lie_in_the_unit_interval(3, 10);
    crate::single::fractions_lie_in_the_unit_interval(25, 100);
    lemma_dimmed(clear, dirt, Single::ratio(32, 100));
    lemma_dimmed(clear, dirt, Single::ratio(3, 10));
    lemma_dimmed(clear, dirt, Single::ratio(25, 100));
}

proof fn lemma_dimmed(clear: Single, dirt: Single, share: Single)
    requires
        clear.is_finite(),
        clear.value() >= 0,
        is_share(dirt),
        share.is_finite(),
        Single::zero().at_most(share),
        share.at_most(Single::one()),
    ensures
        ({
            let seen = clear.times(Single::one().minus(dirt.times(share)));
            &&& seen.at_most(clear)
            &&& seen.is_finite() && seen.value() >= 0
            &&& dirt.value() == 0 ==> seen.value() == clear.value()
        }),
{
    one_is_one();
    let (one, u) = (Single::one(), unit());
    order_is_value_order(Single::zero(), share);
    order_is_value_order(share, one);
    products_round(dirt, share);
    let (p, q) = (dirt.value(), share.value());
    assert(0 <= p * q && size(p * q) <= u * u) by (nonlinear_arith)
        requires
            0 <= p <= u,
            0 <= q <= u,
    ;
    let loss = dirt.times(share);
    bounded_results_are_finite(loss, p * q, u, one);
    results_are_close(loss, p * q, u);
    differences_round(one, loss);
    let left = one.minus(loss);
    bounded_results_are_finite(left, u - loss.value(), 1, one);
    results_are_close(left, u - loss.value(), 1);
    products_round(clear, left);
    let (c, l) = (clear.value(), left.value());
    assert(0 <= c * l && size(c * l) <= c * u) by (nonlinear_arith)
        requires
            0 <= c,
            0 <= l <= u,
    ;
    let seen = clear.times(left);
    bounded_results_are_finite(seen, c * l, u, clear);
    results_are_close(seen, c * l, u);
    order_is_value_order(seen, clear);
    if p == 0 {
        neutral_operands(share, dirt);
        neutral_operands(one, loss);
        neutral_operands(clear, Single::zero());
    }
}

} // verus!
