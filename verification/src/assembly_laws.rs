//! What an assembled scene shows, and where.

use crate::assembly::{
    backgrounds_upto, bay_markings_upto, boundary_drawn, building_extension_patches,
    building_patches, cable_middle, cable_patches, cables_upto, canopy_center, canopy_size,
    context_patches, door_corners, extensions_upto, foliage_tint, ground_corners, ground_patches,
    band_corners, occluder_patches, occluder_size, occluders_upto, ordinary_roof_patches,
    parking_patches, poles_upto, road_patches, shed_height, side_window_count, sign_appearance,
    sign_material, sign_patches, sign_pattern, signs_upto, tree_patches, trees_upto, trunk_fraction,
    utility_pole_patches, weathered_channel, background_building_patches, BackgroundLook,
    OccluderTurns, SceneLooks, TreeTurns,
};
use crate::geometry::Turn;
use crate::patch::Patch;
use crate::plan::{OrdinaryRoofFamily, SampledOrdinaryRoof};
use crate::rounding::{
    bounded_results_are_finite, differences_round, literals_round, negations_change_the_sign,
    neutral_operands, one_is_one, products_round, results_are_close, results_keep_order, rounds,
    size, sums_round,
};
use crate::scene::{
    BackgroundBuilding, BackgroundBuildingKind, BuildingExtensionDescription,
    BuildingExtensionKind, BuildingExtensionRoof, BuildingSide, FacadeDescription, SceneModel,
    SceneOccluder, SceneOccluderKind, SignDescription, SignMount, SignStyle, SiteModel,
    SiteRoadKind, TreeInstance, TreeKind, UtilityLineDescription, UtilityPoleDescription,
};
use crate::shape_laws::{at, is_point, looks_like, turned};
use crate::shapes::RoundTurns;
use crate::single::{order_is_value_order, Single};
use crate::surface::{MaterialSlot, SurfacePattern};
use crate::whole::unit;
use vstd::prelude::*;

verus! {

/// Some surfaces stand at a place of a list of surfaces.
pub open spec fn holds_at(all: Seq<Patch>, part: Seq<Patch>, at: int) -> bool {
    0 <= at && at + part.len() <= all.len() && all.subrange(at, at + part.len()) == part
}

/// Some surfaces occur in a row in a list of surfaces.
pub open spec fn holds(all: Seq<Patch>, part: Seq<Patch>) -> bool {
    exists|at: int| #[trigger] holds_at(all, part, at)
}

pub(crate) proof fn lemma_holds_left(a: Seq<Patch>, b: Seq<Patch>, part: Seq<Patch>)
    requires
        holds(a, part),
    ensures
        holds(a + b, part),
{
    let at = choose|at: int| #[trigger] holds_at(a, part, at);
    assert((a + b).subrange(at, at + part.len()) =~= a.subrange(at, at + part.len()));
    assert(holds_at(a + b, part, at));
}

pub(crate) proof fn lemma_holds_right(a: Seq<Patch>, b: Seq<Patch>, part: Seq<Patch>)
    requires
        holds(b, part),
    ensures
        holds(a + b, part),
{
    let at = choose|at: int| #[trigger] holds_at(b, part, at);
    let start = a.len() + at;
    assert((a + b).subrange(start, start + part.len()) =~= b.subrange(at, at + part.len()));
    assert(holds_at(a + b, part, start));
}

pub(crate) proof fn lemma_holds_itself(a: Seq<Patch>)
    ensures
        holds(a, a),
{
    assert(a.subrange(0, 0 + a.len() as int) =~= a);
    assert(holds_at(a, a, 0));
}

/// Everything in a scene is drawn: the building, each of its additions, the ground, each
/// neighbour, plant, object and sign.
pub proof fn everything_is_drawn(scene: SceneModel, looks: &SceneLooks, i: int)
    ensures
        ({
            let all = context_patches(scene, looks);
            &&& holds(
                all,
                building_patches(
                    scene.footprint_width_m,
                    scene.footprint_depth_m,
                    scene.wall_height_m,
                    scene.facade,
                    looks.glazing_raised,
                ),
            )
            &&& holds(all, ground_patches(scene.ground_half_extent_m, scene.site, looks))
            &&& 0 <= i < scene.building_extensions.len() ==> holds(
                all,
                building_extension_patches(scene.building_extensions[i]),
            )
            &&& 0 <= i < scene.background_buildings.len() ==> holds(
                all,
                background_building_patches(
                    scene.background_buildings[i],
                    looks.backgrounds@[i],
                ),
            )
            &&& 0 <= i < scene.trees.len() ==> holds(
                all,
                tree_patches(scene.trees[i], looks.trees@[i], looks.round),
            )
            &&& 0 <= i < scene.occluders.len() ==> holds(
                all,
                occluder_patches(scene.occluders[i], looks.occluders@[i], looks.round),
            )
            &&& 0 <= i < scene.signs.len() ==> holds(
                all,
                sign_patches(scene.signs[i], looks.signs@[i], looks.round),
            )
        }),
{
    let building = building_patches(
        scene.footprint_width_m,
        scene.footprint_depth_m,
        scene.wall_height_m,
        scene.facade,
        looks.glazing_raised,
    );
    let additions = crate::assembly::extensions_patches(scene.building_extensions);
    let ground = ground_patches(scene.ground_half_extent_m, scene.site, looks);
    let neighbours = crate::assembly::backgrounds_patches(
        scene.background_buildings,
        looks.backgrounds@,
    );
    let plants = crate::assembly::trees_patches(scene.trees, looks.trees@, looks.round);
    let objects = crate::assembly::occluders_patches(
        scene.occluders,
        looks.occluders@,
        looks.round,
    );
    let signs = crate::assembly::signs_patches(scene.signs, looks.signs@, looks.round);
    let a = building + additions;
    let b = a + ground;
    let c = b + neighbours;
    let d = c + plants;
    let e = d + objects;
    lemma_holds_itself(building);
    lemma_holds_left(building, additions, building);
    lemma_later(a, ground, neighbours, plants, objects, signs, building);
    lemma_holds_itself(ground);
    lemma_holds_right(a, ground, ground);
    lemma_holds_left(b, neighbours, ground);
    lemma_holds_left(c, plants, ground);
    lemma_holds_left(d, objects, ground);
    lemma_holds_left(e, signs, ground);
    if 0 <= i < scene.building_extensions.len() {
        let part = building_extension_patches(scene.building_extensions[i]);
        lemma_extensions(scene.building_extensions, scene.building_extensions.len() as int, i);
        lemma_holds_right(building, additions, part);
        lemma_later(a, ground, neighbours, plants, objects, signs, part);
    }
    if 0 <= i < scene.background_buildings.len() {
        let part = background_building_patches(
            scene.background_buildings[i],
            looks.backgrounds@[i],
        );
        lemma_backgrounds(
            scene.background_buildings,
            looks.backgrounds@,
            scene.background_buildings.len() as int,
            i,
        );
        lemma_holds_right(b, neighbours, part);
        lemma_holds_left(c, plants, part);
        lemma_holds_left(d, objects, part);
        lemma_holds_left(e, signs, part);
    }
    if 0 <= i < scene.trees.len() {
        let part = tree_patches(scene.trees[i], looks.trees@[i], looks.round);
        lemma_trees(scene.trees, looks.trees@, looks.round, scene.trees.len() as int, i);
        lemma_holds_right(c, plants, part);
        lemma_holds_left(d, objects, part);
        lemma_holds_left(e, signs, part);
    }
    if 0 <= i < scene.occluders.len() {
        let part = occluder_patches(scene.occluders[i], looks.occluders@[i], looks.round);
        lemma_occluders(
            scene.occluders,
            looks.occluders@,
            looks.round,
            scene.occluders.len() as int,
            i,
        );
        lemma_holds_right(d, objects, part);
        lemma_holds_left(e, signs, part);
    }
    if 0 <= i < scene.signs.len() {
        let part = sign_patches(scene.signs[i], looks.signs@[i], looks.round);
        lemma_signs(scene.signs, looks.signs@, looks.round, scene.signs.len() as int, i);
        lemma_holds_right(e, signs, part);
    }
}

proof fn lemma_later(
    a: Seq<Patch>,
    ground: Seq<Patch>,
    neighbours: Seq<Patch>,
    plants: Seq<Patch>,
    objects: Seq<Patch>,
    signs: Seq<Patch>,
    part: Seq<Patch>,
)
    requires
        holds(a, part),
    ensures
        holds(a + ground + neighbours + plants + objects + signs, part),
{
    lemma_holds_left(a, ground, part);
    lemma_holds_left(a + ground, neighbours, part);
    lemma_holds_left(a + ground + neighbours, plants, part);
    lemma_holds_left(a + ground + neighbours + plants, objects, part);
    lemma_holds_left(a + ground + neighbours + plants + objects, signs, part);
}

proof fn lemma_extensions(items: Seq<BuildingExtensionDescription>, n: int, i: int)
    requires
        0 <= i < n <= items.len(),
    ensures
        holds(extensions_upto(items, n), building_extension_patches(items[i])),
    decreases n,
{
    let part = building_extension_patches(items[i]);
    let last = building_extension_patches(items[n - 1]);
    if i == n - 1 {
        lemma_holds_itself(part);
        lemma_holds_right(extensions_upto(items, n - 1), last, part);
    } else {
        lemma_extensions(items, n - 1, i);
        lemma_holds_left(extensions_upto(items, n - 1), last, part);
    }
}

proof fn lemma_backgrounds(
    items: Seq<BackgroundBuilding>,
    looks: Seq<BackgroundLook>,
    n: int,
    i: int,
)
    requires
        0 <= i < n <= items.len(),
    ensures
        holds(backgrounds_upto(items, looks, n), background_building_patches(items[i], looks[i])),
    decreases n,
{
    let part = background_building_patches(items[i], looks[i]);
    let last = background_building_patches(items[n - 1], looks[n - 1]);
    if i == n - 1 {
        lemma_holds_itself(part);
        lemma_holds_right(backgrounds_upto(items, looks, n - 1), last, part);
    } else {
        lemma_backgrounds(items, looks, n - 1, i);
        lemma_holds_left(backgrounds_upto(items, looks, n - 1), last, part);
    }
}

proof fn lemma_trees(
    items: Seq<TreeInstance>,
    looks: Seq<TreeTurns>,
    round: RoundTurns,
    n: int,
    i: int,
)
    requires
        0 <= i < n <= items.len(),
    ensures
        holds(trees_upto(items, looks, round, n), tree_patches(items[i], looks[i], round)),
    decreases n,
{
    let part = tree_patches(items[i], looks[i], round);
    let last = tree_patches(items[n - 1], looks[n - 1], round);
    if i == n - 1 {
        lemma_holds_itself(part);
        lemma_holds_right(trees_upto(items, looks, round, n - 1), last, part);
    } else {
        lemma_trees(items, looks, round, n - 1, i);
        lemma_holds_left(trees_upto(items, looks, round, n - 1), last, part);
    }
}

proof fn lemma_occluders(
    items: Seq<SceneOccluder>,
    looks: Seq<OccluderTurns>,
    round: RoundTurns,
    n: int,
    i: int,
)
    requires
        0 <= i < n <= items.len(),
    ensures
        holds(occluders_upto(items, looks, round, n), occluder_patches(items[i], looks[i], round)),
    decreases n,
{
    let part = occluder_patches(items[i], looks[i], round);
    let last = occluder_patches(items[n - 1], looks[n - 1], round);
    if i == n - 1 {
        lemma_holds_itself(part);
        lemma_holds_right(occluders_upto(items, looks, round, n - 1), last, part);
    } else {
        lemma_occluders(items, looks, round, n - 1, i);
        lemma_holds_left(occluders_upto(items, looks, round, n - 1), last, part);
    }
}

proof fn lemma_signs(
    items: Seq<SignDescription>,
    looks: Seq<Turn>,
    round: RoundTurns,
    n: int,
    i: int,
)
    requires
        0 <= i < n <= items.len(),
    ensures
        holds(signs_upto(items, looks, round, n), sign_patches(items[i], looks[i], round)),
    decreases n,
{
    let part = sign_patches(items[i], looks[i], round);
    let last = sign_patches(items[n - 1], looks[n - 1], round);
    if i == n - 1 {
        lemma_holds_itself(part);
        lemma_holds_right(signs_upto(items, looks, round, n - 1), last, part);
    } else {
        lemma_signs(items, looks, round, n - 1, i);
        lemma_holds_left(signs_upto(items, looks, round, n - 1), last, part);
    }
}

/// On the ground lie the square of the site, its parking and its road, and each of its poles
/// and cables stands or hangs over it.
pub proof fn sites_are_drawn(g: Single, site: SiteModel, looks: &SceneLooks, i: int)
    ensures
        ({
            let all = ground_patches(g, site, looks);
            &&& holds(all, crate::shapes::quad_patches(ground_corners(g), MaterialSlot::Ground))
            &&& holds(
                all,
                parking_patches(
                    site.parking_bays,
                    site.parking_center,
                    site.parking_bay_size_m,
                    looks.parking,
                    looks.parking_half,
                ),
            )
            &&& holds(
                all,
                road_patches(
                    g,
                    site.road_kind,
                    site.road_lanes,
                    site.lane_width_m,
                    site.road_center_z_m,
                    site.raised_curb,
                ),
            )
            &&& 0 <= i < site.utility_poles.len() ==> holds(
                all,
                utility_pole_patches(site.utility_poles[i], looks.round),
            )
            &&& 0 <= i < site.utility_lines.len() ==> holds(
                all,
                cable_patches(site.utility_lines[i]),
            )
        }),
{
    reveal(ground_patches);
    let plane = crate::shapes::quad_patches(ground_corners(g), MaterialSlot::Ground);
    let parking = parking_patches(
        site.parking_bays,
        site.parking_center,
        site.parking_bay_size_m,
        looks.parking,
        looks.parking_half,
    );
    let road = road_patches(
        g,
        site.road_kind,
        site.road_lanes,
        site.lane_width_m,
        site.road_center_z_m,
        site.raised_curb,
    );
    let poles = crate::assembly::poles_patches(site.utility_poles, looks.round);
    let cables = crate::assembly::cables_patches(site.utility_lines);
    let a = plane + parking;
    let b = a + road;
    let c = b + poles;
    lemma_holds_itself(plane);
    lemma_holds_left(plane, parking, plane);
    lemma_holds_left(a, road, plane);
    lemma_holds_left(b, poles, plane);
    lemma_holds_left(c, cables, plane);
    lemma_holds_itself(parking);
    lemma_holds_right(plane, parking, parking);
    lemma_holds_left(a, road, parking);
    lemma_holds_left(b, poles, parking);
    lemma_holds_left(c, cables, parking);
    lemma_holds_itself(road);
    lemma_holds_right(a, road, road);
    lemma_holds_left(b, poles, road);
    lemma_holds_left(c, cables, road);
    if 0 <= i < site.utility_poles.len() {
        let part = utility_pole_patches(site.utility_poles[i], looks.round);
        lemma_poles(site.utility_poles, looks.round, site.utility_poles.len() as int, i);
        lemma_holds_right(b, poles, part);
        lemma_holds_left(c, cables, part);
    }
    if 0 <= i < site.utility_lines.len() {
        let part = cable_patches(site.utility_lines[i]);
        lemma_cables(site.utility_lines, site.utility_lines.len() as int, i);
        lemma_holds_right(c, cables, part);
    }
}

proof fn lemma_poles(items: Seq<UtilityPoleDescription>, round: RoundTurns, n: int, i: int)
    requires
        0 <= i < n <= items.len(),
    ensures
        holds(poles_upto(items, round, n), utility_pole_patches(items[i], round)),
    decreases n,
{
    let part = utility_pole_patches(items[i], round);
    let last = utility_pole_patches(items[n - 1], round);
    if i == n - 1 {
        lemma_holds_itself(part);
        lemma_holds_right(poles_upto(items, round, n - 1), last, part);
    } else {
        lemma_poles(items, round, n - 1, i);
        lemma_holds_left(poles_upto(items, round, n - 1), last, part);
    }
}

proof fn lemma_cables(items: Seq<UtilityLineDescription>, n: int, i: int)
    requires
        0 <= i < n <= items.len(),
    ensures
        holds(cables_upto(items, n), cable_patches(items[i])),
    decreases n,
{
    let part = cable_patches(items[i]);
    let last = cable_patches(items[n - 1]);
    if i == n - 1 {
        lemma_holds_itself(part);
        lemma_holds_right(cables_upto(items, n - 1), last, part);
    } else {
        lemma_cables(items, n - 1, i);
        lemma_holds_left(cables_upto(items, n - 1), last, part);
    }
}

/// The walls of a building stand on the ground and end at its wall height, all around: in
/// front, to the right, behind and to the left, each half of a footprint from the middle.
/// They look outwards and show how weathered the facade is.
pub proof fn walls_stand_on_the_ground(
    width: Single,
    depth: Single,
    wall_height: Single,
    facade: FacadeDescription,
    raised: [Single; 3],
    i: int,
)
    requires
        width.is_finite(),
        depth.is_finite(),
        0 <= i < 4,
    ensures
        ({
            let walls = building_patches(width, depth, wall_height, facade, raised);
            let c = walls[i]->Quad_corners;
            &&& walls.len() >= 4
            &&& looks_like(
                walls[i],
                MaterialSlot::Wall,
                [Single::zero(), Single::zero(), Single::zero(), facade.weathering],
                SurfacePattern::inherit(),
            )
            &&& c[0][1] == Single::zero() && c[1][1] == Single::zero()
            &&& c[2][1] == wall_height && c[3][1] == wall_height
            &&& c[0][0] == c[3][0] && c[0][2] == c[3][2] && c[1][0] == c[2][0] && c[1][2]
                == c[2][2]
            &&& i == 0 ==> rounds(c[0][2].negated(), depth.value(), 2) && c[1][2] == c[0][2]
                && rounds(c[0][0], width.value(), 2) && c[1][0] == c[0][0].negated()
            &&& i == 1 ==> rounds(c[0][0], width.value(), 2) && c[1][0] == c[0][0] && rounds(
                c[0][2],
                depth.value(),
                2,
            ) && c[1][2] == c[0][2].negated()
            &&& i == 2 ==> rounds(c[0][2], depth.value(), 2) && c[1][2] == c[0][2] && rounds(
                c[1][0],
                width.value(),
                2,
            ) && c[0][0] == c[1][0].negated()
            &&& i == 3 ==> rounds(c[0][0].negated(), width.value(), 2) && c[1][0] == c[0][0]
                && rounds(c[1][2], depth.value(), 2) && c[0][2] == c[1][2].negated()
        }),
{
    reveal(building_patches);
    crate::framing_laws::lemma_half_rounds(width);
    crate::framing_laws::lemma_half_rounds(depth);
    let half = Single::ratio(5, 10);
    negations_change_the_sign(width.times(half));
    negations_change_the_sign(depth.times(half));
    assert(i == 0 || i == 1 || i == 2 || i == 3);
}

/// The ground is a square to both sides of the middle, a little below everything, and looks
/// up.
pub proof fn the_ground_looks_up(g: Single)
    requires
        g.is_finite(),
        g.value() > 0,
    ensures
        turned(ground_corners(g), 1) > 0,
        forall|k: int| 0 <= k < 4 ==> (#[trigger] ground_corners(g)@[k])[1].value() < 0,
        forall|k: int|
            0 <= k < 4 ==> size((#[trigger] ground_corners(g)@[k])[0].value()) == g.value()
                && size(ground_corners(g)@[k][2].value()) == g.value(),
{
    one_is_one();
    negations_change_the_sign(g);
    let y = Single::ratio((-3) as i32, 100);
    literals_round((-3) as i32, 100);
    let u = unit();
    bounded_results_are_finite(y, -3 * u, 100, Single::one());
    results_are_close(y, -3 * u, 100);
    crate::described_laws::lemma_unit_large();
    let a = g.value();
    assert((2 * a) * (2 * a) > 0) by (nonlinear_arith)
        requires
            a > 0,
    ;
    assert((2 * a) * (2 * a) - 0 * (2 * a) > 0) by (nonlinear_arith)
        requires
            a > 0,
    ;
}

/// A band of windows runs along its own wall outside of it, from its sill to its top. A long
/// side has the windows of a long side.
pub proof fn bands_run_along_their_wall(
    width: Single,
    depth: Single,
    sill: Single,
    top: Single,
    facade: FacadeDescription,
    side: BuildingSide,
)
    requires
        crate::camera_laws::is_usual_length(width),
        crate::camera_laws::is_usual_length(depth),
    ensures
        ({
            let c = band_corners(width, depth, sill, top, side);
            &&& c[0][1] == sill && c[1][1] == sill && c[2][1] == top && c[3][1] == top
            &&& side == BuildingSide::Front ==> c[0][2] == c[1][2] && -2 * c[0][2].value()
                >= depth.value()
            &&& side == BuildingSide::Back ==> c[0][2] == c[1][2] && 2 * c[0][2].value()
                >= depth.value()
            &&& side == BuildingSide::Left ==> c[0][0] == c[1][0] && -2 * c[0][0].value()
                >= width.value()
            &&& side == BuildingSide::Right ==> c[0][0] == c[1][0] && 2 * c[0][0].value()
                >= width.value()
        }),
        side == BuildingSide::Front || side == BuildingSide::Back ==> side_window_count(
            facade,
            side,
        ) == facade.long_side_window_count,
        side == BuildingSide::Left || side == BuildingSide::Right ==> side_window_count(
            facade,
            side,
        ) == facade.short_side_window_count,
{
    lemma_outside(width, 65, 1000);
    lemma_outside(depth, 65, 1000);
}

pub(crate) proof fn lemma_outside(wall: Single, num: i32, den: u32)
    requires
        crate::camera_laws::is_usual_length(wall),
        0 <= num <= den,
        den > 0,
    ensures
        ({
            let half = wall.times(Single::ratio(5, 10));
            let gap = Single::ratio(num, den);
            &&& half.is_finite()
            &&& half.plus(gap).is_finite()
            &&& 2 * half.plus(gap).value() >= wall.value()
            &&& half.negated().minus(gap).value() == -half.plus(gap).value()
        }),
{
    one_is_one();
    let gap = Single::ratio(num, den);
    crate::single::fractions_lie_in_the_unit_interval(num, den);
    let a = crate::site_laws::lemma_half(wall);
    crate::site_laws::lemma_scale_fits();
    sums_round(a, gap);
    order_is_value_order(Single::zero(), gap);
    order_is_value_order(gap, Single::one());
    let s = a.value() + gap.value();
    let top = crate::site_laws::lemma_sum_fits(s);
    bounded_results_are_finite(a.plus(gap), s, 1, top);
    let zero = Single::zero();
    neutral_operands(a, zero);
    sums_round(a, zero);
    results_keep_order(a.plus(zero), a.plus(gap), a.value(), s, 1);
    order_is_value_order(a.plus(zero), a.plus(gap));
    negations_change_the_sign(a);
    negations_change_the_sign(gap);
    differences_round(a.negated(), gap);
    crate::site_laws::mirrored(a.negated().minus(gap), a.plus(gap), s);
}

/// The door is in the wall of the entrance: just outside of it, in its middle, as wide and as
/// high as the facade says; its canopy is above it and outside.
pub proof fn doors_are_in_their_wall(width: Single, depth: Single, facade: FacadeDescription)
    requires
        crate::camera_laws::is_usual_length(width),
        crate::camera_laws::is_usual_length(depth),
        facade.entrance_width_m.is_finite(),
        facade.entrance_height_m.is_finite(),
    ensures
        ({
            let c = door_corners(width, depth, facade);
            let canopy = canopy_center(width, depth, facade);
            let side = facade.entrance_side;
            let along = if side == BuildingSide::Front || side == BuildingSide::Back {
                0int
            } else {
                2
            };
            let across = 2 - along;
            &&& c[2][1] == facade.entrance_height_m && c[3][1] == facade.entrance_height_m
            &&& c[0][1] == c[1][1]
            &&& rounds(c@[0]@[along], facade.entrance_width_m.value(), 2) || rounds(
                c@[1]@[along],
                facade.entrance_width_m.value(),
                2,
            )
            &&& c@[0]@[along] == c@[1]@[along].negated() || c@[1]@[along]
                == c@[0]@[along].negated()
            &&& side == BuildingSide::Front ==> -2 * at(c@[0], 2) >= depth.value() && -2 * at(
                canopy,
                2,
            ) >= depth.value()
            &&& side == BuildingSide::Back ==> 2 * at(c@[0], 2) >= depth.value() && 2 * at(
                canopy,
                2,
            ) >= depth.value()
            &&& side == BuildingSide::Left ==> -2 * at(c@[0], 0) >= width.value() && -2 * at(
                canopy,
                0,
            ) >= width.value()
            &&& side == BuildingSide::Right ==> 2 * at(c@[0], 0) >= width.value() && 2 * at(
                canopy,
                0,
            ) >= width.value()
            &&& canopy@[along] == Single::zero()
            &&& facade.entrance_height_m.at_most(canopy[1])
            &&& rounds(
                canopy_size(facade)@[along],
                facade.entrance_width_m.value() + unit(),
                1,
            )
            &&& canopy_size(facade)@[across] == Single::ratio(125, 100)
        }),
{
    one_is_one();
    lemma_outside(width, 35, 1000);
    lemma_outside(depth, 35, 1000);
    lemma_outside(width, 65, 100);
    lemma_outside(depth, 65, 100);
    crate::framing_laws::lemma_half_rounds(facade.entrance_width_m);
    negations_change_the_sign(facade.entrance_width_m.times(Single::ratio(5, 10)));
    crate::single::fractions_lie_in_the_unit_interval(18, 100);
    crate::single::sums_do_not_shrink(facade.entrance_height_m, Single::ratio(18, 100));
    sums_round(facade.entrance_width_m, Single::one());
}

/// A roof of slopes: eaves at the wall height, a ridge or a top at the rise above it.
pub open spec fn slopes_up(patch: Patch, wall_height: Single, top: Single) -> bool {
    match patch {
        Patch::Quad { corners, material, .. } => material == MaterialSlot::Roof && corners[0][1]
            == wall_height && corners[1][1] == wall_height && corners[2][1] == top
            && corners[3][1] == top,
        Patch::Triangle { corners, material } => material == MaterialSlot::Roof && corners[0][1]
            == wall_height && corners[1][1] == wall_height && corners[2][1] == top,
        Patch::Ellipsoid { .. } => false,
    }
}

/// An ordinary roof stands on the walls and rises as far as it was drawn: its eaves are at the
/// wall height and reach half of its width and depth to both sides, and its slopes end at the
/// rise above them, along a ridge for a gable, a shorter one for a hip, at one side for a
/// shed, and at one point for a pyramid.
pub proof fn ordinary_roofs_rise_from_the_walls(
    roof: SampledOrdinaryRoof,
    wall_height: Single,
    i: int,
)
    requires
        roof.eave_width_m.is_finite(),
        roof.eave_depth_m.is_finite(),
        roof.rise_m.is_finite(),
        wall_height.is_finite(),
        roof.family == OrdinaryRoofFamily::Gable || roof.family == OrdinaryRoofFamily::Hip
            || roof.family == OrdinaryRoofFamily::Shed || roof.family
            == OrdinaryRoofFamily::Pyramid,
        0 <= i < 4,
    ensures
        ({
            let slopes = ordinary_roof_patches(roof, wall_height);
            &&& slopes.len() == 4
            &&& exists|top: Single|
                {
                    &&& #[trigger] rounds(top, wall_height.value() + roof.rise_m.value(), 1)
                    &&& slopes_up(slopes[i], wall_height, top)
                }
            &&& roof.family != OrdinaryRoofFamily::Pyramid && i < 2 ==> {
                let c = slopes[i]->Quad_corners;
                &&& slopes[i] is Quad
                &&& i == 0 ==> rounds(c[1][0], roof.eave_width_m.value(), 2) && c[0][0]
                    == c[1][0].negated()
                &&& i == 0 ==> rounds(c[0][2].negated(), roof.eave_depth_m.value(), 2) && c[1][2]
                    == c[0][2]
                &&& i == 1 ==> rounds(c[0][2], roof.eave_depth_m.value(), 2) && c[1][2] == c[0][2]
                &&& roof.family == OrdinaryRoofFamily::Gable ==> c[2][2] == Single::zero()
                    && c[3][2] == Single::zero() && c[2][0] == c[1][0] && c[3][0] == c[0][0]
                &&& roof.family == OrdinaryRoofFamily::Hip ==> c[2][2] == Single::zero()
                    && c[3][2] == Single::zero()
                &&& roof.family == OrdinaryRoofFamily::Shed ==> c[2][2] == c[3][2] && rounds(
                    c[2][2],
                    roof.eave_depth_m.value(),
                    2,
                ) && c[2][0] == c[1][0] && c[3][0] == c[0][0]
            }
            &&& roof.family == OrdinaryRoofFamily::Hip && roof.ridge_length_fraction.is_finite()
                && i == 0 ==> rounds(
                slopes[0]->Quad_corners[2][0],
                slopes[0]->Quad_corners[1][0].value() * roof.ridge_length_fraction.value(),
                unit(),
            )
            &&& roof.family == OrdinaryRoofFamily::Pyramid ==> slopes[i] is Triangle
                && slopes[i]->Triangle_corners[2][0] == Single::zero()
                && slopes[i]->Triangle_corners[2][2] == Single::zero()
        }),
{
    let half = Single::ratio(5, 10);
    crate::framing_laws::lemma_half_rounds(roof.eave_width_m);
    crate::framing_laws::lemma_half_rounds(roof.eave_depth_m);
    let (x, z) = (roof.eave_width_m.times(half), roof.eave_depth_m.times(half));
    negations_change_the_sign(x);
    negations_change_the_sign(z);
    let top = wall_height.plus(roof.rise_m);
    sums_round(wall_height, roof.rise_m);
    assert(rounds(top, wall_height.value() + roof.rise_m.value(), 1));
    bounded_results_are_finite(x, roof.eave_width_m.value(), 2, roof.eave_width_m);
    if roof.ridge_length_fraction.is_finite() {
        products_round(x, roof.ridge_length_fraction);
    }
    let slopes = ordinary_roof_patches(roof, wall_height);
    assert(i == 0 || i == 1 || i == 2 || i == 3);
    assert(slopes_up(slopes[i], wall_height, top));
}

/// A flat roof is a slab of roof on the walls, a mansard has four slopes and a level top at
/// its rise, and a cupola ends in a smaller pyramid above a larger one.
pub proof fn capped_roofs_are_closed(roof: SampledOrdinaryRoof, wall_height: Single)
    requires
        roof.rise_m.is_finite(),
        wall_height.is_finite(),
    ensures
        ({
            let parts = ordinary_roof_patches(roof, wall_height);
            let top = wall_height.plus(roof.rise_m);
            &&& roof.family == OrdinaryRoofFamily::Flat ==> parts
                == crate::shapes::box_tinted_pattern_patches(
                [
                    Single::zero(),
                    wall_height.plus(roof.rise_m.times(Single::ratio(5, 10))),
                    Single::zero(),
                ],
                [roof.eave_width_m, roof.rise_m, roof.eave_depth_m],
                crate::shapes::straight(),
                MaterialSlot::Roof,
                crate::shapes::untinted(),
                SurfacePattern::inherit(),
            )
            &&& rounds(top, wall_height.value() + roof.rise_m.value(), 1)
            &&& roof.family == OrdinaryRoofFamily::Mansard ==> {
                &&& parts.len() == 5
                &&& slopes_up(parts[0], wall_height, top) && slopes_up(parts[1], wall_height, top)
                &&& slopes_up(parts[2], wall_height, top) && slopes_up(parts[3], wall_height, top)
                &&& slopes_up(parts[4], top, top)
            }
            &&& roof.family == OrdinaryRoofFamily::Cupola ==> {
                &&& parts.len() == 14
                &&& slopes_up(parts[0], wall_height, top) && slopes_up(parts[3], wall_height, top)
                &&& slopes_up(
                    parts[10],
                    top.plus(roof.cap_height_m.times(Single::ratio(62, 100))),
                    top.plus(roof.cap_height_m),
                )
                &&& slopes_up(
                    parts[13],
                    top.plus(roof.cap_height_m.times(Single::ratio(62, 100))),
                    top.plus(roof.cap_height_m),
                )
            }
        }),
{
    sums_round(wall_height, roof.rise_m);
}

/// A sign is painted as its style: the brand, a tenant's or the ghost of one. Only a branded
/// one has the brand's artwork, a sign that shines hands on its strength and a ghost how
/// weathered it is, and only a sign on a pole has one.
pub proof fn signs_are_painted_as_their_style(
    sign: SignDescription,
    half: Turn,
    round: RoundTurns,
)
    ensures
        sign_material(sign.style) == MaterialSlot::Sign <==> sign.style == SignStyle::PizzaHut,
        sign_material(sign.style) == MaterialSlot::TenantSign <==> sign.style == SignStyle::Tenant,
        sign_material(sign.style) == MaterialSlot::GhostSign <==> sign.style
            == SignStyle::RemovedGhost || sign.style == SignStyle::Blank,
        sign_pattern(sign.style) == SurfacePattern::pizza_hut_sign() <==> sign.style
            == SignStyle::PizzaHut,
        sign.style == SignStyle::PizzaHut || sign.style == SignStyle::Tenant ==> sign_appearance(
            sign,
        )[3] == sign.emissive_strength,
        sign.style == SignStyle::RemovedGhost || sign.style == SignStyle::Blank
            ==> sign_appearance(sign) == [
            Single::zero(),
            Single::zero(),
            Single::zero(),
            sign.weathering,
        ],
        sign.mount != SignMount::Pole ==> sign_patches(sign, half, round).len() == 6,
        sign.mount == SignMount::Pole ==> sign_patches(sign, half, round).len() == 14,
        looks_like(
            sign_patches(sign, half, round)[0],
            sign_material(sign.style),
            sign_appearance(sign),
            sign_pattern(sign.style),
        ),
        sign_patches(sign, half, round)[0]->Quad_corners[0] == crate::shapes::placed(
            half,
            sign.center,
            crate::shapes::box_face(
                [sign.size[0], sign.size[1], crate::assembly::sign_depth(sign.mount)],
                0,
            )[0],
        ),
{
}

/// Brands are red and tenants blue: in an unweathered sign, the first channel is the strongest
/// for the brand and the last for a tenant.
pub proof fn sign_colours_tell_styles_apart(sign: SignDescription)
    requires
        sign.weathering.is_finite(),
        sign.weathering.value() == 0,
    ensures
        sign.style == SignStyle::PizzaHut ==> sign_appearance(sign)[1].less(
            sign_appearance(sign)[0],
        ) && sign_appearance(sign)[2].less(sign_appearance(sign)[1]),
        sign.style == SignStyle::Tenant ==> sign_appearance(sign)[1].less(
            sign_appearance(sign)[2],
        ) && sign_appearance(sign)[0].less(sign_appearance(sign)[1]),
{
    one_is_one();
    crate::single::fractions_lie_in_the_unit_interval(55, 100);
    crate::single::fractions_lie_in_the_unit_interval(45, 100);
    neutral_operands(Single::ratio(55, 100), sign.weathering);
    neutral_operands(Single::ratio(45, 100), sign.weathering);
    let one = Single::one();
    neutral_operands(one, sign.weathering.times(Single::ratio(55, 100)));
    neutral_operands(one, sign.weathering.times(Single::ratio(45, 100)));
    crate::bounds::ratios_are_finite(78, 100);
    crate::bounds::ratios_are_finite(25, 1000);
    crate::bounds::ratios_are_finite(18, 1000);
    crate::bounds::ratios_are_finite(35, 1000);
    crate::bounds::ratios_are_finite(22, 100);
    crate::bounds::ratios_are_finite(42, 100);
    neutral_operands(Single::ratio(78, 100), Single::zero());
    neutral_operands(Single::ratio(25, 1000), Single::zero());
    neutral_operands(Single::ratio(18, 1000), Single::zero());
    neutral_operands(Single::ratio(35, 1000), Single::zero());
    neutral_operands(Single::ratio(22, 100), Single::zero());
    neutral_operands(Single::ratio(42, 100), Single::zero());
    crate::bounds::ratios_stay_apart(25, 1000, 78, 100);
    crate::bounds::ratios_stay_apart(18, 1000, 25, 1000);
    crate::bounds::ratios_stay_apart(22, 100, 42, 100);
    crate::bounds::ratios_stay_apart(35, 1000, 22, 100);
}

/// The roof of a lean-to is higher where it meets the building: on the inner side of its
/// facade, along its whole width.
pub proof fn sheds_lean_on_the_building(
    facade: BuildingSide,
    outer: Single,
    inner: Single,
    other: bool,
)
    ensures
        facade == BuildingSide::Front ==> shed_height(facade, outer, inner, other, true) == inner
            && shed_height(facade, outer, inner, other, false) == outer,
        facade == BuildingSide::Back ==> shed_height(facade, outer, inner, other, false) == inner
            && shed_height(facade, outer, inner, other, true) == outer,
        facade == BuildingSide::Right ==> shed_height(facade, outer, inner, false, other) == inner
            && shed_height(facade, outer, inner, true, other) == outer,
        facade == BuildingSide::Left ==> shed_height(facade, outer, inner, true, other) == inner
            && shed_height(facade, outer, inner, false, other) == outer,
{
}

/// An addition is a box of wall of its size that stands where it was put, under its roof, with
/// glass unless it is a service annex.
pub proof fn additions_are_built(extension: BuildingExtensionDescription)
    ensures
        ({
            let parts = building_extension_patches(extension);
            let flat = extension.roof == BuildingExtensionRoof::Flat;
            let glass = extension.kind != BuildingExtensionKind::ServiceAnnex;
            &&& parts.take(6) == crate::shapes::box_patches(
                [
                    extension.position[0],
                    extension.size[1].times(Single::ratio(5, 10)),
                    extension.position[2],
                ],
                extension.size,
                crate::shapes::straight(),
                MaterialSlot::Wall,
            )
            &&& parts.len() == 6 + (if flat {
                6int
            } else {
                1
            }) + (if glass {
                1int
            } else {
                0
            })
            &&& parts[6] matches Patch::Quad { material, .. } && material == MaterialSlot::Roof
            &&& glass ==> (parts.last() matches Patch::Quad { material, .. } && material
                == MaterialSlot::Glass)
        }),
{
    let parts = building_extension_patches(extension);
    assert(parts.take(6) =~= crate::shapes::box_patches(
        [
            extension.position[0],
            extension.size[1].times(Single::ratio(5, 10)),
            extension.position[2],
        ],
        extension.size,
        crate::shapes::straight(),
        MaterialSlot::Wall,
    ));
}

proof fn lemma_marking_count(
    bays: u32,
    center: [Single; 3],
    bay: [Single; 2],
    turn: Turn,
    half: Turn,
    n: int,
)
    requires
        n >= 0,
    ensures
        bay_markings_upto(bays, center, bay, turn, half, n).len() == 6 * n,
    decreases n,
{
    if n > 0 {
        lemma_marking_count(bays, center, bay, turn, half, n - 1);
    }
}

/// A row of parking bays is a sheet of asphalt with one line more than there are bays, and no
/// bays need no asphalt.
pub proof fn bays_have_lines_between_them(
    bays: u32,
    center: [Single; 3],
    bay: [Single; 2],
    turn: Turn,
    half: Turn,
)
    ensures
        bays == 0 ==> parking_patches(bays, center, bay, turn, half).len() == 0,
        bays > 0 ==> parking_patches(bays, center, bay, turn, half).len() == 6 + 6 * (bays + 1)
            && (parking_patches(bays, center, bay, turn, half)[0] matches Patch::Quad {
            material,
            ..
        } && material == MaterialSlot::Asphalt),
{
    lemma_marking_count(bays, center, bay, turn, half, bays as int + 1);
}

/// Wide roads have a line between all lanes, small ones only in the middle.
pub proof fn small_roads_have_one_line(kind: SiteRoadKind, lane: u32, lanes: u32)
    ensures
        kind == SiteRoadKind::UrbanArterial || kind == SiteRoadKind::HighwayFrontage
            ==> boundary_drawn(kind, lane, lanes),
        kind == SiteRoadKind::LocalStreet || kind == SiteRoadKind::RuralRoad ==> (boundary_drawn(
            kind,
            lane,
            lanes,
        ) <==> 2 * lane == lanes),
{
}

/// A cable sags: its middle is over the middle between its ends, lower by its sag, and both
/// halves meet there.
pub proof fn cables_sag(line: UtilityLineDescription)
    requires
        is_point(line.start),
        is_point(line.end),
        line.sag_m.is_finite(),
        line.sag_m.value() >= 0,
        line.start[1].plus(line.end[1]).is_finite(),
        line.start[0].plus(line.end[0]).is_finite(),
    ensures
        ({
            let middle = cable_middle(line);
            &&& exists|sum: Single, mean: Single|
                {
                    &&& #[trigger] rounds(sum, at(line.start, 1) + at(line.end, 1), 1)
                    &&& #[trigger] rounds(mean, sum.value(), 2)
                    &&& mean.is_finite()
                    &&& rounds(middle[1], mean.value() - line.sag_m.value(), 1)
                    &&& middle[1].at_most(mean)
                }
            &&& exists|sum: Single| #[trigger]
                rounds(sum, at(line.start, 0) + at(line.end, 0), 1) && rounds(
                    middle[0],
                    sum.value(),
                    2,
                )
            &&& cable_patches(line) == crate::shapes::beam_patches(
                line.start,
                middle,
                Single::ratio(25, 1000),
                MaterialSlot::Metal,
            ) + crate::shapes::beam_patches(
                middle,
                line.end,
                Single::ratio(25, 1000),
                MaterialSlot::Metal,
            )
        }),
{
    one_is_one();
    let middle = cable_middle(line);
    let half = Single::ratio(5, 10);
    let sum = line.start[1].plus(line.end[1]);
    sums_round(line.start[1], line.end[1]);
    crate::framing_laws::lemma_half_rounds(sum);
    let mean = sum.times(half);
    bounded_results_are_finite(mean, sum.value(), 2, sum);
    differences_round(mean, line.sag_m);
    let zero = Single::zero();
    neutral_operands(mean, zero);
    differences_round(mean, zero);
    results_keep_order(
        middle[1],
        mean.minus(zero),
        mean.value() - line.sag_m.value(),
        mean.value(),
        1,
    );
    order_is_value_order(mean.minus(zero), mean);
    assert(rounds(sum, at(line.start, 1) + at(line.end, 1), 1));
    assert(rounds(mean, sum.value(), 2));
    let across = line.start[0].plus(line.end[0]);
    sums_round(line.start[0], line.end[0]);
    crate::framing_laws::lemma_half_rounds(across);
    assert(rounds(across, at(line.start, 0) + at(line.end, 0), 1));
}

/// A pole is as high as it is and stands where it was put; one with a light is of metal and
/// has an arm and a lamp, one without is of wood and has a cross arm.
pub proof fn poles_are_built(pole: UtilityPoleDescription, round: RoundTurns)
    ensures
        ({
            let parts = utility_pole_patches(pole, round);
            let shaft = parts[0]->Quad_corners;
            &&& parts.len() == (if pole.has_light {
                20int
            } else {
                14
            })
            &&& looks_like(
                parts[0],
                if pole.has_light {
                    MaterialSlot::Metal
                } else {
                    MaterialSlot::Trunk
                },
                crate::shapes::untinted(),
                SurfacePattern::inherit(),
            )
            &&& shaft[0][1] == pole.position[1]
            &&& shaft[2][1] == pole.position[1].plus(pole.height_m)
        }),
{
}

/// A plant has a trunk unless it is a shrub, higher for a palm, and the crown of its kind.
pub proof fn plants_have_their_crown(tree: TreeInstance, turns: TreeTurns, round: RoundTurns)
    ensures
        ({
            let parts = tree_patches(tree, turns, round);
            &&& tree.kind == TreeKind::Deciduous ==> parts.len() == 8 + 5
            &&& tree.kind == TreeKind::Evergreen ==> parts.len() == 8 + 3
            &&& tree.kind == TreeKind::Palm ==> parts.len() == 8 + 1 + 36
            &&& tree.kind == TreeKind::Shrub ==> parts.len() == 3
            &&& tree.kind != TreeKind::Shrub ==> looks_like(
                parts[0],
                MaterialSlot::Trunk,
                crate::shapes::untinted(),
                SurfacePattern::inherit(),
            ) && parts[0]->Quad_corners[0][1] == tree.position[1]
            &&& parts.last() matches Patch::Ellipsoid { material, appearance, .. } ==> material
                == MaterialSlot::Foliage && appearance == foliage_tint(tree.seasonal_variation)
        }),
        trunk_fraction(TreeKind::Deciduous).less(trunk_fraction(TreeKind::Palm)),
        trunk_fraction(TreeKind::Palm).less(Single::one()),
        trunk_fraction(TreeKind::Evergreen) == trunk_fraction(TreeKind::Deciduous),
{
    crate::bounds::literals_of_whole_numbers(1, 1);
    crate::bounds::ratios_stay_apart(48, 100, 82, 100);
    crate::bounds::ratios_stay_apart(82, 100, 1, 1);
}

/// Foliage is green in mid season: its second channel is the strongest and its last the
/// weakest.
pub proof fn foliage_is_green(seasonal: Single)
    requires
        seasonal.is_finite(),
    ensures
        seasonal.value() == 0 ==> {
            &&& foliage_tint(seasonal)[0].less(foliage_tint(seasonal)[1])
            &&& foliage_tint(seasonal)[2].less(foliage_tint(seasonal)[0])
        },
        foliage_tint(seasonal)[3] == Single::zero(),
{
    one_is_one();
    if seasonal.value() == 0 {
        let zero = Single::zero();
        negations_change_the_sign(seasonal);
        order_is_value_order(seasonal.negated(), zero);
        order_is_value_order(zero, seasonal.negated());
        let down = seasonal.negated().max(zero);
        assert(down.is_finite() && down.value() == 0);
        lemma_channel(45, 1000, down, 16, 100);
        lemma_channel(35, 1000, down, 15, 1000);
        crate::single::fractions_lie_in_the_unit_interval(19, 100);
        crate::single::fractions_lie_in_the_unit_interval(55, 1000);
        crate::single::fractions_lie_in_the_unit_interval(4, 100);
        let base = Single::ratio(19, 100);
        neutral_operands(Single::ratio(55, 1000), seasonal);
        neutral_operands(Single::ratio(4, 100), down);
        neutral_operands(base, seasonal.times(Single::ratio(55, 1000)));
        let up = base.plus(seasonal.times(Single::ratio(55, 1000)));
        neutral_operands(up, down.times(Single::ratio(4, 100)));
        let green = up.minus(down.times(Single::ratio(4, 100)));
        order_is_value_order(green, zero);
        order_is_value_order(Single::one(), green);
        order_is_value_order(zero, base);
        order_is_value_order(base, Single::one());
        crate::bounds::ratios_stay_apart(45, 1000, 19, 100);
        crate::bounds::ratios_stay_apart(35, 1000, 45, 1000);
        crate::single::fractions_lie_in_the_unit_interval(45, 1000);
        crate::single::fractions_lie_in_the_unit_interval(35, 1000);
        order_is_value_order(Single::ratio(45, 1000), base);
        order_is_value_order(Single::ratio(35, 1000), Single::ratio(45, 1000));
        order_is_value_order(foliage_tint(seasonal)[0], foliage_tint(seasonal)[1]);
        order_is_value_order(foliage_tint(seasonal)[2], foliage_tint(seasonal)[0]);
    }
}

proof fn lemma_channel(num: i32, den: u32, nothing: Single, a: i32, b: u32)
    requires
        0 < num <= den,
        0 <= a <= b,
        b > 0,
        den > 0,
        nothing.is_finite(),
        nothing.value() == 0,
    ensures
        ({
            let base = Single::ratio(num, den);
            let more = base.plus(nothing.times(Single::ratio(a, b))).clamp(
                Single::zero(),
                Single::one(),
            );
            let less = base.minus(nothing.times(Single::ratio(a, b))).clamp(
                Single::zero(),
                Single::one(),
            );
            &&& more.is_finite() && more.value() == base.value()
            &&& less.is_finite() && less.value() == base.value()
        }),
{
    one_is_one();
    let base = Single::ratio(num, den);
    crate::single::fractions_lie_in_the_unit_interval(num, den);
    crate::single::fractions_lie_in_the_unit_interval(a, b);
    neutral_operands(Single::ratio(a, b), nothing);
    let none = nothing.times(Single::ratio(a, b));
    neutral_operands(base, none);
    order_is_value_order(Single::zero(), base);
    order_is_value_order(base, Single::one());
    order_is_value_order(base.plus(none), Single::zero());
    order_is_value_order(Single::one(), base.plus(none));
    order_is_value_order(base.minus(none), Single::zero());
    order_is_value_order(Single::one(), base.minus(none));
}

/// An object has the size that it was given, or the usual one of its kind at its scale.
pub proof fn objects_have_their_size(occluder: SceneOccluder, base: [Single; 3], i: int)
    requires
        0 <= i < 3,
        is_point(base),
        occluder.scale.is_finite(),
    ensures
        occluder.is_sized() ==> occluder_size(occluder, base) == occluder.nominal_size_m,
        !occluder.is_sized() ==> rounds(
            occluder_size(occluder, base)@[i],
            at(base, i) * occluder.scale.value(),
            unit(),
        ),
{
    assert(i == 0 || i == 1 || i == 2);
    products_round(base@[i], occluder.scale);
}

/// The first surface of an object is of what the object is made of.
#[verifier::rlimit(60)]
pub proof fn objects_are_made_of_their_material(
    occluder: SceneOccluder,
    turns: OccluderTurns,
    round: RoundTurns,
)
    ensures
        ({
            let parts = occluder_patches(occluder, turns, round);
            let kind = occluder.kind;
            &&& kind == SceneOccluderKind::Vehicle ==> parts.len() == 12 && looks_like(
                parts[6],
                MaterialSlot::Glass,
                crate::shapes::untinted(),
                SurfacePattern::vehicle_glass(),
            )
            &&& kind == SceneOccluderKind::Vehicle || kind == SceneOccluderKind::PoleSign || kind
                == SceneOccluderKind::Hvac || kind == SceneOccluderKind::StreetLight
                ==> looks_like(
                parts[0],
                MaterialSlot::Metal,
                crate::shapes::untinted(),
                SurfacePattern::inherit(),
            )
            &&& kind == SceneOccluderKind::UtilityPole || kind == SceneOccluderKind::Vegetation
                ==> looks_like(
                parts[0],
                MaterialSlot::Trunk,
                crate::shapes::untinted(),
                SurfacePattern::inherit(),
            )
            &&& kind == SceneOccluderKind::Shrub ==> parts.len() == 3 && (
            parts[0] matches Patch::Ellipsoid { material, .. } && material
                == MaterialSlot::Foliage)
            &&& kind == SceneOccluderKind::Pedestrian ==> parts.len() == 9 && looks_like(
                parts[0],
                MaterialSlot::Occluder,
                crate::shapes::untinted(),
                SurfacePattern::inherit(),
            )
            &&& kind == SceneOccluderKind::Building ==> parts.len() == 6 && (
            parts[0] matches Patch::Quad { material, pattern, .. } && material
                == MaterialSlot::BackgroundWall && pattern == SurfacePattern::background_windows())
            &&& kind == SceneOccluderKind::PoleSign ==> parts.len() == 14 && looks_like(
                parts[8],
                MaterialSlot::Sign,
                crate::shapes::untinted(),
                SurfacePattern::generic_sign(),
            )
        }),
{
}

/// A neighbour is a box of its wall in its tint and treatment, and what its kind has on top: a
/// plant room on a tall one, a pitched roof on a house, a wider sheet on a shed and nothing on
/// a shop.
pub proof fn neighbours_are_built(building: BackgroundBuilding, look: BackgroundLook)
    ensures
        ({
            let parts = background_building_patches(building, look);
            let tint = crate::assembly::background_tint(building, look.raised);
            &&& looks_like(parts[0], MaterialSlot::BackgroundWall, tint, building.surface_pattern)
            &&& building.kind == BackgroundBuildingKind::LowCommercial ==> parts.len() == 6
            &&& building.kind == BackgroundBuildingKind::MidriseMixedUse ==> parts.len() == 12
            &&& building.kind == BackgroundBuildingKind::IndustrialShed ==> parts.len() == 12
            &&& building.kind == BackgroundBuildingKind::Residential ==> parts.len() == 8
            &&& building.kind != BackgroundBuildingKind::LowCommercial ==> (
            parts[6] matches Patch::Quad { material, .. } && material == MaterialSlot::Metal)
            &&& tint[3] == building.roughness
        }),
{
}

/// A weathered wall moves towards grey and a clean one keeps its colour.
pub proof fn walls_weather_to_grey(channel: Single, weathering: Single)
    requires
        crate::camera_laws::is_share(channel),
        crate::camera_laws::is_share(weathering),
    ensures
        weathering.value() == 0 ==> weathered_channel(channel, weathering).equals(channel),
        channel.value() <= Single::ratio(48, 100).value() ==> channel.at_most(
            weathered_channel(channel, weathering),
        ),
        channel.value() >= Single::ratio(48, 100).value() ==> weathered_channel(
            channel,
            weathering,
        ).at_most(channel),
{
    one_is_one();
    let grey = Single::ratio(48, 100);
    let share = Single::ratio(28, 100);
    let u = unit();
    let zero = Single::zero();
    crate::single::fractions_lie_in_the_unit_interval(48, 100);
    crate::single::fractions_lie_in_the_unit_interval(28, 100);
    order_is_value_order(zero, grey);
    order_is_value_order(grey, Single::one());
    order_is_value_order(zero, share);
    order_is_value_order(share, Single::one());
    let gap = grey.minus(channel);
    differences_round(grey, channel);
    let g = grey.value() - channel.value();
    bounded_results_are_finite(gap, g, 1, Single::one());
    results_are_close(gap, g, 1);
    crate::camera_laws::lemma_progressed(gap, zero, weathering);
    neutral_operands(gap, zero);
    let faded = gap.times(weathering);
    crate::camera_laws::lemma_progressed(faded, zero, share);
    neutral_operands(faded, zero);
    let moved = faded.times(share);
    sums_round(channel, moved);
    sums_round(channel, zero);
    neutral_operands(channel, zero);
    order_is_value_order(channel.plus(zero), channel);
    let (c, m) = (channel.value(), moved.value());
    if weathering.value() == 0 {
        neutral_operands(gap, weathering);
        neutral_operands(share, faded);
        neutral_operands(channel, moved);
        order_is_value_order(channel.plus(moved), channel);
    }
    if g >= 0 {
        results_keep_order(channel.plus(zero), channel.plus(moved), c, c + m, 1);
    }
    if g <= 0 {
        results_keep_order(channel.plus(moved), channel.plus(zero), c + m, c, 1);
    }
}

} // verus!
