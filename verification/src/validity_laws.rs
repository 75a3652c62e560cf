//! What a valid scene, camera or frame promises.

use crate::check_frame::{bounds_rules, sound_intrinsics};
use crate::check_laws::{is_some_size, lies_between, numbers_are_judged_by_their_value};
use crate::check_sequence::{
    beyond_ground, camera_motion_rules, consistent_zoom, sound_fov, sound_motion,
};
use crate::mesh::{
    ellipsoid_position, patch_vertex, quad_coord, quad_normal, sphere_point, triangle_normal,
};
use crate::patch::Patch;
use crate::plan::{CameraMotionPlan, ZoomBehavior};
use crate::record::{CameraIntrinsics, NormalizedBoundingBox};
use crate::report::kept;
use crate::rounding::{
    bounded_results_are_finite, differences_round, exact_results_are_kept, literals_round,
    neutral_operands, one_is_one, products_round, results_are_close, results_keep_order, rounds,
    size, small_literals, sums_round, whole_literals,
};
use crate::scene::{
    is_share, is_size, sound_shell, BackgroundBuilding, BuildingExtensionDescription,
    BuildingExtensionRoof, FacadeDescription, RenderEnvironment, SceneLight, SceneModel,
    SceneOccluder, SignDescription, TreeInstance, UtilityLineDescription, UtilityPoleDescription,
};
use crate::shape_laws::is_point;
use crate::shapes::{cross, length_recip, offset, RoundTurns};
use crate::single::{order_is_value_order, Single};
use crate::types::Vec3;
use crate::whole::unit;
use vstd::prelude::*;

verus! {

/// A share is a number between none and all, and a size one above nothing.
pub proof fn shares_and_sizes(x: Single)
    ensures
        is_share(x) <==> lies_between(x, 0, unit()),
        is_size(x) <==> is_some_size(x),
{
    one_is_one();
    if x.is_finite() {
        order_is_value_order(Single::zero(), x);
        order_is_value_order(x, Single::one());
        order_is_value_order(x, Single::zero());
    }
}

/// Three numbers that are known and larger than nothing.
pub open spec fn is_extent(v: [Single; 3]) -> bool {
    is_some_size(v[0]) && is_some_size(v[1]) && is_some_size(v[2])
}

/// Three numbers that are known and not negative.
pub open spec fn is_light(v: [Single; 3]) -> bool {
    &&& v[0].is_finite() && v[0].value() >= 0
    &&& v[1].is_finite() && v[1].value() >= 0
    &&& v[2].is_finite() && v[2].value() >= 0
}

proof fn lemma_triple(v: [Single; 3])
    ensures
        crate::scene::all_finite(v) && !crate::scene::some_vanish(v) <==> is_extent(v),
        crate::scene::all_finite(v) && !crate::scene::some_negative(v) <==> is_light(v),
        crate::scene::all_finite(v) <==> is_point(v),
{
    one_is_one();
    if crate::scene::all_finite(v) {
        order_is_value_order(v[0], Single::zero());
        order_is_value_order(v[1], Single::zero());
        order_is_value_order(v[2], Single::zero());
    }
}

/// The weather of a scene is valid where it is possible.
pub proof fn environments_are_valid_where_they_are_possible(own: RenderEnvironment)
    ensures
        own.is_valid() <==> {
            &&& lies_between(own.cloud_cover, 0, unit()) && lies_between(own.haze, 0, unit())
            &&& is_some_size(own.visibility_km)
            &&& own.environment_exposure.is_finite() && own.environment_exposure.value() >= 0
            &&& own.exposure_ev.is_finite() && own.environment_yaw_radians.is_finite()
            &&& lies_between(own.color_temperature_kelvin, 1500 * unit(), 12000 * unit())
            &&& lies_between(own.shadow_softness, 0, unit())
            &&& lies_between(own.ground_wetness, 0, unit())
        },
{
    one_is_one();
    shares_and_sizes(own.cloud_cover);
    shares_and_sizes(own.haze);
    shares_and_sizes(own.shadow_softness);
    shares_and_sizes(own.ground_wetness);
    numbers_are_judged_by_their_value(own.visibility_km);
    numbers_are_judged_by_their_value(own.environment_exposure);
    if own.visibility_km.is_finite() {
        order_is_value_order(Single::zero(), own.visibility_km);
    }
    whole_literals(1500);
    whole_literals(12000);
    if own.color_temperature_kelvin.is_finite() {
        order_is_value_order(Single::ratio(1500, 1), own.color_temperature_kelvin);
        order_is_value_order(own.color_temperature_kelvin, Single::ratio(12000, 1));
    }
}

/// A building to draw has some size and stands on ground that reaches half of its longer side.
pub proof fn shells_are_valid_where_they_fit(w: Single, d: Single, h: Single, g: Single)
    ensures
        sound_shell(w, d, h, g) ==> {
            &&& is_some_size(w) && is_some_size(d) && is_some_size(h) && is_some_size(g)
            &&& exists|x: Single| #[trigger] rounds(x, w.value(), 2) && x.at_most(g)
            &&& exists|x: Single| #[trigger] rounds(x, d.value(), 2) && x.at_most(g)
        },
        is_some_size(w) && is_some_size(d) && is_some_size(h) && is_some_size(g) && w.value()
            <= g.value() && d.value() <= g.value() ==> sound_shell(w, d, h, g),
{
    one_is_one();
    shares_and_sizes(w);
    shares_and_sizes(d);
    shares_and_sizes(h);
    shares_and_sizes(g);
    if is_some_size(w) && is_some_size(d) && is_some_size(g) {
        let half = Single::ratio(5, 10);
        crate::framing_laws::lemma_half_rounds(w);
        crate::framing_laws::lemma_half_rounds(d);
        let (a, b) = (w.times(half), d.times(half));
        bounded_results_are_finite(a, w.value(), 2, w);
        bounded_results_are_finite(b, d.value(), 2, d);
        order_is_value_order(w, d);
        if w.value() <= d.value() {
            results_keep_order(a, b, w.value(), d.value(), 2);
        } else {
            results_keep_order(b, a, d.value(), w.value(), 2);
        }
        order_is_value_order(g, a);
        order_is_value_order(g, b);
        assert(rounds(a, w.value(), 2));
        assert(rounds(b, d.value(), 2));
    }
}

/// A facade to draw has windows and an entrance of some size below the top of its walls.
pub proof fn facades_are_valid_where_they_fit(own: FacadeDescription, wall: Single)
    requires
        wall.is_finite(),
        own.window_sill_height_m.plus(own.window_height_m).is_finite(),
    ensures
        own.is_valid(wall) <==> {
            &&& is_some_size(own.window_sill_height_m) && is_some_size(own.window_height_m)
            &&& is_some_size(own.entrance_width_m) && is_some_size(own.entrance_height_m)
            &&& own.window_sill_height_m.plus(own.window_height_m).value() < wall.value()
            &&& own.entrance_height_m.value() < wall.value()
            &&& own.long_side_window_count > 0 && own.short_side_window_count > 0
            &&& lies_between(own.weathering, 0, unit())
            &&& is_light(own.glazing_color_srgb)
            &&& lies_between(own.glazing_roughness, 0, unit())
            &&& lies_between(own.glazing_weathering, 0, unit())
        },
{
    one_is_one();
    shares_and_sizes(own.window_sill_height_m);
    shares_and_sizes(own.window_height_m);
    shares_and_sizes(own.entrance_width_m);
    shares_and_sizes(own.entrance_height_m);
    shares_and_sizes(own.weathering);
    shares_and_sizes(own.glazing_roughness);
    shares_and_sizes(own.glazing_weathering);
    lemma_triple(own.glazing_color_srgb);
    order_is_value_order(wall, own.window_sill_height_m.plus(own.window_height_m));
    if own.entrance_height_m.is_finite() {
        order_is_value_order(wall, own.entrance_height_m);
    }
}

/// An addition to draw stands on the ground with some size and ends with its roof below the
/// walls; only a lean-to rises.
pub proof fn additions_are_valid_where_they_fit(own: BuildingExtensionDescription, wall: Single)
    requires
        wall.is_finite(),
        own.size[1].plus(own.roof_rise_m).is_finite(),
    ensures
        own.is_valid(wall) <==> {
            &&& is_point(own.position) && own.position[1].value() == 0
            &&& is_extent(own.size)
            &&& own.roof_rise_m.is_finite() && own.roof_rise_m.value() >= 0
            &&& own.size[1].plus(own.roof_rise_m).value() < wall.value()
            &&& own.roof == BuildingExtensionRoof::Flat ==> own.roof_rise_m.value() == 0
            &&& own.roof == BuildingExtensionRoof::Shed ==> own.roof_rise_m.value() > 0
        },
{
    one_is_one();
    lemma_triple(own.position);
    lemma_triple(own.size);
    order_is_value_order(wall, own.size[1].plus(own.roof_rise_m));
    if own.roof_rise_m.is_finite() {
        order_is_value_order(own.roof_rise_m, Single::zero());
        order_is_value_order(Single::zero(), own.roof_rise_m);
    }
    if own.position[1].is_finite() {
        order_is_value_order(own.position[1], Single::zero());
        order_is_value_order(Single::zero(), own.position[1]);
    }
}

/// Signs, neighbours and plants to draw are somewhere, have some size, and look like something.
pub proof fn surroundings_are_valid_where_they_are_possible(
    sign: SignDescription,
    neighbour: BackgroundBuilding,
    plant: TreeInstance,
)
    ensures
        sign.is_valid() <==> {
            &&& is_point(sign.center) && sign.yaw_radians.is_finite()
            &&& is_some_size(sign.size[0]) && is_some_size(sign.size[1])
            &&& sign.emissive_strength.is_finite() && sign.emissive_strength.value() >= 0
            &&& lies_between(sign.weathering, 0, unit())
        },
        neighbour.is_valid() <==> {
            &&& is_point(neighbour.center) && neighbour.yaw_radians.is_finite()
            &&& is_extent(neighbour.size) && is_light(neighbour.base_color_srgb)
            &&& lies_between(neighbour.weathering, 0, unit())
            &&& lies_between(neighbour.roughness, 0, unit())
            &&& neighbour.surface_pattern.is_known()
        },
        plant.is_valid() <==> {
            &&& is_point(plant.position) && plant.yaw_radians.is_finite()
            &&& is_some_size(plant.height_m) && is_some_size(plant.crown_radius_m)
            &&& lies_between(plant.seasonal_variation, -unit(), unit())
        },
{
    one_is_one();
    lemma_triple(sign.center);
    shares_and_sizes(sign.size[0]);
    shares_and_sizes(sign.size[1]);
    shares_and_sizes(sign.weathering);
    if sign.emissive_strength.is_finite() {
        order_is_value_order(sign.emissive_strength, Single::zero());
    }
    lemma_triple(neighbour.center);
    lemma_triple(neighbour.size);
    lemma_triple(neighbour.base_color_srgb);
    shares_and_sizes(neighbour.weathering);
    shares_and_sizes(neighbour.roughness);
    lemma_triple(plant.position);
    shares_and_sizes(plant.height_m);
    shares_and_sizes(plant.crown_radius_m);
    whole_literals((-1) as i32);
    if plant.seasonal_variation.is_finite() {
        order_is_value_order(Single::ratio((-1) as i32, 1), plant.seasonal_variation);
        order_is_value_order(plant.seasonal_variation, Single::one());
    }
}

/// Objects, poles, cables and lights to draw are somewhere and possible: an object has either
/// no size of its own or one in all directions, and a cable hangs between two places.
pub proof fn furniture_is_valid_where_it_is_possible(
    object: SceneOccluder,
    pole: UtilityPoleDescription,
    line: UtilityLineDescription,
    light: SceneLight,
)
    ensures
        object.is_valid() <==> {
            &&& is_point(object.position) && object.yaw_radians.is_finite()
            &&& is_some_size(object.scale)
            &&& is_extent(object.nominal_size_m) || {
                &&& is_point(object.nominal_size_m)
                &&& object.nominal_size_m[0].value() == 0
                &&& object.nominal_size_m[1].value() == 0
                &&& object.nominal_size_m[2].value() == 0
            }
        },
        pole.is_valid() <==> is_point(pole.position) && is_some_size(pole.height_m),
        line.is_valid() <==> {
            &&& is_point(line.start) && is_point(line.end)
            &&& line.sag_m.is_finite() && line.sag_m.value() >= 0
            &&& line.start[0].value() != line.end[0].value() || line.start[1].value()
                != line.end[1].value() || line.start[2].value() != line.end[2].value()
        },
        light.is_valid() <==> {
            &&& is_point(light.position) && is_light(light.color)
            &&& light.intensity.is_finite() && light.intensity.value() >= 0
            &&& is_some_size(light.range_m)
        },
{
    one_is_one();
    lemma_triple(object.position);
    lemma_triple(object.nominal_size_m);
    shares_and_sizes(object.scale);
    if is_point(object.nominal_size_m) {
        order_is_value_order(object.nominal_size_m[0], Single::zero());
        order_is_value_order(object.nominal_size_m[1], Single::zero());
        order_is_value_order(object.nominal_size_m[2], Single::zero());
        order_is_value_order(Single::zero(), object.nominal_size_m[0]);
        order_is_value_order(Single::zero(), object.nominal_size_m[1]);
        order_is_value_order(Single::zero(), object.nominal_size_m[2]);
    }
    lemma_triple(pole.position);
    if pole.height_m.is_finite() {
        order_is_value_order(Single::zero(), pole.height_m);
    }
    lemma_triple(line.start);
    lemma_triple(line.end);
    if line.sag_m.is_finite() {
        order_is_value_order(Single::zero(), line.sag_m);
    }
    if is_point(line.start) && is_point(line.end) {
        order_is_value_order(line.start[0], line.end[0]);
        order_is_value_order(line.start[1], line.end[1]);
        order_is_value_order(line.start[2], line.end[2]);
        order_is_value_order(line.end[0], line.start[0]);
        order_is_value_order(line.end[1], line.start[1]);
        order_is_value_order(line.end[2], line.start[2]);
    }
    lemma_triple(light.position);
    lemma_triple(light.color);
    if light.intensity.is_finite() {
        order_is_value_order(Single::zero(), light.intensity);
    }
    if light.range_m.is_finite() {
        order_is_value_order(Single::zero(), light.range_m);
    }
}

/// Everything in a sound scene is valid, and it has no more than four lights.
pub proof fn sound_scenes_hold_only_valid_things(scene: SceneModel, i: int)
    requires
        scene.sound(),
    ensures
        scene.facade.is_valid(scene.wall_height_m),
        scene.environment.is_valid(),
        0 <= i < scene.building_extensions.len() ==> scene.building_extensions[i].is_valid(
            scene.wall_height_m,
        ),
        0 <= i < scene.signs.len() ==> scene.signs[i].is_valid(),
        0 <= i < scene.background_buildings.len() ==> scene.background_buildings[i].is_valid(),
        0 <= i < scene.trees.len() ==> scene.trees[i].is_valid(),
        0 <= i < scene.occluders.len() ==> scene.occluders[i].is_valid(),
        0 <= i < scene.lights.len() ==> scene.lights[i].is_valid(),
        0 <= i < scene.site.utility_poles.len() ==> scene.site.utility_poles[i].is_valid(),
        0 <= i < scene.site.utility_lines.len() ==> scene.site.utility_lines[i].is_valid(),
        scene.site.road_lanes > 0,
        scene.lights.len() <= 4,
{
}

/// A lens has between one and less than 179 degrees, and a camera's motion is sound where its
/// aim is known, its lenses are possible, and its hand sways by half a metre at most.
pub proof fn motions_are_sound_where_they_are_possible(motion: CameraMotionPlan, degrees: Single)
    ensures
        sound_fov(degrees) <==> degrees.is_finite() && unit() <= degrees.value() < 179 * unit(),
        sound_motion(motion) <==> {
            &&& motion.target_center.is_finite() && motion.framing_offset.is_finite()
            &&& motion.target_width_fraction_goal.is_finite()
            &&& Single::ratio(1, 10).value() <= motion.target_width_fraction_goal.value()
            &&& 2 * motion.target_width_fraction_goal.value() <= 3 * unit()
            &&& sound_fov(motion.start_horizontal_fov_degrees)
            &&& sound_fov(motion.end_horizontal_fov_degrees)
            &&& motion.handheld_sway_m.is_finite()
            &&& 0 <= 2 * motion.handheld_sway_m.value() <= unit()
        },
{
    one_is_one();
    small_literals();
    whole_literals(179);
    if degrees.is_finite() {
        order_is_value_order(Single::one(), degrees);
        order_is_value_order(degrees, Single::ratio(179, 1));
    }
    crate::bounds::ratios_are_finite(1, 10);
    lemma_three_halves();
    let goal = motion.target_width_fraction_goal;
    if goal.is_finite() {
        order_is_value_order(Single::ratio(1, 10), goal);
        order_is_value_order(goal, Single::ratio(15, 10));
    }
    let sway = motion.handheld_sway_m;
    if sway.is_finite() {
        order_is_value_order(Single::zero(), sway);
        order_is_value_order(sway, Single::ratio(5, 10));
    }
}

pub(crate) proof fn lemma_three_halves()
    ensures
        Single::ratio(15, 10).is_finite(),
        2 * Single::ratio(15, 10).value() == 3 * unit(),
{
    one_is_one();
    vstd::arithmetic::power2::lemma2_to64();
    vstd::arithmetic::power2::lemma_pow2_adds(1, 148);
    let u = unit();
    let code = crate::bounds::lemma_representable(3, 148);
    let own = Single { bits: code as u32 };
    assert(own.is_finite() && own.value() == 3 * vstd::arithmetic::power2::pow2(148));
    literals_round(15, 10);
    exact_results_are_kept(Single::ratio(15, 10), 15 * u, 10, own);
}

/// A zoom in narrows the lens, a zoom out widens it, and a fixed one changes it by less than a
/// tenth of a degree.
pub proof fn zooms_agree_with_the_lenses(motion: CameraMotionPlan)
    requires
        motion.start_horizontal_fov_degrees.is_finite(),
        motion.end_horizontal_fov_degrees.is_finite(),
        motion.start_horizontal_fov_degrees.minus(motion.end_horizontal_fov_degrees).is_finite(),
    ensures
        ({
            let (start, end) = (
                motion.start_horizontal_fov_degrees,
                motion.end_horizontal_fov_degrees,
            );
            consistent_zoom(motion) <==> {
                &&& motion.zoom_behavior == ZoomBehavior::SmoothIn ==> end.value() < start.value()
                &&& motion.zoom_behavior == ZoomBehavior::SmoothOut ==> start.value() < end.value()
                &&& motion.zoom_behavior == ZoomBehavior::Fixed ==> size(start.minus(end).value())
                    < Single::ratio(1, 10).value()
            }
        }),
        kept(camera_motion_rules(Seq::empty(), motion)) <==> sound_motion(motion)
            && consistent_zoom(motion),
{
    broadcast use crate::report::group_kept;

    let (start, end) = (motion.start_horizontal_fov_degrees, motion.end_horizontal_fov_degrees);
    crate::bounds::ratios_are_finite(1, 10);
    crate::geometry_laws::lemma_abs(start.minus(end));
    order_is_value_order(start.minus(end).abs(), Single::ratio(1, 10));
    order_is_value_order(end, start);
    order_is_value_order(start, end);
}

/// A camera is beyond the ground to whichever side it leaves it, and one that is further away
/// is too. One that stays the margin inside of its edge is not.
pub proof fn grounds_end_all_around(position: Vec3, other: Vec3, g: Single)
    requires
        position.is_finite(),
        g.is_finite(),
        g.minus(crate::geometry::ground_edge_margin_m()).is_finite(),
    ensures
        beyond_ground(position, g) == beyond_ground(
            Vec3::new(position.x.negated(), other.y, position.z.negated()),
            g,
        ),
        beyond_ground(position, g) == beyond_ground(
            Vec3::new(position.z, other.y, position.x),
            g,
        ),
        beyond_ground(position, g) && position.x.abs().at_most(other.x.abs())
            && position.z.abs().at_most(other.z.abs()) ==> beyond_ground(other, g),
        position.x.abs().at_most(g.minus(crate::geometry::ground_edge_margin_m()))
            && position.z.abs().at_most(g.minus(crate::geometry::ground_edge_margin_m()))
            ==> !beyond_ground(position, g),
        beyond_ground(position, g) ==> exists|limit: Single|
            {
                &&& #[trigger] rounds(limit, g.value() - 4 * unit(), 1)
                &&& limit.less(position.x.abs()) || limit.less(position.z.abs())
            },
{
    one_is_one();
    whole_literals(4);
    let margin = crate::geometry::ground_edge_margin_m();
    let limit = g.minus(margin);
    differences_round(g, margin);
    assert(rounds(limit, g.value() - 4 * unit(), 1));
    crate::single::fractions_lie_in_the_unit_interval(1, 1000);
    crate::single::sums_do_not_shrink(limit, Single::ratio(1, 1000));
    crate::geometry_laws::lemma_abs(position.x);
    crate::geometry_laws::lemma_abs(position.z);
}

/// Bounds in an image are accepted where they enclose a part of it.
pub proof fn bounds_enclose_a_part_of_the_image(path: Seq<char>, bounds: NormalizedBoundingBox)
    ensures
        kept(bounds_rules(path, bounds)) <==> {
            &&& lies_between(bounds.min.x, 0, unit()) && lies_between(bounds.min.y, 0, unit())
            &&& lies_between(bounds.max.x, 0, unit()) && lies_between(bounds.max.y, 0, unit())
            &&& bounds.min.x.value() < bounds.max.x.value()
            &&& bounds.min.y.value() < bounds.max.y.value()
        },
{
    broadcast use crate::report::group_kept;

    one_is_one();
    shares_and_sizes(bounds.min.x);
    shares_and_sizes(bounds.min.y);
    shares_and_sizes(bounds.max.x);
    shares_and_sizes(bounds.max.y);
    if bounds.min.x.is_finite() && bounds.max.x.is_finite() {
        order_is_value_order(bounds.max.x, bounds.min.x);
    }
    if bounds.min.y.is_finite() && bounds.max.y.is_finite() {
        order_is_value_order(bounds.max.y, bounds.min.y);
    }
}

/// A calibration is sound where the image has pixels and the lens a focal length.
pub proof fn calibrations_are_sound_where_they_project(own: CameraIntrinsics)
    ensures
        sound_intrinsics(own) <==> {
            &&& own.width > 0 && own.height > 0
            &&& is_some_size(own.fx) && is_some_size(own.fy)
            &&& own.cx.is_finite() && own.cy.is_finite() && own.skew.is_finite()
        },
{
    one_is_one();
    if own.fx.is_finite() {
        order_is_value_order(Single::zero(), own.fx);
    }
    if own.fy.is_finite() {
        order_is_value_order(Single::zero(), own.fy);
    }
}

/// The corners of a quad cover its texture: neighbours differ along one side and opposite
/// corners along both.
pub proof fn corners_cover_the_texture(i: u32)
    requires
        i < 4,
    ensures
        quad_coord(0) == [Single::zero(), Single::zero()],
        quad_coord(2) == [Single::one(), Single::one()],
        quad_coord(i)[0] != quad_coord(((i + 2) % 4) as u32)[0],
        quad_coord(i)[1] != quad_coord(((i + 2) % 4) as u32)[1],
        (quad_coord(i)[0] == quad_coord(((i + 1) % 4) as u32)[0]) != (quad_coord(i)[1]
            == quad_coord(((i + 1) % 4) as u32)[1]),
{
    one_is_one();
    assert(Single::one() != Single::zero());
    assert(i == 0 || i == 1 || i == 2 || i == 3);
}

/// The vertices of a surface are its corners and look as it does.
pub proof fn vertices_are_their_corners(patch: Patch, round: RoundTurns, i: u32)
    requires
        i < 4,
        patch is Triangle ==> i < 3,
    ensures
        patch matches Patch::Quad { corners, material, appearance, pattern } ==> {
            let own = patch_vertex(patch, round, i);
            &&& own.position == corners@[i as int]
            &&& own.material == material && own.appearance == appearance && own.pattern == pattern
            &&& own.normal == patch_vertex(patch, round, 0).normal
        },
        patch matches Patch::Triangle { corners, material } ==> {
            let own = patch_vertex(patch, round, i);
            &&& own.position == corners@[i as int] && own.material == material
            &&& own.normal == patch_vertex(patch, round, 0).normal
        },
{
    assert(i == 0 || i == 1 || i == 2 || i == 3);
}

/// The normal of a surface points along the product of its edges: each of its coordinates has
/// the sign of that of the product, and there is none where the product vanishes.
pub proof fn normals_point_along_the_product(corners: [[Single; 3]; 3], k: int)
    requires
        0 <= k < 3,
    ensures
        ({
            let product = cross(offset(corners[1], corners[0]), offset(corners[2], corners[0]));
            let normal = triangle_normal(corners);
            let factor = length_recip(product);
            let sound = factor.is_finite() && Single::zero().less(factor);
            &&& product@[k].is_finite() && product@[k].value() >= 0 && normal@[k].is_finite()
                ==> normal@[k].value() >= 0
            &&& product@[k].is_finite() && product@[k].value() <= 0 && normal@[k].is_finite()
                ==> normal@[k].value() <= 0
            &&& !sound ==> normal@[k].value() == 0
            &&& sound && product@[k].is_finite() ==> rounds(
                normal@[k],
                product@[k].value() * factor.value(),
                unit(),
            )
        }),
{
    one_is_one();
    assert(k == 0 || k == 1 || k == 2);
    let product = cross(offset(corners[1], corners[0]), offset(corners[2], corners[0]));
    let factor = length_recip(product);
    if factor.is_finite() && Single::zero().less(factor) && product@[k].is_finite() {
        order_is_value_order(Single::zero(), factor);
        products_round(product@[k], factor);
        let (p, f) = (product@[k].value(), factor.value());
        assert((p >= 0 ==> p * f >= 0) && (p <= 0 ==> p * f <= 0)) by (nonlinear_arith)
            requires
                f > 0,
        ;
        if product@[k].times(factor).is_finite() {
            results_are_close(product@[k].times(factor), p * f, unit());
        }
    }
}

/// A quad that is not degenerate has the normal of its first three corners.
pub proof fn quads_have_the_normal_of_their_first_half(corners: [[Single; 3]; 4])
    requires
        ({
            let product = cross(offset(corners[1], corners[0]), offset(corners[2], corners[0]));
            length_recip(product).is_finite() && Single::zero().less(length_recip(product))
        }),
    ensures
        quad_normal(corners) == triangle_normal([corners[0], corners[1], corners[2]]),
{
}

/// A round crown reaches its radius up, down and to all sides: its poles are above and below
/// its middle, whichever way around, and its equator around it.
pub proof fn ellipsoids_reach_their_radii(
    center: [Single; 3],
    radii: [Single; 3],
    ring: crate::geometry::Turn,
    segment: crate::geometry::Turn,
)
    requires
        is_point(center),
        is_point(radii),
        segment.cosine.is_finite(),
        segment.sine.is_finite(),
    ensures
        ring.cosine == Single::one() && ring.sine == Single::zero() ==> {
            let place = ellipsoid_position(center, radii, sphere_point(ring, segment));
            &&& place[0].value() == center[0].value() && place[2].value() == center[2].value()
            &&& rounds(place[1], center[1].value() + radii[1].value(), 1)
        },
        ring.cosine == Single::zero() && ring.sine == Single::one() ==> {
            let place = ellipsoid_position(center, radii, sphere_point(ring, segment));
            &&& place[1].value() == center[1].value()
            &&& segment.cosine == Single::one() && segment.sine == Single::zero() ==> rounds(
                place[0],
                center[0].value() + radii[0].value(),
                1,
            ) && place[2].value() == center[2].value()
            &&& segment.cosine == Single::zero() && segment.sine == Single::one() ==> rounds(
                place[2],
                center[2].value() + radii[2].value(),
                1,
            ) && place[0].value() == center[0].value()
        },
{
    one_is_one();
    let (z, e) = (Single::zero(), Single::one());
    lemma_reach(center[0], radii[0]);
    lemma_reach(center[1], radii[1]);
    lemma_reach(center[2], radii[2]);
    if ring.cosine == e && ring.sine == z {
        neutral_operands(segment.cosine, z);
        neutral_operands(segment.sine, z);
        lemma_none(center[0], radii[0], z.times(segment.cosine));
        lemma_none(center[2], radii[2], z.times(segment.sine));
    }
    if ring.cosine == z && ring.sine == e {
        neutral_operands(segment.cosine, z);
        neutral_operands(segment.sine, z);
        lemma_none(center[1], radii[1], z);
        if segment.sine == z {
            lemma_none(center[2], radii[2], z);
        }
        if segment.cosine == z {
            lemma_none(center[0], radii[0], z);
        }
    }
}

proof fn lemma_reach(center: Single, radius: Single)
    requires
        center.is_finite(),
        radius.is_finite(),
    ensures
        rounds(
            center.plus(Single::one().times(radius)),
            center.value() + radius.value(),
            1,
        ),
{
    one_is_one();
    neutral_operands(radius, Single::zero());
    sums_round(center, radius);
}

proof fn lemma_none(center: Single, radius: Single, none: Single)
    requires
        center.is_finite(),
        radius.is_finite(),
        none.is_finite(),
        none.value() == 0,
    ensures
        center.plus(none.times(radius)).value() == center.value(),
{
    neutral_operands(radius, none);
    neutral_operands(center, none.times(radius));
}

} // verus!
