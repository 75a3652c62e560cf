//! Surface patches of whole scenes.

use crate::geometry::Turn;
use crate::mips::srgb_to_linear;
use crate::patch::Patch;
use crate::plan::{OrdinaryRoofFamily, SampledOrdinaryRoof};
use crate::sample_site::tau;
use crate::scene::{
    BackgroundBuilding, BackgroundBuildingKind, BuildingExtensionDescription,
    BuildingExtensionKind, BuildingExtensionRoof, BuildingSide, FacadeDescription,
    SceneDescription, SceneModel, SceneOccluder, SceneOccluderKind, SignDescription, SignMount,
    SignStyle, SiteModel, SiteRoadKind, TreeInstance, TreeKind, UtilityLineDescription,
    UtilityPoleDescription,
};
use crate::shapes::{
    append_background_box, append_beam, append_box, append_box_tinted, append_box_tinted_pattern,
    append_cylinder, append_ellipsoid_tinted, append_frustum_sides, append_panel_tinted_pattern,
    append_pyramid, append_quad, append_quad_tinted, append_unlabelled_triangle, placed_face,
    rotate_ground_offset, straight, untinted, RoundTurns,
};
use crate::single::Single;
use crate::surface::{MaterialSlot, SurfacePattern};
use vstd::prelude::*;

verus! {

broadcast use crate::patch::group_concat;

/// What the assembly of a neighbour needs beside its description.
#[derive(Clone, Copy, Debug, PartialEq)]
pub struct BackgroundLook {
    /// Turn by half the yaw.
    pub half: Turn,
    /// [`crate::mips::linear_base`] of each [`weathered_channel`] to the power 2.4.
    pub raised: [Single; 3],
}

/// Turns of a plant.
#[derive(Clone, Copy, Debug, PartialEq)]
pub struct TreeTurns {
    /// Turn by the yaw.
    pub turn: Turn,
    /// Turns by [`frond_yaw`].
    pub fronds: [Turn; 6],
    /// Turns by half of [`frond_yaw`], the other way.
    pub frond_halves: [Turn; 6],
}

/// Turns of an object.
#[derive(Clone, Copy, Debug, PartialEq)]
pub struct OccluderTurns {
    /// Turn by half the yaw.
    pub half: Turn,
    /// Turn by the yaw.
    pub turn: Turn,
}

/// What the assembly of a scene needs beside its description.
#[derive(Clone, Debug, PartialEq)]
pub struct SceneLooks {
    /// Turns of round shapes.
    pub round: RoundTurns,
    /// [`crate::mips::linear_base`] of each glazing channel to the power 2.4.
    pub glazing_raised: [Single; 3],
    /// Turn by the yaw of the parking row.
    pub parking: Turn,
    /// Turn by half the yaw of the parking row.
    pub parking_half: Turn,
    /// One for each neighbour.
    pub backgrounds: Vec<BackgroundLook>,
    /// One for each plant.
    pub trees: Vec<TreeTurns>,
    /// One for each object.
    pub occluders: Vec<OccluderTurns>,
    /// Turn by half the yaw of each sign.
    pub signs: Vec<Turn>,
}

impl SceneLooks {
    /// Whether there is one for each object of a scene.
    pub open spec fn cover(&self, scene: SceneModel) -> bool {
        &&& self.backgrounds@.len() == scene.background_buildings.len()
        &&& self.trees@.len() == scene.trees.len()
        &&& self.occluders@.len() == scene.occluders.len()
        &&& self.signs@.len() == scene.signs.len()
    }

    /// Whether there is one for each object of a scene.
    pub fn do_cover(&self, scene: &SceneDescription) -> (r: bool)
        ensures
            r == self.cover(scene@),
    {
        self.backgrounds.len() == scene.background_buildings.len() && self.trees.len()
            == scene.trees.len() && self.occluders.len() == scene.occluders.len()
            && self.signs.len() == scene.signs.len()
    }
}

/// A nonlinear channel of a neighbour after weathering.
pub open spec fn spec_weathered_channel(channel: Single, weathering: Single) -> Single {
    channel.plus(
        Single::ratio(48, 100).minus(channel).times(weathering).times(Single::ratio(28, 100)),
    )
}

/// A nonlinear channel of a neighbour after weathering.
#[verifier::when_used_as_spec(spec_weathered_channel)]
pub fn weathered_channel(channel: Single, weathering: Single) -> (r: Single)
    ensures
        r == spec_weathered_channel(channel, weathering),
{
    channel.plus(
        Single::ratio(48, 100).minus(channel).times(weathering).times(Single::ratio(28, 100)),
    )
}

/// Linear tint and roughness of a neighbour.
pub open spec fn spec_background_tint(
    building: BackgroundBuilding,
    raised: [Single; 3],
) -> [Single; 4] {
    let color = building.base_color_srgb;
    let weathering = building.weathering;
    [
        srgb_to_linear(weathered_channel(color[0], weathering), raised[0]),
        srgb_to_linear(weathered_channel(color[1], weathering), raised[1]),
        srgb_to_linear(weathered_channel(color[2], weathering), raised[2]),
        building.roughness,
    ]
}

/// Linear tint and roughness of a neighbour.
#[verifier::when_used_as_spec(spec_background_tint)]
pub fn background_tint(building: BackgroundBuilding, raised: [Single; 3]) -> (r: [Single; 4])
    ensures
        r == spec_background_tint(building, raised),
{
    let color = building.base_color_srgb;
    let weathering = building.weathering;
    [
        srgb_to_linear(weathered_channel(color[0], weathering), raised[0]),
        srgb_to_linear(weathered_channel(color[1], weathering), raised[1]),
        srgb_to_linear(weathered_channel(color[2], weathering), raised[2]),
        building.roughness,
    ]
}

/// Linear tint and roughness of facade glass.
pub open spec fn spec_facade_glass_appearance(
    facade: FacadeDescription,
    raised: [Single; 3],
) -> [Single; 4] {
    let weathering = facade.glazing_weathering;
    let color = facade.glazing_color_srgb;
    [
        srgb_to_linear(color[0], raised[0]).times(
            Single::one().minus(weathering.times(Single::ratio(32, 100))),
        ),
        srgb_to_linear(color[1], raised[1]).times(
            Single::one().minus(weathering.times(Single::ratio(3, 10))),
        ),
        srgb_to_linear(color[2], raised[2]).times(
            Single::one().minus(weathering.times(Single::ratio(25, 100))),
        ),
        facade.glazing_roughness.plus(weathering.times(Single::ratio(28, 100))).clamp(
            Single::ratio(4, 100),
            Single::one(),
        ),
    ]
}

/// Linear tint and roughness of facade glass.
#[verifier::when_used_as_spec(spec_facade_glass_appearance)]
pub fn facade_glass_appearance(facade: FacadeDescription, raised: [Single; 3]) -> (r: [Single; 4])
    ensures
        r == spec_facade_glass_appearance(facade, raised),
{
    let weathering = facade.glazing_weathering;
    let color = facade.glazing_color_srgb;
    [
        srgb_to_linear(color[0], raised[0]).times(
            Single::one().minus(weathering.times(Single::ratio(32, 100))),
        ),
        srgb_to_linear(color[1], raised[1]).times(
            Single::one().minus(weathering.times(Single::ratio(3, 10))),
        ),
        srgb_to_linear(color[2], raised[2]).times(
            Single::one().minus(weathering.times(Single::ratio(25, 100))),
        ),
        facade.glazing_roughness.plus(weathering.times(Single::ratio(28, 100))).clamp(
            Single::ratio(4, 100),
            Single::one(),
        ),
    ]
}

/// The ordinary roof of a negative scene.
pub open spec fn ordinary_roof_patches(
    roof: SampledOrdinaryRoof,
    wall_height: Single,
) -> Seq<Patch> {
    let x = roof.eave_width_m.times(Single::ratio(5, 10));
    let z = roof.eave_depth_m.times(Single::ratio(5, 10));
    let y = wall_height;
    let top = y.plus(roof.rise_m);
    (match roof.family {
        OrdinaryRoofFamily::Flat => {
            crate::shapes::box_patches([
                Single::zero(),
                y.plus(roof.rise_m.times(Single::ratio(5, 10))),
                Single::zero(),
            ], [roof.eave_width_m, roof.rise_m, roof.eave_depth_m], straight(), MaterialSlot::Roof)
        },
        OrdinaryRoofFamily::Gable => {
            crate::shapes::quad_patches([
                [x.negated(), y, z.negated()],
                [x, y, z.negated()],
                [x, top, Single::zero()],
                [x.negated(), top, Single::zero()],
            ], MaterialSlot::Roof)
                + crate::shapes::quad_patches([
                    [x, y, z],
                    [x.negated(), y, z],
                    [x.negated(), top, Single::zero()],
                    [x, top, Single::zero()],
                ], MaterialSlot::Roof)
                + crate::shapes::unlabelled_triangle_patches([
                    [x.negated(), y, z],
                    [x.negated(), y, z.negated()],
                    [x.negated(), top, Single::zero()],
                ], MaterialSlot::Roof)
                + crate::shapes::unlabelled_triangle_patches([
                    [x, y, z.negated()],
                    [x, y, z],
                    [x, top, Single::zero()],
                ], MaterialSlot::Roof)
        },
        OrdinaryRoofFamily::Hip => {
            let ridge_x = x.times(roof.ridge_length_fraction);
            crate::shapes::quad_patches([
                [x.negated(), y, z.negated()],
                [x, y, z.negated()],
                [ridge_x, top, Single::zero()],
                [ridge_x.negated(), top, Single::zero()],
            ], MaterialSlot::Roof)
                + crate::shapes::quad_patches([
                    [x, y, z],
                    [x.negated(), y, z],
                    [ridge_x.negated(), top, Single::zero()],
                    [ridge_x, top, Single::zero()],
                ], MaterialSlot::Roof)
                + crate::shapes::unlabelled_triangle_patches([
                    [x.negated(), y, z],
                    [x.negated(), y, z.negated()],
                    [ridge_x.negated(), top, Single::zero()],
                ], MaterialSlot::Roof)
                + crate::shapes::unlabelled_triangle_patches([
                    [x, y, z.negated()],
                    [x, y, z],
                    [ridge_x, top, Single::zero()],
                ], MaterialSlot::Roof)
        },
        OrdinaryRoofFamily::Shed => {
            crate::shapes::quad_patches([
                [x.negated(), y, z.negated()],
                [x, y, z.negated()],
                [x, top, z],
                [x.negated(), top, z],
            ], MaterialSlot::Roof)
                + crate::shapes::quad_patches([
                    [x, y, z],
                    [x.negated(), y, z],
                    [x.negated(), top, z],
                    [x, top, z],
                ], MaterialSlot::Roof)
                + crate::shapes::unlabelled_triangle_patches([
                    [x.negated(), y, z],
                    [x.negated(), y, z.negated()],
                    [x.negated(), top, z],
                ], MaterialSlot::Roof)
                + crate::shapes::unlabelled_triangle_patches([
                    [x, y, z.negated()],
                    [x, y, z],
                    [x, top, z],
                ], MaterialSlot::Roof)
        },
        OrdinaryRoofFamily::Mansard => {
            let inset_x = x.times(roof.inset_fraction);
            let inset_z = z.times(roof.inset_fraction);
            crate::shapes::frustum_sides_patches(x, z, y, inset_x, inset_z, top)
                + crate::shapes::quad_patches([
                    [inset_x.negated(), top, inset_z.negated()],
                    [inset_x.negated(), top, inset_z],
                    [inset_x, top, inset_z],
                    [inset_x, top, inset_z.negated()],
                ], MaterialSlot::Roof)
        },
        OrdinaryRoofFamily::Pyramid => {
            crate::shapes::pyramid_patches(x, z, y, top)
        },
        OrdinaryRoofFamily::Cupola => {
            let cupola_x = x.times(
                roof.inset_fraction.clamp(Single::ratio(12, 100), Single::ratio(32, 100)),
            );
            let cupola_z = z.times(
                roof.inset_fraction.clamp(Single::ratio(12, 100), Single::ratio(32, 100)),
            );
            let body_height = roof.cap_height_m.times(Single::ratio(62, 100));
            crate::shapes::pyramid_patches(x, z, y, top)
                + crate::shapes::box_patches([
                    Single::zero(),
                    top.plus(body_height.times(Single::ratio(5, 10))),
                    Single::zero(),
                ], [
                    cupola_x.times(Single::ratio(2, 1)),
                    body_height,
                    cupola_z.times(Single::ratio(2, 1)),
                ], straight(), MaterialSlot::Roof)
                + crate::shapes::pyramid_patches(cupola_x.times(Single::ratio(118, 100)), cupola_z.times(
                    Single::ratio(118, 100),
                ), top.plus(body_height), top.plus(roof.cap_height_m))
        },
    })
}

/// Adds the ordinary roof of a negative scene.
pub fn append_ordinary_roof(out: &mut Vec<Patch>, roof: SampledOrdinaryRoof, wall_height: Single)
    ensures
        final(out)@ == old(out)@ + ordinary_roof_patches(roof, wall_height),
{
    let x = roof.eave_width_m.times(Single::ratio(5, 10));
    let z = roof.eave_depth_m.times(Single::ratio(5, 10));
    let y = wall_height;
    let top = y.plus(roof.rise_m);
    match roof.family {
        OrdinaryRoofFamily::Flat => {
            append_box(out, [
                Single::zero(),
                y.plus(roof.rise_m.times(Single::ratio(5, 10))),
                Single::zero(),
            ], [roof.eave_width_m, roof.rise_m, roof.eave_depth_m], straight(), MaterialSlot::Roof);
        },
        OrdinaryRoofFamily::Gable => {
            append_quad(out, [
                [x.negated(), y, z.negated()],
                [x, y, z.negated()],
                [x, top, Single::zero()],
                [x.negated(), top, Single::zero()],
            ], MaterialSlot::Roof);
            append_quad(out, [
                [x, y, z],
                [x.negated(), y, z],
                [x.negated(), top, Single::zero()],
                [x, top, Single::zero()],
            ], MaterialSlot::Roof);
            append_unlabelled_triangle(out, [
                [x.negated(), y, z],
                [x.negated(), y, z.negated()],
                [x.negated(), top, Single::zero()],
            ], MaterialSlot::Roof);
            append_unlabelled_triangle(out, [
                [x, y, z.negated()],
                [x, y, z],
                [x, top, Single::zero()],
            ], MaterialSlot::Roof);
        },
        OrdinaryRoofFamily::Hip => {
            let ridge_x = x.times(roof.ridge_length_fraction);
            append_quad(out, [
                [x.negated(), y, z.negated()],
                [x, y, z.negated()],
                [ridge_x, top, Single::zero()],
                [ridge_x.negated(), top, Single::zero()],
            ], MaterialSlot::Roof);
            append_quad(out, [
                [x, y, z],
                [x.negated(), y, z],
                [ridge_x.negated(), top, Single::zero()],
                [ridge_x, top, Single::zero()],
            ], MaterialSlot::Roof);
            append_unlabelled_triangle(out, [
                [x.negated(), y, z],
                [x.negated(), y, z.negated()],
                [ridge_x.negated(), top, Single::zero()],
            ], MaterialSlot::Roof);
            append_unlabelled_triangle(out, [
                [x, y, z.negated()],
                [x, y, z],
                [ridge_x, top, Single::zero()],
            ], MaterialSlot::Roof);
        },
        OrdinaryRoofFamily::Shed => {
            append_quad(out, [
                [x.negated(), y, z.negated()],
                [x, y, z.negated()],
                [x, top, z],
                [x.negated(), top, z],
            ], MaterialSlot::Roof);
            append_quad(
                out,
                [[x, y, z], [x.negated(), y, z], [x.negated(), top, z], [x, top, z]],
                MaterialSlot::Roof,
            );
            append_unlabelled_triangle(out, [
                [x.negated(), y, z],
                [x.negated(), y, z.negated()],
                [x.negated(), top, z],
            ], MaterialSlot::Roof);
            append_unlabelled_triangle(
                out,
                [[x, y, z.negated()], [x, y, z], [x, top, z]],
                MaterialSlot::Roof,
            );
        },
        OrdinaryRoofFamily::Mansard => {
            let inset_x = x.times(roof.inset_fraction);
            let inset_z = z.times(roof.inset_fraction);
            append_frustum_sides(out, x, z, y, inset_x, inset_z, top);
            append_quad(out, [
                [inset_x.negated(), top, inset_z.negated()],
                [inset_x.negated(), top, inset_z],
                [inset_x, top, inset_z],
                [inset_x, top, inset_z.negated()],
            ], MaterialSlot::Roof);
        },
        OrdinaryRoofFamily::Pyramid => {
            append_pyramid(out, x, z, y, top);
        },
        OrdinaryRoofFamily::Cupola => {
            let cupola_x = x.times(
                roof.inset_fraction.clamp(Single::ratio(12, 100), Single::ratio(32, 100)),
            );
            let cupola_z = z.times(
                roof.inset_fraction.clamp(Single::ratio(12, 100), Single::ratio(32, 100)),
            );
            let body_height = roof.cap_height_m.times(Single::ratio(62, 100));
            append_pyramid(out, x, z, y, top);
            append_box(out, [
                Single::zero(),
                top.plus(body_height.times(Single::ratio(5, 10))),
                Single::zero(),
            ], [
                cupola_x.times(Single::ratio(2, 1)),
                body_height,
                cupola_z.times(Single::ratio(2, 1)),
            ], straight(), MaterialSlot::Roof);
            append_pyramid(out, cupola_x.times(Single::ratio(118, 100)), cupola_z.times(
                Single::ratio(118, 100),
            ), top.plus(body_height), top.plus(roof.cap_height_m));
        },
    }
}

/// The two slopes of the roof of a neighbour.
pub open spec fn pitched_roof_patches(
    building: BackgroundBuilding,
    wall_height: Single,
    half: Turn,
    tint: [Single; 4],
) -> Seq<Patch> {
    let half_x = building.size[0].times(Single::ratio(5, 10));
    let half_z = building.size[2].times(Single::ratio(5, 10));
    let ridge_y = building.size[1];
    crate::shapes::quad_tinted_patches(placed_face(half, building.center, [
        [half_x.negated(), wall_height, half_z.negated()],
        [half_x, wall_height, half_z.negated()],
        [half_x, ridge_y, Single::zero()],
        [half_x.negated(), ridge_y, Single::zero()],
    ]), MaterialSlot::Metal, tint)
        + crate::shapes::quad_tinted_patches(placed_face(half, building.center, [
            [half_x, wall_height, half_z],
            [half_x.negated(), wall_height, half_z],
            [half_x.negated(), ridge_y, Single::zero()],
            [half_x, ridge_y, Single::zero()],
        ]), MaterialSlot::Metal, tint)
}

/// Adds the two slopes of the roof of a neighbour.
pub fn append_pitched_roof(
    out: &mut Vec<Patch>,
    building: BackgroundBuilding,
    wall_height: Single,
    half: Turn,
    tint: [Single; 4],
)
    ensures
        final(out)@ == old(out)@ + pitched_roof_patches(building, wall_height, half, tint),
{
    let half_x = building.size[0].times(Single::ratio(5, 10));
    let half_z = building.size[2].times(Single::ratio(5, 10));
    let ridge_y = building.size[1];
    append_quad_tinted(out, placed_face(half, building.center, [
        [half_x.negated(), wall_height, half_z.negated()],
        [half_x, wall_height, half_z.negated()],
        [half_x, ridge_y, Single::zero()],
        [half_x.negated(), ridge_y, Single::zero()],
    ]), MaterialSlot::Metal, tint);
    append_quad_tinted(out, placed_face(half, building.center, [
        [half_x, wall_height, half_z],
        [half_x.negated(), wall_height, half_z],
        [half_x.negated(), ridge_y, Single::zero()],
        [half_x, ridge_y, Single::zero()],
    ]), MaterialSlot::Metal, tint);
}

/// The masses of a neighbour.
pub open spec fn background_building_patches(
    building: BackgroundBuilding,
    look: BackgroundLook,
) -> Seq<Patch> {
    let tint = background_tint(building, look.raised);
    let base_center = [
        building.center[0],
        building.center[1].plus(building.size[1].times(Single::ratio(5, 10))),
        building.center[2],
    ];
    (match building.kind {
        BackgroundBuildingKind::LowCommercial => {
            crate::shapes::background_box_patches(
                base_center,
                building.size,
                look.half,
                tint,
                building.surface_pattern,
            )
        },
        BackgroundBuildingKind::MidriseMixedUse => {
            crate::shapes::background_box_patches(
                base_center,
                building.size,
                look.half,
                tint,
                building.surface_pattern,
            )
                + crate::shapes::box_patches([
                    building.center[0],
                    building.center[1].plus(building.size[1]).plus(Single::ratio(35, 100)),
                    building.center[2],
                ], [
                    building.size[0].times(Single::ratio(32, 100)),
                    Single::ratio(7, 10),
                    building.size[2].times(Single::ratio(28, 100)),
                ], look.half, MaterialSlot::Metal)
        },
        BackgroundBuildingKind::Residential => {
            let wall_height = building.size[1].times(Single::ratio(72, 100));
            crate::shapes::background_box_patches([
                building.center[0],
                building.center[1].plus(wall_height.times(Single::ratio(5, 10))),
                building.center[2],
            ], [building.size[0], wall_height, building.size[2]], look.half, tint, building.surface_pattern)
                + pitched_roof_patches(building, wall_height, look.half, tint)
        },
        BackgroundBuildingKind::IndustrialShed => {
            crate::shapes::background_box_patches(
                base_center,
                building.size,
                look.half,
                tint,
                building.surface_pattern,
            )
                + crate::shapes::box_tinted_patches([
                    building.center[0],
                    building.center[1].plus(building.size[1]).plus(Single::ratio(8, 100)),
                    building.center[2],
                ], [
                    building.size[0].plus(Single::ratio(5, 10)),
                    Single::ratio(16, 100),
                    building.size[2].plus(Single::ratio(5, 10)),
                ], look.half, MaterialSlot::Metal, tint)
        },
    })
}

/// Adds the masses of a neighbour.
pub fn append_background_building(
    out: &mut Vec<Patch>,
    building: BackgroundBuilding,
    look: BackgroundLook,
)
    ensures
        final(out)@ == old(out)@ + background_building_patches(building, look),
{
    let tint = background_tint(building, look.raised);
    let base_center = [
        building.center[0],
        building.center[1].plus(building.size[1].times(Single::ratio(5, 10))),
        building.center[2],
    ];
    match building.kind {
        BackgroundBuildingKind::LowCommercial => {
            append_background_box(
                out,
                base_center,
                building.size,
                look.half,
                tint,
                building.surface_pattern,
            );
        },
        BackgroundBuildingKind::MidriseMixedUse => {
            append_background_box(
                out,
                base_center,
                building.size,
                look.half,
                tint,
                building.surface_pattern,
            );
            append_box(out, [
                building.center[0],
                building.center[1].plus(building.size[1]).plus(Single::ratio(35, 100)),
                building.center[2],
            ], [
                building.size[0].times(Single::ratio(32, 100)),
                Single::ratio(7, 10),
                building.size[2].times(Single::ratio(28, 100)),
            ], look.half, MaterialSlot::Metal);
        },
        BackgroundBuildingKind::Residential => {
            let wall_height = building.size[1].times(Single::ratio(72, 100));
            append_background_box(out, [
                building.center[0],
                building.center[1].plus(wall_height.times(Single::ratio(5, 10))),
                building.center[2],
            ], [building.size[0], wall_height, building.size[2]], look.half, tint, building.surface_pattern);
            append_pitched_roof(out, building, wall_height, look.half, tint);
        },
        BackgroundBuildingKind::IndustrialShed => {
            append_background_box(
                out,
                base_center,
                building.size,
                look.half,
                tint,
                building.surface_pattern,
            );
            append_box_tinted(out, [
                building.center[0],
                building.center[1].plus(building.size[1]).plus(Single::ratio(8, 100)),
                building.center[2],
            ], [
                building.size[0].plus(Single::ratio(5, 10)),
                Single::ratio(16, 100),
                building.size[2].plus(Single::ratio(5, 10)),
            ], look.half, MaterialSlot::Metal, tint);
        },
    }
}

/// Height of the shed roof of an addition at a corner.
pub open spec fn spec_shed_height(
    facade: BuildingSide,
    outer: Single,
    inner: Single,
    x_is_max: bool,
    z_is_max: bool,
) -> Single {
    match facade {
        BuildingSide::Front => if z_is_max { inner } else { outer },
        BuildingSide::Back => if z_is_max { outer } else { inner },
        BuildingSide::Right => if x_is_max { outer } else { inner },
        BuildingSide::Left => if x_is_max { inner } else { outer },
    }
}

/// Height of the shed roof of an addition at a corner.
#[verifier::when_used_as_spec(spec_shed_height)]
pub fn shed_height(
    facade: BuildingSide,
    outer: Single,
    inner: Single,
    x_is_max: bool,
    z_is_max: bool,
) -> (r: Single)
    ensures
        r == spec_shed_height(facade, outer, inner, x_is_max, z_is_max),
{
    match facade {
        BuildingSide::Front => if z_is_max { inner } else { outer },
        BuildingSide::Back => if z_is_max { outer } else { inner },
        BuildingSide::Right => if x_is_max { outer } else { inner },
        BuildingSide::Left => if x_is_max { inner } else { outer },
    }
}

/// Corners of the glass of an addition.
pub open spec fn spec_extension_panel(
    facade: BuildingSide,
    min_x: Single,
    max_x: Single,
    min_z: Single,
    max_z: Single,
    sill: Single,
    top: Single,
    inset: Single,
) -> [[Single; 3]; 4] {
    let epsilon = Single::ratio(35, 1000);
    match facade {
        BuildingSide::Front => [
            [max_x.minus(inset), sill, min_z.minus(epsilon)],
            [min_x.plus(inset), sill, min_z.minus(epsilon)],
            [min_x.plus(inset), top, min_z.minus(epsilon)],
            [max_x.minus(inset), top, min_z.minus(epsilon)],
        ],
        BuildingSide::Back => [
            [min_x.plus(inset), sill, max_z.plus(epsilon)],
            [max_x.minus(inset), sill, max_z.plus(epsilon)],
            [max_x.minus(inset), top, max_z.plus(epsilon)],
            [min_x.plus(inset), top, max_z.plus(epsilon)],
        ],
        BuildingSide::Right => [
            [max_x.plus(epsilon), sill, max_z.minus(inset)],
            [max_x.plus(epsilon), sill, min_z.plus(inset)],
            [max_x.plus(epsilon), top, min_z.plus(inset)],
            [max_x.plus(epsilon), top, max_z.minus(inset)],
        ],
        BuildingSide::Left => [
            [min_x.minus(epsilon), sill, min_z.plus(inset)],
            [min_x.minus(epsilon), sill, max_z.minus(inset)],
            [min_x.minus(epsilon), top, max_z.minus(inset)],
            [min_x.minus(epsilon), top, min_z.plus(inset)],
        ],
    }
}

/// Corners of the glass of an addition.
#[verifier::when_used_as_spec(spec_extension_panel)]
pub fn extension_panel(
    facade: BuildingSide,
    min_x: Single,
    max_x: Single,
    min_z: Single,
    max_z: Single,
    sill: Single,
    top: Single,
    inset: Single,
) -> (r: [[Single; 3]; 4])
    ensures
        r == spec_extension_panel(facade, min_x, max_x, min_z, max_z, sill, top, inset),
{
    let epsilon = Single::ratio(35, 1000);
    match facade {
        BuildingSide::Front => [
            [max_x.minus(inset), sill, min_z.minus(epsilon)],
            [min_x.plus(inset), sill, min_z.minus(epsilon)],
            [min_x.plus(inset), top, min_z.minus(epsilon)],
            [max_x.minus(inset), top, min_z.minus(epsilon)],
        ],
        BuildingSide::Back => [
            [min_x.plus(inset), sill, max_z.plus(epsilon)],
            [max_x.minus(inset), sill, max_z.plus(epsilon)],
            [max_x.minus(inset), top, max_z.plus(epsilon)],
            [min_x.plus(inset), top, max_z.plus(epsilon)],
        ],
        BuildingSide::Right => [
            [max_x.plus(epsilon), sill, max_z.minus(inset)],
            [max_x.plus(epsilon), sill, min_z.plus(inset)],
            [max_x.plus(epsilon), top, min_z.plus(inset)],
            [max_x.plus(epsilon), top, max_z.minus(inset)],
        ],
        BuildingSide::Left => [
            [min_x.minus(epsilon), sill, min_z.plus(inset)],
            [min_x.minus(epsilon), sill, max_z.minus(inset)],
            [min_x.minus(epsilon), top, max_z.minus(inset)],
            [min_x.minus(epsilon), top, min_z.plus(inset)],
        ],
    }
}

/// Bottom of the glass of an addition of a kind.
pub open spec fn spec_extension_sill(kind: BuildingExtensionKind) -> Single {
    if kind == BuildingExtensionKind::EntranceVestibule {
        Single::ratio(18, 100)
    } else {
        Single::ratio(62, 100)
    }
}

/// Bottom of the glass of an addition of a kind.
#[verifier::when_used_as_spec(spec_extension_sill)]
pub fn extension_sill(kind: BuildingExtensionKind) -> (r: Single)
    ensures
        r == spec_extension_sill(kind),
{
    if kind == BuildingExtensionKind::EntranceVestibule {
        Single::ratio(18, 100)
    } else {
        Single::ratio(62, 100)
    }
}

/// Wall beside the glass of an addition of a kind.
pub open spec fn spec_extension_inset(kind: BuildingExtensionKind) -> Single {
    if kind == BuildingExtensionKind::EntranceVestibule {
        Single::ratio(28, 100)
    } else {
        Single::ratio(5, 10)
    }
}

/// Wall beside the glass of an addition of a kind.
#[verifier::when_used_as_spec(spec_extension_inset)]
pub fn extension_inset(kind: BuildingExtensionKind) -> (r: Single)
    ensures
        r == spec_extension_inset(kind),
{
    if kind == BuildingExtensionKind::EntranceVestibule {
        Single::ratio(28, 100)
    } else {
        Single::ratio(5, 10)
    }
}

/// The walls, roof and glass of an addition.
pub open spec fn building_extension_patches(extension: BuildingExtensionDescription) -> Seq<Patch> {
    let position = extension.position;
    let size = extension.size;
    let half_x = size[0].times(Single::ratio(5, 10));
    let half_z = size[2].times(Single::ratio(5, 10));
    let min_x = position[0].minus(half_x);
    let max_x = position[0].plus(half_x);
    let min_z = position[2].minus(half_z);
    let max_z = position[2].plus(half_z);
    let roof_base = size[1].plus(Single::ratio(6, 100));
    let inner = roof_base.plus(extension.roof_rise_m);
    let sill = extension_sill(extension.kind);
    let top = size[1].minus(Single::ratio(35, 100)).max(sill.plus(Single::ratio(8, 10)));
    crate::shapes::box_patches(
        [position[0], size[1].times(Single::ratio(5, 10)), position[2]],
        size,
        straight(),
        MaterialSlot::Wall,
    )
        + (match extension.roof {
        BuildingExtensionRoof::Flat => {
            crate::shapes::box_patches([position[0], roof_base, position[2]], [
                size[0].plus(Single::ratio(28, 100)),
                Single::ratio(14, 100),
                size[2].plus(Single::ratio(28, 100)),
            ], straight(), MaterialSlot::Roof)
        },
        BuildingExtensionRoof::Shed => {
            crate::shapes::quad_patches([
                [
                    min_x.minus(Single::ratio(12, 100)),
                    shed_height(extension.facade, roof_base, inner, false, false),
                    min_z.minus(Single::ratio(12, 100)),
                ],
                [
                    min_x.minus(Single::ratio(12, 100)),
                    shed_height(extension.facade, roof_base, inner, false, true),
                    max_z.plus(Single::ratio(12, 100)),
                ],
                [
                    max_x.plus(Single::ratio(12, 100)),
                    shed_height(extension.facade, roof_base, inner, true, true),
                    max_z.plus(Single::ratio(12, 100)),
                ],
                [
                    max_x.plus(Single::ratio(12, 100)),
                    shed_height(extension.facade, roof_base, inner, true, false),
                    min_z.minus(Single::ratio(12, 100)),
                ],
            ], MaterialSlot::Roof)
        },
    })
        + (if extension.kind != BuildingExtensionKind::ServiceAnnex {
        crate::shapes::quad_patches(
            extension_panel(
                extension.facade,
                min_x,
                max_x,
                min_z,
                max_z,
                sill,
                top,
                extension_inset(extension.kind),
            ),
            MaterialSlot::Glass,
        )
    } else {
        Seq::<Patch>::empty()
    })
}

/// Adds the walls, roof and glass of an addition.
pub fn append_building_extension(out: &mut Vec<Patch>, extension: BuildingExtensionDescription)
    ensures
        final(out)@ == old(out)@ + building_extension_patches(extension),
{
    let position = extension.position;
    let size = extension.size;
    let half_x = size[0].times(Single::ratio(5, 10));
    let half_z = size[2].times(Single::ratio(5, 10));
    let min_x = position[0].minus(half_x);
    let max_x = position[0].plus(half_x);
    let min_z = position[2].minus(half_z);
    let max_z = position[2].plus(half_z);
    let roof_base = size[1].plus(Single::ratio(6, 100));
    let inner = roof_base.plus(extension.roof_rise_m);
    let sill = extension_sill(extension.kind);
    let top = size[1].minus(Single::ratio(35, 100)).max(sill.plus(Single::ratio(8, 10)));
    append_box(
        out,
        [position[0], size[1].times(Single::ratio(5, 10)), position[2]],
        size,
        straight(),
        MaterialSlot::Wall,
    );
    match extension.roof {
        BuildingExtensionRoof::Flat => {
            append_box(out, [position[0], roof_base, position[2]], [
                size[0].plus(Single::ratio(28, 100)),
                Single::ratio(14, 100),
                size[2].plus(Single::ratio(28, 100)),
            ], straight(), MaterialSlot::Roof);
        },
        BuildingExtensionRoof::Shed => {
            append_quad(out, [
                [
                    min_x.minus(Single::ratio(12, 100)),
                    shed_height(extension.facade, roof_base, inner, false, false),
                    min_z.minus(Single::ratio(12, 100)),
                ],
                [
                    min_x.minus(Single::ratio(12, 100)),
                    shed_height(extension.facade, roof_base, inner, false, true),
                    max_z.plus(Single::ratio(12, 100)),
                ],
                [
                    max_x.plus(Single::ratio(12, 100)),
                    shed_height(extension.facade, roof_base, inner, true, true),
                    max_z.plus(Single::ratio(12, 100)),
                ],
                [
                    max_x.plus(Single::ratio(12, 100)),
                    shed_height(extension.facade, roof_base, inner, true, false),
                    min_z.minus(Single::ratio(12, 100)),
                ],
            ], MaterialSlot::Roof);
        },
    }
    if extension.kind != BuildingExtensionKind::ServiceAnnex {
        append_quad(
            out,
            extension_panel(
                extension.facade,
                min_x,
                max_x,
                min_z,
                max_z,
                sill,
                top,
                extension_inset(extension.kind),
            ),
            MaterialSlot::Glass,
        );
    }
}

/// Windows of a facade on one side.
pub open spec fn spec_side_window_count(facade: FacadeDescription, side: BuildingSide) -> u32 {
    match side {
        BuildingSide::Front => facade.long_side_window_count,
        BuildingSide::Back => facade.long_side_window_count,
        BuildingSide::Left => facade.short_side_window_count,
        BuildingSide::Right => facade.short_side_window_count,
    }
}

/// Windows of a facade on one side.
#[verifier::when_used_as_spec(spec_side_window_count)]
pub fn side_window_count(facade: FacadeDescription, side: BuildingSide) -> (r: u32)
    ensures
        r == spec_side_window_count(facade, side),
{
    match side {
        BuildingSide::Front => facade.long_side_window_count,
        BuildingSide::Back => facade.long_side_window_count,
        BuildingSide::Left => facade.short_side_window_count,
        BuildingSide::Right => facade.short_side_window_count,
    }
}

/// Length of the window band on one side.
pub open spec fn spec_band_span(width: Single, depth: Single, side: BuildingSide) -> Single {
    match side {
        BuildingSide::Front => width.minus(Single::ratio(8, 100).times(Single::ratio(2, 1))),
        BuildingSide::Back => width.minus(Single::ratio(8, 100).times(Single::ratio(2, 1))),
        BuildingSide::Left => depth.minus(Single::ratio(8, 100).times(Single::ratio(2, 1))),
        BuildingSide::Right => depth.minus(Single::ratio(8, 100).times(Single::ratio(2, 1))),
    }
}

/// Length of the window band on one side.
#[verifier::when_used_as_spec(spec_band_span)]
pub fn band_span(width: Single, depth: Single, side: BuildingSide) -> (r: Single)
    ensures
        r == spec_band_span(width, depth, side),
{
    match side {
        BuildingSide::Front => width.minus(Single::ratio(8, 100).times(Single::ratio(2, 1))),
        BuildingSide::Back => width.minus(Single::ratio(8, 100).times(Single::ratio(2, 1))),
        BuildingSide::Left => depth.minus(Single::ratio(8, 100).times(Single::ratio(2, 1))),
        BuildingSide::Right => depth.minus(Single::ratio(8, 100).times(Single::ratio(2, 1))),
    }
}

/// Corners of the window band on one side.
pub open spec fn spec_band_corners(
    width: Single,
    depth: Single,
    sill: Single,
    top: Single,
    side: BuildingSide,
) -> [[Single; 3]; 4] {
    let x = width.times(Single::ratio(5, 10));
    let z = depth.times(Single::ratio(5, 10));
    let inset = Single::ratio(65, 1000);
    let margin = Single::ratio(8, 100);
    match side {
        BuildingSide::Front => [
            [x.minus(margin), sill, z.negated().minus(inset)],
            [x.negated().plus(margin), sill, z.negated().minus(inset)],
            [x.negated().plus(margin), top, z.negated().minus(inset)],
            [x.minus(margin), top, z.negated().minus(inset)],
        ],
        BuildingSide::Back => [
            [x.negated().plus(margin), sill, z.plus(inset)],
            [x.minus(margin), sill, z.plus(inset)],
            [x.minus(margin), top, z.plus(inset)],
            [x.negated().plus(margin), top, z.plus(inset)],
        ],
        BuildingSide::Left => [
            [x.negated().minus(inset), sill, z.negated().plus(margin)],
            [x.negated().minus(inset), sill, z.minus(margin)],
            [x.negated().minus(inset), top, z.minus(margin)],
            [x.negated().minus(inset), top, z.negated().plus(margin)],
        ],
        BuildingSide::Right => [
            [x.plus(inset), sill, z.minus(margin)],
            [x.plus(inset), sill, z.negated().plus(margin)],
            [x.plus(inset), top, z.negated().plus(margin)],
            [x.plus(inset), top, z.minus(margin)],
        ],
    }
}

/// Corners of the window band on one side.
#[verifier::when_used_as_spec(spec_band_corners)]
pub fn band_corners(
    width: Single,
    depth: Single,
    sill: Single,
    top: Single,
    side: BuildingSide,
) -> (r: [[Single; 3]; 4])
    ensures
        r == spec_band_corners(width, depth, sill, top, side),
{
    let x = width.times(Single::ratio(5, 10));
    let z = depth.times(Single::ratio(5, 10));
    let inset = Single::ratio(65, 1000);
    let margin = Single::ratio(8, 100);
    match side {
        BuildingSide::Front => [
            [x.minus(margin), sill, z.negated().minus(inset)],
            [x.negated().plus(margin), sill, z.negated().minus(inset)],
            [x.negated().plus(margin), top, z.negated().minus(inset)],
            [x.minus(margin), top, z.negated().minus(inset)],
        ],
        BuildingSide::Back => [
            [x.negated().plus(margin), sill, z.plus(inset)],
            [x.minus(margin), sill, z.plus(inset)],
            [x.minus(margin), top, z.plus(inset)],
            [x.negated().plus(margin), top, z.plus(inset)],
        ],
        BuildingSide::Left => [
            [x.negated().minus(inset), sill, z.negated().plus(margin)],
            [x.negated().minus(inset), sill, z.minus(margin)],
            [x.negated().minus(inset), top, z.minus(margin)],
            [x.negated().minus(inset), top, z.negated().plus(margin)],
        ],
        BuildingSide::Right => [
            [x.plus(inset), sill, z.minus(margin)],
            [x.plus(inset), sill, z.negated().plus(margin)],
            [x.plus(inset), top, z.negated().plus(margin)],
            [x.plus(inset), top, z.minus(margin)],
        ],
    }
}

/// Centre of the post between two windows on one side.
pub open spec fn spec_mullion_center(
    width: Single,
    depth: Single,
    sill: Single,
    top: Single,
    side: BuildingSide,
    offset: Single,
) -> [Single; 3] {
    let x = width.times(Single::ratio(5, 10));
    let z = depth.times(Single::ratio(5, 10));
    let inset = Single::ratio(65, 1000);
    match side {
        BuildingSide::Front => [
            offset,
            sill.plus(top).times(Single::ratio(5, 10)),
            z.negated().minus(inset.times(Single::ratio(12, 10))),
        ],
        BuildingSide::Back => [
            offset.negated(),
            sill.plus(top).times(Single::ratio(5, 10)),
            z.plus(inset.times(Single::ratio(12, 10))),
        ],
        BuildingSide::Left => [
            x.negated().minus(inset.times(Single::ratio(12, 10))),
            sill.plus(top).times(Single::ratio(5, 10)),
            offset,
        ],
        BuildingSide::Right => [
            x.plus(inset.times(Single::ratio(12, 10))),
            sill.plus(top).times(Single::ratio(5, 10)),
            offset.negated(),
        ],
    }
}

/// Centre of the post between two windows on one side.
#[verifier::when_used_as_spec(spec_mullion_center)]
pub fn mullion_center(
    width: Single,
    depth: Single,
    sill: Single,
    top: Single,
    side: BuildingSide,
    offset: Single,
) -> (r: [Single; 3])
    ensures
        r == spec_mullion_center(width, depth, sill, top, side, offset),
{
    let x = width.times(Single::ratio(5, 10));
    let z = depth.times(Single::ratio(5, 10));
    let inset = Single::ratio(65, 1000);
    match side {
        BuildingSide::Front => [
            offset,
            sill.plus(top).times(Single::ratio(5, 10)),
            z.negated().minus(inset.times(Single::ratio(12, 10))),
        ],
        BuildingSide::Back => [
            offset.negated(),
            sill.plus(top).times(Single::ratio(5, 10)),
            z.plus(inset.times(Single::ratio(12, 10))),
        ],
        BuildingSide::Left => [
            x.negated().minus(inset.times(Single::ratio(12, 10))),
            sill.plus(top).times(Single::ratio(5, 10)),
            offset,
        ],
        BuildingSide::Right => [
            x.plus(inset.times(Single::ratio(12, 10))),
            sill.plus(top).times(Single::ratio(5, 10)),
            offset.negated(),
        ],
    }
}

/// Size of the post between two windows on one side.
pub open spec fn spec_mullion_size(window_height: Single, side: BuildingSide) -> [Single; 3] {
    match side {
        BuildingSide::Front => [
            Single::ratio(11, 100),
            window_height.plus(Single::ratio(5, 100)),
            Single::ratio(7, 100),
        ],
        BuildingSide::Back => [
            Single::ratio(11, 100),
            window_height.plus(Single::ratio(5, 100)),
            Single::ratio(7, 100),
        ],
        BuildingSide::Left => [
            Single::ratio(7, 100),
            window_height.plus(Single::ratio(5, 100)),
            Single::ratio(11, 100),
        ],
        BuildingSide::Right => [
            Single::ratio(7, 100),
            window_height.plus(Single::ratio(5, 100)),
            Single::ratio(11, 100),
        ],
    }
}

/// Size of the post between two windows on one side.
#[verifier::when_used_as_spec(spec_mullion_size)]
pub fn mullion_size(window_height: Single, side: BuildingSide) -> (r: [Single; 3])
    ensures
        r == spec_mullion_size(window_height, side),
{
    match side {
        BuildingSide::Front => [
            Single::ratio(11, 100),
            window_height.plus(Single::ratio(5, 100)),
            Single::ratio(7, 100),
        ],
        BuildingSide::Back => [
            Single::ratio(11, 100),
            window_height.plus(Single::ratio(5, 100)),
            Single::ratio(7, 100),
        ],
        BuildingSide::Left => [
            Single::ratio(7, 100),
            window_height.plus(Single::ratio(5, 100)),
            Single::ratio(11, 100),
        ],
        BuildingSide::Right => [
            Single::ratio(7, 100),
            window_height.plus(Single::ratio(5, 100)),
            Single::ratio(11, 100),
        ],
    }
}

/// The posts between the windows on one side. Those before the `n`th.
pub open spec fn mullions_upto(
    width: Single,
    depth: Single,
    facade: FacadeDescription,
    side: BuildingSide,
    n: int,
) -> Seq<Patch>
    decreases n,
{
    if n <= 1 {
        Seq::empty()
    } else {
        mullions_upto(width, depth, facade, side, n - 1) + mullions_item_patches(
            width,
            depth,
            facade,
            side,
            (n - 1) as u32,
        )
    }
}

/// The posts between the windows on one side.
pub open spec fn mullions_patches(
    width: Single,
    depth: Single,
    facade: FacadeDescription,
    side: BuildingSide,
) -> Seq<Patch> {
    mullions_upto(width, depth, facade, side, side_window_count(facade, side) as int)
}

/// The posts between the windows on one side, one at a time.
pub open spec fn mullions_item_patches(
    width: Single,
    depth: Single,
    facade: FacadeDescription,
    side: BuildingSide,
    i: u32,
) -> Seq<Patch> {
    let sill = facade.window_sill_height_m;
    let top = sill.plus(facade.window_height_m);
    let span = band_span(width, depth, side);
    let spacing = span.over(Single::from_u32(side_window_count(facade, side)));
    let offset = span.negated().times(Single::ratio(5, 10)).plus(
        spacing.times(Single::from_u32(i)),
    );
    crate::shapes::box_patches(
        mullion_center(width, depth, sill, top, side, offset),
        mullion_size(facade.window_height_m, side),
        straight(),
        MaterialSlot::Trim,
    )
}

/// Adds the posts between the windows on one side, one at a time.
fn append_mullions_item(
    out: &mut Vec<Patch>,
    width: Single,
    depth: Single,
    facade: FacadeDescription,
    side: BuildingSide,
    i: u32,
)
    ensures
        final(out)@ == old(out)@ + mullions_item_patches(width, depth, facade, side, i),
{
    let sill = facade.window_sill_height_m;
    let top = sill.plus(facade.window_height_m);
    let span = band_span(width, depth, side);
    let spacing = span.over(Single::from_u32(side_window_count(facade, side)));
    let offset = span.negated().times(Single::ratio(5, 10)).plus(
        spacing.times(Single::from_u32(i)),
    );
    append_box(
        out,
        mullion_center(width, depth, sill, top, side, offset),
        mullion_size(facade.window_height_m, side),
        straight(),
        MaterialSlot::Trim,
    );
}

/// Adds the posts between the windows on one side.
fn append_mullions(
    out: &mut Vec<Patch>,
    width: Single,
    depth: Single,
    facade: FacadeDescription,
    side: BuildingSide,
)
    ensures
        final(out)@ == old(out)@ + mullions_patches(width, depth, facade, side),
{
    let ghost begun = out@;
    let end: u64 = side_window_count(facade, side) as u64;
    let mut i: u64 = 1;
    assert(out@ =~= begun + mullions_upto(width, depth, facade, side, 1));
    while i < end
        invariant
            1 <= i,
            i <= end || i == 1,
            end == side_window_count(facade, side) as int,
            end <= 0x1_0000_0000,
            out@ == begun + mullions_upto(width, depth, facade, side, i as int),
        decreases end - i,
    {
        append_mullions_item(out, width, depth, facade, side, i as u32);
        assert(out@ =~= begun + mullions_upto(width, depth, facade, side, i + 1));
        i = i + 1;
    }
    assert(out@ =~= begun + mullions_patches(width, depth, facade, side));
}

/// The window band on one side.
pub open spec fn window_band_patches(
    width: Single,
    depth: Single,
    facade: FacadeDescription,
    glass: [Single; 4],
    side: BuildingSide,
) -> Seq<Patch> {
    let sill = facade.window_sill_height_m;
    let top = sill.plus(facade.window_height_m);
    crate::shapes::quad_tinted_patches(
        band_corners(width, depth, sill, top, side),
        MaterialSlot::Glass,
        glass,
    )
        + mullions_patches(width, depth, facade, side)
}

/// Adds the window band on one side.
pub fn append_window_band(
    out: &mut Vec<Patch>,
    width: Single,
    depth: Single,
    facade: FacadeDescription,
    glass: [Single; 4],
    side: BuildingSide,
)
    ensures
        final(out)@ == old(out)@ + window_band_patches(width, depth, facade, glass, side),
{
    let sill = facade.window_sill_height_m;
    let top = sill.plus(facade.window_height_m);
    append_quad_tinted(
        out,
        band_corners(width, depth, sill, top, side),
        MaterialSlot::Glass,
        glass,
    );
    append_mullions(out, width, depth, facade, side);
}

/// Corners of the door of an entrance.
pub open spec fn spec_door_corners(
    width: Single,
    depth: Single,
    facade: FacadeDescription,
) -> [[Single; 3]; 4] {
    let x = width.times(Single::ratio(5, 10));
    let z = depth.times(Single::ratio(5, 10));
    let half_width = facade.entrance_width_m.times(Single::ratio(5, 10));
    let top = facade.entrance_height_m;
    let epsilon = Single::ratio(35, 1000);
    match facade.entrance_side {
        BuildingSide::Front => [
            [half_width, Single::ratio(2, 100), z.negated().minus(epsilon)],
            [half_width.negated(), Single::ratio(2, 100), z.negated().minus(epsilon)],
            [half_width.negated(), top, z.negated().minus(epsilon)],
            [half_width, top, z.negated().minus(epsilon)],
        ],
        BuildingSide::Back => [
            [half_width.negated(), Single::ratio(2, 100), z.plus(epsilon)],
            [half_width, Single::ratio(2, 100), z.plus(epsilon)],
            [half_width, top, z.plus(epsilon)],
            [half_width.negated(), top, z.plus(epsilon)],
        ],
        BuildingSide::Right => [
            [x.plus(epsilon), Single::ratio(2, 100), half_width],
            [x.plus(epsilon), Single::ratio(2, 100), half_width.negated()],
            [x.plus(epsilon), top, half_width.negated()],
            [x.plus(epsilon), top, half_width],
        ],
        BuildingSide::Left => [
            [x.negated().minus(epsilon), Single::ratio(2, 100), half_width.negated()],
            [x.negated().minus(epsilon), Single::ratio(2, 100), half_width],
            [x.negated().minus(epsilon), top, half_width],
            [x.negated().minus(epsilon), top, half_width.negated()],
        ],
    }
}

/// Corners of the door of an entrance.
#[verifier::when_used_as_spec(spec_door_corners)]
pub fn door_corners(
    width: Single,
    depth: Single,
    facade: FacadeDescription,
) -> (r: [[Single; 3]; 4])
    ensures
        r == spec_door_corners(width, depth, facade),
{
    let x = width.times(Single::ratio(5, 10));
    let z = depth.times(Single::ratio(5, 10));
    let half_width = facade.entrance_width_m.times(Single::ratio(5, 10));
    let top = facade.entrance_height_m;
    let epsilon = Single::ratio(35, 1000);
    match facade.entrance_side {
        BuildingSide::Front => [
            [half_width, Single::ratio(2, 100), z.negated().minus(epsilon)],
            [half_width.negated(), Single::ratio(2, 100), z.negated().minus(epsilon)],
            [half_width.negated(), top, z.negated().minus(epsilon)],
            [half_width, top, z.negated().minus(epsilon)],
        ],
        BuildingSide::Back => [
            [half_width.negated(), Single::ratio(2, 100), z.plus(epsilon)],
            [half_width, Single::ratio(2, 100), z.plus(epsilon)],
            [half_width, top, z.plus(epsilon)],
            [half_width.negated(), top, z.plus(epsilon)],
        ],
        BuildingSide::Right => [
            [x.plus(epsilon), Single::ratio(2, 100), half_width],
            [x.plus(epsilon), Single::ratio(2, 100), half_width.negated()],
            [x.plus(epsilon), top, half_width.negated()],
            [x.plus(epsilon), top, half_width],
        ],
        BuildingSide::Left => [
            [x.negated().minus(epsilon), Single::ratio(2, 100), half_width.negated()],
            [x.negated().minus(epsilon), Single::ratio(2, 100), half_width],
            [x.negated().minus(epsilon), top, half_width],
            [x.negated().minus(epsilon), top, half_width.negated()],
        ],
    }
}

/// Centre of the canopy of an entrance.
pub open spec fn spec_canopy_center(
    width: Single,
    depth: Single,
    facade: FacadeDescription,
) -> [Single; 3] {
    let x = width.times(Single::ratio(5, 10));
    let z = depth.times(Single::ratio(5, 10));
    let top = facade.entrance_height_m;
    match facade.entrance_side {
        BuildingSide::Front => [
            Single::zero(),
            top.plus(Single::ratio(18, 100)),
            z.negated().minus(Single::ratio(65, 100)),
        ],
        BuildingSide::Back => [
            Single::zero(),
            top.plus(Single::ratio(18, 100)),
            z.plus(Single::ratio(65, 100)),
        ],
        BuildingSide::Right => [
            x.plus(Single::ratio(65, 100)),
            top.plus(Single::ratio(18, 100)),
            Single::zero(),
        ],
        BuildingSide::Left => [
            x.negated().minus(Single::ratio(65, 100)),
            top.plus(Single::ratio(18, 100)),
            Single::zero(),
        ],
    }
}

/// Centre of the canopy of an entrance.
#[verifier::when_used_as_spec(spec_canopy_center)]
pub fn canopy_center(width: Single, depth: Single, facade: FacadeDescription) -> (r: [Single; 3])
    ensures
        r == spec_canopy_center(width, depth, facade),
{
    let x = width.times(Single::ratio(5, 10));
    let z = depth.times(Single::ratio(5, 10));
    let top = facade.entrance_height_m;
    match facade.entrance_side {
        BuildingSide::Front => [
            Single::zero(),
            top.plus(Single::ratio(18, 100)),
            z.negated().minus(Single::ratio(65, 100)),
        ],
        BuildingSide::Back => [
            Single::zero(),
            top.plus(Single::ratio(18, 100)),
            z.plus(Single::ratio(65, 100)),
        ],
        BuildingSide::Right => [
            x.plus(Single::ratio(65, 100)),
            top.plus(Single::ratio(18, 100)),
            Single::zero(),
        ],
        BuildingSide::Left => [
            x.negated().minus(Single::ratio(65, 100)),
            top.plus(Single::ratio(18, 100)),
            Single::zero(),
        ],
    }
}

/// Size of the canopy of an entrance.
pub open spec fn spec_canopy_size(facade: FacadeDescription) -> [Single; 3] {
    let canopy_width = facade.entrance_width_m.plus(Single::one());
    match facade.entrance_side {
        BuildingSide::Front => [canopy_width, Single::ratio(18, 100), Single::ratio(125, 100)],
        BuildingSide::Back => [canopy_width, Single::ratio(18, 100), Single::ratio(125, 100)],
        BuildingSide::Right => [Single::ratio(125, 100), Single::ratio(18, 100), canopy_width],
        BuildingSide::Left => [Single::ratio(125, 100), Single::ratio(18, 100), canopy_width],
    }
}

/// Size of the canopy of an entrance.
#[verifier::when_used_as_spec(spec_canopy_size)]
pub fn canopy_size(facade: FacadeDescription) -> (r: [Single; 3])
    ensures
        r == spec_canopy_size(facade),
{
    let canopy_width = facade.entrance_width_m.plus(Single::one());
    match facade.entrance_side {
        BuildingSide::Front => [canopy_width, Single::ratio(18, 100), Single::ratio(125, 100)],
        BuildingSide::Back => [canopy_width, Single::ratio(18, 100), Single::ratio(125, 100)],
        BuildingSide::Right => [Single::ratio(125, 100), Single::ratio(18, 100), canopy_width],
        BuildingSide::Left => [Single::ratio(125, 100), Single::ratio(18, 100), canopy_width],
    }
}

/// The door of an entrance, and its canopy where it has one.
pub open spec fn entrance_patches(
    width: Single,
    depth: Single,
    facade: FacadeDescription,
    glass: [Single; 4],
) -> Seq<Patch> {
    crate::shapes::quad_tinted_patches(
        door_corners(width, depth, facade),
        MaterialSlot::Glass,
        glass,
    )
        + (if facade.entrance_canopy {
        crate::shapes::box_patches(
            canopy_center(width, depth, facade),
            canopy_size(facade),
            straight(),
            MaterialSlot::Trim,
        )
    } else {
        Seq::<Patch>::empty()
    })
}

/// Adds the door of an entrance, and its canopy where it has one.
pub fn append_entrance(
    out: &mut Vec<Patch>,
    width: Single,
    depth: Single,
    facade: FacadeDescription,
    glass: [Single; 4],
)
    ensures
        final(out)@ == old(out)@ + entrance_patches(width, depth, facade, glass),
{
    append_quad_tinted(out, door_corners(width, depth, facade), MaterialSlot::Glass, glass);
    if facade.entrance_canopy {
        append_box(
            out,
            canopy_center(width, depth, facade),
            canopy_size(facade),
            straight(),
            MaterialSlot::Trim,
        );
    }
}

/// The walls, windows, entrance and trim of a building.
#[verifier::opaque]
pub open spec fn building_patches(
    width: Single,
    depth: Single,
    wall_height: Single,
    facade: FacadeDescription,
    raised: [Single; 3],
) -> Seq<Patch> {
    let x = width.times(Single::ratio(5, 10));
    let z = depth.times(Single::ratio(5, 10));
    let y = wall_height;
    let wall_appearance = [Single::zero(), Single::zero(), Single::zero(), facade.weathering];
    let glass = facade_glass_appearance(facade, raised);
    crate::shapes::quad_tinted_patches([
        [x, Single::zero(), z.negated()],
        [x.negated(), Single::zero(), z.negated()],
        [x.negated(), y, z.negated()],
        [x, y, z.negated()],
    ], MaterialSlot::Wall, wall_appearance)
        + crate::shapes::quad_tinted_patches([
            [x, Single::zero(), z],
            [x, Single::zero(), z.negated()],
            [x, y, z.negated()],
            [x, y, z],
        ], MaterialSlot::Wall, wall_appearance)
        + crate::shapes::quad_tinted_patches([
            [x.negated(), Single::zero(), z],
            [x, Single::zero(), z],
            [x, y, z],
            [x.negated(), y, z],
        ], MaterialSlot::Wall, wall_appearance)
        + crate::shapes::quad_tinted_patches([
            [x.negated(), Single::zero(), z.negated()],
            [x.negated(), Single::zero(), z],
            [x.negated(), y, z],
            [x.negated(), y, z.negated()],
        ], MaterialSlot::Wall, wall_appearance)
        + window_band_patches(width, depth, facade, glass, BuildingSide::Front)
        + window_band_patches(width, depth, facade, glass, BuildingSide::Back)
        + window_band_patches(width, depth, facade, glass, BuildingSide::Left)
        + window_band_patches(width, depth, facade, glass, BuildingSide::Right)
        + entrance_patches(width, depth, facade, glass)
        + crate::shapes::box_patches([x, y.times(Single::ratio(5, 10)), z.negated()], [
            Single::ratio(16, 100),
            y,
            Single::ratio(16, 100),
        ], straight(), MaterialSlot::Trim)
        + crate::shapes::box_patches([x.negated(), y.times(Single::ratio(5, 10)), z.negated()], [
            Single::ratio(16, 100),
            y,
            Single::ratio(16, 100),
        ], straight(), MaterialSlot::Trim)
        + crate::shapes::box_patches([x, y.times(Single::ratio(5, 10)), z], [
            Single::ratio(16, 100),
            y,
            Single::ratio(16, 100),
        ], straight(), MaterialSlot::Trim)
        + crate::shapes::box_patches([x.negated(), y.times(Single::ratio(5, 10)), z], [
            Single::ratio(16, 100),
            y,
            Single::ratio(16, 100),
        ], straight(), MaterialSlot::Trim)
        + crate::shapes::box_patches([
            Single::zero(),
            y.minus(Single::ratio(2, 10)),
            z.negated().minus(Single::ratio(3, 100)),
        ], [width, Single::ratio(22, 100), Single::ratio(12, 100)], straight(), MaterialSlot::Trim)
}

/// Adds the walls, windows, entrance and trim of a building.
pub fn append_building(
    out: &mut Vec<Patch>,
    width: Single,
    depth: Single,
    wall_height: Single,
    facade: FacadeDescription,
    raised: [Single; 3],
)
    ensures
        final(out)@ == old(out)@ + building_patches(width, depth, wall_height, facade, raised),
{
    proof {
        reveal(building_patches);
    }
    let x = width.times(Single::ratio(5, 10));
    let z = depth.times(Single::ratio(5, 10));
    let y = wall_height;
    let wall_appearance = [Single::zero(), Single::zero(), Single::zero(), facade.weathering];
    let glass = facade_glass_appearance(facade, raised);
    append_quad_tinted(out, [
        [x, Single::zero(), z.negated()],
        [x.negated(), Single::zero(), z.negated()],
        [x.negated(), y, z.negated()],
        [x, y, z.negated()],
    ], MaterialSlot::Wall, wall_appearance);
    append_quad_tinted(out, [
        [x, Single::zero(), z],
        [x, Single::zero(), z.negated()],
        [x, y, z.negated()],
        [x, y, z],
    ], MaterialSlot::Wall, wall_appearance);
    append_quad_tinted(out, [
        [x.negated(), Single::zero(), z],
        [x, Single::zero(), z],
        [x, y, z],
        [x.negated(), y, z],
    ], MaterialSlot::Wall, wall_appearance);
    append_quad_tinted(out, [
        [x.negated(), Single::zero(), z.negated()],
        [x.negated(), Single::zero(), z],
        [x.negated(), y, z],
        [x.negated(), y, z.negated()],
    ], MaterialSlot::Wall, wall_appearance);
    append_window_band(out, width, depth, facade, glass, BuildingSide::Front);
    append_window_band(out, width, depth, facade, glass, BuildingSide::Back);
    append_window_band(out, width, depth, facade, glass, BuildingSide::Left);
    append_window_band(out, width, depth, facade, glass, BuildingSide::Right);
    append_entrance(out, width, depth, facade, glass);
    append_box(out, [x, y.times(Single::ratio(5, 10)), z.negated()], [
        Single::ratio(16, 100),
        y,
        Single::ratio(16, 100),
    ], straight(), MaterialSlot::Trim);
    append_box(out, [x.negated(), y.times(Single::ratio(5, 10)), z.negated()], [
        Single::ratio(16, 100),
        y,
        Single::ratio(16, 100),
    ], straight(), MaterialSlot::Trim);
    append_box(out, [x, y.times(Single::ratio(5, 10)), z], [
        Single::ratio(16, 100),
        y,
        Single::ratio(16, 100),
    ], straight(), MaterialSlot::Trim);
    append_box(out, [x.negated(), y.times(Single::ratio(5, 10)), z], [
        Single::ratio(16, 100),
        y,
        Single::ratio(16, 100),
    ], straight(), MaterialSlot::Trim);
    append_box(out, [
        Single::zero(),
        y.minus(Single::ratio(2, 10)),
        z.negated().minus(Single::ratio(3, 100)),
    ], [width, Single::ratio(22, 100), Single::ratio(12, 100)], straight(), MaterialSlot::Trim);
}

/// Material of the face of a sign.
pub open spec fn spec_sign_material(style: SignStyle) -> MaterialSlot {
    match style {
        SignStyle::PizzaHut => MaterialSlot::Sign,
        SignStyle::RemovedGhost => MaterialSlot::GhostSign,
        SignStyle::Blank => MaterialSlot::GhostSign,
        SignStyle::Tenant => MaterialSlot::TenantSign,
    }
}

/// Material of the face of a sign.
#[verifier::when_used_as_spec(spec_sign_material)]
pub fn sign_material(style: SignStyle) -> (r: MaterialSlot)
    ensures
        r == spec_sign_material(style),
{
    match style {
        SignStyle::PizzaHut => MaterialSlot::Sign,
        SignStyle::RemovedGhost => MaterialSlot::GhostSign,
        SignStyle::Blank => MaterialSlot::GhostSign,
        SignStyle::Tenant => MaterialSlot::TenantSign,
    }
}

/// Tint and emission of the face of a sign.
pub open spec fn spec_sign_appearance(sign: SignDescription) -> [Single; 4] {
    match sign.style {
        SignStyle::PizzaHut => {
            let fade = Single::one().minus(sign.weathering.times(Single::ratio(55, 100)));
            [
                Single::ratio(78, 100).times(fade),
                Single::ratio(25, 1000).times(fade),
                Single::ratio(18, 1000).times(fade),
                sign.emissive_strength,
            ]
        },
        SignStyle::Tenant => {
            let fade = Single::one().minus(sign.weathering.times(Single::ratio(45, 100)));
            [
                Single::ratio(35, 1000).times(fade),
                Single::ratio(22, 100).times(fade),
                Single::ratio(42, 100).times(fade),
                sign.emissive_strength,
            ]
        },
        SignStyle::RemovedGhost => [Single::zero(), Single::zero(), Single::zero(), sign.weathering],
        SignStyle::Blank => [Single::zero(), Single::zero(), Single::zero(), sign.weathering],
    }
}

/// Tint and emission of the face of a sign.
#[verifier::when_used_as_spec(spec_sign_appearance)]
pub fn sign_appearance(sign: SignDescription) -> (r: [Single; 4])
    ensures
        r == spec_sign_appearance(sign),
{
    match sign.style {
        SignStyle::PizzaHut => {
            let fade = Single::one().minus(sign.weathering.times(Single::ratio(55, 100)));
            [
                Single::ratio(78, 100).times(fade),
                Single::ratio(25, 1000).times(fade),
                Single::ratio(18, 1000).times(fade),
                sign.emissive_strength,
            ]
        },
        SignStyle::Tenant => {
            let fade = Single::one().minus(sign.weathering.times(Single::ratio(45, 100)));
            [
                Single::ratio(35, 1000).times(fade),
                Single::ratio(22, 100).times(fade),
                Single::ratio(42, 100).times(fade),
                sign.emissive_strength,
            ]
        },
        SignStyle::RemovedGhost => [Single::zero(), Single::zero(), Single::zero(), sign.weathering],
        SignStyle::Blank => [Single::zero(), Single::zero(), Single::zero(), sign.weathering],
    }
}

/// Treatment of the face of a sign.
pub open spec fn spec_sign_pattern(style: SignStyle) -> SurfacePattern {
    if style == SignStyle::PizzaHut {
        SurfacePattern::pizza_hut_sign()
    } else {
        SurfacePattern::generic_sign()
    }
}

/// Treatment of the face of a sign.
#[verifier::when_used_as_spec(spec_sign_pattern)]
pub fn sign_pattern(style: SignStyle) -> (r: SurfacePattern)
    ensures
        r == spec_sign_pattern(style),
{
    if style == SignStyle::PizzaHut {
        SurfacePattern::pizza_hut_sign()
    } else {
        SurfacePattern::generic_sign()
    }
}

/// Depth of the panel of a sign.
pub open spec fn spec_sign_depth(mount: SignMount) -> Single {
    if mount == SignMount::Facade {
        Single::ratio(8, 100)
    } else {
        Single::ratio(18, 100)
    }
}

/// Depth of the panel of a sign.
#[verifier::when_used_as_spec(spec_sign_depth)]
pub fn sign_depth(mount: SignMount) -> (r: Single)
    ensures
        r == spec_sign_depth(mount),
{
    if mount == SignMount::Facade {
        Single::ratio(8, 100)
    } else {
        Single::ratio(18, 100)
    }
}

/// The panel of a sign, and its pole where it has one.
pub open spec fn sign_patches(sign: SignDescription, half: Turn, round: RoundTurns) -> Seq<Patch> {
    crate::shapes::panel_tinted_pattern_patches(
        sign.center,
        [sign.size[0], sign.size[1], sign_depth(sign.mount)],
        half,
        sign_material(sign.style),
        sign_appearance(sign),
        sign_pattern(sign.style),
    )
        + (if sign.mount == SignMount::Pole {
        crate::shapes::cylinder_patches([sign.center[0], Single::zero(), sign.center[2]], sign.size[0].times(
            Single::ratio(4, 100),
        ).clamp(Single::ratio(8, 100), Single::ratio(2, 10)), sign.center[1].minus(
            sign.size[1].times(Single::ratio(5, 10)),
        ).max(Single::ratio(1, 10)), round, MaterialSlot::Metal)
    } else {
        Seq::<Patch>::empty()
    })
}

/// Adds the panel of a sign, and its pole where it has one.
pub fn append_sign(out: &mut Vec<Patch>, sign: SignDescription, half: Turn, round: RoundTurns)
    ensures
        final(out)@ == old(out)@ + sign_patches(sign, half, round),
{
    append_panel_tinted_pattern(
        out,
        sign.center,
        [sign.size[0], sign.size[1], sign_depth(sign.mount)],
        half,
        sign_material(sign.style),
        sign_appearance(sign),
        sign_pattern(sign.style),
    );
    if sign.mount == SignMount::Pole {
        append_cylinder(out, [sign.center[0], Single::zero(), sign.center[2]], sign.size[0].times(
            Single::ratio(4, 100),
        ).clamp(Single::ratio(8, 100), Single::ratio(2, 10)), sign.center[1].minus(
            sign.size[1].times(Single::ratio(5, 10)),
        ).max(Single::ratio(1, 10)), round, MaterialSlot::Metal);
    }
}

/// The markings of the parking bays. Those before the `n`th.
pub open spec fn bay_markings_upto(
    bays: u32,
    center: [Single; 3],
    bay_size: [Single; 2],
    turn: Turn,
    half: Turn,
    n: int,
) -> Seq<Patch>
    decreases n,
{
    if n <= 0 {
        Seq::empty()
    } else {
        bay_markings_upto(bays, center, bay_size, turn, half, n - 1) + bay_markings_item_patches(
            bays,
            center,
            bay_size,
            turn,
            half,
            (n - 1) as u32,
        )
    }
}

/// The markings of the parking bays.
pub open spec fn bay_markings_patches(
    bays: u32,
    center: [Single; 3],
    bay_size: [Single; 2],
    turn: Turn,
    half: Turn,
) -> Seq<Patch> {
    bay_markings_upto(bays, center, bay_size, turn, half, bays as int + 1)
}

/// The markings of the parking bays, one at a time.
pub open spec fn bay_markings_item_patches(
    bays: u32,
    center: [Single; 3],
    bay_size: [Single; 2],
    turn: Turn,
    half: Turn,
    i: u32,
) -> Seq<Patch> {
    let row_width = bay_size[0].times(Single::from_u32(bays));
    let local_x = row_width.negated().times(Single::ratio(5, 10)).plus(
        bay_size[0].times(Single::from_u32(i)),
    );
    let shift = rotate_ground_offset(local_x, Single::zero(), turn);
    crate::shapes::box_patches([
        center[0].plus(shift[0]),
        Single::ratio(12, 1000),
        center[2].plus(shift[1]),
    ], [Single::ratio(75, 1000), Single::ratio(18, 1000), bay_size[1]], half, MaterialSlot::Marking)
}

/// Adds the markings of the parking bays, one at a time.
fn append_bay_markings_item(
    out: &mut Vec<Patch>,
    bays: u32,
    center: [Single; 3],
    bay_size: [Single; 2],
    turn: Turn,
    half: Turn,
    i: u32,
)
    ensures
        final(out)@ == old(out)@ + bay_markings_item_patches(bays, center, bay_size, turn, half, i),
{
    let row_width = bay_size[0].times(Single::from_u32(bays));
    let local_x = row_width.negated().times(Single::ratio(5, 10)).plus(
        bay_size[0].times(Single::from_u32(i)),
    );
    let shift = rotate_ground_offset(local_x, Single::zero(), turn);
    append_box(out, [center[0].plus(shift[0]), Single::ratio(12, 1000), center[2].plus(shift[1])], [
        Single::ratio(75, 1000),
        Single::ratio(18, 1000),
        bay_size[1],
    ], half, MaterialSlot::Marking);
}

/// Adds the markings of the parking bays.
fn append_bay_markings(
    out: &mut Vec<Patch>,
    bays: u32,
    center: [Single; 3],
    bay_size: [Single; 2],
    turn: Turn,
    half: Turn,
)
    ensures
        final(out)@ == old(out)@ + bay_markings_patches(bays, center, bay_size, turn, half),
{
    let ghost begun = out@;
    let end: u64 = bays as u64 + 1;
    let mut i: u64 = 0;
    assert(out@ =~= begun + bay_markings_upto(bays, center, bay_size, turn, half, 0));
    while i < end
        invariant
            0 <= i,
            i <= end || i == 0,
            end == bays as int + 1,
            end <= 0x1_0000_0000,
            out@ == begun + bay_markings_upto(bays, center, bay_size, turn, half, i as int),
        decreases end - i,
    {
        append_bay_markings_item(out, bays, center, bay_size, turn, half, i as u32);
        assert(out@ =~= begun + bay_markings_upto(bays, center, bay_size, turn, half, i + 1));
        i = i + 1;
    }
    assert(out@ =~= begun + bay_markings_patches(bays, center, bay_size, turn, half));
}

/// The parking row, where it has bays.
pub open spec fn parking_patches(
    bays: u32,
    center: [Single; 3],
    bay_size: [Single; 2],
    turn: Turn,
    half: Turn,
) -> Seq<Patch> {
    (if bays > 0 {
        let row_width = bay_size[0].times(Single::from_u32(bays));
        crate::shapes::box_patches([center[0], Single::ratio((-12) as i32, 1000), center[2]], [
            row_width.plus(Single::one()),
            Single::ratio(25, 1000),
            bay_size[1].plus(Single::ratio(2, 1)),
        ], half, MaterialSlot::Asphalt)
            + bay_markings_patches(bays, center, bay_size, turn, half)
    } else {
        Seq::<Patch>::empty()
    })
}

/// Adds the parking row, where it has bays.
pub fn append_parking(
    out: &mut Vec<Patch>,
    bays: u32,
    center: [Single; 3],
    bay_size: [Single; 2],
    turn: Turn,
    half: Turn,
)
    ensures
        final(out)@ == old(out)@ + parking_patches(bays, center, bay_size, turn, half),
{
    if bays > 0 {
        let row_width = bay_size[0].times(Single::from_u32(bays));
        append_box(out, [center[0], Single::ratio((-12) as i32, 1000), center[2]], [
            row_width.plus(Single::one()),
            Single::ratio(25, 1000),
            bay_size[1].plus(Single::ratio(2, 1)),
        ], half, MaterialSlot::Asphalt);
        append_bay_markings(out, bays, center, bay_size, turn, half);
    }
}

/// Whether a road of a kind is marked between two lanes.
pub open spec fn spec_boundary_drawn(kind: SiteRoadKind, lane: u32, lanes: u32) -> bool {
    match kind {
        SiteRoadKind::UrbanArterial => true,
        SiteRoadKind::HighwayFrontage => true,
        SiteRoadKind::LocalStreet => lane as u64 * 2 == lanes as u64,
        SiteRoadKind::RuralRoad => lane as u64 * 2 == lanes as u64,
    }
}

/// Whether a road of a kind is marked between two lanes.
#[verifier::when_used_as_spec(spec_boundary_drawn)]
pub fn boundary_drawn(kind: SiteRoadKind, lane: u32, lanes: u32) -> (r: bool)
    ensures
        r == spec_boundary_drawn(kind, lane, lanes),
{
    match kind {
        SiteRoadKind::UrbanArterial => true,
        SiteRoadKind::HighwayFrontage => true,
        SiteRoadKind::LocalStreet => lane as u64 * 2 == lanes as u64,
        SiteRoadKind::RuralRoad => lane as u64 * 2 == lanes as u64,
    }
}

/// Width of a road.
pub open spec fn spec_road_depth(lanes: u32, lane_width: Single) -> Single {
    Single::from_u32(lanes).times(lane_width)
}

/// Width of a road.
#[verifier::when_used_as_spec(spec_road_depth)]
pub fn road_depth(lanes: u32, lane_width: Single) -> (r: Single)
    ensures
        r == spec_road_depth(lanes, lane_width),
{
    Single::from_u32(lanes).times(lane_width)
}

/// The markings between the lanes of a road. Those before the `n`th.
pub open spec fn lane_markings_upto(
    g: Single,
    kind: SiteRoadKind,
    lanes: u32,
    lane_width: Single,
    center_z: Single,
    n: int,
) -> Seq<Patch>
    decreases n,
{
    if n <= 1 {
        Seq::empty()
    } else {
        lane_markings_upto(g, kind, lanes, lane_width, center_z, n - 1) + lane_markings_item_patches(
            g,
            kind,
            lanes,
            lane_width,
            center_z,
            (n - 1) as u32,
        )
    }
}

/// The markings between the lanes of a road.
pub open spec fn lane_markings_patches(
    g: Single,
    kind: SiteRoadKind,
    lanes: u32,
    lane_width: Single,
    center_z: Single,
) -> Seq<Patch> {
    lane_markings_upto(g, kind, lanes, lane_width, center_z, lanes as int)
}

/// The markings between the lanes of a road, one at a time.
pub open spec fn lane_markings_item_patches(
    g: Single,
    kind: SiteRoadKind,
    lanes: u32,
    lane_width: Single,
    center_z: Single,
    i: u32,
) -> Seq<Patch> {
    (if boundary_drawn(kind, i, lanes) {
        let z = center_z.minus(road_depth(lanes, lane_width).times(Single::ratio(5, 10))).plus(
            lane_width.times(Single::from_u32(i)),
        );
        crate::shapes::box_patches([Single::zero(), Single::ratio(12, 1000), z], [
            g.times(Single::ratio(185, 100)),
            Single::ratio(18, 1000),
            Single::ratio(75, 1000),
        ], straight(), MaterialSlot::Marking)
    } else {
        Seq::<Patch>::empty()
    })
}

/// Adds the markings between the lanes of a road, one at a time.
fn append_lane_markings_item(
    out: &mut Vec<Patch>,
    g: Single,
    kind: SiteRoadKind,
    lanes: u32,
    lane_width: Single,
    center_z: Single,
    i: u32,
)
    ensures
        final(out)@ == old(out)@ + lane_markings_item_patches(
            g,
            kind,
            lanes,
            lane_width,
            center_z,
            i,
        ),
{
    if boundary_drawn(kind, i, lanes) {
        let z = center_z.minus(road_depth(lanes, lane_width).times(Single::ratio(5, 10))).plus(
            lane_width.times(Single::from_u32(i)),
        );
        append_box(out, [Single::zero(), Single::ratio(12, 1000), z], [
            g.times(Single::ratio(185, 100)),
            Single::ratio(18, 1000),
            Single::ratio(75, 1000),
        ], straight(), MaterialSlot::Marking);
    }
}

/// Adds the markings between the lanes of a road.
fn append_lane_markings(
    out: &mut Vec<Patch>,
    g: Single,
    kind: SiteRoadKind,
    lanes: u32,
    lane_width: Single,
    center_z: Single,
)
    ensures
        final(out)@ == old(out)@ + lane_markings_patches(g, kind, lanes, lane_width, center_z),
{
    let ghost begun = out@;
    let end: u64 = lanes as u64;
    let mut i: u64 = 1;
    assert(out@ =~= begun + lane_markings_upto(g, kind, lanes, lane_width, center_z, 1));
    while i < end
        invariant
            1 <= i,
            i <= end || i == 1,
            end == lanes as int,
            end <= 0x1_0000_0000,
            out@ == begun + lane_markings_upto(g, kind, lanes, lane_width, center_z, i as int),
        decreases end - i,
    {
        append_lane_markings_item(out, g, kind, lanes, lane_width, center_z, i as u32);
        assert(out@ =~= begun + lane_markings_upto(g, kind, lanes, lane_width, center_z, i + 1));
        i = i + 1;
    }
    assert(out@ =~= begun + lane_markings_patches(g, kind, lanes, lane_width, center_z));
}

/// The road, its markings and its curb.
pub open spec fn road_patches(
    g: Single,
    kind: SiteRoadKind,
    lanes: u32,
    lane_width: Single,
    center_z: Single,
    raised_curb: bool,
) -> Seq<Patch> {
    let depth = road_depth(lanes, lane_width);
    crate::shapes::box_patches([Single::zero(), Single::ratio((-12) as i32, 1000), center_z], [
        g.times(Single::ratio(2, 1)),
        Single::ratio(25, 1000),
        depth,
    ], straight(), MaterialSlot::Asphalt)
        + lane_markings_patches(g, kind, lanes, lane_width, center_z)
        + (if kind == SiteRoadKind::HighwayFrontage {
        crate::shapes::box_patches([
            Single::zero(),
            Single::ratio(12, 1000),
            center_z.plus(
                Single::ratio((-1) as i32, 1).times(
                    depth.times(Single::ratio(5, 10)).minus(Single::ratio(22, 100)),
                ),
            ),
        ], [g.times(Single::ratio(195, 100)), Single::ratio(18, 1000), Single::ratio(11, 100)], straight(), MaterialSlot::Marking)
            + crate::shapes::box_patches([
                Single::zero(),
                Single::ratio(12, 1000),
                center_z.plus(
                    Single::one().times(
                        depth.times(Single::ratio(5, 10)).minus(Single::ratio(22, 100)),
                    ),
                ),
            ], [g.times(Single::ratio(195, 100)), Single::ratio(18, 1000), Single::ratio(11, 100)], straight(), MaterialSlot::Marking)
    } else {
        Seq::<Patch>::empty()
    })
        + (if raised_curb {
        crate::shapes::box_patches([
            Single::zero(),
            Single::ratio(6, 100),
            center_z.plus(depth.times(Single::ratio(5, 10))).plus(Single::ratio(11, 100)),
        ], [g.times(Single::ratio(2, 1)), Single::ratio(12, 100), Single::ratio(22, 100)], straight(), MaterialSlot::Concrete)
    } else {
        Seq::<Patch>::empty()
    })
}

/// Adds the road, its markings and its curb.
pub fn append_road(
    out: &mut Vec<Patch>,
    g: Single,
    kind: SiteRoadKind,
    lanes: u32,
    lane_width: Single,
    center_z: Single,
    raised_curb: bool,
)
    ensures
        final(out)@ == old(out)@ + road_patches(g, kind, lanes, lane_width, center_z, raised_curb),
{
    let depth = road_depth(lanes, lane_width);
    append_box(out, [Single::zero(), Single::ratio((-12) as i32, 1000), center_z], [
        g.times(Single::ratio(2, 1)),
        Single::ratio(25, 1000),
        depth,
    ], straight(), MaterialSlot::Asphalt);
    append_lane_markings(out, g, kind, lanes, lane_width, center_z);
    if kind == SiteRoadKind::HighwayFrontage {
        append_box(out, [
            Single::zero(),
            Single::ratio(12, 1000),
            center_z.plus(
                Single::ratio((-1) as i32, 1).times(
                    depth.times(Single::ratio(5, 10)).minus(Single::ratio(22, 100)),
                ),
            ),
        ], [g.times(Single::ratio(195, 100)), Single::ratio(18, 1000), Single::ratio(11, 100)], straight(), MaterialSlot::Marking);
        append_box(out, [
            Single::zero(),
            Single::ratio(12, 1000),
            center_z.plus(
                Single::one().times(
                    depth.times(Single::ratio(5, 10)).minus(Single::ratio(22, 100)),
                ),
            ),
        ], [g.times(Single::ratio(195, 100)), Single::ratio(18, 1000), Single::ratio(11, 100)], straight(), MaterialSlot::Marking);
    }
    if raised_curb {
        append_box(out, [
            Single::zero(),
            Single::ratio(6, 100),
            center_z.plus(depth.times(Single::ratio(5, 10))).plus(Single::ratio(11, 100)),
        ], [g.times(Single::ratio(2, 1)), Single::ratio(12, 100), Single::ratio(22, 100)], straight(), MaterialSlot::Concrete);
    }
}

/// The shaft of a pole and what it carries.
pub open spec fn utility_pole_patches(
    pole: UtilityPoleDescription,
    round: RoundTurns,
) -> Seq<Patch> {
    crate::shapes::cylinder_patches(pole.position, pole.height_m.times(
        Single::ratio(2, 100),
    ).clamp(Single::ratio(1, 10), Single::ratio(2, 10)), pole.height_m, round, if pole.has_light { MaterialSlot::Metal } else { MaterialSlot::Trunk })
        + (if pole.has_light {
        crate::shapes::box_patches([
            pole.position[0].plus(Single::ratio(55, 100)),
            pole.position[1].plus(pole.height_m).minus(Single::ratio(8, 100)),
            pole.position[2],
        ], [Single::ratio(12, 10), Single::ratio(13, 100), Single::ratio(13, 100)], straight(), MaterialSlot::Metal)
            + crate::shapes::box_patches([
                pole.position[0].plus(Single::ratio(105, 100)),
                pole.position[1].plus(pole.height_m).minus(Single::ratio(22, 100)),
                pole.position[2],
            ], [Single::ratio(38, 100), Single::ratio(18, 100), Single::ratio(32, 100)], straight(), MaterialSlot::Trim)
    } else {
        crate::shapes::box_patches([
            pole.position[0],
            pole.position[1].plus(pole.height_m.times(Single::ratio(91, 100))),
            pole.position[2],
        ], [Single::ratio(24, 10), Single::ratio(14, 100), Single::ratio(14, 100)], straight(), MaterialSlot::Trunk)
    })
}

/// Adds the shaft of a pole and what it carries.
pub fn append_utility_pole(out: &mut Vec<Patch>, pole: UtilityPoleDescription, round: RoundTurns)
    ensures
        final(out)@ == old(out)@ + utility_pole_patches(pole, round),
{
    append_cylinder(out, pole.position, pole.height_m.times(Single::ratio(2, 100)).clamp(
        Single::ratio(1, 10),
        Single::ratio(2, 10),
    ), pole.height_m, round, if pole.has_light { MaterialSlot::Metal } else { MaterialSlot::Trunk });
    if pole.has_light {
        append_box(out, [
            pole.position[0].plus(Single::ratio(55, 100)),
            pole.position[1].plus(pole.height_m).minus(Single::ratio(8, 100)),
            pole.position[2],
        ], [Single::ratio(12, 10), Single::ratio(13, 100), Single::ratio(13, 100)], straight(), MaterialSlot::Metal);
        append_box(out, [
            pole.position[0].plus(Single::ratio(105, 100)),
            pole.position[1].plus(pole.height_m).minus(Single::ratio(22, 100)),
            pole.position[2],
        ], [Single::ratio(38, 100), Single::ratio(18, 100), Single::ratio(32, 100)], straight(), MaterialSlot::Trim);
    } else {
        append_box(out, [
            pole.position[0],
            pole.position[1].plus(pole.height_m.times(Single::ratio(91, 100))),
            pole.position[2],
        ], [Single::ratio(24, 10), Single::ratio(14, 100), Single::ratio(14, 100)], straight(), MaterialSlot::Trunk);
    }
}

/// The lowest point of a cable.
pub open spec fn spec_cable_middle(line: UtilityLineDescription) -> [Single; 3] {
    [
        line.start[0].plus(line.end[0]).times(Single::ratio(5, 10)),
        line.start[1].plus(line.end[1]).times(Single::ratio(5, 10)).minus(line.sag_m),
        line.start[2].plus(line.end[2]).times(Single::ratio(5, 10)),
    ]
}

/// The lowest point of a cable.
#[verifier::when_used_as_spec(spec_cable_middle)]
pub fn cable_middle(line: UtilityLineDescription) -> (r: [Single; 3])
    ensures
        r == spec_cable_middle(line),
{
    [
        line.start[0].plus(line.end[0]).times(Single::ratio(5, 10)),
        line.start[1].plus(line.end[1]).times(Single::ratio(5, 10)).minus(line.sag_m),
        line.start[2].plus(line.end[2]).times(Single::ratio(5, 10)),
    ]
}

/// The two straight halves of a cable.
pub open spec fn cable_patches(line: UtilityLineDescription) -> Seq<Patch> {
    crate::shapes::beam_patches(
        line.start,
        cable_middle(line),
        Single::ratio(25, 1000),
        MaterialSlot::Metal,
    )
        + crate::shapes::beam_patches(
            cable_middle(line),
            line.end,
            Single::ratio(25, 1000),
            MaterialSlot::Metal,
        )
}

/// Adds the two straight halves of a cable.
pub fn append_cable(out: &mut Vec<Patch>, line: UtilityLineDescription)
    ensures
        final(out)@ == old(out)@ + cable_patches(line),
{
    append_beam(out, line.start, cable_middle(line), Single::ratio(25, 1000), MaterialSlot::Metal);
    append_beam(out, cable_middle(line), line.end, Single::ratio(25, 1000), MaterialSlot::Metal);
}

/// The poles of a site. Those of the first `n`.
pub open spec fn poles_upto(
    poles: Seq<UtilityPoleDescription>,
    round: RoundTurns,
    n: int,
) -> Seq<Patch>
    decreases n,
{
    if n <= 0 {
        Seq::empty()
    } else {
        poles_upto(poles, round, n - 1) + utility_pole_patches(poles[n - 1], round)
    }
}

/// The poles of a site.
pub open spec fn poles_patches(
    poles: Seq<UtilityPoleDescription>,
    round: RoundTurns,
) -> Seq<Patch> {
    poles_upto(poles, round, poles.len() as int)
}

/// Adds the poles of a site.
pub fn append_poles(out: &mut Vec<Patch>, poles: &Vec<UtilityPoleDescription>, round: RoundTurns)
    ensures
        final(out)@ == old(out)@ + poles_patches(poles@, round),
{
    let ghost begun = out@;
    let mut i: usize = 0;
    assert(out@ =~= begun + poles_upto(poles@, round, 0));
    while i < poles.len()
        invariant
            i <= poles@.len(),
            out@ == begun + poles_upto(poles@, round, i as int),
        decreases poles@.len() - i,
    {
        append_utility_pole(out, poles[i], round);
        assert(out@ =~= begun + poles_upto(poles@, round, i + 1));
        i = i + 1;
    }
}

/// The cables of a site. Those of the first `n`.
pub open spec fn cables_upto(lines: Seq<UtilityLineDescription>, n: int) -> Seq<Patch>
    decreases n,
{
    if n <= 0 {
        Seq::empty()
    } else {
        cables_upto(lines, n - 1) + cable_patches(lines[n - 1])
    }
}

/// The cables of a site.
pub open spec fn cables_patches(lines: Seq<UtilityLineDescription>) -> Seq<Patch> {
    cables_upto(lines, lines.len() as int)
}

/// Adds the cables of a site.
pub fn append_cables(out: &mut Vec<Patch>, lines: &Vec<UtilityLineDescription>)
    ensures
        final(out)@ == old(out)@ + cables_patches(lines@),
{
    let ghost begun = out@;
    let mut i: usize = 0;
    assert(out@ =~= begun + cables_upto(lines@, 0));
    while i < lines.len()
        invariant
            i <= lines@.len(),
            out@ == begun + cables_upto(lines@, i as int),
        decreases lines@.len() - i,
    {
        append_cable(out, lines[i]);
        assert(out@ =~= begun + cables_upto(lines@, i + 1));
        i = i + 1;
    }
}

/// Direction of a frond of a palm with a yaw.
pub open spec fn spec_frond_yaw(yaw: Single, k: u32) -> Single {
    yaw.plus(tau().times(Single::from_u32(k)).over(Single::ratio(6, 1)))
}

/// Direction of a frond of a palm with a yaw.
#[verifier::when_used_as_spec(spec_frond_yaw)]
pub fn frond_yaw(yaw: Single, k: u32) -> (r: Single)
    ensures
        r == spec_frond_yaw(yaw, k),
{
    yaw.plus(tau().times(Single::from_u32(k)).over(Single::ratio(6, 1)))
}

/// Tint of foliage in a season.
pub open spec fn spec_foliage_tint(seasonal: Single) -> [Single; 4] {
    [
        Single::ratio(45, 1000).plus(
            seasonal.negated().max(Single::zero()).times(Single::ratio(16, 100)),
        ).clamp(Single::zero(), Single::one()),
        Single::ratio(19, 100).plus(seasonal.times(Single::ratio(55, 1000))).minus(
            seasonal.negated().max(Single::zero()).times(Single::ratio(4, 100)),
        ).clamp(Single::zero(), Single::one()),
        Single::ratio(35, 1000).minus(
            seasonal.negated().max(Single::zero()).times(Single::ratio(15, 1000)),
        ).clamp(Single::zero(), Single::one()),
        Single::zero(),
    ]
}

/// Tint of foliage in a season.
#[verifier::when_used_as_spec(spec_foliage_tint)]
pub fn foliage_tint(seasonal: Single) -> (r: [Single; 4])
    ensures
        r == spec_foliage_tint(seasonal),
{
    [
        Single::ratio(45, 1000).plus(
            seasonal.negated().max(Single::zero()).times(Single::ratio(16, 100)),
        ).clamp(Single::zero(), Single::one()),
        Single::ratio(19, 100).plus(seasonal.times(Single::ratio(55, 1000))).minus(
            seasonal.negated().max(Single::zero()).times(Single::ratio(4, 100)),
        ).clamp(Single::zero(), Single::one()),
        Single::ratio(35, 1000).minus(
            seasonal.negated().max(Single::zero()).times(Single::ratio(15, 1000)),
        ).clamp(Single::zero(), Single::one()),
        Single::zero(),
    ]
}

/// Share of the height of a plant that its trunk takes.
pub open spec fn spec_trunk_fraction(kind: TreeKind) -> Single {
    if kind == TreeKind::Palm {
        Single::ratio(82, 100)
    } else {
        Single::ratio(48, 100)
    }
}

/// Share of the height of a plant that its trunk takes.
#[verifier::when_used_as_spec(spec_trunk_fraction)]
pub fn trunk_fraction(kind: TreeKind) -> (r: Single)
    ensures
        r == spec_trunk_fraction(kind),
{
    if kind == TreeKind::Palm {
        Single::ratio(82, 100)
    } else {
        Single::ratio(48, 100)
    }
}

/// The lobe of the crown of a broad tree.
pub open spec fn lobe_patches(
    tree: TreeInstance,
    turn: Turn,
    x: Single,
    y: Single,
    z: Single,
) -> Seq<Patch> {
    let crown_y = tree.position[1].plus(tree.height_m.times(Single::ratio(68, 100)));
    let shift = rotate_ground_offset(x, z, turn);
    crate::shapes::ellipsoid_tinted_patches([
        tree.position[0].plus(shift[0].times(tree.crown_radius_m)),
        crown_y.plus(y.times(tree.crown_radius_m)),
        tree.position[2].plus(shift[1].times(tree.crown_radius_m)),
    ], [
        tree.crown_radius_m.times(Single::ratio(78, 100)),
        tree.crown_radius_m.times(Single::ratio(62, 100)),
        tree.crown_radius_m.times(Single::ratio(74, 100)),
    ], MaterialSlot::Foliage, foliage_tint(tree.seasonal_variation))
}

/// Adds the lobe of the crown of a broad tree.
pub fn append_lobe(
    out: &mut Vec<Patch>,
    tree: TreeInstance,
    turn: Turn,
    x: Single,
    y: Single,
    z: Single,
)
    ensures
        final(out)@ == old(out)@ + lobe_patches(tree, turn, x, y, z),
{
    let crown_y = tree.position[1].plus(tree.height_m.times(Single::ratio(68, 100)));
    let shift = rotate_ground_offset(x, z, turn);
    append_ellipsoid_tinted(out, [
        tree.position[0].plus(shift[0].times(tree.crown_radius_m)),
        crown_y.plus(y.times(tree.crown_radius_m)),
        tree.position[2].plus(shift[1].times(tree.crown_radius_m)),
    ], [
        tree.crown_radius_m.times(Single::ratio(78, 100)),
        tree.crown_radius_m.times(Single::ratio(62, 100)),
        tree.crown_radius_m.times(Single::ratio(74, 100)),
    ], MaterialSlot::Foliage, foliage_tint(tree.seasonal_variation));
}

/// The crown of a broad tree.
pub open spec fn deciduous_crown_patches(tree: TreeInstance, turn: Turn) -> Seq<Patch> {
    lobe_patches(tree, turn, Single::zero(), Single::zero(), Single::zero())
        + lobe_patches(
            tree,
            turn,
            Single::ratio((-42) as i32, 100),
            Single::ratio((-8) as i32, 100),
            Single::ratio(15, 100),
        )
        + lobe_patches(
            tree,
            turn,
            Single::ratio(38, 100),
            Single::ratio(3, 100),
            Single::ratio((-18) as i32, 100),
        )
        + lobe_patches(
            tree,
            turn,
            Single::ratio(8, 100),
            Single::ratio(2, 10),
            Single::ratio(25, 100),
        )
        + lobe_patches(
            tree,
            turn,
            Single::ratio((-8) as i32, 100),
            Single::ratio(12, 100),
            Single::ratio((-36) as i32, 100),
        )
}

/// Adds the crown of a broad tree.
pub fn append_deciduous_crown(out: &mut Vec<Patch>, tree: TreeInstance, turn: Turn)
    ensures
        final(out)@ == old(out)@ + deciduous_crown_patches(tree, turn),
{
    append_lobe(out, tree, turn, Single::zero(), Single::zero(), Single::zero());
    append_lobe(
        out,
        tree,
        turn,
        Single::ratio((-42) as i32, 100),
        Single::ratio((-8) as i32, 100),
        Single::ratio(15, 100),
    );
    append_lobe(
        out,
        tree,
        turn,
        Single::ratio(38, 100),
        Single::ratio(3, 100),
        Single::ratio((-18) as i32, 100),
    );
    append_lobe(
        out,
        tree,
        turn,
        Single::ratio(8, 100),
        Single::ratio(2, 10),
        Single::ratio(25, 100),
    );
    append_lobe(
        out,
        tree,
        turn,
        Single::ratio((-8) as i32, 100),
        Single::ratio(12, 100),
        Single::ratio((-36) as i32, 100),
    );
}

/// The layer of an evergreen.
pub open spec fn layer_patches(
    tree: TreeInstance,
    turn: Turn,
    k: u32,
    height: Single,
    share: Single,
) -> Seq<Patch> {
    let shift = rotate_ground_offset(tree.crown_radius_m.times(Single::ratio(8, 100)).times(
        Single::from_u32(k),
    ), Single::zero(), turn);
    crate::shapes::ellipsoid_tinted_patches([
        tree.position[0].plus(shift[0]),
        tree.position[1].plus(tree.height_m.times(height)),
        tree.position[2].plus(shift[1]),
    ], [
        tree.crown_radius_m.times(share),
        tree.crown_radius_m.times(share).times(Single::ratio(72, 100)),
        tree.crown_radius_m.times(share),
    ], MaterialSlot::Foliage, foliage_tint(tree.seasonal_variation))
}

/// Adds the layer of an evergreen.
pub fn append_layer(
    out: &mut Vec<Patch>,
    tree: TreeInstance,
    turn: Turn,
    k: u32,
    height: Single,
    share: Single,
)
    ensures
        final(out)@ == old(out)@ + layer_patches(tree, turn, k, height, share),
{
    let shift = rotate_ground_offset(tree.crown_radius_m.times(Single::ratio(8, 100)).times(
        Single::from_u32(k),
    ), Single::zero(), turn);
    append_ellipsoid_tinted(out, [
        tree.position[0].plus(shift[0]),
        tree.position[1].plus(tree.height_m.times(height)),
        tree.position[2].plus(shift[1]),
    ], [
        tree.crown_radius_m.times(share),
        tree.crown_radius_m.times(share).times(Single::ratio(72, 100)),
        tree.crown_radius_m.times(share),
    ], MaterialSlot::Foliage, foliage_tint(tree.seasonal_variation));
}

/// The layers of an evergreen.
pub open spec fn evergreen_crown_patches(tree: TreeInstance, turn: Turn) -> Seq<Patch> {
    layer_patches(tree, turn, 0, Single::ratio(52, 100), Single::one())
        + layer_patches(tree, turn, 1, Single::ratio(68, 100), Single::ratio(78, 100))
        + layer_patches(tree, turn, 2, Single::ratio(82, 100), Single::ratio(52, 100))
}

/// Adds the layers of an evergreen.
pub fn append_evergreen_crown(out: &mut Vec<Patch>, tree: TreeInstance, turn: Turn)
    ensures
        final(out)@ == old(out)@ + evergreen_crown_patches(tree, turn),
{
    append_layer(out, tree, turn, 0, Single::ratio(52, 100), Single::one());
    append_layer(out, tree, turn, 1, Single::ratio(68, 100), Single::ratio(78, 100));
    append_layer(out, tree, turn, 2, Single::ratio(82, 100), Single::ratio(52, 100));
}

/// The frond of a palm.
pub open spec fn frond_patches(tree: TreeInstance, turn: Turn, half: Turn) -> Seq<Patch> {
    let crown_y = tree.position[1].plus(tree.height_m.times(Single::ratio(86, 100)));
    let shift = rotate_ground_offset(
        tree.crown_radius_m.times(Single::ratio(62, 100)),
        Single::zero(),
        turn,
    );
    crate::shapes::box_tinted_patches([
        tree.position[0].plus(shift[0]),
        crown_y.minus(tree.crown_radius_m.times(Single::ratio(12, 100))),
        tree.position[2].plus(shift[1]),
    ], [
        tree.crown_radius_m.times(Single::ratio(125, 100)),
        Single::ratio(1, 10),
        tree.crown_radius_m.times(Single::ratio(22, 100)),
    ], half, MaterialSlot::Foliage, foliage_tint(tree.seasonal_variation))
}

/// Adds the frond of a palm.
pub fn append_frond(out: &mut Vec<Patch>, tree: TreeInstance, turn: Turn, half: Turn)
    ensures
        final(out)@ == old(out)@ + frond_patches(tree, turn, half),
{
    let crown_y = tree.position[1].plus(tree.height_m.times(Single::ratio(86, 100)));
    let shift = rotate_ground_offset(
        tree.crown_radius_m.times(Single::ratio(62, 100)),
        Single::zero(),
        turn,
    );
    append_box_tinted(out, [
        tree.position[0].plus(shift[0]),
        crown_y.minus(tree.crown_radius_m.times(Single::ratio(12, 100))),
        tree.position[2].plus(shift[1]),
    ], [
        tree.crown_radius_m.times(Single::ratio(125, 100)),
        Single::ratio(1, 10),
        tree.crown_radius_m.times(Single::ratio(22, 100)),
    ], half, MaterialSlot::Foliage, foliage_tint(tree.seasonal_variation));
}

/// The crown and fronds of a palm.
pub open spec fn palm_crown_patches(tree: TreeInstance, turns: TreeTurns) -> Seq<Patch> {
    let crown_y = tree.position[1].plus(tree.height_m.times(Single::ratio(86, 100)));
    crate::shapes::ellipsoid_tinted_patches([tree.position[0], crown_y, tree.position[2]], [
        tree.crown_radius_m.times(Single::ratio(48, 100)),
        tree.crown_radius_m.times(Single::ratio(34, 100)),
        tree.crown_radius_m.times(Single::ratio(48, 100)),
    ], MaterialSlot::Foliage, foliage_tint(tree.seasonal_variation))
        + frond_patches(tree, turns.fronds[0], turns.frond_halves[0])
        + frond_patches(tree, turns.fronds[1], turns.frond_halves[1])
        + frond_patches(tree, turns.fronds[2], turns.frond_halves[2])
        + frond_patches(tree, turns.fronds[3], turns.frond_halves[3])
        + frond_patches(tree, turns.fronds[4], turns.frond_halves[4])
        + frond_patches(tree, turns.fronds[5], turns.frond_halves[5])
}

/// Adds the crown and fronds of a palm.
pub fn append_palm_crown(out: &mut Vec<Patch>, tree: TreeInstance, turns: TreeTurns)
    ensures
        final(out)@ == old(out)@ + palm_crown_patches(tree, turns),
{
    let crown_y = tree.position[1].plus(tree.height_m.times(Single::ratio(86, 100)));
    append_ellipsoid_tinted(out, [tree.position[0], crown_y, tree.position[2]], [
        tree.crown_radius_m.times(Single::ratio(48, 100)),
        tree.crown_radius_m.times(Single::ratio(34, 100)),
        tree.crown_radius_m.times(Single::ratio(48, 100)),
    ], MaterialSlot::Foliage, foliage_tint(tree.seasonal_variation));
    append_frond(out, tree, turns.fronds[0], turns.frond_halves[0]);
    append_frond(out, tree, turns.fronds[1], turns.frond_halves[1]);
    append_frond(out, tree, turns.fronds[2], turns.frond_halves[2]);
    append_frond(out, tree, turns.fronds[3], turns.frond_halves[3]);
    append_frond(out, tree, turns.fronds[4], turns.frond_halves[4]);
    append_frond(out, tree, turns.fronds[5], turns.frond_halves[5]);
}

/// The lobe of a shrub.
pub open spec fn bush_patches(tree: TreeInstance, turn: Turn, x: Single) -> Seq<Patch> {
    let shift = rotate_ground_offset(x.times(tree.crown_radius_m), Single::zero(), turn);
    crate::shapes::ellipsoid_tinted_patches([
        tree.position[0].plus(shift[0]),
        tree.position[1].plus(tree.height_m.times(Single::ratio(48, 100))),
        tree.position[2].plus(shift[1]),
    ], [
        tree.crown_radius_m.times(Single::ratio(72, 100)),
        tree.height_m.times(Single::ratio(48, 100)),
        tree.crown_radius_m.times(Single::ratio(62, 100)),
    ], MaterialSlot::Foliage, foliage_tint(tree.seasonal_variation))
}

/// Adds the lobe of a shrub.
pub fn append_bush(out: &mut Vec<Patch>, tree: TreeInstance, turn: Turn, x: Single)
    ensures
        final(out)@ == old(out)@ + bush_patches(tree, turn, x),
{
    let shift = rotate_ground_offset(x.times(tree.crown_radius_m), Single::zero(), turn);
    append_ellipsoid_tinted(out, [
        tree.position[0].plus(shift[0]),
        tree.position[1].plus(tree.height_m.times(Single::ratio(48, 100))),
        tree.position[2].plus(shift[1]),
    ], [
        tree.crown_radius_m.times(Single::ratio(72, 100)),
        tree.height_m.times(Single::ratio(48, 100)),
        tree.crown_radius_m.times(Single::ratio(62, 100)),
    ], MaterialSlot::Foliage, foliage_tint(tree.seasonal_variation));
}

/// The lobes of a shrub.
pub open spec fn shrub_crown_patches(tree: TreeInstance, turn: Turn) -> Seq<Patch> {
    bush_patches(tree, turn, Single::ratio((-65) as i32, 100))
        + bush_patches(tree, turn, Single::zero())
        + bush_patches(tree, turn, Single::ratio(65, 100))
}

/// Adds the lobes of a shrub.
pub fn append_shrub_crown(out: &mut Vec<Patch>, tree: TreeInstance, turn: Turn)
    ensures
        final(out)@ == old(out)@ + shrub_crown_patches(tree, turn),
{
    append_bush(out, tree, turn, Single::ratio((-65) as i32, 100));
    append_bush(out, tree, turn, Single::zero());
    append_bush(out, tree, turn, Single::ratio(65, 100));
}

/// The trunk and crown of a plant.
pub open spec fn tree_patches(
    tree: TreeInstance,
    turns: TreeTurns,
    round: RoundTurns,
) -> Seq<Patch> {
    (if tree.kind != TreeKind::Shrub {
        crate::shapes::cylinder_patches(tree.position, tree.crown_radius_m.times(
            Single::ratio(16, 100),
        ), tree.height_m.times(trunk_fraction(tree.kind)), round, MaterialSlot::Trunk)
    } else {
        Seq::<Patch>::empty()
    })
        + (match tree.kind {
        TreeKind::Deciduous => {
            deciduous_crown_patches(tree, turns.turn)
        },
        TreeKind::Evergreen => {
            evergreen_crown_patches(tree, turns.turn)
        },
        TreeKind::Palm => {
            palm_crown_patches(tree, turns)
        },
        TreeKind::Shrub => {
            shrub_crown_patches(tree, turns.turn)
        },
    })
}

/// Adds the trunk and crown of a plant.
pub fn append_tree(out: &mut Vec<Patch>, tree: TreeInstance, turns: TreeTurns, round: RoundTurns)
    ensures
        final(out)@ == old(out)@ + tree_patches(tree, turns, round),
{
    if tree.kind != TreeKind::Shrub {
        append_cylinder(out, tree.position, tree.crown_radius_m.times(Single::ratio(16, 100)), tree.height_m.times(
            trunk_fraction(tree.kind),
        ), round, MaterialSlot::Trunk);
    }
    match tree.kind {
        TreeKind::Deciduous => {
            append_deciduous_crown(out, tree, turns.turn);
        },
        TreeKind::Evergreen => {
            append_evergreen_crown(out, tree, turns.turn);
        },
        TreeKind::Palm => {
            append_palm_crown(out, tree, turns);
        },
        TreeKind::Shrub => {
            append_shrub_crown(out, tree, turns.turn);
        },
    }
}

/// Size of an object: the one given, or its family's at its scale.
pub open spec fn spec_occluder_size(occluder: SceneOccluder, base: [Single; 3]) -> [Single; 3] {
    if occluder.is_sized() {
        occluder.nominal_size_m
    } else {
        [
            base[0].times(occluder.scale),
            base[1].times(occluder.scale),
            base[2].times(occluder.scale),
        ]
    }
}

/// Size of an object: the one given, or its family's at its scale.
#[verifier::when_used_as_spec(spec_occluder_size)]
pub fn occluder_size(occluder: SceneOccluder, base: [Single; 3]) -> (r: [Single; 3])
    ensures
        r == spec_occluder_size(occluder, base),
{
    if occluder.is_sized() {
        occluder.nominal_size_m
    } else {
        [
            base[0].times(occluder.scale),
            base[1].times(occluder.scale),
            base[2].times(occluder.scale),
        ]
    }
}

/// The same turn for every frond, of a plant that has none.
pub open spec fn spec_plain_turns(turn: Turn) -> TreeTurns {
    TreeTurns {
        turn,
        fronds: [turn, turn, turn, turn, turn, turn],
        frond_halves: [turn, turn, turn, turn, turn, turn],
    }
}

/// The same turn for every frond, of a plant that has none.
#[verifier::when_used_as_spec(spec_plain_turns)]
pub fn plain_turns(turn: Turn) -> (r: TreeTurns)
    ensures
        r == spec_plain_turns(turn),
{
    TreeTurns {
        turn,
        fronds: [turn, turn, turn, turn, turn, turn],
        frond_halves: [turn, turn, turn, turn, turn, turn],
    }
}

/// The body and glass of a vehicle.
pub open spec fn vehicle_patches(occluder: SceneOccluder, half: Turn) -> Seq<Patch> {
    let p = occluder.position;
    let size = occluder_size(occluder, [
        Single::ratio(42, 10),
        Single::ratio(144, 100),
        Single::ratio(175, 100),
    ]);
    crate::shapes::box_patches([p[0], p[1].plus(size[1].times(Single::ratio(29, 100))), p[2]], [
        size[0],
        size[1].times(Single::ratio(58, 100)),
        size[2],
    ], half, MaterialSlot::Metal)
        + crate::shapes::box_tinted_pattern_patches([
            p[0],
            p[1].plus(size[1].times(Single::ratio(76, 100))),
            p[2],
        ], [
            size[0].times(Single::ratio(54, 100)),
            size[1].times(Single::ratio(42, 100)),
            size[2].times(Single::ratio(88, 100)),
        ], half, MaterialSlot::Glass, untinted(), SurfacePattern::vehicle_glass())
}

/// Adds the body and glass of a vehicle.
pub fn append_vehicle(out: &mut Vec<Patch>, occluder: SceneOccluder, half: Turn)
    ensures
        final(out)@ == old(out)@ + vehicle_patches(occluder, half),
{
    let p = occluder.position;
    let size = occluder_size(occluder, [
        Single::ratio(42, 10),
        Single::ratio(144, 100),
        Single::ratio(175, 100),
    ]);
    append_box(out, [p[0], p[1].plus(size[1].times(Single::ratio(29, 100))), p[2]], [
        size[0],
        size[1].times(Single::ratio(58, 100)),
        size[2],
    ], half, MaterialSlot::Metal);
    append_box_tinted_pattern(out, [p[0], p[1].plus(size[1].times(Single::ratio(76, 100))), p[2]], [
        size[0].times(Single::ratio(54, 100)),
        size[1].times(Single::ratio(42, 100)),
        size[2].times(Single::ratio(88, 100)),
    ], half, MaterialSlot::Glass, untinted(), SurfacePattern::vehicle_glass());
}

/// The pole and panel of a freestanding sign.
pub open spec fn pole_sign_patches(
    occluder: SceneOccluder,
    half: Turn,
    round: RoundTurns,
) -> Seq<Patch> {
    let p = occluder.position;
    let size = occluder_size(occluder, [
        Single::ratio(25, 10),
        Single::ratio(51, 10),
        Single::ratio(18, 100),
    ]);
    let panel_height = size[1].times(Single::ratio(28, 100)).clamp(
        Single::ratio(45, 100),
        size[1].times(Single::ratio(55, 100)),
    );
    crate::shapes::cylinder_patches(p, size[0].times(Single::ratio(45, 1000)).clamp(
        Single::ratio(6, 100),
        Single::ratio(22, 100),
    ), size[1].minus(panel_height.times(Single::ratio(5, 10))), round, MaterialSlot::Metal)
        + crate::shapes::panel_tinted_pattern_patches([
            p[0],
            p[1].plus(size[1]).minus(panel_height.times(Single::ratio(5, 10))),
            p[2],
        ], [size[0], panel_height, size[2]], half, MaterialSlot::Sign, untinted(), SurfacePattern::generic_sign())
}

/// Adds the pole and panel of a freestanding sign.
pub fn append_pole_sign(
    out: &mut Vec<Patch>,
    occluder: SceneOccluder,
    half: Turn,
    round: RoundTurns,
)
    ensures
        final(out)@ == old(out)@ + pole_sign_patches(occluder, half, round),
{
    let p = occluder.position;
    let size = occluder_size(occluder, [
        Single::ratio(25, 10),
        Single::ratio(51, 10),
        Single::ratio(18, 100),
    ]);
    let panel_height = size[1].times(Single::ratio(28, 100)).clamp(
        Single::ratio(45, 100),
        size[1].times(Single::ratio(55, 100)),
    );
    append_cylinder(out, p, size[0].times(Single::ratio(45, 1000)).clamp(
        Single::ratio(6, 100),
        Single::ratio(22, 100),
    ), size[1].minus(panel_height.times(Single::ratio(5, 10))), round, MaterialSlot::Metal);
    append_panel_tinted_pattern(out, [
        p[0],
        p[1].plus(size[1]).minus(panel_height.times(Single::ratio(5, 10))),
        p[2],
    ], [size[0], panel_height, size[2]], half, MaterialSlot::Sign, untinted(), SurfacePattern::generic_sign());
}

/// The shaft, arm and cables of a utility pole.
pub open spec fn pole_occluder_patches(
    occluder: SceneOccluder,
    half: Turn,
    round: RoundTurns,
) -> Seq<Patch> {
    let p = occluder.position;
    let size = occluder_size(occluder, [
        Single::ratio(32, 100),
        Single::ratio(75, 10),
        Single::ratio(32, 100),
    ]);
    crate::shapes::cylinder_patches(
        p,
        size[0].times(Single::ratio(5, 10)),
        size[1],
        round,
        MaterialSlot::Trunk,
    )
        + crate::shapes::box_patches([p[0], p[1].plus(size[1].times(Single::ratio(91, 100))), p[2]], [
            size[0].times(Single::ratio(9, 1)),
            size[0].times(Single::ratio(5, 10)),
            size[2].times(Single::ratio(5, 10)),
        ], half, MaterialSlot::Trunk)
        + crate::shapes::box_patches([
            p[0].plus(Single::ratio((-11) as i32, 10).times(size[0]).times(Single::ratio(3, 1))),
            p[1].plus(size[1].times(Single::ratio(9, 10))),
            p[2].plus(size[1].times(Single::ratio(46, 100))),
        ], [
            size[0].times(Single::ratio(1, 10)),
            size[0].times(Single::ratio(1, 10)),
            size[1].times(Single::ratio(92, 100)),
        ], half, MaterialSlot::Metal)
        + crate::shapes::box_patches([
            p[0].plus(Single::zero().times(size[0]).times(Single::ratio(3, 1))),
            p[1].plus(size[1].times(Single::ratio(9, 10))),
            p[2].plus(size[1].times(Single::ratio(46, 100))),
        ], [
            size[0].times(Single::ratio(1, 10)),
            size[0].times(Single::ratio(1, 10)),
            size[1].times(Single::ratio(92, 100)),
        ], half, MaterialSlot::Metal)
        + crate::shapes::box_patches([
            p[0].plus(Single::ratio(11, 10).times(size[0]).times(Single::ratio(3, 1))),
            p[1].plus(size[1].times(Single::ratio(9, 10))),
            p[2].plus(size[1].times(Single::ratio(46, 100))),
        ], [
            size[0].times(Single::ratio(1, 10)),
            size[0].times(Single::ratio(1, 10)),
            size[1].times(Single::ratio(92, 100)),
        ], half, MaterialSlot::Metal)
}

/// Adds the shaft, arm and cables of a utility pole.
pub fn append_pole_occluder(
    out: &mut Vec<Patch>,
    occluder: SceneOccluder,
    half: Turn,
    round: RoundTurns,
)
    ensures
        final(out)@ == old(out)@ + pole_occluder_patches(occluder, half, round),
{
    let p = occluder.position;
    let size = occluder_size(occluder, [
        Single::ratio(32, 100),
        Single::ratio(75, 10),
        Single::ratio(32, 100),
    ]);
    append_cylinder(
        out,
        p,
        size[0].times(Single::ratio(5, 10)),
        size[1],
        round,
        MaterialSlot::Trunk,
    );
    append_box(out, [p[0], p[1].plus(size[1].times(Single::ratio(91, 100))), p[2]], [
        size[0].times(Single::ratio(9, 1)),
        size[0].times(Single::ratio(5, 10)),
        size[2].times(Single::ratio(5, 10)),
    ], half, MaterialSlot::Trunk);
    append_box(out, [
        p[0].plus(Single::ratio((-11) as i32, 10).times(size[0]).times(Single::ratio(3, 1))),
        p[1].plus(size[1].times(Single::ratio(9, 10))),
        p[2].plus(size[1].times(Single::ratio(46, 100))),
    ], [
        size[0].times(Single::ratio(1, 10)),
        size[0].times(Single::ratio(1, 10)),
        size[1].times(Single::ratio(92, 100)),
    ], half, MaterialSlot::Metal);
    append_box(out, [
        p[0].plus(Single::zero().times(size[0]).times(Single::ratio(3, 1))),
        p[1].plus(size[1].times(Single::ratio(9, 10))),
        p[2].plus(size[1].times(Single::ratio(46, 100))),
    ], [
        size[0].times(Single::ratio(1, 10)),
        size[0].times(Single::ratio(1, 10)),
        size[1].times(Single::ratio(92, 100)),
    ], half, MaterialSlot::Metal);
    append_box(out, [
        p[0].plus(Single::ratio(11, 10).times(size[0]).times(Single::ratio(3, 1))),
        p[1].plus(size[1].times(Single::ratio(9, 10))),
        p[2].plus(size[1].times(Single::ratio(46, 100))),
    ], [
        size[0].times(Single::ratio(1, 10)),
        size[0].times(Single::ratio(1, 10)),
        size[1].times(Single::ratio(92, 100)),
    ], half, MaterialSlot::Metal);
}

/// The lobes of a planted shrub.
pub open spec fn shrub_occluder_patches(occluder: SceneOccluder) -> Seq<Patch> {
    let p = occluder.position;
    let size = occluder_size(occluder, [
        Single::ratio(29, 10),
        Single::ratio(13, 10),
        Single::ratio(15, 10),
    ]);
    crate::shapes::ellipsoid_tinted_patches([
        p[0].plus(Single::ratio((-7) as i32, 10).times(size[0]).times(Single::ratio(32, 100))),
        p[1].plus(size[1].times(Single::ratio(45, 100))),
        p[2],
    ], [
        size[0].times(Single::ratio(34, 100)),
        size[1].times(Single::ratio(52, 100)),
        size[2].times(Single::ratio(46, 100)),
    ], MaterialSlot::Foliage, untinted())
        + crate::shapes::ellipsoid_tinted_patches([
            p[0].plus(Single::zero().times(size[0]).times(Single::ratio(32, 100))),
            p[1].plus(size[1].times(Single::ratio(45, 100))),
            p[2],
        ], [
            size[0].times(Single::ratio(34, 100)),
            size[1].times(Single::ratio(52, 100)),
            size[2].times(Single::ratio(46, 100)),
        ], MaterialSlot::Foliage, untinted())
        + crate::shapes::ellipsoid_tinted_patches([
            p[0].plus(Single::ratio(7, 10).times(size[0]).times(Single::ratio(32, 100))),
            p[1].plus(size[1].times(Single::ratio(45, 100))),
            p[2],
        ], [
            size[0].times(Single::ratio(34, 100)),
            size[1].times(Single::ratio(52, 100)),
            size[2].times(Single::ratio(46, 100)),
        ], MaterialSlot::Foliage, untinted())
}

/// Adds the lobes of a planted shrub.
pub fn append_shrub_occluder(out: &mut Vec<Patch>, occluder: SceneOccluder)
    ensures
        final(out)@ == old(out)@ + shrub_occluder_patches(occluder),
{
    let p = occluder.position;
    let size = occluder_size(occluder, [
        Single::ratio(29, 10),
        Single::ratio(13, 10),
        Single::ratio(15, 10),
    ]);
    append_ellipsoid_tinted(out, [
        p[0].plus(Single::ratio((-7) as i32, 10).times(size[0]).times(Single::ratio(32, 100))),
        p[1].plus(size[1].times(Single::ratio(45, 100))),
        p[2],
    ], [
        size[0].times(Single::ratio(34, 100)),
        size[1].times(Single::ratio(52, 100)),
        size[2].times(Single::ratio(46, 100)),
    ], MaterialSlot::Foliage, untinted());
    append_ellipsoid_tinted(out, [
        p[0].plus(Single::zero().times(size[0]).times(Single::ratio(32, 100))),
        p[1].plus(size[1].times(Single::ratio(45, 100))),
        p[2],
    ], [
        size[0].times(Single::ratio(34, 100)),
        size[1].times(Single::ratio(52, 100)),
        size[2].times(Single::ratio(46, 100)),
    ], MaterialSlot::Foliage, untinted());
    append_ellipsoid_tinted(out, [
        p[0].plus(Single::ratio(7, 10).times(size[0]).times(Single::ratio(32, 100))),
        p[1].plus(size[1].times(Single::ratio(45, 100))),
        p[2],
    ], [
        size[0].times(Single::ratio(34, 100)),
        size[1].times(Single::ratio(52, 100)),
        size[2].times(Single::ratio(46, 100)),
    ], MaterialSlot::Foliage, untinted());
}

/// The shaft, arm and lamp of a street light.
pub open spec fn street_light_patches(occluder: SceneOccluder, round: RoundTurns) -> Seq<Patch> {
    let p = occluder.position;
    let size = occluder_size(occluder, [
        Single::ratio(22, 100),
        Single::ratio(52, 10),
        Single::ratio(22, 100),
    ]);
    crate::shapes::cylinder_patches(
        p,
        size[0].times(Single::ratio(5, 10)),
        size[1],
        round,
        MaterialSlot::Metal,
    )
        + crate::shapes::box_patches([
            p[0].plus(size[1].times(Single::ratio(11, 100))),
            p[1].plus(size[1].times(Single::ratio(99, 100))),
            p[2],
        ], [
            size[1].times(Single::ratio(23, 100)),
            size[0].times(Single::ratio(6, 10)),
            size[2].times(Single::ratio(6, 10)),
        ], straight(), MaterialSlot::Metal)
        + crate::shapes::box_patches([
            p[0].plus(size[1].times(Single::ratio(2, 10))),
            p[1].plus(size[1].times(Single::ratio(96, 100))),
            p[2],
        ], [
            size[0].times(Single::ratio(17, 10)),
            size[0].times(Single::ratio(8, 10)),
            size[2].times(Single::ratio(145, 100)),
        ], straight(), MaterialSlot::Trim)
}

/// Adds the shaft, arm and lamp of a street light.
pub fn append_street_light(out: &mut Vec<Patch>, occluder: SceneOccluder, round: RoundTurns)
    ensures
        final(out)@ == old(out)@ + street_light_patches(occluder, round),
{
    let p = occluder.position;
    let size = occluder_size(occluder, [
        Single::ratio(22, 100),
        Single::ratio(52, 10),
        Single::ratio(22, 100),
    ]);
    append_cylinder(
        out,
        p,
        size[0].times(Single::ratio(5, 10)),
        size[1],
        round,
        MaterialSlot::Metal,
    );
    append_box(out, [
        p[0].plus(size[1].times(Single::ratio(11, 100))),
        p[1].plus(size[1].times(Single::ratio(99, 100))),
        p[2],
    ], [
        size[1].times(Single::ratio(23, 100)),
        size[0].times(Single::ratio(6, 10)),
        size[2].times(Single::ratio(6, 10)),
    ], straight(), MaterialSlot::Metal);
    append_box(out, [
        p[0].plus(size[1].times(Single::ratio(2, 10))),
        p[1].plus(size[1].times(Single::ratio(96, 100))),
        p[2],
    ], [
        size[0].times(Single::ratio(17, 10)),
        size[0].times(Single::ratio(8, 10)),
        size[2].times(Single::ratio(145, 100)),
    ], straight(), MaterialSlot::Trim);
}

/// The body and head of a person.
pub open spec fn pedestrian_patches(occluder: SceneOccluder, round: RoundTurns) -> Seq<Patch> {
    let p = occluder.position;
    let size = occluder_size(occluder, [
        Single::ratio(62, 100),
        Single::ratio(172, 100),
        Single::ratio(42, 100),
    ]);
    crate::shapes::cylinder_patches(p, size[0].times(Single::ratio(29, 100)), size[1].times(
        Single::ratio(73, 100),
    ), round, MaterialSlot::Occluder)
        + crate::shapes::ellipsoid_tinted_patches([
            p[0],
            p[1].plus(size[1].times(Single::ratio(9, 10))),
            p[2],
        ], [
            size[0].times(Single::ratio(36, 100)),
            size[0].times(Single::ratio(44, 100)),
            size[2].times(Single::ratio(48, 100)),
        ], MaterialSlot::Occluder, untinted())
}

/// Adds the body and head of a person.
pub fn append_pedestrian(out: &mut Vec<Patch>, occluder: SceneOccluder, round: RoundTurns)
    ensures
        final(out)@ == old(out)@ + pedestrian_patches(occluder, round),
{
    let p = occluder.position;
    let size = occluder_size(occluder, [
        Single::ratio(62, 100),
        Single::ratio(172, 100),
        Single::ratio(42, 100),
    ]);
    append_cylinder(out, p, size[0].times(Single::ratio(29, 100)), size[1].times(
        Single::ratio(73, 100),
    ), round, MaterialSlot::Occluder);
    append_ellipsoid_tinted(out, [p[0], p[1].plus(size[1].times(Single::ratio(9, 10))), p[2]], [
        size[0].times(Single::ratio(36, 100)),
        size[0].times(Single::ratio(44, 100)),
        size[2].times(Single::ratio(48, 100)),
    ], MaterialSlot::Occluder, untinted());
}

/// The plant that a vegetation object stands for.
pub open spec fn spec_vegetation_tree(occluder: SceneOccluder) -> TreeInstance {
    let size = occluder_size(occluder, [
        Single::ratio(36, 10),
        Single::ratio(55, 10),
        Single::ratio(36, 10),
    ]);
    TreeInstance {
        position: occluder.position,
        height_m: size[1],
        crown_radius_m: size[0].max(size[2]).times(Single::ratio(5, 10)),
        kind: TreeKind::Deciduous,
        yaw_radians: occluder.yaw_radians,
        seasonal_variation: Single::zero(),
    }
}

/// The plant that a vegetation object stands for.
#[verifier::when_used_as_spec(spec_vegetation_tree)]
pub fn vegetation_tree(occluder: SceneOccluder) -> (r: TreeInstance)
    ensures
        r == spec_vegetation_tree(occluder),
{
    let size = occluder_size(occluder, [
        Single::ratio(36, 10),
        Single::ratio(55, 10),
        Single::ratio(36, 10),
    ]);
    TreeInstance {
        position: occluder.position,
        height_m: size[1],
        crown_radius_m: size[0].max(size[2]).times(Single::ratio(5, 10)),
        kind: TreeKind::Deciduous,
        yaw_radians: occluder.yaw_radians,
        seasonal_variation: Single::zero(),
    }
}

/// The surfaces of an object.
pub open spec fn occluder_patches(
    occluder: SceneOccluder,
    turns: OccluderTurns,
    round: RoundTurns,
) -> Seq<Patch> {
    (match occluder.kind {
        SceneOccluderKind::Vehicle => {
            vehicle_patches(occluder, turns.half)
        },
        SceneOccluderKind::PoleSign => {
            pole_sign_patches(occluder, turns.half, round)
        },
        SceneOccluderKind::UtilityPole => {
            pole_occluder_patches(occluder, turns.half, round)
        },
        SceneOccluderKind::Shrub => {
            shrub_occluder_patches(occluder)
        },
        SceneOccluderKind::Hvac => {
            let p = occluder.position;
            let size = occluder_size(occluder, [
                Single::ratio(2, 1),
                Single::ratio(12, 10),
                Single::ratio(14, 10),
            ]);
            crate::shapes::box_patches(
                [p[0], p[1].plus(size[1].times(Single::ratio(5, 10))), p[2]],
                size,
                turns.half,
                MaterialSlot::Metal,
            )
        },
        SceneOccluderKind::StreetLight => {
            street_light_patches(occluder, round)
        },
        SceneOccluderKind::Pedestrian => {
            pedestrian_patches(occluder, round)
        },
        SceneOccluderKind::Building => {
            let p = occluder.position;
            let size = occluder_size(occluder, [
                Single::ratio(8, 1),
                Single::ratio(5, 1),
                Single::ratio(6, 1),
            ]);
            crate::shapes::background_box_patches([
                p[0],
                p[1].plus(size[1].times(Single::ratio(5, 10))),
                p[2],
            ], size, turns.half, [
                Single::ratio(28, 100),
                Single::ratio(3, 10),
                Single::ratio(31, 100),
                Single::ratio(78, 100),
            ], SurfacePattern::background_windows())
        },
        SceneOccluderKind::Vegetation => {
            tree_patches(vegetation_tree(occluder), plain_turns(turns.turn), round)
        },
    })
}

/// Adds the surfaces of an object.
pub fn append_occluder(
    out: &mut Vec<Patch>,
    occluder: SceneOccluder,
    turns: OccluderTurns,
    round: RoundTurns,
)
    ensures
        final(out)@ == old(out)@ + occluder_patches(occluder, turns, round),
{
    match occluder.kind {
        SceneOccluderKind::Vehicle => {
            append_vehicle(out, occluder, turns.half);
        },
        SceneOccluderKind::PoleSign => {
            append_pole_sign(out, occluder, turns.half, round);
        },
        SceneOccluderKind::UtilityPole => {
            append_pole_occluder(out, occluder, turns.half, round);
        },
        SceneOccluderKind::Shrub => {
            append_shrub_occluder(out, occluder);
        },
        SceneOccluderKind::Hvac => {
            let p = occluder.position;
            let size = occluder_size(occluder, [
                Single::ratio(2, 1),
                Single::ratio(12, 10),
                Single::ratio(14, 10),
            ]);
            append_box(
                out,
                [p[0], p[1].plus(size[1].times(Single::ratio(5, 10))), p[2]],
                size,
                turns.half,
                MaterialSlot::Metal,
            );
        },
        SceneOccluderKind::StreetLight => {
            append_street_light(out, occluder, round);
        },
        SceneOccluderKind::Pedestrian => {
            append_pedestrian(out, occluder, round);
        },
        SceneOccluderKind::Building => {
            let p = occluder.position;
            let size = occluder_size(occluder, [
                Single::ratio(8, 1),
                Single::ratio(5, 1),
                Single::ratio(6, 1),
            ]);
            append_background_box(out, [p[0], p[1].plus(size[1].times(Single::ratio(5, 10))), p[2]], size, turns.half, [
                Single::ratio(28, 100),
                Single::ratio(3, 10),
                Single::ratio(31, 100),
                Single::ratio(78, 100),
            ], SurfacePattern::background_windows());
        },
        SceneOccluderKind::Vegetation => {
            append_tree(out, vegetation_tree(occluder), plain_turns(turns.turn), round);
        },
    }
}

/// The additions of a building. Those of the first `n`.
pub open spec fn extensions_upto(
    extensions: Seq<BuildingExtensionDescription>,
    n: int,
) -> Seq<Patch>
    decreases n,
{
    if n <= 0 {
        Seq::empty()
    } else {
        extensions_upto(extensions, n - 1) + building_extension_patches(extensions[n - 1])
    }
}

/// The additions of a building.
pub open spec fn extensions_patches(extensions: Seq<BuildingExtensionDescription>) -> Seq<Patch> {
    extensions_upto(extensions, extensions.len() as int)
}

/// Adds the additions of a building.
pub fn append_extensions(out: &mut Vec<Patch>, extensions: &Vec<BuildingExtensionDescription>)
    ensures
        final(out)@ == old(out)@ + extensions_patches(extensions@),
{
    let ghost begun = out@;
    let mut i: usize = 0;
    assert(out@ =~= begun + extensions_upto(extensions@, 0));
    while i < extensions.len()
        invariant
            i <= extensions@.len(),
            out@ == begun + extensions_upto(extensions@, i as int),
        decreases extensions@.len() - i,
    {
        append_building_extension(out, extensions[i]);
        assert(out@ =~= begun + extensions_upto(extensions@, i + 1));
        i = i + 1;
    }
}

/// The neighbours of a building. Those of the first `n`.
pub open spec fn backgrounds_upto(
    buildings: Seq<BackgroundBuilding>,
    looks: Seq<BackgroundLook>,
    n: int,
) -> Seq<Patch>
    decreases n,
{
    if n <= 0 {
        Seq::empty()
    } else {
        backgrounds_upto(buildings, looks, n - 1) + background_building_patches(
            buildings[n - 1],
            looks[n - 1],
        )
    }
}

/// The neighbours of a building.
pub open spec fn backgrounds_patches(
    buildings: Seq<BackgroundBuilding>,
    looks: Seq<BackgroundLook>,
) -> Seq<Patch> {
    backgrounds_upto(buildings, looks, buildings.len() as int)
}

/// Adds the neighbours of a building.
pub fn append_backgrounds(
    out: &mut Vec<Patch>,
    buildings: &Vec<BackgroundBuilding>,
    looks: &Vec<BackgroundLook>,
)
    requires
        looks@.len() == buildings@.len(),
    ensures
        final(out)@ == old(out)@ + backgrounds_patches(buildings@, looks@),
{
    let ghost begun = out@;
    let mut i: usize = 0;
    assert(out@ =~= begun + backgrounds_upto(buildings@, looks@, 0));
    while i < buildings.len()
        invariant
            i <= buildings@.len(),
            looks@.len() == buildings@.len(),
            out@ == begun + backgrounds_upto(buildings@, looks@, i as int),
        decreases buildings@.len() - i,
    {
        append_background_building(out, buildings[i], looks[i]);
        assert(out@ =~= begun + backgrounds_upto(buildings@, looks@, i + 1));
        i = i + 1;
    }
}

/// The plants of a scene. Those of the first `n`.
pub open spec fn trees_upto(
    trees: Seq<TreeInstance>,
    turns: Seq<TreeTurns>,
    round: RoundTurns,
    n: int,
) -> Seq<Patch>
    decreases n,
{
    if n <= 0 {
        Seq::empty()
    } else {
        trees_upto(trees, turns, round, n - 1) + tree_patches(trees[n - 1], turns[n - 1], round)
    }
}

/// The plants of a scene.
pub open spec fn trees_patches(
    trees: Seq<TreeInstance>,
    turns: Seq<TreeTurns>,
    round: RoundTurns,
) -> Seq<Patch> {
    trees_upto(trees, turns, round, trees.len() as int)
}

/// Adds the plants of a scene.
pub fn append_trees(
    out: &mut Vec<Patch>,
    trees: &Vec<TreeInstance>,
    turns: &Vec<TreeTurns>,
    round: RoundTurns,
)
    requires
        turns@.len() == trees@.len(),
    ensures
        final(out)@ == old(out)@ + trees_patches(trees@, turns@, round),
{
    let ghost begun = out@;
    let mut i: usize = 0;
    assert(out@ =~= begun + trees_upto(trees@, turns@, round, 0));
    while i < trees.len()
        invariant
            i <= trees@.len(),
            turns@.len() == trees@.len(),
            out@ == begun + trees_upto(trees@, turns@, round, i as int),
        decreases trees@.len() - i,
    {
        append_tree(out, trees[i], turns[i], round);
        assert(out@ =~= begun + trees_upto(trees@, turns@, round, i + 1));
        i = i + 1;
    }
}

/// The objects of a scene. Those of the first `n`.
pub open spec fn occluders_upto(
    occluders: Seq<SceneOccluder>,
    turns: Seq<OccluderTurns>,
    round: RoundTurns,
    n: int,
) -> Seq<Patch>
    decreases n,
{
    if n <= 0 {
        Seq::empty()
    } else {
        occluders_upto(occluders, turns, round, n - 1) + occluder_patches(
            occluders[n - 1],
            turns[n - 1],
            round,
        )
    }
}

/// The objects of a scene.
pub open spec fn occluders_patches(
    occluders: Seq<SceneOccluder>,
    turns: Seq<OccluderTurns>,
    round: RoundTurns,
) -> Seq<Patch> {
    occluders_upto(occluders, turns, round, occluders.len() as int)
}

/// Adds the objects of a scene.
pub fn append_occluders(
    out: &mut Vec<Patch>,
    occluders: &Vec<SceneOccluder>,
    turns: &Vec<OccluderTurns>,
    round: RoundTurns,
)
    requires
        turns@.len() == occluders@.len(),
    ensures
        final(out)@ == old(out)@ + occluders_patches(occluders@, turns@, round),
{
    let ghost begun = out@;
    let mut i: usize = 0;
    assert(out@ =~= begun + occluders_upto(occluders@, turns@, round, 0));
    while i < occluders.len()
        invariant
            i <= occluders@.len(),
            turns@.len() == occluders@.len(),
            out@ == begun + occluders_upto(occluders@, turns@, round, i as int),
        decreases occluders@.len() - i,
    {
        append_occluder(out, occluders[i], turns[i], round);
        assert(out@ =~= begun + occluders_upto(occluders@, turns@, round, i + 1));
        i = i + 1;
    }
}

/// The signs of a scene. Those of the first `n`.
pub open spec fn signs_upto(
    signs: Seq<SignDescription>,
    halves: Seq<Turn>,
    round: RoundTurns,
    n: int,
) -> Seq<Patch>
    decreases n,
{
    if n <= 0 {
        Seq::empty()
    } else {
        signs_upto(signs, halves, round, n - 1) + sign_patches(signs[n - 1], halves[n - 1], round)
    }
}

/// The signs of a scene.
pub open spec fn signs_patches(
    signs: Seq<SignDescription>,
    halves: Seq<Turn>,
    round: RoundTurns,
) -> Seq<Patch> {
    signs_upto(signs, halves, round, signs.len() as int)
}

/// Adds the signs of a scene.
pub fn append_signs(
    out: &mut Vec<Patch>,
    signs: &Vec<SignDescription>,
    halves: &Vec<Turn>,
    round: RoundTurns,
)
    requires
        halves@.len() == signs@.len(),
    ensures
        final(out)@ == old(out)@ + signs_patches(signs@, halves@, round),
{
    let ghost begun = out@;
    let mut i: usize = 0;
    assert(out@ =~= begun + signs_upto(signs@, halves@, round, 0));
    while i < signs.len()
        invariant
            i <= signs@.len(),
            halves@.len() == signs@.len(),
            out@ == begun + signs_upto(signs@, halves@, round, i as int),
        decreases signs@.len() - i,
    {
        append_sign(out, signs[i], halves[i], round);
        assert(out@ =~= begun + signs_upto(signs@, halves@, round, i + 1));
        i = i + 1;
    }
}

/// The ground, parking, road, poles and cables of a scene.
#[verifier::opaque]
pub open spec fn ground_patches(g: Single, site: SiteModel, looks: &SceneLooks) -> Seq<Patch> {
    crate::shapes::quad_patches(ground_corners(g), MaterialSlot::Ground)
        + parking_patches(
            site.parking_bays,
            site.parking_center,
            site.parking_bay_size_m,
            looks.parking,
            looks.parking_half,
        )
        + road_patches(
            g,
            site.road_kind,
            site.road_lanes,
            site.lane_width_m,
            site.road_center_z_m,
            site.raised_curb,
        )
        + poles_patches(site.utility_poles, looks.round)
        + cables_patches(site.utility_lines)
}

/// Corners of the ground of a scene.
pub open spec fn spec_ground_corners(g: Single) -> [[Single; 3]; 4] {
    [
        [g.negated(), Single::ratio((-3) as i32, 100), g.negated()],
        [g.negated(), Single::ratio((-3) as i32, 100), g],
        [g, Single::ratio((-3) as i32, 100), g],
        [g, Single::ratio((-3) as i32, 100), g.negated()],
    ]
}

/// Corners of the ground of a scene.
#[verifier::when_used_as_spec(spec_ground_corners)]
pub fn ground_corners(g: Single) -> (r: [[Single; 3]; 4])
    ensures
        r == spec_ground_corners(g),
{
    [
        [g.negated(), Single::ratio((-3) as i32, 100), g.negated()],
        [g.negated(), Single::ratio((-3) as i32, 100), g],
        [g, Single::ratio((-3) as i32, 100), g],
        [g, Single::ratio((-3) as i32, 100), g.negated()],
    ]
}

/// Adds the ground, parking, road, poles and cables of a scene.
pub fn append_ground_context(out: &mut Vec<Patch>, scene: &SceneDescription, looks: &SceneLooks)
    ensures
        final(out)@ == old(out)@ + ground_patches(scene.ground_half_extent_m, scene.site@, looks),
{
    proof {
        reveal(ground_patches);
    }
    let g = scene.ground_half_extent_m;
    let site = &scene.site;
    append_quad(out, ground_corners(g), MaterialSlot::Ground);
    append_parking(
        out,
        site.parking_bays,
        site.parking_center,
        site.parking_bay_size_m,
        looks.parking,
        looks.parking_half,
    );
    append_road(
        out,
        g,
        site.road_kind,
        site.road_lanes,
        site.lane_width_m,
        site.road_center_z_m,
        site.raised_curb,
    );
    append_poles(out, &site.utility_poles, looks.round);
    append_cables(out, &site.utility_lines);
}

/// All surfaces of a scene but the primary roof.
pub open spec fn context_patches(scene: SceneModel, looks: &SceneLooks) -> Seq<Patch> {
    building_patches(
        scene.footprint_width_m,
        scene.footprint_depth_m,
        scene.wall_height_m,
        scene.facade,
        looks.glazing_raised,
    ) + extensions_patches(scene.building_extensions)
        + ground_patches(scene.ground_half_extent_m, scene.site, looks)
        + backgrounds_patches(scene.background_buildings, looks.backgrounds@)
        + trees_patches(scene.trees, looks.trees@, looks.round)
        + occluders_patches(scene.occluders, looks.occluders@, looks.round)
        + signs_patches(scene.signs, looks.signs@, looks.round)
}

/// Adds all surfaces of a scene but the primary roof.
pub fn append_context(out: &mut Vec<Patch>, scene: &SceneDescription, looks: &SceneLooks)
    requires
        looks.cover(scene@),
    ensures
        final(out)@ == old(out)@ + context_patches(scene@, looks),
{
    append_building(
        out,
        scene.footprint_width_m,
        scene.footprint_depth_m,
        scene.wall_height_m,
        scene.facade,
        looks.glazing_raised,
    );
    append_extensions(out, &scene.building_extensions);
    append_ground_context(out, scene, looks);
    append_backgrounds(out, &scene.background_buildings, &looks.backgrounds);
    append_trees(out, &scene.trees, &looks.trees, looks.round);
    append_occluders(out, &scene.occluders, &looks.occluders, looks.round);
    append_signs(out, &scene.signs, &looks.signs, looks.round);
}

/// Given sizes are final: an object's scale does not change them again.
pub proof fn resolved_sizes_are_kept(occluder: SceneOccluder, base: [Single; 3])
    requires
        occluder.is_sized(),
    ensures
        occluder_size(occluder, base) == occluder.nominal_size_m,
{
}

/// Only the sign of the chain is branded: every other one has the generic treatment.
pub proof fn only_branded_signs_carry_the_brand(sign: SignDescription)
    ensures
        sign_pattern(sign.style) == SurfacePattern::pizza_hut_sign() <==> sign.style
            == SignStyle::PizzaHut,
        sign_material(sign.style) == MaterialSlot::Sign <==> sign.style == SignStyle::PizzaHut,
{
}

} // verus!
