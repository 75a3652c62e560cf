//! Everything that can stand in the way of a camera, boxed once for a whole path.

use crate::composition::{
    SampledBackgroundBuilding, SampledBuildingExtension, SampledComposition, SampledVegetation,
};
use crate::geometry::{
    Aabb, RoofEnvelope, Turn, background_bounds, camera_collision_clearance_m,
    camera_view_clearance_m, extension_camera_bounds, point_inside_aabb, roof_center,
    segment_intersects_aabb, target_camera_bounds, vegetation_camera_bounds,
};
use crate::plan::SampledBuilding;
use crate::types::Vec3;
use vstd::prelude::*;

verus! {

/// The point lies in one of the boxes.
pub open spec fn inside_any(point: Vec3, boxes: Seq<Aabb>) -> bool {
    exists|i: int| 0 <= i < boxes.len() && point_inside_aabb(point, #[trigger] boxes[i])
}

/// The segment crosses one of the boxes.
pub open spec fn crosses_any(start: Vec3, end: Vec3, boxes: Seq<Aabb>) -> bool {
    exists|i: int| 0 <= i < boxes.len() && segment_intersects_aabb(start, end, #[trigger] boxes[i])
}

fn is_inside_any(point: Vec3, boxes: &Vec<Aabb>) -> (r: bool)
    ensures
        r == inside_any(point, boxes@),
{
    let mut i: usize = 0;
    while i < boxes.len()
        invariant
            i <= boxes@.len(),
            forall|j: int| 0 <= j < i ==> !point_inside_aabb(point, #[trigger] boxes@[j]),
        decreases boxes@.len() - i,
    {
        if point_inside_aabb(point, boxes[i]) {
            return true;
        }
        i = i + 1;
    }
    false
}

fn does_cross_any(start: Vec3, end: Vec3, boxes: &Vec<Aabb>) -> (r: bool)
    ensures
        r == crosses_any(start, end, boxes@),
{
    let mut i: usize = 0;
    while i < boxes.len()
        invariant
            i <= boxes@.len(),
            forall|j: int| 0 <= j < i ==> !segment_intersects_aabb(
                start,
                end,
                #[trigger] boxes@[j],
            ),
        decreases boxes@.len() - i,
    {
        if segment_intersects_aabb(start, end, boxes[i]) {
            return true;
        }
        i = i + 1;
    }
    false
}

/// The clearances of extensions.
pub open spec fn extension_boxes(extensions: Seq<SampledBuildingExtension>) -> Seq<Aabb> {
    extensions.map_values(|extension: SampledBuildingExtension| extension_camera_bounds(extension))
}

/// The clearances of plants.
pub open spec fn plant_boxes(plants: Seq<SampledVegetation>) -> Seq<Aabb> {
    plants.map_values(|plant: SampledVegetation| vegetation_camera_bounds(plant))
}

/// The clearances of background buildings.
pub open spec fn background_boxes(
    backgrounds: Seq<SampledBackgroundBuilding>,
    turns: Seq<Turn>,
) -> Seq<Aabb> {
    Seq::new(
        backgrounds.len(),
        |i: int| crate::geometry::background_camera_bounds(backgrounds[i], turns[i]),
    )
}

/// The boxes of background buildings that hide what lies behind them.
pub open spec fn screen_boxes(
    backgrounds: Seq<SampledBackgroundBuilding>,
    turns: Seq<Turn>,
) -> Seq<Aabb> {
    Seq::new(
        backgrounds.len(),
        |i: int| crate::geometry::background_view_bounds(backgrounds[i], turns[i]),
    )
}

fn box_extensions(extensions: &Vec<SampledBuildingExtension>) -> (r: Vec<Aabb>)
    ensures
        r@ == extension_boxes(extensions@),
{
    let mut r: Vec<Aabb> = Vec::new();
    let mut i: usize = 0;
    while i < extensions.len()
        invariant
            i <= extensions@.len(),
            r@ == extension_boxes(extensions@.take(i as int)),
        decreases extensions@.len() - i,
    {
        r.push(extension_camera_bounds(extensions[i]));
        i = i + 1;
    }
    assert(extensions@.take(i as int) =~= extensions@);
    r
}

fn box_plants(plants: &Vec<SampledVegetation>) -> (r: Vec<Aabb>)
    ensures
        r@ == plant_boxes(plants@),
{
    let mut r: Vec<Aabb> = Vec::new();
    let mut i: usize = 0;
    while i < plants.len()
        invariant
            i <= plants@.len(),
            r@ == plant_boxes(plants@.take(i as int)),
        decreases plants@.len() - i,
    {
        r.push(vegetation_camera_bounds(plants[i]));
        i = i + 1;
    }
    assert(plants@.take(i as int) =~= plants@);
    r
}

fn box_backgrounds(
    backgrounds: &Vec<SampledBackgroundBuilding>,
    turns: &Vec<Turn>,
) -> (r: (Vec<Aabb>, Vec<Aabb>))
    requires
        turns@.len() == backgrounds@.len(),
    ensures
        r.0@ == background_boxes(backgrounds@, turns@),
        r.1@ == screen_boxes(backgrounds@, turns@),
{
    let mut solid: Vec<Aabb> = Vec::new();
    let mut screens: Vec<Aabb> = Vec::new();
    let mut i: usize = 0;
    while i < backgrounds.len()
        invariant
            turns@.len() == backgrounds@.len(),
            i <= backgrounds@.len(),
            solid@ == background_boxes(backgrounds@, turns@).take(i as int),
            screens@ == screen_boxes(backgrounds@, turns@).take(i as int),
        decreases backgrounds@.len() - i,
    {
        let position = backgrounds[i].position;
        let size = backgrounds[i].size_m;
        solid.push(background_bounds(position, size, turns[i], camera_collision_clearance_m()));
        screens.push(background_bounds(position, size, turns[i], camera_view_clearance_m()));
        i = i + 1;
    }
    (solid, screens)
}

/// Everything that can stand in the way of a camera in one scene.
pub struct Obstacles {
    /// Clearance of the building.
    pub target: Aabb,
    /// Clearances of its extensions.
    pub extensions: Vec<Aabb>,
    /// Clearances of background buildings.
    pub backgrounds: Vec<Aabb>,
    /// Clearances of plants.
    pub plants: Vec<Aabb>,
    /// Boxes that hide the roof.
    pub screens: Vec<Aabb>,
    /// Middle of the roof.
    pub center: Vec3,
}

impl Obstacles {
    /// Whether these are the obstacles of a scene.
    pub open spec fn stand_for(
        &self,
        building: SampledBuilding,
        roof: RoofEnvelope,
        composition: SampledComposition,
        turns: Seq<Turn>,
    ) -> bool {
        let backgrounds = composition.background_buildings@;
        &&& self.target == target_camera_bounds(building, roof)
        &&& self.extensions@ == extension_boxes(composition.building_extensions@)
        &&& self.backgrounds@ == background_boxes(backgrounds, turns)
        &&& self.plants@ == plant_boxes(composition.vegetation@)
        &&& self.screens@ == screen_boxes(backgrounds, turns)
        &&& self.center == roof_center(building, roof)
    }

    /// Works out the obstacles of a scene.
    pub fn of(
        building: SampledBuilding,
        roof: RoofEnvelope,
        composition: &SampledComposition,
        turns: &Vec<Turn>,
    ) -> (r: Obstacles)
        requires
            turns@.len() == composition.background_buildings@.len(),
        ensures
            r.stand_for(building, roof, *composition, turns@),
    {
        let boxed = box_backgrounds(&composition.background_buildings, turns);
        Obstacles {
            target: target_camera_bounds(building, roof),
            extensions: box_extensions(&composition.building_extensions),
            backgrounds: boxed.0,
            plants: box_plants(&composition.vegetation),
            screens: boxed.1,
            center: roof_center(building, roof),
        }
    }

    /// Whether a camera at a position touches something or does not see the roof.
    pub open spec fn bar(&self, position: Vec3) -> bool {
        ||| point_inside_aabb(position, self.target)
        ||| inside_any(position, self.extensions@)
        ||| inside_any(position, self.backgrounds@)
        ||| inside_any(position, self.plants@)
        ||| crosses_any(position, self.center, self.screens@)
    }

    /// Whether a camera touches something on its way from one position to another.
    pub open spec fn cut(&self, start: Vec3, end: Vec3) -> bool {
        ||| segment_intersects_aabb(start, end, self.target)
        ||| crosses_any(start, end, self.extensions@)
        ||| crosses_any(start, end, self.backgrounds@)
        ||| crosses_any(start, end, self.plants@)
    }

    /// Whether a camera at a position touches something or does not see the roof.
    pub fn do_bar(&self, position: Vec3) -> (r: bool)
        ensures
            r == self.bar(position),
    {
        point_inside_aabb(position, self.target) || is_inside_any(position, &self.extensions)
            || is_inside_any(position, &self.backgrounds) || is_inside_any(position, &self.plants)
            || does_cross_any(position, self.center, &self.screens)
    }

    /// Whether a camera touches something on its way from one position to another.
    pub fn do_cut(&self, start: Vec3, end: Vec3) -> (r: bool)
        ensures
            r == self.cut(start, end),
    {
        segment_intersects_aabb(start, end, self.target) || does_cross_any(
            start,
            end,
            &self.extensions,
        ) || does_cross_any(start, end, &self.backgrounds) || does_cross_any(
            start,
            end,
            &self.plants,
        )
    }
}

/// The obstacles of a scene bar a position exactly where the scene is in its way.
pub proof fn lemma_barred(
    obstacles: Obstacles,
    building: SampledBuilding,
    roof: RoofEnvelope,
    composition: SampledComposition,
    turns: Seq<Turn>,
    position: Vec3,
)
    requires
        obstacles.stand_for(building, roof, composition, turns),
    ensures
        obstacles.bar(position) == (crate::geometry::point_intersects_scene(
            position,
            building,
            roof,
            composition.building_extensions@,
            composition.background_buildings@,
            turns,
        ) || crate::geometry::point_meets_vegetation(position, composition.vegetation@)
            || crate::geometry::view_meets_backgrounds(
            position,
            building,
            roof,
            composition.background_buildings@,
            turns,
        )),
{
    let extensions = composition.building_extensions@;
    let backgrounds = composition.background_buildings@;
    let plants = composition.vegetation@;
    assert(inside_any(position, obstacles.extensions@) == crate::geometry::point_meets_extensions(
        position,
        extensions,
    )) by {
        assert forall|i: int| 0 <= i < extensions.len() implies obstacles.extensions@[i]
            == extension_camera_bounds(#[trigger] extensions[i]) by {}
        assert forall|i: int| 0 <= i < extensions.len() implies #[trigger] obstacles.extensions@[i]
            == extension_camera_bounds(extensions[i]) by {}
    }
    assert(inside_any(position, obstacles.backgrounds@) == crate::geometry::point_meets_backgrounds(
        position,
        backgrounds,
        turns,
    )) by {
        assert forall|i: int| 0 <= i < backgrounds.len() implies obstacles.backgrounds@[i]
            == crate::geometry::background_camera_bounds(#[trigger] backgrounds[i], turns[i]) by {}
        assert forall|i: int| 0 <= i < backgrounds.len() implies #[trigger] obstacles.backgrounds@[i]
            == crate::geometry::background_camera_bounds(backgrounds[i], turns[i]) by {}
    }
    assert(inside_any(position, obstacles.plants@) == crate::geometry::point_meets_vegetation(
        position,
        plants,
    )) by {
        assert forall|i: int| 0 <= i < plants.len() implies obstacles.plants@[i]
            == vegetation_camera_bounds(#[trigger] plants[i]) by {}
        assert forall|i: int| 0 <= i < plants.len() implies #[trigger] obstacles.plants@[i]
            == vegetation_camera_bounds(plants[i]) by {}
    }
    assert(crosses_any(position, obstacles.center, obstacles.screens@)
        == crate::geometry::view_meets_backgrounds(position, building, roof, backgrounds, turns))
        by {
        assert forall|i: int| 0 <= i < backgrounds.len() implies obstacles.screens@[i]
            == crate::geometry::background_view_bounds(#[trigger] backgrounds[i], turns[i]) by {}
        assert forall|i: int| 0 <= i < backgrounds.len() implies #[trigger] obstacles.screens@[i]
            == crate::geometry::background_view_bounds(backgrounds[i], turns[i]) by {}
    }
}

/// The obstacles of a scene cut a move exactly where the scene is in its way.
pub proof fn lemma_cut(
    obstacles: Obstacles,
    building: SampledBuilding,
    roof: RoofEnvelope,
    composition: SampledComposition,
    turns: Seq<Turn>,
    start: Vec3,
    end: Vec3,
)
    requires
        obstacles.stand_for(building, roof, composition, turns),
    ensures
        obstacles.cut(start, end) == (crate::geometry::segment_intersects_scene(
            start,
            end,
            building,
            roof,
            composition.building_extensions@,
            composition.background_buildings@,
            turns,
        ) || crate::geometry::segment_meets_vegetation(start, end, composition.vegetation@)),
{
    let extensions = composition.building_extensions@;
    let backgrounds = composition.background_buildings@;
    let plants = composition.vegetation@;
    assert(crosses_any(start, end, obstacles.extensions@)
        == crate::geometry::segment_meets_extensions(start, end, extensions)) by {
        assert forall|i: int| 0 <= i < extensions.len() implies obstacles.extensions@[i]
            == extension_camera_bounds(#[trigger] extensions[i]) by {}
        assert forall|i: int| 0 <= i < extensions.len() implies #[trigger] obstacles.extensions@[i]
            == extension_camera_bounds(extensions[i]) by {}
    }
    assert(crosses_any(start, end, obstacles.backgrounds@)
        == crate::geometry::segment_meets_backgrounds(start, end, backgrounds, turns)) by {
        assert forall|i: int| 0 <= i < backgrounds.len() implies obstacles.backgrounds@[i]
            == crate::geometry::background_camera_bounds(#[trigger] backgrounds[i], turns[i]) by {}
        assert forall|i: int| 0 <= i < backgrounds.len() implies #[trigger] obstacles.backgrounds@[i]
            == crate::geometry::background_camera_bounds(backgrounds[i], turns[i]) by {}
    }
    assert(crosses_any(start, end, obstacles.plants@)
        == crate::geometry::segment_meets_vegetation(start, end, plants)) by {
        assert forall|i: int| 0 <= i < plants.len() implies obstacles.plants@[i]
            == vegetation_camera_bounds(#[trigger] plants[i]) by {}
        assert forall|i: int| 0 <= i < plants.len() implies #[trigger] obstacles.plants@[i]
            == vegetation_camera_bounds(plants[i]) by {}
    }
}

} // verus!
