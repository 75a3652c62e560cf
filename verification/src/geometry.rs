//! Collision, visibility and framing geometry of a sampled scene.

use crate::composition::{
    SampledBackgroundBuilding, SampledBuildingExtension, SampledComposition,
    SampledSiteInfrastructure, SampledUtilityPole, SampledVegetation, VegetationKind,
};
use crate::plan::{
    CameraFramePlan, SampledBuilding, SampledOccluder, SampledOrdinaryRoof, SampledRoof,
    SampledScene,
};
use crate::single::Single;
use crate::types::Vec3;
use vstd::prelude::*;

verus! {

/// Space that a camera keeps to every solid, in metres.
pub open spec fn spec_camera_collision_clearance_m() -> Single {
    Single::one()
}

/// Space that a camera keeps to every solid, in metres.
#[verifier::when_used_as_spec(spec_camera_collision_clearance_m)]
pub fn camera_collision_clearance_m() -> (r: Single)
    ensures
        r == spec_camera_collision_clearance_m(),
{
    Single::one()
}

/// Space that a line of sight keeps to background buildings, in metres.
pub open spec fn spec_camera_view_clearance_m() -> Single {
    Single::ratio(5, 10)
}

/// Space that a line of sight keeps to background buildings, in metres.
#[verifier::when_used_as_spec(spec_camera_view_clearance_m)]
pub fn camera_view_clearance_m() -> (r: Single)
    ensures
        r == spec_camera_view_clearance_m(),
{
    Single::ratio(5, 10)
}

/// Space that an occluder keeps to the target building, in metres.
pub open spec fn spec_occluder_target_clearance_m() -> Single {
    Single::ratio(75, 100)
}

/// Space that an occluder keeps to the target building, in metres.
#[verifier::when_used_as_spec(spec_occluder_target_clearance_m)]
pub fn occluder_target_clearance_m() -> (r: Single)
    ensures
        r == spec_occluder_target_clearance_m(),
{
    Single::ratio(75, 100)
}

/// Space that rooftop equipment keeps to the edge of the crown, in metres.
pub open spec fn spec_rooftop_edge_clearance_m() -> Single {
    Single::ratio(15, 100)
}

/// Space that rooftop equipment keeps to the edge of the crown, in metres.
#[verifier::when_used_as_spec(spec_rooftop_edge_clearance_m)]
pub fn rooftop_edge_clearance_m() -> (r: Single)
    ensures
        r == spec_rooftop_edge_clearance_m(),
{
    Single::ratio(15, 100)
}

/// Ground that stays free beyond the outermost scene content, in metres.
pub open spec fn spec_ground_edge_margin_m() -> Single {
    Single::ratio(4, 1)
}

/// Ground that stays free beyond the outermost scene content, in metres.
#[verifier::when_used_as_spec(spec_ground_edge_margin_m)]
pub fn ground_edge_margin_m() -> (r: Single)
    ensures
        r == spec_ground_edge_margin_m(),
{
    Single::ratio(4, 1)
}

/// Cosine and sine of an angle.
#[derive(Clone, Copy, Debug, PartialEq, Eq, Structural)]
pub struct Turn {
    /// Cosine of the angle.
    pub cosine: Single,
    /// Sine of the angle.
    pub sine: Single,
}

/// The turns of the yawed objects of a scene, in the scene's order.
#[derive(Clone, Debug, PartialEq, Eq)]
pub struct SceneTurns {
    /// One turn for each background building.
    pub backgrounds: Vec<Turn>,
    /// One turn for each occluder.
    pub occluders: Vec<Turn>,
}

impl SceneTurns {
    /// There is a turn for each yawed object.
    pub open spec fn cover(self, scene: SampledScene) -> bool {
        &&& self.backgrounds@.len() == scene.composition.background_buildings@.len()
        &&& self.occluders@.len() == scene.occluders@.len()
    }

    /// Whether there is a turn for each yawed object.
    pub fn do_cover(&self, scene: &SampledScene) -> (r: bool)
        ensures
            r == self.cover(*scene),
    {
        self.backgrounds.len() == scene.composition.background_buildings.len()
            && self.occluders.len() == scene.occluders.len()
    }
}

/// Half of the axis-aligned extent of a yawed box.
#[derive(Clone, Copy, Debug, PartialEq, Eq, Structural)]
pub struct HalfExtents {
    /// Along world X.
    pub x: Single,
    /// Along world Z.
    pub z: Single,
}

/// The axis-aligned half extents of a box after a turn around its vertical axis.
pub open spec fn spec_rotated_half_extents(size: Vec3, turn: Turn) -> HalfExtents {
    let cosine = turn.cosine.abs();
    let sine = turn.sine.abs();
    HalfExtents {
        x: cosine.times(size.x).times(Single::ratio(5, 10)).plus(
            sine.times(size.z).times(Single::ratio(5, 10)),
        ),
        z: sine.times(size.x).times(Single::ratio(5, 10)).plus(
            cosine.times(size.z).times(Single::ratio(5, 10)),
        ),
    }
}

/// The axis-aligned half extents of a box after a turn around its vertical axis.
#[verifier::when_used_as_spec(spec_rotated_half_extents)]
pub fn rotated_half_extents(size: Vec3, turn: Turn) -> (r: HalfExtents)
    ensures
        r == spec_rotated_half_extents(size, turn),
{
    let cosine = turn.cosine.abs();
    let sine = turn.sine.abs();
    HalfExtents {
        x: cosine.times(size.x).times(Single::ratio(5, 10)).plus(
            sine.times(size.z).times(Single::ratio(5, 10)),
        ),
        z: sine.times(size.x).times(Single::ratio(5, 10)).plus(
            cosine.times(size.z).times(Single::ratio(5, 10)),
        ),
    }
}

/// Axis-aligned box.
#[derive(Clone, Copy, Debug, PartialEq, Eq, Structural)]
pub struct Aabb {
    /// Least corner.
    pub minimum: Vec3,
    /// Greatest corner.
    pub maximum: Vec3,
}

/// Whether a point lies in a box or on its surface.
pub open spec fn spec_point_inside_aabb(point: Vec3, bounds: Aabb) -> bool {
    bounds.minimum.x.at_most(point.x)
        && point.x.at_most(bounds.maximum.x)
        && bounds.minimum.y.at_most(point.y)
        && point.y.at_most(bounds.maximum.y)
        && bounds.minimum.z.at_most(point.z)
        && point.z.at_most(bounds.maximum.z)
}

/// Whether a point lies in a box or on its surface.
#[verifier::when_used_as_spec(spec_point_inside_aabb)]
pub fn point_inside_aabb(point: Vec3, bounds: Aabb) -> (r: bool)
    ensures
        r == spec_point_inside_aabb(point, bounds),
{
    bounds.minimum.x.at_most(point.x)
        && point.x.at_most(bounds.maximum.x)
        && bounds.minimum.y.at_most(point.y)
        && point.y.at_most(bounds.maximum.y)
        && bounds.minimum.z.at_most(point.z)
        && point.z.at_most(bounds.maximum.z)
}

/// Part of a segment, as fractions of its length.
#[derive(Clone, Copy, Debug, PartialEq, Eq, Structural)]
pub struct Span {
    /// Where the part begins.
    pub near: Single,
    /// Where the part ends.
    pub far: Single,
}

/// The part of a span that lies between two planes across one axis, if there is any.
pub open spec fn spec_clipped(
    span: Span,
    origin: Single,
    direction: Single,
    lower: Single,
    upper: Single,
) -> Option<Span> {
    if direction.abs().less(Single::ratio(1, 1000000)) {
        if origin.less(lower) || upper.less(origin) {
            None
        } else {
            Some(span)
        }
    } else {
        let first = lower.minus(origin).over(direction);
        let second = upper.minus(origin).over(direction);
        let near = span.near.max(first.min(second));
        let far = span.far.min(first.max(second));
        if far.less(near) {
            None
        } else {
            Some(Span { near, far })
        }
    }
}

/// The part of a span that lies between two planes across one axis, if there is any.
#[verifier::when_used_as_spec(spec_clipped)]
pub fn clipped(
    span: Span,
    origin: Single,
    direction: Single,
    lower: Single,
    upper: Single,
) -> (r: Option<Span>)
    ensures
        r == spec_clipped(span, origin, direction, lower, upper),
{
    if direction.abs().less(Single::ratio(1, 1000000)) {
        if origin.less(lower) || upper.less(origin) {
            None
        } else {
            Some(span)
        }
    } else {
        let first = lower.minus(origin).over(direction);
        let second = upper.minus(origin).over(direction);
        let near = span.near.max(first.min(second));
        let far = span.far.min(first.max(second));
        if far.less(near) {
            None
        } else {
            Some(Span { near, far })
        }
    }
}

/// Whether a segment meets a box.
pub open spec fn spec_segment_intersects_aabb(start: Vec3, end: Vec3, bounds: Aabb) -> bool {
    let delta = end.minus(start);
    let whole = Span { near: Single::zero(), far: Single::one() };
    match clipped(whole, start.x, delta.x, bounds.minimum.x, bounds.maximum.x) {
        None => false,
        Some(span) => match clipped(span, start.y, delta.y, bounds.minimum.y, bounds.maximum.y) {
            None => false,
            Some(span) => clipped(
                span,
                start.z,
                delta.z,
                bounds.minimum.z,
                bounds.maximum.z,
            ).is_some(),
        },
    }
}

/// Whether a segment meets a box.
#[verifier::when_used_as_spec(spec_segment_intersects_aabb)]
pub fn segment_intersects_aabb(start: Vec3, end: Vec3, bounds: Aabb) -> (r: bool)
    ensures
        r == spec_segment_intersects_aabb(start, end, bounds),
{
    let delta = end.minus(start);
    let whole = Span { near: Single::zero(), far: Single::one() };
    match clipped(whole, start.x, delta.x, bounds.minimum.x, bounds.maximum.x) {
        None => false,
        Some(span) => match clipped(span, start.y, delta.y, bounds.minimum.y, bounds.maximum.y) {
            None => false,
            Some(span) => clipped(
                span,
                start.z,
                delta.z,
                bounds.minimum.z,
                bounds.maximum.z,
            ).is_some(),
        },
    }
}

/// Collision and framing envelope of the roof that is actually rendered.
///
/// Negative scenes never use the otherwise-unlabelled two-tier reference roof for
/// camera placement.
#[derive(Clone, Copy, Debug, PartialEq, Eq, Structural)]
pub struct RoofEnvelope {
    /// Overall width at the eave.
    pub eave_width_m: Single,
    /// Overall depth at the eave.
    pub eave_depth_m: Single,
    /// Highest point above the wall plate.
    pub maximum_height_m: Single,
}

impl RoofEnvelope {
    /// The envelope of a two-stage target roof.
    pub open spec fn spec_target(roof: SampledRoof) -> RoofEnvelope {
        RoofEnvelope {
            eave_width_m: roof.eave_width_m,
            eave_depth_m: roof.eave_depth_m,
            maximum_height_m: roof.lower_rise_m.plus(roof.upper_rise_m),
        }
    }

    /// The envelope of a two-stage target roof.
    #[verifier::when_used_as_spec(spec_target)]
    pub fn target(roof: SampledRoof) -> (r: RoofEnvelope)
        ensures
            r == Self::spec_target(roof),
    {
        RoofEnvelope {
            eave_width_m: roof.eave_width_m,
            eave_depth_m: roof.eave_depth_m,
            maximum_height_m: roof.lower_rise_m.plus(roof.upper_rise_m),
        }
    }

    /// The envelope of an ordinary roof.
    pub open spec fn spec_ordinary(roof: SampledOrdinaryRoof) -> RoofEnvelope {
        RoofEnvelope {
            eave_width_m: roof.eave_width_m,
            eave_depth_m: roof.eave_depth_m,
            maximum_height_m: roof.maximum_height_m(),
        }
    }

    /// The envelope of an ordinary roof.
    #[verifier::when_used_as_spec(spec_ordinary)]
    pub fn ordinary(roof: SampledOrdinaryRoof) -> (r: RoofEnvelope)
        ensures
            r == Self::spec_ordinary(roof),
    {
        RoofEnvelope {
            eave_width_m: roof.eave_width_m,
            eave_depth_m: roof.eave_depth_m,
            maximum_height_m: roof.maximum_height_m(),
        }
    }

    /// The envelope of the ordinary roof where there is one, and of the target roof otherwise.
    pub open spec fn spec_of(
        roof: SampledRoof,
        ordinary: Option<SampledOrdinaryRoof>,
    ) -> RoofEnvelope {
        match ordinary {
            Some(ordinary) => RoofEnvelope::ordinary(ordinary),
            None => RoofEnvelope::target(roof),
        }
    }

    /// The envelope of the ordinary roof where there is one, and of the target roof otherwise.
    #[verifier::when_used_as_spec(spec_of)]
    pub fn of(roof: SampledRoof, ordinary: Option<SampledOrdinaryRoof>) -> (r: RoofEnvelope)
        ensures
            r == Self::spec_of(roof, ordinary),
    {
        match ordinary {
            Some(ordinary) => RoofEnvelope::ordinary(ordinary),
            None => RoofEnvelope::target(roof),
        }
    }
}

/// The envelope of the roof that a scene renders.
pub open spec fn spec_actual_roof_envelope(scene: &SampledScene) -> RoofEnvelope {
    RoofEnvelope::of(scene.roof, scene.ordinary_roof)
}

/// The envelope of the roof that a scene renders.
#[verifier::when_used_as_spec(spec_actual_roof_envelope)]
pub fn actual_roof_envelope(scene: &SampledScene) -> (r: RoofEnvelope)
    ensures
        r == spec_actual_roof_envelope(scene),
{
    RoofEnvelope::of(scene.roof, scene.ordinary_roof)
}

/// Horizontal half extents and height of an obstacle.
#[derive(Clone, Copy, Debug, PartialEq, Eq, Structural)]
pub struct CameraObstacleSize {
    /// Half extent along world X.
    pub half_x: Single,
    /// Half extent along world Z.
    pub half_z: Single,
    /// Height above the base.
    pub height_m: Single,
}

/// The space around an obstacle that no camera may enter.
pub open spec fn spec_camera_clearance_bounds(position: Vec3, size: CameraObstacleSize) -> Aabb {
    let clearance = camera_collision_clearance_m();
    Aabb {
        minimum: Vec3::new(
            position.x.minus(size.half_x).minus(clearance),
            position.y.minus(clearance),
            position.z.minus(size.half_z).minus(clearance),
        ),
        maximum: Vec3::new(
            position.x.plus(size.half_x).plus(clearance),
            position.y.plus(size.height_m).plus(clearance),
            position.z.plus(size.half_z).plus(clearance),
        ),
    }
}

/// The space around an obstacle that no camera may enter.
#[verifier::when_used_as_spec(spec_camera_clearance_bounds)]
pub fn camera_clearance_bounds(position: Vec3, size: CameraObstacleSize) -> (r: Aabb)
    ensures
        r == spec_camera_clearance_bounds(position, size),
{
    let clearance = camera_collision_clearance_m();
    Aabb {
        minimum: Vec3::new(
            position.x.minus(size.half_x).minus(clearance),
            position.y.minus(clearance),
            position.z.minus(size.half_z).minus(clearance),
        ),
        maximum: Vec3::new(
            position.x.plus(size.half_x).plus(clearance),
            position.y.plus(size.height_m).plus(clearance),
            position.z.plus(size.half_z).plus(clearance),
        ),
    }
}

/// Whether an obstacle keeps its distance to the target building.
pub open spec fn spec_outside_target_footprint(
    position: Vec3,
    building: SampledBuilding,
    half_x: Single,
    half_z: Single,
) -> bool {
    building.footprint_width_m.times(Single::ratio(5, 10)).plus(half_x).plus(
        occluder_target_clearance_m(),
    ).at_most(position.x.abs())
        || building.footprint_depth_m.times(Single::ratio(5, 10)).plus(half_z).plus(
            occluder_target_clearance_m(),
        ).at_most(position.z.abs())
}

/// Whether an obstacle keeps its distance to the target building.
#[verifier::when_used_as_spec(spec_outside_target_footprint)]
pub fn outside_target_footprint(
    position: Vec3,
    building: SampledBuilding,
    half_x: Single,
    half_z: Single,
) -> (r: bool)
    ensures
        r == spec_outside_target_footprint(position, building, half_x, half_z),
{
    building.footprint_width_m.times(Single::ratio(5, 10)).plus(half_x).plus(
        occluder_target_clearance_m(),
    ).at_most(position.x.abs())
        || building.footprint_depth_m.times(Single::ratio(5, 10)).plus(half_z).plus(
            occluder_target_clearance_m(),
        ).at_most(position.z.abs())
}

/// How far a plant reaches from its stem, with the camera's clearance.
///
/// The clearance covers the empty space beneath a crown too: a camera immediately
/// beside a trunk could still let that trunk fill the view.
pub open spec fn spec_vegetation_camera_radius(vegetation: SampledVegetation) -> Single {
    let extent_factor = match vegetation.kind {
        VegetationKind::DeciduousTree => Single::ratio(125, 100),
        VegetationKind::Palm => Single::ratio(125, 100),
        VegetationKind::EvergreenTree => Single::one(),
        VegetationKind::Shrub => Single::ratio(14, 10),
    };
    vegetation.canopy_radius_m.times(extent_factor).plus(camera_collision_clearance_m())
}

/// How far a plant reaches from its stem, with the camera's clearance.
///
/// The clearance covers the empty space beneath a crown too: a camera immediately
/// beside a trunk could still let that trunk fill the view.
#[verifier::when_used_as_spec(spec_vegetation_camera_radius)]
pub fn vegetation_camera_radius(vegetation: SampledVegetation) -> (r: Single)
    ensures
        r == spec_vegetation_camera_radius(vegetation),
{
    let extent_factor = match vegetation.kind {
        VegetationKind::DeciduousTree => Single::ratio(125, 100),
        VegetationKind::Palm => Single::ratio(125, 100),
        VegetationKind::EvergreenTree => Single::one(),
        VegetationKind::Shrub => Single::ratio(14, 10),
    };
    vegetation.canopy_radius_m.times(extent_factor).plus(camera_collision_clearance_m())
}

/// The space around a plant that no camera may enter.
pub open spec fn spec_vegetation_camera_bounds(vegetation: SampledVegetation) -> Aabb {
    let radius = vegetation_camera_radius(vegetation);
    let clearance = camera_collision_clearance_m();
    let position = vegetation.position;
    Aabb {
        minimum: Vec3::new(
            position.x.minus(radius),
            position.y.minus(clearance),
            position.z.minus(radius),
        ),
        maximum: Vec3::new(
            position.x.plus(radius),
            position.y.plus(vegetation.height_m).plus(clearance),
            position.z.plus(radius),
        ),
    }
}

/// The space around a plant that no camera may enter.
#[verifier::when_used_as_spec(spec_vegetation_camera_bounds)]
pub fn vegetation_camera_bounds(vegetation: SampledVegetation) -> (r: Aabb)
    ensures
        r == spec_vegetation_camera_bounds(vegetation),
{
    let radius = vegetation_camera_radius(vegetation);
    let clearance = camera_collision_clearance_m();
    let position = vegetation.position;
    Aabb {
        minimum: Vec3::new(
            position.x.minus(radius),
            position.y.minus(clearance),
            position.z.minus(radius),
        ),
        maximum: Vec3::new(
            position.x.plus(radius),
            position.y.plus(vegetation.height_m).plus(clearance),
            position.z.plus(radius),
        ),
    }
}

/// The space around an occluder that no camera may enter.
pub open spec fn spec_occluder_camera_bounds(occluder: SampledOccluder, turn: Turn) -> Aabb {
    let half = rotated_half_extents(occluder.nominal_size_m, turn);
    camera_clearance_bounds(
        occluder.position,
        CameraObstacleSize { half_x: half.x, half_z: half.z, height_m: occluder.nominal_size_m.y },
    )
}

/// The space around an occluder that no camera may enter.
#[verifier::when_used_as_spec(spec_occluder_camera_bounds)]
pub fn occluder_camera_bounds(occluder: SampledOccluder, turn: Turn) -> (r: Aabb)
    ensures
        r == spec_occluder_camera_bounds(occluder, turn),
{
    let half = rotated_half_extents(occluder.nominal_size_m, turn);
    camera_clearance_bounds(
        occluder.position,
        CameraObstacleSize { half_x: half.x, half_z: half.z, height_m: occluder.nominal_size_m.y },
    )
}

/// The space around the target building that no camera may enter.
pub open spec fn spec_target_camera_bounds(building: SampledBuilding, roof: RoofEnvelope) -> Aabb {
    let clearance = camera_collision_clearance_m();
    Aabb {
        minimum: Vec3::new(
            roof.eave_width_m.negated().times(Single::ratio(5, 10)).minus(clearance),
            clearance.negated(),
            roof.eave_depth_m.negated().times(Single::ratio(5, 10)).minus(clearance),
        ),
        maximum: Vec3::new(
            roof.eave_width_m.times(Single::ratio(5, 10)).plus(clearance),
            building.wall_height_m.plus(roof.maximum_height_m).plus(clearance),
            roof.eave_depth_m.times(Single::ratio(5, 10)).plus(clearance),
        ),
    }
}

/// The space around the target building that no camera may enter.
#[verifier::when_used_as_spec(spec_target_camera_bounds)]
pub fn target_camera_bounds(building: SampledBuilding, roof: RoofEnvelope) -> (r: Aabb)
    ensures
        r == spec_target_camera_bounds(building, roof),
{
    let clearance = camera_collision_clearance_m();
    Aabb {
        minimum: Vec3::new(
            roof.eave_width_m.negated().times(Single::ratio(5, 10)).minus(clearance),
            clearance.negated(),
            roof.eave_depth_m.negated().times(Single::ratio(5, 10)).minus(clearance),
        ),
        maximum: Vec3::new(
            roof.eave_width_m.times(Single::ratio(5, 10)).plus(clearance),
            building.wall_height_m.plus(roof.maximum_height_m).plus(clearance),
            roof.eave_depth_m.times(Single::ratio(5, 10)).plus(clearance),
        ),
    }
}

/// The space around an extension that no camera may enter.
pub open spec fn spec_extension_camera_bounds(extension: SampledBuildingExtension) -> Aabb {
    let clearance = camera_collision_clearance_m();
    let position = extension.position;
    let size = extension.size_m;
    Aabb {
        minimum: Vec3::new(
            position.x.minus(size.x.times(Single::ratio(5, 10))).minus(clearance),
            clearance.negated(),
            position.z.minus(size.z.times(Single::ratio(5, 10))).minus(clearance),
        ),
        maximum: Vec3::new(
            position.x.plus(size.x.times(Single::ratio(5, 10))).plus(clearance),
            size.y.plus(extension.roof_rise_m).plus(clearance),
            position.z.plus(size.z.times(Single::ratio(5, 10))).plus(clearance),
        ),
    }
}

/// The space around an extension that no camera may enter.
#[verifier::when_used_as_spec(spec_extension_camera_bounds)]
pub fn extension_camera_bounds(extension: SampledBuildingExtension) -> (r: Aabb)
    ensures
        r == spec_extension_camera_bounds(extension),
{
    let clearance = camera_collision_clearance_m();
    let position = extension.position;
    let size = extension.size_m;
    Aabb {
        minimum: Vec3::new(
            position.x.minus(size.x.times(Single::ratio(5, 10))).minus(clearance),
            clearance.negated(),
            position.z.minus(size.z.times(Single::ratio(5, 10))).minus(clearance),
        ),
        maximum: Vec3::new(
            position.x.plus(size.x.times(Single::ratio(5, 10))).plus(clearance),
            size.y.plus(extension.roof_rise_m).plus(clearance),
            position.z.plus(size.z.times(Single::ratio(5, 10))).plus(clearance),
        ),
    }
}

/// The box around a background building, widened on all sides.
pub open spec fn spec_background_bounds(
    position: Vec3,
    size: Vec3,
    turn: Turn,
    clearance: Single,
) -> Aabb {
    let half = rotated_half_extents(size, turn);
    Aabb {
        minimum: Vec3::new(
            position.x.minus(half.x).minus(clearance),
            position.y.minus(clearance),
            position.z.minus(half.z).minus(clearance),
        ),
        maximum: Vec3::new(
            position.x.plus(half.x).plus(clearance),
            position.y.plus(size.y).plus(clearance),
            position.z.plus(half.z).plus(clearance),
        ),
    }
}

/// The box around a background building, widened on all sides.
#[verifier::when_used_as_spec(spec_background_bounds)]
pub fn background_bounds(position: Vec3, size: Vec3, turn: Turn, clearance: Single) -> (r: Aabb)
    ensures
        r == spec_background_bounds(position, size, turn, clearance),
{
    let half = rotated_half_extents(size, turn);
    Aabb {
        minimum: Vec3::new(
            position.x.minus(half.x).minus(clearance),
            position.y.minus(clearance),
            position.z.minus(half.z).minus(clearance),
        ),
        maximum: Vec3::new(
            position.x.plus(half.x).plus(clearance),
            position.y.plus(size.y).plus(clearance),
            position.z.plus(half.z).plus(clearance),
        ),
    }
}

/// The middle of the roof that is rendered.
pub open spec fn spec_roof_center(building: SampledBuilding, roof: RoofEnvelope) -> Vec3 {
    Vec3::new(
        Single::zero(),
        building.wall_height_m.plus(roof.maximum_height_m.times(Single::ratio(5, 10))),
        Single::zero(),
    )
}

/// The middle of the roof that is rendered.
#[verifier::when_used_as_spec(spec_roof_center)]
pub fn roof_center(building: SampledBuilding, roof: RoofEnvelope) -> (r: Vec3)
    ensures
        r == spec_roof_center(building, roof),
{
    Vec3::new(
        Single::zero(),
        building.wall_height_m.plus(roof.maximum_height_m.times(Single::ratio(5, 10))),
        Single::zero(),
    )
}

/// The space around one background building that no camera may enter.
pub open spec fn background_camera_bounds(item: SampledBackgroundBuilding, turn: Turn) -> Aabb {
    background_bounds(item.position, item.size_m, turn, camera_collision_clearance_m())
}

/// The space around one background building that no line of sight may cross.
pub open spec fn background_view_bounds(item: SampledBackgroundBuilding, turn: Turn) -> Aabb {
    background_bounds(item.position, item.size_m, turn, camera_view_clearance_m())
}

/// The point lies in the clearance of a plant.
pub open spec fn point_meets_vegetation(point: Vec3, vegetation: Seq<SampledVegetation>) -> bool {
    exists|i: int| 0 <= i < vegetation.len() && point_inside_aabb(
        point,
        vegetation_camera_bounds(#[trigger] vegetation[i]),
    )
}

/// Whether a camera would stand in the clearance of a plant.
pub fn camera_point_intersects_vegetation(
    point: Vec3,
    vegetation: &Vec<SampledVegetation>,
) -> (r: bool)
    ensures
        r == point_meets_vegetation(point, vegetation@),
{
    let mut i: usize = 0;
    while i < vegetation.len()
        invariant
            i <= vegetation@.len(),
            forall|j: int| 0 <= j < i ==> !point_inside_aabb(
                point,
                vegetation_camera_bounds(#[trigger] vegetation@[j]),
            ),
        decreases vegetation@.len() - i,
    {
        if point_inside_aabb(point, vegetation_camera_bounds(vegetation[i])) {
            return true;
        }
        i = i + 1;
    }
    false
}

/// The segment crosses the clearance of a plant.
pub open spec fn segment_meets_vegetation(
    start: Vec3,
    end: Vec3,
    vegetation: Seq<SampledVegetation>,
) -> bool {
    exists|i: int| 0 <= i < vegetation.len() && segment_intersects_aabb(
        start,
        end,
        vegetation_camera_bounds(#[trigger] vegetation[i]),
    )
}

/// Whether a camera would move through the clearance of a plant.
pub fn camera_segment_intersects_vegetation(
    start: Vec3,
    end: Vec3,
    vegetation: &Vec<SampledVegetation>,
) -> (r: bool)
    ensures
        r == segment_meets_vegetation(start, end, vegetation@),
{
    let mut i: usize = 0;
    while i < vegetation.len()
        invariant
            i <= vegetation@.len(),
            forall|j: int| 0 <= j < i ==> !segment_intersects_aabb(
                start,
                end,
                vegetation_camera_bounds(#[trigger] vegetation@[j]),
            ),
        decreases vegetation@.len() - i,
    {
        if segment_intersects_aabb(start, end, vegetation_camera_bounds(vegetation[i])) {
            return true;
        }
        i = i + 1;
    }
    false
}

/// The point lies in the clearance of an occluder.
pub open spec fn point_meets_occluders(
    point: Vec3,
    occluders: Seq<SampledOccluder>,
    turns: Seq<Turn>,
) -> bool {
    exists|i: int| 0 <= i < occluders.len() && point_inside_aabb(
        point,
        occluder_camera_bounds(#[trigger] occluders[i], turns[i]),
    )
}

/// Whether a camera would stand in the clearance of an occluder.
pub fn camera_point_intersects_occluders(
    point: Vec3,
    occluders: &Vec<SampledOccluder>,
    turns: &Vec<Turn>,
) -> (r: bool)
    requires
        turns@.len() == occluders@.len(),
    ensures
        r == point_meets_occluders(point, occluders@, turns@),
{
    let mut i: usize = 0;
    while i < occluders.len()
        invariant
            turns@.len() == occluders@.len(),
            i <= occluders@.len(),
            forall|j: int| 0 <= j < i ==> !point_inside_aabb(
                point,
                occluder_camera_bounds(#[trigger] occluders@[j], turns@[j]),
            ),
        decreases occluders@.len() - i,
    {
        if point_inside_aabb(point, occluder_camera_bounds(occluders[i], turns[i])) {
            return true;
        }
        i = i + 1;
    }
    false
}

/// The segment crosses the clearance of an occluder.
pub open spec fn segment_meets_occluders(
    start: Vec3,
    end: Vec3,
    occluders: Seq<SampledOccluder>,
    turns: Seq<Turn>,
) -> bool {
    exists|i: int| 0 <= i < occluders.len() && segment_intersects_aabb(
        start,
        end,
        occluder_camera_bounds(#[trigger] occluders[i], turns[i]),
    )
}

/// Whether a camera would move through the clearance of an occluder.
pub fn camera_segment_intersects_occluders(
    start: Vec3,
    end: Vec3,
    occluders: &Vec<SampledOccluder>,
    turns: &Vec<Turn>,
) -> (r: bool)
    requires
        turns@.len() == occluders@.len(),
    ensures
        r == segment_meets_occluders(start, end, occluders@, turns@),
{
    let mut i: usize = 0;
    while i < occluders.len()
        invariant
            turns@.len() == occluders@.len(),
            i <= occluders@.len(),
            forall|j: int| 0 <= j < i ==> !segment_intersects_aabb(
                start,
                end,
                occluder_camera_bounds(#[trigger] occluders@[j], turns@[j]),
            ),
        decreases occluders@.len() - i,
    {
        if segment_intersects_aabb(start, end, occluder_camera_bounds(occluders[i], turns[i])) {
            return true;
        }
        i = i + 1;
    }
    false
}

/// The point lies in the clearance of an extension.
pub open spec fn point_meets_extensions(
    point: Vec3,
    extensions: Seq<SampledBuildingExtension>,
) -> bool {
    exists|i: int| 0 <= i < extensions.len() && point_inside_aabb(
        point,
        extension_camera_bounds(#[trigger] extensions[i]),
    )
}

/// Whether a camera would stand in the clearance of an extension.
pub fn camera_point_intersects_extensions(
    point: Vec3,
    extensions: &Vec<SampledBuildingExtension>,
) -> (r: bool)
    ensures
        r == point_meets_extensions(point, extensions@),
{
    let mut i: usize = 0;
    while i < extensions.len()
        invariant
            i <= extensions@.len(),
            forall|j: int| 0 <= j < i ==> !point_inside_aabb(
                point,
                extension_camera_bounds(#[trigger] extensions@[j]),
            ),
        decreases extensions@.len() - i,
    {
        if point_inside_aabb(point, extension_camera_bounds(extensions[i])) {
            return true;
        }
        i = i + 1;
    }
    false
}

/// The segment crosses the clearance of an extension.
pub open spec fn segment_meets_extensions(
    start: Vec3,
    end: Vec3,
    extensions: Seq<SampledBuildingExtension>,
) -> bool {
    exists|i: int| 0 <= i < extensions.len() && segment_intersects_aabb(
        start,
        end,
        extension_camera_bounds(#[trigger] extensions[i]),
    )
}

/// Whether a camera would move through the clearance of an extension.
pub fn camera_segment_intersects_extensions(
    start: Vec3,
    end: Vec3,
    extensions: &Vec<SampledBuildingExtension>,
) -> (r: bool)
    ensures
        r == segment_meets_extensions(start, end, extensions@),
{
    let mut i: usize = 0;
    while i < extensions.len()
        invariant
            i <= extensions@.len(),
            forall|j: int| 0 <= j < i ==> !segment_intersects_aabb(
                start,
                end,
                extension_camera_bounds(#[trigger] extensions@[j]),
            ),
        decreases extensions@.len() - i,
    {
        if segment_intersects_aabb(start, end, extension_camera_bounds(extensions[i])) {
            return true;
        }
        i = i + 1;
    }
    false
}

/// The point lies in the clearance of a background building.
pub open spec fn point_meets_backgrounds(
    point: Vec3,
    backgrounds: Seq<SampledBackgroundBuilding>,
    turns: Seq<Turn>,
) -> bool {
    exists|i: int| 0 <= i < backgrounds.len() && point_inside_aabb(
        point,
        background_camera_bounds(#[trigger] backgrounds[i], turns[i]),
    )
}

/// Whether a camera would stand in the clearance of a background building.
pub fn camera_point_intersects_backgrounds(
    point: Vec3,
    backgrounds: &Vec<SampledBackgroundBuilding>,
    turns: &Vec<Turn>,
) -> (r: bool)
    requires
        turns@.len() == backgrounds@.len(),
    ensures
        r == point_meets_backgrounds(point, backgrounds@, turns@),
{
    let mut i: usize = 0;
    while i < backgrounds.len()
        invariant
            turns@.len() == backgrounds@.len(),
            i <= backgrounds@.len(),
            forall|j: int| 0 <= j < i ==> !point_inside_aabb(
                point,
                background_camera_bounds(#[trigger] backgrounds@[j], turns@[j]),
            ),
        decreases backgrounds@.len() - i,
    {
        if point_inside_aabb(
            point,
            background_bounds(
                backgrounds[i].position,
                backgrounds[i].size_m,
                turns[i],
                camera_collision_clearance_m(),
            ),
        ) {
            return true;
        }
        i = i + 1;
    }
    false
}

/// The segment crosses the clearance of a background building.
pub open spec fn segment_meets_backgrounds(
    start: Vec3,
    end: Vec3,
    backgrounds: Seq<SampledBackgroundBuilding>,
    turns: Seq<Turn>,
) -> bool {
    exists|i: int| 0 <= i < backgrounds.len() && segment_intersects_aabb(
        start,
        end,
        background_camera_bounds(#[trigger] backgrounds[i], turns[i]),
    )
}

/// Whether a camera would move through the clearance of a background building.
pub fn camera_segment_intersects_backgrounds(
    start: Vec3,
    end: Vec3,
    backgrounds: &Vec<SampledBackgroundBuilding>,
    turns: &Vec<Turn>,
) -> (r: bool)
    requires
        turns@.len() == backgrounds@.len(),
    ensures
        r == segment_meets_backgrounds(start, end, backgrounds@, turns@),
{
    let mut i: usize = 0;
    while i < backgrounds.len()
        invariant
            turns@.len() == backgrounds@.len(),
            i <= backgrounds@.len(),
            forall|j: int| 0 <= j < i ==> !segment_intersects_aabb(
                start,
                end,
                background_camera_bounds(#[trigger] backgrounds@[j], turns@[j]),
            ),
        decreases backgrounds@.len() - i,
    {
        if segment_intersects_aabb(
            start,
            end,
            background_bounds(
                backgrounds[i].position,
                backgrounds[i].size_m,
                turns[i],
                camera_collision_clearance_m(),
            ),
        ) {
            return true;
        }
        i = i + 1;
    }
    false
}

/// A background building stands between the camera and the middle of the roof.
pub open spec fn view_meets_backgrounds(
    camera: Vec3,
    building: SampledBuilding,
    roof: RoofEnvelope,
    backgrounds: Seq<SampledBackgroundBuilding>,
    turns: Seq<Turn>,
) -> bool {
    exists|i: int| 0 <= i < backgrounds.len() && segment_intersects_aabb(
        camera,
        roof_center(building, roof),
        background_view_bounds(#[trigger] backgrounds[i], turns[i]),
    )
}

/// Whether a background building stands between the camera and the middle of the roof.
pub fn camera_view_intersects_background(
    camera: Vec3,
    building: SampledBuilding,
    roof: RoofEnvelope,
    backgrounds: &Vec<SampledBackgroundBuilding>,
    turns: &Vec<Turn>,
) -> (r: bool)
    requires
        turns@.len() == backgrounds@.len(),
    ensures
        r == view_meets_backgrounds(camera, building, roof, backgrounds@, turns@),
{
    let mut i: usize = 0;
    while i < backgrounds.len()
        invariant
            turns@.len() == backgrounds@.len(),
            i <= backgrounds@.len(),
            forall|j: int| 0 <= j < i ==> !segment_intersects_aabb(
                camera,
                roof_center(building, roof),
                background_view_bounds(#[trigger] backgrounds@[j], turns@[j]),
            ),
        decreases backgrounds@.len() - i,
    {
        if segment_intersects_aabb(
            camera,
            roof_center(building, roof),
            background_bounds(
                backgrounds[i].position,
                backgrounds[i].size_m,
                turns[i],
                camera_view_clearance_m(),
            ),
        ) {
            return true;
        }
        i = i + 1;
    }
    false
}

/// The point lies in the clearance of the building, an extension or a background building.
pub open spec fn point_intersects_scene(
    point: Vec3,
    building: SampledBuilding,
    roof: RoofEnvelope,
    extensions: Seq<SampledBuildingExtension>,
    backgrounds: Seq<SampledBackgroundBuilding>,
    turns: Seq<Turn>,
) -> bool {
    ||| point_inside_aabb(point, target_camera_bounds(building, roof))
    ||| point_meets_extensions(point, extensions)
    ||| point_meets_backgrounds(point, backgrounds, turns)
}

/// Whether a camera would stand in the clearance of the building, an extension or a
/// background building.
pub fn camera_point_intersects_scene(
    point: Vec3,
    building: SampledBuilding,
    roof: RoofEnvelope,
    extensions: &Vec<SampledBuildingExtension>,
    backgrounds: &Vec<SampledBackgroundBuilding>,
    turns: &Vec<Turn>,
) -> (r: bool)
    requires
        turns@.len() == backgrounds@.len(),
    ensures
        r == point_intersects_scene(point, building, roof, extensions@, backgrounds@, turns@),
{
    point_inside_aabb(point, target_camera_bounds(building, roof))
        || camera_point_intersects_extensions(point, extensions)
        || camera_point_intersects_backgrounds(point, backgrounds, turns)
}

/// The segment crosses the clearance of the building, an extension or a background building.
pub open spec fn segment_intersects_scene(
    start: Vec3,
    end: Vec3,
    building: SampledBuilding,
    roof: RoofEnvelope,
    extensions: Seq<SampledBuildingExtension>,
    backgrounds: Seq<SampledBackgroundBuilding>,
    turns: Seq<Turn>,
) -> bool {
    ||| segment_intersects_aabb(start, end, target_camera_bounds(building, roof))
    ||| segment_meets_extensions(start, end, extensions)
    ||| segment_meets_backgrounds(start, end, backgrounds, turns)
}

/// Whether a camera would move through the clearance of the building, an extension or
/// a background building.
pub fn camera_segment_intersects_scene(
    start: Vec3,
    end: Vec3,
    building: SampledBuilding,
    roof: RoofEnvelope,
    extensions: &Vec<SampledBuildingExtension>,
    backgrounds: &Vec<SampledBackgroundBuilding>,
    turns: &Vec<Turn>,
) -> (r: bool)
    requires
        turns@.len() == backgrounds@.len(),
    ensures
        r == segment_intersects_scene(
            start,
            end,
            building,
            roof,
            extensions@,
            backgrounds@,
            turns@,
        ),
{
    segment_intersects_aabb(start, end, target_camera_bounds(building, roof))
        || camera_segment_intersects_extensions(start, end, extensions)
        || camera_segment_intersects_backgrounds(start, end, backgrounds, turns)
}

/// The extent widened to a box with the given half extents around a position.
pub open spec fn spec_widened(
    extent: Single,
    position: Vec3,
    half_x: Single,
    half_z: Single,
) -> Single {
    extent.max(position.x.abs().plus(half_x)).max(position.z.abs().plus(half_z))
}

/// The extent widened to a box with the given half extents around a position.
#[verifier::when_used_as_spec(spec_widened)]
pub fn widened(extent: Single, position: Vec3, half_x: Single, half_z: Single) -> (r: Single)
    ensures
        r == spec_widened(extent, position, half_x, half_z),
{
    extent.max(position.x.abs().plus(half_x)).max(position.z.abs().plus(half_z))
}

/// The extent widened to an extension.
pub open spec fn spec_widened_to_extension(
    extent: Single,
    extension: SampledBuildingExtension,
) -> Single {
    widened(
        extent,
        extension.position,
        extension.size_m.x.times(Single::ratio(5, 10)),
        extension.size_m.z.times(Single::ratio(5, 10)),
    )
}

/// The extent widened to an extension.
#[verifier::when_used_as_spec(spec_widened_to_extension)]
pub fn widened_to_extension(extent: Single, extension: SampledBuildingExtension) -> (r: Single)
    ensures
        r == spec_widened_to_extension(extent, extension),
{
    widened(
        extent,
        extension.position,
        extension.size_m.x.times(Single::ratio(5, 10)),
        extension.size_m.z.times(Single::ratio(5, 10)),
    )
}

/// The extent widened to a yawed box.
pub open spec fn spec_widened_to_box(
    extent: Single,
    position: Vec3,
    size: Vec3,
    turn: Turn,
) -> Single {
    let half = rotated_half_extents(size, turn);
    widened(extent, position, half.x, half.z)
}

/// The extent widened to a yawed box.
#[verifier::when_used_as_spec(spec_widened_to_box)]
pub fn widened_to_box(extent: Single, position: Vec3, size: Vec3, turn: Turn) -> (r: Single)
    ensures
        r == spec_widened_to_box(extent, position, size, turn),
{
    let half = rotated_half_extents(size, turn);
    widened(extent, position, half.x, half.z)
}

/// The extent widened to the crown of a plant.
pub open spec fn spec_widened_to_plant(extent: Single, vegetation: SampledVegetation) -> Single {
    widened(
        extent,
        vegetation.position,
        vegetation.canopy_radius_m,
        vegetation.canopy_radius_m,
    )
}

/// The extent widened to the crown of a plant.
#[verifier::when_used_as_spec(spec_widened_to_plant)]
pub fn widened_to_plant(extent: Single, vegetation: SampledVegetation) -> (r: Single)
    ensures
        r == spec_widened_to_plant(extent, vegetation),
{
    widened(
        extent,
        vegetation.position,
        vegetation.canopy_radius_m,
        vegetation.canopy_radius_m,
    )
}

/// The extent widened to a utility pole.
pub open spec fn spec_widened_to_pole(extent: Single, pole: SampledUtilityPole) -> Single {
    widened(extent, pole.position, Single::ratio(25, 100), Single::ratio(25, 100))
}

/// The extent widened to a utility pole.
#[verifier::when_used_as_spec(spec_widened_to_pole)]
pub fn widened_to_pole(extent: Single, pole: SampledUtilityPole) -> (r: Single)
    ensures
        r == spec_widened_to_pole(extent, pole),
{
    widened(extent, pole.position, Single::ratio(25, 100), Single::ratio(25, 100))
}

/// The extent widened to a camera.
pub open spec fn spec_widened_to_camera(extent: Single, position: Vec3) -> Single {
    extent.max(position.x.abs()).max(position.z.abs())
}

/// The extent widened to a camera.
#[verifier::when_used_as_spec(spec_widened_to_camera)]
pub fn widened_to_camera(extent: Single, position: Vec3) -> (r: Single)
    ensures
        r == spec_widened_to_camera(extent, position),
{
    extent.max(position.x.abs()).max(position.z.abs())
}

/// At least one bay.
pub open spec fn spec_bays_or_one(bays: u32) -> u32 {
    if bays == 0 {
        1
    } else {
        bays
    }
}

/// At least one bay.
#[verifier::when_used_as_spec(spec_bays_or_one)]
pub fn bays_or_one(bays: u32) -> (r: u32)
    ensures
        r == spec_bays_or_one(bays),
{
    if bays == 0 {
        1
    } else {
        bays
    }
}

/// The extent widened to the parking area and the road.
pub open spec fn spec_widened_to_pavement(
    extent: Single,
    infrastructure: &SampledSiteInfrastructure,
) -> Single {
    let bays = Single::from_u32(bays_or_one(infrastructure.parking_bays));
    let lanes = Single::from_u32(infrastructure.road_lanes);
    let parking_span = infrastructure.parking_bay_size_m.x.max(
        infrastructure.parking_bay_size_m.y.times(bays.root()),
    );
    extent.max(infrastructure.parking_center.x.abs().plus(parking_span)).max(
        infrastructure.parking_center.z.abs().plus(parking_span),
    ).max(
        infrastructure.road_center_z_m.abs().plus(
            lanes.times(infrastructure.lane_width_m).times(Single::ratio(5, 10)),
        ),
    )
}

/// The extent widened to the parking area and the road.
#[verifier::when_used_as_spec(spec_widened_to_pavement)]
pub fn widened_to_pavement(
    extent: Single,
    infrastructure: &SampledSiteInfrastructure,
) -> (r: Single)
    ensures
        r == spec_widened_to_pavement(extent, infrastructure),
{
    let bays = Single::from_u32(bays_or_one(infrastructure.parking_bays));
    let lanes = Single::from_u32(infrastructure.road_lanes);
    let parking_span = infrastructure.parking_bay_size_m.x.max(
        infrastructure.parking_bay_size_m.y.times(bays.root()),
    );
    extent.max(infrastructure.parking_center.x.abs().plus(parking_span)).max(
        infrastructure.parking_center.z.abs().plus(parking_span),
    ).max(
        infrastructure.road_center_z_m.abs().plus(
            lanes.times(infrastructure.lane_width_m).times(Single::ratio(5, 10)),
        ),
    )
}

/// The extent widened to the first `n` extensions.
pub open spec fn over_extensions(
    extent: Single,
    extensions: Seq<SampledBuildingExtension>,
    n: nat,
) -> Single
    decreases n,
{
    if n == 0 {
        extent
    } else {
        widened_to_extension(over_extensions(extent, extensions, (n - 1) as nat), extensions[n - 1])
    }
}

fn widen_to_extensions(extent: Single, extensions: &Vec<SampledBuildingExtension>) -> (r: Single)
    ensures
        r == over_extensions(extent, extensions@, extensions@.len()),
{
    let mut widest: Single = extent;
    let mut i: usize = 0;
    while i < extensions.len()
        invariant
            i <= extensions@.len(),
            widest == over_extensions(extent, extensions@, i as nat),
        decreases extensions@.len() - i,
    {
        widest = widened_to_extension(widest, extensions[i]);
        i = i + 1;
    }
    widest
}

/// The extent widened to the first `n` background buildings.
pub open spec fn over_backgrounds(
    extent: Single,
    backgrounds: Seq<SampledBackgroundBuilding>,
    turns: Seq<Turn>,
    n: nat,
) -> Single
    decreases n,
{
    if n == 0 {
        extent
    } else {
        widened_to_box(
            over_backgrounds(extent, backgrounds, turns, (n - 1) as nat),
            backgrounds[n - 1].position,
            backgrounds[n - 1].size_m,
            turns[n - 1],
        )
    }
}

fn widen_to_backgrounds(
    extent: Single,
    backgrounds: &Vec<SampledBackgroundBuilding>,
    turns: &Vec<Turn>,
) -> (r: Single)
    requires
        turns@.len() == backgrounds@.len(),
    ensures
        r == over_backgrounds(extent, backgrounds@, turns@, backgrounds@.len()),
{
    let mut widest: Single = extent;
    let mut i: usize = 0;
    while i < backgrounds.len()
        invariant
            turns@.len() == backgrounds@.len(),
            i <= backgrounds@.len(),
            widest == over_backgrounds(extent, backgrounds@, turns@, i as nat),
        decreases backgrounds@.len() - i,
    {
        widest = widened_to_box(widest, backgrounds[i].position, backgrounds[i].size_m, turns[i]);
        i = i + 1;
    }
    widest
}

/// The extent widened to the first `n` plants.
pub open spec fn over_plants(extent: Single, plants: Seq<SampledVegetation>, n: nat) -> Single
    decreases n,
{
    if n == 0 {
        extent
    } else {
        widened_to_plant(over_plants(extent, plants, (n - 1) as nat), plants[n - 1])
    }
}

fn widen_to_plants(extent: Single, plants: &Vec<SampledVegetation>) -> (r: Single)
    ensures
        r == over_plants(extent, plants@, plants@.len()),
{
    let mut widest: Single = extent;
    let mut i: usize = 0;
    while i < plants.len()
        invariant
            i <= plants@.len(),
            widest == over_plants(extent, plants@, i as nat),
        decreases plants@.len() - i,
    {
        widest = widened_to_plant(widest, plants[i]);
        i = i + 1;
    }
    widest
}

/// The extent widened to the first `n` utility poles.
pub open spec fn over_poles(extent: Single, poles: Seq<SampledUtilityPole>, n: nat) -> Single
    decreases n,
{
    if n == 0 {
        extent
    } else {
        widened_to_pole(over_poles(extent, poles, (n - 1) as nat), poles[n - 1])
    }
}

fn widen_to_poles(extent: Single, poles: &Vec<SampledUtilityPole>) -> (r: Single)
    ensures
        r == over_poles(extent, poles@, poles@.len()),
{
    let mut widest: Single = extent;
    let mut i: usize = 0;
    while i < poles.len()
        invariant
            i <= poles@.len(),
            widest == over_poles(extent, poles@, i as nat),
        decreases poles@.len() - i,
    {
        widest = widened_to_pole(widest, poles[i]);
        i = i + 1;
    }
    widest
}

/// The extent widened to the first `n` occluders.
pub open spec fn over_occluders(
    extent: Single,
    occluders: Seq<SampledOccluder>,
    turns: Seq<Turn>,
    n: nat,
) -> Single
    decreases n,
{
    if n == 0 {
        extent
    } else {
        widened_to_box(
            over_occluders(extent, occluders, turns, (n - 1) as nat),
            occluders[n - 1].position,
            occluders[n - 1].nominal_size_m,
            turns[n - 1],
        )
    }
}

fn widen_to_occluders(
    extent: Single,
    occluders: &Vec<SampledOccluder>,
    turns: &Vec<Turn>,
) -> (r: Single)
    requires
        turns@.len() == occluders@.len(),
    ensures
        r == over_occluders(extent, occluders@, turns@, occluders@.len()),
{
    let mut widest: Single = extent;
    let mut i: usize = 0;
    while i < occluders.len()
        invariant
            turns@.len() == occluders@.len(),
            i <= occluders@.len(),
            widest == over_occluders(extent, occluders@, turns@, i as nat),
        decreases occluders@.len() - i,
    {
        widest = widened_to_box(
            widest,
            occluders[i].position,
            occluders[i].nominal_size_m,
            turns[i],
        );
        i = i + 1;
    }
    widest
}

/// The extent widened to the first `n` cameras.
pub open spec fn over_cameras(extent: Single, cameras: Seq<Vec3>, n: nat) -> Single
    decreases n,
{
    if n == 0 {
        extent
    } else {
        widened_to_camera(over_cameras(extent, cameras, (n - 1) as nat), cameras[n - 1])
    }
}

fn widen_to_cameras(extent: Single, cameras: &Vec<Vec3>) -> (r: Single)
    ensures
        r == over_cameras(extent, cameras@, cameras@.len()),
{
    let mut widest: Single = extent;
    let mut i: usize = 0;
    while i < cameras.len()
        invariant
            i <= cameras@.len(),
            widest == over_cameras(extent, cameras@, i as nat),
        decreases cameras@.len() - i,
    {
        widest = widened_to_camera(widest, cameras[i]);
        i = i + 1;
    }
    widest
}

/// The extent with which a scene starts: its roof.
pub open spec fn spec_roof_extent(roof: RoofEnvelope) -> Single {
    roof.eave_width_m.times(Single::ratio(5, 10)).max(
        roof.eave_depth_m.times(Single::ratio(5, 10)),
    )
}

/// The extent with which a scene starts: its roof.
#[verifier::when_used_as_spec(spec_roof_extent)]
pub fn roof_extent(roof: RoofEnvelope) -> (r: Single)
    ensures
        r == spec_roof_extent(roof),
{
    roof.eave_width_m.times(Single::ratio(5, 10)).max(
        roof.eave_depth_m.times(Single::ratio(5, 10)),
    )
}

/// Half of the wider side of a building.
pub open spec fn spec_widest_footprint(building: SampledBuilding) -> Single {
    building.footprint_width_m.times(Single::ratio(5, 10)).max(
        building.footprint_depth_m.times(Single::ratio(5, 10)),
    )
}

/// Half of the wider side of a building.
#[verifier::when_used_as_spec(spec_widest_footprint)]
pub fn widest_footprint(building: SampledBuilding) -> (r: Single)
    ensures
        r == spec_widest_footprint(building),
{
    building.footprint_width_m.times(Single::ratio(5, 10)).max(
        building.footprint_depth_m.times(Single::ratio(5, 10)),
    )
}

/// The extent widened to the building itself.
pub open spec fn spec_widened_to_building(extent: Single, building: SampledBuilding) -> Single {
    extent.max(widest_footprint(building))
}

/// The extent widened to the building itself.
#[verifier::when_used_as_spec(spec_widened_to_building)]
pub fn widened_to_building(extent: Single, building: SampledBuilding) -> (r: Single)
    ensures
        r == spec_widened_to_building(extent, building),
{
    extent.max(widest_footprint(building))
}

/// The extent widened to the parking area, the road and the poles.
pub open spec fn widened_to_infrastructure(
    extent: Single,
    infrastructure: Option<SampledSiteInfrastructure>,
) -> Single {
    match infrastructure {
        Some(infrastructure) => over_poles(
            widened_to_pavement(extent, &infrastructure),
            infrastructure.utility_poles@,
            infrastructure.utility_poles@.len(),
        ),
        None => extent,
    }
}

/// Half of the side of the smallest square around the origin that holds the roof and
/// everything around the building.
pub open spec fn cluttered_extent(
    roof: RoofEnvelope,
    composition: SampledComposition,
    occluders: Seq<SampledOccluder>,
    turns: SceneTurns,
) -> Single {
    let extensions = composition.building_extensions@;
    let backgrounds = composition.background_buildings@;
    let plants = composition.vegetation@;
    let built = over_backgrounds(
        over_extensions(roof_extent(roof), extensions, extensions.len()),
        backgrounds,
        turns.backgrounds@,
        backgrounds.len(),
    );
    let paved = widened_to_infrastructure(
        over_plants(built, plants, plants.len()),
        composition.infrastructure,
    );
    over_occluders(paved, occluders, turns.occluders@, occluders.len())
}

/// Half of the side of the smallest square around the origin that holds all content.
pub open spec fn content_half_extent(
    building: SampledBuilding,
    roof: RoofEnvelope,
    composition: SampledComposition,
    occluders: Seq<SampledOccluder>,
    turns: SceneTurns,
    cameras: Seq<Vec3>,
) -> Single {
    let extent = cluttered_extent(roof, composition, occluders, turns);
    widened_to_building(over_cameras(extent, cameras, cameras.len()), building)
}

/// Half of the side of the smallest square around the origin that holds all content
/// and every camera.
pub fn sampled_content_half_extent(
    building: SampledBuilding,
    roof: RoofEnvelope,
    composition: &SampledComposition,
    occluders: &Vec<SampledOccluder>,
    turns: &SceneTurns,
    cameras: &Vec<Vec3>,
) -> (r: Single)
    requires
        turns.backgrounds@.len() == composition.background_buildings@.len(),
        turns.occluders@.len() == occluders@.len(),
    ensures
        r == content_half_extent(building, roof, *composition, occluders@, *turns, cameras@),
{
    let extent = widen_to_extensions(roof_extent(roof), &composition.building_extensions);
    let extent = widen_to_backgrounds(
        extent,
        &composition.background_buildings,
        &turns.backgrounds,
    );
    let extent = widen_to_plants(extent, &composition.vegetation);
    let extent = match &composition.infrastructure {
        Some(infrastructure) => widen_to_poles(
            widened_to_pavement(extent, infrastructure),
            &infrastructure.utility_poles,
        ),
        None => extent,
    };
    let extent = widen_to_occluders(extent, occluders, &turns.occluders);
    widened_to_building(widen_to_cameras(extent, cameras), building)
}

/// The positions of the cameras of a plan.
pub open spec fn camera_positions(frames: Seq<CameraFramePlan>) -> Seq<Vec3> {
    frames.map_values(|frame: CameraFramePlan| frame.camera.world_from_camera.translation)
}

/// Collects the positions of the cameras of a plan.
pub fn find_camera_positions(frames: &Vec<CameraFramePlan>) -> (r: Vec<Vec3>)
    ensures
        r@ == camera_positions(frames@),
{
    let mut r: Vec<Vec3> = Vec::new();
    let mut i: usize = 0;
    while i < frames.len()
        invariant
            i <= frames@.len(),
            r@ == camera_positions(frames@.take(i as int)),
        decreases frames@.len() - i,
    {
        r.push(frames[i].camera.world_from_camera.translation);
        i = i + 1;
        assert(r@ =~= camera_positions(frames@.take(i as int)));
    }
    assert(frames@.take(i as int) =~= frames@);
    r
}

proof fn lemma_max(x: Single, y: Single)
    ensures
        !x.is_nan() ==> x.at_most(x.max(y)),
        !y.is_nan() ==> y.at_most(x.max(y)),
        !x.is_nan() ==> !x.max(y).is_nan(),
{
}

proof fn lemma_over_cameras(extent: Single, cameras: Seq<Vec3>, n: nat)
    requires
        n <= cameras.len(),
    ensures
        !extent.is_nan() ==> extent.at_most(over_cameras(extent, cameras, n)),
        forall|i: int|
            0 <= i < n && (#[trigger] cameras[i]).is_finite() ==> cameras[i].x.abs().at_most(
                over_cameras(extent, cameras, n),
            ) && cameras[i].z.abs().at_most(over_cameras(extent, cameras, n)),
    decreases n,
{
    if n > 0 {
        let before = over_cameras(extent, cameras, (n - 1) as nat);
        lemma_over_cameras(extent, cameras, (n - 1) as nat);
        let camera = cameras[n - 1];
        let (x, z) = (camera.x.abs(), camera.z.abs());
        lemma_max(before, x);
        lemma_max(before.max(x), z);
        assert forall|i: int| 0 <= i < n && (#[trigger] cameras[i]).is_finite() implies cameras[
        i].x.abs().at_most(over_cameras(extent, cameras, n)) && cameras[i].z.abs().at_most(
            over_cameras(extent, cameras, n),
        ) by {
            if i < n - 1 {
                lemma_max(before, x);
            }
        }
    }
}

/// The extent of a scene reaches every camera.
pub proof fn extent_reaches_cameras(
    building: SampledBuilding,
    roof: RoofEnvelope,
    composition: SampledComposition,
    occluders: Seq<SampledOccluder>,
    turns: SceneTurns,
    cameras: Seq<Vec3>,
    i: int,
)
    requires
        0 <= i < cameras.len(),
        cameras[i].is_finite(),
    ensures
        cameras[i].x.abs().at_most(
            content_half_extent(building, roof, composition, occluders, turns, cameras),
        ),
        cameras[i].z.abs().at_most(
            content_half_extent(building, roof, composition, occluders, turns, cameras),
        ),
{
    let extent = cluttered_extent(roof, composition, occluders, turns);
    lemma_over_cameras(extent, cameras, cameras.len());
    lemma_max(
        over_cameras(extent, cameras, cameras.len()),
        widest_footprint(building),
    );
}

/// Cameras can only widen the extent of a scene.
pub proof fn cameras_only_widen(
    building: SampledBuilding,
    roof: RoofEnvelope,
    composition: SampledComposition,
    occluders: Seq<SampledOccluder>,
    turns: SceneTurns,
    cameras: Seq<Vec3>,
)
    requires
        !cluttered_extent(roof, composition, occluders, turns).is_nan(),
    ensures
        content_half_extent(
            building,
            roof,
            composition,
            occluders,
            turns,
            Seq::empty(),
        ).at_most(content_half_extent(building, roof, composition, occluders, turns, cameras)),
{
    let extent = cluttered_extent(roof, composition, occluders, turns);
    lemma_over_cameras(extent, cameras, cameras.len());
    let wide = over_cameras(extent, cameras, cameras.len());
    assert(over_cameras(extent, Seq::empty(), 0) == extent);
    lemma_max(extent, widest_footprint(building));
    lemma_max(wide, widest_footprint(building));
}

} // verus!
