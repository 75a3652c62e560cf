//! Sampling of the camera path and of every view along it.

use crate::choice::{apparent_scale, choose_camera_path, partial_framing, view_weight};
use crate::composition::{
    SampledBackgroundBuilding, SampledBuildingExtension, SampledComposition,
};
use crate::config::{CameraSamplingConfig, ImageConfig, SequenceConfig};
use crate::draws::{Draws, coin_of, sign_of, unit_of};
use crate::geometry::{camera_collision_clearance_m, rotated_half_extents, RoofEnvelope, Turn};
use crate::obstacles::Obstacles;
use crate::plan::{
    ApparentScale, CameraFramePlan, CameraMotionPlan, CameraPathKind, FramingIntent,
    OrdinaryRoofFamily, SampledBuilding, SampledOrdinaryRoof, SampledRoof, ZoomBehavior,
};
use crate::record::{CameraIntrinsics, CameraModel, DistortionModel, ImageTransform};
use crate::sample_site::tau;
use crate::single::Single;
use crate::types::{FloatRange, RigidTransform, Vec3};
use vstd::prelude::*;

verus! {

/// An angle in radians.
pub open spec fn spec_radians(degrees: Single) -> Single {
    degrees.times(Single { bits: 0x3c8e_fa35 })
}

/// An angle in radians.
#[verifier::when_used_as_spec(spec_radians)]
pub fn radians(degrees: Single) -> (r: Single)
    ensures
        r == spec_radians(degrees),
{
    degrees.times(Single { bits: 0x3c8e_fa35 })
}

/// Cubic easing from zero to one.
pub open spec fn spec_smoothstep(value: Single) -> Single {
    value.times(value).times(Single::ratio(3, 1).minus(Single::ratio(2, 1).times(value)))
}

/// Cubic easing from zero to one.
#[verifier::when_used_as_spec(spec_smoothstep)]
pub fn smoothstep(value: Single) -> (r: Single)
    ensures
        r == spec_smoothstep(value),
{
    value.times(value).times(Single::ratio(3, 1).minus(Single::ratio(2, 1).times(value)))
}

/// How far along a sequence a frame is. A single frame is half way.
pub open spec fn spec_sequence_progress(frame_index: u32, frame_count: u32) -> Single {
    if frame_count <= 1 {
        Single::ratio(5, 10)
    } else {
        Single::from_u32(frame_index).over(Single::from_u32((frame_count - 1) as u32))
    }
}

/// How far along a sequence a frame is. A single frame is half way.
#[verifier::when_used_as_spec(spec_sequence_progress)]
pub fn sequence_progress(frame_index: u32, frame_count: u32) -> (r: Single)
    ensures
        r == spec_sequence_progress(frame_index, frame_count),
{
    if frame_count <= 1 {
        Single::ratio(5, 10)
    } else {
        Single::from_u32(frame_index).over(Single::from_u32((frame_count - 1) as u32))
    }
}

/// Length of the hypotenuse of a right triangle.
pub open spec fn spec_hypotenuse(x: Single, z: Single) -> Single {
    x.times(x).plus(z.times(z)).root()
}

/// Length of the hypotenuse of a right triangle.
#[verifier::when_used_as_spec(spec_hypotenuse)]
pub fn hypotenuse(x: Single, z: Single) -> (r: Single)
    ensures
        r == spec_hypotenuse(x, z),
{
    x.times(x).plus(z.times(z)).root()
}

/// Everything that the position of a camera along its path follows from.
#[derive(Clone, Copy, Debug, PartialEq, Eq, Structural)]
pub struct CameraPathParameters {
    /// Path family.
    pub kind: CameraPathKind,
    /// Direction at the start, in radians.
    pub start: Single,
    /// Signed angle that the path sweeps, in radians.
    pub sweep: Single,
    /// Distance from the building.
    pub distance: Single,
    /// Height of the camera.
    pub height: Single,
    /// Signed radial motion as a fraction of the distance.
    pub radial_motion: Single,
    /// Half of the length of a sideways walk.
    pub lateral_span: Single,
    /// Approach as a fraction of the distance.
    pub approach_amount: Single,
    /// Amplitude of hand-held sway.
    pub handheld_sway: Single,
    /// Phase of hand-held sway, in radians.
    pub sway_phase: Single,
}

/// Sines and cosines that one camera position needs.
#[derive(Clone, Copy, Debug, PartialEq, Eq, Structural)]
pub struct PathTurns {
    /// Turn of the angle that the path has reached.
    pub turn: Turn,
    /// Sine of the sideways sway.
    pub sway: Single,
    /// Sine of the vertical sway.
    pub bob: Single,
}

/// The path at another distance, its sideways walk in proportion.
pub open spec fn spec_with_camera_distance(
    parameters: CameraPathParameters,
    distance: Single,
) -> CameraPathParameters {
    let ratio = parameters.lateral_span.over(parameters.distance);
    CameraPathParameters { distance, lateral_span: distance.times(ratio), ..parameters }
}

/// The path at another distance, its sideways walk in proportion.
#[verifier::when_used_as_spec(spec_with_camera_distance)]
pub fn with_camera_distance(
    parameters: CameraPathParameters,
    distance: Single,
) -> (r: CameraPathParameters)
    ensures
        r == spec_with_camera_distance(parameters, distance),
{
    let ratio = parameters.lateral_span.over(parameters.distance);
    CameraPathParameters { distance, lateral_span: distance.times(ratio), ..parameters }
}

/// The largest share of the distance by which a path may move radially between two radii.
pub open spec fn spec_radial_fraction(
    distance: Single,
    inner_radius: Single,
    outer_radius: Single,
) -> Single {
    let inward = distance.minus(inner_radius).max(Single::zero());
    let outward = if outer_radius.is_finite() {
        outer_radius.minus(distance).max(Single::zero())
    } else {
        Single::infinity()
    };
    inward.min(outward).over(distance)
}

/// The largest share of the distance by which a path may move radially between two radii.
#[verifier::when_used_as_spec(spec_radial_fraction)]
pub fn radial_fraction(
    distance: Single,
    inner_radius: Single,
    outer_radius: Single,
) -> (r: Single)
    ensures
        r == spec_radial_fraction(distance, inner_radius, outer_radius),
{
    let inward = distance.minus(inner_radius).max(Single::zero());
    let outward = if outer_radius.is_finite() {
        outer_radius.minus(distance).max(Single::zero())
    } else {
        Single::infinity()
    };
    inward.min(outward).over(distance)
}

/// The distance of a path, moved between two radii.
pub open spec fn spec_annulus_distance(
    distance: Single,
    inner_radius: Single,
    outer_radius: Single,
) -> Single {
    let far_enough = distance.max(inner_radius.plus(Single::ratio(5, 100)));
    if outer_radius.is_finite() {
        far_enough.min(outer_radius.minus(Single::ratio(5, 100)))
    } else {
        far_enough
    }
}

/// The distance of a path, moved between two radii.
#[verifier::when_used_as_spec(spec_annulus_distance)]
pub fn annulus_distance(
    distance: Single,
    inner_radius: Single,
    outer_radius: Single,
) -> (r: Single)
    ensures
        r == spec_annulus_distance(distance, inner_radius, outer_radius),
{
    let far_enough = distance.max(inner_radius.plus(Single::ratio(5, 100)));
    if outer_radius.is_finite() {
        far_enough.min(outer_radius.minus(Single::ratio(5, 100)))
    } else {
        far_enough
    }
}

/// The path moved between two radii, its radial motion held between them.
pub open spec fn spec_constrain_camera_path_to_annulus(
    parameters: CameraPathParameters,
    inner_radius: Single,
    outer_radius: Single,
) -> CameraPathParameters {
    let distance = annulus_distance(parameters.distance, inner_radius, outer_radius);
    let fraction = radial_fraction(distance, inner_radius, outer_radius);
    match parameters.kind {
        CameraPathKind::Orbit => CameraPathParameters {
            distance,
            radial_motion: parameters.radial_motion.clamp(fraction.negated(), fraction),
            ..parameters
        },
        CameraPathKind::ApproachArc => CameraPathParameters {
            distance,
            approach_amount: parameters.approach_amount.min(fraction),
            ..parameters
        },
        CameraPathKind::LateralWalk => if outer_radius.is_finite() {
            let maximum_span = outer_radius.times(outer_radius).minus(
                distance.times(distance),
            ).max(Single::zero()).root();
            CameraPathParameters {
                distance,
                lateral_span: parameters.lateral_span.min(maximum_span),
                ..parameters
            }
        } else {
            CameraPathParameters { distance, ..parameters }
        },
        CameraPathKind::CornerReveal => CameraPathParameters { distance, ..parameters },
    }
}

/// The path moved between two radii, its radial motion held between them.
#[verifier::when_used_as_spec(spec_constrain_camera_path_to_annulus)]
pub fn constrain_camera_path_to_annulus(
    parameters: CameraPathParameters,
    inner_radius: Single,
    outer_radius: Single,
) -> (r: CameraPathParameters)
    ensures
        r == spec_constrain_camera_path_to_annulus(parameters, inner_radius, outer_radius),
{
    let distance = annulus_distance(parameters.distance, inner_radius, outer_radius);
    let fraction = radial_fraction(distance, inner_radius, outer_radius);
    match parameters.kind {
        CameraPathKind::Orbit => CameraPathParameters {
            distance,
            radial_motion: parameters.radial_motion.clamp(fraction.negated(), fraction),
            ..parameters
        },
        CameraPathKind::ApproachArc => CameraPathParameters {
            distance,
            approach_amount: parameters.approach_amount.min(fraction),
            ..parameters
        },
        CameraPathKind::LateralWalk => if outer_radius.is_finite() {
            let maximum_span = outer_radius.times(outer_radius).minus(
                distance.times(distance),
            ).max(Single::zero()).root();
            CameraPathParameters {
                distance,
                lateral_span: parameters.lateral_span.min(maximum_span),
                ..parameters
            }
        } else {
            CameraPathParameters { distance, ..parameters }
        },
        CameraPathKind::CornerReveal => CameraPathParameters { distance, ..parameters },
    }
}

/// The angle that a path has reached.
pub open spec fn spec_path_angle(parameters: CameraPathParameters, progress: Single) -> Single {
    match parameters.kind {
        CameraPathKind::Orbit => parameters.start.plus(parameters.sweep.times(progress)),
        CameraPathKind::LateralWalk => parameters.start,
        CameraPathKind::ApproachArc => parameters.start.plus(
            parameters.sweep.times(Single::ratio(38, 100)).times(progress),
        ),
        CameraPathKind::CornerReveal => parameters.start.plus(
            parameters.sweep.times(smoothstep(progress)),
        ),
    }
}

/// The angle that a path has reached.
#[verifier::when_used_as_spec(spec_path_angle)]
pub fn path_angle(parameters: CameraPathParameters, progress: Single) -> (r: Single)
    ensures
        r == spec_path_angle(parameters, progress),
{
    match parameters.kind {
        CameraPathKind::Orbit => parameters.start.plus(parameters.sweep.times(progress)),
        CameraPathKind::LateralWalk => parameters.start,
        CameraPathKind::ApproachArc => parameters.start.plus(
            parameters.sweep.times(Single::ratio(38, 100)).times(progress),
        ),
        CameraPathKind::CornerReveal => parameters.start.plus(
            parameters.sweep.times(smoothstep(progress)),
        ),
    }
}

/// The angle of the sideways sway.
pub open spec fn spec_sway_angle(parameters: CameraPathParameters, progress: Single) -> Single {
    tau().times(progress).plus(parameters.sway_phase)
}

/// The angle of the sideways sway.
#[verifier::when_used_as_spec(spec_sway_angle)]
pub fn sway_angle(parameters: CameraPathParameters, progress: Single) -> (r: Single)
    ensures
        r == spec_sway_angle(parameters, progress),
{
    tau().times(progress).plus(parameters.sway_phase)
}

/// The angle of the vertical sway.
pub open spec fn spec_bob_angle(parameters: CameraPathParameters, progress: Single) -> Single {
    Single::ratio(2, 1).times(tau()).times(progress).plus(parameters.sway_phase)
}

/// The angle of the vertical sway.
#[verifier::when_used_as_spec(spec_bob_angle)]
pub fn bob_angle(parameters: CameraPathParameters, progress: Single) -> (r: Single)
    ensures
        r == spec_bob_angle(parameters, progress),
{
    Single::ratio(2, 1).times(tau()).times(progress).plus(parameters.sway_phase)
}

/// The point of a path before sway.
pub open spec fn spec_path_point(
    parameters: CameraPathParameters,
    progress: Single,
    turn: Turn,
) -> Vec3 {
    let height = parameters.height;
    match parameters.kind {
        CameraPathKind::Orbit => around(
            turn,
            parameters.distance.times(
                Single::one().plus(
                    parameters.radial_motion.times(
                        Single::ratio(2, 1).times(progress).minus(Single::one()),
                    ),
                ),
            ),
            height,
        ),
        CameraPathKind::LateralWalk => around(turn, parameters.distance, height).plus(
            Vec3::new(turn.sine.negated(), Single::zero(), turn.cosine).scaled(
                parameters.lateral_span.times(
                    Single::ratio(2, 1).times(progress).minus(Single::one()),
                ),
            ),
        ),
        CameraPathKind::ApproachArc => around(
            turn,
            parameters.distance.times(
                Single::one().plus(
                    parameters.approach_amount.times(
                        Single::one().minus(Single::ratio(2, 1).times(progress)),
                    ),
                ),
            ),
            height,
        ),
        CameraPathKind::CornerReveal => around(turn, parameters.distance, height),
    }
}

/// The point of a path before sway.
#[verifier::when_used_as_spec(spec_path_point)]
pub fn path_point(parameters: CameraPathParameters, progress: Single, turn: Turn) -> (r: Vec3)
    ensures
        r == spec_path_point(parameters, progress, turn),
{
    let height = parameters.height;
    match parameters.kind {
        CameraPathKind::Orbit => around(
            turn,
            parameters.distance.times(
                Single::one().plus(
                    parameters.radial_motion.times(
                        Single::ratio(2, 1).times(progress).minus(Single::one()),
                    ),
                ),
            ),
            height,
        ),
        CameraPathKind::LateralWalk => around(turn, parameters.distance, height).plus(
            Vec3::new(turn.sine.negated(), Single::zero(), turn.cosine).scaled(
                parameters.lateral_span.times(
                    Single::ratio(2, 1).times(progress).minus(Single::one()),
                ),
            ),
        ),
        CameraPathKind::ApproachArc => around(
            turn,
            parameters.distance.times(
                Single::one().plus(
                    parameters.approach_amount.times(
                        Single::one().minus(Single::ratio(2, 1).times(progress)),
                    ),
                ),
            ),
            height,
        ),
        CameraPathKind::CornerReveal => around(turn, parameters.distance, height),
    }
}

/// The point at a radius and a height in a direction.
pub open spec fn spec_around(turn: Turn, radius: Single, height: Single) -> Vec3 {
    Vec3::new(turn.cosine.times(radius), height, turn.sine.times(radius))
}

/// The point at a radius and a height in a direction.
#[verifier::when_used_as_spec(spec_around)]
pub fn around(turn: Turn, radius: Single, height: Single) -> (r: Vec3)
    ensures
        r == spec_around(turn, radius, height),
{
    Vec3::new(turn.cosine.times(radius), height, turn.sine.times(radius))
}

/// The position of a camera along its path, given the sines and cosines of its angles.
pub open spec fn spec_camera_path_position(
    parameters: CameraPathParameters,
    progress: Single,
    turns: PathTurns,
) -> Vec3 {
    let tangent = Vec3::new(turns.turn.sine.negated(), Single::zero(), turns.turn.cosine);
    let swayed = path_point(parameters, progress, turns.turn).plus(
        tangent.scaled(parameters.handheld_sway.times(turns.sway)),
    );
    Vec3::new(
        swayed.x,
        swayed.y.plus(parameters.handheld_sway.times(Single::ratio(32, 100)).times(turns.bob)),
        swayed.z,
    )
}

/// The position of a camera along its path, given the sines and cosines of its angles.
#[verifier::when_used_as_spec(spec_camera_path_position)]
pub fn camera_path_position(
    parameters: CameraPathParameters,
    progress: Single,
    turns: PathTurns,
) -> (r: Vec3)
    ensures
        r == spec_camera_path_position(parameters, progress, turns),
{
    let tangent = Vec3::new(turns.turn.sine.negated(), Single::zero(), turns.turn.cosine);
    let swayed = path_point(parameters, progress, turns.turn).plus(
        tangent.scaled(parameters.handheld_sway.times(turns.sway)),
    );
    Vec3::new(
        swayed.x,
        swayed.y.plus(parameters.handheld_sway.times(Single::ratio(32, 100)).times(turns.bob)),
        swayed.z,
    )
}

/// A camera position from which the roof is seen and at which nothing is touched.
pub open spec fn clear_position(
    position: Vec3,
    building: SampledBuilding,
    roof: RoofEnvelope,
    composition: SampledComposition,
    turns: Seq<Turn>,
) -> bool {
    let extensions = composition.building_extensions@;
    let backgrounds = composition.background_buildings@;
    &&& !crate::geometry::point_intersects_scene(
        position,
        building,
        roof,
        extensions,
        backgrounds,
        turns,
    )
    &&& !crate::geometry::point_meets_vegetation(position, composition.vegetation@)
    &&& !crate::geometry::view_meets_backgrounds(position, building, roof, backgrounds, turns)
}

/// A move along which nothing is touched.
pub open spec fn clear_move(
    start: Vec3,
    end: Vec3,
    building: SampledBuilding,
    roof: RoofEnvelope,
    composition: SampledComposition,
    turns: Seq<Turn>,
) -> bool {
    &&& !crate::geometry::segment_intersects_scene(
        start,
        end,
        building,
        roof,
        composition.building_extensions@,
        composition.background_buildings@,
        turns,
    )
    &&& !crate::geometry::segment_meets_vegetation(start, end, composition.vegetation@)
}

/// A path of clear positions and clear moves.
pub open spec fn clear_path(
    positions: Seq<Vec3>,
    building: SampledBuilding,
    roof: RoofEnvelope,
    composition: SampledComposition,
    turns: Seq<Turn>,
) -> bool {
    forall|i: int|
        0 <= i < positions.len() ==> {
            &&& clear_position(#[trigger] positions[i], building, roof, composition, turns)
            &&& i > 0 ==> clear_move(
                positions[i - 1],
                positions[i],
                building,
                roof,
                composition,
                turns,
            )
        }
}

/// Whether a camera can take up every position and move from each to the next.
pub fn camera_path_is_clear(
    positions: &Vec<Vec3>,
    building: SampledBuilding,
    roof: RoofEnvelope,
    composition: &SampledComposition,
    turns: &Vec<Turn>,
) -> (r: bool)
    requires
        turns@.len() == composition.background_buildings@.len(),
    ensures
        r == clear_path(positions@, building, roof, *composition, turns@),
{
    let obstacles = Obstacles::of(building, roof, composition, turns);
    let mut i: usize = 0;
    while i < positions.len()
        invariant
            obstacles.stand_for(building, roof, *composition, turns@),
            i <= positions@.len(),
            clear_path(positions@.take(i as int), building, roof, *composition, turns@),
        decreases positions@.len() - i,
    {
        let position = positions[i];
        let ghost path = positions@.take(i + 1);
        assert(path[i as int] == position);
        proof {
            crate::obstacles::lemma_barred(
                obstacles,
                building,
                roof,
                *composition,
                turns@,
                position,
            );
        }
        if obstacles.do_bar(position) {
            assert(!clear_position(positions@[i as int], building, roof, *composition, turns@));
            return false;
        }
        if i > 0 {
            let start = positions[i - 1];
            proof {
                crate::obstacles::lemma_cut(
                    obstacles,
                    building,
                    roof,
                    *composition,
                    turns@,
                    start,
                    position,
                );
            }
            if obstacles.do_cut(start, position) {
                assert(!clear_move(
                    positions@[i - 1],
                    positions@[i as int],
                    building,
                    roof,
                    *composition,
                    turns@,
                ));
                return false;
            }
        }
        proof {
            assert forall|j: int| 0 <= j < path.len() implies {
                &&& clear_position(#[trigger] path[j], building, roof, *composition, turns@)
                &&& j > 0 ==> clear_move(
                    path[j - 1],
                    path[j],
                    building,
                    roof,
                    *composition,
                    turns@,
                )
            } by {
                if j < i {
                    let before = positions@.take(i as int);
                    assert(before[j] == path[j]);
                    assert(j > 0 ==> before[j - 1] == path[j - 1]);
                }
            }
        }
        i = i + 1;
    }
    assert(positions@.take(i as int) =~= positions@);
    true
}

/// The radii between which a camera can move.
#[derive(Clone, Copy, Debug, PartialEq, Eq, Structural)]
pub struct PathCorridor {
    /// Outside of the building and its extensions.
    pub target_inner: Single,
    /// Inside of the background buildings; infinite where there are none.
    pub background_inner: Single,
    /// Outside of the background buildings.
    pub background_outer: Single,
    /// The distance that the search moves towards.
    pub midpoint: Single,
}

/// The radius outside of which nothing of the roof is touched.
pub open spec fn spec_roof_radius(roof: RoofEnvelope, sway: Single) -> Single {
    let clearance = camera_collision_clearance_m();
    hypotenuse(
        roof.eave_width_m.times(Single::ratio(5, 10)).plus(clearance),
        roof.eave_depth_m.times(Single::ratio(5, 10)).plus(clearance),
    ).plus(sway).plus(Single::ratio(5, 100))
}

/// The radius outside of which nothing of the roof is touched.
#[verifier::when_used_as_spec(spec_roof_radius)]
pub fn roof_radius(roof: RoofEnvelope, sway: Single) -> (r: Single)
    ensures
        r == spec_roof_radius(roof, sway),
{
    let clearance = camera_collision_clearance_m();
    hypotenuse(
        roof.eave_width_m.times(Single::ratio(5, 10)).plus(clearance),
        roof.eave_depth_m.times(Single::ratio(5, 10)).plus(clearance),
    ).plus(sway).plus(Single::ratio(5, 100))
}

/// The radius outside of which an extension is not touched either.
pub open spec fn spec_radius_over_extension(
    radius: Single,
    extension: SampledBuildingExtension,
    sway: Single,
) -> Single {
    let clearance = camera_collision_clearance_m();
    let outer_x = extension.position.x.abs().plus(
        extension.size_m.x.times(Single::ratio(5, 10)).plus(clearance),
    );
    let outer_z = extension.position.z.abs().plus(
        extension.size_m.z.times(Single::ratio(5, 10)).plus(clearance),
    );
    radius.max(hypotenuse(outer_x, outer_z).plus(sway).plus(Single::ratio(5, 100)))
}

/// The radius outside of which an extension is not touched either.
#[verifier::when_used_as_spec(spec_radius_over_extension)]
pub fn radius_over_extension(
    radius: Single,
    extension: SampledBuildingExtension,
    sway: Single,
) -> (r: Single)
    ensures
        r == spec_radius_over_extension(radius, extension, sway),
{
    let clearance = camera_collision_clearance_m();
    let outer_x = extension.position.x.abs().plus(
        extension.size_m.x.times(Single::ratio(5, 10)).plus(clearance),
    );
    let outer_z = extension.position.z.abs().plus(
        extension.size_m.z.times(Single::ratio(5, 10)).plus(clearance),
    );
    radius.max(hypotenuse(outer_x, outer_z).plus(sway).plus(Single::ratio(5, 100)))
}

/// The radius of the circle around a yawed box and its clearance.
pub open spec fn spec_box_radius(size: Vec3, turn: Turn) -> Single {
    let half = rotated_half_extents(size, turn);
    let clearance = camera_collision_clearance_m();
    hypotenuse(half.x.plus(clearance), half.z.plus(clearance))
}

/// The radius of the circle around a yawed box and its clearance.
#[verifier::when_used_as_spec(spec_box_radius)]
pub fn box_radius(size: Vec3, turn: Turn) -> (r: Single)
    ensures
        r == spec_box_radius(size, turn),
{
    let half = rotated_half_extents(size, turn);
    let clearance = camera_collision_clearance_m();
    hypotenuse(half.x.plus(clearance), half.z.plus(clearance))
}

/// The radius inside of which a background building is not touched either.
pub open spec fn spec_radius_under_background(
    radius: Single,
    position: Vec3,
    size: Vec3,
    turn: Turn,
    sway: Single,
) -> Single {
    radius.min(
        hypotenuse(position.x, position.z).minus(box_radius(size, turn)).minus(sway).minus(
            Single::ratio(5, 100),
        ),
    )
}

/// The radius inside of which a background building is not touched either.
#[verifier::when_used_as_spec(spec_radius_under_background)]
pub fn radius_under_background(
    radius: Single,
    position: Vec3,
    size: Vec3,
    turn: Turn,
    sway: Single,
) -> (r: Single)
    ensures
        r == spec_radius_under_background(radius, position, size, turn, sway),
{
    radius.min(
        hypotenuse(position.x, position.z).minus(box_radius(size, turn)).minus(sway).minus(
            Single::ratio(5, 100),
        ),
    )
}

/// The radius outside of which a background building is not touched either.
pub open spec fn spec_radius_over_background(
    radius: Single,
    position: Vec3,
    size: Vec3,
    turn: Turn,
) -> Single {
    radius.max(hypotenuse(position.x, position.z).plus(box_radius(size, turn)))
}

/// The radius outside of which a background building is not touched either.
#[verifier::when_used_as_spec(spec_radius_over_background)]
pub fn radius_over_background(
    radius: Single,
    position: Vec3,
    size: Vec3,
    turn: Turn,
) -> (r: Single)
    ensures
        r == spec_radius_over_background(radius, position, size, turn),
{
    radius.max(hypotenuse(position.x, position.z).plus(box_radius(size, turn)))
}

/// The radius outside of which the first `n` extensions are not touched either.
pub open spec fn radius_over_extensions(
    radius: Single,
    extensions: Seq<SampledBuildingExtension>,
    sway: Single,
    n: nat,
) -> Single
    decreases n,
{
    if n == 0 {
        radius
    } else {
        radius_over_extension(
            radius_over_extensions(radius, extensions, sway, (n - 1) as nat),
            extensions[n - 1],
            sway,
        )
    }
}

fn find_radius_over_extensions(
    radius: Single,
    extensions: &Vec<SampledBuildingExtension>,
    sway: Single,
) -> (r: Single)
    ensures
        r == radius_over_extensions(radius, extensions@, sway, extensions@.len()),
{
    let mut found: Single = radius;
    let mut i: usize = 0;
    while i < extensions.len()
        invariant
            i <= extensions@.len(),
            found == radius_over_extensions(radius, extensions@, sway, i as nat),
        decreases extensions@.len() - i,
    {
        found = radius_over_extension(found, extensions[i], sway);
        i = i + 1;
    }
    found
}

/// The radius inside of which the first `n` background buildings are not touched.
pub open spec fn radius_under_backgrounds(
    radius: Single,
    backgrounds: Seq<SampledBackgroundBuilding>,
    turns: Seq<Turn>,
    sway: Single,
    n: nat,
) -> Single
    decreases n,
{
    if n == 0 {
        radius
    } else {
        radius_under_background(
            radius_under_backgrounds(radius, backgrounds, turns, sway, (n - 1) as nat),
            backgrounds[n - 1].position,
            backgrounds[n - 1].size_m,
            turns[n - 1],
            sway,
        )
    }
}

fn find_radius_under_backgrounds(
    radius: Single,
    backgrounds: &Vec<SampledBackgroundBuilding>,
    turns: &Vec<Turn>,
    sway: Single,
) -> (r: Single)
    requires
        turns@.len() == backgrounds@.len(),
    ensures
        r == radius_under_backgrounds(radius, backgrounds@, turns@, sway, backgrounds@.len()),
{
    let mut found: Single = radius;
    let mut i: usize = 0;
    while i < backgrounds.len()
        invariant
            turns@.len() == backgrounds@.len(),
            i <= backgrounds@.len(),
            found == radius_under_backgrounds(radius, backgrounds@, turns@, sway, i as nat),
        decreases backgrounds@.len() - i,
    {
        found = radius_under_background(
            found,
            backgrounds[i].position,
            backgrounds[i].size_m,
            turns[i],
            sway,
        );
        i = i + 1;
    }
    found
}

/// The radius outside of which the first `n` background buildings are not touched either.
pub open spec fn radius_over_backgrounds(
    radius: Single,
    backgrounds: Seq<SampledBackgroundBuilding>,
    turns: Seq<Turn>,
    n: nat,
) -> Single
    decreases n,
{
    if n == 0 {
        radius
    } else {
        radius_over_background(
            radius_over_backgrounds(radius, backgrounds, turns, (n - 1) as nat),
            backgrounds[n - 1].position,
            backgrounds[n - 1].size_m,
            turns[n - 1],
        )
    }
}

fn find_radius_over_backgrounds(
    radius: Single,
    backgrounds: &Vec<SampledBackgroundBuilding>,
    turns: &Vec<Turn>,
) -> (r: Single)
    requires
        turns@.len() == backgrounds@.len(),
    ensures
        r == radius_over_backgrounds(radius, backgrounds@, turns@, backgrounds@.len()),
{
    let mut found: Single = radius;
    let mut i: usize = 0;
    while i < backgrounds.len()
        invariant
            turns@.len() == backgrounds@.len(),
            i <= backgrounds@.len(),
            found == radius_over_backgrounds(radius, backgrounds@, turns@, i as nat),
        decreases backgrounds@.len() - i,
    {
        found = radius_over_background(
            found,
            backgrounds[i].position,
            backgrounds[i].size_m,
            turns[i],
        );
        i = i + 1;
    }
    found
}

/// The distance that the search for a clear path moves towards.
pub open spec fn spec_corridor_midpoint(
    distance: Single,
    minimum: Single,
    target_inner: Single,
    background_inner: Single,
) -> Single {
    let inner = target_inner.max(minimum);
    if background_inner.is_finite() && inner.plus(Single::ratio(5, 10)).less(background_inner) {
        inner.plus(background_inner).times(Single::ratio(5, 10))
    } else {
        distance.max(inner)
    }
}

/// The distance that the search for a clear path moves towards.
#[verifier::when_used_as_spec(spec_corridor_midpoint)]
pub fn corridor_midpoint(
    distance: Single,
    minimum: Single,
    target_inner: Single,
    background_inner: Single,
) -> (r: Single)
    ensures
        r == spec_corridor_midpoint(distance, minimum, target_inner, background_inner),
{
    let inner = target_inner.max(minimum);
    if background_inner.is_finite() && inner.plus(Single::ratio(5, 10)).less(background_inner) {
        inner.plus(background_inner).times(Single::ratio(5, 10))
    } else {
        distance.max(inner)
    }
}

/// The radii between which a camera can move around a building.
pub open spec fn corridor_of(
    initial: CameraPathParameters,
    roof: RoofEnvelope,
    extensions: Seq<SampledBuildingExtension>,
    backgrounds: Seq<SampledBackgroundBuilding>,
    turns: Seq<Turn>,
    minimum: Single,
) -> PathCorridor {
    let sway = initial.handheld_sway;
    let target_inner = radius_over_extensions(
        roof_radius(roof, sway),
        extensions,
        sway,
        extensions.len(),
    );
    let background_inner = radius_under_backgrounds(
        Single::infinity(),
        backgrounds,
        turns,
        sway,
        backgrounds.len(),
    );
    PathCorridor {
        target_inner,
        background_inner,
        background_outer: radius_over_backgrounds(
            target_inner,
            backgrounds,
            turns,
            backgrounds.len(),
        ).plus(sway).plus(Single::one()),
        midpoint: corridor_midpoint(initial.distance, minimum, target_inner, background_inner),
    }
}

/// Finds the radii between which a camera can move around a building.
pub fn find_corridor(
    initial: CameraPathParameters,
    roof: RoofEnvelope,
    extensions: &Vec<SampledBuildingExtension>,
    backgrounds: &Vec<SampledBackgroundBuilding>,
    turns: &Vec<Turn>,
    minimum: Single,
) -> (r: PathCorridor)
    requires
        turns@.len() == backgrounds@.len(),
    ensures
        r == corridor_of(initial, roof, extensions@, backgrounds@, turns@, minimum),
{
    let sway = initial.handheld_sway;
    let target_inner = find_radius_over_extensions(roof_radius(roof, sway), extensions, sway);
    let background_inner = find_radius_under_backgrounds(
        Single::infinity(),
        backgrounds,
        turns,
        sway,
    );
    PathCorridor {
        target_inner,
        background_inner,
        background_outer: find_radius_over_backgrounds(target_inner, backgrounds, turns).plus(
            sway,
        ).plus(Single::one()),
        midpoint: corridor_midpoint(initial.distance, minimum, target_inner, background_inner),
    }
}

/// Number of directions that are tried at each distance inside the corridor.
pub const INNER_DIRECTIONS: u32 = 96;

/// The try between the building and its neighbours.
pub const MIDDLE_TRY: u32 = 768;

/// The first try outside of the neighbours.
pub const FIRST_OUTER_TRY: u32 = 769;

/// The last try outside of the neighbours.
pub const LAST_TRY: u32 = 960;

/// The direction of a try: successive tries are a golden angle apart.
pub open spec fn spec_tried_start(start: Single, direction: u32) -> Single {
    start.plus(Single::from_u32(direction).times(Single::ratio(23999631, 10000000)))
}

/// The direction of a try: successive tries are a golden angle apart.
#[verifier::when_used_as_spec(spec_tried_start)]
pub fn tried_start(start: Single, direction: u32) -> (r: Single)
    ensures
        r == spec_tried_start(start, direction),
{
    start.plus(Single::from_u32(direction).times(Single::ratio(23999631, 10000000)))
}

/// The try at a distance step and in a direction inside the corridor.
pub open spec fn spec_inner_try(
    initial: CameraPathParameters,
    corridor: PathCorridor,
    distance_step: u32,
    direction: u32,
) -> CameraPathParameters {
    let blend = Single::from_u32(distance_step).over(Single::ratio(7, 1));
    let distance = initial.distance.plus(corridor.midpoint.minus(initial.distance).times(blend));
    let candidate = constrain_camera_path_to_annulus(
        with_camera_distance(initial, distance),
        corridor.target_inner,
        Single::infinity(),
    );
    CameraPathParameters { start: tried_start(initial.start, direction), ..candidate }
}

/// The try at a distance step and in a direction inside the corridor.
#[verifier::when_used_as_spec(spec_inner_try)]
pub fn inner_try(
    initial: CameraPathParameters,
    corridor: PathCorridor,
    distance_step: u32,
    direction: u32,
) -> (r: CameraPathParameters)
    ensures
        r == spec_inner_try(initial, corridor, distance_step, direction),
{
    let blend = Single::from_u32(distance_step).over(Single::ratio(7, 1));
    let distance = initial.distance.plus(corridor.midpoint.minus(initial.distance).times(blend));
    let candidate = constrain_camera_path_to_annulus(
        with_camera_distance(initial, distance),
        corridor.target_inner,
        Single::infinity(),
    );
    CameraPathParameters { start: tried_start(initial.start, direction), ..candidate }
}

/// Whether there is room between the building and its neighbours.
pub open spec fn spec_has_middle(corridor: PathCorridor) -> bool {
    corridor.target_inner.plus(Single::ratio(5, 10)).less(corridor.background_inner)
}

/// Whether there is room between the building and its neighbours.
#[verifier::when_used_as_spec(spec_has_middle)]
pub fn has_middle(corridor: PathCorridor) -> (r: bool)
    ensures
        r == spec_has_middle(corridor),
{
    corridor.target_inner.plus(Single::ratio(5, 10)).less(corridor.background_inner)
}

/// The try half way between the building and its neighbours.
pub open spec fn spec_middle_try(
    initial: CameraPathParameters,
    corridor: PathCorridor,
) -> CameraPathParameters {
    let distance = corridor.target_inner.plus(corridor.background_inner).times(
        Single::ratio(5, 10),
    );
    constrain_camera_path_to_annulus(
        with_camera_distance(initial, distance),
        corridor.target_inner,
        corridor.background_inner,
    )
}

/// The try half way between the building and its neighbours.
#[verifier::when_used_as_spec(spec_middle_try)]
pub fn middle_try(
    initial: CameraPathParameters,
    corridor: PathCorridor,
) -> (r: CameraPathParameters)
    ensures
        r == spec_middle_try(initial, corridor),
{
    let distance = corridor.target_inner.plus(corridor.background_inner).times(
        Single::ratio(5, 10),
    );
    constrain_camera_path_to_annulus(
        with_camera_distance(initial, distance),
        corridor.target_inner,
        corridor.background_inner,
    )
}

/// The try in a direction outside of the neighbours.
pub open spec fn spec_outer_try(
    initial: CameraPathParameters,
    corridor: PathCorridor,
    direction: u32,
) -> CameraPathParameters {
    let candidate = constrain_camera_path_to_annulus(
        with_camera_distance(initial, corridor.background_outer.plus(Single::ratio(2, 1))),
        corridor.background_outer,
        Single::infinity(),
    );
    CameraPathParameters { start: tried_start(initial.start, direction), ..candidate }
}

/// The try in a direction outside of the neighbours.
#[verifier::when_used_as_spec(spec_outer_try)]
pub fn outer_try(
    initial: CameraPathParameters,
    corridor: PathCorridor,
    direction: u32,
) -> (r: CameraPathParameters)
    ensures
        r == spec_outer_try(initial, corridor, direction),
{
    let candidate = constrain_camera_path_to_annulus(
        with_camera_distance(initial, corridor.background_outer.plus(Single::ratio(2, 1))),
        corridor.background_outer,
        Single::infinity(),
    );
    CameraPathParameters { start: tried_start(initial.start, direction), ..candidate }
}

/// The path that a try proposes.
pub open spec fn spec_tried_path(
    initial: CameraPathParameters,
    corridor: PathCorridor,
    attempt: u32,
) -> CameraPathParameters {
    if attempt < MIDDLE_TRY {
        inner_try(
            initial,
            corridor,
            attempt / INNER_DIRECTIONS,
            attempt % INNER_DIRECTIONS,
        )
    } else if attempt == MIDDLE_TRY {
        middle_try(initial, corridor)
    } else {
        outer_try(initial, corridor, (attempt - FIRST_OUTER_TRY) as u32)
    }
}

/// The path that a try proposes.
#[verifier::when_used_as_spec(spec_tried_path)]
pub fn tried_path(
    initial: CameraPathParameters,
    corridor: PathCorridor,
    attempt: u32,
) -> (r: CameraPathParameters)
    ensures
        r == spec_tried_path(initial, corridor, attempt),
{
    if attempt < MIDDLE_TRY {
        inner_try(
            initial,
            corridor,
            attempt / INNER_DIRECTIONS,
            attempt % INNER_DIRECTIONS,
        )
    } else if attempt == MIDDLE_TRY {
        middle_try(initial, corridor)
    } else {
        outer_try(initial, corridor, (attempt - FIRST_OUTER_TRY) as u32)
    }
}

/// What the search for a clear path asks for next.
#[derive(Clone, Copy, Debug, PartialEq, Eq, Structural)]
pub enum PathSearch {
    /// Look whether the path of this try is clear.
    Try(u32),
    /// Take the path of this try.
    Settled(u32),
}

/// The search after a try turned out clear or not. It settles on the first clear path,
/// and on the last try where none is.
pub open spec fn spec_after_try(corridor: PathCorridor, attempt: u32, clear: bool) -> PathSearch {
    if clear || attempt >= LAST_TRY {
        PathSearch::Settled(attempt)
    } else if attempt == MIDDLE_TRY - 1 && !has_middle(corridor) {
        PathSearch::Try(FIRST_OUTER_TRY)
    } else {
        PathSearch::Try((attempt + 1) as u32)
    }
}

/// The search after a try turned out clear or not. It settles on the first clear path,
/// and on the last try where none is.
#[verifier::when_used_as_spec(spec_after_try)]
pub fn after_try(corridor: PathCorridor, attempt: u32, clear: bool) -> (r: PathSearch)
    ensures
        r == spec_after_try(corridor, attempt, clear),
{
    if clear || attempt >= LAST_TRY {
        PathSearch::Settled(attempt)
    } else if attempt == MIDDLE_TRY - 1 && !has_middle(corridor) {
        PathSearch::Try(FIRST_OUTER_TRY)
    } else {
        PathSearch::Try((attempt + 1) as u32)
    }
}

/// The tries of a search only move on, never beyond the last one, so the search ends; it
/// passes over the try between building and neighbours exactly where there is no room,
/// and it settles on a path that is clear unless every try was looked at.
pub proof fn path_search_moves_on(corridor: PathCorridor, attempt: u32, clear: bool)
    requires
        attempt <= LAST_TRY,
    ensures
        match after_try(corridor, attempt, clear) {
            PathSearch::Try(next) => !clear && attempt < next <= LAST_TRY && (next == attempt + 1
                || next == MIDDLE_TRY + 1 && !has_middle(corridor)),
            PathSearch::Settled(last) => last == attempt && (clear || attempt == LAST_TRY),
        },
{
}

/// Random decisions behind a camera path, before any sine or tangent.
#[derive(Clone, Copy, Debug, PartialEq, Eq, Structural)]
pub struct CameraChoices {
    /// Path family.
    pub path_kind: CameraPathKind,
    /// Centered or deliberately partial composition.
    pub framing_intent: FramingIntent,
    /// Framing stratum.
    pub apparent_scale: ApparentScale,
    /// Desired roof-width/image-width ratio.
    pub target_width_fraction_goal: Single,
    /// Height of the camera.
    pub height: Single,
    /// Direction at the start, in radians.
    pub start: Single,
    /// Signed angle that the path sweeps, in radians.
    pub sweep: Single,
    /// Signed radial motion.
    pub radial_motion: Single,
    /// Initial horizontal field of view in degrees.
    pub start_fov_degrees: Single,
    /// Height of the point of interest above the eave.
    pub target_above_eave_m: Single,
    /// How deep a deliberate crop cuts.
    pub crop_depth_fraction: Single,
    /// Ratio between the last field of view and the first.
    pub fov_ratio: Single,
    /// Amplitude of hand-held sway.
    pub handheld_sway: Single,
    /// Phase of hand-held sway, in radians.
    pub sway_phase: Single,
}

/// The roof widths that a framing stratum asks for.
pub open spec fn spec_framing_range(
    camera: CameraSamplingConfig,
    scale: ApparentScale,
) -> FloatRange {
    match scale {
        ApparentScale::Distant => camera.distant_target_width_fraction,
        ApparentScale::Normal => camera.target_width_fraction,
        ApparentScale::Close => camera.close_target_width_fraction,
        ApparentScale::Partial => camera.partial_target_width_fraction,
    }
}

/// The roof widths that a framing stratum asks for.
#[verifier::when_used_as_spec(spec_framing_range)]
pub fn framing_range(camera: CameraSamplingConfig, scale: ApparentScale) -> (r: FloatRange)
    ensures
        r == spec_framing_range(camera, scale),
{
    match scale {
        ApparentScale::Distant => camera.distant_target_width_fraction,
        ApparentScale::Normal => camera.target_width_fraction,
        ApparentScale::Close => camera.close_target_width_fraction,
        ApparentScale::Partial => camera.partial_target_width_fraction,
    }
}

/// The framing of a sequence, and the place after its draws.
pub open spec fn spec_sample_framing(
    d: Draws,
    camera: CameraSamplingConfig,
) -> (FramingIntent, ApparentScale, Draws) {
    if d.unit().less(camera.partial_crop_probability) {
        let drawn = d.skip(1).between(0, 3);
        (partial_framing(drawn.0), ApparentScale::Partial, drawn.1)
    } else {
        let drawn = d.skip(1).between(0, (view_weight(camera) - 1) as u32);
        (FramingIntent::Centered, apparent_scale(camera, drawn.0), drawn.1)
    }
}

/// The framing of a sequence, and the place after its draws.
#[verifier::when_used_as_spec(spec_sample_framing)]
pub fn sample_framing(
    d: Draws,
    camera: CameraSamplingConfig,
) -> (r: (FramingIntent, ApparentScale, Draws))
    requires
        view_weight(camera) > 0,
    ensures
        r == spec_sample_framing(d, camera),
{
    if d.unit().less(camera.partial_crop_probability) {
        let drawn = d.skip(1).between(0, 3);
        (partial_framing(drawn.0), ApparentScale::Partial, drawn.1)
    } else {
        let drawn = d.skip(1).between(0, (view_weight(camera) - 1) as u32);
        (FramingIntent::Centered, apparent_scale(camera, drawn.0), drawn.1)
    }
}

/// The choices that a path kind, a framing, a coin and eleven fractions give. The ninth
/// fraction decides whether the view zooms, and the tenth is used only then.
pub open spec fn spec_camera_choices_from(
    camera: CameraSamplingConfig,
    path_kind: CameraPathKind,
    framing_intent: FramingIntent,
    scale: ApparentScale,
    side: Single,
    u: [Single; 11],
) -> CameraChoices {
    CameraChoices {
        path_kind,
        framing_intent,
        apparent_scale: scale,
        target_width_fraction_goal: framing_range(camera, scale).at(u[0]),
        height: camera.height_m.at(u[1]),
        start: u[2].times(tau()),
        sweep: radians(camera.sweep_degrees.at(u[3])).times(side),
        radial_motion: camera.radial_motion_fraction.at(u[4]),
        start_fov_degrees: camera.horizontal_fov_degrees.at(u[5]),
        target_above_eave_m: camera.target_above_eave_m.at(u[6]),
        crop_depth_fraction: camera.framing_offset_fraction.at(u[7]),
        fov_ratio: if u[8].less(camera.zoom_probability) {
            camera.zoom_ratio.at(u[9])
        } else {
            Single::one()
        },
        handheld_sway: camera.handheld_sway_m.at(u[10]),
        sway_phase: Single::zero(),
    }
}

/// The choices that a path kind, a framing, a coin and eleven fractions give. The ninth
/// fraction decides whether the view zooms, and the tenth is used only then.
#[verifier::when_used_as_spec(spec_camera_choices_from)]
pub fn camera_choices_from(
    camera: CameraSamplingConfig,
    path_kind: CameraPathKind,
    framing_intent: FramingIntent,
    scale: ApparentScale,
    side: Single,
    u: [Single; 11],
) -> (r: CameraChoices)
    ensures
        r == spec_camera_choices_from(camera, path_kind, framing_intent, scale, side, u),
{
    CameraChoices {
        path_kind,
        framing_intent,
        apparent_scale: scale,
        target_width_fraction_goal: framing_range(camera, scale).at(u[0]),
        height: camera.height_m.at(u[1]),
        start: u[2].times(tau()),
        sweep: radians(camera.sweep_degrees.at(u[3])).times(side),
        radial_motion: camera.radial_motion_fraction.at(u[4]),
        start_fov_degrees: camera.horizontal_fov_degrees.at(u[5]),
        target_above_eave_m: camera.target_above_eave_m.at(u[6]),
        crop_depth_fraction: camera.framing_offset_fraction.at(u[7]),
        fov_ratio: if u[8].less(camera.zoom_probability) {
            camera.zoom_ratio.at(u[9])
        } else {
            Single::one()
        },
        handheld_sway: camera.handheld_sway_m.at(u[10]),
        sway_phase: Single::zero(),
    }
}

/// The place of the sway draws: a view that does not zoom draws no ratio.
pub open spec fn spec_sway_draws(d: Draws, zoomed: bool) -> Draws {
    if zoomed {
        d.skip(11)
    } else {
        d.skip(10)
    }
}

/// The place of the sway draws: a view that does not zoom draws no ratio.
#[verifier::when_used_as_spec(spec_sway_draws)]
pub fn sway_draws(d: Draws, zoomed: bool) -> (r: Draws)
    ensures
        r == spec_sway_draws(d, zoomed),
{
    if zoomed {
        d.skip(11)
    } else {
        d.skip(10)
    }
}

/// Samples the random decisions behind a camera path.
pub open spec fn spec_sample_camera_choices(
    seed: u64,
    camera: CameraSamplingConfig,
) -> CameraChoices {
    let path = choose_camera_path(Draws::of(seed, "camera"), camera);
    let framing = sample_framing(path.1, camera);
    let e = framing.2;
    let zoomed = e.skip(9).unit().less(camera.zoom_probability);
    let s = sway_draws(e, zoomed);
    let choices = camera_choices_from(
        camera,
        path.0,
        framing.0,
        framing.1,
        e.skip(3).sign(),
        [
            e.unit(),
            e.skip(1).unit(),
            e.skip(2).unit(),
            e.skip(4).unit(),
            e.skip(5).unit(),
            e.skip(6).unit(),
            e.skip(7).unit(),
            e.skip(8).unit(),
            e.skip(9).unit(),
            e.skip(10).unit(),
            s.unit(),
        ],
    );
    CameraChoices { sway_phase: s.skip(1).unit().times(tau()), ..choices }
}

/// Samples the random decisions behind a camera path.
#[verifier::when_used_as_spec(spec_sample_camera_choices)]
pub fn sample_camera_choices(seed: u64, camera: CameraSamplingConfig) -> (r: CameraChoices)
    requires
        crate::choice::total_weight(crate::choice::camera_path_weights(camera)) > 0,
        view_weight(camera) > 0,
    ensures
        r == spec_sample_camera_choices(seed, camera),
{
    let path = choose_camera_path(Draws::of(seed, "camera"), camera);
    let framing = sample_framing(path.1, camera);
    let e = framing.2;
    let w = e.words();
    let zoomed = unit_of(w[9]).less(camera.zoom_probability);
    let s = sway_draws(e, zoomed);
    let v = s.words();
    let choices = camera_choices_from(
        camera,
        path.0,
        framing.0,
        framing.1,
        sign_of(coin_of(w[3])),
        [
            unit_of(w[0]),
            unit_of(w[1]),
            unit_of(w[2]),
            unit_of(w[4]),
            unit_of(w[5]),
            unit_of(w[6]),
            unit_of(w[7]),
            unit_of(w[8]),
            unit_of(w[9]),
            unit_of(w[10]),
            unit_of(v[0]),
        ],
    );
    CameraChoices { sway_phase: unit_of(v[1]).times(tau()), ..choices }
}

/// The last horizontal field of view, kept to the configured range.
pub open spec fn spec_end_fov_degrees(
    camera: CameraSamplingConfig,
    choices: CameraChoices,
) -> Single {
    choices.start_fov_degrees.times(choices.fov_ratio).clamp(
        camera.horizontal_fov_degrees.min,
        camera.horizontal_fov_degrees.max,
    )
}

/// The last horizontal field of view, kept to the configured range.
#[verifier::when_used_as_spec(spec_end_fov_degrees)]
pub fn end_fov_degrees(camera: CameraSamplingConfig, choices: CameraChoices) -> (r: Single)
    ensures
        r == spec_end_fov_degrees(camera, choices),
{
    choices.start_fov_degrees.times(choices.fov_ratio).clamp(
        camera.horizontal_fov_degrees.min,
        camera.horizontal_fov_degrees.max,
    )
}

/// The zoom that two fields of view make.
pub open spec fn spec_zoom_between(start: Single, end: Single) -> ZoomBehavior {
    if end.minus(start).abs().less(Single::ratio(1, 10)) {
        ZoomBehavior::Fixed
    } else if end.less(start) {
        ZoomBehavior::SmoothIn
    } else {
        ZoomBehavior::SmoothOut
    }
}

/// The zoom that two fields of view make.
#[verifier::when_used_as_spec(spec_zoom_between)]
pub fn zoom_between(start: Single, end: Single) -> (r: ZoomBehavior)
    ensures
        r == spec_zoom_between(start, end),
{
    if end.minus(start).abs().less(Single::ratio(1, 10)) {
        ZoomBehavior::Fixed
    } else if end.less(start) {
        ZoomBehavior::SmoothIn
    } else {
        ZoomBehavior::SmoothOut
    }
}

/// The path before the search for a clear one, given the tangents of half of the first
/// field of view and of half of the sweep.
pub open spec fn spec_initial_path(
    camera: CameraSamplingConfig,
    choices: CameraChoices,
    roof: RoofEnvelope,
    tan_half_fov: Single,
    tan_half_sweep: Single,
) -> CameraPathParameters {
    let desired = roof.eave_width_m.over(
        Single::ratio(2, 1).times(choices.target_width_fraction_goal).times(tan_half_fov),
    );
    let distance = desired.clamp(camera.distance_m.min, camera.distance_m.max);
    CameraPathParameters {
        kind: choices.path_kind,
        start: choices.start,
        sweep: choices.sweep,
        distance,
        height: choices.height,
        radial_motion: choices.radial_motion,
        lateral_span: distance.times(tan_half_sweep).times(Single::ratio(55, 100)).clamp(
            distance.times(Single::ratio(12, 100)),
            distance.times(Single::ratio(65, 100)),
        ),
        approach_amount: choices.radial_motion.abs().clamp(
            Single::ratio(16, 100),
            Single::ratio(42, 100),
        ),
        handheld_sway: choices.handheld_sway,
        sway_phase: choices.sway_phase,
    }
}

/// The path before the search for a clear one, given the tangents of half of the first
/// field of view and of half of the sweep.
#[verifier::when_used_as_spec(spec_initial_path)]
pub fn initial_path(
    camera: CameraSamplingConfig,
    choices: CameraChoices,
    roof: RoofEnvelope,
    tan_half_fov: Single,
    tan_half_sweep: Single,
) -> (r: CameraPathParameters)
    ensures
        r == spec_initial_path(camera, choices, roof, tan_half_fov, tan_half_sweep),
{
    let desired = roof.eave_width_m.over(
        Single::ratio(2, 1).times(choices.target_width_fraction_goal).times(tan_half_fov),
    );
    let distance = desired.clamp(camera.distance_m.min, camera.distance_m.max);
    CameraPathParameters {
        kind: choices.path_kind,
        start: choices.start,
        sweep: choices.sweep,
        distance,
        height: choices.height,
        radial_motion: choices.radial_motion,
        lateral_span: distance.times(tan_half_sweep).times(Single::ratio(55, 100)).clamp(
            distance.times(Single::ratio(12, 100)),
            distance.times(Single::ratio(65, 100)),
        ),
        approach_amount: choices.radial_motion.abs().clamp(
            Single::ratio(16, 100),
            Single::ratio(42, 100),
        ),
        handheld_sway: choices.handheld_sway,
        sway_phase: choices.sway_phase,
    }
}

/// The point of interest of a sequence.
pub open spec fn spec_target_center(building: SampledBuilding, choices: CameraChoices) -> Vec3 {
    Vec3::new(
        Single::zero(),
        building.wall_height_m.plus(choices.target_above_eave_m),
        Single::zero(),
    )
}

/// The point of interest of a sequence.
#[verifier::when_used_as_spec(spec_target_center)]
pub fn target_center(building: SampledBuilding, choices: CameraChoices) -> (r: Vec3)
    ensures
        r == spec_target_center(building, choices),
{
    Vec3::new(
        Single::zero(),
        building.wall_height_m.plus(choices.target_above_eave_m),
        Single::zero(),
    )
}

/// The horizontal field of view of a frame in degrees.
pub open spec fn spec_frame_fov_degrees(start: Single, end: Single, progress: Single) -> Single {
    start.plus(end.minus(start).times(smoothstep(progress)))
}

/// The horizontal field of view of a frame in degrees.
#[verifier::when_used_as_spec(spec_frame_fov_degrees)]
pub fn frame_fov_degrees(start: Single, end: Single, progress: Single) -> (r: Single)
    ensures
        r == spec_frame_fov_degrees(start, end, progress),
{
    start.plus(end.minus(start).times(smoothstep(progress)))
}

/// The intrinsics of a frame, given the tangent of half of its field of view.
pub open spec fn spec_frame_intrinsics(
    image: ImageConfig,
    tan_half_fov: Single,
) -> CameraIntrinsics {
    let width = Single::from_u32(image.width);
    let height = Single::from_u32(image.height);
    let fx = width.over(Single::ratio(2, 1).times(tan_half_fov));
    CameraIntrinsics {
        width: image.width,
        height: image.height,
        fx,
        fy: fx,
        cx: width.times(Single::ratio(5, 10)),
        cy: height.times(Single::ratio(5, 10)),
        skew: Single::zero(),
    }
}

/// The intrinsics of a frame, given the tangent of half of its field of view.
#[verifier::when_used_as_spec(spec_frame_intrinsics)]
pub fn frame_intrinsics(image: ImageConfig, tan_half_fov: Single) -> (r: CameraIntrinsics)
    ensures
        r == spec_frame_intrinsics(image, tan_half_fov),
{
    let width = Single::from_u32(image.width);
    let height = Single::from_u32(image.height);
    let fx = width.over(Single::ratio(2, 1).times(tan_half_fov));
    CameraIntrinsics {
        width: image.width,
        height: image.height,
        fx,
        fy: fx,
        cx: width.times(Single::ratio(5, 10)),
        cy: height.times(Single::ratio(5, 10)),
        skew: Single::zero(),
    }
}

/// Rotation of a camera whose axes are the given columns.
pub open spec fn spec_quaternion_from_columns(x: Vec3, y: Vec3, z: Vec3) -> [Single; 4] {
    let q = raw_quaternion(x, y, z);
    let length = q[0].times(q[0]).plus(q[1].times(q[1])).plus(q[2].times(q[2])).plus(
        q[3].times(q[3]),
    ).root();
    [q[0].over(length), q[1].over(length), q[2].over(length), q[3].over(length)]
}

/// Rotation of a camera whose axes are the given columns.
#[verifier::when_used_as_spec(spec_quaternion_from_columns)]
pub fn quaternion_from_columns(x: Vec3, y: Vec3, z: Vec3) -> (r: [Single; 4])
    ensures
        r == spec_quaternion_from_columns(x, y, z),
{
    let q = raw_quaternion(x, y, z);
    let length = q[0].times(q[0]).plus(q[1].times(q[1])).plus(q[2].times(q[2])).plus(
        q[3].times(q[3]),
    ).root();
    [q[0].over(length), q[1].over(length), q[2].over(length), q[3].over(length)]
}

/// Rotation of a camera whose axes are the given columns, up to its length: the largest
/// component comes from a square root and the others by division.
pub open spec fn spec_raw_quaternion(x: Vec3, y: Vec3, z: Vec3) -> [Single; 4] {
    let trace = x.x.plus(y.y).plus(z.z);
    if Single::zero().less(trace) {
        let s = Single::ratio(2, 1).times(trace.plus(Single::one()).root());
        [
            y.z.minus(z.y).over(s),
            z.x.minus(x.z).over(s),
            x.y.minus(y.x).over(s),
            Single::ratio(25, 100).times(s),
        ]
    } else if y.y.less(x.x) && z.z.less(x.x) {
        let s = Single::ratio(2, 1).times(Single::one().plus(x.x).minus(y.y).minus(z.z).root());
        [
            Single::ratio(25, 100).times(s),
            y.x.plus(x.y).over(s),
            z.x.plus(x.z).over(s),
            y.z.minus(z.y).over(s),
        ]
    } else if z.z.less(y.y) {
        let s = Single::ratio(2, 1).times(Single::one().plus(y.y).minus(x.x).minus(z.z).root());
        [
            y.x.plus(x.y).over(s),
            Single::ratio(25, 100).times(s),
            z.y.plus(y.z).over(s),
            z.x.minus(x.z).over(s),
        ]
    } else {
        let s = Single::ratio(2, 1).times(Single::one().plus(z.z).minus(x.x).minus(y.y).root());
        [
            z.x.plus(x.z).over(s),
            z.y.plus(y.z).over(s),
            Single::ratio(25, 100).times(s),
            x.y.minus(y.x).over(s),
        ]
    }
}

/// Rotation of a camera whose axes are the given columns, up to its length: the largest
/// component comes from a square root and the others by division.
#[verifier::when_used_as_spec(spec_raw_quaternion)]
pub fn raw_quaternion(x: Vec3, y: Vec3, z: Vec3) -> (r: [Single; 4])
    ensures
        r == spec_raw_quaternion(x, y, z),
{
    let trace = x.x.plus(y.y).plus(z.z);
    if Single::zero().less(trace) {
        let s = Single::ratio(2, 1).times(trace.plus(Single::one()).root());
        [
            y.z.minus(z.y).over(s),
            z.x.minus(x.z).over(s),
            x.y.minus(y.x).over(s),
            Single::ratio(25, 100).times(s),
        ]
    } else if y.y.less(x.x) && z.z.less(x.x) {
        let s = Single::ratio(2, 1).times(Single::one().plus(x.x).minus(y.y).minus(z.z).root());
        [
            Single::ratio(25, 100).times(s),
            y.x.plus(x.y).over(s),
            z.x.plus(x.z).over(s),
            y.z.minus(z.y).over(s),
        ]
    } else if z.z.less(y.y) {
        let s = Single::ratio(2, 1).times(Single::one().plus(y.y).minus(x.x).minus(z.z).root());
        [
            y.x.plus(x.y).over(s),
            Single::ratio(25, 100).times(s),
            z.y.plus(y.z).over(s),
            z.x.minus(x.z).over(s),
        ]
    } else {
        let s = Single::ratio(2, 1).times(Single::one().plus(z.z).minus(x.x).minus(y.y).root());
        [
            z.x.plus(x.z).over(s),
            z.y.plus(y.z).over(s),
            Single::ratio(25, 100).times(s),
            x.y.minus(y.x).over(s),
        ]
    }
}

/// The upward direction of the world.
pub open spec fn spec_world_up() -> Vec3 {
    Vec3::new(Single::zero(), Single::one(), Single::zero())
}

/// The upward direction of the world.
#[verifier::when_used_as_spec(spec_world_up)]
pub fn world_up() -> (r: Vec3)
    ensures
        r == spec_world_up(),
{
    Vec3::new(Single::zero(), Single::one(), Single::zero())
}

/// The pose of a camera at a position that looks at a target.
pub open spec fn spec_look_at(position: Vec3, target: Vec3) -> RigidTransform {
    let forward = target.minus(position).normalized();
    let right = forward.cross(world_up()).normalized();
    let up = right.cross(forward);
    let back = forward.scaled(Single::ratio((-1) as i32, 1));
    RigidTransform {
        translation: position,
        rotation_xyzw: quaternion_from_columns(right, up, back),
    }
}

/// The pose of a camera at a position that looks at a target.
#[verifier::when_used_as_spec(spec_look_at)]
pub fn look_at(position: Vec3, target: Vec3) -> (r: RigidTransform)
    ensures
        r == spec_look_at(position, target),
{
    let forward = target.minus(position).normalized();
    let right = forward.cross(world_up()).normalized();
    let up = right.cross(forward);
    let back = forward.scaled(Single::ratio((-1) as i32, 1));
    RigidTransform {
        translation: position,
        rotation_xyzw: quaternion_from_columns(right, up, back),
    }
}

/// Where the roof lies in an image, in pixels.
#[derive(Clone, Copy, Debug, PartialEq, Eq, Structural)]
pub struct ImageBounds {
    /// Leftmost pixel.
    pub min_x: Single,
    /// Rightmost pixel.
    pub max_x: Single,
    /// Topmost pixel.
    pub min_y: Single,
    /// Bottommost pixel.
    pub max_y: Single,
}

/// Bounds that hold nothing.
pub open spec fn spec_empty_bounds() -> ImageBounds {
    ImageBounds {
        min_x: Single::infinity(),
        max_x: Single::infinity().negated(),
        min_y: Single::infinity(),
        max_y: Single::infinity().negated(),
    }
}

/// Bounds that hold nothing.
#[verifier::when_used_as_spec(spec_empty_bounds)]
pub fn empty_bounds() -> (r: ImageBounds)
    ensures
        r == spec_empty_bounds(),
{
    ImageBounds {
        min_x: Single::infinity(),
        max_x: Single::infinity().negated(),
        min_y: Single::infinity(),
        max_y: Single::infinity().negated(),
    }
}

/// The axes of a camera.
#[derive(Clone, Copy, Debug, PartialEq, Eq, Structural)]
pub struct ViewAxes {
    /// Towards the aim.
    pub forward: Vec3,
    /// To the right.
    pub right: Vec3,
    /// Upwards.
    pub up: Vec3,
}

/// The axes of a camera at a position that aims at a point.
pub open spec fn spec_view_axes(position: Vec3, aim: Vec3) -> ViewAxes {
    let forward = aim.minus(position).normalized();
    let right = forward.cross(world_up()).normalized();
    ViewAxes { forward, right, up: right.cross(forward) }
}

/// The axes of a camera at a position that aims at a point.
#[verifier::when_used_as_spec(spec_view_axes)]
pub fn view_axes(position: Vec3, aim: Vec3) -> (r: ViewAxes)
    ensures
        r == spec_view_axes(position, aim),
{
    let forward = aim.minus(position).normalized();
    let right = forward.cross(world_up()).normalized();
    ViewAxes { forward, right, up: right.cross(forward) }
}

/// The bounds widened to a point; none where the point is not in front of the camera.
pub open spec fn spec_bounds_with(
    bounds: ImageBounds,
    position: Vec3,
    axes: ViewAxes,
    intrinsics: CameraIntrinsics,
    point: Vec3,
) -> Option<ImageBounds> {
    let relative = point.minus(position);
    let depth = relative.dot(axes.forward);
    if depth.at_most(Single::ratio(1, 10000)) {
        None
    } else {
        let x = intrinsics.fx.times(relative.dot(axes.right)).over(depth).plus(intrinsics.cx);
        let y = intrinsics.cy.minus(intrinsics.fy.times(relative.dot(axes.up)).over(depth));
        Some(
            ImageBounds {
                min_x: bounds.min_x.min(x),
                max_x: bounds.max_x.max(x),
                min_y: bounds.min_y.min(y),
                max_y: bounds.max_y.max(y),
            },
        )
    }
}

/// The bounds widened to a point; none where the point is not in front of the camera.
#[verifier::when_used_as_spec(spec_bounds_with)]
pub fn bounds_with(
    bounds: ImageBounds,
    position: Vec3,
    axes: ViewAxes,
    intrinsics: CameraIntrinsics,
    point: Vec3,
) -> (r: Option<ImageBounds>)
    ensures
        r == spec_bounds_with(bounds, position, axes, intrinsics, point),
{
    let relative = point.minus(position);
    let depth = relative.dot(axes.forward);
    if depth.at_most(Single::ratio(1, 10000)) {
        None
    } else {
        let x = intrinsics.fx.times(relative.dot(axes.right)).over(depth).plus(intrinsics.cx);
        let y = intrinsics.cy.minus(intrinsics.fy.times(relative.dot(axes.up)).over(depth));
        Some(
            ImageBounds {
                min_x: bounds.min_x.min(x),
                max_x: bounds.max_x.max(x),
                min_y: bounds.min_y.min(y),
                max_y: bounds.max_y.max(y),
            },
        )
    }
}

/// The bounds of the first `n` points; none where one of them is not in front.
pub open spec fn bounds_of(
    position: Vec3,
    axes: ViewAxes,
    points: Seq<Vec3>,
    intrinsics: CameraIntrinsics,
    n: nat,
) -> Option<ImageBounds>
    decreases n,
{
    if n == 0 {
        Some(empty_bounds())
    } else {
        match bounds_of(position, axes, points, intrinsics, (n - 1) as nat) {
            Some(bounds) => bounds_with(bounds, position, axes, intrinsics, points[n - 1]),
            None => None,
        }
    }
}

/// Where points lie in the image of a camera that aims at a point.
pub open spec fn projection(
    position: Vec3,
    aim: Vec3,
    points: Seq<Vec3>,
    intrinsics: CameraIntrinsics,
) -> Option<ImageBounds> {
    bounds_of(position, view_axes(position, aim), points, intrinsics, points.len())
}

/// Projects points into the image of a camera that aims at a point.
pub fn projected_bounds(
    position: Vec3,
    aim: Vec3,
    points: &Vec<Vec3>,
    intrinsics: CameraIntrinsics,
) -> (r: Option<ImageBounds>)
    ensures
        r == projection(position, aim, points@, intrinsics),
{
    let axes = view_axes(position, aim);
    let mut bounds = empty_bounds();
    let mut i: usize = 0;
    while i < points.len()
        invariant
            axes == view_axes(position, aim),
            i <= points@.len(),
            bounds_of(position, axes, points@, intrinsics, i as nat) == Some(bounds),
        decreases points@.len() - i,
    {
        match bounds_with(bounds, position, axes, intrinsics, points[i]) {
            Some(next) => {
                bounds = next;
            },
            None => {
                proof {
                    lemma_lost_bounds(
                        position,
                        axes,
                        points@,
                        intrinsics,
                        (i + 1) as nat,
                        points@.len(),
                    );
                }
                return None;
            },
        }
        i = i + 1;
    }
    Some(bounds)
}

proof fn lemma_lost_bounds(
    position: Vec3,
    axes: ViewAxes,
    points: Seq<Vec3>,
    intrinsics: CameraIntrinsics,
    n: nat,
    m: nat,
)
    requires
        n <= m,
        bounds_of(position, axes, points, intrinsics, n) is None,
    ensures
        bounds_of(position, axes, points, intrinsics, m) is None,
    decreases m,
{
    if n < m {
        lemma_lost_bounds(position, axes, points, intrinsics, n, (m - 1) as nat);
    }
}

/// Whether the roof is cropped at the side that the intent asks for.
pub open spec fn spec_framing_edge_reached(
    bounds: ImageBounds,
    intent: FramingIntent,
    desired: Single,
) -> bool {
    match intent {
        FramingIntent::PartialLeft => bounds.min_x.at_most(desired),
        FramingIntent::PartialRight => desired.at_most(bounds.max_x),
        FramingIntent::PartialTop => bounds.min_y.at_most(desired),
        FramingIntent::PartialBottom => desired.at_most(bounds.max_y),
        FramingIntent::Centered => true,
    }
}

/// Whether the roof is cropped at the side that the intent asks for.
#[verifier::when_used_as_spec(spec_framing_edge_reached)]
pub fn framing_edge_reached(
    bounds: ImageBounds,
    intent: FramingIntent,
    desired: Single,
) -> (r: bool)
    ensures
        r == spec_framing_edge_reached(bounds, intent, desired),
{
    match intent {
        FramingIntent::PartialLeft => bounds.min_x.at_most(desired),
        FramingIntent::PartialRight => desired.at_most(bounds.max_x),
        FramingIntent::PartialTop => bounds.min_y.at_most(desired),
        FramingIntent::PartialBottom => desired.at_most(bounds.max_y),
        FramingIntent::Centered => true,
    }
}

/// Where the aim moves so that the roof leaves the image at the intended side.
pub open spec fn spec_crop_direction(intent: FramingIntent, axes: ViewAxes) -> Vec3 {
    match intent {
        FramingIntent::PartialLeft => axes.right,
        FramingIntent::PartialRight => axes.right.scaled(Single::ratio((-1) as i32, 1)),
        FramingIntent::PartialTop => axes.up.scaled(Single::ratio((-1) as i32, 1)),
        FramingIntent::PartialBottom => axes.up,
        FramingIntent::Centered => Vec3::origin(),
    }
}

/// Where the aim moves so that the roof leaves the image at the intended side.
#[verifier::when_used_as_spec(spec_crop_direction)]
pub fn crop_direction(intent: FramingIntent, axes: ViewAxes) -> (r: Vec3)
    ensures
        r == spec_crop_direction(intent, axes),
{
    match intent {
        FramingIntent::PartialLeft => axes.right,
        FramingIntent::PartialRight => axes.right.scaled(Single::ratio((-1) as i32, 1)),
        FramingIntent::PartialTop => axes.up.scaled(Single::ratio((-1) as i32, 1)),
        FramingIntent::PartialBottom => axes.up,
        FramingIntent::Centered => Vec3::origin(),
    }
}

/// The extent of the roof across the side that is cropped.
pub open spec fn spec_crop_span(intent: FramingIntent, bounds: ImageBounds) -> Single {
    match intent {
        FramingIntent::PartialLeft => bounds.max_x.minus(bounds.min_x),
        FramingIntent::PartialRight => bounds.max_x.minus(bounds.min_x),
        FramingIntent::PartialTop => bounds.max_y.minus(bounds.min_y),
        FramingIntent::PartialBottom => bounds.max_y.minus(bounds.min_y),
        FramingIntent::Centered => Single::zero(),
    }
}

/// The extent of the roof across the side that is cropped.
#[verifier::when_used_as_spec(spec_crop_span)]
pub fn crop_span(intent: FramingIntent, bounds: ImageBounds) -> (r: Single)
    ensures
        r == spec_crop_span(intent, bounds),
{
    match intent {
        FramingIntent::PartialLeft => bounds.max_x.minus(bounds.min_x),
        FramingIntent::PartialRight => bounds.max_x.minus(bounds.min_x),
        FramingIntent::PartialTop => bounds.max_y.minus(bounds.min_y),
        FramingIntent::PartialBottom => bounds.max_y.minus(bounds.min_y),
        FramingIntent::Centered => Single::zero(),
    }
}

/// The pixel that the roof has to reach beyond the cropped side.
pub open spec fn spec_crop_edge(
    intent: FramingIntent,
    bounds: ImageBounds,
    crop_depth: Single,
    intrinsics: CameraIntrinsics,
) -> Single {
    let margin = crop_span(intent, bounds).times(crop_depth).max(Single::ratio(2, 1));
    match intent {
        FramingIntent::PartialLeft => margin.negated(),
        FramingIntent::PartialTop => margin.negated(),
        FramingIntent::PartialRight => Single::from_u32(intrinsics.width).plus(margin),
        FramingIntent::PartialBottom => Single::from_u32(intrinsics.height).plus(margin),
        FramingIntent::Centered => Single::zero(),
    }
}

/// The pixel that the roof has to reach beyond the cropped side.
#[verifier::when_used_as_spec(spec_crop_edge)]
pub fn crop_edge(
    intent: FramingIntent,
    bounds: ImageBounds,
    crop_depth: Single,
    intrinsics: CameraIntrinsics,
) -> (r: Single)
    ensures
        r == spec_crop_edge(intent, bounds, crop_depth, intrinsics),
{
    let margin = crop_span(intent, bounds).times(crop_depth).max(Single::ratio(2, 1));
    match intent {
        FramingIntent::PartialLeft => margin.negated(),
        FramingIntent::PartialTop => margin.negated(),
        FramingIntent::PartialRight => Single::from_u32(intrinsics.width).plus(margin),
        FramingIntent::PartialBottom => Single::from_u32(intrinsics.height).plus(margin),
        FramingIntent::Centered => Single::zero(),
    }
}

/// A camera that looks for an aim that crops the roof as intended.
#[derive(Clone, Copy, Debug, PartialEq, Eq, Structural)]
pub struct CropSearch {
    /// Position of the camera.
    pub position: Vec3,
    /// Point of interest.
    pub center: Vec3,
    /// Direction in which the aim moves.
    pub direction: Vec3,
    /// Intended composition.
    pub intent: FramingIntent,
    /// Pixel that the roof has to reach.
    pub edge: Single,
    /// Intrinsics of the camera.
    pub intrinsics: CameraIntrinsics,
}

impl CropSearch {
    /// The aim after a shift.
    pub open spec fn spec_aim(self, shift: Single) -> Vec3 {
        self.center.plus(self.direction.scaled(shift))
    }

    /// The aim after a shift.
    #[verifier::when_used_as_spec(spec_aim)]
    pub fn aim(self, shift: Single) -> (r: Vec3)
        ensures
            r == self.spec_aim(shift),
    {
        self.center.plus(self.direction.scaled(shift))
    }

    /// The roof reaches the pixel when the aim has a shift.
    pub open spec fn reaches(self, points: Seq<Vec3>, shift: Single) -> bool {
        match projection(self.position, self.aim(shift), points, self.intrinsics) {
            Some(bounds) => framing_edge_reached(bounds, self.intent, self.edge),
            None => false,
        }
    }

    fn does_reach(self, points: &Vec<Vec3>, shift: Single) -> (r: bool)
        ensures
            r == self.reaches(points@, shift),
    {
        match projected_bounds(self.position, self.aim(shift), points, self.intrinsics) {
            Some(bounds) => framing_edge_reached(bounds, self.intent, self.edge),
            None => false,
        }
    }

    /// The last bounds that growing shifts found, starting from known ones, and the shift
    /// at which the growth ends: it ends where the pixel is reached, where the shift is
    /// four times the distance, or after `rounds` steps.
    pub open spec fn grown(
        self,
        points: Seq<Vec3>,
        bounds: ImageBounds,
        shift: Single,
        rounds: nat,
    ) -> (ImageBounds, Single)
        decreases rounds,
    {
        if rounds == 0 {
            (bounds, shift)
        } else {
            let seen = projection(self.position, self.aim(shift), points, self.intrinsics);
            let found = match seen {
                Some(found) => found,
                None => bounds,
            };
            if seen is Some && framing_edge_reached(found, self.intent, self.edge) {
                (found, shift)
            } else {
                let next = shift.times(Single::ratio(16, 10));
                if self.limit().less(next) {
                    (found, next)
                } else {
                    self.grown(points, found, next, (rounds - 1) as nat)
                }
            }
        }
    }

    /// The shift at which growth stops.
    pub open spec fn spec_limit(self) -> Single {
        self.center.minus(self.position).length().times(Single::ratio(4, 1))
    }

    /// The shift at which growth stops.
    #[verifier::when_used_as_spec(spec_limit)]
    pub fn limit(self) -> (r: Single)
        ensures
            r == self.spec_limit(),
    {
        self.center.minus(self.position).length().times(Single::ratio(4, 1))
    }

    fn grow(self, points: &Vec<Vec3>, bounds: ImageBounds) -> (r: (ImageBounds, Single))
        ensures
            r == self.grown(points@, bounds, Single::one(), 20),
    {
        let limit = self.limit();
        let mut found = bounds;
        let mut shift = Single::one();
        let mut rounds: u32 = 20;
        while rounds > 0
            invariant
                limit == self.limit(),
                self.grown(points@, bounds, Single::one(), 20) == self.grown(
                    points@,
                    found,
                    shift,
                    rounds as nat,
                ),
            decreases rounds,
        {
            if let Some(seen) = projected_bounds(
                self.position,
                self.aim(shift),
                points,
                self.intrinsics,
            ) {
                if framing_edge_reached(seen, self.intent, self.edge) {
                    return (seen, shift);
                }
                found = seen;
            }
            shift = shift.times(Single::ratio(16, 10));
            if limit.less(shift) {
                return (found, shift);
            }
            rounds = rounds - 1;
        }
        (found, shift)
    }

    /// The upper end after halving the interval of shifts `rounds` times towards the
    /// smallest one that reaches the pixel.
    pub open spec fn halved(
        self,
        points: Seq<Vec3>,
        low: Single,
        high: Single,
        rounds: nat,
    ) -> Single
        decreases rounds,
    {
        if rounds == 0 {
            high
        } else {
            let middle = low.plus(high).times(Single::ratio(5, 10));
            if self.reaches(points, middle) {
                self.halved(points, low, middle, (rounds - 1) as nat)
            } else {
                self.halved(points, middle, high, (rounds - 1) as nat)
            }
        }
    }

    fn halve(self, points: &Vec<Vec3>, start: Single) -> (r: Single)
        ensures
            r == self.halved(points@, Single::zero(), start, 28),
    {
        let mut low = Single::zero();
        let mut high = start;
        let mut rounds: u32 = 28;
        while rounds > 0
            invariant
                self.halved(points@, Single::zero(), start, 28) == self.halved(
                    points@,
                    low,
                    high,
                    rounds as nat,
                ),
            decreases rounds,
        {
            let middle = low.plus(high).times(Single::ratio(5, 10));
            if self.does_reach(points, middle) {
                high = middle;
            } else {
                low = middle;
            }
            rounds = rounds - 1;
        }
        high
    }
}

/// The search for the aim of a camera that sees the roof at given bounds.
pub open spec fn spec_crop_search(
    position: Vec3,
    center: Vec3,
    intent: FramingIntent,
    crop_depth: Single,
    bounds: ImageBounds,
    intrinsics: CameraIntrinsics,
) -> CropSearch {
    CropSearch {
        position,
        center,
        direction: crop_direction(intent, view_axes(position, center)),
        intent,
        edge: crop_edge(intent, bounds, crop_depth, intrinsics),
        intrinsics,
    }
}

/// The search for the aim of a camera that sees the roof at given bounds.
#[verifier::when_used_as_spec(spec_crop_search)]
pub fn crop_search(
    position: Vec3,
    center: Vec3,
    intent: FramingIntent,
    crop_depth: Single,
    bounds: ImageBounds,
    intrinsics: CameraIntrinsics,
) -> (r: CropSearch)
    ensures
        r == spec_crop_search(position, center, intent, crop_depth, bounds, intrinsics),
{
    CropSearch {
        position,
        center,
        direction: crop_direction(intent, view_axes(position, center)),
        intent,
        edge: crop_edge(intent, bounds, crop_depth, intrinsics),
        intrinsics,
    }
}

/// The aim of a camera: the point of interest, or beside it where the composition is to
/// crop the roof.
pub open spec fn framing_aim(
    position: Vec3,
    center: Vec3,
    intent: FramingIntent,
    crop_depth: Single,
    points: Seq<Vec3>,
    intrinsics: CameraIntrinsics,
) -> Vec3 {
    match projection(position, center, points, intrinsics) {
        None => center,
        Some(bounds) => {
            let search = crop_search(position, center, intent, crop_depth, bounds, intrinsics);
            if intent == FramingIntent::Centered || framing_edge_reached(
                bounds,
                intent,
                search.edge,
            ) {
                center
            } else {
                let (last, shift) = search.grown(points, bounds, Single::one(), 20);
                if framing_edge_reached(last, intent, search.edge) {
                    search.aim(search.halved(points, Single::zero(), shift, 28))
                } else {
                    search.aim(shift)
                }
            }
        },
    }
}

/// Finds the aim of a camera: the point of interest, or beside it where the composition is
/// to crop the roof.
pub fn solve_framing_aim(
    position: Vec3,
    center: Vec3,
    intent: FramingIntent,
    crop_depth: Single,
    points: &Vec<Vec3>,
    intrinsics: CameraIntrinsics,
) -> (r: Vec3)
    ensures
        r == framing_aim(position, center, intent, crop_depth, points@, intrinsics),
{
    let bounds = match projected_bounds(position, center, points, intrinsics) {
        Some(bounds) => bounds,
        None => return center,
    };
    let search = crop_search(position, center, intent, crop_depth, bounds, intrinsics);
    if intent == FramingIntent::Centered || framing_edge_reached(bounds, intent, search.edge) {
        return center;
    }
    let grown = search.grow(points, bounds);
    if framing_edge_reached(grown.0, intent, search.edge) {
        search.aim(search.halve(points, grown.1))
    } else {
        search.aim(grown.1)
    }
}

/// A centered composition aims at the point of interest.
pub proof fn centered_views_aim_at_the_center(
    position: Vec3,
    center: Vec3,
    crop_depth: Single,
    points: Seq<Vec3>,
    intrinsics: CameraIntrinsics,
)
    ensures
        framing_aim(
            position,
            center,
            FramingIntent::Centered,
            crop_depth,
            points,
            intrinsics,
        ) == center,
{
}

/// The corners of a level rectangle around the vertical axis, one by one.
pub open spec fn spec_corner(width: Single, depth: Single, y: Single, number: u32) -> Vec3 {
    let x = width.times(Single::ratio(5, 10));
    let z = depth.times(Single::ratio(5, 10));
    let left = width.negated().times(Single::ratio(5, 10));
    let near = depth.negated().times(Single::ratio(5, 10));
    if number == 0 {
        Vec3::new(left, y, near)
    } else if number == 1 {
        Vec3::new(x, y, near)
    } else if number == 2 {
        Vec3::new(x, y, z)
    } else {
        Vec3::new(left, y, z)
    }
}

/// The corners of a level rectangle around the vertical axis, one by one.
#[verifier::when_used_as_spec(spec_corner)]
pub fn corner(width: Single, depth: Single, y: Single, number: u32) -> (r: Vec3)
    ensures
        r == spec_corner(width, depth, y, number),
{
    let x = width.times(Single::ratio(5, 10));
    let z = depth.times(Single::ratio(5, 10));
    let left = width.negated().times(Single::ratio(5, 10));
    let near = depth.negated().times(Single::ratio(5, 10));
    if number == 0 {
        Vec3::new(left, y, near)
    } else if number == 1 {
        Vec3::new(x, y, near)
    } else if number == 2 {
        Vec3::new(x, y, z)
    } else {
        Vec3::new(left, y, z)
    }
}

/// The corners of a level rectangle around the vertical axis.
pub open spec fn rectangle(width: Single, depth: Single, y: Single) -> Seq<Vec3> {
    seq![
        corner(width, depth, y, 0),
        corner(width, depth, y, 1),
        corner(width, depth, y, 2),
        corner(width, depth, y, 3),
    ]
}

fn push_rectangle(points: &mut Vec<Vec3>, width: Single, depth: Single, y: Single)
    ensures
        final(points)@ == old(points)@ + rectangle(width, depth, y),
{
    let ghost start = points@;
    points.push(corner(width, depth, y, 0));
    points.push(corner(width, depth, y, 1));
    points.push(corner(width, depth, y, 2));
    points.push(corner(width, depth, y, 3));
    assert(points@ =~= start + rectangle(width, depth, y));
}

/// The corners of the three rectangles of a two-stage roof.
pub open spec fn target_points(building: SampledBuilding, roof: SampledRoof) -> Seq<Vec3> {
    let eave_y = building.wall_height_m;
    let shoulder_y = eave_y.plus(roof.lower_rise_m);
    rectangle(roof.eave_width_m, roof.eave_depth_m, eave_y) + rectangle(
        roof.shoulder_width_m,
        roof.shoulder_depth_m,
        shoulder_y,
    ) + rectangle(
        roof.crown_top_width_m,
        roof.crown_top_depth_m,
        shoulder_y.plus(roof.upper_rise_m),
    )
}

/// Collects the corners of the three rectangles of a two-stage roof.
pub fn target_roof_control_points(building: SampledBuilding, roof: SampledRoof) -> (r: Vec<Vec3>)
    ensures
        r@ == target_points(building, roof),
{
    let eave_y = building.wall_height_m;
    let shoulder_y = eave_y.plus(roof.lower_rise_m);
    let mut r: Vec<Vec3> = Vec::new();
    push_rectangle(&mut r, roof.eave_width_m, roof.eave_depth_m, eave_y);
    push_rectangle(&mut r, roof.shoulder_width_m, roof.shoulder_depth_m, shoulder_y);
    push_rectangle(
        &mut r,
        roof.crown_top_width_m,
        roof.crown_top_depth_m,
        shoulder_y.plus(roof.upper_rise_m),
    );
    assert(r@ =~= target_points(building, roof));
    r
}

/// The corners of a level rectangle with given half extents.
pub open spec fn level(x: Single, y: Single, z: Single) -> Seq<Vec3> {
    seq![
        Vec3::new(x.negated(), y, z.negated()),
        Vec3::new(x, y, z.negated()),
        Vec3::new(x, y, z),
        Vec3::new(x.negated(), y, z),
    ]
}

fn push_level(points: &mut Vec<Vec3>, x: Single, y: Single, z: Single)
    ensures
        final(points)@ == old(points)@ + level(x, y, z),
{
    let ghost start = points@;
    points.push(Vec3::new(x.negated(), y, z.negated()));
    points.push(Vec3::new(x, y, z.negated()));
    points.push(Vec3::new(x, y, z));
    points.push(Vec3::new(x.negated(), y, z));
    assert(points@ =~= start + level(x, y, z));
}

/// The two ends of a ridge.
pub open spec fn ridge(x: Single, y: Single, z: Single) -> Seq<Vec3> {
    seq![Vec3::new(x.negated(), y, z), Vec3::new(x, y, z)]
}

fn push_ridge(points: &mut Vec<Vec3>, x: Single, y: Single, z: Single)
    ensures
        final(points)@ == old(points)@ + ridge(x, y, z),
{
    let ghost start = points@;
    points.push(Vec3::new(x.negated(), y, z));
    points.push(Vec3::new(x, y, z));
    assert(points@ =~= start + ridge(x, y, z));
}

/// The top of a roof on the vertical axis.
pub open spec fn apex(y: Single) -> Seq<Vec3> {
    seq![Vec3::new(Single::zero(), y, Single::zero())]
}

/// The share of the eaves that a cupola takes up.
pub open spec fn spec_cupola_fraction(roof: SampledOrdinaryRoof) -> Single {
    roof.inset_fraction.clamp(Single::ratio(12, 100), Single::ratio(32, 100))
}

/// The share of the eaves that a cupola takes up.
#[verifier::when_used_as_spec(spec_cupola_fraction)]
pub fn cupola_fraction(roof: SampledOrdinaryRoof) -> (r: Single)
    ensures
        r == spec_cupola_fraction(roof),
{
    roof.inset_fraction.clamp(Single::ratio(12, 100), Single::ratio(32, 100))
}

/// The points above the eaves of an ordinary roof with given half extents and top.
pub open spec fn upper_points(roof: SampledOrdinaryRoof, x: Single, top: Single, z: Single) -> Seq<
    Vec3,
> {
    match roof.family {
        OrdinaryRoofFamily::Flat => level(x, top, z),
        OrdinaryRoofFamily::Gable => ridge(x, top, Single::zero()),
        OrdinaryRoofFamily::Hip => ridge(
            x.times(roof.ridge_length_fraction),
            top,
            Single::zero(),
        ),
        OrdinaryRoofFamily::Shed => ridge(x, top, z),
        OrdinaryRoofFamily::Mansard => level(
            x.times(roof.inset_fraction),
            top,
            z.times(roof.inset_fraction),
        ),
        OrdinaryRoofFamily::Pyramid => apex(top),
        OrdinaryRoofFamily::Cupola => {
            let cupola_x = x.times(cupola_fraction(roof));
            let cupola_z = z.times(cupola_fraction(roof));
            apex(top) + level(cupola_x, top, cupola_z) + level(
                cupola_x,
                top.plus(roof.cap_height_m.times(Single::ratio(62, 100))),
                cupola_z,
            ) + apex(top.plus(roof.cap_height_m))
        },
    }
}

/// The points that span an ordinary roof.
pub open spec fn ordinary_points(building: SampledBuilding, roof: SampledOrdinaryRoof) -> Seq<
    Vec3,
> {
    let x = roof.eave_width_m.times(Single::ratio(5, 10));
    let z = roof.eave_depth_m.times(Single::ratio(5, 10));
    let y = building.wall_height_m;
    level(x, y, z) + upper_points(roof, x, y.plus(roof.rise_m), z)
}

/// Collects the points that span an ordinary roof.
pub fn ordinary_roof_control_points(building: SampledBuilding, roof: SampledOrdinaryRoof) -> (r:
    Vec<Vec3>)
    ensures
        r@ == ordinary_points(building, roof),
{
    let x = roof.eave_width_m.times(Single::ratio(5, 10));
    let z = roof.eave_depth_m.times(Single::ratio(5, 10));
    let y = building.wall_height_m;
    let top = y.plus(roof.rise_m);
    let mut r: Vec<Vec3> = Vec::new();
    push_level(&mut r, x, y, z);
    match roof.family {
        OrdinaryRoofFamily::Flat => {
            push_level(&mut r, x, top, z);
        },
        OrdinaryRoofFamily::Gable => {
            push_ridge(&mut r, x, top, Single::zero());
        },
        OrdinaryRoofFamily::Hip => {
            push_ridge(&mut r, x.times(roof.ridge_length_fraction), top, Single::zero());
        },
        OrdinaryRoofFamily::Shed => {
            push_ridge(&mut r, x, top, z);
        },
        OrdinaryRoofFamily::Mansard => {
            push_level(
                &mut r,
                x.times(roof.inset_fraction),
                top,
                z.times(roof.inset_fraction),
            );
        },
        OrdinaryRoofFamily::Pyramid => {
            r.push(Vec3::new(Single::zero(), top, Single::zero()));
        },
        OrdinaryRoofFamily::Cupola => {
            let cupola_x = x.times(cupola_fraction(roof));
            let cupola_z = z.times(cupola_fraction(roof));
            r.push(Vec3::new(Single::zero(), top, Single::zero()));
            push_level(&mut r, cupola_x, top, cupola_z);
            push_level(
                &mut r,
                cupola_x,
                top.plus(roof.cap_height_m.times(Single::ratio(62, 100))),
                cupola_z,
            );
            r.push(Vec3::new(Single::zero(), top.plus(roof.cap_height_m), Single::zero()));
        },
    }
    assert(r@ =~= ordinary_points(building, roof));
    r
}

/// Time of a frame in nanoseconds.
pub open spec fn frame_time(frame_index: int, frame_interval_ms: int) -> int {
    frame_index * frame_interval_ms * 1_000_000
}

/// Time of a frame in nanoseconds.
pub fn timestamp_ns(frame_index: u32, frame_interval_ms: u32) -> (r: u64)
    requires
        frame_time(frame_index as int, frame_interval_ms as int) <= u64::MAX,
    ensures
        r == frame_time(frame_index as int, frame_interval_ms as int),
{
    assert(0 <= frame_index * frame_interval_ms <= 0xffff_ffff * 0xffff_ffff) by (nonlinear_arith)
        requires
            0 <= frame_index <= 0xffff_ffff,
            0 <= frame_interval_ms <= 0xffff_ffff,
    ;
    frame_index as u64 * frame_interval_ms as u64 * 1_000_000
}

/// Frames follow each other in time, by the same interval.
pub proof fn frames_follow_in_time(frame_index: int, frame_interval_ms: int)
    requires
        0 <= frame_index,
        0 < frame_interval_ms,
    ensures
        frame_time(frame_index, frame_interval_ms) < frame_time(
            frame_index + 1,
            frame_interval_ms,
        ),
        frame_time(frame_index + 1, frame_interval_ms) - frame_time(frame_index, frame_interval_ms)
            == frame_interval_ms * 1_000_000,
{
    assert((frame_index + 1) * frame_interval_ms == frame_index * frame_interval_ms
        + frame_interval_ms) by (nonlinear_arith);
}

/// The camera of a frame.
pub open spec fn spec_frame_camera(
    intrinsics: CameraIntrinsics,
    position: Vec3,
    aim: Vec3,
) -> CameraModel {
    CameraModel {
        intrinsics,
        distortion: DistortionModel::Pinhole,
        world_from_camera: look_at(position, aim),
        output_from_sensor: ImageTransform::identity(),
    }
}

/// The camera of a frame.
#[verifier::when_used_as_spec(spec_frame_camera)]
pub fn frame_camera(intrinsics: CameraIntrinsics, position: Vec3, aim: Vec3) -> (r: CameraModel)
    ensures
        r == spec_frame_camera(intrinsics, position, aim),
{
    CameraModel {
        intrinsics,
        distortion: DistortionModel::Pinhole,
        world_from_camera: look_at(position, aim),
        output_from_sensor: ImageTransform::identity(),
    }
}

/// The plan of a frame, given the tangent of half of its field of view.
pub fn plan_frame(
    image: ImageConfig,
    sequence: SequenceConfig,
    choices: CameraChoices,
    frame_index: u32,
    position: Vec3,
    center: Vec3,
    points: &Vec<Vec3>,
    tan_half_fov: Single,
) -> (r: CameraFramePlan)
    requires
        frame_time(frame_index as int, sequence.frame_interval_ms as int) <= u64::MAX,
    ensures
        r.frame_index == frame_index,
        r.timestamp_ns == frame_time(frame_index as int, sequence.frame_interval_ms as int),
        r.camera == frame_camera(
            frame_intrinsics(image, tan_half_fov),
            position,
            framing_aim(
                position,
                center,
                choices.framing_intent,
                choices.crop_depth_fraction,
                points@,
                frame_intrinsics(image, tan_half_fov),
            ),
        ),
{
    let intrinsics = frame_intrinsics(image, tan_half_fov);
    let aim = solve_framing_aim(
        position,
        center,
        choices.framing_intent,
        choices.crop_depth_fraction,
        points,
        intrinsics,
    );
    CameraFramePlan {
        frame_index,
        timestamp_ns: timestamp_ns(frame_index, sequence.frame_interval_ms),
        camera: frame_camera(intrinsics, position, aim),
    }
}

/// The motion plan of a sequence, given the aim of its middle frame.
pub open spec fn spec_motion_plan(
    camera: CameraSamplingConfig,
    choices: CameraChoices,
    center: Vec3,
    middle_aim: Vec3,
) -> CameraMotionPlan {
    let end = end_fov_degrees(camera, choices);
    CameraMotionPlan {
        path_kind: choices.path_kind,
        zoom_behavior: zoom_between(choices.start_fov_degrees, end),
        framing_intent: choices.framing_intent,
        apparent_scale: choices.apparent_scale,
        target_width_fraction_goal: choices.target_width_fraction_goal,
        start_horizontal_fov_degrees: choices.start_fov_degrees,
        end_horizontal_fov_degrees: end,
        target_center: center,
        framing_offset: middle_aim.minus(center),
        handheld_sway_m: choices.handheld_sway,
    }
}

/// The motion plan of a sequence, given the aim of its middle frame.
#[verifier::when_used_as_spec(spec_motion_plan)]
pub fn motion_plan(
    camera: CameraSamplingConfig,
    choices: CameraChoices,
    center: Vec3,
    middle_aim: Vec3,
) -> (r: CameraMotionPlan)
    ensures
        r == spec_motion_plan(camera, choices, center, middle_aim),
{
    let end = end_fov_degrees(camera, choices);
    CameraMotionPlan {
        path_kind: choices.path_kind,
        zoom_behavior: zoom_between(choices.start_fov_degrees, end),
        framing_intent: choices.framing_intent,
        apparent_scale: choices.apparent_scale,
        target_width_fraction_goal: choices.target_width_fraction_goal,
        start_horizontal_fov_degrees: choices.start_fov_degrees,
        end_horizontal_fov_degrees: end,
        target_center: center,
        framing_offset: middle_aim.minus(center),
        handheld_sway_m: choices.handheld_sway,
    }
}

} // verus!
