//! Sampling of occluders around a building and along its camera path.

use crate::choice::choose_non_rooftop_occluder;
use crate::config::{OccluderChoice, OccluderKind, OccluderSamplingConfig};
use crate::draws::{Draws, coin_of, sign_of, unit_of};
use crate::geometry::{
    camera_clearance_bounds, outside_target_footprint, point_inside_aabb, rotated_half_extents,
    segment_intersects_aabb, Aabb, CameraObstacleSize, Turn,
};
use crate::plan::{OccluderPlacement, SampledBuilding, SampledOccluder};
use crate::sample_site::{ground_point, tau};
use crate::single::Single;
use crate::types::Vec3;
use vstd::prelude::*;

verus! {

/// Tries in front of the camera before an occluder is put elsewhere.
pub const FOREGROUND_TRIES: u32 = 32;

/// Tries on the site before an occluder is dropped.
pub const SITE_TRIES: u32 = 64;

/// Width, height and depth of an occluder of a kind at a scale.
pub open spec fn spec_occluder_size(kind: OccluderKind, scale: Single) -> Vec3 {
    let base = match kind {
        OccluderKind::Vegetation => Vec3::new(
            Single::ratio(4, 1),
            Single::ratio(7, 1),
            Single::ratio(4, 1),
        ),
        OccluderKind::Vehicle => Vec3::new(
            Single::ratio(46, 10),
            Single::ratio(17, 10),
            Single::ratio(19, 10),
        ),
        OccluderKind::Pole => Vec3::new(
            Single::ratio(22, 100),
            Single::ratio(75, 10),
            Single::ratio(22, 100),
        ),
        OccluderKind::Sign => Vec3::new(
            Single::ratio(28, 10),
            Single::ratio(36, 10),
            Single::ratio(28, 100),
        ),
        OccluderKind::Building => Vec3::new(
            Single::ratio(9, 1),
            Single::ratio(55, 10),
            Single::ratio(8, 1),
        ),
        OccluderKind::Pedestrian => Vec3::new(
            Single::ratio(62, 100),
            Single::ratio(172, 100),
            Single::ratio(42, 100),
        ),
        OccluderKind::RooftopEquipment => Vec3::new(
            Single::ratio(18, 10),
            Single::ratio(135, 100),
            Single::ratio(15, 10),
        ),
    };
    base.scaled(scale)
}

/// Width, height and depth of an occluder of a kind at a scale.
#[verifier::when_used_as_spec(spec_occluder_size)]
pub fn occluder_size(kind: OccluderKind, scale: Single) -> (r: Vec3)
    ensures
        r == spec_occluder_size(kind, scale),
{
    let base = match kind {
        OccluderKind::Vegetation => Vec3::new(
            Single::ratio(4, 1),
            Single::ratio(7, 1),
            Single::ratio(4, 1),
        ),
        OccluderKind::Vehicle => Vec3::new(
            Single::ratio(46, 10),
            Single::ratio(17, 10),
            Single::ratio(19, 10),
        ),
        OccluderKind::Pole => Vec3::new(
            Single::ratio(22, 100),
            Single::ratio(75, 10),
            Single::ratio(22, 100),
        ),
        OccluderKind::Sign => Vec3::new(
            Single::ratio(28, 10),
            Single::ratio(36, 10),
            Single::ratio(28, 100),
        ),
        OccluderKind::Building => Vec3::new(
            Single::ratio(9, 1),
            Single::ratio(55, 10),
            Single::ratio(8, 1),
        ),
        OccluderKind::Pedestrian => Vec3::new(
            Single::ratio(62, 100),
            Single::ratio(172, 100),
            Single::ratio(42, 100),
        ),
        OccluderKind::RooftopEquipment => Vec3::new(
            Single::ratio(18, 10),
            Single::ratio(135, 100),
            Single::ratio(15, 10),
        ),
    };
    base.scaled(scale)
}

/// How readily an occluder of a kind is put in front of the camera.
pub open spec fn spec_foreground_probability_scale(kind: OccluderKind) -> Single {
    match kind {
        OccluderKind::Pedestrian => Single::one(),
        OccluderKind::Vehicle => Single::ratio(8, 10),
        OccluderKind::Vegetation => Single::ratio(55, 100),
        OccluderKind::Sign => Single::ratio(45, 100),
        OccluderKind::Pole => Single::ratio(35, 100),
        OccluderKind::Building => Single::zero(),
        OccluderKind::RooftopEquipment => Single::zero(),
    }
}

/// How readily an occluder of a kind is put in front of the camera.
#[verifier::when_used_as_spec(spec_foreground_probability_scale)]
pub fn foreground_probability_scale(kind: OccluderKind) -> (r: Single)
    ensures
        r == spec_foreground_probability_scale(kind),
{
    match kind {
        OccluderKind::Pedestrian => Single::one(),
        OccluderKind::Vehicle => Single::ratio(8, 10),
        OccluderKind::Vegetation => Single::ratio(55, 100),
        OccluderKind::Sign => Single::ratio(45, 100),
        OccluderKind::Pole => Single::ratio(35, 100),
        OccluderKind::Building => Single::zero(),
        OccluderKind::RooftopEquipment => Single::zero(),
    }
}

/// No camera stands or moves in a box.
pub open spec fn clears_cameras(bounds: Aabb, cameras: Seq<Vec3>) -> bool {
    forall|i: int|
        0 <= i < cameras.len() ==> {
            &&& !point_inside_aabb(#[trigger] cameras[i], bounds)
            &&& i > 0 ==> !segment_intersects_aabb(cameras[i - 1], cameras[i], bounds)
        }
}

/// Whether an occluder at a position stays clear of every camera and of every move
/// between two of them.
pub fn occluder_position_clears_camera_path(
    position: Vec3,
    size: CameraObstacleSize,
    cameras: &Vec<Vec3>,
) -> (r: bool)
    ensures
        r == clears_cameras(camera_clearance_bounds(position, size), cameras@),
{
    let bounds = camera_clearance_bounds(position, size);
    let mut i: usize = 0;
    while i < cameras.len()
        invariant
            bounds == camera_clearance_bounds(position, size),
            i <= cameras@.len(),
            forall|j: int|
                0 <= j < i ==> {
                    &&& !point_inside_aabb(#[trigger] cameras@[j], bounds)
                    &&& j > 0 ==> !segment_intersects_aabb(cameras@[j - 1], cameras@[j], bounds)
                },
        decreases cameras@.len() - i,
    {
        let camera = cameras[i];
        if point_inside_aabb(camera, bounds) || (i > 0 && segment_intersects_aabb(
            cameras[i - 1],
            camera,
            bounds,
        )) {
            assert(!clears_cameras(bounds, cameras@)) by {
                let bad = cameras@[i as int];
                assert(point_inside_aabb(bad, bounds) || segment_intersects_aabb(
                    cameras@[i - 1],
                    bad,
                    bounds,
                ));
            }
            return false;
        }
        i = i + 1;
    }
    true
}

/// A position that keeps its distance to the building and to the cameras.
pub open spec fn fits(
    position: Vec3,
    building: SampledBuilding,
    size: CameraObstacleSize,
    cameras: Seq<Vec3>,
) -> bool {
    &&& outside_target_footprint(position, building, size.half_x, size.half_z)
    &&& clears_cameras(camera_clearance_bounds(position, size), cameras)
}

fn does_fit(
    position: Vec3,
    building: SampledBuilding,
    size: CameraObstacleSize,
    cameras: &Vec<Vec3>,
) -> (r: bool)
    ensures
        r == fits(position, building, size, cameras@),
{
    outside_target_footprint(position, building, size.half_x, size.half_z)
        && occluder_position_clears_camera_path(position, size, cameras)
}

/// A position between a camera and its target.
pub open spec fn spec_foreground_candidate(
    camera: Vec3,
    target: Vec3,
    depth: Single,
    offset: Single,
) -> Vec3 {
    let sightline = target.minus(camera);
    let lateral = Vec3::new(sightline.z.negated(), Single::zero(), sightline.x).normalized();
    let point = camera.plus(sightline.scaled(depth));
    Vec3::new(point.x, Single::zero(), point.z).plus(lateral.scaled(offset))
}

/// A position between a camera and its target.
#[verifier::when_used_as_spec(spec_foreground_candidate)]
pub fn foreground_candidate(
    camera: Vec3,
    target: Vec3,
    depth: Single,
    offset: Single,
) -> (r: Vec3)
    ensures
        r == spec_foreground_candidate(camera, target, depth, offset),
{
    let sightline = target.minus(camera);
    let lateral = Vec3::new(sightline.z.negated(), Single::zero(), sightline.x).normalized();
    let point = camera.plus(sightline.scaled(depth));
    Vec3::new(point.x, Single::zero(), point.z).plus(lateral.scaled(offset))
}

/// The position that a try in front of a camera proposes.
pub open spec fn spec_foreground_try(
    d: Draws,
    config: &OccluderSamplingConfig,
    camera: Vec3,
    target: Vec3,
) -> Vec3 {
    foreground_candidate(
        camera,
        target,
        d.ranged(config.foreground_depth_fraction),
        d.skip(1).ranged(config.foreground_lateral_offset_m).times(d.skip(2).sign()),
    )
}

/// The position that a try in front of a camera proposes.
#[verifier::when_used_as_spec(spec_foreground_try)]
pub fn foreground_try(
    d: Draws,
    config: &OccluderSamplingConfig,
    camera: Vec3,
    target: Vec3,
) -> (r: Vec3)
    ensures
        r == spec_foreground_try(d, config, camera, target),
{
    let w = d.words();
    foreground_candidate(
        camera,
        target,
        config.foreground_depth_fraction.at(unit_of(w[0])),
        config.foreground_lateral_offset_m.at(unit_of(w[1])).times(sign_of(coin_of(w[2]))),
    )
}

/// The first of `tries` positions in front of a camera that fits, and the place after the
/// tries.
pub open spec fn foreground_search(
    d: Draws,
    config: OccluderSamplingConfig,
    building: SampledBuilding,
    camera: Vec3,
    target: Vec3,
    size: CameraObstacleSize,
    cameras: Seq<Vec3>,
    tries: nat,
) -> (Option<Vec3>, Draws)
    decreases tries,
{
    if tries == 0 {
        (None, d)
    } else {
        let candidate = foreground_try(d, &config, camera, target);
        if fits(candidate, building, size, cameras) {
            (Some(candidate), d.skip(3))
        } else {
            foreground_search(
                d.skip(3),
                config,
                building,
                camera,
                target,
                size,
                cameras,
                (tries - 1) as nat,
            )
        }
    }
}

/// Looks for a position in front of a camera, and gives the place after the tries.
pub fn sample_foreground_occluder_position(
    d: Draws,
    config: &OccluderSamplingConfig,
    building: SampledBuilding,
    camera: Vec3,
    target: Vec3,
    size: CameraObstacleSize,
    cameras: &Vec<Vec3>,
) -> (r: (Option<Vec3>, Draws))
    ensures
        r == foreground_search(
            d,
            *config,
            building,
            camera,
            target,
            size,
            cameras@,
            FOREGROUND_TRIES as nat,
        ),
{
    let mut place = d;
    let mut tries: u32 = FOREGROUND_TRIES;
    while tries > 0
        invariant
            foreground_search(
                d,
                *config,
                building,
                camera,
                target,
                size,
                cameras@,
                FOREGROUND_TRIES as nat,
            ) == foreground_search(
                place,
                *config,
                building,
                camera,
                target,
                size,
                cameras@,
                tries as nat,
            ),
        decreases tries,
    {
        let candidate = foreground_try(place, config, camera, target);
        place = place.skip(3);
        if does_fit(candidate, building, size, cameras) {
            return (Some(candidate), place);
        }
        tries = tries - 1;
    }
    (None, place)
}

/// A position that a search in front of a camera finds keeps its distance to the building
/// and to every camera.
pub proof fn foreground_positions_fit(
    d: Draws,
    config: OccluderSamplingConfig,
    building: SampledBuilding,
    camera: Vec3,
    target: Vec3,
    size: CameraObstacleSize,
    cameras: Seq<Vec3>,
    tries: nat,
)
    ensures
        foreground_search(
            d,
            config,
            building,
            camera,
            target,
            size,
            cameras,
            tries,
        ).0 matches Some(position) ==> fits(position, building, size, cameras),
    decreases tries,
{
    if tries > 0 {
        foreground_positions_fit(
            d.skip(3),
            config,
            building,
            camera,
            target,
            size,
            cameras,
            (tries - 1) as nat,
        );
    }
}

/// An occluder before its place is known.
#[derive(Clone, Copy, Debug, PartialEq, Eq, Structural)]
pub struct OccluderDraft {
    /// Category.
    pub kind: OccluderKind,
    /// Uniform scale.
    pub scale: Single,
    /// World-Y rotation in degrees.
    pub yaw_degrees: Single,
    /// Width, height and depth after scaling.
    pub nominal_size_m: Vec3,
    /// Whether it is first tried in front of the camera.
    pub foreground: bool,
    /// The place after its draws.
    pub next: Draws,
}

/// The draft that three fractions give.
pub open spec fn spec_draft_from(
    config: &OccluderSamplingConfig,
    kind: OccluderKind,
    u: [Single; 3],
    next: Draws,
) -> OccluderDraft {
    let scale = config.scale.at(u[0]);
    OccluderDraft {
        kind,
        scale,
        yaw_degrees: u[1].times(Single::ratio(360, 1)),
        nominal_size_m: occluder_size(kind, scale),
        foreground: u[2].less(
            config.foreground_probability.times(foreground_probability_scale(kind)),
        ),
        next,
    }
}

/// The draft that three fractions give.
#[verifier::when_used_as_spec(spec_draft_from)]
pub fn draft_from(
    config: &OccluderSamplingConfig,
    kind: OccluderKind,
    u: [Single; 3],
    next: Draws,
) -> (r: OccluderDraft)
    ensures
        r == spec_draft_from(config, kind, u, next),
{
    let scale = config.scale.at(u[0]);
    OccluderDraft {
        kind,
        scale,
        yaw_degrees: u[1].times(Single::ratio(360, 1)),
        nominal_size_m: occluder_size(kind, scale),
        foreground: u[2].less(
            config.foreground_probability.times(foreground_probability_scale(kind)),
        ),
        next,
    }
}

/// Draws scale, yaw and placement regime of an occluder.
pub open spec fn spec_draft_occluder(
    d: Draws,
    config: &OccluderSamplingConfig,
    kind: OccluderKind,
) -> OccluderDraft {
    draft_from(config, kind, [d.unit(), d.skip(1).unit(), d.skip(2).unit()], d.skip(3))
}

/// Draws scale, yaw and placement regime of an occluder.
#[verifier::when_used_as_spec(spec_draft_occluder)]
pub fn draft_occluder(
    d: Draws,
    config: &OccluderSamplingConfig,
    kind: OccluderKind,
) -> (r: OccluderDraft)
    ensures
        r == spec_draft_occluder(d, config, kind),
{
    let w = d.words();
    draft_from(config, kind, [unit_of(w[0]), unit_of(w[1]), unit_of(w[2])], d.skip(3))
}

impl OccluderDraft {
    /// The extents of the occluder after the turn of its yaw.
    pub open spec fn spec_size(self, turn: Turn) -> CameraObstacleSize {
        let half = rotated_half_extents(self.nominal_size_m, turn);
        CameraObstacleSize { half_x: half.x, half_z: half.z, height_m: self.nominal_size_m.y }
    }

    /// The extents of the occluder after the turn of its yaw.
    #[verifier::when_used_as_spec(spec_size)]
    pub fn size(self, turn: Turn) -> (r: CameraObstacleSize)
        ensures
            r == self.spec_size(turn),
    {
        let half = rotated_half_extents(self.nominal_size_m, turn);
        CameraObstacleSize { half_x: half.x, half_z: half.z, height_m: self.nominal_size_m.y }
    }

    /// The occluder at a position.
    pub open spec fn spec_placed(
        self,
        placement: OccluderPlacement,
        position: Vec3,
    ) -> SampledOccluder {
        SampledOccluder {
            kind: self.kind,
            position,
            yaw_degrees: self.yaw_degrees,
            scale: self.scale,
            placement,
            nominal_size_m: self.nominal_size_m,
        }
    }

    /// The occluder at a position.
    #[verifier::when_used_as_spec(spec_placed)]
    pub fn placed(self, placement: OccluderPlacement, position: Vec3) -> (r: SampledOccluder)
        ensures
            r == self.spec_placed(placement, position),
    {
        SampledOccluder {
            kind: self.kind,
            position,
            yaw_degrees: self.yaw_degrees,
            scale: self.scale,
            placement,
            nominal_size_m: self.nominal_size_m,
        }
    }
}

/// What the placement of an occluder asks for next.
#[derive(Clone, Copy, Debug, PartialEq, Eq, Structural)]
pub enum ClutterStep {
    /// The turn of an angle, for a try on the site.
    Site {
        /// Number of the try.
        attempt: u32,
        /// Direction from the origin, in radians.
        angle: Single,
        /// Distance from the origin.
        distance: Single,
        /// The place after the draws of the try.
        next: Draws,
    },
    /// Nothing: the occluder has its place.
    Placed(SampledOccluder, Draws),
    /// Nothing: the occluder finds no place and is dropped.
    Dropped(Draws),
}

/// A try on the site, or the end of the tries.
pub open spec fn spec_site_try(
    d: Draws,
    config: &OccluderSamplingConfig,
    attempt: u32,
) -> ClutterStep {
    if attempt < SITE_TRIES {
        ClutterStep::Site {
            attempt,
            angle: d.unit().times(tau()),
            distance: d.skip(1).ranged(config.distance_m),
            next: d.skip(2),
        }
    } else {
        ClutterStep::Dropped(d)
    }
}

/// A try on the site, or the end of the tries.
#[verifier::when_used_as_spec(spec_site_try)]
pub fn site_try(d: Draws, config: &OccluderSamplingConfig, attempt: u32) -> (r: ClutterStep)
    ensures
        r == spec_site_try(d, config, attempt),
{
    if attempt < SITE_TRIES {
        let w = d.words();
        ClutterStep::Site {
            attempt,
            angle: unit_of(w[0]).times(tau()),
            distance: config.distance_m.at(unit_of(w[1])),
            next: d.skip(2),
        }
    } else {
        ClutterStep::Dropped(d)
    }
}

/// The first step of a placement.
pub open spec fn first_step(
    draft: OccluderDraft,
    turn: Turn,
    config: OccluderSamplingConfig,
    building: SampledBuilding,
    camera: Vec3,
    target: Vec3,
    cameras: Seq<Vec3>,
) -> ClutterStep {
    if draft.foreground {
        let (found, next) = foreground_search(
            draft.next,
            config,
            building,
            camera,
            target,
            draft.size(turn),
            cameras,
            FOREGROUND_TRIES as nat,
        );
        match found {
            Some(position) => ClutterStep::Placed(
                draft.placed(OccluderPlacement::Foreground, position),
                next,
            ),
            None => site_try(next, &config, 0),
        }
    } else {
        site_try(draft.next, &config, 0)
    }
}

/// Begins the placement of an occluder, given the turn of its yaw.
pub fn begin_placement(
    draft: OccluderDraft,
    turn: Turn,
    config: &OccluderSamplingConfig,
    building: SampledBuilding,
    camera: Vec3,
    target: Vec3,
    cameras: &Vec<Vec3>,
) -> (r: ClutterStep)
    ensures
        r == first_step(draft, turn, *config, building, camera, target, cameras@),
{
    if draft.foreground {
        let found = sample_foreground_occluder_position(
            draft.next,
            config,
            building,
            camera,
            target,
            draft.size(turn),
            cameras,
        );
        match found.0 {
            Some(position) => ClutterStep::Placed(
                draft.placed(OccluderPlacement::Foreground, position),
                found.1,
            ),
            None => site_try(found.1, config, 0),
        }
    } else {
        site_try(draft.next, config, 0)
    }
}

/// The step after a try on the site.
pub open spec fn step_after_site(
    draft: OccluderDraft,
    turn: Turn,
    config: OccluderSamplingConfig,
    building: SampledBuilding,
    cameras: Seq<Vec3>,
    attempt: u32,
    distance: Single,
    next: Draws,
    direction: Turn,
) -> ClutterStep {
    let candidate = ground_point(direction, distance);
    if fits(candidate, building, draft.size(turn), cameras) {
        ClutterStep::Placed(draft.placed(OccluderPlacement::Site, candidate), next)
    } else {
        site_try(next, &config, (attempt + 1) as u32)
    }
}

/// Goes on with the placement of an occluder, given the turn of the angle that a try on the
/// site asked for.
pub fn sample_site_occluder_position(
    draft: OccluderDraft,
    turn: Turn,
    config: &OccluderSamplingConfig,
    building: SampledBuilding,
    cameras: &Vec<Vec3>,
    attempt: u32,
    distance: Single,
    next: Draws,
    direction: Turn,
) -> (r: ClutterStep)
    requires
        attempt < SITE_TRIES,
    ensures
        r == step_after_site(
            draft,
            turn,
            *config,
            building,
            cameras@,
            attempt,
            distance,
            next,
            direction,
        ),
{
    let candidate = ground_point(direction, distance);
    if does_fit(candidate, building, draft.size(turn), cameras) {
        ClutterStep::Placed(draft.placed(OccluderPlacement::Site, candidate), next)
    } else {
        site_try(next, config, attempt + 1)
    }
}

/// An occluder that gets a place keeps its distance to the building and to every camera,
/// and its tries on the site end.
pub proof fn placed_occluders_fit(
    draft: OccluderDraft,
    turn: Turn,
    config: OccluderSamplingConfig,
    building: SampledBuilding,
    camera: Vec3,
    target: Vec3,
    cameras: Seq<Vec3>,
    attempt: u32,
    distance: Single,
    next: Draws,
    direction: Turn,
)
    requires
        attempt < SITE_TRIES,
    ensures
        match first_step(draft, turn, config, building, camera, target, cameras) {
            ClutterStep::Placed(occluder, _) => fits(
                occluder.position,
                building,
                draft.size(turn),
                cameras,
            ),
            ClutterStep::Site { attempt: first, .. } => first == 0,
            ClutterStep::Dropped(_) => false,
        },
        match step_after_site(
            draft,
            turn,
            config,
            building,
            cameras,
            attempt,
            distance,
            next,
            direction,
        ) {
            ClutterStep::Placed(occluder, _) => fits(
                occluder.position,
                building,
                draft.size(turn),
                cameras,
            ),
            ClutterStep::Site { attempt: later, .. } => later == attempt + 1 < SITE_TRIES,
            ClutterStep::Dropped(_) => attempt + 1 == SITE_TRIES,
        },
{
    foreground_positions_fit(
        draft.next,
        config,
        building,
        camera,
        target,
        draft.size(turn),
        cameras,
        FOREGROUND_TRIES as nat,
    );
}

/// The kinds of the first `n` occluders, and the place after their draws.
pub open spec fn first_kinds(d: Draws, choices: Seq<OccluderChoice>, n: nat) -> (
    Seq<OccluderKind>,
    Draws,
)
    decreases n,
{
    if n == 0 {
        (Seq::empty(), d)
    } else {
        let (before, e) = first_kinds(d, choices, (n - 1) as nat);
        let (entry, after) = crate::choice::chosen(e, crate::choice::ground_weights(choices));
        (before.push(choices[entry].kind), after)
    }
}

/// The kinds of the occluders of a seed.
pub open spec fn kinds_of(seed: u64, config: OccluderSamplingConfig) -> Seq<OccluderKind> {
    let (count, d) = Draws::of(seed, "occluder-kinds").counted(config.count);
    first_kinds(d, config.choices@, count as nat).0
}

/// Samples the kinds of occluders. None is rooftop equipment.
pub fn sample_occluder_kinds(seed: u64, config: &OccluderSamplingConfig) -> (r: Vec<OccluderKind>)
    requires
        config.count.is_valid(),
        config.choices@.len() <= u32::MAX,
        crate::choice::total_weight(crate::choice::ground_weights(config.choices@)) > 0,
    ensures
        r@ == kinds_of(seed, *config),
        forall|i: int| 0 <= i < r@.len() ==> #[trigger] r@[i] != OccluderKind::RooftopEquipment,
{
    let counted = Draws::of(seed, "occluder-kinds").counted(config.count);
    let mut place = counted.1;
    let mut r: Vec<OccluderKind> = Vec::new();
    let mut i: u32 = 0;
    while i < counted.0
        invariant
            config.choices@.len() <= u32::MAX,
            crate::choice::total_weight(crate::choice::ground_weights(config.choices@)) > 0,
            i <= counted.0,
            (r@, place) == first_kinds(counted.1, config.choices@, i as nat),
            forall|j: int|
                0 <= j < r@.len() ==> #[trigger] r@[j] != OccluderKind::RooftopEquipment,
        decreases counted.0 - i,
    {
        let drawn = choose_non_rooftop_occluder(place, &config.choices);
        r.push(config.choices[drawn.0].kind);
        place = drawn.1;
        i = i + 1;
    }
    r
}

/// The camera that occluders are put in front of.
pub open spec fn middle_of(cameras: Seq<Vec3>) -> Vec3 {
    if cameras.len() == 0 {
        Vec3::new(Single::zero(), Single::ratio(16, 10), Single::ratio(30, 1))
    } else {
        cameras[cameras.len() as int / 2]
    }
}

/// The camera that occluders are put in front of: the middle one.
pub fn middle_camera(cameras: &Vec<Vec3>) -> (r: Vec3)
    ensures
        r == middle_of(cameras@),
{
    if cameras.is_empty() {
        Vec3::new(Single::zero(), Single::ratio(16, 10), Single::ratio(30, 1))
    } else {
        cameras[cameras.len() / 2]
    }
}

/// The point that occluders in the foreground are put before.
pub open spec fn spec_foreground_target(building: SampledBuilding) -> Vec3 {
    Vec3::new(Single::zero(), building.wall_height_m.plus(Single::ratio(15, 10)), Single::zero())
}

/// The point that occluders in the foreground are put before.
#[verifier::when_used_as_spec(spec_foreground_target)]
pub fn foreground_target(building: SampledBuilding) -> (r: Vec3)
    ensures
        r == spec_foreground_target(building),
{
    Vec3::new(Single::zero(), building.wall_height_m.plus(Single::ratio(15, 10)), Single::zero())
}

} // verus!
