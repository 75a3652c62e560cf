//! Sampling of whole sequences.
//!
//! Sines, cosines and tangents come from functions that the caller hands in. Everything
//! that is sampled is a function of the configuration, the request and their answers.

use crate::composition::{
    SampledBackgroundBuilding, SampledComposition, SampledEnvironment, SampledSiteInfrastructure,
};
use crate::config::{GeneratorConfig, OccluderKind, OccluderSamplingConfig, SequenceConfig};
use crate::draws::Draws;
use crate::geometry::{
    actual_roof_envelope, find_camera_positions, rotated_half_extents, CameraObstacleSize,
    RoofEnvelope, SceneTurns, Turn,
};
use crate::given::{answer_of, answers, ask};
use crate::plan::{
    CameraFramePlan, CameraMotionPlan, SampledBuilding, SampledOccluder, SampledOrdinaryRoof,
    SampledRoof, SampledScene, SequencePlan, SequenceRequest,
};
use crate::sample_camera::{
    after_try, bob_angle, camera_path_is_clear, end_fov_degrees, find_corridor, frame_fov_degrees,
    initial_path, path_angle, radians, sample_camera_choices, sequence_progress, sway_angle,
    target_center, tried_path, CameraPathParameters, PathCorridor, PathSearch,
    PathTurns, LAST_TRY,
};
use crate::sample_clutter::{
    begin_placement, draft_occluder, foreground_target, middle_camera, sample_occluder_kinds,
    sample_site_occluder_position, ClutterStep, OccluderDraft, SITE_TRIES,
};
use crate::sample_sequence::{list_path_positions, list_roof_points, CameraSetup};
use crate::sampler::{
    compose, SamplingError, SceneDraft, SequenceSampler, ShellDraft, SiteDraft,
};
use crate::single::Single;
use crate::types::Vec3;
use vstd::prelude::*;

verus! {

/// The turns of the yaws of neighbours.
pub open spec fn background_yaws(
    backgrounds: Seq<SampledBackgroundBuilding>,
    turn: spec_fn(Single) -> Turn,
) -> Seq<Turn> {
    Seq::new(backgrounds.len(), |i: int| turn(radians(backgrounds[i].yaw_degrees)))
}

fn find_background_yaws<T: Fn(Single) -> Turn>(
    backgrounds: &Vec<SampledBackgroundBuilding>,
    turn: &T,
) -> (r: Vec<Turn>)
    requires
        answers(*turn),
    ensures
        r@ == background_yaws(backgrounds@, answer_of(*turn)),
{
    let mut r: Vec<Turn> = Vec::new();
    let mut i: usize = 0;
    while i < backgrounds.len()
        invariant
            answers(*turn),
            i <= backgrounds@.len(),
            r@.len() == i,
            forall|j: int|
                0 <= j < i ==> #[trigger] r@[j] == answer_of(*turn)(
                    radians(backgrounds@[j].yaw_degrees),
                ),
        decreases backgrounds@.len() - i,
    {
        r.push(ask(turn, radians(backgrounds[i].yaw_degrees)));
        i = i + 1;
    }
    assert(r@ =~= background_yaws(backgrounds@, answer_of(*turn)));
    r
}

/// The turns of the yaws of occluders.
pub open spec fn occluder_yaws(
    occluders: Seq<SampledOccluder>,
    turn: spec_fn(Single) -> Turn,
) -> Seq<Turn> {
    Seq::new(occluders.len(), |i: int| turn(radians(occluders[i].yaw_degrees)))
}

fn find_occluder_yaws<T: Fn(Single) -> Turn>(
    occluders: &Vec<SampledOccluder>,
    turn: &T,
) -> (r: Vec<Turn>)
    requires
        answers(*turn),
    ensures
        r@ == occluder_yaws(occluders@, answer_of(*turn)),
{
    let mut r: Vec<Turn> = Vec::new();
    let mut i: usize = 0;
    while i < occluders.len()
        invariant
            answers(*turn),
            i <= occluders@.len(),
            r@.len() == i,
            forall|j: int|
                0 <= j < i ==> #[trigger] r@[j] == answer_of(*turn)(
                    radians(occluders@[j].yaw_degrees),
                ),
        decreases occluders@.len() - i,
    {
        r.push(ask(turn, radians(occluders[i].yaw_degrees)));
        i = i + 1;
    }
    assert(r@ =~= occluder_yaws(occluders@, answer_of(*turn)));
    r
}

impl SceneTurns {
    /// The turns of all yawed objects of a scene.
    pub open spec fn describe(
        self,
        scene: SampledScene,
        turn: spec_fn(Single) -> Turn,
    ) -> bool {
        &&& self.backgrounds@ == background_yaws(scene.composition.background_buildings@, turn)
        &&& self.occluders@ == occluder_yaws(scene.occluders@, turn)
    }
}

/// Finds the turns of all yawed objects of a scene.
pub fn scene_turns<T: Fn(Single) -> Turn>(scene: &SampledScene, turn: &T) -> (r: SceneTurns)
    requires
        answers(*turn),
    ensures
        r.describe(*scene, answer_of(*turn)),
        r.cover(*scene),
{
    SceneTurns {
        backgrounds: find_background_yaws(&scene.composition.background_buildings, turn),
        occluders: find_occluder_yaws(&scene.occluders, turn),
    }
}

/// A composition is that of a seed: every neighbour and plant stands where its direction
/// and distance put it.
#[verifier::opaque]
pub open spec fn composition_is(
    r: SampledComposition,
    c: GeneratorConfig,
    seed: u64,
    building: SampledBuilding,
    environment: SampledEnvironment,
    turn: spec_fn(Single) -> Turn,
) -> bool {
    let composition = c.composition;
    let domain = crate::sampler::domain_of(c, seed);
    let backgrounds = crate::sample_site::backgrounds_of(
        seed,
        composition.background_buildings,
        c.materials.walls@,
        building,
        domain,
    );
    let plants = crate::sample_site::plants_of(seed, composition.vegetation, building, domain);
    &&& r.source_asset_ids@.len() == 0
    &&& r.environment == Some(environment)
    &&& r.ground_material == Some(
        crate::sample_shell::palette_material(
            Draws::of(seed, "ground-material"),
            composition.ground_materials@,
        ).0,
    )
    &&& r.facade == Some(crate::sample_site::facade_of(seed, composition.facade, building))
    &&& r.building_extensions@ == crate::sample_site::extensions_of(
        seed,
        composition.building_extensions,
        building,
    )
    &&& r.signage@ == crate::sample_site::signs_of(
        seed,
        composition.signage,
        building,
        environment.day_phase,
    )
    &&& r.background_buildings@ == Seq::new(
        backgrounds.len(),
        |i: int| backgrounds[i].placed(turn(backgrounds[i].angle)),
    )
    &&& r.vegetation@ == Seq::new(
        plants.len(),
        |i: int| plants[i].placed(turn(plants[i].angle)),
    )
    &&& r.infrastructure matches Some(infrastructure)
        && crate::sample_site::is_infrastructure_of(infrastructure, seed, building, domain)
}

/// Puts neighbours and plants at their places.
fn sample_composition<T: Fn(Single) -> Turn>(
    config: &GeneratorConfig,
    seed: u64,
    building: SampledBuilding,
    environment: SampledEnvironment,
    site: SiteDraft,
    turn: &T,
) -> (r: SampledComposition)
    requires
        crate::sampler::site_is(site, *config, seed, building, environment.day_phase),
        answers(*turn),
    ensures
        composition_is(r, *config, seed, building, environment, answer_of(*turn)),
{
    let ghost all = site;
    let mut backgrounds: Vec<Turn> = Vec::new();
    let mut i: usize = 0;
    while i < site.background_buildings.len()
        invariant
            answers(*turn),
            i <= site.background_buildings@.len(),
            backgrounds@.len() == i,
            forall|j: int|
                0 <= j < i ==> #[trigger] backgrounds@[j] == answer_of(*turn)(
                    site.background_buildings@[j].angle,
                ),
        decreases site.background_buildings@.len() - i,
    {
        backgrounds.push(ask(turn, site.background_buildings[i].angle));
        i = i + 1;
    }
    let mut plants: Vec<Turn> = Vec::new();
    let mut k: usize = 0;
    while k < site.vegetation.len()
        invariant
            answers(*turn),
            k <= site.vegetation@.len(),
            plants@.len() == k,
            forall|j: int|
                0 <= j < k ==> #[trigger] plants@[j] == answer_of(*turn)(
                    site.vegetation@[j].angle,
                ),
        decreases site.vegetation@.len() - k,
    {
        plants.push(ask(turn, site.vegetation[k].angle));
        k = k + 1;
    }
    let r = compose(site, environment, &backgrounds, &plants);
    assert(r.background_buildings@ =~= Seq::new(
        all.background_buildings@.len(),
        |i: int|
            all.background_buildings@[i].placed(
                answer_of(*turn)(all.background_buildings@[i].angle),
            ),
    ));
    assert(r.vegetation@ =~= Seq::new(
        all.vegetation@.len(),
        |i: int| all.vegetation@[i].placed(answer_of(*turn)(all.vegetation@[i].angle)),
    ));
    proof {
        reveal(composition_is);
    }
    r
}

/// The turns along a path.
pub open spec fn path_turns(
    path: CameraPathParameters,
    frame_count: u32,
    turn: spec_fn(Single) -> Turn,
) -> Seq<PathTurns> {
    Seq::new(
        frame_count as nat,
        |i: int|
            {
                let progress = sequence_progress(i as u32, frame_count);
                PathTurns {
                    turn: turn(path_angle(path, progress)),
                    sway: turn(sway_angle(path, progress)).sine,
                    bob: turn(bob_angle(path, progress)).sine,
                }
            },
    )
}

/// Where the cameras on a path stand.
pub open spec fn stations(
    path: CameraPathParameters,
    frame_count: u32,
    turn: spec_fn(Single) -> Turn,
) -> Seq<Vec3> {
    crate::sample_sequence::path_positions(path, path_turns(path, frame_count, turn))
}

/// Lists where the cameras on a path stand.
fn list_stations<T: Fn(Single) -> Turn>(
    path: CameraPathParameters,
    frame_count: u32,
    turn: &T,
) -> (r: Vec<Vec3>)
    requires
        answers(*turn),
    ensures
        r@ == stations(path, frame_count, answer_of(*turn)),
        r@.len() == frame_count,
{
    let mut turns: Vec<PathTurns> = Vec::new();
    let mut i: u32 = 0;
    while i < frame_count
        invariant
            answers(*turn),
            i <= frame_count,
            turns@.len() == i,
            forall|j: int|
                0 <= j < i ==> #[trigger] turns@[j] == path_turns(
                    path,
                    frame_count,
                    answer_of(*turn),
                )[j],
        decreases frame_count - i,
    {
        let progress = sequence_progress(i, frame_count);
        turns.push(
            PathTurns {
                turn: ask(turn, path_angle(path, progress)),
                sway: ask(turn, sway_angle(path, progress)).sine,
                bob: ask(turn, bob_angle(path, progress)).sine,
            },
        );
        i = i + 1;
    }
    assert(turns@ =~= path_turns(path, frame_count, answer_of(*turn)));
    list_path_positions(path, &turns)
}

/// What a camera path must stay clear of.
pub struct Surroundings {
    /// The building.
    pub building: SampledBuilding,
    /// Envelope of the roof that is rendered.
    pub roof: RoofEnvelope,
    /// Everything around the building.
    pub composition: SampledComposition,
    /// Turns of the yaws of the neighbours.
    pub yaws: Seq<Turn>,
}

impl Surroundings {
    /// The corridor of a path.
    pub open spec fn corridor(
        self,
        initial: CameraPathParameters,
        minimum: Single,
    ) -> PathCorridor {
        crate::sample_camera::corridor_of(
            initial,
            self.roof,
            self.composition.building_extensions@,
            self.composition.background_buildings@,
            self.yaws,
            minimum,
        )
    }

    /// A path on which every camera stands free and moves free to the next.
    pub open spec fn leave_free(
        self,
        path: CameraPathParameters,
        frame_count: u32,
        turn: spec_fn(Single) -> Turn,
    ) -> bool {
        crate::sample_camera::clear_path(
            stations(path, frame_count, turn),
            self.building,
            self.roof,
            self.composition,
            self.yaws,
        )
    }

    /// The try on which a search that has come to a try settles: the first that leaves the
    /// cameras free, and the last one where none does.
    pub open spec fn settled_try(
        self,
        initial: CameraPathParameters,
        corridor: PathCorridor,
        attempt: u32,
        frame_count: u32,
        turn: spec_fn(Single) -> Turn,
    ) -> u32
        decreases LAST_TRY - attempt,
    {
        let path = tried_path(initial, corridor, attempt);
        match after_try(corridor, attempt, self.leave_free(path, frame_count, turn)) {
            PathSearch::Try(next) => self.settled_try(initial, corridor, next, frame_count, turn),
            PathSearch::Settled(settled) => settled,
        }
    }

    /// The path on which a search settles.
    pub open spec fn free_path(
        self,
        initial: CameraPathParameters,
        minimum: Single,
        frame_count: u32,
        turn: spec_fn(Single) -> Turn,
    ) -> CameraPathParameters {
        let corridor = self.corridor(initial, minimum);
        tried_path(
            initial,
            corridor,
            self.settled_try(initial, corridor, 0, frame_count, turn),
        )
    }
}

/// Finds a camera path that stays clear of its surroundings, trying distances and
/// directions between the building and its neighbours first and then outside of them.
pub fn collision_free_camera_path<T: Fn(Single) -> Turn>(
    initial: CameraPathParameters,
    building: SampledBuilding,
    roof: RoofEnvelope,
    composition: &SampledComposition,
    yaws: &Vec<Turn>,
    frame_count: u32,
    configured_min_distance: Single,
    turn: &T,
) -> (r: CameraPathParameters)
    requires
        yaws@.len() == composition.background_buildings@.len(),
        answers(*turn),
    ensures
        r == (Surroundings { building, roof, composition: *composition, yaws: yaws@ }).free_path(
            initial,
            configured_min_distance,
            frame_count,
            answer_of(*turn),
        ),
{
    let ghost around = Surroundings { building, roof, composition: *composition, yaws: yaws@ };
    let corridor = find_corridor(
        initial,
        roof,
        &composition.building_extensions,
        &composition.background_buildings,
        yaws,
        configured_min_distance,
    );
    let mut attempt: u32 = 0;
    loop
        invariant
            yaws@.len() == composition.background_buildings@.len(),
            answers(*turn),
            around == (Surroundings { building, roof, composition: *composition, yaws: yaws@ }),
            corridor == around.corridor(initial, configured_min_distance),
            attempt <= LAST_TRY,
            around.settled_try(initial, corridor, attempt, frame_count, answer_of(*turn))
                == around.settled_try(initial, corridor, 0, frame_count, answer_of(*turn)),
        decreases LAST_TRY - attempt,
    {
        let path = tried_path(initial, corridor, attempt);
        let positions = list_stations(path, frame_count, turn);
        let clear = camera_path_is_clear(&positions, building, roof, composition, yaws);
        match after_try(corridor, attempt, clear) {
            PathSearch::Try(next) => {
                attempt = next;
            },
            PathSearch::Settled(_) => {
                return path;
            },
        }
    }
}

/// A path on which a search settles leaves the cameras free, unless the search looked at
/// its last try.
pub proof fn settled_paths_are_free(
    surroundings: Surroundings,
    initial: CameraPathParameters,
    corridor: PathCorridor,
    attempt: u32,
    frame_count: u32,
    turn: spec_fn(Single) -> Turn,
)
    requires
        attempt <= LAST_TRY,
    ensures
        ({
            let settled = surroundings.settled_try(
                initial,
                corridor,
                attempt,
                frame_count,
                turn,
            );
            &&& attempt <= settled <= LAST_TRY
            &&& surroundings.leave_free(
                tried_path(initial, corridor, settled),
                frame_count,
                turn,
            ) || settled == LAST_TRY
        }),
    decreases LAST_TRY - attempt,
{
    let path = tried_path(initial, corridor, attempt);
    match after_try(corridor, attempt, surroundings.leave_free(path, frame_count, turn)) {
        PathSearch::Try(next) => {
            settled_paths_are_free(surroundings, initial, corridor, next, frame_count, turn);
        },
        PathSearch::Settled(_) => {},
    }
}

/// The tangents of half of each field of view of a sequence.
pub open spec fn view_tangents(
    start: Single,
    end: Single,
    frame_count: u32,
    tangent: spec_fn(Single) -> Single,
) -> Seq<Single> {
    Seq::new(
        frame_count as nat,
        |i: int|
            tangent(
                radians(
                    frame_fov_degrees(start, end, sequence_progress(i as u32, frame_count)),
                ).times(Single::ratio(5, 10)),
            ),
    )
}

fn list_view_tangents<G: Fn(Single) -> Single>(
    start: Single,
    end: Single,
    frame_count: u32,
    tangent: &G,
) -> (r: Vec<Single>)
    requires
        answers(*tangent),
    ensures
        r@ == view_tangents(start, end, frame_count, answer_of(*tangent)),
        r@.len() == frame_count,
{
    let mut r: Vec<Single> = Vec::new();
    let mut i: u32 = 0;
    while i < frame_count
        invariant
            answers(*tangent),
            i <= frame_count,
            r@.len() == i,
            forall|j: int|
                0 <= j < i ==> #[trigger] r@[j] == view_tangents(
                    start,
                    end,
                    frame_count,
                    answer_of(*tangent),
                )[j],
        decreases frame_count - i,
    {
        let fov = frame_fov_degrees(start, end, sequence_progress(i, frame_count));
        r.push(ask(tangent, radians(fov).times(Single::ratio(5, 10))));
        i = i + 1;
    }
    assert(r@ =~= view_tangents(start, end, frame_count, answer_of(*tangent)));
    r
}

/// The times of all frames fit in their field.
pub open spec fn timed(sequence: SequenceConfig) -> bool {
    crate::sample_camera::frame_time(
        sequence.frame_count - 1,
        sequence.frame_interval_ms as int,
    ) <= u64::MAX
}

/// Whether the times of all frames fit in their field.
pub fn is_timed(sequence: SequenceConfig) -> (r: bool)
    ensures
        r == timed(sequence),
{
    if sequence.frame_count == 0 {
        proof {
            let interval = sequence.frame_interval_ms as int;
            assert(-1 * interval * 1_000_000 <= 0) by (nonlinear_arith)
                requires
                    interval >= 0,
            ;
        }
        return true;
    }
    let last: u128 = sequence.frame_count as u128 - 1;
    let interval: u128 = sequence.frame_interval_ms as u128;
    proof {
        assert(0 <= last * interval <= 0xffff_ffff * 0xffff_ffff) by (nonlinear_arith)
            requires
                0 <= last <= 0xffff_ffff,
                0 <= interval <= 0xffff_ffff,
        ;
    }
    last * interval * 1_000_000 <= u64::MAX as u128
}

/// What the cameras of a seed share.
pub open spec fn setup_of(c: GeneratorConfig, seed: u64, building: SampledBuilding) -> CameraSetup {
    let choices = sample_camera_choices(seed, c.camera);
    CameraSetup {
        camera: c.camera,
        image: c.image,
        sequence: c.sequence,
        choices,
        center: target_center(building, choices),
    }
}

/// The path of the cameras of a seed before the search for one that is clear.
pub open spec fn initial_of(
    c: GeneratorConfig,
    seed: u64,
    roof: RoofEnvelope,
    tangent: spec_fn(Single) -> Single,
) -> CameraPathParameters {
    let choices = sample_camera_choices(seed, c.camera);
    let half = Single::ratio(5, 10);
    initial_path(
        c.camera,
        choices,
        roof,
        tangent(radians(choices.start_fov_degrees).times(half)),
        tangent(choices.sweep.abs().times(half)),
    )
}

/// The path of the cameras of a seed.
pub open spec fn path_of(
    c: GeneratorConfig,
    seed: u64,
    surroundings: Surroundings,
    turn: spec_fn(Single) -> Turn,
    tangent: spec_fn(Single) -> Single,
) -> CameraPathParameters {
    surroundings.free_path(
        initial_of(c, seed, surroundings.roof, tangent),
        c.camera.distance_m.min,
        c.sequence.frame_count,
        turn,
    )
}

/// The search for a clear path of a seed settles on its last try.
pub open spec fn last_try_taken(
    c: GeneratorConfig,
    seed: u64,
    surroundings: Surroundings,
    turn: spec_fn(Single) -> Turn,
    tangent: spec_fn(Single) -> Single,
) -> bool {
    let initial = initial_of(c, seed, surroundings.roof, tangent);
    surroundings.settled_try(
        initial,
        surroundings.corridor(initial, c.camera.distance_m.min),
        0,
        c.sequence.frame_count,
        turn,
    ) == LAST_TRY
}

/// Motion and frames are those of a seed.
#[verifier::opaque]
pub open spec fn cameras_are(
    motion: CameraMotionPlan,
    frames: Seq<CameraFramePlan>,
    c: GeneratorConfig,
    seed: u64,
    points: Seq<Vec3>,
    surroundings: Surroundings,
    turn: spec_fn(Single) -> Turn,
    tangent: spec_fn(Single) -> Single,
) -> bool {
    let setup = setup_of(c, seed, surroundings.building);
    let count = c.sequence.frame_count;
    let positions = stations(path_of(c, seed, surroundings, turn, tangent), count, turn);
    let tangents = view_tangents(
        setup.choices.start_fov_degrees,
        end_fov_degrees(c.camera, setup.choices),
        count,
        tangent,
    );
    &&& motion == setup.motion(points, positions, tangents)
    &&& frames == setup.frames(points, positions, tangents)
}

/// Samples the cameras of a sequence: decisions, a path that stays clear of the
/// surroundings, and a camera that looks at the roof for each frame.
pub fn sample_cameras<T: Fn(Single) -> Turn, G: Fn(Single) -> Single>(
    config: &GeneratorConfig,
    seed: u64,
    building: SampledBuilding,
    roof: SampledRoof,
    ordinary_roof: Option<SampledOrdinaryRoof>,
    composition: &SampledComposition,
    turn: &T,
    tangent: &G,
) -> (r: (CameraMotionPlan, Vec<CameraFramePlan>))
    requires
        crate::choice::total_weight(crate::choice::camera_path_weights(config.camera)) > 0,
        crate::choice::view_weight(config.camera) > 0,
        timed(config.sequence),
        answers(*turn),
        answers(*tangent),
    ensures
        cameras_are(
            r.0,
            r.1@,
            *config,
            seed,
            crate::sample_sequence::roof_points(building, roof, ordinary_roof),
            (Surroundings {
                building,
                roof: RoofEnvelope::of(roof, ordinary_roof),
                composition: *composition,
                yaws: background_yaws(composition.background_buildings@, answer_of(*turn)),
            }),
            answer_of(*turn),
            answer_of(*tangent),
        ),
{
    let envelope = RoofEnvelope::of(roof, ordinary_roof);
    let yaws = find_background_yaws(&composition.background_buildings, turn);
    let choices = sample_camera_choices(seed, config.camera);
    let half = Single::ratio(5, 10);
    let initial = initial_path(
        config.camera,
        choices,
        envelope,
        ask(tangent, radians(choices.start_fov_degrees).times(half)),
        ask(tangent, choices.sweep.abs().times(half)),
    );
    let count = config.sequence.frame_count;
    let path = collision_free_camera_path(
        initial,
        building,
        envelope,
        composition,
        &yaws,
        count,
        config.camera.distance_m.min,
        turn,
    );
    let positions = list_stations(path, count, turn);
    let tangents = list_view_tangents(
        choices.start_fov_degrees,
        end_fov_degrees(config.camera, choices),
        count,
        tangent,
    );
    let points = list_roof_points(building, roof, ordinary_roof);
    let setup = CameraSetup {
        camera: config.camera,
        image: config.image,
        sequence: config.sequence,
        choices,
        center: target_center(building, choices),
    };
    proof {
        reveal(cameras_are);
    }
    setup.plan(&points, &positions, &tangents)
}

/// The occluder that a placement comes to, if any, and the place after its draws.
pub open spec fn placement_from(
    step: ClutterStep,
    draft: OccluderDraft,
    yaw: Turn,
    config: OccluderSamplingConfig,
    building: SampledBuilding,
    cameras: Seq<Vec3>,
    turn: spec_fn(Single) -> Turn,
) -> (Option<SampledOccluder>, Draws)
    decreases tries_left(step),
{
    match step {
        ClutterStep::Placed(occluder, next) => (Some(occluder), next),
        ClutterStep::Dropped(next) => (None, next),
        ClutterStep::Site { attempt, angle, distance, next } => if attempt < SITE_TRIES {
            placement_from(
                crate::sample_clutter::step_after_site(
                    draft,
                    yaw,
                    config,
                    building,
                    cameras,
                    attempt,
                    distance,
                    next,
                    turn(angle),
                ),
                draft,
                yaw,
                config,
                building,
                cameras,
                turn,
            )
        } else {
            (None, next)
        },
    }
}

/// How many tries on the site a placement has left.
pub open spec fn tries_left(step: ClutterStep) -> int {
    match step {
        ClutterStep::Site { attempt, .. } => if attempt < SITE_TRIES {
            SITE_TRIES - attempt
        } else {
            0
        },
        _ => 0,
    }
}

/// The occluder that a draft comes to, if any, and the place after its draws.
pub open spec fn placement_of(
    draft: OccluderDraft,
    config: OccluderSamplingConfig,
    building: SampledBuilding,
    cameras: Seq<Vec3>,
    turn: spec_fn(Single) -> Turn,
) -> (Option<SampledOccluder>, Draws) {
    let yaw = turn(radians(draft.yaw_degrees));
    placement_from(
        crate::sample_clutter::first_step(
            draft,
            yaw,
            config,
            building,
            crate::sample_clutter::middle_of(cameras),
            foreground_target(building),
            cameras,
        ),
        draft,
        yaw,
        config,
        building,
        cameras,
        turn,
    )
}

/// Places an occluder in front of the middle camera or on the site.
fn place_occluder<T: Fn(Single) -> Turn>(
    draft: OccluderDraft,
    config: &OccluderSamplingConfig,
    building: SampledBuilding,
    cameras: &Vec<Vec3>,
    turn: &T,
) -> (r: (Option<SampledOccluder>, Draws))
    requires
        answers(*turn),
    ensures
        r == placement_of(draft, *config, building, cameras@, answer_of(*turn)),
{
    let yaw = ask(turn, radians(draft.yaw_degrees));
    let mut step = begin_placement(
        draft,
        yaw,
        config,
        building,
        middle_camera(cameras),
        foreground_target(building),
        cameras,
    );
    loop
        invariant
            answers(*turn),
            yaw == answer_of(*turn)(radians(draft.yaw_degrees)),
            step matches ClutterStep::Site { attempt, .. } ==> attempt < SITE_TRIES,
            placement_from(
                step,
                draft,
                yaw,
                *config,
                building,
                cameras@,
                answer_of(*turn),
            ) == placement_of(draft, *config, building, cameras@, answer_of(*turn)),
        decreases tries_left(step),
    {
        match step {
            ClutterStep::Placed(occluder, next) => {
                return (Some(occluder), next);
            },
            ClutterStep::Dropped(next) => {
                return (None, next);
            },
            ClutterStep::Site { attempt, angle, distance, next } => {
                step = sample_site_occluder_position(
                    draft,
                    yaw,
                    config,
                    building,
                    cameras,
                    attempt,
                    distance,
                    next,
                    ask(turn, angle),
                );
            },
        }
    }
}

/// The occluders of the first `n` kinds, and the place after their draws.
pub open spec fn first_occluders(
    kinds: Seq<OccluderKind>,
    n: nat,
    d: Draws,
    config: OccluderSamplingConfig,
    building: SampledBuilding,
    cameras: Seq<Vec3>,
    turn: spec_fn(Single) -> Turn,
) -> (Seq<SampledOccluder>, Draws)
    decreases n,
{
    if n == 0 {
        (Seq::empty(), d)
    } else {
        let (before, e) = first_occluders(
            kinds,
            (n - 1) as nat,
            d,
            config,
            building,
            cameras,
            turn,
        );
        let draft = draft_occluder(e, &config, kinds[n - 1]);
        let (placed, next) = placement_of(draft, config, building, cameras, turn);
        match placed {
            Some(occluder) => (before.push(occluder), next),
            None => (before, next),
        }
    }
}

/// The occluders of a seed.
pub open spec fn occluders_of(
    seed: u64,
    config: OccluderSamplingConfig,
    building: SampledBuilding,
    cameras: Seq<Vec3>,
    turn: spec_fn(Single) -> Turn,
) -> Seq<SampledOccluder> {
    let kinds = crate::sample_clutter::kinds_of(seed, config);
    first_occluders(
        kinds,
        kinds.len(),
        Draws::of(seed, "occluder-placement"),
        config,
        building,
        cameras,
        turn,
    ).0
}

/// Samples occluders, each of which keeps its distance to the building and to every camera.
/// One that finds no place is left out.
pub fn sample_occluders<T: Fn(Single) -> Turn>(
    config: &OccluderSamplingConfig,
    seed: u64,
    building: SampledBuilding,
    frames: &Vec<CameraFramePlan>,
    turn: &T,
) -> (r: Vec<SampledOccluder>)
    requires
        config.count.is_valid(),
        config.choices@.len() <= u32::MAX,
        crate::choice::total_weight(crate::choice::ground_weights(config.choices@)) > 0,
        answers(*turn),
    ensures
        r@ == occluders_of(
            seed,
            *config,
            building,
            crate::geometry::camera_positions(frames@),
            answer_of(*turn),
        ),
{
    let cameras = find_camera_positions(frames);
    let kinds = sample_occluder_kinds(seed, config);
    let ghost first = Draws::of(seed, "occluder-placement");
    let mut place = Draws::of(seed, "occluder-placement");
    let mut r: Vec<SampledOccluder> = Vec::new();
    let mut i: usize = 0;
    while i < kinds.len()
        invariant
            answers(*turn),
            i <= kinds@.len(),
            (r@, place) == first_occluders(
                kinds@,
                i as nat,
                first,
                *config,
                building,
                cameras@,
                answer_of(*turn),
            ),
        decreases kinds@.len() - i,
    {
        let draft = draft_occluder(place, config, kinds[i]);
        let placed = place_occluder(draft, config, building, &cameras, turn);
        if let Some(occluder) = placed.0 {
            r.push(occluder);
        }
        place = placed.1;
        i = i + 1;
    }
    r
}

/// What the cameras of a scene must stay clear of.
pub open spec fn surroundings_of(
    scene: SampledScene,
    building: SampledBuilding,
    turn: spec_fn(Single) -> Turn,
) -> Surroundings {
    Surroundings {
        building,
        roof: actual_roof_envelope(&scene),
        composition: scene.composition,
        yaws: background_yaws(scene.composition.background_buildings@, turn),
    }
}

/// A scene before its ground is widened, its motion and its frames are those of a request.
#[verifier::opaque]
pub open spec fn scene_is(
    scene: SampledScene,
    motion: CameraMotionPlan,
    frames: Seq<CameraFramePlan>,
    c: GeneratorConfig,
    request: SequenceRequest,
    building: SampledBuilding,
    turn: spec_fn(Single) -> Turn,
    tangent: spec_fn(Single) -> Single,
) -> bool {
    let seed = request.building_seed;
    &&& scene.composition.environment matches Some(environment)
    &&& crate::sampler::shell_is(
        ShellDraft {
            building,
            roof: scene.roof,
            ordinary_roof: scene.ordinary_roof,
            roof_material: scene.roof_material,
            wall_material: scene.wall_material,
            lighting: scene.lighting,
            environment,
        },
        c,
        request,
        building,
    )
    &&& composition_is(scene.composition, c, seed, building, environment, turn)
    &&& cameras_are(
        motion,
        frames,
        c,
        seed,
        crate::sample_sequence::roof_points(building, scene.roof, scene.ordinary_roof),
        surroundings_of(scene, building, turn),
        turn,
        tangent,
    )
    &&& scene.occluders@ == occluders_of(
        seed,
        c.occluders,
        building,
        crate::geometry::camera_positions(frames),
        turn,
    )
}

/// What the sampling of a scene needs of a configuration.
pub open spec fn ready(c: GeneratorConfig) -> bool {
    &&& crate::choice::total_weight(crate::choice::camera_path_weights(c.camera)) > 0
    &&& crate::choice::view_weight(c.camera) > 0
    &&& c.occluders.count.is_valid()
    &&& c.occluders.choices@.len() <= u32::MAX
    &&& crate::choice::total_weight(crate::choice::ground_weights(c.occluders.choices@)) > 0
}

proof fn lemma_ready(sampler: SequenceSampler)
    requires
        sampler.wf(),
    ensures
        ready(sampler.configuration()),
{
    reveal(SequenceSampler::wf);
    crate::sampler::accepted_configurations_are_supported(sampler.configuration());
}

/// Samples cameras and occluders around a draft.
fn sample_scene<T: Fn(Single) -> Turn, G: Fn(Single) -> Single>(
    config: &GeneratorConfig,
    request: &SequenceRequest,
    draft: SceneDraft,
    turn: &T,
    tangent: &G,
) -> (r: (SampledScene, CameraMotionPlan, Vec<CameraFramePlan>))
    requires
        crate::sampler::draft_is(Some(draft), *config, *request),
        ready(*config),
        timed(config.sequence),
        answers(*turn),
        answers(*tangent),
    ensures
        r.0.building == draft.shell.building,
        scene_is(
            r.0,
            r.1,
            r.2@,
            *config,
            *request,
            draft.shell.building,
            answer_of(*turn),
            answer_of(*tangent),
        ),
{
    let shell = draft.shell;
    let building = shell.building;
    let seed = request.building_seed;
    let composition = sample_composition(
        config,
        seed,
        building,
        shell.environment,
        draft.site,
        turn,
    );
    let cameras = sample_cameras(
        config,
        seed,
        building,
        shell.roof,
        shell.ordinary_roof,
        &composition,
        turn,
        tangent,
    );
    let occluders = sample_occluders(&config.occluders, seed, building, &cameras.1, turn);
    proof {
        reveal(composition_is);
        reveal(scene_is);
    }
    let scene = SampledScene {
        building,
        roof: shell.roof,
        ordinary_roof: shell.ordinary_roof,
        roof_material: shell.roof_material,
        wall_material: shell.wall_material,
        lighting: shell.lighting,
        occluders,
        composition,
    };
    (scene, cameras.0, cameras.1)
}

/// A plan is that of a request, given what sines, cosines and tangents are: its scene,
/// motion and frames are sampled, and its ground is widened to all content.
#[verifier::opaque]
pub open spec fn plan_is(
    plan: SequencePlan,
    c: GeneratorConfig,
    fingerprint: Seq<char>,
    request: SequenceRequest,
    turn: spec_fn(Single) -> Turn,
    tangent: spec_fn(Single) -> Single,
) -> bool {
    let scene = plan.scene;
    &&& plan.sequence_id@ == crate::plan::sequence_id_text(request, fingerprint)
    &&& plan.request == request
    &&& plan.config_fingerprint@ == fingerprint
    &&& crate::sampler::building_of(c, request.building_seed) matches Some(building)
    &&& scene_is(
        scene,
        plan.camera_motion,
        plan.frames@,
        c,
        request,
        building,
        turn,
        tangent,
    )
    &&& exists|turns: SceneTurns| #[trigger]
        turns.describe(scene, turn) && scene.building == SequenceSampler::grounded(
            building,
            actual_roof_envelope(&scene),
            scene.composition,
            scene.occluders@,
            turns,
            plan.frames@,
        )
}

proof fn lemma_plan(
    sampler: SequenceSampler,
    plan: SequencePlan,
    request: SequenceRequest,
    scene: SampledScene,
    turns: SceneTurns,
    motion: CameraMotionPlan,
    frames: Vec<CameraFramePlan>,
    turn: spec_fn(Single) -> Turn,
    tangent: spec_fn(Single) -> Single,
)
    requires
        sampler.planned(plan, request, scene, turns, motion, frames),
        crate::sampler::building_of(sampler.configuration(), request.building_seed) == Some(
            scene.building,
        ),
        scene_is(
            scene,
            motion,
            frames@,
            sampler.configuration(),
            request,
            scene.building,
            turn,
            tangent,
        ),
        turns.describe(scene, turn),
    ensures
        plan_is(
            plan,
            sampler.configuration(),
            sampler.fingerprint(),
            request,
            turn,
            tangent,
        ),
{
    reveal(plan_is);
    assert(scene_is(
        plan.scene,
        motion,
        frames@,
        sampler.configuration(),
        request,
        scene.building,
        turn,
        tangent,
    )) by {
        reveal(scene_is);
    }
    assert(turns.describe(plan.scene, turn));
}

/// With the standard configuration a sampler can be made, and it can give every frame its
/// time: its lists can be counted, and its times fit in their field.
pub proof fn standard_configurations_can_be_sampled(c: GeneratorConfig)
    requires
        c.is_standard(),
    ensures
        crate::sampler::countable(c),
        timed(c.sequence),
{
}

impl SequenceSampler {
    /// Samples a sequence from independent ChaCha20 substreams, given functions for the
    /// cosine and sine of an angle and for its tangent. There is no plan where rounding
    /// leaves no footprint for the drawn aspect ratio, which never happens with the standard
    /// configuration.
    pub fn sample<T: Fn(Single) -> Turn, G: Fn(Single) -> Single>(
        &self,
        request: SequenceRequest,
        turn: &T,
        tangent: &G,
    ) -> (r: Result<Option<SequencePlan>, SamplingError>)
        requires
            self.wf(),
            timed(self.configuration().sequence),
            answers(*turn),
            answers(*tangent),
        ensures
            match r {
                Ok(Some(plan)) => !crate::text::blank(request.building_family@) && plan_is(
                    plan,
                    self.configuration(),
                    self.fingerprint(),
                    request,
                    answer_of(*turn),
                    answer_of(*tangent),
                ),
                Ok(None) => !crate::text::blank(request.building_family@)
                    && crate::sampler::building_of(
                    self.configuration(),
                    request.building_seed,
                ) is None && !self.configuration().is_standard(),
                Err(error) => crate::text::blank(request.building_family@) && error
                    == SamplingError::EmptyBuildingFamily,
            },
    {
        let config = self.config();
        let seed = request.building_seed;
        let draft = match self.draft(&request) {
            Ok(Some(draft)) => draft,
            Ok(None) => {
                return Ok(None);
            },
            Err(error) => {
                return Err(error);
            },
        };
        proof {
            lemma_ready(*self);
        }
        let sampled = sample_scene(config, &request, draft, turn, tangent);
        let turns = scene_turns(&sampled.0, turn);
        let plan = self.finish(request, sampled.0, &turns, sampled.1, sampled.2);
        proof {
            lemma_plan(
                *self,
                plan,
                request,
                sampled.0,
                turns,
                sampled.1,
                sampled.2,
                answer_of(*turn),
                answer_of(*tangent),
            );
        }
        Ok(Some(plan))
    }
}

proof fn lemma_placement_fits(
    step: ClutterStep,
    draft: OccluderDraft,
    config: OccluderSamplingConfig,
    building: SampledBuilding,
    cameras: Seq<Vec3>,
    turn: spec_fn(Single) -> Turn,
)
    requires
        step matches ClutterStep::Placed(occluder, _) ==> occluder_fits(
            occluder,
            building,
            cameras,
            turn,
        ),
    ensures
        placement_from(
            step,
            draft,
            turn(radians(draft.yaw_degrees)),
            config,
            building,
            cameras,
            turn,
        ).0 matches Some(occluder) ==> occluder_fits(occluder, building, cameras, turn),
    decreases tries_left(step),
{
    if let ClutterStep::Site { attempt, angle, distance, next } = step {
        if attempt < SITE_TRIES {
            lemma_placement_fits(
                crate::sample_clutter::step_after_site(
                    draft,
                    turn(radians(draft.yaw_degrees)),
                    config,
                    building,
                    cameras,
                    attempt,
                    distance,
                    next,
                    turn(angle),
                ),
                draft,
                config,
                building,
                cameras,
                turn,
            );
        }
    }
}

/// An occluder that keeps its distance to the building and to every camera.
pub open spec fn occluder_fits(
    occluder: SampledOccluder,
    building: SampledBuilding,
    cameras: Seq<Vec3>,
    turn: spec_fn(Single) -> Turn,
) -> bool {
    let half = rotated_half_extents(
        occluder.nominal_size_m,
        turn(radians(occluder.yaw_degrees)),
    );
    crate::sample_clutter::fits(
        occluder.position,
        building,
        CameraObstacleSize {
            half_x: half.x,
            half_z: half.z,
            height_m: occluder.nominal_size_m.y,
        },
        cameras,
    )
}

proof fn lemma_occluders_fit(
    kinds: Seq<OccluderKind>,
    n: nat,
    d: Draws,
    config: OccluderSamplingConfig,
    building: SampledBuilding,
    cameras: Seq<Vec3>,
    turn: spec_fn(Single) -> Turn,
)
    ensures
        forall|i: int|
            0 <= i < first_occluders(kinds, n, d, config, building, cameras, turn).0.len()
                ==> occluder_fits(
                #[trigger] first_occluders(kinds, n, d, config, building, cameras, turn).0[i],
                building,
                cameras,
                turn,
            ),
    decreases n,
{
    if n > 0 {
        lemma_occluders_fit(kinds, (n - 1) as nat, d, config, building, cameras, turn);
        let e = first_occluders(kinds, (n - 1) as nat, d, config, building, cameras, turn).1;
        let draft = draft_occluder(e, &config, kinds[n - 1]);
        let yaw = turn(radians(draft.yaw_degrees));
        let middle = crate::sample_clutter::middle_of(cameras);
        let target = foreground_target(building);
        crate::sample_clutter::foreground_positions_fit(
            draft.next,
            config,
            building,
            middle,
            target,
            draft.size(yaw),
            cameras,
            crate::sample_clutter::FOREGROUND_TRIES as nat,
        );
        lemma_placement_fits(
            crate::sample_clutter::first_step(
                draft,
                yaw,
                config,
                building,
                middle,
                target,
                cameras,
            ),
            draft,
            config,
            building,
            cameras,
            turn,
        );
    }
}

/// Every occluder of a sampled plan keeps its distance to the building and to all cameras
/// of the sequence.
pub proof fn sampled_occluders_fit(
    plan: SequencePlan,
    c: GeneratorConfig,
    fingerprint: Seq<char>,
    request: SequenceRequest,
    turn: spec_fn(Single) -> Turn,
    tangent: spec_fn(Single) -> Single,
)
    requires
        plan_is(plan, c, fingerprint, request, turn, tangent),
    ensures
        crate::sampler::building_of(c, request.building_seed) matches Some(building)
            && forall|i: int|
            0 <= i < plan.scene.occluders@.len() ==> occluder_fits(
                #[trigger] plan.scene.occluders@[i],
                building,
                crate::geometry::camera_positions(plan.frames@),
                turn,
            ),
{
    reveal(plan_is);
    reveal(scene_is);
    let seed = request.building_seed;
    let kinds = crate::sample_clutter::kinds_of(seed, c.occluders);
    lemma_occluders_fit(
        kinds,
        kinds.len(),
        Draws::of(seed, "occluder-placement"),
        c.occluders,
        crate::sampler::building_of(c, seed)->0,
        crate::geometry::camera_positions(plan.frames@),
        turn,
    );
}

/// A sampled plan has the configured number of frames. They are numbered from zero, and
/// each comes the configured interval after the one before.
pub proof fn sampled_frames_follow_each_other(
    plan: SequencePlan,
    c: GeneratorConfig,
    fingerprint: Seq<char>,
    request: SequenceRequest,
    turn: spec_fn(Single) -> Turn,
    tangent: spec_fn(Single) -> Single,
)
    requires
        plan_is(plan, c, fingerprint, request, turn, tangent),
        timed(c.sequence),
    ensures
        plan.frames@.len() == c.sequence.frame_count,
        forall|i: int|
            0 <= i < plan.frames@.len() ==> {
                &&& (#[trigger] plan.frames@[i]).frame_index == i
                &&& plan.frames@[i].timestamp_ns == i * c.sequence.frame_interval_ms * 1_000_000
            },
{
    reveal(plan_is);
    reveal(scene_is);
    reveal(cameras_are);
    let interval = c.sequence.frame_interval_ms as int;
    let last = c.sequence.frame_count - 1;
    assert forall|i: int| 0 <= i < plan.frames@.len() implies {
        &&& (#[trigger] plan.frames@[i]).frame_index == i
        &&& plan.frames@[i].timestamp_ns == i * c.sequence.frame_interval_ms * 1_000_000
    } by {
        assert(0 <= i * interval * 1_000_000 <= last * interval * 1_000_000)
            by (nonlinear_arith)
            requires
                0 <= i <= last,
                interval >= 0,
        ;
    }
}

/// The cameras of a sampled plan stand free and move free from each to the next, unless the
/// search for a path came to its last try.
pub proof fn sampled_cameras_are_free(
    plan: SequencePlan,
    c: GeneratorConfig,
    fingerprint: Seq<char>,
    request: SequenceRequest,
    turn: spec_fn(Single) -> Turn,
    tangent: spec_fn(Single) -> Single,
)
    requires
        plan_is(plan, c, fingerprint, request, turn, tangent),
    ensures
        crate::sampler::building_of(c, request.building_seed) matches Some(building) && {
            let around = surroundings_of(plan.scene, building, turn);
            ||| crate::sample_camera::clear_path(
                crate::geometry::camera_positions(plan.frames@),
                building,
                around.roof,
                plan.scene.composition,
                around.yaws,
            )
            ||| last_try_taken(c, request.building_seed, around, turn, tangent)
        },
{
    reveal(plan_is);
    reveal(scene_is);
    reveal(cameras_are);
    let seed = request.building_seed;
    let around = surroundings_of(
        plan.scene,
        crate::sampler::building_of(c, seed)->0,
        turn,
    );
    let count = c.sequence.frame_count;
    let initial = initial_of(c, seed, around.roof, tangent);
    settled_paths_are_free(
        around,
        initial,
        around.corridor(initial, c.camera.distance_m.min),
        0,
        count,
        turn,
    );
    assert(crate::geometry::camera_positions(plan.frames@) =~= stations(
        path_of(c, seed, around, turn, tangent),
        count,
        turn,
    ));
}

/// Two compositions hold the same.
pub open spec fn same_composition(a: SampledComposition, b: SampledComposition) -> bool {
    &&& a.source_asset_ids@.len() == b.source_asset_ids@.len() == 0
    &&& a.environment == b.environment
    &&& a.ground_material == b.ground_material
    &&& a.facade == b.facade
    &&& a.building_extensions@ == b.building_extensions@
    &&& a.signage@ == b.signage@
    &&& a.background_buildings@ == b.background_buildings@
    &&& a.vegetation@ == b.vegetation@
    &&& match (a.infrastructure, b.infrastructure) {
        (Some(a), Some(b)) => same_infrastructure(a, b),
        (None, None) => true,
        _ => false,
    }
}

/// Two infrastructures hold the same.
pub open spec fn same_infrastructure(
    a: SampledSiteInfrastructure,
    b: SampledSiteInfrastructure,
) -> bool {
    &&& a.domain == b.domain
    &&& a.parking_bays == b.parking_bays
    &&& a.parking_center == b.parking_center
    &&& a.parking_bay_size_m == b.parking_bay_size_m
    &&& a.parking_yaw_degrees == b.parking_yaw_degrees
    &&& a.road_kind == b.road_kind
    &&& a.road_lanes == b.road_lanes
    &&& a.lane_width_m == b.lane_width_m
    &&& a.road_center_z_m == b.road_center_z_m
    &&& a.raised_curb == b.raised_curb
    &&& a.utility_poles@ == b.utility_poles@
    &&& a.utility_lines@ == b.utility_lines@
}

proof fn lemma_same_composition(
    a: SampledComposition,
    b: SampledComposition,
    c: GeneratorConfig,
    seed: u64,
    building: SampledBuilding,
    environment: SampledEnvironment,
    turn: spec_fn(Single) -> Turn,
)
    requires
        composition_is(a, c, seed, building, environment, turn),
        composition_is(b, c, seed, building, environment, turn),
    ensures
        same_composition(a, b),
{
    reveal(composition_is);
}

proof fn lemma_same_search(
    a: Surroundings,
    b: Surroundings,
    initial: CameraPathParameters,
    corridor: PathCorridor,
    attempt: u32,
    frame_count: u32,
    turn: spec_fn(Single) -> Turn,
)
    requires
        a.building == b.building,
        a.roof == b.roof,
        a.yaws == b.yaws,
        same_composition(a.composition, b.composition),
    ensures
        a.settled_try(initial, corridor, attempt, frame_count, turn) == b.settled_try(
            initial,
            corridor,
            attempt,
            frame_count,
            turn,
        ),
    decreases LAST_TRY - attempt,
{
    let path = tried_path(initial, corridor, attempt);
    assert(a.leave_free(path, frame_count, turn) == b.leave_free(path, frame_count, turn));
    if let PathSearch::Try(next) = after_try(
        corridor,
        attempt,
        a.leave_free(path, frame_count, turn),
    ) {
        lemma_same_search(a, b, initial, corridor, next, frame_count, turn);
    }
}

proof fn lemma_same_scene(
    a: SequencePlan,
    b: SequencePlan,
    c: GeneratorConfig,
    request: SequenceRequest,
    building: SampledBuilding,
    turn: spec_fn(Single) -> Turn,
    tangent: spec_fn(Single) -> Single,
)
    requires
        scene_is(
            a.scene,
            a.camera_motion,
            a.frames@,
            c,
            request,
            building,
            turn,
            tangent,
        ),
        scene_is(
            b.scene,
            b.camera_motion,
            b.frames@,
            c,
            request,
            building,
            turn,
            tangent,
        ),
    ensures
        a.scene.roof == b.scene.roof,
        a.scene.ordinary_roof == b.scene.ordinary_roof,
        a.scene.roof_material == b.scene.roof_material,
        a.scene.wall_material == b.scene.wall_material,
        a.scene.lighting == b.scene.lighting,
        a.scene.occluders@ == b.scene.occluders@,
        same_composition(a.scene.composition, b.scene.composition),
        a.camera_motion == b.camera_motion,
        a.frames@ == b.frames@,
{
    reveal(scene_is);
    let seed = request.building_seed;
    lemma_same_composition(
        a.scene.composition,
        b.scene.composition,
        c,
        seed,
        building,
        a.scene.composition.environment->0,
        turn,
    );
    let first = surroundings_of(a.scene, building, turn);
    let second = surroundings_of(b.scene, building, turn);
    let initial = initial_of(c, seed, first.roof, tangent);
    lemma_same_search(
        first,
        second,
        initial,
        first.corridor(initial, c.camera.distance_m.min),
        0,
        c.sequence.frame_count,
        turn,
    );
    assert(a.camera_motion == b.camera_motion && a.frames@ == b.frames@) by {
        reveal(cameras_are);
    }
}

/// The same request under the same configuration always gives the same plan, whatever
/// process samples it, as long as sines, cosines and tangents are the same.
pub proof fn plans_are_reproducible(
    a: SequencePlan,
    b: SequencePlan,
    c: GeneratorConfig,
    fingerprint: Seq<char>,
    request: SequenceRequest,
    turn: spec_fn(Single) -> Turn,
    tangent: spec_fn(Single) -> Single,
)
    requires
        plan_is(a, c, fingerprint, request, turn, tangent),
        plan_is(b, c, fingerprint, request, turn, tangent),
    ensures
        a.sequence_id@ == b.sequence_id@,
        a.request == b.request,
        a.config_fingerprint@ == b.config_fingerprint@,
        a.scene.building == b.scene.building,
        a.scene.roof == b.scene.roof,
        a.scene.ordinary_roof == b.scene.ordinary_roof,
        a.scene.roof_material == b.scene.roof_material,
        a.scene.wall_material == b.scene.wall_material,
        a.scene.lighting == b.scene.lighting,
        a.scene.occluders@ == b.scene.occluders@,
        same_composition(a.scene.composition, b.scene.composition),
        a.camera_motion == b.camera_motion,
        a.frames@ == b.frames@,
{
    reveal(plan_is);
    let building = crate::sampler::building_of(c, request.building_seed)->0;
    lemma_same_scene(a, b, c, request, building, turn, tangent);
    assert(a.scene.building == b.scene.building) by {
        reveal(scene_is);
    }
}

/// Plans of the same seed share their scene, whatever is asked for: building, roof
/// reference, finishes, light and surroundings are the same, and so are the decisions behind
/// the cameras. A negative renders its ordinary roof on the eaves of the target roof. Only
/// what follows from the roof that is rendered can differ.
pub proof fn paired_plans_share_their_scene(
    a: SequencePlan,
    b: SequencePlan,
    c: GeneratorConfig,
    fingerprint: Seq<char>,
    first: SequenceRequest,
    second: SequenceRequest,
    turn: spec_fn(Single) -> Turn,
    tangent: spec_fn(Single) -> Single,
)
    requires
        first.building_seed == second.building_seed,
        plan_is(a, c, fingerprint, first, turn, tangent),
        plan_is(b, c, fingerprint, second, turn, tangent),
    ensures
        a.scene.building.footprint_width_m == b.scene.building.footprint_width_m,
        a.scene.building.footprint_depth_m == b.scene.building.footprint_depth_m,
        a.scene.building.wall_height_m == b.scene.building.wall_height_m,
        a.scene.roof == b.scene.roof,
        a.scene.roof_material == b.scene.roof_material,
        a.scene.wall_material == b.scene.wall_material,
        a.scene.lighting == b.scene.lighting,
        same_composition(a.scene.composition, b.scene.composition),
        b.scene.ordinary_roof matches Some(ordinary) ==> ordinary.eave_width_m
            == a.scene.roof.eave_width_m && ordinary.eave_depth_m == a.scene.roof.eave_depth_m,
        a.camera_motion == (CameraMotionPlan {
            framing_offset: a.camera_motion.framing_offset,
            ..b.camera_motion
        }),
        a.frames@.len() == b.frames@.len(),
        forall|i: int|
            0 <= i < a.frames@.len() ==> {
                &&& (#[trigger] a.frames@[i]).frame_index == b.frames@[i].frame_index
                &&& a.frames@[i].timestamp_ns == b.frames@[i].timestamp_ns
            },
{
    reveal(plan_is);
    reveal(scene_is);
    let seed = first.building_seed;
    let building = crate::sampler::building_of(c, seed)->0;
    lemma_same_composition(
        a.scene.composition,
        b.scene.composition,
        c,
        seed,
        building,
        a.scene.composition.environment->0,
        turn,
    );
    lemma_paired_cameras(
        a,
        b,
        c,
        seed,
        crate::sample_sequence::roof_points(building, a.scene.roof, a.scene.ordinary_roof),
        crate::sample_sequence::roof_points(building, b.scene.roof, b.scene.ordinary_roof),
        surroundings_of(a.scene, building, turn),
        surroundings_of(b.scene, building, turn),
        turn,
        tangent,
    );
}

proof fn lemma_paired_cameras(
    a: SequencePlan,
    b: SequencePlan,
    c: GeneratorConfig,
    seed: u64,
    points: Seq<Vec3>,
    others: Seq<Vec3>,
    around: Surroundings,
    beside: Surroundings,
    turn: spec_fn(Single) -> Turn,
    tangent: spec_fn(Single) -> Single,
)
    requires
        around.building == beside.building,
        cameras_are(a.camera_motion, a.frames@, c, seed, points, around, turn, tangent),
        cameras_are(b.camera_motion, b.frames@, c, seed, others, beside, turn, tangent),
    ensures
        a.camera_motion == (CameraMotionPlan {
            framing_offset: a.camera_motion.framing_offset,
            ..b.camera_motion
        }),
        a.frames@.len() == b.frames@.len(),
        forall|i: int|
            0 <= i < a.frames@.len() ==> {
                &&& (#[trigger] a.frames@[i]).frame_index == b.frames@[i].frame_index
                &&& a.frames@[i].timestamp_ns == b.frames@[i].timestamp_ns
            },
{
    reveal(cameras_are);
}

} // verus!
