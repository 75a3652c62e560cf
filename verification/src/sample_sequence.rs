//! Camera plans of whole sequences.

use crate::config::{CameraSamplingConfig, ImageConfig, SequenceConfig};
use crate::plan::{
    CameraFramePlan, CameraMotionPlan, SampledBuilding, SampledOrdinaryRoof, SampledRoof,
};
use crate::sample_camera::{
    camera_path_position, frame_camera, frame_intrinsics, motion_plan, ordinary_roof_control_points,
    plan_frame, sequence_progress, solve_framing_aim, target_roof_control_points, CameraChoices,
    CameraPathParameters, PathTurns,
};
use crate::single::Single;
use crate::types::Vec3;
use vstd::prelude::*;

verus! {

/// The positions of a camera at the frames of its path, given the turns at each.
pub open spec fn path_positions(
    parameters: CameraPathParameters,
    turns: Seq<PathTurns>,
) -> Seq<Vec3> {
    Seq::new(
        turns.len(),
        |i: int|
            camera_path_position(
                parameters,
                sequence_progress(i as u32, turns.len() as u32),
                turns[i],
            ),
    )
}

/// Lists the positions of a camera at the frames of its path, given the turns at each.
pub fn list_path_positions(
    parameters: CameraPathParameters,
    turns: &Vec<PathTurns>,
) -> (r: Vec<Vec3>)
    requires
        turns@.len() <= u32::MAX,
    ensures
        r@ == path_positions(parameters, turns@),
{
    let count: u32 = turns.len() as u32;
    let mut r: Vec<Vec3> = Vec::new();
    let mut i: u32 = 0;
    while i < count
        invariant
            i <= count == turns@.len(),
            r@.len() == i,
            forall|j: int|
                0 <= j < i ==> #[trigger] r@[j] == camera_path_position(
                    parameters,
                    sequence_progress(j as u32, count),
                    turns@[j],
                ),
        decreases count - i,
    {
        r.push(
            camera_path_position(parameters, sequence_progress(i, count), turns[i as usize]),
        );
        i = i + 1;
    }
    assert(r@ =~= path_positions(parameters, turns@));
    r
}

/// Points that outline the roof that is rendered.
pub open spec fn roof_points(
    building: SampledBuilding,
    roof: SampledRoof,
    ordinary: Option<SampledOrdinaryRoof>,
) -> Seq<Vec3> {
    match ordinary {
        Some(ordinary) => crate::sample_camera::ordinary_points(building, ordinary),
        None => crate::sample_camera::target_points(building, roof),
    }
}

/// Lists points that outline the roof that is rendered.
pub fn list_roof_points(
    building: SampledBuilding,
    roof: SampledRoof,
    ordinary: Option<SampledOrdinaryRoof>,
) -> (r: Vec<Vec3>)
    ensures
        r@ == roof_points(building, roof, ordinary),
{
    match ordinary {
        Some(ordinary) => ordinary_roof_control_points(building, ordinary),
        None => target_roof_control_points(building, roof),
    }
}

/// What the cameras of a sequence share.
#[derive(Clone, Copy, Debug, PartialEq, Eq, Structural)]
pub struct CameraSetup {
    /// Camera ranges.
    pub camera: CameraSamplingConfig,
    /// Image size.
    pub image: ImageConfig,
    /// Frame count and interval.
    pub sequence: SequenceConfig,
    /// Random decisions.
    pub choices: CameraChoices,
    /// What the cameras look at.
    pub center: Vec3,
}

impl CameraSetup {
    /// Point that the camera of a frame looks at.
    pub open spec fn aim(
        self,
        points: Seq<Vec3>,
        positions: Seq<Vec3>,
        tangents: Seq<Single>,
        i: int,
    ) -> Vec3 {
        crate::sample_camera::framing_aim(
            positions[i],
            self.center,
            self.choices.framing_intent,
            self.choices.crop_depth_fraction,
            points,
            frame_intrinsics(self.image, tangents[i]),
        )
    }

    /// The plan of a frame.
    pub open spec fn frame(
        self,
        points: Seq<Vec3>,
        positions: Seq<Vec3>,
        tangents: Seq<Single>,
        i: int,
    ) -> CameraFramePlan {
        CameraFramePlan {
            frame_index: i as u32,
            timestamp_ns: crate::sample_camera::frame_time(
                i,
                self.sequence.frame_interval_ms as int,
            ) as u64,
            camera: frame_camera(
                frame_intrinsics(self.image, tangents[i]),
                positions[i],
                self.aim(points, positions, tangents, i),
            ),
        }
    }

    /// The plans of all frames.
    pub open spec fn frames(
        self,
        points: Seq<Vec3>,
        positions: Seq<Vec3>,
        tangents: Seq<Single>,
    ) -> Seq<CameraFramePlan> {
        Seq::new(positions.len(), |i: int| self.frame(points, positions, tangents, i))
    }

    /// The motion of the cameras: how they are framed is what the middle one looks at.
    pub open spec fn motion(
        self,
        points: Seq<Vec3>,
        positions: Seq<Vec3>,
        tangents: Seq<Single>,
    ) -> CameraMotionPlan {
        motion_plan(
            self.camera,
            self.choices,
            self.center,
            if positions.len() == 0 {
                self.center
            } else {
                self.aim(points, positions, tangents, positions.len() as int / 2)
            },
        )
    }

    /// Plans every frame of a sequence and its motion, given where the cameras stand and
    /// the tangent of half the field of view of each.
    pub fn plan(
        self,
        points: &Vec<Vec3>,
        positions: &Vec<Vec3>,
        tangents: &Vec<Single>,
    ) -> (r: (CameraMotionPlan, Vec<CameraFramePlan>))
        requires
            positions@.len() == tangents@.len(),
            positions@.len() <= u32::MAX,
            crate::sample_camera::frame_time(
                positions@.len() - 1,
                self.sequence.frame_interval_ms as int,
            ) <= u64::MAX,
        ensures
            r.0 == self.motion(points@, positions@, tangents@),
            r.1@ == self.frames(points@, positions@, tangents@),
    {
        let count: u32 = positions.len() as u32;
        let mut frames: Vec<CameraFramePlan> = Vec::new();
        let mut i: u32 = 0;
        while i < count
            invariant
                i <= count == positions@.len(),
                positions@.len() == tangents@.len(),
                crate::sample_camera::frame_time(
                    positions@.len() - 1,
                    self.sequence.frame_interval_ms as int,
                ) <= u64::MAX,
                frames@.len() == i,
                forall|j: int|
                    0 <= j < i ==> #[trigger] frames@[j] == self.frame(
                        points@,
                        positions@,
                        tangents@,
                        j,
                    ),
            decreases count - i,
        {
            proof {
                let interval = self.sequence.frame_interval_ms as int;
                assert(i * interval * 1_000_000 <= (count - 1) * interval * 1_000_000)
                    by (nonlinear_arith)
                    requires
                        i <= count - 1,
                        interval >= 0,
                ;
            }
            frames.push(
                plan_frame(
                    self.image,
                    self.sequence,
                    self.choices,
                    i,
                    positions[i as usize],
                    self.center,
                    points,
                    tangents[i as usize],
                ),
            );
            i = i + 1;
        }
        let middle_aim = if count == 0 {
            self.center
        } else {
            let middle: usize = (count / 2) as usize;
            solve_framing_aim(
                positions[middle],
                self.center,
                self.choices.framing_intent,
                self.choices.crop_depth_fraction,
                points,
                frame_intrinsics(self.image, tangents[middle]),
            )
        };
        assert(frames@ =~= self.frames(points@, positions@, tangents@));
        (motion_plan(self.camera, self.choices, self.center, middle_aim), frames)
    }
}

} // verus!
