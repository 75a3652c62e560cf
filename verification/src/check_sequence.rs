//! Rules for camera plans, sequence plans and sequence records.

use crate::check_frame::{check_frame, sound_intrinsics};
use crate::check_scene::validate_sampled_scene;
use crate::geometry::{
    actual_roof_envelope, camera_point_intersects_scene, camera_segment_intersects_scene,
    camera_view_intersects_background, ground_edge_margin_m, SceneTurns,
};
use crate::manifest::{DatasetManifest, SourceAsset};
use crate::plan::{
    CameraFramePlan, CameraMotionPlan, SampledOrdinaryRoof, SampledScene, SequencePlan,
    ZoomBehavior,
};
use crate::record::{FrameRecord, SequenceFrameRef, SequenceRecord, TargetKind};
use crate::report::ValidationReport;
use crate::single::Single;
use crate::split::{DatasetSplit, SplitKey, SplitPolicyError};
use crate::text::{element_path, is_blank, same_text};
use crate::types::Vec3;
use vstd::prelude::*;

verus! {

broadcast use crate::report::group_rules;

/// Whether a field of view is finite, at least one degree and below 179.
pub open spec fn spec_sound_fov(degrees: Single) -> bool {
    degrees.is_finite() && Single::one().at_most(degrees) && degrees.less(Single::ratio(179, 1))
}

/// Whether a field of view is finite, at least one degree and below 179.
#[verifier::when_used_as_spec(spec_sound_fov)]
pub fn sound_fov(degrees: Single) -> (r: bool)
    ensures
        r == spec_sound_fov(degrees),
{
    degrees.is_finite() && Single::one().at_most(degrees) && degrees.less(Single::ratio(179, 1))
}

/// Whether composition, fields of view, target and sway are physically bounded.
pub open spec fn spec_sound_motion(motion: CameraMotionPlan) -> bool {
    motion.target_center.is_finite()
        && motion.framing_offset.is_finite()
        && motion.target_width_fraction_goal.is_finite()
        && motion.target_width_fraction_goal.within(Single::ratio(1, 10), Single::ratio(15, 10))
        && sound_fov(motion.start_horizontal_fov_degrees)
        && sound_fov(motion.end_horizontal_fov_degrees)
        && motion.handheld_sway_m.is_finite()
        && motion.handheld_sway_m.within(Single::zero(), Single::ratio(5, 10))
}

/// Whether composition, fields of view, target and sway are physically bounded.
#[verifier::when_used_as_spec(spec_sound_motion)]
pub fn sound_motion(motion: CameraMotionPlan) -> (r: bool)
    ensures
        r == spec_sound_motion(motion),
{
    motion.target_center.is_finite()
        && motion.framing_offset.is_finite()
        && motion.target_width_fraction_goal.is_finite()
        && motion.target_width_fraction_goal.within(Single::ratio(1, 10), Single::ratio(15, 10))
        && sound_fov(motion.start_horizontal_fov_degrees)
        && sound_fov(motion.end_horizontal_fov_degrees)
        && motion.handheld_sway_m.is_finite()
        && motion.handheld_sway_m.within(Single::zero(), Single::ratio(5, 10))
}

/// Whether the zoom category agrees with the two fields of view.
pub open spec fn spec_consistent_zoom(motion: CameraMotionPlan) -> bool {
    let start = motion.start_horizontal_fov_degrees;
    let end = motion.end_horizontal_fov_degrees;
    match motion.zoom_behavior {
        ZoomBehavior::Fixed => start.minus(end).abs().less(Single::ratio(1, 10)),
        ZoomBehavior::SmoothIn => end.less(start),
        ZoomBehavior::SmoothOut => start.less(end),
    }
}

/// Whether the zoom category agrees with the two fields of view.
#[verifier::when_used_as_spec(spec_consistent_zoom)]
pub fn consistent_zoom(motion: CameraMotionPlan) -> (r: bool)
    ensures
        r == spec_consistent_zoom(motion),
{
    let start = motion.start_horizontal_fov_degrees;
    let end = motion.end_horizontal_fov_degrees;
    match motion.zoom_behavior {
        ZoomBehavior::Fixed => start.minus(end).abs().less(Single::ratio(1, 10)),
        ZoomBehavior::SmoothIn => end.less(start),
        ZoomBehavior::SmoothOut => start.less(end),
    }
}

/// What a camera motion plan has to meet.
pub open spec fn camera_motion_rules(path: Seq<char>, motion: CameraMotionPlan) -> Seq<
    crate::report::Rule,
> {
    crate::report::error_if(
        !sound_motion(motion),
        "invalid_camera_motion_plan"@,
        path,
        "camera composition, FOV, target, and sway must be finite and physically bounded"@,
    ) + crate::report::error_if(
        !consistent_zoom(motion),
        "inconsistent_zoom_behavior"@,
        path + ".zoom_behavior"@,
        "zoom category must agree with start and end horizontal FOV"@,
    )
}

/// Checks a camera motion plan.
pub fn validate_camera_motion_plan(
    report: &mut ValidationReport,
    path: &str,
    motion: CameraMotionPlan,
)
    ensures
        final(report)@ == crate::report::applied(old(report)@, camera_motion_rules(path@, motion)),
{
    report.check(
        !sound_motion(motion),
        "invalid_camera_motion_plan",
        path,
        "camera composition, FOV, target, and sway must be finite and physically bounded",
    );
    report.check_field(
        !consistent_zoom(motion),
        "inconsistent_zoom_behavior",
        path,
        ".zoom_behavior",
        "zoom category must agree with start and end horizontal FOV",
    );
}

/// Whether a camera stands beyond the ground less its margin.
pub open spec fn spec_beyond_ground(position: Vec3, ground_half_extent_m: Single) -> bool {
    let limit = ground_half_extent_m.minus(ground_edge_margin_m());
    limit.plus(Single::ratio(1, 1000)).less(position.x.abs())
        || limit.plus(Single::ratio(1, 1000)).less(position.z.abs())
}

/// Whether a camera stands beyond the ground less its margin.
#[verifier::when_used_as_spec(spec_beyond_ground)]
pub fn beyond_ground(position: Vec3, ground_half_extent_m: Single) -> (r: bool)
    ensures
        r == spec_beyond_ground(position, ground_half_extent_m),
{
    let limit = ground_half_extent_m.minus(ground_edge_margin_m());
    limit.plus(Single::ratio(1, 1000)).less(position.x.abs())
        || limit.plus(Single::ratio(1, 1000)).less(position.z.abs())
}

/// A camera stands in the clearance of the scene's solids.
pub open spec fn inside_scene(position: Vec3, scene: SampledScene, turns: SceneTurns) -> bool {
    crate::geometry::point_intersects_scene(
        position,
        scene.building,
        actual_roof_envelope(&scene),
        scene.composition.building_extensions@,
        scene.composition.background_buildings@,
        turns.backgrounds@,
    )
}

/// A background building hides the roof from a camera.
pub open spec fn obstructed(position: Vec3, scene: SampledScene, turns: SceneTurns) -> bool {
    crate::geometry::view_meets_backgrounds(
        position,
        scene.building,
        actual_roof_envelope(&scene),
        scene.composition.background_buildings@,
        turns.backgrounds@,
    )
}

/// A camera moves through the clearance of the scene's solids.
pub open spec fn crosses_scene(
    start: Vec3,
    end: Vec3,
    scene: SampledScene,
    turns: SceneTurns,
) -> bool {
    crate::geometry::segment_intersects_scene(
        start,
        end,
        scene.building,
        actual_roof_envelope(&scene),
        scene.composition.building_extensions@,
        scene.composition.background_buildings@,
        turns.backgrounds@,
    )
}

/// What the position of a camera has to meet, after the position before it.
pub open spec fn camera_position_rules(
    path: Seq<char>,
    position: Vec3,
    scene: SampledScene,
    turns: SceneTurns,
    previous: Option<Vec3>,
) -> Seq<crate::report::Rule> {
    crate::report::error_if(
        beyond_ground(position, scene.building.ground_half_extent_m),
        "camera_outside_ground"@,
        path,
        "camera path must remain inside the finite ground plane with an edge margin"@,
    ) + crate::report::error_if(
        inside_scene(position, scene, turns),
        "camera_scene_intersection"@,
        path,
        "camera must clear the target wall volume and background-building bounds"@,
    ) + crate::report::error_if(
        obstructed(position, scene, turns),
        "camera_view_background_intersection"@,
        path,
        "the target-roof sightline must clear background-building bounds"@,
    ) + crate::report::error_if(
        previous is Some && crosses_scene(previous->0, position, scene, turns),
        "camera_path_scene_intersection"@,
        path,
        "camera path segment must clear target and background-building bounds"@,
    )
}

/// Checks the position of a camera, after the position before it.
pub fn validate_camera_position(
    report: &mut ValidationReport,
    path: &str,
    position: Vec3,
    scene: &SampledScene,
    turns: &SceneTurns,
    previous: Option<Vec3>,
)
    requires
        turns.cover(*scene),
    ensures
        final(report)@ == crate::report::applied(
            old(report)@,
            camera_position_rules(path@, position, *scene, *turns, previous),
        ),
{
    let roof = actual_roof_envelope(scene);
    report.check(
        beyond_ground(position, scene.building.ground_half_extent_m),
        "camera_outside_ground",
        path,
        "camera path must remain inside the finite ground plane with an edge margin",
    );
    let inside: bool = camera_point_intersects_scene(
        position,
        scene.building,
        roof,
        &scene.composition.building_extensions,
        &scene.composition.background_buildings,
        &turns.backgrounds,
    );
    report.check(
        inside,
        "camera_scene_intersection",
        path,
        "camera must clear the target wall volume and background-building bounds",
    );
    let hidden: bool = camera_view_intersects_background(
        position,
        scene.building,
        roof,
        &scene.composition.background_buildings,
        &turns.backgrounds,
    );
    report.check(
        hidden,
        "camera_view_background_intersection",
        path,
        "the target-roof sightline must clear background-building bounds",
    );
    let crossing: bool = match previous {
        Some(start) => camera_segment_intersects_scene(
            start,
            position,
            scene.building,
            roof,
            &scene.composition.building_extensions,
            &scene.composition.background_buildings,
            &turns.backgrounds,
        ),
        None => false,
    };
    report.check(
        crossing,
        "camera_path_scene_intersection",
        path,
        "camera path segment must clear target and background-building bounds",
    );
}

/// The translation of a planned camera.
pub open spec fn planned_position(frame: CameraFramePlan) -> Vec3 {
    frame.camera.world_from_camera.translation
}

/// What the first `n` planned frames have to meet.
pub open spec fn first_planned_rules(
    frames: Seq<CameraFramePlan>,
    scene: SampledScene,
    turns: SceneTurns,
    n: nat,
) -> Seq<crate::report::Rule>
    decreases n,
{
    if n == 0 {
        Seq::empty()
    } else {
        let frame = frames[n - 1];
        let previous = if n == 1 {
            None
        } else {
            Some(planned_position(frames[n - 2]))
        };
        first_planned_rules(frames, scene, turns, (n - 1) as nat) + crate::report::error_if(
            frame.frame_index != n - 1,
            "non_contiguous_frame_index"@,
            crate::text::element("frames"@, n - 1, ".frame_index"@),
            "frame indexes must be contiguous and zero based"@,
        ) + crate::report::error_if(
            n > 1 && frame.timestamp_ns <= frames[n - 2].timestamp_ns,
            "non_monotonic_timestamp"@,
            crate::text::element("frames"@, n - 1, ".timestamp_ns"@),
            "camera-plan timestamps must increase strictly"@,
        ) + camera_position_rules(
            crate::text::element("frames"@, n - 1, ".camera.world_from_camera.translation"@),
            planned_position(frame),
            scene,
            turns,
            previous,
        ) + crate::report::error_if(
            !sound_intrinsics(frame.camera.intrinsics) || !frame.camera.world_from_camera.is_valid(),
            "invalid_planned_camera"@,
            crate::text::element("frames"@, n - 1, ".camera"@),
            "planned camera needs finite intrinsics and a valid rigid transform"@,
        )
    }
}

fn check_planned_frames(
    report: &mut ValidationReport,
    frames: &Vec<CameraFramePlan>,
    scene: &SampledScene,
    turns: &SceneTurns,
)
    requires
        turns.cover(*scene),
    ensures
        final(report)@ == crate::report::applied(
            old(report)@,
            first_planned_rules(frames@, *scene, *turns, frames@.len()),
        ),
{
    let ghost start = report@;
    let mut previous: Option<Vec3> = None;
    let mut i: usize = 0;
    while i < frames.len()
        invariant
            turns.cover(*scene),
            i <= frames@.len(),
            previous == if i == 0 {
                None
            } else {
                Some(planned_position(frames@[i - 1]))
            },
            report@ == crate::report::applied(
                start,
                first_planned_rules(frames@, *scene, *turns, i as nat),
            ),
        decreases frames@.len() - i,
    {
        let frame = frames[i];
        report.check_element(
            frame.frame_index as usize != i,
            "non_contiguous_frame_index",
            "frames",
            i,
            ".frame_index",
            "frame indexes must be contiguous and zero based",
        );
        report.check_element(
            i > 0 && frame.timestamp_ns <= frames[i - 1].timestamp_ns,
            "non_monotonic_timestamp",
            "frames",
            i,
            ".timestamp_ns",
            "camera-plan timestamps must increase strictly",
        );
        let position = frame.camera.world_from_camera.translation;
        validate_camera_position(
            report,
            &element_path("frames", i, ".camera.world_from_camera.translation"),
            position,
            scene,
            turns,
            previous,
        );
        previous = Some(position);
        report.check_element(
            !sound_intrinsics(frame.camera.intrinsics) || !frame.camera.world_from_camera.is_valid(),
            "invalid_planned_camera",
            "frames",
            i,
            ".camera",
            "planned camera needs finite intrinsics and a valid rigid transform",
        );
        i = i + 1;
    }
}

/// A negative has an ordinary roof, and nothing else has one.
pub open spec fn roof_kind_rules(
    kind: TargetKind,
    ordinary: Option<SampledOrdinaryRoof>,
    missing: Seq<char>,
    replaced: Seq<char>,
) -> Seq<crate::report::Rule> {
    crate::report::error_if(
        kind == TargetKind::Negative && ordinary is None,
        "missing_ordinary_negative_roof"@,
        "scene.ordinary_roof"@,
        missing,
    ) + crate::report::error_if(
        kind != TargetKind::Negative && ordinary is Some,
        "target_has_ordinary_roof"@,
        "scene.ordinary_roof"@,
        replaced,
    )
}

fn check_roof_kind(
    report: &mut ValidationReport,
    kind: TargetKind,
    ordinary: Option<SampledOrdinaryRoof>,
    missing: &str,
    replaced: &str,
)
    ensures
        final(report)@ == crate::report::applied(
            old(report)@,
            roof_kind_rules(kind, ordinary, missing@, replaced@),
        ),
{
    report.check(
        kind == TargetKind::Negative && ordinary.is_none(),
        "missing_ordinary_negative_roof",
        "scene.ordinary_roof",
        missing,
    );
    report.check(
        kind != TargetKind::Negative && ordinary.is_some(),
        "target_has_ordinary_roof",
        "scene.ordinary_roof",
        replaced,
    );
}

impl SequencePlan {
    /// Everything that a sequence plan has to meet, given the turns of its yawed objects.
    pub open spec fn rules(self, turns: SceneTurns) -> Seq<crate::report::Rule> {
        crate::report::error_if(
            crate::text::blank(self.sequence_id@) || crate::text::blank(
                self.request.building_family@,
            ) || crate::text::blank(self.config_fingerprint@),
            "empty_plan_identity"@,
            "sequence_id"@,
            "sequence, building-family, and configuration identities are required"@,
        ) + crate::check_scene::sampled_scene_rules(self.scene, turns) + roof_kind_rules(
            self.request.target_kind,
            self.scene.ordinary_roof,
            "negative scenes must render an explicit ordinary roof family"@,
            "target and near-miss scenes cannot replace the target roof with an ordinary roof"@,
        ) + camera_motion_rules("camera_motion"@, self.camera_motion) + crate::report::error_if(
            self.frames@.len() == 0,
            "empty_camera_plan"@,
            "frames"@,
            "sequence plan requires at least one exact camera frame"@,
        ) + first_planned_rules(self.frames@, self.scene, turns, self.frames@.len())
    }

    /// Validates the scene, the camera motion and every planned camera, given the turns of
    /// the scene's yawed objects.
    pub fn validate(&self, turns: &SceneTurns) -> (report: ValidationReport)
        requires
            turns.cover(self.scene),
        ensures
            report@ == crate::report::broken(self.rules(*turns)),
    {
        let mut report = ValidationReport::default();
        report.check(
            is_blank(&self.sequence_id) || is_blank(&self.request.building_family) || is_blank(
                &self.config_fingerprint,
            ),
            "empty_plan_identity",
            "sequence_id",
            "sequence, building-family, and configuration identities are required",
        );
        validate_sampled_scene(&mut report, &self.scene, turns);
        check_roof_kind(
            &mut report,
            self.request.target_kind,
            self.scene.ordinary_roof,
            "negative scenes must render an explicit ordinary roof family",
            "target and near-miss scenes cannot replace the target roof with an ordinary roof",
        );
        validate_camera_motion_plan(&mut report, "camera_motion", self.camera_motion);
        report.check(
            self.frames.is_empty(),
            "empty_camera_plan",
            "frames",
            "sequence plan requires at least one exact camera frame",
        );
        check_planned_frames(&mut report, &self.frames, &self.scene, turns);
        report
    }
}

/// Place of the first asset with an identifier, at or after `from`.
pub open spec fn asset_with_id(assets: Seq<SourceAsset>, id: Seq<char>, from: nat) -> Option<int>
    decreases assets.len() - from,
{
    if from >= assets.len() {
        None
    } else if assets[from as int].id@ == id {
        Some(from as int)
    } else {
        asset_with_id(assets, id, from + 1)
    }
}

fn find_asset(assets: &Vec<SourceAsset>, id: &str) -> (r: Option<usize>)
    ensures
        match r {
            Some(i) => i < assets@.len() && asset_with_id(assets@, id@, 0) == Some(i as int),
            None => asset_with_id(assets@, id@, 0) is None,
        },
{
    let mut i: usize = 0;
    while i < assets.len()
        invariant
            i <= assets@.len(),
            asset_with_id(assets@, id@, 0) == asset_with_id(assets@, id@, i as nat),
        decreases assets@.len() - i,
    {
        if same_text(&assets[i].id, id) {
            return Some(i);
        }
        i = i + 1;
    }
    None
}

/// The text of an optional group.
pub open spec fn group_text(group: Option<String>) -> Option<Seq<char>> {
    match group {
        Some(group) => Some(group@),
        None => None,
    }
}

/// An asset belongs to a group, and to another one than the sequence.
pub open spec fn foreign_group(asset: SourceAsset, group: Option<String>) -> bool {
    asset.split_group is Some && group_text(asset.split_group) != group_text(group)
}

fn is_foreign_group(asset: &SourceAsset, group: &Option<String>) -> (r: bool)
    ensures
        r == foreign_group(*asset, *group),
{
    match &asset.split_group {
        Some(own) => match group {
            Some(group) => !same_text(own, group),
            None => true,
        },
        None => false,
    }
}

/// What the first `n` source identifiers have to meet under a manifest.
pub open spec fn first_declared_rules(
    ids: Seq<String>,
    assets: Seq<SourceAsset>,
    group: Option<String>,
    n: nat,
) -> Seq<crate::report::Rule>
    decreases n,
{
    if n == 0 {
        Seq::empty()
    } else {
        let found = asset_with_id(assets, ids[n - 1]@, 0);
        first_declared_rules(ids, assets, group, (n - 1) as nat) + crate::report::error_if(
            found is None,
            "unknown_source_asset_id"@,
            crate::text::element("scene.composition.source_asset_ids"@, n - 1, ""@),
            "resolved source asset ID is not declared in the dataset manifest"@,
        ) + crate::report::error_if(
            found is Some && foreign_group(assets[found->0], group),
            "source_asset_group_mismatch"@,
            crate::text::element("scene.composition.source_asset_ids"@, n - 1, ""@),
            "source asset split group must match the sequence split-group key"@,
        )
    }
}

fn check_declared(
    report: &mut ValidationReport,
    ids: &Vec<String>,
    assets: &Vec<SourceAsset>,
    group: &Option<String>,
)
    ensures
        final(report)@ == crate::report::applied(
            old(report)@,
            first_declared_rules(ids@, assets@, *group, ids@.len()),
        ),
{
    let ghost start = report@;
    let mut i: usize = 0;
    while i < ids.len()
        invariant
            i <= ids@.len(),
            report@ == crate::report::applied(
                start,
                first_declared_rules(ids@, assets@, *group, i as nat),
            ),
        decreases ids@.len() - i,
    {
        let found = find_asset(assets, &ids[i]);
        let foreign: bool = match found {
            Some(at) => is_foreign_group(&assets[at], group),
            None => false,
        };
        report.check_element(
            found.is_none(),
            "unknown_source_asset_id",
            "scene.composition.source_asset_ids",
            i,
            "",
            "resolved source asset ID is not declared in the dataset manifest",
        );
        report.check_element(
            foreign,
            "source_asset_group_mismatch",
            "scene.composition.source_asset_ids",
            i,
            "",
            "source asset split group must match the sequence split-group key",
        );
        i = i + 1;
    }
}

/// The sequence lies in the split that the policy assigns to its building.
pub open spec fn split_rules(
    expected: Result<DatasetSplit, SplitPolicyError>,
    split: DatasetSplit,
) -> Seq<crate::report::Rule> {
    match expected {
        Ok(expected) => crate::report::error_if(
            expected != split,
            "split_mismatch"@,
            "split"@,
            "sequence split does not match its building-level key"@,
        ),
        Err(error) => crate::report::error_if(
            true,
            "invalid_split_policy"@,
            "split"@,
            error.text(),
        ),
    }
}

fn check_split(
    report: &mut ValidationReport,
    expected: Result<DatasetSplit, SplitPolicyError>,
    split: DatasetSplit,
)
    ensures
        final(report)@ == crate::report::applied(old(report)@, split_rules(expected, split)),
{
    match expected {
        Ok(expected) => {
            report.check(
                expected != split,
                "split_mismatch",
                "split",
                "sequence split does not match its building-level key",
            );
        },
        Err(error) => {
            report.check(true, "invalid_split_policy", "split", &error.message());
        },
    }
}

/// The sample key occurs earlier.
pub open spec fn repeated_key(refs: Seq<SequenceFrameRef>, i: int) -> bool {
    exists|j: int| 0 <= j < i && (#[trigger] refs[j]).sample_key@ == refs[i].sample_key@
}

fn is_repeated_key(refs: &Vec<SequenceFrameRef>, i: usize) -> (r: bool)
    requires
        i < refs@.len(),
    ensures
        r == repeated_key(refs@, i as int),
{
    let mut j: usize = 0;
    while j < i
        invariant
            j <= i < refs@.len(),
            forall|k: int| 0 <= k < j ==> (#[trigger] refs@[k]).sample_key@ != refs@[i as int].sample_key@,
        decreases i - j,
    {
        if same_text(&refs[j].sample_key, &refs[i].sample_key) {
            return true;
        }
        j = j + 1;
    }
    false
}

/// What the first `n` frame references have to meet.
pub open spec fn first_reference_rules(
    refs: Seq<SequenceFrameRef>,
    n: nat,
) -> Seq<crate::report::Rule>
    decreases n,
{
    if n == 0 {
        Seq::empty()
    } else {
        first_reference_rules(refs, (n - 1) as nat)
            + crate::report::error_if(
                refs[n - 1].frame_index != n - 1,
                "non_contiguous_frame_index"@,
                crate::text::element("frames"@, n - 1, ".frame_index"@),
                "frame indexes must be contiguous and zero based"@,
            )
            + crate::report::error_if(
                repeated_key(refs, n - 1),
                "duplicate_sample_key"@,
                crate::text::element("frames"@, n - 1, ".sample_key"@),
                "sample keys must be unique"@,
            )
            + crate::report::error_if(
                n > 1 && refs[n - 1].timestamp_ns <= refs[n - 2].timestamp_ns,
                "non_monotonic_timestamp"@,
                crate::text::element("frames"@, n - 1, ".timestamp_ns"@),
                "timestamps must increase strictly"@,
            )
    }
}

/// Checks the frame references of a sequence.
pub fn check_reference(report: &mut ValidationReport, refs: &Vec<SequenceFrameRef>)
    ensures
        final(report)@ == crate::report::applied(
            old(report)@,
            first_reference_rules(refs@, refs@.len()),
        ),
{
    let ghost start = report@;
    let mut i: usize = 0;
    while i < refs.len()
        invariant
            i <= refs@.len(),
            report@ == crate::report::applied(start, first_reference_rules(refs@, i as nat)),
        decreases refs@.len() - i,
    {
        report.check_element(
            refs[i].frame_index as usize != i,
            "non_contiguous_frame_index",
            "frames",
            i,
            ".frame_index",
            "frame indexes must be contiguous and zero based",
        );
        report.check_element(
            is_repeated_key(refs, i),
            "duplicate_sample_key",
            "frames",
            i,
            ".sample_key",
            "sample keys must be unique",
        );
        report.check_element(
            i > 0 && refs[i].timestamp_ns <= refs[i - 1].timestamp_ns,
            "non_monotonic_timestamp",
            "frames",
            i,
            ".timestamp_ns",
            "timestamps must increase strictly",
        );
        i = i + 1;
    }
}

/// A frame that belongs to another sequence, split or target kind.
pub open spec fn foreign_frame(frame: FrameRecord, sequence: SequenceRecord) -> bool {
    ||| frame.sequence_id@ != sequence.sequence_id@
    ||| frame.split != sequence.split
    ||| frame.locator.target_kind != sequence.target_kind
}

/// A frame that differs from its reference.
pub open spec fn differs_from_reference(frame: FrameRecord, reference: SequenceFrameRef) -> bool {
    ||| frame.sample_key@ != reference.sample_key@
    ||| frame.frame_index != reference.frame_index
    ||| frame.timestamp_ns != reference.timestamp_ns
}

/// The translation of a recorded camera.
pub open spec fn recorded_position(frame: FrameRecord) -> Vec3 {
    frame.camera.world_from_camera.translation
}

/// What the first `n` frame records have to meet.
pub open spec fn first_record_rules(
    manifest: DatasetManifest,
    sequence: SequenceRecord,
    turns: SceneTurns,
    frames: Seq<FrameRecord>,
    n: nat,
) -> Seq<crate::report::Rule>
    decreases n,
{
    if n == 0 {
        Seq::empty()
    } else {
        let frame = frames[n - 1];
        let previous = if n == 1 {
            None
        } else {
            Some(recorded_position(frames[n - 2]))
        };
        first_record_rules(manifest, sequence, turns, frames, (n - 1) as nat)
            + crate::check_frame::frame_rules(manifest, frame) + camera_position_rules(
            crate::text::element("frame_records"@, n - 1, ".camera.world_from_camera.translation"@),
            recorded_position(frame),
            sequence.scene,
            turns,
            previous,
        ) + crate::report::error_if(
            foreign_frame(frame, sequence),
            "frame_sequence_mismatch"@,
            crate::text::element("frame_records"@, n - 1, ""@),
            "frame identity, split, and target kind must match the sequence"@,
        ) + crate::report::error_if(
            n <= sequence.frames@.len() && differs_from_reference(frame, sequence.frames@[n - 1]),
            "frame_reference_mismatch"@,
            crate::text::element("frame_records"@, n - 1, ""@),
            "frame record does not match the ordered sequence reference"@,
        )
    }
}

fn check_records(
    report: &mut ValidationReport,
    manifest: &DatasetManifest,
    sequence: &SequenceRecord,
    turns: &SceneTurns,
    frames: &[FrameRecord],
)
    requires
        turns.cover(sequence.scene),
    ensures
        final(report)@ == crate::report::applied(
            old(report)@,
            first_record_rules(*manifest, *sequence, *turns, frames@, frames@.len()),
        ),
{
    let ghost start = report@;
    let mut previous: Option<Vec3> = None;
    let mut i: usize = 0;
    while i < frames.len()
        invariant
            turns.cover(sequence.scene),
            i <= frames@.len(),
            previous == if i == 0 {
                None
            } else {
                Some(recorded_position(frames@[i - 1]))
            },
            report@ == crate::report::applied(
                start,
                first_record_rules(*manifest, *sequence, *turns, frames@, i as nat),
            ),
        decreases frames@.len() - i,
    {
        let frame = &frames[i];
        check_frame(report, manifest, frame);
        let position = frame.camera.world_from_camera.translation;
        validate_camera_position(
            report,
            &element_path("frame_records", i, ".camera.world_from_camera.translation"),
            position,
            &sequence.scene,
            turns,
            previous,
        );
        previous = Some(position);
        report.check_element(
            !same_text(&frame.sequence_id, &sequence.sequence_id) || frame.split != sequence.split
                || frame.locator.target_kind != sequence.target_kind,
            "frame_sequence_mismatch",
            "frame_records",
            i,
            "",
            "frame identity, split, and target kind must match the sequence",
        );
        let differs: bool = if i < sequence.frames.len() {
            let reference = &sequence.frames[i];
            !same_text(&frame.sample_key, &reference.sample_key) || frame.frame_index
                != reference.frame_index || frame.timestamp_ns != reference.timestamp_ns
        } else {
            false
        };
        report.check_element(
            differs,
            "frame_reference_mismatch",
            "frame_records",
            i,
            "",
            "frame record does not match the ordered sequence reference",
        );
        i = i + 1;
    }
}

/// Everything that a sequence and its frames have to meet under a manifest.
pub open spec fn sequence_rules(
    manifest: DatasetManifest,
    sequence: SequenceRecord,
    turns: SceneTurns,
    frames: Seq<FrameRecord>,
) -> Seq<crate::report::Rule> {
    crate::report::error_if(
        sequence.schema_version@ != manifest.schema_version@,
        "schema_mismatch"@,
        "schema_version"@,
        "sequence schema differs from dataset manifest"@,
    ) + crate::report::error_if(
        crate::text::blank(sequence.sequence_id@) || crate::text::blank(sequence.building_family@),
        "empty_sequence_identity"@,
        "sequence_id"@,
        "sequence and building-family IDs must not be empty"@,
    ) + crate::report::error_if(
        sequence.config_fingerprint@ != manifest.generator.config_fingerprint@,
        "config_fingerprint_mismatch"@,
        "config_fingerprint"@,
        "sequence was not generated with the manifest's recorded configuration"@,
    ) + crate::check_scene::sampled_scene_rules(sequence.scene, turns) + roof_kind_rules(
        sequence.target_kind,
        sequence.scene.ordinary_roof,
        "negative sequences must identify the ordinary roof they render"@,
        "target sequences cannot replace target geometry with an ordinary roof"@,
    ) + camera_motion_rules("camera_motion"@, sequence.camera_motion) + first_declared_rules(
        sequence.scene.composition.source_asset_ids@,
        manifest.source_assets@,
        sequence.source_asset_group,
        sequence.scene.composition.source_asset_ids@.len(),
    ) + split_rules(manifest.split_policy.assignment(sequence.key()), sequence.split)
        + crate::report::error_if(
        sequence.frames@.len() == 0,
        "empty_sequence"@,
        "frames"@,
        "sequence must contain at least one frame reference"@,
    ) + crate::report::error_if(
        sequence.frames@.len() != frames.len(),
        "frame_count_mismatch"@,
        "frames"@,
        "frame-reference and frame-record counts differ"@,
    ) + first_reference_rules(sequence.frames@, sequence.frames@.len()) + first_record_rules(
        manifest,
        sequence,
        turns,
        frames,
        frames.len(),
    )
}

impl SequenceRecord {
    /// The key under which the building of a sequence is split.
    pub open spec fn key(self) -> SplitKey {
        SplitKey {
            building_family: self.building_family,
            building_seed: self.building_seed,
            source_asset_group: self.source_asset_group,
        }
    }

    /// The key under which the building of this sequence is split.
    pub fn split_key(&self) -> (r: SplitKey)
        ensures
            r == self.key(),
    {
        let source_asset_group = match &self.source_asset_group {
            Some(group) => Some(group.clone()),
            None => None,
        };
        SplitKey {
            building_family: self.building_family.clone(),
            building_seed: self.building_seed,
            source_asset_group,
        }
    }
}

/// Context-aware validator for final frame and sequence records.
pub struct DatasetValidator<'a> {
    /// The manifest whose schema, taxonomy and split policy apply.
    pub manifest: &'a DatasetManifest,
}

impl<'a> DatasetValidator<'a> {
    /// Creates a validator using the manifest's schema, taxonomy, and split policy.
    pub fn new(manifest: &'a DatasetManifest) -> (r: Self)
        ensures
            r.manifest == manifest,
    {
        DatasetValidator { manifest }
    }

    /// Validates a single frame independently of its parent sequence file.
    pub fn validate_frame(&self, frame: &FrameRecord) -> (report: ValidationReport)
        ensures
            report@ == crate::report::broken(
                crate::check_frame::frame_rules(*self.manifest, *frame),
            ),
    {
        let mut report = ValidationReport::default();
        check_frame(&mut report, self.manifest, frame);
        report
    }

    /// Validates sequence ordering, split stability, and all supplied frame records, given
    /// the turns of the scene's yawed objects.
    pub fn validate_sequence(
        &self,
        sequence: &SequenceRecord,
        turns: &SceneTurns,
        frames: &[FrameRecord],
    ) -> (report: ValidationReport)
        requires
            turns.cover(sequence.scene),
        ensures
            report@ == crate::report::broken(
                sequence_rules(*self.manifest, *sequence, *turns, frames@),
            ),
    {
        let manifest = self.manifest;
        let mut report = ValidationReport::default();
        report.check(
            !same_text(&sequence.schema_version, &manifest.schema_version),
            "schema_mismatch",
            "schema_version",
            "sequence schema differs from dataset manifest",
        );
        report.check(
            is_blank(&sequence.sequence_id) || is_blank(&sequence.building_family),
            "empty_sequence_identity",
            "sequence_id",
            "sequence and building-family IDs must not be empty",
        );
        report.check(
            !same_text(&sequence.config_fingerprint, &manifest.generator.config_fingerprint),
            "config_fingerprint_mismatch",
            "config_fingerprint",
            "sequence was not generated with the manifest's recorded configuration",
        );
        validate_sampled_scene(&mut report, &sequence.scene, turns);
        check_roof_kind(
            &mut report,
            sequence.target_kind,
            sequence.scene.ordinary_roof,
            "negative sequences must identify the ordinary roof they render",
            "target sequences cannot replace target geometry with an ordinary roof",
        );
        validate_camera_motion_plan(&mut report, "camera_motion", sequence.camera_motion);
        check_declared(
            &mut report,
            &sequence.scene.composition.source_asset_ids,
            &manifest.source_assets,
            &sequence.source_asset_group,
        );
        let expected = manifest.split_policy.assign(&sequence.split_key());
        check_split(&mut report, expected, sequence.split);
        report.check(
            sequence.frames.is_empty(),
            "empty_sequence",
            "frames",
            "sequence must contain at least one frame reference",
        );
        report.check(
            sequence.frames.len() != frames.len(),
            "frame_count_mismatch",
            "frames",
            "frame-reference and frame-record counts differ",
        );
        check_reference(&mut report, &sequence.frames);
        check_records(&mut report, manifest, sequence, turns, frames);
        report
    }
}

proof fn lemma_planned(
    frames: Seq<CameraFramePlan>,
    scene: SampledScene,
    turns: SceneTurns,
    n: nat,
    i: int,
)
    requires
        crate::report::met(first_planned_rules(frames, scene, turns, n)),
        0 <= i < n,
    ensures
        frames[i].frame_index == i,
        i > 0 ==> frames[i - 1].timestamp_ns < frames[i].timestamp_ns,
        !beyond_ground(planned_position(frames[i]), scene.building.ground_half_extent_m),
        !inside_scene(planned_position(frames[i]), scene, turns),
        !obstructed(planned_position(frames[i]), scene, turns),
        i > 0 ==> !crosses_scene(
            planned_position(frames[i - 1]),
            planned_position(frames[i]),
            scene,
            turns,
        ),
        frames[i].camera.world_from_camera.is_valid(),
    decreases n,
{
    broadcast use crate::report::group_acceptance;

    if i < n - 1 {
        lemma_planned(frames, scene, turns, (n - 1) as nat, i);
    }
}

/// The frames of an accepted plan are numbered from zero without gaps.
pub proof fn accepted_plans_number_frames(plan: SequencePlan, turns: SceneTurns, i: int)
    requires
        crate::report::met(plan.rules(turns)),
        0 <= i < plan.frames@.len(),
    ensures
        plan.frames@[i].frame_index == i,
{
    broadcast use crate::report::group_acceptance;

    lemma_planned(plan.frames@, plan.scene, turns, plan.frames@.len(), i);
}

/// Time increases strictly from any frame of an accepted plan to any later one.
pub proof fn accepted_plans_advance_in_time(plan: SequencePlan, turns: SceneTurns, i: int, j: int)
    requires
        crate::report::met(plan.rules(turns)),
        0 <= i < j < plan.frames@.len(),
    ensures
        plan.frames@[i].timestamp_ns < plan.frames@[j].timestamp_ns,
    decreases j - i,
{
    broadcast use crate::report::group_acceptance;

    lemma_planned(plan.frames@, plan.scene, turns, plan.frames@.len(), j);
    if i < j - 1 {
        accepted_plans_advance_in_time(plan, turns, i, j - 1);
    }
}

/// No camera of an accepted plan leaves the ground, stands or moves in the clearance of
/// the building, an extension or a background building, or looks at the roof through a
/// background building.
pub proof fn accepted_cameras_are_clear(plan: SequencePlan, turns: SceneTurns, i: int)
    requires
        crate::report::met(plan.rules(turns)),
        0 <= i < plan.frames@.len(),
    ensures
        !beyond_ground(
            planned_position(plan.frames@[i]),
            plan.scene.building.ground_half_extent_m,
        ),
        !inside_scene(planned_position(plan.frames@[i]), plan.scene, turns),
        !obstructed(planned_position(plan.frames@[i]), plan.scene, turns),
        i > 0 ==> !crosses_scene(
            planned_position(plan.frames@[i - 1]),
            planned_position(plan.frames@[i]),
            plan.scene,
            turns,
        ),
        plan.frames@[i].camera.world_from_camera.is_valid(),
{
    broadcast use crate::report::group_acceptance;

    lemma_planned(plan.frames@, plan.scene, turns, plan.frames@.len(), i);
}

/// An accepted plan renders an ordinary roof exactly where it is a negative.
pub proof fn accepted_negatives_render_ordinary_roofs(plan: SequencePlan, turns: SceneTurns)
    requires
        crate::report::met(plan.rules(turns)),
    ensures
        plan.scene.ordinary_roof is Some <==> plan.request.target_kind == TargetKind::Negative,
{
    broadcast use crate::report::group_acceptance;

}

proof fn lemma_references(refs: Seq<SequenceFrameRef>, n: nat, i: int)
    requires
        crate::report::met(first_reference_rules(refs, n)),
        0 <= i < n,
    ensures
        refs[i].frame_index == i,
        !repeated_key(refs, i),
        i > 0 ==> refs[i - 1].timestamp_ns < refs[i].timestamp_ns,
    decreases n,
{
    broadcast use crate::report::group_acceptance;

    if i < n - 1 {
        lemma_references(refs, (n - 1) as nat, i);
    }
}

proof fn lemma_records(
    manifest: DatasetManifest,
    sequence: SequenceRecord,
    turns: SceneTurns,
    frames: Seq<FrameRecord>,
    n: nat,
    i: int,
)
    requires
        crate::report::met(first_record_rules(manifest, sequence, turns, frames, n)),
        0 <= i < n,
    ensures
        crate::report::met(crate::check_frame::frame_rules(manifest, frames[i])),
        !foreign_frame(frames[i], sequence),
        i < sequence.frames@.len() ==> !differs_from_reference(frames[i], sequence.frames@[i]),
    decreases n,
{
    broadcast use crate::report::group_acceptance;

    if i < n - 1 {
        lemma_records(manifest, sequence, turns, frames, (n - 1) as nat, i);
    }
}

/// The references of an accepted sequence are numbered from zero without gaps, have
/// distinct keys, and advance in time.
pub proof fn accepted_sequences_are_ordered(
    manifest: DatasetManifest,
    sequence: SequenceRecord,
    turns: SceneTurns,
    frames: Seq<FrameRecord>,
    i: int,
    j: int,
)
    requires
        crate::report::met(sequence_rules(manifest, sequence, turns, frames)),
        0 <= i < j < sequence.frames@.len(),
    ensures
        sequence.frames@[i].frame_index == i,
        sequence.frames@[i].sample_key@ != sequence.frames@[j].sample_key@,
        sequence.frames@[i].timestamp_ns < sequence.frames@[j].timestamp_ns,
    decreases j - i,
{
    broadcast use crate::report::group_acceptance;

    lemma_references(sequence.frames@, sequence.frames@.len(), i);
    lemma_references(sequence.frames@, sequence.frames@.len(), j);
    if i < j - 1 {
        accepted_sequences_are_ordered(manifest, sequence, turns, frames, i, j - 1);
    }
}

/// Every frame of an accepted sequence is acceptable by itself, belongs to the sequence,
/// and is the one that its reference names.
pub proof fn accepted_sequences_hold_their_frames(
    manifest: DatasetManifest,
    sequence: SequenceRecord,
    turns: SceneTurns,
    frames: Seq<FrameRecord>,
    i: int,
)
    requires
        crate::report::met(sequence_rules(manifest, sequence, turns, frames)),
        0 <= i < frames.len(),
    ensures
        frames.len() == sequence.frames@.len(),
        crate::report::met(crate::check_frame::frame_rules(manifest, frames[i])),
        frames[i].sequence_id@ == sequence.sequence_id@,
        frames[i].split == sequence.split,
        frames[i].locator.target_kind == sequence.target_kind,
        frames[i].sample_key@ == sequence.frames@[i].sample_key@,
        frames[i].frame_index == sequence.frames@[i].frame_index,
        frames[i].timestamp_ns == sequence.frames@[i].timestamp_ns,
{
    broadcast use crate::report::group_acceptance;

    lemma_records(manifest, sequence, turns, frames, frames.len(), i);
}

/// An accepted sequence, and so every frame of it, lies in the split that the policy
/// assigns to its building.
pub proof fn accepted_sequences_keep_their_split(
    manifest: DatasetManifest,
    sequence: SequenceRecord,
    turns: SceneTurns,
    frames: Seq<FrameRecord>,
)
    requires
        crate::report::met(sequence_rules(manifest, sequence, turns, frames)),
    ensures
        manifest.split_policy.assignment(sequence.key()) == Ok::<DatasetSplit, SplitPolicyError>(
            sequence.split,
        ),
{
    broadcast use crate::report::group_acceptance;

}

proof fn lemma_recorded(
    plan: SequencePlan,
    turns: SceneTurns,
    record: SequenceRecord,
    split: DatasetSplit,
    n: nat,
)
    requires
        crate::report::met(plan.rules(turns)),
        plan.recorded_as(record, split),
        n <= plan.frames@.len(),
    ensures
        crate::report::met(first_reference_rules(record.frames@, n)),
    decreases n,
{
    broadcast use crate::report::group_acceptance;

    if n == 0 {
        assert(crate::report::met(Seq::empty()));
    } else {
        lemma_recorded(plan, turns, record, split, (n - 1) as nat);
        accepted_plans_number_frames(plan, turns, n - 1);
        let refs = record.frames@;
        assert(refs[n - 1].frame_index == n - 1);
        if n > 1 {
            accepted_plans_advance_in_time(plan, turns, n - 2, n - 1);
            assert(refs[n - 2].timestamp_ns == plan.frames@[n - 2].timestamp_ns);
        }
        assert(!repeated_key(refs, n - 1)) by {
            if repeated_key(refs, n - 1) {
                let j = choose|j: int|
                    0 <= j < n - 1 && (#[trigger] refs[j]).sample_key@ == refs[n
                        - 1].sample_key@;
                accepted_plans_number_frames(plan, turns, j);
                crate::plan::frame_keys_are_unique(plan.sequence_id@, j, n - 1);
            }
        }
    }
}

/// The record of an accepted plan passes the rules on frame references: its keys are unique,
/// its indexes contiguous, and its times increase.
pub proof fn recorded_plans_stay_ordered(
    plan: SequencePlan,
    turns: SceneTurns,
    record: SequenceRecord,
    split: DatasetSplit,
)
    requires
        crate::report::met(plan.rules(turns)),
        plan.recorded_as(record, split),
    ensures
        crate::report::met(first_reference_rules(record.frames@, record.frames@.len())),
{
    lemma_recorded(plan, turns, record, split, plan.frames@.len());
}

/// Whatever a plan lacks is reported, each part for itself: no missing part of a composition
/// hides another.
pub proof fn missing_parts_are_all_reported(plan: SequencePlan, turns: SceneTurns)
    ensures
        plan.scene.composition.environment is None ==> crate::report::mentions(
            crate::report::broken(plan.rules(turns)),
            "missing_sampled_environment"@,
        ),
        plan.scene.composition.ground_material is None ==> crate::report::mentions(
            crate::report::broken(plan.rules(turns)),
            "missing_ground_material"@,
        ),
        plan.scene.composition.facade is None ==> crate::report::mentions(
            crate::report::broken(plan.rules(turns)),
            "missing_sampled_facade"@,
        ),
        plan.scene.composition.infrastructure is None ==> crate::report::mentions(
            crate::report::broken(plan.rules(turns)),
            "missing_site_infrastructure"@,
        ),
{
    broadcast use crate::report::group_breaches;

    reveal(crate::check_scene::sampled_scene_rules);
    let rules = plan.rules(turns);
    let composition = plan.scene.composition;
    if composition.environment is None {
        assert(crate::report::breaks(rules, "missing_sampled_environment"@));
        crate::report::broken_codes_are_mentioned(rules, "missing_sampled_environment"@);
    }
    if composition.ground_material is None {
        assert(crate::report::breaks(rules, "missing_ground_material"@));
        crate::report::broken_codes_are_mentioned(rules, "missing_ground_material"@);
    }
    if composition.facade is None {
        assert(crate::report::breaks(rules, "missing_sampled_facade"@));
        crate::report::broken_codes_are_mentioned(rules, "missing_sampled_facade"@);
    }
    if composition.infrastructure is None {
        assert(crate::report::breaks(rules, "missing_site_infrastructure"@));
        crate::report::broken_codes_are_mentioned(rules, "missing_site_infrastructure"@);
    }
}

} // verus!
