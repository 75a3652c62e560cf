//! Rules for frame records.

use crate::appearance::PhotometricProfile;
use crate::check_values::unit;
use crate::manifest::{DatasetManifest, LabelClass, OutputDefinition};
use crate::record::{
    AssetRef, CameraIntrinsics, CameraModel, DenseLabelRefs, DistortionModel, EdgeLabel,
    EdgeVisibility, FrameRecord, ImageTransform, KeypointLabel, LocatorLabel,
    NormalizedBoundingBox, RoofInstanceRecord, RoofParameter, TargetKind, Visibility,
};
use crate::report::ValidationReport;
use crate::single::Single;
use crate::text::{element_path, is_blank, joined, path_escapes, same_text};
use crate::types::Vec2;
use vstd::prelude::*;

verus! {

broadcast use crate::report::group_rules;

/// Dimensions are positive, focal lengths are finite and positive, and every other term is finite.
pub open spec fn spec_sound_intrinsics(intrinsics: CameraIntrinsics) -> bool {
    &&& intrinsics.width != 0
    &&& intrinsics.height != 0
    &&& intrinsics.fx.is_finite() && Single::zero().less(intrinsics.fx)
    &&& intrinsics.fy.is_finite() && Single::zero().less(intrinsics.fy)
    &&& intrinsics.cx.is_finite()
    &&& intrinsics.cy.is_finite()
    &&& intrinsics.skew.is_finite()
}

/// Whether camera intrinsics are usable.
#[verifier::when_used_as_spec(spec_sound_intrinsics)]
pub fn sound_intrinsics(intrinsics: CameraIntrinsics) -> (r: bool)
    ensures
        r == spec_sound_intrinsics(intrinsics),
{
    intrinsics.width != 0 && intrinsics.height != 0 && intrinsics.fx.is_finite()
        && Single::zero().less(intrinsics.fx) && intrinsics.fy.is_finite() && Single::zero().less(
        intrinsics.fy,
    ) && intrinsics.cx.is_finite() && intrinsics.cy.is_finite() && intrinsics.skew.is_finite()
}

/// Every entry of an image transform is finite.
pub open spec fn finite_transform(transform: ImageTransform) -> bool {
    forall|i: int| 0 <= i < 9 ==> (#[trigger] transform.0@[i]).is_finite()
}

fn is_finite_transform(transform: &ImageTransform) -> (r: bool)
    ensures
        r == finite_transform(*transform),
{
    let mut i: usize = 0;
    while i < 9
        invariant
            i <= 9,
            forall|j: int| 0 <= j < i ==> (#[trigger] transform.0@[j]).is_finite(),
        decreases 9 - i,
    {
        if !transform.0[i].is_finite() {
            return false;
        }
        i = i + 1;
    }
    true
}

/// Determinant by expansion along the first row.
pub open spec fn determinant(m: Seq<Single>) -> Single {
    m[0].times(m[4].times(m[8]).minus(m[5].times(m[7]))).minus(
        m[1].times(m[3].times(m[8]).minus(m[5].times(m[6]))),
    ).plus(m[2].times(m[3].times(m[7]).minus(m[4].times(m[6]))))
}

fn find_determinant(transform: &ImageTransform) -> (r: Single)
    ensures
        r == determinant(transform.0@),
{
    let m = &transform.0;
    m[0].times(m[4].times(m[8]).minus(m[5].times(m[7]))).minus(
        m[1].times(m[3].times(m[8]).minus(m[5].times(m[6]))),
    ).plus(m[2].times(m[3].times(m[7]).minus(m[4].times(m[6]))))
}

/// Every coefficient of a lens model is finite.
pub open spec fn finite_distortion(distortion: DistortionModel) -> bool {
    match distortion {
        DistortionModel::Pinhole => true,
        DistortionModel::BrownConrady { k1, k2, p1, p2, k3 } => k1.is_finite() && k2.is_finite()
            && p1.is_finite() && p2.is_finite() && k3.is_finite(),
    }
}

fn is_finite_distortion(distortion: DistortionModel) -> (r: bool)
    ensures
        r == finite_distortion(distortion),
{
    match distortion {
        DistortionModel::Pinhole => true,
        DistortionModel::BrownConrady { k1, k2, p1, p2, k3 } => k1.is_finite() && k2.is_finite()
            && p1.is_finite() && p2.is_finite() && k3.is_finite(),
    }
}

/// What a recorded camera has to meet.
pub open spec fn camera_rules(camera: CameraModel) -> Seq<crate::report::Rule> {
    let det = determinant(camera.output_from_sensor.0@);
    crate::report::error_if(
        !sound_intrinsics(camera.intrinsics),
        "invalid_camera_intrinsics"@,
        "camera.intrinsics"@,
        "dimensions and all finite pinhole terms are required"@,
    ) + crate::report::error_if(
        !camera.world_from_camera.is_valid(),
        "invalid_camera_transform"@,
        "camera.world_from_camera"@,
        "camera transform must be finite with a unit quaternion"@,
    ) + crate::report::error_if(
        !finite_transform(camera.output_from_sensor),
        "invalid_image_transform"@,
        "camera.output_from_sensor"@,
        "image transform must contain only finite values"@,
    ) + crate::report::error_if(
        det.is_finite() && det.abs().at_most(Single::ratio(1, 8_388_608)),
        "singular_image_transform"@,
        "camera.output_from_sensor"@,
        "image transform must be invertible"@,
    ) + crate::report::error_if(
        !finite_distortion(camera.distortion),
        "invalid_distortion"@,
        "camera.distortion"@,
        "lens-distortion coefficients must be finite"@,
    )
}

/// Checks a recorded camera.
pub fn validate_camera(report: &mut ValidationReport, camera: &CameraModel)
    ensures
        final(report)@ == crate::report::applied(old(report)@, camera_rules(*camera)),
{
    report.check(
        !sound_intrinsics(camera.intrinsics),
        "invalid_camera_intrinsics",
        "camera.intrinsics",
        "dimensions and all finite pinhole terms are required",
    );
    report.check(
        !camera.world_from_camera.is_valid(),
        "invalid_camera_transform",
        "camera.world_from_camera",
        "camera transform must be finite with a unit quaternion",
    );
    report.check(
        !is_finite_transform(&camera.output_from_sensor),
        "invalid_image_transform",
        "camera.output_from_sensor",
        "image transform must contain only finite values",
    );
    let det = find_determinant(&camera.output_from_sensor);
    report.check(
        det.is_finite() && det.abs().at_most(Single::ratio(1, 8_388_608)),
        "singular_image_transform",
        "camera.output_from_sensor",
        "image transform must be invertible",
    );
    report.check(
        !is_finite_distortion(camera.distortion),
        "invalid_distortion",
        "camera.distortion",
        "lens-distortion coefficients must be finite",
    );
}

/// What a file reference has to meet. A missing digest is only a warning.
pub open spec fn asset_rules(path: Seq<char>, asset: AssetRef) -> Seq<crate::report::Rule> {
    crate::report::error_if(
        crate::text::blank(asset.path@) || crate::text::escapes(asset.path@),
        "unsafe_asset_path"@,
        path + ".path"@,
        "asset path must be non-empty, relative, and contain no parent traversal"@,
    ) + crate::report::error_if(
        crate::text::blank(asset.media_type@) || crate::text::blank(asset.encoding@),
        "incomplete_asset_encoding"@,
        path,
        "asset media type and encoding are required"@,
    ) + crate::report::warning_if(
        asset.content_hash is None,
        "missing_content_hash"@,
        path + ".content_hash"@,
        "writer should attach a digest before accepting the final shard"@,
    )
}

/// Checks a file reference.
pub fn validate_asset(report: &mut ValidationReport, path: &str, asset: &AssetRef)
    ensures
        final(report)@ == crate::report::applied(old(report)@, asset_rules(path@, *asset)),
{
    report.check_field(
        is_blank(&asset.path) || path_escapes(&asset.path),
        "unsafe_asset_path",
        path,
        ".path",
        "asset path must be non-empty, relative, and contain no parent traversal",
    );
    report.check(
        is_blank(&asset.media_type) || is_blank(&asset.encoding),
        "incomplete_asset_encoding",
        path,
        "asset media type and encoding are required",
    );
    if asset.content_hash.is_none() {
        report.warning(
            "missing_content_hash",
            &joined(path, ".content_hash"),
            "writer should attach a digest before accepting the final shard",
        );
    }
}

/// What an optional file reference has to meet where it is given.
pub open spec fn optional_asset_rules(path: Seq<char>, asset: Option<AssetRef>) -> Seq<
    crate::report::Rule,
> {
    match asset {
        Some(asset) => asset_rules(path, asset),
        None => Seq::empty(),
    }
}

fn check_optional_asset(report: &mut ValidationReport, path: &str, asset: &Option<AssetRef>)
    ensures
        final(report)@ == crate::report::applied(old(report)@, optional_asset_rules(path@, *asset)),
{
    if let Some(asset) = asset {
        validate_asset(report, path, asset);
    }
}

/// Finite and inside `[0, 1]` in both directions.
pub open spec fn spec_inside_image(point: Vec2) -> bool {
    point.is_finite() && point.x.within(Single::zero(), Single::one()) && point.y.within(
        Single::zero(),
        Single::one(),
    )
}

/// Whether a normalized point lies inside the image.
#[verifier::when_used_as_spec(spec_inside_image)]
pub fn inside_image(point: Vec2) -> (r: bool)
    ensures
        r == spec_inside_image(point),
{
    point.is_finite() && point.x.within(Single::zero(), Single::one()) && point.y.within(
        Single::zero(),
        Single::one(),
    )
}

/// Normalized bounds lie inside the image and are ordered.
pub open spec fn bounds_rules(path: Seq<char>, bounds: NormalizedBoundingBox) -> Seq<
    crate::report::Rule,
> {
    crate::report::error_if(
        !inside_image(bounds.min) || !inside_image(bounds.max) || bounds.max.x.at_most(bounds.min.x)
            || bounds.max.y.at_most(bounds.min.y),
        "invalid_bounding_box"@,
        path,
        "normalized bounds must be finite, ordered, and inside [0, 1]"@,
    )
}

/// Checks normalized bounds.
pub fn validate_bounds(report: &mut ValidationReport, path: &str, bounds: NormalizedBoundingBox)
    ensures
        final(report)@ == crate::report::applied(old(report)@, bounds_rules(path@, bounds)),
{
    report.check(
        !inside_image(bounds.min) || !inside_image(bounds.max) || bounds.max.x.at_most(bounds.min.x)
            || bounds.max.y.at_most(bounds.min.y),
        "invalid_bounding_box",
        path,
        "normalized bounds must be finite, ordered, and inside [0, 1]",
    );
}

/// What optional bounds have to meet where they are given.
pub open spec fn optional_bounds_rules(
    path: Seq<char>,
    bounds: Option<NormalizedBoundingBox>,
) -> Seq<crate::report::Rule> {
    match bounds {
        Some(bounds) => bounds_rules(path, bounds),
        None => Seq::empty(),
    }
}

/// What locator supervision has to meet.
pub open spec fn locator_rules(locator: LocatorLabel) -> Seq<crate::report::Rule> {
    crate::report::error_if(
        !unit(locator.visible_fraction),
        "invalid_fraction"@,
        "locator.visible_fraction"@,
        "fraction must be finite and inside [0, 1]"@,
    ) + crate::report::error_if(
        !unit(locator.occluded_fraction),
        "invalid_fraction"@,
        "locator.occluded_fraction"@,
        "fraction must be finite and inside [0, 1]"@,
    ) + optional_bounds_rules("locator.bounding_box"@, locator.bounding_box)
        + optional_bounds_rules("locator.amodal_bounding_box"@, locator.amodal_bounding_box)
}

/// Checks locator supervision.
pub fn validate_locator(report: &mut ValidationReport, locator: &LocatorLabel)
    ensures
        final(report)@ == crate::report::applied(old(report)@, locator_rules(*locator)),
{
    report.check(
        !unit(locator.visible_fraction),
        "invalid_fraction",
        "locator.visible_fraction",
        "fraction must be finite and inside [0, 1]",
    );
    report.check(
        !unit(locator.occluded_fraction),
        "invalid_fraction",
        "locator.occluded_fraction",
        "fraction must be finite and inside [0, 1]",
    );
    if let Some(bounds) = locator.bounding_box {
        validate_bounds(report, "locator.bounding_box", bounds);
    }
    if let Some(bounds) = locator.amodal_bounding_box {
        validate_bounds(report, "locator.amodal_bounding_box", bounds);
    }
}

/// What the embedded appearance profile has to meet.
pub open spec fn appearance_rules(profile: Option<PhotometricProfile>) -> Seq<crate::report::Rule> {
    match profile {
        Some(profile) => match profile.defect() {
            Some(field) => crate::report::error_if(
                true,
                "invalid_photometric_profile"@,
                "appearance.photometric_profile."@ + field,
                profile.defect_text(),
            ),
            None => Seq::empty(),
        },
        None => Seq::empty(),
    }
}

fn check_appearance(report: &mut ValidationReport, profile: &Option<PhotometricProfile>)
    ensures
        final(report)@ == crate::report::applied(old(report)@, appearance_rules(*profile)),
{
    if let Some(profile) = profile {
        if let Err(error) = profile.validate() {
            report.check_field(
                true,
                "invalid_photometric_profile",
                "appearance.photometric_profile.",
                error.field(),
                &error.message(),
            );
        }
    }
}

/// The dataset asks targets for masks before occlusion.
pub open spec fn requires_amodal(outputs: Seq<OutputDefinition>) -> bool {
    exists|i: int|
        0 <= i < outputs.len() && (#[trigger] outputs[i]).name@ == "amodal_roof_mask"@
            && outputs[i].required_for_targets
}

fn does_require_amodal(outputs: &Vec<OutputDefinition>) -> (r: bool)
    ensures
        r == requires_amodal(outputs@),
{
    let mut i: usize = 0;
    while i < outputs.len()
        invariant
            i <= outputs@.len(),
            forall|j: int|
                0 <= j < i ==> !((#[trigger] outputs@[j]).name@ == "amodal_roof_mask"@
                    && outputs@[j].required_for_targets),
        decreases outputs@.len() - i,
    {
        if outputs[i].required_for_targets && same_text(&outputs[i].name, "amodal_roof_mask") {
            return true;
        }
        i = i + 1;
    }
    false
}

/// A raster label that a target must have.
pub open spec fn dense_rules(path: Seq<char>, present: bool) -> Seq<crate::report::Rule> {
    crate::report::error_if(
        !present,
        "missing_dense_target"@,
        path,
        "target or near-miss frame requires this dense annotation"@,
    )
}

fn check_dense(report: &mut ValidationReport, path: &str, present: bool)
    ensures
        final(report)@ == crate::report::applied(old(report)@, dense_rules(path@, present)),
{
    report.check(
        !present,
        "missing_dense_target",
        path,
        "target or near-miss frame requires this dense annotation",
    );
}

/// What a target or near-miss frame must hold.
pub open spec fn target_rules(frame: FrameRecord, amodal: bool) -> Seq<crate::report::Rule> {
    let dense = frame.labels.dense;
    crate::report::error_if(
        frame.roof is None,
        "missing_roof_instance"@,
        "roof"@,
        "target or near-miss frame requires roof geometry"@,
    ) + crate::report::error_if(
        Single::zero().less(frame.locator.visible_fraction) && frame.locator.bounding_box is None,
        "missing_target_box"@,
        "locator.bounding_box"@,
        "a visible target or near-miss frame requires a bounding box"@,
    ) + crate::report::error_if(
        amodal && frame.locator.amodal_bounding_box is None,
        "missing_amodal_target_box"@,
        "locator.amodal_bounding_box"@,
        "current target records require bounds before scene occlusion"@,
    ) + dense_rules("labels.dense.roof_mask"@, dense.roof_mask is Some) + dense_rules(
        "labels.dense.amodal_roof_mask"@,
        !amodal || dense.amodal_roof_mask is Some,
    ) + dense_rules("labels.dense.part_mask"@, dense.part_mask is Some) + dense_rules(
        "labels.dense.face_id_map"@,
        dense.face_id_map is Some,
    ) + dense_rules("labels.dense.face_coordinates"@, dense.face_coordinates is Some)
        + crate::report::error_if(
        frame.labels.keypoints@.len() == 0 || frame.labels.edges@.len() == 0,
        "missing_structural_labels"@,
        "labels"@,
        "target or near-miss frame requires keypoint and edge annotations"@,
    )
}

fn check_target(report: &mut ValidationReport, frame: &FrameRecord, amodal: bool)
    ensures
        final(report)@ == crate::report::applied(old(report)@, target_rules(*frame, amodal)),
{
    let dense: &DenseLabelRefs = &frame.labels.dense;
    report.check(
        frame.roof.is_none(),
        "missing_roof_instance",
        "roof",
        "target or near-miss frame requires roof geometry",
    );
    report.check(
        Single::zero().less(frame.locator.visible_fraction)
            && frame.locator.bounding_box.is_none(),
        "missing_target_box",
        "locator.bounding_box",
        "a visible target or near-miss frame requires a bounding box",
    );
    report.check(
        amodal && frame.locator.amodal_bounding_box.is_none(),
        "missing_amodal_target_box",
        "locator.amodal_bounding_box",
        "current target records require bounds before scene occlusion",
    );
    check_dense(report, "labels.dense.roof_mask", dense.roof_mask.is_some());
    check_dense(
        report,
        "labels.dense.amodal_roof_mask",
        !amodal || dense.amodal_roof_mask.is_some(),
    );
    check_dense(report, "labels.dense.part_mask", dense.part_mask.is_some());
    check_dense(report, "labels.dense.face_id_map", dense.face_id_map.is_some());
    check_dense(report, "labels.dense.face_coordinates", dense.face_coordinates.is_some());
    report.check(
        frame.labels.keypoints.is_empty() || frame.labels.edges.is_empty(),
        "missing_structural_labels",
        "labels",
        "target or near-miss frame requires keypoint and edge annotations",
    );
}

/// Neither a roof instance nor any structural label.
pub open spec fn without_target_geometry(frame: FrameRecord) -> bool {
    frame.roof is None && frame.labels.is_empty()
}

/// What a negative frame must not hold.
pub open spec fn negative_rules(frame: FrameRecord) -> Seq<crate::report::Rule> {
    crate::report::error_if(
        frame.locator.bounding_box is Some || frame.locator.amodal_bounding_box is Some,
        "negative_has_target_box"@,
        "locator.bounding_box"@,
        "ordinary-building negative frame cannot have a target bounding box"@,
    ) + crate::report::error_if(
        !without_target_geometry(frame),
        "negative_has_target_geometry"@,
        "labels"@,
        "ordinary-building negatives must have no target roof instance or structural labels"@,
    ) + crate::report::error_if(
        !frame.locator.visible_fraction.equals(Single::zero())
            || !frame.locator.occluded_fraction.equals(Single::zero()) || frame.locator.truncated,
        "negative_has_target_coverage"@,
        "locator"@,
        "ordinary-building negatives must have zero target coverage and no target truncation"@,
    )
}

fn check_negative(report: &mut ValidationReport, frame: &FrameRecord)
    ensures
        final(report)@ == crate::report::applied(old(report)@, negative_rules(*frame)),
{
    let dense: &DenseLabelRefs = &frame.labels.dense;
    report.check(
        frame.locator.bounding_box.is_some() || frame.locator.amodal_bounding_box.is_some(),
        "negative_has_target_box",
        "locator.bounding_box",
        "ordinary-building negative frame cannot have a target bounding box",
    );
    report.check(
        frame.roof.is_some() || !frame.labels.keypoints.is_empty()
            || !frame.labels.edges.is_empty() || dense.roof_mask.is_some()
            || dense.amodal_roof_mask.is_some() || dense.part_mask.is_some()
            || dense.face_id_map.is_some() || dense.face_coordinates.is_some(),
        "negative_has_target_geometry",
        "labels",
        "ordinary-building negatives must have no target roof instance or structural labels",
    );
    report.check(
        !frame.locator.visible_fraction.equals(Single::zero())
            || !frame.locator.occluded_fraction.equals(Single::zero()) || frame.locator.truncated,
        "negative_has_target_coverage",
        "locator",
        "ordinary-building negatives must have zero target coverage and no target truncation",
    );
}

/// Every parameter value is finite.
pub open spec fn finite_parameters(parameters: Seq<RoofParameter>) -> bool {
    forall|i: int| 0 <= i < parameters.len() ==> (#[trigger] parameters[i]).value.is_finite()
}

fn are_finite_parameters(parameters: &Vec<RoofParameter>) -> (r: bool)
    ensures
        r == finite_parameters(parameters@),
{
    let mut i: usize = 0;
    while i < parameters.len()
        invariant
            i <= parameters@.len(),
            forall|j: int| 0 <= j < i ==> (#[trigger] parameters@[j]).value.is_finite(),
        decreases parameters@.len() - i,
    {
        if !parameters[i].value.is_finite() {
            return false;
        }
        i = i + 1;
    }
    true
}

/// What a roof instance has to meet where it is given.
pub open spec fn roof_instance_rules(roof: Option<RoofInstanceRecord>) -> Seq<crate::report::Rule> {
    match roof {
        Some(roof) => crate::report::error_if(
            crate::text::blank(roof.family@) || !roof.world_from_roof.is_valid(),
            "invalid_roof_instance"@,
            "roof"@,
            "roof family and world transform must be valid"@,
        ) + crate::report::error_if(
            !finite_parameters(roof.parameters@),
            "non_finite_roof_parameter"@,
            "roof.parameters"@,
            "all roof parameters must be finite"@,
        ),
        None => Seq::empty(),
    }
}

fn check_roof_instance(report: &mut ValidationReport, roof: &Option<RoofInstanceRecord>)
    ensures
        final(report)@ == crate::report::applied(old(report)@, roof_instance_rules(*roof)),
{
    if let Some(roof) = roof {
        report.check(
            is_blank(&roof.family) || !roof.world_from_roof.is_valid(),
            "invalid_roof_instance",
            "roof",
            "roof family and world transform must be valid",
        );
        report.check(
            !are_finite_parameters(&roof.parameters),
            "non_finite_roof_parameter",
            "roof.parameters",
            "all roof parameters must be finite",
        );
    }
}

/// What the raster labels have to meet where they are given.
pub open spec fn dense_files_rules(dense: DenseLabelRefs) -> Seq<crate::report::Rule> {
    optional_asset_rules("labels.dense.roof_mask"@, dense.roof_mask) + optional_asset_rules(
        "labels.dense.amodal_roof_mask"@,
        dense.amodal_roof_mask,
    ) + optional_asset_rules("labels.dense.part_mask"@, dense.part_mask) + optional_asset_rules(
        "labels.dense.face_id_map"@,
        dense.face_id_map,
    ) + optional_asset_rules("labels.dense.face_coordinates"@, dense.face_coordinates)
        + crate::report::error_if(
        dense.face_coordinates is Some && dense.face_id_map is None,
        "orphan_face_coordinates"@,
        "labels.dense.face_coordinates"@,
        "face-coordinate output requires a face-ID map"@,
    )
}

fn check_dense_files(report: &mut ValidationReport, dense: &DenseLabelRefs)
    ensures
        final(report)@ == crate::report::applied(old(report)@, dense_files_rules(*dense)),
{
    check_optional_asset(report, "labels.dense.roof_mask", &dense.roof_mask);
    check_optional_asset(report, "labels.dense.amodal_roof_mask", &dense.amodal_roof_mask);
    check_optional_asset(report, "labels.dense.part_mask", &dense.part_mask);
    check_optional_asset(report, "labels.dense.face_id_map", &dense.face_id_map);
    check_optional_asset(report, "labels.dense.face_coordinates", &dense.face_coordinates);
    report.check(
        dense.face_coordinates.is_some() && dense.face_id_map.is_none(),
        "orphan_face_coordinates",
        "labels.dense.face_coordinates",
        "face-coordinate output requires a face-ID map",
    );
}

/// A taxonomy defines the class.
pub open spec fn defines_class(classes: Seq<LabelClass>, id: u16) -> bool {
    exists|i: int| 0 <= i < classes.len() && (#[trigger] classes[i]).id == id
}

fn does_define_class(classes: &Vec<LabelClass>, id: u16) -> (r: bool)
    ensures
        r == defines_class(classes@, id),
{
    let mut i: usize = 0;
    while i < classes.len()
        invariant
            i <= classes@.len(),
            forall|j: int| 0 <= j < i ==> (#[trigger] classes@[j]).id != id,
        decreases classes@.len() - i,
    {
        if classes[i].id == id {
            return true;
        }
        i = i + 1;
    }
    false
}

/// What the projection of a keypoint has to be, by its visibility.
pub open spec fn projection_rules(path: Seq<char>, keypoint: KeypointLabel) -> Seq<
    crate::report::Rule,
> {
    match keypoint.visibility {
        Visibility::Visible | Visibility::Occluded => crate::report::error_if(
            !(keypoint.image_position is Some && inside_image(keypoint.image_position->0)),
            "invalid_visible_projection"@,
            path + ".image_position"@,
            "visible or occluded point requires an in-frame projection"@,
        ),
        Visibility::Truncated => crate::report::error_if(
            !(keypoint.image_position is Some && keypoint.image_position->0.is_finite()),
            "invalid_truncated_projection"@,
            path + ".image_position"@,
            "truncated point requires its finite pre-clip projection"@,
        ),
        Visibility::BehindCamera => crate::report::error_if(
            keypoint.image_position is Some,
            "invalid_behind_camera_projection"@,
            path + ".image_position"@,
            "behind-camera point must not have an image projection"@,
        ),
    }
}

/// Checks the projection of a keypoint against its visibility.
pub fn validate_keypoint_projection(
    report: &mut ValidationReport,
    path: &str,
    keypoint: &KeypointLabel,
)
    ensures
        final(report)@ == crate::report::applied(old(report)@, projection_rules(path@, *keypoint)),
{
    match keypoint.visibility {
        Visibility::Visible | Visibility::Occluded => {
            let inside: bool = match keypoint.image_position {
                Some(point) => inside_image(point),
                None => false,
            };
            report.check_field(
                !inside,
                "invalid_visible_projection",
                path,
                ".image_position",
                "visible or occluded point requires an in-frame projection",
            );
        },
        Visibility::Truncated => {
            let finite: bool = match keypoint.image_position {
                Some(point) => point.is_finite(),
                None => false,
            };
            report.check_field(
                !finite,
                "invalid_truncated_projection",
                path,
                ".image_position",
                "truncated point requires its finite pre-clip projection",
            );
        },
        Visibility::BehindCamera => {
            report.check_field(
                keypoint.image_position.is_some(),
                "invalid_behind_camera_projection",
                path,
                ".image_position",
                "behind-camera point must not have an image projection",
            );
        },
    }
}

/// The keypoint instance occurs earlier in the frame.
pub open spec fn repeated_keypoint(keypoints: Seq<KeypointLabel>, i: int) -> bool {
    exists|j: int| 0 <= j < i && (#[trigger] keypoints[j]).instance_id == keypoints[i].instance_id
}

fn is_repeated_keypoint(keypoints: &Vec<KeypointLabel>, i: usize) -> (r: bool)
    requires
        i < keypoints@.len(),
    ensures
        r == repeated_keypoint(keypoints@, i as int),
{
    let mut j: usize = 0;
    while j < i
        invariant
            j <= i < keypoints@.len(),
            forall|k: int|
                0 <= k < j ==> (#[trigger] keypoints@[k]).instance_id
                    != keypoints@[i as int].instance_id,
        decreases i - j,
    {
        if keypoints[j].instance_id == keypoints[i].instance_id {
            return true;
        }
        j = j + 1;
    }
    false
}

/// What the first `n` keypoints have to meet.
pub open spec fn first_keypoint_rules(
    classes: Seq<LabelClass>,
    keypoints: Seq<KeypointLabel>,
    n: nat,
) -> Seq<crate::report::Rule>
    decreases n,
{
    if n == 0 {
        Seq::empty()
    } else {
        let keypoint = keypoints[n - 1];
        let path = crate::text::element("labels.keypoints"@, n - 1, ""@);
        first_keypoint_rules(classes, keypoints, (n - 1) as nat) + crate::report::error_if(
            !defines_class(classes, keypoint.class_id),
            "unknown_keypoint_class"@,
            path + ".class_id"@,
            "class is absent from manifest taxonomy"@,
        ) + crate::report::error_if(
            repeated_keypoint(keypoints, n - 1),
            "duplicate_keypoint_instance"@,
            path + ".instance_id"@,
            "keypoint instance IDs must be unique within a frame"@,
        ) + crate::report::error_if(
            !keypoint.roof_position.is_finite(),
            "non_finite_keypoint"@,
            path + ".roof_position"@,
            "roof position must be finite"@,
        ) + projection_rules(path, keypoint)
    }
}

fn check_keypoints(
    report: &mut ValidationReport,
    classes: &Vec<LabelClass>,
    keypoints: &Vec<KeypointLabel>,
)
    ensures
        final(report)@ == crate::report::applied(
            old(report)@,
            first_keypoint_rules(classes@, keypoints@, keypoints@.len()),
        ),
{
    let ghost start = report@;
    let mut i: usize = 0;
    while i < keypoints.len()
        invariant
            i <= keypoints@.len(),
            report@ == crate::report::applied(
                start,
                first_keypoint_rules(classes@, keypoints@, i as nat),
            ),
        decreases keypoints@.len() - i,
    {
        let keypoint = &keypoints[i];
        let path = element_path("labels.keypoints", i, "");
        report.check_field(
            !does_define_class(classes, keypoint.class_id),
            "unknown_keypoint_class",
            &path,
            ".class_id",
            "class is absent from manifest taxonomy",
        );
        report.check_field(
            is_repeated_keypoint(keypoints, i),
            "duplicate_keypoint_instance",
            &path,
            ".instance_id",
            "keypoint instance IDs must be unique within a frame",
        );
        report.check_field(
            !keypoint.roof_position.is_finite(),
            "non_finite_keypoint",
            &path,
            ".roof_position",
            "roof position must be finite",
        );
        validate_keypoint_projection(report, &path, keypoint);
        i = i + 1;
    }
}

/// The edge instance occurs earlier in the frame.
pub open spec fn repeated_edge(edges: Seq<EdgeLabel>, i: int) -> bool {
    exists|j: int| 0 <= j < i && (#[trigger] edges[j]).instance_id == edges[i].instance_id
}

fn is_repeated_edge(edges: &Vec<EdgeLabel>, i: usize) -> (r: bool)
    requires
        i < edges@.len(),
    ensures
        r == repeated_edge(edges@, i as int),
{
    let mut j: usize = 0;
    while j < i
        invariant
            j <= i < edges@.len(),
            forall|k: int|
                0 <= k < j ==> (#[trigger] edges@[k]).instance_id != edges@[i as int].instance_id,
        decreases i - j,
    {
        if edges[j].instance_id == edges[i].instance_id {
            return true;
        }
        j = j + 1;
    }
    false
}

/// Every point is finite.
pub open spec fn finite_polyline(points: Seq<Vec2>) -> bool {
    forall|i: int| 0 <= i < points.len() ==> (#[trigger] points[i]).is_finite()
}

/// Every point lies inside the image.
pub open spec fn polyline_inside_image(points: Seq<Vec2>) -> bool {
    forall|i: int| 0 <= i < points.len() ==> inside_image(#[trigger] points[i])
}

fn is_finite_polyline(points: &Vec<Vec2>) -> (r: bool)
    ensures
        r == finite_polyline(points@),
{
    let mut i: usize = 0;
    while i < points.len()
        invariant
            i <= points@.len(),
            forall|j: int| 0 <= j < i ==> (#[trigger] points@[j]).is_finite(),
        decreases points@.len() - i,
    {
        if !points[i].is_finite() {
            return false;
        }
        i = i + 1;
    }
    true
}

fn is_polyline_inside_image(points: &Vec<Vec2>) -> (r: bool)
    ensures
        r == polyline_inside_image(points@),
{
    let mut i: usize = 0;
    while i < points.len()
        invariant
            i <= points@.len(),
            forall|j: int| 0 <= j < i ==> inside_image(#[trigger] points@[j]),
        decreases points@.len() - i,
    {
        if !inside_image(points[i]) {
            return false;
        }
        i = i + 1;
    }
    true
}

/// A visible or partly visible edge needs a line, and no line has a single point.
pub open spec fn short_polyline(edge: EdgeLabel) -> bool {
    let len = edge.polyline@.len();
    ||| len == 1
    ||| len < 2 && (edge.visibility == EdgeVisibility::Visible || edge.visibility
        == EdgeVisibility::PartiallyOccluded)
}

/// What the first `n` edges have to meet.
pub open spec fn first_edge_rules(classes: Seq<LabelClass>, edges: Seq<EdgeLabel>, n: nat) -> Seq<
    crate::report::Rule,
>
    decreases n,
{
    if n == 0 {
        Seq::empty()
    } else {
        let edge = edges[n - 1];
        let path = crate::text::element("labels.edges"@, n - 1, ""@);
        first_edge_rules(classes, edges, (n - 1) as nat) + crate::report::error_if(
            !defines_class(classes, edge.class_id),
            "unknown_edge_class"@,
            path + ".class_id"@,
            "class is absent from manifest taxonomy"@,
        ) + crate::report::error_if(
            repeated_edge(edges, n - 1),
            "duplicate_edge_instance"@,
            path + ".instance_id"@,
            "edge instance IDs must be unique within a frame"@,
        ) + crate::report::error_if(
            short_polyline(edge),
            "short_edge_polyline"@,
            path + ".polyline"@,
            "projected edge requires at least two points"@,
        ) + crate::report::error_if(
            !finite_polyline(edge.polyline@),
            "non_finite_edge"@,
            path + ".polyline"@,
            "edge points must be finite"@,
        ) + crate::report::error_if(
            edge.visibility == EdgeVisibility::Visible && !polyline_inside_image(edge.polyline@),
            "visible_edge_outside_image"@,
            path + ".polyline"@,
            "fully visible edge points must lie inside normalized image bounds"@,
        )
    }
}

fn check_edges(report: &mut ValidationReport, classes: &Vec<LabelClass>, edges: &Vec<EdgeLabel>)
    ensures
        final(report)@ == crate::report::applied(
            old(report)@,
            first_edge_rules(classes@, edges@, edges@.len()),
        ),
{
    let ghost start = report@;
    let mut i: usize = 0;
    while i < edges.len()
        invariant
            i <= edges@.len(),
            report@ == crate::report::applied(start, first_edge_rules(classes@, edges@, i as nat)),
        decreases edges@.len() - i,
    {
        let edge = &edges[i];
        let path = element_path("labels.edges", i, "");
        let len: usize = edge.polyline.len();
        report.check_field(
            !does_define_class(classes, edge.class_id),
            "unknown_edge_class",
            &path,
            ".class_id",
            "class is absent from manifest taxonomy",
        );
        report.check_field(
            is_repeated_edge(edges, i),
            "duplicate_edge_instance",
            &path,
            ".instance_id",
            "edge instance IDs must be unique within a frame",
        );
        report.check_field(
            len == 1 || (len < 2 && (edge.visibility == EdgeVisibility::Visible || edge.visibility
                == EdgeVisibility::PartiallyOccluded)),
            "short_edge_polyline",
            &path,
            ".polyline",
            "projected edge requires at least two points",
        );
        report.check_field(
            !is_finite_polyline(&edge.polyline),
            "non_finite_edge",
            &path,
            ".polyline",
            "edge points must be finite",
        );
        report.check_field(
            edge.visibility == EdgeVisibility::Visible && !is_polyline_inside_image(&edge.polyline),
            "visible_edge_outside_image",
            &path,
            ".polyline",
            "fully visible edge points must lie inside normalized image bounds",
        );
        i = i + 1;
    }
}

/// What a frame has to meet by its target kind.
pub open spec fn kind_rules(manifest: DatasetManifest, frame: FrameRecord) -> Seq<
    crate::report::Rule,
> {
    match frame.locator.target_kind {
        TargetKind::Target | TargetKind::NearMiss => target_rules(
            frame,
            requires_amodal(manifest.outputs@),
        ),
        TargetKind::Negative => negative_rules(frame),
    }
}

/// Everything that a frame has to meet under a manifest.
#[verifier::opaque]
pub open spec fn frame_rules(manifest: DatasetManifest, frame: FrameRecord) -> Seq<
    crate::report::Rule,
> {
    crate::report::error_if(
        frame.schema_version@ != manifest.schema_version@,
        "schema_mismatch"@,
        "schema_version"@,
        "frame schema differs from dataset manifest"@,
    ) + crate::report::error_if(
        crate::text::blank(frame.sample_key@) || crate::text::blank(frame.sequence_id@),
        "empty_record_id"@,
        "sample_key"@,
        "sample and sequence IDs must not be empty"@,
    ) + camera_rules(frame.camera) + asset_rules("assets.rgb"@, frame.assets.rgb)
        + optional_asset_rules("assets.surface_normals"@, frame.assets.surface_normals)
        + optional_asset_rules("assets.motion_vectors"@, frame.assets.motion_vectors)
        + appearance_rules(frame.appearance.photometric_profile) + locator_rules(frame.locator)
        + kind_rules(manifest, frame) + roof_instance_rules(frame.roof) + dense_files_rules(
        frame.labels.dense,
    ) + first_keypoint_rules(
        manifest.labels.keypoints@,
        frame.labels.keypoints@,
        frame.labels.keypoints@.len(),
    ) + first_edge_rules(manifest.labels.edges@, frame.labels.edges@, frame.labels.edges@.len())
}

/// Checks a frame against the manifest's schema, outputs and taxonomy.
pub fn check_frame(report: &mut ValidationReport, manifest: &DatasetManifest, frame: &FrameRecord)
    ensures
        final(report)@ == crate::report::applied(old(report)@, frame_rules(*manifest, *frame)),
{
    proof {
        reveal(frame_rules);
    }
    report.check(
        !same_text(&frame.schema_version, &manifest.schema_version),
        "schema_mismatch",
        "schema_version",
        "frame schema differs from dataset manifest",
    );
    report.check(
        is_blank(&frame.sample_key) || is_blank(&frame.sequence_id),
        "empty_record_id",
        "sample_key",
        "sample and sequence IDs must not be empty",
    );
    validate_camera(report, &frame.camera);
    validate_asset(report, "assets.rgb", &frame.assets.rgb);
    check_optional_asset(report, "assets.surface_normals", &frame.assets.surface_normals);
    check_optional_asset(report, "assets.motion_vectors", &frame.assets.motion_vectors);
    check_appearance(report, &frame.appearance.photometric_profile);
    validate_locator(report, &frame.locator);
    match frame.locator.target_kind {
        TargetKind::Target | TargetKind::NearMiss => {
            let amodal: bool = does_require_amodal(&manifest.outputs);
            check_target(report, frame, amodal);
        },
        TargetKind::Negative => {
            check_negative(report, frame);
        },
    }
    check_roof_instance(report, &frame.roof);
    check_dense_files(report, &frame.labels.dense);
    check_keypoints(report, &manifest.labels.keypoints, &frame.labels.keypoints);
    check_edges(report, &manifest.labels.edges, &frame.labels.edges);
}

/// A negative frame that is accepted holds no roof instance, no structural label, no
/// box and no coverage: an ordinary building never carries target supervision.
pub proof fn accepted_negatives_hold_no_target(manifest: DatasetManifest, frame: FrameRecord)
    requires
        frame.locator.target_kind == TargetKind::Negative,
        crate::report::met(frame_rules(manifest, frame)),
    ensures
        without_target_geometry(frame),
        frame.locator.bounding_box is None,
        frame.locator.amodal_bounding_box is None,
        frame.locator.visible_fraction.equals(Single::zero()),
        frame.locator.occluded_fraction.equals(Single::zero()),
        !frame.locator.truncated,
{
    broadcast use crate::report::group_acceptance;

    reveal(frame_rules);
}

} // verus!
