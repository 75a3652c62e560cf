//! Per-frame camera appearance metadata.

use synth_roof::appearance::{
    FrameAppearance, PHOTOMETRIC_PROFILE_VERSION, PhotometricProfile,
    PhotometricProfileValidationError,
};
use synth_roof::check_sequence::DatasetValidator;
use synth_roof::composition::DayPhase;
use synth_roof::manifest::{DatasetManifest, GeneratorDescriptor};
use synth_roof::record::{
    AssetRef, CameraIntrinsics, CameraModel, DistortionModel, FrameAssets, FrameIdentity,
    FrameRecord, ImageTransform, LocatorLabel, TargetKind,
};
use synth_roof::single::Single;
use synth_roof::split::DatasetSplit;
use synth_roof::types::RigidTransform;

fn s(value: f32) -> Single {
    Single::from_bits(value.to_bits())
}

fn valid_profile() -> PhotometricProfile {
    PhotometricProfile {
        schema_version: PHOTOMETRIC_PROFILE_VERSION,
        day_phase: DayPhase::Twilight,
        seed: 42,
        exposure_compensation_stops: s(0.1),
        white_balance_rgb: [s(0.98), s(1.0), s(1.03)],
        tint_green: s(1.01),
        response_contrast: s(1.02),
        response_shoulder: s(0.15),
        vignette_strength: s(0.08),
        vignette_power: s(1.7),
        shot_noise_stddev: s(0.004),
        read_noise_stddev: s(0.002),
        sharpening_amount: s(0.08),
        bloom_strength: s(0.02),
        bloom_threshold: s(0.8),
        jpeg_quality: 92,
        noise_seed: 84,
    }
}

fn profile() -> PhotometricProfile {
    PhotometricProfile {
        schema_version: PHOTOMETRIC_PROFILE_VERSION,
        day_phase: DayPhase::Night,
        seed: 7,
        exposure_compensation_stops: s(0.12),
        white_balance_rgb: [s(0.97), s(1.0), s(1.04)],
        tint_green: s(0.99),
        response_contrast: s(1.01),
        response_shoulder: s(0.2),
        vignette_strength: s(0.1),
        vignette_power: s(1.5),
        shot_noise_stddev: s(0.01),
        read_noise_stddev: s(0.004),
        sharpening_amount: s(0.06),
        bloom_strength: s(0.03),
        bloom_threshold: s(0.72),
        jpeg_quality: 90,
        noise_seed: 11,
    }
}

fn frame() -> FrameRecord {
    FrameRecord::new(
        FrameIdentity::new("sample-000", "sequence-000", 0, 0),
        DatasetSplit::Train,
        CameraModel {
            intrinsics: CameraIntrinsics {
                width: 640,
                height: 480,
                fx: s(500.0),
                fy: s(500.0),
                cx: s(320.0),
                cy: s(240.0),
                skew: s(0.0),
            },
            distortion: DistortionModel::Pinhole,
            world_from_camera: RigidTransform::identity(),
            output_from_sensor: ImageTransform::identity(),
        },
        LocatorLabel {
            target_kind: TargetKind::Negative,
            bounding_box: None,
            amodal_bounding_box: None,
            visible_fraction: s(0.0),
            occluded_fraction: s(0.0),
            truncated: false,
        },
        FrameAssets {
            rgb: AssetRef::new("sample-000.rgb.jpg", "image/jpeg", "jpeg"),
            surface_normals: None,
            motion_vectors: None,
        },
    )
}

fn manifest() -> DatasetManifest {
    DatasetManifest::new(
        "appearance-contract-test",
        GeneratorDescriptor::chacha20("test", "0", "stable64:test"),
        0,
    )
}

#[test]
fn validation_rejects_versions_non_finite_values_and_bounds() {
    let mut profile = valid_profile();
    profile.schema_version += 1;
    assert_eq!(
        profile.validate(),
        Err(PhotometricProfileValidationError::UnsupportedSchemaVersion(2))
    );

    profile = valid_profile();
    profile.white_balance_rgb[1] = s(f32::NAN);
    assert_eq!(
        profile.validate(),
        Err(PhotometricProfileValidationError::InvalidValue("white_balance_rgb"))
    );

    profile = valid_profile();
    profile.jpeg_quality = 85;
    assert_eq!(
        profile.validate(),
        Err(PhotometricProfileValidationError::InvalidValue("jpeg_quality"))
    );
    assert_eq!(valid_profile().validate(), Ok(()));
}

#[test]
fn dataset_validator_rejects_an_invalid_embedded_profile() {
    let mut invalid = frame();
    let mut invalid_profile = profile();
    invalid_profile.read_noise_stddev = s(f32::INFINITY);
    invalid.appearance.photometric_profile = Some(invalid_profile);

    let report = DatasetValidator::new(&manifest()).validate_frame(&invalid);
    assert!(report.issues.iter().any(|issue| {
        issue.code == "invalid_photometric_profile"
            && issue.path == "appearance.photometric_profile.read_noise_stddev"
    }));
}

#[test]
fn frames_without_a_profile_have_an_empty_appearance() {
    let mut record = frame();
    assert!(record.appearance.is_empty());
    assert_eq!(record.appearance, FrameAppearance::default());
    let manifest = manifest();
    let validator = DatasetValidator::new(&manifest);
    assert_eq!(validator.validate_frame(&record).error_count(), 0);
    record.appearance.photometric_profile = Some(profile());
    assert!(!record.appearance.is_empty());
    assert_eq!(validator.validate_frame(&record).error_count(), 0);
}

#[test]
fn profile_errors_name_their_field() {
    let version = PhotometricProfileValidationError::UnsupportedSchemaVersion(2);
    assert_eq!(version.field(), "schema_version");
    assert!(version.message().contains('2'));
    let value = PhotometricProfileValidationError::InvalidValue("tint_green");
    assert_eq!(value.field(), "tint_green");
    assert!(value.message().contains("tint_green"));
}
