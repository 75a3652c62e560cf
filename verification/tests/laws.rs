//! Single steps of sampling, splitting and drawing on chosen values.

use synth_roof::assets::{EquirectangularImage, column_longitude};
use synth_roof::choice::{facade_side, opposite_facade, pick, sum_weights};
use synth_roof::deterministic::stable_hash64;
use synth_roof::geometry::{
    Aabb, Turn, point_inside_aabb, rotated_half_extents, segment_intersects_aabb,
};
use synth_roof::mips::{average_linear, average_normal};
use synth_roof::plan::{OrdinaryRoofFamily, SequenceRequest, frame_key, sequence_id};
use synth_roof::record::TargetKind;
use synth_roof::report::ValidationReport;
use synth_roof::sampler::config_fingerprint;
use synth_roof::scene::{RenderEnvironment, SceneDescription};
use synth_roof::single::Single;
use synth_roof::split::{DatasetSplit, SplitKey, SplitPolicy, SplitPolicyError};
use synth_roof::types::Vec3;

fn s(value: f32) -> Single {
    Single::from_bits(value.to_bits())
}

fn f(value: Single) -> f32 {
    f32::from_bits(value.to_bits())
}

#[test]
fn sums_and_products_commute() {
    for (x, y) in [(0.1, 0.2), (1.0e30, -3.5), (7.25, 1.0e-40), (-0.0, 0.0)] {
        assert_eq!(s(x).plus(s(y)), s(y).plus(s(x)));
        assert_eq!(s(x).times(s(y)), s(y).times(s(x)));
    }
}

#[test]
fn sums_that_fit_are_exact() {
    assert_eq!(f(s(1.5).plus(s(2.25))), 3.75);
    assert_eq!(f(s(16_777_215.0).plus(s(1.0))), 16_777_216.0);
    assert_eq!(f(s(0.5).plus(s(-0.5))), 0.0);
}

#[test]
fn rounding_and_sums_keep_the_order() {
    let third = Single::ratio(1, 3);
    let more = Single::ratio(33_333_334, 100_000_000);
    assert!(third.at_most(more));
    let large = s(1.0e8);
    assert!(large.plus(third).at_most(large.plus(more)));
    assert!(large.at_most(large.plus(third)));
    assert_eq!(large.plus(third), large);
}

#[test]
fn fractions_lie_in_the_unit_interval() {
    for (num, den) in [(0, 1), (1, 1), (1, u32::MAX), (i32::MAX, i32::MAX as u32), (2, 7)] {
        assert!(Single::ratio(num, den).within(Single::zero(), Single::one()));
    }
}

#[test]
fn entries_are_picked_by_as_many_draws_as_their_weight() {
    let weights = vec![3, 0, 5, 1];
    assert_eq!(sum_weights(&weights), 9);
    let picked: Vec<usize> = (0..9).map(|draw| pick(&weights, draw)).collect();
    assert_eq!(picked, vec![0, 0, 0, 2, 2, 2, 2, 2, 3]);
}

#[test]
fn opposite_facades_pair_up() {
    for number in 0..4 {
        let side = facade_side(number);
        assert_ne!(opposite_facade(side), side);
        assert_eq!(opposite_facade(opposite_facade(side)), side);
    }
}

#[test]
fn family_names_are_complete_and_unique() {
    for family in OrdinaryRoofFamily::ALL {
        let name = family.as_str();
        assert_eq!(OrdinaryRoofFamily::from_building_family(name), Some(family));
        let prefixed = format!("ordinary_{name}");
        assert_eq!(OrdinaryRoofFamily::from_building_family(&prefixed), Some(family));
        let others = OrdinaryRoofFamily::ALL.iter().filter(|other| other.as_str() == name);
        assert_eq!(others.count(), 1);
    }
    assert_eq!(OrdinaryRoofFamily::from_building_family("classic_two_stage"), None);
}

#[test]
fn split_keys_and_policies_name_what_is_wrong_with_them() {
    let policy = SplitPolicy::default();
    let blank = SplitKey::procedural(" ", 1);
    assert_eq!(policy.assign(&blank), Err(SplitPolicyError::EmptyBuildingFamily));
    let mut ungrouped = SplitKey::procedural("classic_two_stage", 1);
    ungrouped.source_asset_group = Some(String::new());
    assert_eq!(policy.assign(&ungrouped), Err(SplitPolicyError::EmptySourceAssetGroup));
    assert_eq!(
        SplitPolicy::new("", 8_000, 1_000, 1_000).unwrap_err(),
        SplitPolicyError::EmptySalt
    );
    let mut future = SplitPolicy::default();
    future.version = 9;
    assert_eq!(
        future.assign(&SplitKey::procedural("classic_two_stage", 1)),
        Err(SplitPolicyError::UnsupportedVersion(9))
    );
    assert_eq!(
        SplitPolicyError::UnsupportedVersion(9).message(),
        "unsupported split policy version 9"
    );
    assert_eq!(
        SplitPolicyError::InvalidAllocation.message(),
        "split allocations must total 10,000 basis points"
    );
}

#[test]
fn splits_follow_their_allocation() {
    let all = SplitPolicy::new("salt", 10_000, 0, 0).unwrap();
    let none = SplitPolicy::new("salt", 0, 0, 10_000).unwrap();
    let half = SplitPolicy::new("salt", 5_000, 5_000, 0).unwrap();
    let mut trained = 0;
    for seed in 0..200 {
        let key = SplitKey::procedural("classic_two_stage", seed);
        assert_eq!(all.assign(&key), Ok(DatasetSplit::Train));
        assert_eq!(none.assign(&key), Ok(DatasetSplit::Test));
        assert_ne!(half.assign(&key), Ok(DatasetSplit::Test));
        if half.assign(&key) == Ok(DatasetSplit::Train) {
            trained += 1;
        }
    }
    assert!((60..=140).contains(&trained));
}

#[test]
fn sequence_identities_have_a_fixed_form() {
    let request = SequenceRequest::procedural("classic_two_stage", 42, TargetKind::Target);
    assert_eq!(sequence_id(&request, "stable64:402bbb3703bce52f"), "seq-fa9539a22cfcb329");
    assert_eq!(frame_key("seq-test", 7), "seq-test-000007");
    assert_eq!(config_fingerprint(b""), format!("stable64:{:016x}", stable_hash64(&[b"generator-config-v2".as_slice(), b""])));
}

#[test]
fn reports_count_and_render_their_findings() {
    let mut report = ValidationReport::default();
    assert!(report.is_valid());
    report.warning("odd", "a.b", "is odd");
    assert!(report.is_valid());
    report.error("bad", "a.c", "is bad");
    assert!(!report.is_valid());
    assert_eq!(report.error_count(), 1);
    assert_eq!(report.warning_count(), 1);
    let text = report.message();
    assert!(text.contains("a.b") && text.contains("is odd"));
    assert!(text.contains("a.c") && text.contains("is bad"));
}

#[test]
fn means_lie_between_their_samples() {
    let samples = [[0, 10, 255, 255], [1, 10, 255, 255], [2, 10, 0, 255], [3, 10, 0, 255]];
    assert_eq!(average_linear(samples), [2, 10, 128, 255]);
    assert_eq!(average_normal(samples)[3], 255);
}

#[test]
fn the_brightest_pixel_decides_the_longitude() {
    let dim = [s(0.1), s(0.1), s(0.1), s(1.0)];
    for column in 0..4_usize {
        let mut pixels = vec![dim; 8];
        pixels[4 + column] = [s(9.0), s(9.0), s(9.0), s(1.0)];
        let image = EquirectangularImage::new(4, 2, pixels).unwrap();
        assert_eq!(
            image.dominant_light_longitude_radians().unwrap(),
            column_longitude(column as u32, 4)
        );
    }
}

#[test]
fn surroundings_depend_on_the_place_alone() {
    let day = RenderEnvironment::default();
    let mut once =
        SceneDescription::contextual(s(20.0), s(14.0), s(4.0), s(40.0), day).unwrap();
    let first = once.clone();
    once.populate_context();
    assert_eq!(once, first);
    assert!(first.lights.is_empty());
    assert!(first.signs.iter().all(|sign| f(sign.emissive_strength) == 0.0));
}

#[test]
fn lines_of_sight_end_at_boxes() {
    let unit = Aabb {
        minimum: Vec3::new(s(-1.0), s(-1.0), s(-1.0)),
        maximum: Vec3::new(s(1.0), s(1.0), s(1.0)),
    };
    let at = |x: f32, y: f32, z: f32| Vec3::new(s(x), s(y), s(z));
    assert!(point_inside_aabb(at(0.0, 0.5, -1.0), unit));
    assert!(!point_inside_aabb(at(0.0, 1.5, 0.0), unit));
    assert!(segment_intersects_aabb(at(-3.0, 0.0, 0.0), at(3.0, 0.0, 0.0), unit));
    assert!(!segment_intersects_aabb(at(-3.0, 2.0, 0.0), at(3.0, 2.0, 0.0), unit));
    assert!(!segment_intersects_aabb(at(-3.0, 0.0, 0.0), at(-2.0, 0.0, 0.0), unit));
}

#[test]
fn turned_boxes_widen() {
    let size = Vec3::new(s(4.0), s(3.0), s(2.0));
    let straight = Turn { cosine: s(1.0), sine: s(0.0) };
    let quarter = Turn { cosine: s(0.0), sine: s(1.0) };
    let plain = rotated_half_extents(size, straight);
    assert_eq!((f(plain.x), f(plain.z)), (2.0, 1.0));
    let turned = rotated_half_extents(size, quarter);
    assert_eq!((f(turned.x), f(turned.z)), (1.0, 2.0));
}
