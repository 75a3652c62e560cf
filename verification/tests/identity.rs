use synth_roof::deterministic::{derive_seed, stable_hash64};
use synth_roof::plan::frame_key;
use synth_roof::split::{SplitKey, SplitPolicy, SplitPolicyError};

#[test]
fn hashing_is_length_delimited() {
    assert_ne!(stable_hash64(&[b"ab", b"c"]), stable_hash64(&[b"a", b"bc"]));
}

#[test]
fn domain_seeds_are_independent() {
    assert_ne!(derive_seed(42, "roof"), derive_seed(42, "camera"));
    assert_ne!(derive_seed(42, "roof"), derive_seed(43, "roof"));
}

#[test]
fn frame_key_is_lexically_ordered() {
    assert!(frame_key("seq-test", 9) < frame_key("seq-test", 10));
}

#[test]
fn split_is_stable_for_a_building() {
    let policy = SplitPolicy::default();
    let key = SplitKey::procedural("classic_two_stage", 9_821);
    assert_eq!(policy.assign(&key), policy.assign(&key));
}

#[test]
fn policy_rejects_bad_totals() {
    assert!(matches!(
        SplitPolicy::new("test", 8_000, 1_000, 999),
        Err(SplitPolicyError::InvalidAllocation)
    ));
}

#[test]
fn source_asset_group_prevents_cross_seed_leakage() {
    let policy = SplitPolicy::default();
    let key = |building_seed| SplitKey {
        building_family: "classic_two_stage".to_owned(),
        building_seed,
        source_asset_group: Some("real-building-0042".to_owned()),
    };
    assert_eq!(policy.assign(&key(1)), policy.assign(&key(999_999)));
}

#[test]
fn one_byte_changes_the_hash() {
    let whole = stable_hash64(&[b"roof", b"seed"]);
    for at in 0..4 {
        for byte in 0..=u8::MAX {
            let mut part = *b"seed";
            part[at] = byte;
            let changed = stable_hash64(&[b"roof", &part]);
            assert_eq!(changed == whole, part == *b"seed");
        }
    }
}

#[test]
fn frame_keys_stay_unique_past_a_million() {
    assert_eq!(frame_key("seq-test", 1_000_000), "seq-test-1000000");
    assert_ne!(frame_key("seq-test", 100_000), frame_key("seq-test", 1_000_000));
    assert_ne!(frame_key("seq-test", u32::MAX), frame_key("seq-test", u32::MAX - 1));
}
