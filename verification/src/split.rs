//! Deterministic assignment of buildings to dataset splits.

use crate::deterministic::stable_hash64;
use crate::text::is_blank;
use vstd::prelude::*;
use vstd::string::*;

verus! {

/// Basis points that the three allocations share out.
pub const BASIS_POINTS: u32 = 10_000;

/// Dataset partition assigned to every view of one generated building.
#[derive(Clone, Copy, Debug, PartialEq, Eq, Hash, Structural)]
pub enum DatasetSplit {
    /// Model-fitting data.
    Train,
    /// Data used for tuning without fitting model weights.
    Validation,
    /// Held-out evaluation data.
    Test,
}

/// Stable grouping key for split assignment.
#[derive(Clone, Debug, PartialEq, Eq)]
pub struct SplitKey {
    /// Procedural or real-world building family.
    pub building_family: String,
    /// Seed shared by every frame of the generated building instance.
    pub building_seed: u64,
    /// Optional source-asset group used to prevent asset leakage.
    pub source_asset_group: Option<String>,
}

impl SplitKey {
    /// Creates a key for a wholly procedural building.
    pub fn procedural(building_family: &str, building_seed: u64) -> (r: Self)
        ensures
            r.building_family@ == building_family@,
            r.building_seed == building_seed,
            r.source_asset_group is None,
    {
        Self { building_family: building_family.to_owned(), building_seed, source_asset_group: None }
    }
}

/// Versioned basis-point allocation for deterministic dataset splits.
#[derive(Clone, Debug, PartialEq, Eq)]
pub struct SplitPolicy {
    /// Policy version; change this when hashing semantics change.
    pub version: u32,
    /// Dataset-specific namespace mixed into the hash.
    pub salt: String,
    /// Training allocation in basis points.
    pub train_basis_points: u32,
    /// Validation allocation in basis points.
    pub validation_basis_points: u32,
    /// Test allocation in basis points.
    pub test_basis_points: u32,
}

/// Invalid split policy or grouping key.
#[derive(Clone, Copy, Debug, PartialEq, Eq, Structural)]
pub enum SplitPolicyError {
    /// The policy format is newer than this crate understands.
    UnsupportedVersion(u32),
    /// The policy namespace is empty.
    EmptySalt,
    /// Allocations do not total exactly 10,000 basis points.
    InvalidAllocation,
    /// A building cannot be grouped without a family identifier.
    EmptyBuildingFamily,
    /// Present asset groups must contain a non-empty stable identifier.
    EmptySourceAssetGroup,
}

impl SplitPolicyError {
    /// The text of each error.
    pub open spec fn text(self) -> Seq<char> {
        match self {
            SplitPolicyError::UnsupportedVersion(version) => "unsupported split policy version "@
                + crate::text::decimal(version as int),
            SplitPolicyError::EmptySalt => "split policy salt must not be empty"@,
            SplitPolicyError::InvalidAllocation => "split allocations must total 10,000 basis points"@,
            SplitPolicyError::EmptyBuildingFamily => "split key building family must not be empty"@,
            SplitPolicyError::EmptySourceAssetGroup => "split key source asset group must not be empty"@,
        }
    }

    /// A sentence for people.
    pub fn message(&self) -> (r: String)
        ensures
            r@ == self.text(),
    {
        match self {
            SplitPolicyError::UnsupportedVersion(version) => {
                let mut r: String = "unsupported split policy version ".to_owned();
                crate::text::push_decimal(&mut r, *version as u64);
                r
            },
            SplitPolicyError::EmptySalt => "split policy salt must not be empty".to_owned(),
            SplitPolicyError::InvalidAllocation => {
                "split allocations must total 10,000 basis points".to_owned()
            },
            SplitPolicyError::EmptyBuildingFamily => {
                "split key building family must not be empty".to_owned()
            },
            SplitPolicyError::EmptySourceAssetGroup => {
                "split key source asset group must not be empty".to_owned()
            },
        }
    }
}

/// The split that a bucket of `[0, 10000)` falls into.
pub open spec fn split_of_bucket(train: int, validation: int, bucket: int) -> DatasetSplit {
    if bucket < train {
        DatasetSplit::Train
    } else if bucket < train + validation {
        DatasetSplit::Validation
    } else {
        DatasetSplit::Test
    }
}

impl Default for SplitPolicy {
    fn default() -> (r: Self)
        ensures
            r.is_standard(),
    {
        Self {
            version: 1,
            salt: "pizza-hut-roof-v1".to_owned(),
            train_basis_points: 8_000,
            validation_basis_points: 1_000,
            test_basis_points: 1_000,
        }
    }
}

impl SplitPolicy {
    /// Four fifths for training, a tenth each for validation and test.
    pub open spec fn is_standard(self) -> bool {
        &&& self.version == 1
        &&& self.salt@ == "pizza-hut-roof-v1"@
        &&& self.train_basis_points == 8_000
        &&& self.validation_basis_points == 1_000
        &&& self.test_basis_points == 1_000
    }

    /// What is wrong with a policy, if anything.
    pub open spec fn defect(self) -> Option<SplitPolicyError> {
        if self.version != 1 {
            Some(SplitPolicyError::UnsupportedVersion(self.version))
        } else if crate::text::blank(self.salt@) {
            Some(SplitPolicyError::EmptySalt)
        } else if self.train_basis_points + self.validation_basis_points + self.test_basis_points
            != BASIS_POINTS {
            Some(SplitPolicyError::InvalidAllocation)
        } else {
            None
        }
    }

    /// What the hash of a key covers: the source-asset group when there is one,
    /// else the family and the seed.
    pub open spec fn identity(self, key: SplitKey) -> Seq<Seq<u8>> {
        match key.source_asset_group {
            Some(group) => seq![
                crate::deterministic::bytes_of("synth-data-split-v1/source-asset"@),
                crate::deterministic::bytes_of(self.salt@),
                crate::deterministic::bytes_of(group@),
            ],
            None => seq![
                crate::deterministic::bytes_of("synth-data-split-v1/procedural-building"@),
                crate::deterministic::bytes_of(self.salt@),
                crate::deterministic::bytes_of(key.building_family@),
                crate::deterministic::number_bytes(key.building_seed),
            ],
        }
    }

    /// The bucket of a key, below the number of basis points.
    pub open spec fn bucket(self, key: SplitKey) -> int {
        crate::deterministic::stable_hash(self.identity(key)) as int % BASIS_POINTS as int
    }

    /// The assignment of a key, or the error that refuses it.
    pub open spec fn assignment(self, key: SplitKey) -> Result<DatasetSplit, SplitPolicyError> {
        if self.defect() is Some {
            Err(self.defect()->0)
        } else if crate::text::blank(key.building_family@) {
            Err(SplitPolicyError::EmptyBuildingFamily)
        } else if key.source_asset_group is Some && crate::text::blank(key.source_asset_group->0@) {
            Err(SplitPolicyError::EmptySourceAssetGroup)
        } else {
            Ok(
                split_of_bucket(
                    self.train_basis_points as int,
                    self.validation_basis_points as int,
                    self.bucket(key),
                ),
            )
        }
    }

    /// Creates and validates a split policy.
    pub fn new(
        salt: &str,
        train_basis_points: u32,
        validation_basis_points: u32,
        test_basis_points: u32,
    ) -> (r: Result<Self, SplitPolicyError>)
        ensures
            match r {
                Ok(policy) => {
                    &&& policy.version == 1
                    &&& policy.salt@ == salt@
                    &&& policy.train_basis_points == train_basis_points
                    &&& policy.validation_basis_points == validation_basis_points
                    &&& policy.test_basis_points == test_basis_points
                    &&& policy.defect() is None
                },
                Err(SplitPolicyError::EmptySalt) => crate::text::blank(salt@),
                Err(SplitPolicyError::InvalidAllocation) => !crate::text::blank(salt@)
                    && train_basis_points + validation_basis_points + test_basis_points
                    != BASIS_POINTS,
                Err(_) => false,
            },
    {
        let policy = Self {
            version: 1,
            salt: salt.to_owned(),
            train_basis_points,
            validation_basis_points,
            test_basis_points,
        };
        match policy.check() {
            Ok(()) => Ok(policy),
            Err(error) => Err(error),
        }
    }

    /// Assigns a stable split from building identity, never from a frame index.
    pub fn assign(&self, key: &SplitKey) -> (r: Result<DatasetSplit, SplitPolicyError>)
        ensures
            r == self.assignment(*key),
    {
        if let Err(error) = self.check() {
            return Err(error);
        }
        if is_blank(&key.building_family) {
            return Err(SplitPolicyError::EmptyBuildingFamily);
        }
        let seed: Vec<u8> = vstd::bytes::u64_to_le_bytes(key.building_seed);
        let mut parts: Vec<&[u8]> = Vec::new();
        match &key.source_asset_group {
            Some(group) => {
                if is_blank(group) {
                    return Err(SplitPolicyError::EmptySourceAssetGroup);
                }
                // Source assets take precedence over generated instance identity: every
                // scene derived from one photograph or mesh group must stay in one split.
                parts.push("synth-data-split-v1/source-asset".as_bytes());
                parts.push(self.salt.as_str().as_bytes());
                parts.push(group.as_str().as_bytes());
            },
            None => {
                parts.push("synth-data-split-v1/procedural-building".as_bytes());
                parts.push(self.salt.as_str().as_bytes());
                parts.push(key.building_family.as_str().as_bytes());
                parts.push(seed.as_slice());
            },
        }
        let hash = stable_hash64(parts.as_slice());
        assert(crate::deterministic::contents(parts@) =~= self.identity(*key));
        let bucket: u64 = hash % BASIS_POINTS as u64;
        let validation_start: u64 = self.train_basis_points as u64;
        let test_start: u64 = validation_start + self.validation_basis_points as u64;
        Ok(
            if bucket < validation_start {
                DatasetSplit::Train
            } else if bucket < test_start {
                DatasetSplit::Validation
            } else {
                DatasetSplit::Test
            },
        )
    }

    /// Checks version, namespace and allocation.
    pub fn check(&self) -> (r: Result<(), SplitPolicyError>)
        ensures
            r == match self.defect() {
                Some(error) => Err::<(), SplitPolicyError>(error),
                None => Ok(()),
            },
    {
        if self.version != 1 {
            return Err(SplitPolicyError::UnsupportedVersion(self.version));
        }
        if is_blank(&self.salt) {
            return Err(SplitPolicyError::EmptySalt);
        }
        let total: u64 = self.train_basis_points as u64 + self.validation_basis_points as u64
            + self.test_basis_points as u64;
        if total != BASIS_POINTS as u64 {
            return Err(SplitPolicyError::InvalidAllocation);
        }
        Ok(())
    }
}

/// Every scene of one source-asset group lands in one split: neither the family
/// nor the seed of a building moves it to another.
pub proof fn group_never_crosses_splits(policy: SplitPolicy, a: SplitKey, b: SplitKey)
    requires
        a.source_asset_group is Some,
        b.source_asset_group is Some,
        a.source_asset_group->0@ == b.source_asset_group->0@,
        policy.assignment(a) is Ok,
        policy.assignment(b) is Ok,
    ensures
        policy.assignment(a) == policy.assignment(b),
{
}

/// The allocations of a sound policy partition the buckets: each split owns
/// exactly as many of the 10,000 buckets as its basis points, and a split with none
/// owns none.
pub proof fn allocation_partitions_buckets(policy: SplitPolicy, bucket: int)
    requires
        policy.defect() is None,
        0 <= bucket < BASIS_POINTS,
    ensures
        ({
            let (t, v, e) = (
                policy.train_basis_points as int,
                policy.validation_basis_points as int,
                policy.test_basis_points as int,
            );
            let split = split_of_bucket(t, v, bucket);
            &&& split == DatasetSplit::Train <==> 0 <= bucket < t
            &&& split == DatasetSplit::Validation <==> t <= bucket < t + v
            &&& split == DatasetSplit::Test <==> t + v <= bucket < t + v + e
            &&& t + v + e == BASIS_POINTS
        }),
{
}

/// A key that differs only in what the hash does not cover, such as anything of a
/// frame, is assigned alike: the assignment depends on the group, or on family and
/// seed, alone.
pub proof fn assignment_depends_on_identity_alone(policy: SplitPolicy, a: SplitKey, b: SplitKey)
    requires
        a.building_family@ == b.building_family@,
        a.building_seed == b.building_seed,
        (a.source_asset_group is Some) == (b.source_asset_group is Some),
        a.source_asset_group is Some ==> a.source_asset_group->0@ == b.source_asset_group->0@,
    ensures
        policy.assignment(a) == policy.assignment(b),
{
}

/// How many of the first `n` keys a policy assigns to a split.
pub open spec fn assigned(
    policy: SplitPolicy,
    keys: Seq<SplitKey>,
    split: DatasetSplit,
    n: int,
) -> int
    decreases n,
{
    if n <= 0 {
        0
    } else {
        assigned(policy, keys, split, n - 1) + if policy.assignment(keys[n - 1]) == Ok::<
            DatasetSplit,
            SplitPolicyError,
        >(split) {
            1int
        } else {
            0
        }
    }
}

/// How many of the `n` numbers from a start on leave a remainder between two limits.
spec fn in_band(start: int, low: int, high: int, n: int) -> int
    decreases n,
{
    if n <= 0 {
        0
    } else {
        in_band(start, low, high, n - 1) + if low <= (start + n - 1) % 10_000 < high {
            1int
        } else {
            0
        }
    }
}

proof fn lemma_first_band(low: int, high: int, n: int)
    requires
        0 <= low <= high,
        0 <= n <= 10_000,
    ensures
        in_band(0, low, high, n) == if n <= low {
            0
        } else if n <= high {
            n - low
        } else {
            high - low
        },
    decreases n,
{
    if n > 0 {
        lemma_first_band(low, high, n - 1);
        assert((0 + n - 1) % 10_000 == n - 1);
    }
}

proof fn lemma_band_moves(start: int, low: int, high: int, n: int)
    requires
        n >= 0,
    ensures
        in_band(start + 1, low, high, n) + (if low <= start % 10_000 < high {
            1int
        } else {
            0
        }) == in_band(start, low, high, n) + (if low <= (start + n) % 10_000 < high {
            1int
        } else {
            0
        }),
    decreases n,
{
    if n > 0 {
        lemma_band_moves(start, low, high, n - 1);
    }
}

proof fn lemma_any_band(start: int, low: int, high: int)
    requires
        0 <= start,
        0 <= low <= high <= 10_000,
    ensures
        in_band(start, low, high, 10_000) == high - low,
    decreases start,
{
    if start == 0 {
        lemma_first_band(low, high, 10_000);
    } else {
        lemma_any_band(start - 1, low, high);
        lemma_band_moves(start - 1, low, high, 10_000);
        assert((start - 1 + 10_000) % 10_000 == (start - 1) % 10_000);
    }
}

proof fn lemma_assigned(
    policy: SplitPolicy,
    keys: Seq<SplitKey>,
    start: int,
    split: DatasetSplit,
    low: int,
    high: int,
    n: int,
)
    requires
        0 <= n <= keys.len(),
        0 <= start,
        forall|i: int|
            0 <= i < keys.len() ==> {
                &&& policy.assignment(#[trigger] keys[i]) is Ok
                &&& crate::deterministic::stable_hash(policy.identity(keys[i])) == start + i
                &&& policy.assignment(keys[i]) == Ok::<DatasetSplit, SplitPolicyError>(split)
                    <==> low <= (start + i) % 10_000 < high
            },
    ensures
        assigned(policy, keys, split, n) == in_band(start, low, high, n),
    decreases n,
{
    if n > 0 {
        lemma_assigned(policy, keys, start, split, low, high, n - 1);
        assert(start + n - 1 == start + (n - 1));
        assert(policy.assignment(keys[n - 1]) is Ok);
    }
}

/// Each split gets its share: of ten thousand keys that a policy takes and whose hashes follow
/// each other, exactly as many are assigned to each split as it has basis points.
pub proof fn shares_are_basis_points(policy: SplitPolicy, keys: Seq<SplitKey>, start: u64)
    requires
        keys.len() == 10_000,
        forall|i: int|
            0 <= i < keys.len() ==> {
                &&& policy.assignment(#[trigger] keys[i]) is Ok
                &&& crate::deterministic::stable_hash(policy.identity(keys[i])) == start + i
            },
    ensures
        assigned(policy, keys, DatasetSplit::Train, 10_000) == policy.train_basis_points,
        assigned(policy, keys, DatasetSplit::Validation, 10_000)
            == policy.validation_basis_points,
        assigned(policy, keys, DatasetSplit::Test, 10_000) == policy.test_basis_points,
{
    let (t, v) = (policy.train_basis_points as int, policy.validation_basis_points as int);
    let e = policy.test_basis_points as int;
    let s = start as int;
    assert(policy.assignment(keys[0]) is Ok);
    assert(policy.defect() is None);
    assert(t + v + e == 10_000);
    lemma_any_band(s, 0, t);
    lemma_any_band(s, t, t + v);
    lemma_any_band(s, t + v, 10_000);
    lemma_assigned(policy, keys, s, DatasetSplit::Train, 0, t, 10_000);
    lemma_assigned(policy, keys, s, DatasetSplit::Validation, t, t + v, 10_000);
    lemma_assigned(policy, keys, s, DatasetSplit::Test, t + v, 10_000, 10_000);
}

/// A policy with positive shares leaves no split empty: each is the assignment of every key
/// whose hash leaves a remainder in its band of ten thousand, the bands one after the other.
pub proof fn hashes_decide_the_split(policy: SplitPolicy, key: SplitKey)
    requires
        policy.assignment(key) is Ok,
    ensures
        ({
            let place = crate::deterministic::stable_hash(policy.identity(key)) as int % 10_000;
            let train = policy.train_basis_points as int;
            let later = train + policy.validation_basis_points;
            &&& policy.assignment(key)->Ok_0 == DatasetSplit::Train <==> place < train
            &&& policy.assignment(key)->Ok_0 == DatasetSplit::Validation <==> train <= place
                < later
            &&& policy.assignment(key)->Ok_0 == DatasetSplit::Test <==> later <= place
            &&& later + policy.test_basis_points == 10_000
        }),
{
}

/// Different buildings have different identities: what is hashed of two keys without a group
/// agrees only where family, seed and the salts of the policies agree, and of two keys with
/// a group only where the groups and the salts do. No key with a group is hashed like one
/// without.
pub proof fn identities_tell_buildings_apart(
    policy: SplitPolicy,
    other: SplitPolicy,
    a: SplitKey,
    b: SplitKey,
)
    requires
        policy.identity(a) == other.identity(b),
    ensures
        policy.salt@ == other.salt@,
        match (a.source_asset_group, b.source_asset_group) {
            (Some(one), Some(two)) => one@ == two@,
            (None, None) => a.building_family@ == b.building_family@ && a.building_seed
                == b.building_seed,
            _ => false,
        },
{
    let (p, q) = (policy.identity(a), other.identity(b));
    vstd::bytes::lemma_auto_spec_u64_to_from_le_bytes();
    vstd::utf8::encode_utf8_decode_utf8(policy.salt@);
    vstd::utf8::encode_utf8_decode_utf8(other.salt@);
    assert(p.len() == q.len());
    assert(p[1] == q[1] && p[2] == q[2]);
    if a.source_asset_group is Some {
        vstd::utf8::encode_utf8_decode_utf8(a.source_asset_group->0@);
        vstd::utf8::encode_utf8_decode_utf8(b.source_asset_group->0@);
    } else {
        assert(p[3] == q[3]);
        vstd::utf8::encode_utf8_decode_utf8(a.building_family@);
        vstd::utf8::encode_utf8_decode_utf8(b.building_family@);
    }
}

/// A key is assigned unless something is wrong with the policy or a name of the key is blank,
/// and the error says what: the first of what is wrong.
pub proof fn refusals_name_their_reason(policy: SplitPolicy, key: SplitKey)
    ensures
        policy.assignment(key) is Ok <==> policy.version == 1 && !crate::text::blank(policy.salt@)
            && policy.train_basis_points + policy.validation_basis_points
            + policy.test_basis_points == 10_000 && !crate::text::blank(key.building_family@) && (
        key.source_asset_group matches Some(group) ==> !crate::text::blank(group@)),
        policy.assignment(key) matches Err(SplitPolicyError::UnsupportedVersion(version))
            ==> version == policy.version && version != 1,
        policy.assignment(key) matches Err(SplitPolicyError::EmptySalt) ==> crate::text::blank(
            policy.salt@,
        ),
        policy.assignment(key) matches Err(SplitPolicyError::InvalidAllocation)
            ==> policy.train_basis_points + policy.validation_basis_points
            + policy.test_basis_points != 10_000,
        policy.assignment(key) matches Err(SplitPolicyError::EmptyBuildingFamily)
            ==> crate::text::blank(key.building_family@),
        policy.assignment(key) matches Err(SplitPolicyError::EmptySourceAssetGroup)
            ==> key.source_asset_group matches Some(group) && crate::text::blank(group@),
{
}

} // verus!
