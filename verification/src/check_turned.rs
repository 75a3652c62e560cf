//! Checks that find the turns of a scene themselves.

use crate::check_sequence::DatasetValidator;
use crate::geometry::{SceneTurns, Turn};
use crate::given::{answer_of, answers};
use crate::manifest::DatasetManifest;
use crate::plan::SequencePlan;
use crate::record::{FrameRecord, SequenceRecord};
use crate::report::ValidationReport;
use crate::sample_plan::scene_turns;
use crate::single::Single;
use vstd::prelude::*;

verus! {

impl SequencePlan {
    /// Validates the scene, the camera motion and every planned camera, given a function for
    /// the cosine and sine of an angle.
    pub fn validate_turned<T: Fn(Single) -> Turn>(&self, turn: &T) -> (report: ValidationReport)
        requires
            answers(*turn),
        ensures
            exists|turns: SceneTurns| #[trigger]
                turns.describe(self.scene, answer_of(*turn)) && report@ == crate::report::broken(
                    self.rules(turns),
                ),
    {
        let turns = scene_turns(&self.scene, turn);
        self.validate(&turns)
    }
}

impl<'a> DatasetValidator<'a> {
    /// Validates sequence ordering, split stability, and all supplied frame records, given a
    /// function for the cosine and sine of an angle.
    pub fn validate_sequence_turned<T: Fn(Single) -> Turn>(
        &self,
        sequence: &SequenceRecord,
        frames: &[FrameRecord],
        turn: &T,
    ) -> (report: ValidationReport)
        requires
            answers(*turn),
        ensures
            exists|turns: SceneTurns| #[trigger]
                turns.describe(sequence.scene, answer_of(*turn)) && report@
                    == crate::report::broken(
                    crate::check_sequence::sequence_rules(
                        *self.manifest,
                        *sequence,
                        turns,
                        frames@,
                    ),
                ),
    {
        let turns = scene_turns(&sequence.scene, turn);
        self.validate_sequence(sequence, &turns, frames)
    }
}

proof fn lemma_same_planned(plan: SequencePlan, a: SceneTurns, b: SceneTurns, n: nat)
    requires
        a.backgrounds@ == b.backgrounds@,
    ensures
        crate::check_sequence::first_planned_rules(plan.frames@, plan.scene, a, n)
            == crate::check_sequence::first_planned_rules(plan.frames@, plan.scene, b, n),
    decreases n,
{
    if n > 0 {
        lemma_same_planned(plan, a, b, (n - 1) as nat);
    }
}

/// What a plan has to meet depends on its yaws alone, not on what holds their turns: all
/// turns that describe its scene give the same rules.
pub proof fn plans_have_one_set_of_rules(
    plan: SequencePlan,
    turn: spec_fn(Single) -> Turn,
    a: SceneTurns,
    b: SceneTurns,
)
    requires
        a.describe(plan.scene, turn),
        b.describe(plan.scene, turn),
    ensures
        plan.rules(a) == plan.rules(b),
{
    reveal(crate::check_scene::sampled_scene_rules);
    lemma_same_planned(plan, a, b, plan.frames@.len());
}

proof fn lemma_same_records(
    manifest: DatasetManifest,
    sequence: SequenceRecord,
    frames: Seq<FrameRecord>,
    a: SceneTurns,
    b: SceneTurns,
    n: nat,
)
    requires
        a.backgrounds@ == b.backgrounds@,
    ensures
        crate::check_sequence::first_record_rules(manifest, sequence, a, frames, n)
            == crate::check_sequence::first_record_rules(manifest, sequence, b, frames, n),
    decreases n,
{
    if n > 0 {
        lemma_same_records(manifest, sequence, frames, a, b, (n - 1) as nat);
    }
}

/// What a sequence has to meet depends on its yaws alone, not on what holds their turns.
pub proof fn sequences_have_one_set_of_rules(
    manifest: DatasetManifest,
    sequence: SequenceRecord,
    frames: Seq<FrameRecord>,
    turn: spec_fn(Single) -> Turn,
    a: SceneTurns,
    b: SceneTurns,
)
    requires
        a.describe(sequence.scene, turn),
        b.describe(sequence.scene, turn),
    ensures
        crate::check_sequence::sequence_rules(manifest, sequence, a, frames)
            == crate::check_sequence::sequence_rules(manifest, sequence, b, frames),
{
    reveal(crate::check_scene::sampled_scene_rules);
    lemma_same_records(manifest, sequence, frames, a, b, frames.len());
}

} // verus!
