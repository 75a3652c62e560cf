//! Rules for dataset manifests.

use crate::manifest::{
    DatasetManifest, GeneratorDescriptor, LabelClass, OutputDefinition, SourceAsset,
    DATASET_SCHEMA_VERSION,
};
use crate::report::{Validate, ValidationReport};
use crate::split::{SplitKey, SplitPolicy};
use crate::text::{is_blank, joined, same_text};
use vstd::prelude::*;

verus! {

broadcast use crate::report::group_rules;

/// The class identifier occurs earlier in the list.
pub open spec fn repeated_class_id(classes: Seq<LabelClass>, i: int) -> bool {
    exists|j: int| 0 <= j < i && (#[trigger] classes[j]).id == classes[i].id
}

/// The class name occurs earlier in the list.
pub open spec fn repeated_class_name(classes: Seq<LabelClass>, i: int) -> bool {
    exists|j: int| 0 <= j < i && (#[trigger] classes[j]).name@ == classes[i].name@
}

/// What the first `n` classes of a taxonomy have to meet.
pub open spec fn first_class_rules(path: Seq<char>, classes: Seq<LabelClass>, n: nat) -> Seq<
    crate::report::Rule,
>
    decreases n,
{
    if n == 0 {
        Seq::empty()
    } else {
        first_class_rules(path, classes, (n - 1) as nat) + crate::report::error_if(
            repeated_class_id(classes, n - 1),
            "duplicate_class_id"@,
            crate::text::element(path, n - 1, ".id"@),
            "class IDs must be unique within a taxonomy"@,
        ) + crate::report::error_if(
            crate::text::blank(classes[n - 1].name@) || repeated_class_name(classes, n - 1),
            "invalid_class_name"@,
            crate::text::element(path, n - 1, ".name"@),
            "class names must be non-empty and unique"@,
        )
    }
}

fn is_repeated_class_id(classes: &Vec<LabelClass>, i: usize) -> (r: bool)
    requires
        i < classes@.len(),
    ensures
        r == repeated_class_id(classes@, i as int),
{
    let mut j: usize = 0;
    while j < i
        invariant
            j <= i < classes@.len(),
            forall|k: int| 0 <= k < j ==> (#[trigger] classes@[k]).id != classes@[i as int].id,
        decreases i - j,
    {
        if classes[j].id == classes[i].id {
            return true;
        }
        j = j + 1;
    }
    false
}

fn is_repeated_class_name(classes: &Vec<LabelClass>, i: usize) -> (r: bool)
    requires
        i < classes@.len(),
    ensures
        r == repeated_class_name(classes@, i as int),
{
    let mut j: usize = 0;
    while j < i
        invariant
            j <= i < classes@.len(),
            forall|k: int| 0 <= k < j ==> (#[trigger] classes@[k]).name@ != classes@[i as int].name@,
        decreases i - j,
    {
        if same_text(&classes[j].name, &classes[i].name) {
            return true;
        }
        j = j + 1;
    }
    false
}

/// Checks one taxonomy: unique identifiers, and unique names that are not blank.
pub fn validate_classes(report: &mut ValidationReport, path: &str, classes: &Vec<LabelClass>)
    ensures
        final(report)@ == crate::report::applied(
            old(report)@,
            first_class_rules(path@, classes@, classes@.len()),
        ),
{
    let ghost start = report@;
    let mut i: usize = 0;
    while i < classes.len()
        invariant
            i <= classes@.len(),
            report@ == crate::report::applied(start, first_class_rules(path@, classes@, i as nat)),
        decreases classes@.len() - i,
    {
        report.check_element(
            is_repeated_class_id(classes, i),
            "duplicate_class_id",
            path,
            i,
            ".id",
            "class IDs must be unique within a taxonomy",
        );
        report.check_element(
            is_blank(&classes[i].name) || is_repeated_class_name(classes, i),
            "invalid_class_name",
            path,
            i,
            ".name",
            "class names must be non-empty and unique",
        );
        i = i + 1;
    }
}

/// A value that must not be blank.
pub open spec fn value_rules(path: Seq<char>, value: Seq<char>) -> Seq<crate::report::Rule> {
    crate::report::error_if(
        crate::text::blank(value),
        "empty_value"@,
        path,
        "value must not be empty"@,
    )
}

fn check_value(report: &mut ValidationReport, path: &str, value: &str)
    ensures
        final(report)@ == crate::report::applied(old(report)@, value_rules(path@, value@)),
{
    report.check(is_blank(value), "empty_value", path, "value must not be empty");
}

/// A dataset and its generator are identified.
pub open spec fn identity_rules(manifest: DatasetManifest) -> Seq<crate::report::Rule> {
    crate::report::error_if(
        crate::text::blank(manifest.dataset_id@),
        "empty_id"@,
        "dataset_id"@,
        "dataset identifier must not be empty"@,
    ) + crate::report::error_if(
        manifest.schema_version@ != DATASET_SCHEMA_VERSION@,
        "unsupported_schema"@,
        "schema_version"@,
        "expected "@ + DATASET_SCHEMA_VERSION@,
    ) + value_rules("generator.name"@, manifest.generator.name@) + value_rules(
        "generator.version"@,
        manifest.generator.version@,
    ) + value_rules("generator.rng_algorithm"@, manifest.generator.rng_algorithm@) + value_rules(
        "generator.config_fingerprint"@,
        manifest.generator.config_fingerprint@,
    )
}

fn check_identity(report: &mut ValidationReport, manifest: &DatasetManifest)
    ensures
        final(report)@ == crate::report::applied(old(report)@, identity_rules(*manifest)),
{
    report.check(
        is_blank(&manifest.dataset_id),
        "empty_id",
        "dataset_id",
        "dataset identifier must not be empty",
    );
    report.check(
        !same_text(&manifest.schema_version, DATASET_SCHEMA_VERSION),
        "unsupported_schema",
        "schema_version",
        &joined("expected ", DATASET_SCHEMA_VERSION),
    );
    let generator: &GeneratorDescriptor = &manifest.generator;
    check_value(report, "generator.name", &generator.name);
    check_value(report, "generator.version", &generator.version);
    check_value(report, "generator.rng_algorithm", &generator.rng_algorithm);
    check_value(report, "generator.config_fingerprint", &generator.config_fingerprint);
}

/// The split policy can assign a building.
pub open spec fn policy_rules(policy: SplitPolicy, path: Seq<char>) -> Seq<crate::report::Rule> {
    match policy.defect() {
        Some(error) => crate::report::error_if(true, "invalid_split_policy"@, path, error.text()),
        None => Seq::empty(),
    }
}

fn check_policy(report: &mut ValidationReport, policy: &SplitPolicy)
    ensures
        final(report)@ == crate::report::applied(
            old(report)@,
            policy_rules(*policy, "split_policy"@),
        ),
{
    let probe = SplitKey::procedural("manifest_validation", 0);
    proof {
        reveal_strlit("manifest_validation");
        assert(!crate::text::white_space(probe.building_family@[0]));
    }
    if let Err(error) = policy.assign(&probe) {
        report.check(true, "invalid_split_policy", "split_policy", &error.message());
    }
}

/// The asset identifier occurs earlier in the list.
pub open spec fn repeated_asset(assets: Seq<SourceAsset>, i: int) -> bool {
    exists|j: int| 0 <= j < i && (#[trigger] assets[j]).id@ == assets[i].id@
}

fn is_repeated_asset(assets: &Vec<SourceAsset>, i: usize) -> (r: bool)
    requires
        i < assets@.len(),
    ensures
        r == repeated_asset(assets@, i as int),
{
    let mut j: usize = 0;
    while j < i
        invariant
            j <= i < assets@.len(),
            forall|k: int| 0 <= k < j ==> (#[trigger] assets@[k]).id@ != assets@[i as int].id@,
        decreases i - j,
    {
        if same_text(&assets[j].id, &assets[i].id) {
            return true;
        }
        j = j + 1;
    }
    false
}

/// What the first `n` source assets have to meet: a unique identifier and complete provenance.
pub open spec fn first_asset_rules(assets: Seq<SourceAsset>, n: nat) -> Seq<crate::report::Rule>
    decreases n,
{
    if n == 0 {
        Seq::empty()
    } else {
        let asset = assets[n - 1];
        first_asset_rules(assets, (n - 1) as nat) + crate::report::error_if(
            crate::text::blank(asset.id@),
            "empty_asset_id"@,
            crate::text::element("source_assets"@, n - 1, ".id"@),
            "source asset ID must not be empty"@,
        ) + crate::report::error_if(
            !crate::text::blank(asset.id@) && repeated_asset(assets, n - 1),
            "duplicate_asset_id"@,
            crate::text::element("source_assets"@, n - 1, ".id"@),
            "source asset IDs must be unique"@,
        ) + crate::report::error_if(
            crate::text::blank(asset.content_hash@) || crate::text::blank(asset.license@),
            "incomplete_asset_provenance"@,
            crate::text::element("source_assets"@, n - 1, ""@),
            "content hash and licence are required"@,
        )
    }
}

fn check_source_assets(report: &mut ValidationReport, assets: &Vec<SourceAsset>)
    ensures
        final(report)@ == crate::report::applied(
            old(report)@,
            first_asset_rules(assets@, assets@.len()),
        ),
{
    let ghost start = report@;
    let mut i: usize = 0;
    while i < assets.len()
        invariant
            i <= assets@.len(),
            report@ == crate::report::applied(start, first_asset_rules(assets@, i as nat)),
        decreases assets@.len() - i,
    {
        let asset = &assets[i];
        let unnamed: bool = is_blank(&asset.id);
        report.check_element(
            unnamed,
            "empty_asset_id",
            "source_assets",
            i,
            ".id",
            "source asset ID must not be empty",
        );
        report.check_element(
            !unnamed && is_repeated_asset(assets, i),
            "duplicate_asset_id",
            "source_assets",
            i,
            ".id",
            "source asset IDs must be unique",
        );
        report.check_element(
            is_blank(&asset.content_hash) || is_blank(&asset.license),
            "incomplete_asset_provenance",
            "source_assets",
            i,
            "",
            "content hash and licence are required",
        );
        i = i + 1;
    }
}

/// Name, media type and encoding are given.
pub open spec fn complete_output(output: OutputDefinition) -> bool {
    !crate::text::blank(output.name@) && !crate::text::blank(output.media_type@)
        && !crate::text::blank(output.encoding@)
}

fn is_complete_output(output: &OutputDefinition) -> (r: bool)
    ensures
        r == complete_output(*output),
{
    !is_blank(&output.name) && !is_blank(&output.media_type) && !is_blank(&output.encoding)
}

/// A complete output of the same name occurs earlier in the list.
pub open spec fn repeated_output(outputs: Seq<OutputDefinition>, i: int) -> bool {
    exists|j: int|
        0 <= j < i && complete_output(#[trigger] outputs[j]) && outputs[j].name@ == outputs[i].name@
}

fn is_repeated_output(outputs: &Vec<OutputDefinition>, i: usize) -> (r: bool)
    requires
        i < outputs@.len(),
    ensures
        r == repeated_output(outputs@, i as int),
{
    let mut j: usize = 0;
    while j < i
        invariant
            j <= i < outputs@.len(),
            forall|k: int|
                0 <= k < j ==> !(complete_output(#[trigger] outputs@[k]) && outputs@[k].name@
                    == outputs@[i as int].name@),
        decreases i - j,
    {
        if is_complete_output(&outputs[j]) && same_text(&outputs[j].name, &outputs[i].name) {
            return true;
        }
        j = j + 1;
    }
    false
}

/// What the first `n` outputs have to meet: completeness, and a unique name among the complete.
pub open spec fn first_output_rules(outputs: Seq<OutputDefinition>, n: nat) -> Seq<
    crate::report::Rule,
>
    decreases n,
{
    if n == 0 {
        Seq::empty()
    } else {
        first_output_rules(outputs, (n - 1) as nat) + crate::report::error_if(
            !complete_output(outputs[n - 1]),
            "incomplete_output"@,
            crate::text::element("outputs"@, n - 1, ""@),
            "name, media type, and encoding are required"@,
        ) + crate::report::error_if(
            complete_output(outputs[n - 1]) && repeated_output(outputs, n - 1),
            "duplicate_output"@,
            crate::text::element("outputs"@, n - 1, ".name"@),
            "output names must be unique"@,
        )
    }
}

fn check_outputs(report: &mut ValidationReport, outputs: &Vec<OutputDefinition>)
    ensures
        final(report)@ == crate::report::applied(
            old(report)@,
            first_output_rules(outputs@, outputs@.len()),
        ),
{
    let ghost start = report@;
    let mut i: usize = 0;
    while i < outputs.len()
        invariant
            i <= outputs@.len(),
            report@ == crate::report::applied(start, first_output_rules(outputs@, i as nat)),
        decreases outputs@.len() - i,
    {
        let complete: bool = is_complete_output(&outputs[i]);
        report.check_element(
            !complete,
            "incomplete_output",
            "outputs",
            i,
            "",
            "name, media type, and encoding are required",
        );
        report.check_element(
            complete && is_repeated_output(outputs, i),
            "duplicate_output",
            "outputs",
            i,
            ".name",
            "output names must be unique",
        );
        i = i + 1;
    }
}

impl Validate for DatasetManifest {
    open spec fn rules(&self) -> Seq<crate::report::Rule> {
        identity_rules(*self) + policy_rules(self.split_policy, "split_policy"@)
            + first_class_rules(
            "labels.keypoints"@,
            self.labels.keypoints@,
            self.labels.keypoints@.len(),
        ) + first_class_rules("labels.edges"@, self.labels.edges@, self.labels.edges@.len())
            + first_class_rules("labels.parts"@, self.labels.parts@, self.labels.parts@.len())
            + first_class_rules("labels.faces"@, self.labels.faces@, self.labels.faces@.len())
            + first_asset_rules(self.source_assets@, self.source_assets@.len())
            + first_output_rules(self.outputs@, self.outputs@.len())
    }

    fn validate(&self) -> (report: ValidationReport) {
        let mut report = ValidationReport::default();
        check_identity(&mut report, self);
        check_policy(&mut report, &self.split_policy);
        validate_classes(&mut report, "labels.keypoints", &self.labels.keypoints);
        validate_classes(&mut report, "labels.edges", &self.labels.edges);
        validate_classes(&mut report, "labels.parts", &self.labels.parts);
        validate_classes(&mut report, "labels.faces", &self.labels.faces);
        check_source_assets(&mut report, &self.source_assets);
        check_outputs(&mut report, &self.outputs);
        report
    }
}

} // verus!
