//! Rules for ranges, probabilities and material palettes.

use crate::config::MaterialChoice;
use crate::report::ValidationReport;
use crate::single::Single;
use crate::text::{element_path, is_blank, same_text};
use crate::types::{FloatRange, U32Range};
use vstd::prelude::*;

verus! {

broadcast use crate::report::group_rules;

/// A range has finite, ordered bounds, and positive ones where that is asked.
pub open spec fn range_rules(
    path: Seq<char>,
    range: FloatRange,
    positive: bool,
) -> Seq<crate::report::Rule> {
    crate::report::error_if(
            !range.is_valid(),
            "invalid_range"@,
            path,
            "range bounds must be finite and ordered"@,
        )
        + crate::report::error_if(
            range.is_valid() && positive && range.min.at_most(Single::zero()),
            "non_positive_range"@,
            path,
            "range must remain positive"@,
        )
}

/// Checks that a range has finite, ordered bounds, and positive ones where that is asked.
pub fn validate_range(report: &mut ValidationReport, path: &str, range: FloatRange, positive: bool)
    ensures
        final(report)@ == crate::report::applied(old(report)@, range_rules(path@, range, positive)),
{
    let valid: bool = range.is_valid();
    report.check(!valid, "invalid_range", path, "range bounds must be finite and ordered");
    report.check(
        valid && positive && range.min.at_most(Single::zero()),
        "non_positive_range",
        path,
        "range must remain positive",
    );
}

/// An integer range has ordered bounds.
pub open spec fn u32_range_rules(path: Seq<char>, range: U32Range) -> Seq<crate::report::Rule> {
    crate::report::error_if(
        !range.is_valid(),
        "invalid_range"@,
        path,
        "range bounds must be ordered"@,
    )
}

/// Checks that an integer range has ordered bounds.
pub fn validate_u32_range(report: &mut ValidationReport, path: &str, range: U32Range)
    ensures
        final(report)@ == crate::report::applied(old(report)@, u32_range_rules(path@, range)),
{
    report.check(!range.is_valid(), "invalid_range", path, "range bounds must be ordered");
}

/// A valid range stays inside `[0, 1]`.
pub open spec fn unit_range_rules(path: Seq<char>, range: FloatRange) -> Seq<crate::report::Rule> {
    crate::report::error_if(
            range.is_valid() && (range.min.less(Single::zero()) || Single::one().less(range.max)),
            "outside_unit_range"@,
            path,
            "range must remain inside [0, 1]"@,
        )
}

/// Checks that a valid range stays inside `[0, 1]`.
pub fn validate_unit_range(report: &mut ValidationReport, path: &str, range: FloatRange)
    ensures
        final(report)@ == crate::report::applied(old(report)@, unit_range_rules(path@, range)),
{
    report.check(
        range.is_valid() && (range.min.less(Single::zero()) || Single::one().less(range.max)),
        "outside_unit_range",
        path,
        "range must remain inside [0, 1]",
    );
}

/// A finite number inside `[0, 1]`.
pub open spec fn spec_unit(value: Single) -> bool {
    value.is_finite() && value.within(Single::zero(), Single::one())
}

/// Whether a number is finite and inside `[0, 1]`.
#[verifier::when_used_as_spec(spec_unit)]
pub fn unit(value: Single) -> (r: bool)
    ensures
        r == spec_unit(value),
{
    value.is_finite() && value.within(Single::zero(), Single::one())
}

/// A probability is finite and inside `[0, 1]`.
pub open spec fn probability_rules(path: Seq<char>, value: Single) -> Seq<crate::report::Rule> {
    crate::report::error_if(
            !unit(value),
            "invalid_probability"@,
            path,
            "probability must be finite and inside [0, 1]"@,
        )
}

/// Checks that a probability is finite and inside `[0, 1]`.
pub fn validate_probability(report: &mut ValidationReport, path: &str, value: Single)
    ensures
        final(report)@ == crate::report::applied(old(report)@, probability_rules(path@, value)),
{
    report.check(
        !unit(value),
        "invalid_probability",
        path,
        "probability must be finite and inside [0, 1]",
    );
}

/// Both ranges are valid and share a value.
pub open spec fn spec_ranges_overlap(left: FloatRange, right: FloatRange) -> bool {
    left.is_valid() && right.is_valid() && left.min.max(right.min).at_most(left.max.min(right.max))
}

/// Whether both ranges are valid and share a value.
#[verifier::when_used_as_spec(spec_ranges_overlap)]
pub fn ranges_overlap(left: FloatRange, right: FloatRange) -> (r: bool)
    ensures
        r == spec_ranges_overlap(left, right),
{
    left.is_valid() && right.is_valid() && left.min.max(right.min).at_most(left.max.min(right.max))
}

/// The overlap of two integer ranges, if there is one.
pub open spec fn spec_intersect_u32(left: U32Range, right: U32Range) -> Option<U32Range> {
    let min = if left.min < right.min { right.min } else { left.min };
    let max = if left.max < right.max { left.max } else { right.max };
    if min <= max {
        Some(U32Range { min, max })
    } else {
        None
    }
}

/// Returns the overlap of two integer ranges, if there is one.
#[verifier::when_used_as_spec(spec_intersect_u32)]
pub fn intersect_u32(left: U32Range, right: U32Range) -> (r: Option<U32Range>)
    ensures
        r == spec_intersect_u32(left, right),
{
    let min: u32 = if left.min < right.min { right.min } else { left.min };
    let max: u32 = if left.max < right.max { left.max } else { right.max };
    if min <= max {
        Some(U32Range { min, max })
    } else {
        None
    }
}

/// The overlap of two integer ranges holds exactly the numbers that both hold.
pub proof fn integer_overlap_holds_common_numbers(left: U32Range, right: U32Range, n: u32)
    ensures
        match intersect_u32(left, right) {
            Some(overlap) => (overlap.min <= n <= overlap.max) == (left.min <= n <= left.max
                && right.min <= n <= right.max),
            None => !(left.min <= n <= left.max && right.min <= n <= right.max),
        },
{
}

/// No choice has a positive weight.
pub open spec fn weightless(materials: Seq<MaterialChoice>) -> bool {
    forall|i: int| 0 <= i < materials.len() ==> (#[trigger] materials[i]).weight == 0
}

/// The same identifier occurs earlier in the list.
pub open spec fn repeated_material(materials: Seq<MaterialChoice>, i: int) -> bool {
    exists|j: int| 0 <= j < i && (#[trigger] materials[j]).id@ == materials[i].id@
}

/// Three finite channels inside `[0, 1]`.
pub open spec fn unit_color(color: Seq<Single>) -> bool {
    unit(color[0]) && unit(color[1]) && unit(color[2])
}

/// Whether three channels are finite and inside `[0, 1]`.
pub fn is_unit_color(color: &[Single; 3]) -> (r: bool)
    ensures
        r == unit_color(color@),
{
    unit(color[0]) && unit(color[1]) && unit(color[2])
}

/// What one choice of a palette has to meet.
pub open spec fn material_rules(
    path: Seq<char>,
    materials: Seq<MaterialChoice>,
    i: int,
) -> Seq<crate::report::Rule> {
    let material = materials[i];
    crate::report::error_if(
            crate::text::blank(material.id@) || repeated_material(materials, i),
            "invalid_material_id"@,
            crate::text::element(path, i, ".id"@),
            "material ID must be non-empty and unique"@,
        )
        + crate::report::error_if(
            !unit_color(material.base_color_srgb@),
            "invalid_material_color"@,
            crate::text::element(path, i, ".base_color_srgb"@),
            "sRGB channels must be finite and inside [0, 1]"@,
        )
        + crate::report::error_if(
            !(material.base_color_variation.is_finite() && material.base_color_variation.within(
                Single::zero(),
                Single::ratio(1, 2),
            )),
            "invalid_material_color_variation"@,
            crate::text::element(path, i, ".base_color_variation"@),
            "base-colour variation must be finite and inside [0, 0.5]"@,
        ) + range_rules(crate::text::element(path, i, ".roughness"@), material.roughness, false)
        + range_rules(crate::text::element(path, i, ".weathering"@), material.weathering, false)
        + unit_range_rules(crate::text::element(path, i, ".roughness"@), material.roughness)
        + unit_range_rules(crate::text::element(path, i, ".weathering"@), material.weathering)
}

/// What the first `n` choices of a palette have to meet.
pub open spec fn first_material_rules(
    path: Seq<char>,
    materials: Seq<MaterialChoice>,
    n: nat,
) -> Seq<crate::report::Rule>
    decreases n,
{
    if n == 0 {
        Seq::empty()
    } else {
        first_material_rules(path, materials, (n - 1) as nat) + material_rules(
            path,
            materials,
            n - 1,
        )
    }
}

/// A palette has a choice of positive weight, and every choice is sound.
pub open spec fn materials_rules(
    path: Seq<char>,
    materials: Seq<MaterialChoice>,
) -> Seq<crate::report::Rule> {
    crate::report::error_if(
        weightless(materials),
        "empty_weighted_distribution"@,
        path,
        "at least one positive-weight material is required"@,
    ) + first_material_rules(path, materials, materials.len())
}

fn is_weightless(materials: &Vec<MaterialChoice>) -> (r: bool)
    ensures
        r == weightless(materials@),
{
    let mut i: usize = 0;
    while i < materials.len()
        invariant
            i <= materials@.len(),
            forall|j: int| 0 <= j < i ==> (#[trigger] materials@[j]).weight == 0,
        decreases materials@.len() - i,
    {
        if materials[i].weight != 0 {
            return false;
        }
        i = i + 1;
    }
    true
}

fn is_repeated_material(materials: &Vec<MaterialChoice>, i: usize) -> (r: bool)
    requires
        i < materials@.len(),
    ensures
        r == repeated_material(materials@, i as int),
{
    let mut j: usize = 0;
    while j < i
        invariant
            j <= i < materials@.len(),
            forall|k: int| 0 <= k < j ==> (#[trigger] materials@[k]).id@ != materials@[i as int].id@,
        decreases i - j,
    {
        if same_text(&materials[j].id, &materials[i].id) {
            return true;
        }
        j = j + 1;
    }
    false
}

fn check_material(
    report: &mut ValidationReport,
    path: &str,
    materials: &Vec<MaterialChoice>,
    i: usize,
)
    requires
        i < materials@.len(),
    ensures
        final(report)@ == crate::report::applied(
            old(report)@,
            material_rules(path@, materials@, i as int),
        ),
{
    let material = &materials[i];
    report.check_element(
        is_blank(&material.id) || is_repeated_material(materials, i),
        "invalid_material_id",
        path,
        i,
        ".id",
        "material ID must be non-empty and unique",
    );
    report.check_element(
        !is_unit_color(&material.base_color_srgb),
        "invalid_material_color",
        path,
        i,
        ".base_color_srgb",
        "sRGB channels must be finite and inside [0, 1]",
    );
    report.check_element(
        !(material.base_color_variation.is_finite() && material.base_color_variation.within(
            Single::zero(),
            Single::ratio(1, 2),
        )),
        "invalid_material_color_variation",
        path,
        i,
        ".base_color_variation",
        "base-colour variation must be finite and inside [0, 0.5]",
    );
    let roughness = element_path(path, i, ".roughness");
    let weathering = element_path(path, i, ".weathering");
    validate_range(report, &roughness, material.roughness, false);
    validate_range(report, &weathering, material.weathering, false);
    validate_unit_range(report, &roughness, material.roughness);
    validate_unit_range(report, &weathering, material.weathering);
}

/// Checks a material palette.
pub fn validate_materials(
    report: &mut ValidationReport,
    path: &str,
    materials: &Vec<MaterialChoice>,
)
    ensures
        final(report)@ == crate::report::applied(old(report)@, materials_rules(path@, materials@)),
{
    report.check(
        is_weightless(materials),
        "empty_weighted_distribution",
        path,
        "at least one positive-weight material is required",
    );
    let ghost start = report@;
    let mut i: usize = 0;
    while i < materials.len()
        invariant
            i <= materials@.len(),
            report@ == crate::report::applied(
                start,
                first_material_rules(path@, materials@, i as nat),
            ),
        decreases materials@.len() - i,
    {
        check_material(report, path, materials, i);
        i = i + 1;
    }
}

} // verus!
