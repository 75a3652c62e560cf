//! Findings of validation, and the rules that they come from.

use crate::text::push_decimal;
use vstd::prelude::*;
use vstd::string::*;

verus! {

/// Importance of one validation finding.
#[derive(Clone, Copy, Debug, PartialEq, Eq, Structural)]
pub enum Severity {
    /// Record or configuration must not be accepted.
    Error,
    /// Record is structurally usable but merits inspection.
    Warning,
}

impl Severity {
    /// Name of the severity.
    pub open spec fn name(self) -> Seq<char> {
        match self {
            Severity::Error => "Error"@,
            Severity::Warning => "Warning"@,
        }
    }
}

/// One stable, machine-readable validation finding.
#[derive(Clone, Debug, PartialEq, Eq)]
pub struct ValidationIssue {
    /// Error or warning.
    pub severity: Severity,
    /// Stable snake-case identifier suitable for metrics.
    pub code: String,
    /// JSON-like path to the failing value.
    pub path: String,
    /// Concise human-readable explanation.
    pub message: String,
}

/// What an issue says.
pub struct Finding {
    /// Error or warning.
    pub severity: Severity,
    /// Stable snake-case identifier.
    pub code: Seq<char>,
    /// JSON-like path to the failing value.
    pub path: Seq<char>,
    /// Human-readable explanation.
    pub message: Seq<char>,
}

impl View for ValidationIssue {
    type V = Finding;

    open spec fn view(&self) -> Finding {
        Finding {
            severity: self.severity,
            code: self.code@,
            path: self.path@,
            message: self.message@,
        }
    }
}

/// Complete validation result. Warnings do not make a report invalid.
#[derive(Clone, Debug, PartialEq, Eq)]
pub struct ValidationReport {
    /// Findings in deterministic traversal order.
    pub issues: Vec<ValidationIssue>,
}

impl View for ValidationReport {
    type V = Seq<Finding>;

    open spec fn view(&self) -> Seq<Finding> {
        Seq::new(self.issues@.len(), |i: int| self.issues@[i]@)
    }
}

/// One thing that validation looks at, and what it reports if that is broken.
pub struct Rule {
    /// Whether the rule is broken.
    pub broken: bool,
    /// What is reported then.
    pub finding: Finding,
}

/// A rule whose breach must not be accepted.
pub open spec fn error(broken: bool, code: Seq<char>, path: Seq<char>, message: Seq<char>) -> Rule {
    Rule { broken, finding: Finding { severity: Severity::Error, code, path, message } }
}

/// A rule whose breach merits inspection.
pub open spec fn warning(
    broken: bool,
    code: Seq<char>,
    path: Seq<char>,
    message: Seq<char>,
) -> Rule {
    Rule { broken, finding: Finding { severity: Severity::Warning, code, path, message } }
}

/// One rule whose breach must not be accepted, as a list.
pub open spec fn error_if(
    broken: bool,
    code: Seq<char>,
    path: Seq<char>,
    message: Seq<char>,
) -> Seq<
    Rule,
> {
    seq![error(broken, code, path, message)]
}

/// One rule whose breach merits inspection, as a list.
pub open spec fn warning_if(
    broken: bool,
    code: Seq<char>,
    path: Seq<char>,
    message: Seq<char>,
) -> Seq<Rule> {
    seq![warning(broken, code, path, message)]
}

/// Findings after looking at one more rule.
pub open spec fn noted(findings: Seq<Finding>, rule: Rule) -> Seq<Finding> {
    if rule.broken {
        findings.push(rule.finding)
    } else {
        findings
    }
}

/// Findings after looking at more rules, in their order.
pub open spec fn applied(findings: Seq<Finding>, rules: Seq<Rule>) -> Seq<Finding>
    decreases rules.len(),
{
    if rules.len() == 0 {
        findings
    } else {
        noted(applied(findings, rules.drop_last()), rules.last())
    }
}

/// What is reported of a list of rules: the finding of each broken one, in their order.
pub open spec fn broken(rules: Seq<Rule>) -> Seq<Finding> {
    applied(Seq::empty(), rules)
}

/// The list holds no error.
pub open spec fn acceptable(findings: Seq<Finding>) -> bool {
    forall|i: int| 0 <= i < findings.len() ==> (#[trigger] findings[i]).severity != Severity::Error
}

/// How many findings have a severity.
pub open spec fn count(findings: Seq<Finding>, severity: Severity) -> nat
    decreases findings.len(),
{
    if findings.len() == 0 {
        0
    } else {
        count(findings.drop_last(), severity) + if findings.last().severity == severity {
            1nat
        } else {
            0
        }
    }
}

pub broadcast proof fn applied_push(findings: Seq<Finding>, rules: Seq<Rule>, rule: Rule)
    ensures
        #[trigger] applied(findings, rules.push(rule)) == noted(applied(findings, rules), rule),
{
    assert(rules.push(rule).drop_last() =~= rules);
}

pub broadcast proof fn applied_empty(findings: Seq<Finding>)
    ensures
        #[trigger] applied(findings, Seq::<Rule>::empty()) == findings,
{
}

pub broadcast proof fn applied_concat(findings: Seq<Finding>, a: Seq<Rule>, b: Seq<Rule>)
    ensures
        #[trigger] applied(findings, a + b) == applied(applied(findings, a), b),
    decreases b.len(),
{
    if b.len() == 0 {
        assert(a + b =~= a);
    } else {
        applied_concat(findings, a, b.drop_last());
        assert((a + b).drop_last() =~= a + b.drop_last());
        assert((a + b).last() == b.last());
    }
}

pub broadcast group group_rules {
    applied_push,
    applied_empty,
    applied_concat,
}

/// Looking at further rules only appends findings: nothing found before changes.
pub proof fn findings_only_grow(findings: Seq<Finding>, rules: Seq<Rule>)
    ensures
        applied(findings, rules) == findings + broken(rules),
    decreases rules.len(),
{
    if rules.len() == 0 {
        assert(findings + broken(rules) =~= findings);
    } else {
        findings_only_grow(findings, rules.drop_last());
        let before = broken(rules.drop_last());
        assert(findings + before.push(rules.last().finding) =~= (findings + before).push(
            rules.last().finding,
        ));
    }
}

/// A report is acceptable exactly when every broken rule is a warning.
pub proof fn acceptable_iff_no_error_rule_is_broken(rules: Seq<Rule>)
    ensures
        acceptable(broken(rules)) <==> forall|i: int|
            0 <= i < rules.len() ==> !((#[trigger] rules[i]).broken && rules[i].finding.severity
                == Severity::Error),
    decreases rules.len(),
{
    if rules.len() > 0 {
        let before = rules.drop_last();
        acceptable_iff_no_error_rule_is_broken(before);
        let found = broken(before);
        let last = rules.last();
        if last.broken {
            assert(broken(rules) == found.push(last.finding));
            assert(found.push(last.finding).last() == last.finding);
            assert(forall|i: int| 0 <= i < found.len() ==> found.push(last.finding)[i] == found[i]);
        }
        assert(forall|i: int| 0 <= i < before.len() ==> before[i] == rules[i]);
        if acceptable(broken(rules)) {
            assert forall|i: int| 0 <= i < found.len() implies (#[trigger] found[i]).severity
                != Severity::Error by {
                if last.broken {
                    assert(broken(rules)[i] == found[i]);
                }
            }
            if last.broken {
                assert(broken(rules)[found.len() as int] == last.finding);
            }
            assert forall|i: int| 0 <= i < rules.len() implies !((#[trigger] rules[i]).broken
                && rules[i].finding.severity == Severity::Error) by {
                if i < before.len() {
                    assert(before[i] == rules[i]);
                }
            }
        } else {
            if forall|i: int|
                0 <= i < rules.len() ==> !((#[trigger] rules[i]).broken && rules[i].finding.severity
                    == Severity::Error) {
                assert forall|i: int| 0 <= i < before.len() implies !((#[trigger] before[i]).broken
                    && before[i].finding.severity == Severity::Error) by {
                    assert(before[i] == rules[i]);
                }
                assert(rules[rules.len() - 1] == last);
                assert(acceptable(broken(rules)));
            }
        }
    }
}

/// A report holds the finding of every broken rule: none hides another.
pub proof fn every_broken_rule_is_found(rules: Seq<Rule>, i: int)
    requires
        0 <= i < rules.len(),
        rules[i].broken,
    ensures
        broken(rules).contains(rules[i].finding),
    decreases rules.len(),
{
    let before = rules.drop_last();
    let found = broken(before);
    if i < before.len() {
        every_broken_rule_is_found(before, i);
        let at = choose|at: int| 0 <= at < found.len() && found[at] == rules[i].finding;
        assert(broken(rules)[at] == found[at]);
    } else {
        assert(broken(rules)[found.len() as int] == rules[i].finding);
    }
}

/// Some broken rule has a code.
pub open spec fn breaks(rules: Seq<Rule>, code: Seq<char>) -> bool {
    exists|i: int|
        0 <= i < rules.len() && (#[trigger] rules[i]).broken && rules[i].finding.code == code
}

/// Some finding has a code.
pub open spec fn mentions(findings: Seq<Finding>, code: Seq<char>) -> bool {
    exists|i: int| 0 <= i < findings.len() && (#[trigger] findings[i]).code == code
}

/// Where some broken rule has a code, so has some finding.
pub proof fn broken_codes_are_mentioned(rules: Seq<Rule>, code: Seq<char>)
    requires
        breaks(rules, code),
    ensures
        mentions(broken(rules), code),
{
    let i = choose|i: int|
        0 <= i < rules.len() && (#[trigger] rules[i]).broken && rules[i].finding.code == code;
    every_broken_rule_is_found(rules, i);
}

/// Rules in two parts break a code where either part does.
pub broadcast proof fn breaks_concat(a: Seq<Rule>, b: Seq<Rule>, code: Seq<char>)
    ensures
        #[trigger] breaks(a + b, code) <==> breaks(a, code) || breaks(b, code),
{
    let all = a + b;
    if breaks(a, code) {
        let i = choose|i: int|
            0 <= i < a.len() && (#[trigger] a[i]).broken && a[i].finding.code == code;
        assert(all[i] == a[i]);
    }
    if breaks(b, code) {
        let i = choose|i: int|
            0 <= i < b.len() && (#[trigger] b[i]).broken && b[i].finding.code == code;
        assert(all[a.len() + i] == b[i]);
    }
    if breaks(all, code) {
        let i = choose|i: int|
            0 <= i < all.len() && (#[trigger] all[i]).broken && all[i].finding.code == code;
        if i < a.len() {
            assert(all[i] == a[i]);
        } else {
            assert(all[i] == b[i - a.len()]);
        }
    }
}

/// A single broken rule breaks its own code.
pub broadcast proof fn breaks_error(
    code: Seq<char>,
    path: Seq<char>,
    message: Seq<char>,
)
    ensures
        #[trigger] breaks(error_if(true, code, path, message), code),
{
    assert(error_if(true, code, path, message)[0] == error(true, code, path, message));
}

pub broadcast group group_breaches {
    breaks_concat,
    breaks_error,
}

/// No rule of the list is broken, so that nothing is reported.
#[verifier::opaque]
pub open spec fn kept(rules: Seq<Rule>) -> bool {
    broken(rules).len() == 0
}

/// Rules in two parts are kept exactly where both parts are.
pub broadcast proof fn kept_concat(a: Seq<Rule>, b: Seq<Rule>)
    ensures
        #[trigger] kept(a + b) <==> kept(a) && kept(b),
{
    reveal(kept);
    applied_concat(Seq::empty(), a, b);
    findings_only_grow(broken(a), b);
}

/// A single rule is kept exactly where it is not broken.
pub broadcast proof fn kept_error(
    broken: bool,
    code: Seq<char>,
    path: Seq<char>,
    message: Seq<char>,
)
    ensures
        #[trigger] kept(error_if(broken, code, path, message)) <==> !broken,
{
    reveal(kept);
    let rules = error_if(broken, code, path, message);
    assert(rules.drop_last() =~= Seq::empty());
    assert(rules.last() == error(broken, code, path, message));
    assert(applied(Seq::empty(), rules.drop_last()) =~= Seq::<Finding>::empty());
}

/// No rules at all are kept.
pub broadcast proof fn kept_empty()
    ensures
        #[trigger] kept(Seq::<Rule>::empty()),
{
    reveal(kept);
}

pub broadcast group group_kept {
    kept_concat,
    kept_error,
    kept_empty,
}

/// No error rule of the list is broken.
pub open spec fn met(rules: Seq<Rule>) -> bool {
    acceptable(broken(rules))
}

/// Rules in two parts are met exactly where both parts are.
pub broadcast proof fn met_concat(a: Seq<Rule>, b: Seq<Rule>)
    ensures
        #[trigger] met(a + b) <==> met(a) && met(b),
{
    applied_concat(Seq::empty(), a, b);
    findings_only_grow(broken(a), b);
    let (x, y) = (broken(a), broken(b));
    assert(broken(a + b) == x + y);
    if acceptable(x + y) {
        assert forall|i: int| 0 <= i < x.len() implies (#[trigger] x[i]).severity
            != Severity::Error by {
            assert((x + y)[i] == x[i]);
        }
        assert forall|i: int| 0 <= i < y.len() implies (#[trigger] y[i]).severity
            != Severity::Error by {
            assert((x + y)[x.len() + i] == y[i]);
        }
    }
}

/// A single error rule is met exactly where it is not broken.
pub broadcast proof fn met_error(
    broken: bool,
    code: Seq<char>,
    path: Seq<char>,
    message: Seq<char>,
)
    ensures
        #[trigger] met(error_if(broken, code, path, message)) <==> !broken,
{
    let rules = error_if(broken, code, path, message);
    acceptable_iff_no_error_rule_is_broken(rules);
    assert(rules[0] == error(broken, code, path, message));
}

/// A warning never stands in the way of acceptance.
pub broadcast proof fn met_warning(
    broken: bool,
    code: Seq<char>,
    path: Seq<char>,
    message: Seq<char>,
)
    ensures
        #[trigger] met(warning_if(broken, code, path, message)),
{
    acceptable_iff_no_error_rule_is_broken(warning_if(broken, code, path, message));
}

pub broadcast group group_acceptance {
    met_concat,
    met_error,
    met_warning,
}

/// Every finding is either an error or a warning, and a list is acceptable exactly
/// when it counts no error.
pub proof fn counts_partition_findings(findings: Seq<Finding>)
    ensures
        count(findings, Severity::Error) + count(findings, Severity::Warning) == findings.len(),
        acceptable(findings) <==> count(findings, Severity::Error) == 0,
    decreases findings.len(),
{
    if findings.len() > 0 {
        let before = findings.drop_last();
        counts_partition_findings(before);
        assert(forall|i: int| 0 <= i < before.len() ==> before[i] == findings[i]);
        if acceptable(before) && findings.last().severity != Severity::Error {
            assert forall|i: int| 0 <= i < findings.len() implies (#[trigger] findings[i]).severity
                != Severity::Error by {
                if i < before.len() {
                    assert(before[i] == findings[i]);
                }
            }
        }
        if acceptable(findings) {
            assert forall|i: int| 0 <= i < before.len() implies (#[trigger] before[i]).severity
                != Severity::Error by {
                assert(before[i] == findings[i]);
            }
            assert(findings[findings.len() - 1].severity != Severity::Error);
        }
    }
}

impl Default for ValidationReport {
    fn default() -> (r: Self)
        ensures
            r@ == Seq::<Finding>::empty(),
    {
        let r = ValidationReport { issues: Vec::new() };
        assert(r@ =~= Seq::<Finding>::empty());
        r
    }
}

impl ValidationReport {
    /// Text of every finding, in their order.
    pub open spec fn listing(findings: Seq<Finding>) -> Seq<char>
        decreases findings.len(),
    {
        if findings.len() == 0 {
            Seq::empty()
        } else {
            let last = findings.last();
            ValidationReport::listing(findings.drop_last()) + "; "@ + last.severity.name() + " "@
                + last.code + " at "@ + last.path + ": "@ + last.message
        }
    }

    /// The counts, then every finding.
    pub open spec fn text(findings: Seq<Finding>) -> Seq<char> {
        crate::text::decimal(count(findings, Severity::Error) as int) + " error(s), "@
            + crate::text::decimal(count(findings, Severity::Warning) as int) + " warning(s)"@
            + ValidationReport::listing(findings)
    }

    /// Returns `true` when no error-severity findings exist.
    pub fn is_valid(&self) -> (r: bool)
        ensures
            r == acceptable(self@),
    {
        let mut i: usize = 0;
        while i < self.issues.len()
            invariant
                i <= self.issues@.len(),
                forall|j: int| 0 <= j < i ==> (#[trigger] self@[j]).severity != Severity::Error,
            decreases self.issues@.len() - i,
        {
            if self.issues[i].severity == Severity::Error {
                assert(self@[i as int].severity == Severity::Error);
                return false;
            }
            i = i + 1;
        }
        true
    }

    fn count_of(&self, severity: Severity) -> (r: usize)
        ensures
            r == count(self@, severity),
            r <= self.issues@.len(),
    {
        let mut i: usize = 0;
        let mut n: usize = 0;
        while i < self.issues.len()
            invariant
                i <= self.issues@.len(),
                n <= i,
                n == count(self@.take(i as int), severity),
            decreases self.issues@.len() - i,
        {
            proof {
                assert(self@.take(i + 1).drop_last() =~= self@.take(i as int));
                assert(self@.take(i + 1).last() == self@[i as int]);
            }
            if self.issues[i].severity == severity {
                n = n + 1;
            }
            i = i + 1;
        }
        assert(self@.take(i as int) =~= self@);
        n
    }

    /// Number of error findings.
    pub fn error_count(&self) -> (r: usize)
        ensures
            r == count(self@, Severity::Error),
    {
        self.count_of(Severity::Error)
    }

    /// Number of warning findings.
    pub fn warning_count(&self) -> (r: usize)
        ensures
            r == count(self@, Severity::Warning),
    {
        self.count_of(Severity::Warning)
    }

    fn note(&mut self, severity: Severity, code: &str, path: &str, message: &str)
        ensures
            final(self)@ == old(self)@.push(
                Finding { severity, code: code@, path: path@, message: message@ },
            ),
    {
        let issue = ValidationIssue {
            severity,
            code: code.to_owned(),
            path: path.to_owned(),
            message: message.to_owned(),
        };
        self.issues.push(issue);
        assert(self@ =~= old(self)@.push(
            Finding { severity, code: code@, path: path@, message: message@ },
        ));
    }

    /// Adds an error.
    pub fn error(&mut self, code: &str, path: &str, message: &str)
        ensures
            final(self)@ == old(self)@.push(error(true, code@, path@, message@).finding),
    {
        self.note(Severity::Error, code, path, message);
    }

    /// Adds a warning.
    pub fn warning(&mut self, code: &str, path: &str, message: &str)
        ensures
            final(self)@ == old(self)@.push(warning(true, code@, path@, message@).finding),
    {
        self.note(Severity::Warning, code, path, message);
    }

    /// Looks at a rule: adds an error if it is broken.
    pub fn check(&mut self, broken: bool, code: &str, path: &str, message: &str)
        ensures
            final(self)@ == noted(old(self)@, error(broken, code@, path@, message@)),
    {
        if broken {
            self.error(code, path, message);
        }
    }

    /// Looks at a rule of one list element: adds an error if it is broken.
    pub fn check_element(
        &mut self,
        broken: bool,
        code: &str,
        base: &str,
        index: usize,
        tail: &str,
        message: &str,
    )
        ensures
            final(self)@ == noted(
                old(self)@,
                error(broken, code@, crate::text::element(base@, index as int, tail@), message@),
            ),
    {
        if broken {
            let path = crate::text::element_path(base, index, tail);
            self.error(code, &path, message);
        }
    }

    /// Looks at a rule of one field: adds an error if it is broken.
    pub fn check_field(&mut self, broken: bool, code: &str, base: &str, tail: &str, message: &str)
        ensures
            final(self)@ == noted(old(self)@, error(broken, code@, base@ + tail@, message@)),
    {
        if broken {
            let path = crate::text::joined(base, tail);
            self.error(code, &path, message);
        }
    }

    /// Adds every finding of another report, in its order.
    pub fn append(&mut self, other: ValidationReport)
        ensures
            final(self)@ == old(self)@ + other@,
    {
        let mut issues = other.issues;
        self.issues.append(&mut issues);
        assert(self@ =~= old(self)@ + other@);
    }

    /// The counts, then every finding, on one line.
    pub fn message(&self) -> (r: String)
        ensures
            r@ == ValidationReport::text(self@),
    {
        let mut r: String = String::new();
        push_decimal(&mut r, self.error_count() as u64);
        r.append(" error(s), ");
        push_decimal(&mut r, self.warning_count() as u64);
        r.append(" warning(s)");
        let ghost head = r@;
        assert(head =~= crate::text::decimal(count(self@, Severity::Error) as int) + " error(s), "@
            + crate::text::decimal(count(self@, Severity::Warning) as int) + " warning(s)"@);
        let mut i: usize = 0;
        while i < self.issues.len()
            invariant
                i <= self.issues@.len(),
                r@ == head + ValidationReport::listing(self@.take(i as int)),
            decreases self.issues@.len() - i,
        {
            let issue = &self.issues[i];
            let ghost before = ValidationReport::listing(self@.take(i as int));
            r.append("; ");
            match issue.severity {
                Severity::Error => r.append("Error"),
                Severity::Warning => r.append("Warning"),
            }
            r.append(" ");
            r.append(&issue.code);
            r.append(" at ");
            r.append(&issue.path);
            r.append(": ");
            r.append(&issue.message);
            proof {
                assert(self@.take(i + 1).drop_last() =~= self@.take(i as int));
                assert(self@.take(i + 1).last() == self@[i as int]);
                let f = self@[i as int];
                assert(r@ =~= head + (before + "; "@ + f.severity.name() + " "@ + f.code + " at "@
                    + f.path + ": "@ + f.message));
            }
            i = i + 1;
        }
        assert(self@.take(i as int) =~= self@);
        r
    }
}

/// Type with context-free structural validation.
pub trait Validate {
    /// Everything that validation looks at.
    spec fn rules(&self) -> Seq<Rule>;

    /// Checks every field and returns all findings instead of failing fast.
    fn validate(&self) -> (report: ValidationReport)
        ensures
            report@ == broken(self.rules()),
    ;
}

} // verus!
