//! Validation of models and packages against a configurable set of rules.

use vstd::prelude::*;

use crate::domain::model::Model;
use crate::package::ThreemfPackage;
use crate::validator_rules::{rule_issues, run_rule_for_model, run_rule_for_package};

verus! {

/// Severity of a validation issue.
#[derive(Debug, Clone, Copy, PartialEq, Eq, Structural)]
pub enum Severity {
    /// A critical issue that makes the model invalid.
    Error,
    /// A non-critical issue that should be addressed.
    Warning,
    /// An informational message.
    Info,
}

/// An issue found during validation.
#[derive(Debug, Clone, PartialEq, Eq)]
pub struct ValidationIssue {
    /// The severity of the issue.
    pub severity: Severity,
    /// A human-readable description of the issue.
    pub message: String,
}

/// An issue as a severity and the characters of its message.
pub type IssueSpec = (Severity, Seq<char>);

/// The severities and messages of a list of issues.
pub open spec fn issues_view(s: Seq<ValidationIssue>) -> Seq<IssueSpec> {
    s.map_values(|i: ValidationIssue| (i.severity, i.message@))
}

/// Some issue of the list is an error.
pub open spec fn has_error(s: Seq<IssueSpec>) -> bool {
    exists|i: int| 0 <= i < s.len() && (#[trigger] s[i]).0 == Severity::Error
}

impl ValidationIssue {
    /// An issue of the given severity and message.
    pub fn new(severity: Severity, message: &str) -> (r: Self)
        ensures
            r.severity == severity,
            r.message@ == message@,
    {
        ValidationIssue { severity, message: String::from_str(message) }
    }
}

/// The result of a validation: the issues found, and whether none of them is an error.
#[derive(Debug, Clone, PartialEq, Eq)]
pub struct ValidationResult {
    /// All issues found.
    pub issues: Vec<ValidationIssue>,
    /// True if no issue is an error.
    pub is_valid: bool,
}

impl ValidationResult {
    /// The result holding `issues`; it is valid exactly when none of them is an error.
    pub fn new(issues: Vec<ValidationIssue>) -> (r: Self)
        ensures
            r.issues == issues,
            r.is_valid == !has_error(issues_view(issues@)),
    {
        let n = issues.len();
        let mut is_valid = true;
        for i in 0..n
            invariant
                n == issues@.len(),
                is_valid == !(exists|j: int| 0 <= j < i && (#[trigger] issues@[j]).severity == Severity::Error),
        {
            if issues[i].severity == Severity::Error {
                is_valid = false;
            }
        }
        proof {
            let v = issues_view(issues@);
            if has_error(v) {
                let j = choose|j: int| 0 <= j < v.len() && (#[trigger] v[j]).0 == Severity::Error;
                assert(issues@[j].severity == Severity::Error);
            }
            if !is_valid {
                let j = choose|j: int| 0 <= j < n && (#[trigger] issues@[j]).severity == Severity::Error;
                assert(v[j].0 == Severity::Error);
            }
        }
        ValidationResult { issues, is_valid }
    }

    /// The result with no issue, which is valid.
    pub fn valid() -> (r: Self)
        ensures
            r.issues@.len() == 0,
            r.is_valid,
    {
        ValidationResult { issues: Vec::new(), is_valid: true }
    }
}

/// What a rule needs to run.
#[derive(Debug, Clone, Copy, PartialEq, Eq, Structural)]
pub enum ValidationScope {
    /// The rule can run on a single model.
    ModelOrPackage,
    /// The rule needs the whole package.
    PackageOnly,
}

/// The rules that a validator can apply.
#[derive(Debug, Clone, Copy, PartialEq, Eq, Structural)]
pub enum ValidationRule {
    /// Object ids are unique, start at 1 and lie in the valid range.
    ObjectIdReference,
    /// The `pid` of an object names base materials that exist, and an object with a
    /// `pindex` has a `pid`.
    ResourceIdReference,
    /// Every build item references an object that exists.
    BuildItemReference,
    /// Every component references an object that exists.
    ComponentReference,
}

/// The scope of a rule: every rule can run on a single model.
pub open spec fn rule_scope(rule: ValidationRule) -> ValidationScope {
    ValidationScope::ModelOrPackage
}

impl ValidationRule {
    /// The scope that this rule needs.
    pub fn scope(&self) -> (r: ValidationScope)
        ensures
            r == rule_scope(*self),
    {
        match self {
            ValidationRule::ObjectIdReference => ValidationScope::ModelOrPackage,
            ValidationRule::ResourceIdReference => ValidationScope::ModelOrPackage,
            ValidationRule::BuildItemReference => ValidationScope::ModelOrPackage,
            ValidationRule::ComponentReference => ValidationScope::ModelOrPackage,
        }
    }
}

/// The issues of running `rules` in order on a single model, skipping the rules that
/// need the whole package.
pub open spec fn model_validation_issues(rules: Seq<ValidationRule>, model: Model) -> Seq<IssueSpec>
    decreases rules.len(),
{
    if rules.len() == 0 {
        Seq::empty()
    } else {
        model_validation_issues(rules.drop_last(), model) + if rule_scope(rules.last())
            == ValidationScope::ModelOrPackage {
            rule_issues(rules.last(), model, None)
        } else {
            Seq::empty()
        }
    }
}

/// The issues of running `rules` in order on a package.
pub open spec fn package_validation_issues(rules: Seq<ValidationRule>, package: ThreemfPackage) -> Seq<IssueSpec>
    decreases rules.len(),
{
    if rules.len() == 0 {
        Seq::empty()
    } else {
        package_validation_issues(rules.drop_last(), package) + rule_issues(
            rules.last(),
            package.root,
            Some(package),
        )
    }
}

/// Runs a set of rules against models or packages.
#[derive(Debug, Clone)]
pub struct Validator {
    /// The rules, in the order in which they run.
    pub rules: Vec<ValidationRule>,
}

impl Default for Validator {
    fn default() -> (r: Self)
        ensures
            r.rules@.len() == 0,
    {
        Self::new()
    }
}

impl Validator {
    /// A validator with no rules.
    pub fn new() -> (r: Self)
        ensures
            r.rules@.len() == 0,
    {
        Validator { rules: Vec::new() }
    }

    /// This validator with `rule` added after its other rules.
    pub fn with_rule(self, rule: ValidationRule) -> (r: Self)
        ensures
            r.rules@ == self.rules@.push(rule),
    {
        let mut v = self;
        v.rules.push(rule);
        v
    }

    /// Runs the rules that can run on a single model against `model`; the issues come
    /// in the order of the rules.
    pub fn validate_model(&self, model: &Model) -> (r: ValidationResult)
        ensures
            issues_view(r.issues@) == model_validation_issues(self.rules@, *model),
            r.is_valid == !has_error(model_validation_issues(self.rules@, *model)),
    {
        let mut issues: Vec<ValidationIssue> = Vec::new();
        let n = self.rules.len();
        for i in 0..n
            invariant
                n == self.rules@.len(),
                issues_view(issues@) =~= model_validation_issues(self.rules@.take(i as int), *model),
        {
            proof {
                assert(self.rules@.take(i + 1).drop_last() =~= self.rules@.take(i as int));
            }
            let rule = self.rules[i];
            if rule.scope() == ValidationScope::ModelOrPackage {
                let mut rule_result = run_rule_for_model(&rule, model);
                let ghost before = issues@;
                issues.append(&mut rule_result);
                proof {
                    assert(issues_view(issues@) =~= issues_view(before) + rule_issues(rule, *model, None));
                }
            }
        }
        proof {
            assert(self.rules@.take(n as int) =~= self.rules@);
        }
        ValidationResult::new(issues)
    }

    /// Runs all rules against `package`; the issues come in the order of the rules.
    pub fn validate_package(&self, package: &ThreemfPackage) -> (r: ValidationResult)
        ensures
            issues_view(r.issues@) == package_validation_issues(self.rules@, *package),
            r.is_valid == !has_error(package_validation_issues(self.rules@, *package)),
    {
        let mut issues: Vec<ValidationIssue> = Vec::new();
        let n = self.rules.len();
        for i in 0..n
            invariant
                n == self.rules@.len(),
                issues_view(issues@) =~= package_validation_issues(self.rules@.take(i as int), *package),
        {
            proof {
                assert(self.rules@.take(i + 1).drop_last() =~= self.rules@.take(i as int));
            }
            let rule = self.rules[i];
            let mut rule_result = run_rule_for_package(&rule, package);
            let ghost before = issues@;
            issues.append(&mut rule_result);
            proof {
                assert(issues_view(issues@) =~= issues_view(before) + rule_issues(rule, package.root, Some(*package)));
            }
        }
        proof {
            assert(self.rules@.take(n as int) =~= self.rules@);
        }
        ValidationResult::new(issues)
    }
}

} // verus!
