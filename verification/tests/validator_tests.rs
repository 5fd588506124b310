use threemf2::validator::{
    Severity, ValidationIssue, ValidationResult, ValidationRule, ValidationScope, Validator,
};

#[test]
fn test_validation_result_valid() {
    let result = ValidationResult::valid();
    assert!(result.is_valid);
    assert!(result.issues.is_empty());
}

#[test]
fn test_validation_result_with_warning() {
    let issues = vec![ValidationIssue::new(Severity::Warning, "Test warning")];
    let result = ValidationResult::new(issues);
    assert!(result.is_valid);
    assert_eq!(result.issues.len(), 1);
}

#[test]
fn test_validation_result_with_error() {
    let issues = vec![ValidationIssue::new(Severity::Error, "Test error")];
    let result = ValidationResult::new(issues);
    assert!(!result.is_valid);
    assert_eq!(result.issues.len(), 1);
}

#[test]
fn test_validation_result_mixed() {
    let issues = vec![
        ValidationIssue::new(Severity::Info, "Test info"),
        ValidationIssue::new(Severity::Warning, "Test warning"),
        ValidationIssue::new(Severity::Error, "Test error"),
    ];
    let result = ValidationResult::new(issues);
    assert!(!result.is_valid);
    assert_eq!(result.issues.len(), 3);
}

#[test]
fn test_validator_builder_pattern() {
    let validator = Validator::new()
        .with_rule(ValidationRule::ObjectIdReference)
        .with_rule(ValidationRule::ResourceIdReference);

    assert_eq!(validator.rules.len(), 2);
    assert!(validator.rules.contains(&ValidationRule::ObjectIdReference));
    assert!(validator.rules.contains(&ValidationRule::ResourceIdReference));
}

#[test]
fn test_rule_scopes() {
    assert_eq!(
        ValidationRule::ObjectIdReference.scope(),
        ValidationScope::ModelOrPackage
    );
    assert_eq!(
        ValidationRule::ResourceIdReference.scope(),
        ValidationScope::ModelOrPackage
    );
}

#[test]
fn issue_new_keeps_severity_and_message() {
    let issue = ValidationIssue::new(Severity::Info, "note");
    assert_eq!(issue.severity, Severity::Info);
    assert_eq!(issue.message, "note");
}

#[test]
fn validation_result_of_only_infos_is_valid() {
    let result = ValidationResult::new(vec![
        ValidationIssue::new(Severity::Info, "a"),
        ValidationIssue::new(Severity::Info, "b"),
    ]);
    assert!(result.is_valid);
}

#[test]
fn default_validator_has_no_rules() {
    let validator = Validator::default();
    assert!(validator.rules.is_empty());
    assert_eq!(ValidationRule::BuildItemReference.scope(), ValidationScope::ModelOrPackage);
    assert_eq!(ValidationRule::ComponentReference.scope(), ValidationScope::ModelOrPackage);
}
