use guardupload::config::PolicyConfig;
use guardupload::decision::{compare_decision, fold_file_decision, Decision, DecisionOutcome};
use guardupload::pattern::{matches_pattern, matches_pattern_bytes};
use guardupload::policy::{validator_decision, PolicyEngine, ResolvedPolicy};
use guardupload::validators::{ValidatorOutcome, ValidatorStatus};

fn engine_with(config: PolicyConfig) -> PolicyEngine {
    PolicyEngine::new(config)
}

#[test]
fn decision_variants_match_strings() {
    assert_eq!(Decision::Allow.as_str(), "ALLOW");
    assert_eq!(Decision::Warn.as_str(), "WARN");
    assert_eq!(Decision::Deny.as_str(), "DENY");
}

#[test]
fn decision_severity_orders_correctly() {
    assert!(Decision::Allow.severity() < Decision::Warn.severity());
    assert!(Decision::Warn.severity() < Decision::Deny.severity());
}

#[test]
fn compare_decision_picks_highest_severity() {
    assert_eq!(compare_decision(Decision::Allow, Decision::Warn), Decision::Warn);
    assert_eq!(compare_decision(Decision::Warn, Decision::Allow), Decision::Warn);
    assert_eq!(compare_decision(Decision::Warn, Decision::Deny), Decision::Deny);
}

#[test]
fn engine_holds_config_reference() {
    let config = PolicyConfig::default();
    let engine = PolicyEngine::new(config.clone());
    assert_eq!(engine.config().defaults.max_size_mb, config.defaults.max_size_mb);
}

#[test]
fn deny_list_blocks_matching_mime() {
    let mut config = PolicyConfig::default();
    config.defaults.deny_types = vec!["application/x-rpm".into()];
    let engine = engine_with(config);
    let outcome = engine.decide("application/x-rpm", 1024, &[], None);
    assert_eq!(outcome.decision, Decision::Deny);
    assert!(outcome.rules_triggered.iter().any(|rule| rule == "mime:deny:application/x-rpm"));
}

#[test]
fn allow_list_denies_when_mime_absent() {
    let mut config = PolicyConfig::default();
    config.defaults.allow_types = vec!["image/*".into(), "application/pdf".into()];
    let engine = engine_with(config);
    let outcome = engine.decide("video/mp4", 2048, &[], None);
    assert_eq!(outcome.decision, Decision::Deny);
    assert!(outcome.rules_triggered.iter().any(|rule| rule == "mime:not_allowed:video/mp4"));
}

#[test]
fn allow_list_matches_wildcard() {
    let mut config = PolicyConfig::default();
    config.defaults.allow_types = vec!["image/*".into()];
    let engine = engine_with(config);
    let outcome = engine.decide("image/png", 512, &[], None);
    assert_eq!(outcome.decision, Decision::Allow);
}

#[test]
fn size_limit_triggers_deny() {
    let mut config = PolicyConfig::default();
    config.defaults.max_size_mb = Some(1);
    let engine = engine_with(config);
    let outcome = engine.decide("application/pdf", 2 * 1024 * 1024, &[], None);
    assert_eq!(outcome.decision, Decision::Deny);
    assert!(outcome.rules_triggered.iter().any(|rule| rule.starts_with("size:exceeds_max:")));
}

#[test]
fn validator_denies_propagate_to_policy() {
    let config = PolicyConfig::default();
    let engine = engine_with(config);
    let validator = ValidatorOutcome::deny("pdf", "teste".into());
    let outcome = engine.decide("application/pdf", 1024, &[validator], None);
    assert_eq!(outcome.decision, Decision::Deny);
    assert!(outcome.rules_triggered.iter().any(|rule| rule.starts_with("validator:pdf")));
}

#[test]
fn glob_examples() {
    assert!(matches_pattern("image/*", "image/png"));
    assert!(!matches_pattern("image/*", "video/mp4"));
    assert!(matches_pattern("*", ""));
    assert!(matches_pattern("*", "anything"));
    assert!(matches_pattern("a?c", "abc"));
    assert!(!matches_pattern("a?c", "ac"));
    assert!(matches_pattern("", ""));
    assert!(!matches_pattern("", "a"));
    assert!(matches_pattern("**a*b", "xxaYYb"));
    assert!(!matches_pattern("a*b", "ab c"));
    assert!(matches_pattern_bytes(b"ab", b"ab"));
    assert!(!matches_pattern_bytes(b"ab", b"aB"));
}

#[test]
fn mime_lists_ignore_case() {
    let mut config = PolicyConfig::default();
    config.defaults.deny_types = vec!["Application/X-RPM".into()];
    config.defaults.allow_types = vec!["IMAGE/*".into()];
    let engine = engine_with(config);
    let outcome = engine.decide("image/PNG", 10, &[], None);
    assert_eq!(outcome.decision, Decision::Allow);
    assert!(outcome.rules_triggered.is_empty());
    let outcome = engine.decide("APPLICATION/x-rpm", 10, &[], None);
    assert_eq!(
        outcome.rules_triggered,
        vec!["mime:deny:Application/X-RPM".to_string(), "mime:not_allowed:APPLICATION/x-rpm".to_string()]
    );
}

#[test]
fn recording_keeps_order_and_maximum() {
    let mut outcome = DecisionOutcome::new();
    outcome.record(Decision::Warn, "a".into());
    assert_eq!(outcome.decision, Decision::Warn);
    outcome.record(Decision::Deny, "b".into());
    outcome.record(Decision::Allow, "c".into());
    outcome.record(Decision::Warn, "d".into());
    assert_eq!(outcome.decision, Decision::Deny);
    assert_eq!(outcome.rules_triggered, vec!["a", "b", "c", "d"]);
    let fresh = DecisionOutcome::default();
    assert_eq!(fresh.decision, Decision::Allow);
    assert!(fresh.rules_triggered.is_empty());
}

#[test]
fn deny_list_precedes_allow_all() {
    let mut config = PolicyConfig::default();
    config.defaults.deny_types = vec!["application/x-rpm".into()];
    config.defaults.allow_types = vec!["*".into()];
    let engine = engine_with(config);
    let outcome = engine.decide("application/x-rpm", 100, &[], None);
    assert_eq!(outcome.decision, Decision::Deny);
    assert_eq!(outcome.rules_triggered, vec!["mime:deny:application/x-rpm"]);
}

#[test]
fn size_boundary_is_inclusive() {
    let mut config = PolicyConfig::default();
    config.defaults.max_size_mb = Some(1);
    let engine = engine_with(config);
    let at_limit = engine.decide("text/plain", 1024 * 1024, &[], None);
    assert_eq!(at_limit.decision, Decision::Allow);
    assert!(at_limit.rules_triggered.is_empty());
    let above = engine.decide("text/plain", 1024 * 1024 + 1, &[], None);
    assert_eq!(above.decision, Decision::Deny);
    assert_eq!(above.rules_triggered, vec!["size:exceeds_max:1048577>1048576"]);
}

#[test]
fn scenario_deny_type() {
    let mut config = PolicyConfig::default();
    config.defaults.deny_types = vec!["application/x-rpm".into()];
    let engine = engine_with(config);
    let outcome = engine.decide("application/x-rpm", 1024, &[], None);
    assert_eq!(outcome.decision, Decision::Deny);
    assert_eq!(outcome.rules_triggered, vec!["mime:deny:application/x-rpm"]);
}

#[test]
fn validator_statuses_map_to_rules() {
    let engine = engine_with(PolicyConfig::default());
    let outcomes = vec![
        ValidatorOutcome::pass("generic"),
        ValidatorOutcome::warn("image", "w".into()),
        ValidatorOutcome::error("archive", "e".into()),
        ValidatorOutcome::new("pdf", ValidatorStatus::Deny, guardupload::validators::Details::Empty),
    ];
    let outcome = engine.decide("text/plain", 1, &outcomes, None);
    assert_eq!(outcome.decision, Decision::Deny);
    assert_eq!(
        outcome.rules_triggered,
        vec!["validator:image:warn", "validator:archive:error", "validator:pdf:deny"]
    );
    let warn_only = engine.decide("text/plain", 1, &outcomes[..2], None);
    assert_eq!(warn_only.decision, Decision::Warn);
}

#[test]
fn resolved_policy_limit_is_used() {
    let mut config = PolicyConfig::default();
    config.defaults.max_size_mb = Some(2);
    let engine = engine_with(config);
    let resolved: ResolvedPolicy = engine.resolve();
    assert_eq!(resolved.defaults.max_size_mb, Some(2));
    assert_eq!(resolved.pdf.max_pages, Some(200));
    let outcome = engine.decide("text/plain", 3 * 1024 * 1024, &[], Some(&resolved));
    assert_eq!(outcome.rules_triggered, vec!["size:exceeds_max:3145728>2097152"]);
}

#[test]
fn validators_decide_without_a_policy() {
    let outcomes = vec![ValidatorOutcome::pass("pdf"), ValidatorOutcome::error("image", "e".into())];
    let outcome = validator_decision(&outcomes);
    assert_eq!(outcome.decision, Decision::Deny);
    assert_eq!(outcome.rules_triggered, vec!["validator:image:error"]);
    assert_eq!(validator_decision(&[]).decision, Decision::Allow);
}

#[test]
fn unevaluated_file_counts_as_deny() {
    assert_eq!(fold_file_decision(Decision::Allow, None), Decision::Deny);
    assert_eq!(fold_file_decision(Decision::Warn, Some(Decision::Allow)), Decision::Warn);
    assert_eq!(fold_file_decision(Decision::Allow, Some(Decision::Warn)), Decision::Warn);
}
