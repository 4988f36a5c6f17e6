use guardupload::cli::{BenchArgs, Cli, Commands, FailOn, LogLevel};
use guardupload::config::PolicyConfig;
use guardupload::decision::Decision;
use guardupload::engine::{analyze_bytes, compute_exit_code, digest_hex, BenchRequest, Engine};
use guardupload::error::GuardUploadError;
use guardupload::policy::PolicyEngine;
use guardupload::report::{PolicyDecision, SniffReport, SummaryReport};
use guardupload::sniff::{magic_fingerprint, sniff_bytes};
use guardupload::text::{decimal_string, eq_ignore_ascii_case_str};
use guardupload::validators::ValidatorStatus;

#[test]
fn compute_exit_code_respects_fail_on() {
    assert_eq!(compute_exit_code(FailOn::Deny, Decision::Allow), 0);
    assert_eq!(compute_exit_code(FailOn::Warn, Decision::Warn), 3);
    assert_eq!(compute_exit_code(FailOn::Deny, Decision::Deny), 1);
    assert_eq!(compute_exit_code(FailOn::Error, Decision::Warn), 0);
}

#[test]
fn exit_codes_for_every_threshold() {
    assert_eq!(compute_exit_code(FailOn::Warn, Decision::Deny), 1);
    assert_eq!(compute_exit_code(FailOn::Deny, Decision::Warn), 0);
    assert_eq!(compute_exit_code(FailOn::Error, Decision::Deny), 0);
}

#[test]
fn summary_report_counts_by_decision() {
    let mut summary = SummaryReport::default();
    summary.update(&PolicyDecision { decision: "ALLOW".into(), rules_triggered: vec![] });
    summary.update(&PolicyDecision { decision: "WARN".into(), rules_triggered: vec![] });
    summary.update(&PolicyDecision { decision: "DENY".into(), rules_triggered: vec![] });
    assert_eq!(summary.scanned, 3);
    assert_eq!(summary.allow, 1);
    assert_eq!(summary.warn, 1);
    assert_eq!(summary.deny, 1);
}

#[test]
fn summary_counts_unknown_label_as_scanned_only() {
    let mut summary = SummaryReport::default();
    summary.update(&PolicyDecision { decision: "allow".into(), rules_triggered: vec![] });
    assert_eq!(summary, SummaryReport { scanned: 1, allow: 0, warn: 0, deny: 0 });
}

#[test]
fn sniff_bytes_detects_text_plain() {
    let data = b"Hello world\n";
    let result = sniff_bytes(data).expect("sniff should succeed");
    assert_eq!(result.mime_real, "text/plain");
    assert_eq!(result.magic.as_deref(), Some("48 65 6C 6C 6F 20 77 6F"));
}

#[test]
fn fingerprint_needs_eight_bytes() {
    assert_eq!(magic_fingerprint(b"1234567"), None);
    assert_eq!(magic_fingerprint(&[0x00, 0xff, 0x0a, 0xb0, 1, 2, 3, 4, 5]).as_deref(), Some("00 FF 0A B0 01 02 03 04"));
}

#[test]
fn digest_is_hex_sha256() {
    assert_eq!(digest_hex(&[0x00, 0xab, 0x10]), "00ab10");
    let analysis = analyze_bytes(b"abc", Some("TXT".into()), None);
    assert_eq!(analysis.sha256, "ba7816bf8f01cfea414140de5dae2223b00361a396177a9cb410ff61f20015ad");
    assert_eq!(analysis.size_bytes, 3);
    assert_eq!(analysis.sniff.ext.as_deref(), Some(".txt"));
    assert_eq!(analysis.outcome.decision, Decision::Allow);
    assert_eq!(analysis.validators.len(), 1);
}

#[test]
fn analysis_applies_the_policy() {
    let mut config = PolicyConfig::default();
    config.defaults.max_size_mb = Some(0);
    let engine = PolicyEngine::new(config);
    let analysis = analyze_bytes(b"Hello world\n", None, Some(&engine));
    assert_eq!(analysis.sniff.ext, None);
    assert_eq!(analysis.validators[0].status, ValidatorStatus::Pass);
    assert_eq!(analysis.outcome.decision, Decision::Deny);
    assert_eq!(analysis.outcome.rules_triggered, vec!["size:exceeds_max:12>0"]);
}

#[test]
fn policy_decision_from_outcome() {
    let mut outcome = guardupload::decision::DecisionOutcome::new();
    outcome.record(Decision::Warn, "validator:image:warn".into());
    let decision: PolicyDecision = outcome.into();
    assert_eq!(decision.decision, "WARN");
    assert_eq!(decision.rules_triggered, vec!["validator:image:warn"]);
    assert_eq!(PolicyDecision::default().decision, "ALLOW");
}

#[test]
fn bench_is_a_stub() {
    let engine = Engine::new();
    let request = BenchRequest::from(BenchArgs { corpus: "corpus".into(), report: None });
    let outcome = engine.bench(request).expect("bench");
    assert_eq!(outcome.exit_code, 0);
    let cli = Cli { command: Commands::Bench(BenchArgs { corpus: "c".into(), report: None }) };
    assert_eq!(cli.scan_log_level(), LogLevel::Info);
}

#[test]
fn text_helpers() {
    assert_eq!(decimal_string(0), "0");
    assert_eq!(decimal_string(1048576), "1048576");
    assert_eq!(decimal_string(u64::MAX), "18446744073709551615");
    assert!(eq_ignore_ascii_case_str("Image/GIF", "image/gif"));
    assert!(!eq_ignore_ascii_case_str("image/gif", "image/gif "));
    assert!(!eq_ignore_ascii_case_str("Ü", "ü"));
    let sniff = SniffReport::new("text/plain".into(), None, Some(".txt".into()));
    assert_eq!(sniff.mime_claimed, None);
    assert_eq!(GuardUploadError::PolicyInvalid("x".into()).message(), "invalid policy: x");
}
