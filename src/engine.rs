//! The per-file pipeline (digest, sniff, validate, decide) and the exit-code
//! rule of a run.

use vstd::prelude::*;
use vstd::string::*;
use std::path::PathBuf;
use sha2::{Digest, Sha256};
use crate::cli::{BenchArgs, FailOn, ScanArgs};
use crate::decision::{fresh, replay, Decision, DecisionOutcome};
use crate::error::GuardUploadError;
use crate::policy::{
    decision_records, resolved_from, validator_decision, validator_records, PolicyEngine,
    ResolvedPolicy,
};
use crate::report::SniffReport;
use crate::sniff::{magic_of, sniff_bytes};
use crate::text::{ascii_lower, hex_encode, hex_lower, to_ascii_lower};
use crate::validators::{evaluate_validators, validators_result, ValidatorOutcome};

verus! {

/// `std::path::PathBuf`, carried opaquely in command requests.
#[verifier::external_type_specification]
#[verifier::external_body]
pub struct ExPathBuf(PathBuf);

/// The SHA-256 digest of a byte string.
pub uninterp spec fn sha256_of(data: Seq<u8>) -> Seq<u8>;

/// Relies on `sha2::Sha256::digest`: the SHA-256 digest of the bytes.
#[verifier::external_body]
fn sha256_digest(data: &[u8]) -> (r: Vec<u8>)
    ensures
        r@ == sha256_of(data@),
{
    Sha256::digest(data).to_vec()
}

/// Lower-case hexadecimal rendering of a digest.
pub fn digest_hex(digest: &[u8]) -> (r: String)
    ensures
        r@ == hex_lower(digest@),
{
    hex_encode(digest)
}

/// Runs the scan and bench commands.
#[derive(Debug)]
pub struct Engine;

/// The fields of the `scan` command.
#[derive(Debug)]
pub struct ScanRequest {
    pub paths: Vec<PathBuf>,
    pub policy: Option<PathBuf>,
    pub json: Option<PathBuf>,
    pub summary: Option<PathBuf>,
    pub fail_on: FailOn,
    pub timeout: Option<u64>,
}

/// Result of `scan`: the exit code to use.
#[derive(Debug)]
pub struct ScanOutcome {
    pub exit_code: i32,
}

/// The fields of the `bench` command.
#[derive(Debug)]
pub struct BenchRequest {
    pub corpus: PathBuf,
    pub report: Option<PathBuf>,
}

/// Result of `bench`.
#[derive(Debug)]
pub struct BenchOutcome {
    pub exit_code: i32,
}

impl From<ScanArgs> for ScanRequest {
    fn from(args: ScanArgs) -> (r: Self)
        ensures
            r == (ScanRequest {
                paths: args.paths,
                policy: args.policy,
                json: args.json,
                summary: args.summary,
                fail_on: args.fail_on,
                timeout: args.timeout,
            }),
    {
        ScanRequest {
            paths: args.paths,
            policy: args.policy,
            json: args.json,
            summary: args.summary,
            fail_on: args.fail_on,
            timeout: args.timeout,
        }
    }
}

impl vstd::std_specs::convert::FromSpecImpl<ScanArgs> for ScanRequest {
    open spec fn obeys_from_spec() -> bool {
        true
    }

    open spec fn from_spec(args: ScanArgs) -> ScanRequest {
        ScanRequest {
            paths: args.paths,
            policy: args.policy,
            json: args.json,
            summary: args.summary,
            fail_on: args.fail_on,
            timeout: args.timeout,
        }
    }
}

impl From<BenchArgs> for BenchRequest {
    fn from(args: BenchArgs) -> (r: Self)
        ensures
            r == (BenchRequest { corpus: args.corpus, report: args.report }),
    {
        BenchRequest { corpus: args.corpus, report: args.report }
    }
}

impl vstd::std_specs::convert::FromSpecImpl<BenchArgs> for BenchRequest {
    open spec fn obeys_from_spec() -> bool {
        true
    }

    open spec fn from_spec(args: BenchArgs) -> BenchRequest {
        BenchRequest { corpus: args.corpus, report: args.report }
    }
}

impl Engine {
    pub fn new() -> (r: Self) {
        Engine
    }

    /// Benchmarking is not implemented: always succeeds with exit code 0.
    pub fn bench(&self, _request: BenchRequest) -> (r: Result<BenchOutcome, GuardUploadError>)
        ensures
            r matches Ok(o) && o.exit_code == 0,
    {
        Ok(BenchOutcome { exit_code: 0 })
    }
}

/// The exit code of a run whose most severe decision is `decision`: 0 below
/// the `fail_on` threshold (Warn = 1, Deny = 2, Error = 3, never reached);
/// otherwise 1 for Deny and 3 for Warn.
pub open spec fn exit_code_for(fail_on: FailOn, decision: Decision) -> i32 {
    let threshold: nat = match fail_on {
        FailOn::Error => 3,
        FailOn::Warn => 1,
        FailOn::Deny => 2,
    };
    if decision.level() >= threshold {
        match decision {
            Decision::Deny => 1,
            Decision::Warn => 3,
            Decision::Allow => 0,
        }
    } else {
        0
    }
}

/// Exit code for the most severe decision of a run.
pub fn compute_exit_code(fail_on: FailOn, decision: Decision) -> (r: i32)
    ensures
        r == exit_code_for(fail_on, decision),
{
    let threshold: u8 = match fail_on {
        FailOn::Error => 3,
        FailOn::Warn => 1,
        FailOn::Deny => 2,
    };
    if decision.severity() >= threshold {
        match decision {
            Decision::Deny => 1,
            Decision::Warn => 3,
            Decision::Allow => 0,
        }
    } else {
        0
    }
}

/// Everything the pipeline finds out about one file's bytes.
#[derive(Debug)]
pub struct FileAnalysis {
    pub size_bytes: u64,
    /// Lower-case hexadecimal SHA-256 of the bytes.
    pub sha256: String,
    pub sniff: SniffReport,
    pub validators: Vec<ValidatorOutcome>,
    pub outcome: DecisionOutcome,
}

/// `.` followed by the extension in ASCII lower case.
pub open spec fn dotted_ext(ext: Option<String>) -> Option<Seq<char>> {
    match ext {
        Some(e) => Some("."@ + ascii_lower(e@)),
        None => None,
    }
}

/// Digest, sniff, validate and decide for the bytes of one file whose
/// extension is `ext`. Without a policy engine the validators still run and
/// the decision is made from their outcomes alone.
pub fn analyze_bytes(data: &[u8], ext: Option<String>, engine: Option<&PolicyEngine>) -> (r: FileAnalysis)
    ensures
        r.size_bytes == data@.len(),
        r.sha256@ == hex_lower(sha256_of(data@)),
        match r.sniff.magic {
            Some(m) => magic_of(data@) == Some(m@),
            None => magic_of(data@) is None,
        },
        r.sniff.mime_claimed is None,
        match r.sniff.ext {
            Some(e) => dotted_ext(ext) == Some(e@),
            None => ext is None,
        },
        match engine {
            Some(e) => exists|p: ResolvedPolicy|
                {
                    &&& resolved_from(p, e.policy())
                    &&& validators_result(r.validators@, r.sniff.mime_real@, data@, Some(p))
                    &&& r.outcome@ == replay(
                        fresh(),
                        decision_records(
                            e.policy(),
                            r.sniff.mime_real@,
                            r.size_bytes,
                            r.validators@,
                            Some(p),
                        ),
                    )
                },
            None => {
                &&& validators_result(r.validators@, r.sniff.mime_real@, data@, None)
                &&& r.outcome@ == replay(fresh(), validator_records(r.validators@))
            },
        },
{
    let size_bytes = data.len() as u64;
    let digest = sha256_digest(data);
    let sha256 = digest_hex(digest.as_slice());
    let sniffed = match sniff_bytes(data) {
        Ok(s) => s,
        Err(_) => unreached(),
    };
    let ext = match ext {
        Some(e) => {
            let mut dotted = String::from_str(".");
            let lowered = to_ascii_lower(e.as_str());
            dotted.append(lowered.as_str());
            Some(dotted)
        },
        None => None,
    };
    let sniff = SniffReport::new(sniffed.mime_real, sniffed.magic, ext);
    match engine {
        Some(e) => {
            let resolved = e.resolve();
            let validators = evaluate_validators(sniff.mime_real.as_str(), data, Some(&resolved));
            let outcome = e.decide(
                sniff.mime_real.as_str(),
                size_bytes,
                validators.as_slice(),
                Some(&resolved),
            );
            FileAnalysis { size_bytes, sha256, sniff, validators, outcome }
        },
        None => {
            let validators = evaluate_validators(sniff.mime_real.as_str(), data, None);
            let outcome = validator_decision(validators.as_slice());
            FileAnalysis { size_bytes, sha256, sniff, validators, outcome }
        },
    }
}

} // verus!
