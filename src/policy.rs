//! The policy engine: merges validator outcomes with size and MIME rules
//! into one decision.

use vstd::prelude::*;
use vstd::string::*;
use vstd::utf8::encode_utf8;
use crate::config::{
    views_of, ArchivePolicySection, DefaultsSection, ImagePolicySection, PdfPolicySection,
    PolicyConfig,
};
use crate::decision::{
    fresh, lemma_max_level_bounds, lemma_replay_is_max_and_ordered, replay, step, Decision,
    DecisionOutcome, OutcomeView,
};
use crate::pattern::{glob_matches, matches_pattern};
use crate::text::{ascii_lower, decimal, decimal_string, to_ascii_lower};
use crate::validators::{ValidatorOutcome, ValidatorStatus};

verus! {

/// Recording `a` then `b` is recording `a + b`.
pub proof fn lemma_replay_append(
    o: OutcomeView,
    a: Seq<(Decision, Seq<char>)>,
    b: Seq<(Decision, Seq<char>)>,
)
    ensures
        replay(o, a + b) == replay(replay(o, a), b),
    decreases b.len(),
{
    if b.len() == 0 {
        assert(a + b =~= a);
    } else {
        assert((a + b).drop_last() =~= a + b.drop_last());
        lemma_replay_append(o, a, b.drop_last());
    }
}

proof fn lemma_replay_single(o: OutcomeView, recs: Seq<(Decision, Seq<char>)>)
    requires
        recs.len() == 1,
    ensures
        replay(o, recs) == step(o, recs[0].0, recs[0].1),
{
    reveal_with_fuel(replay, 2);
    assert(recs.drop_last() =~= Seq::<(Decision, Seq<char>)>::empty());
}

/// The rule a validator outcome contributes, if any.
fn validator_rule(v: &ValidatorOutcome) -> (r: Option<(Decision, String)>)
    ensures
        match r {
            Some((d, rule)) => validator_record(*v) == seq![(d, rule@)],
            None => validator_record(*v) == Seq::<(Decision, Seq<char>)>::empty(),
        },
{
    let (severity, suffix) = match v.status {
        ValidatorStatus::Deny => (Decision::Deny, ":deny"),
        ValidatorStatus::Warn => (Decision::Warn, ":warn"),
        ValidatorStatus::Error => (Decision::Deny, ":error"),
        ValidatorStatus::Pass => {
            return None;
        },
    };
    let mut rule = String::from_str("validator:");
    rule.append(v.name);
    rule.append(suffix);
    Some((severity, rule))
}

/// Effective policy for one file.
#[derive(Debug, Clone)]
pub struct ResolvedPolicy {
    pub defaults: DefaultsSection,
    pub pdf: PdfPolicySection,
    pub image: ImagePolicySection,
    pub archive: ArchivePolicySection,
}

/// `p` holds the sections of `c`.
pub open spec fn resolved_from(p: ResolvedPolicy, c: PolicyConfig) -> bool {
    &&& p.defaults.same_as(&c.defaults)
    &&& p.pdf == c.pdf
    &&& p.image.same_as(&c.image)
    &&& p.archive == c.archive
}

impl ResolvedPolicy {
    /// Takes every section of `config` as it stands.
    pub fn from_config(config: &PolicyConfig) -> (r: Self)
        ensures
            resolved_from(r, *config),
    {
        ResolvedPolicy {
            defaults: config.defaults.clone(),
            pdf: config.pdf,
            image: config.image.clone(),
            archive: config.archive,
        }
    }
}

/// Whether `pattern` matches `mime`, both taken in ASCII lower case.
pub open spec fn mime_matches(pattern: Seq<char>, mime: Seq<char>) -> bool {
    glob_matches(encode_utf8(ascii_lower(pattern)), encode_utf8(ascii_lower(mime)))
}

/// Index of the first of `pats[i..]` that matches `mime`.
pub open spec fn first_hit(pats: Seq<Seq<char>>, mime: Seq<char>, i: int) -> Option<int>
    decreases pats.len() - i,
{
    if i < 0 || i >= pats.len() {
        None
    } else if mime_matches(pats[i], mime) {
        Some(i)
    } else {
        first_hit(pats, mime, i + 1)
    }
}

/// A configured pattern with its lower-case form, computed once.
#[derive(Debug)]
struct CompiledPattern {
    raw: String,
    lowered: String,
}

impl CompiledPattern {
    spec fn wf(&self) -> bool {
        self.lowered@ == ascii_lower(self.raw@)
    }

    fn new(raw: String) -> (r: Self)
        ensures
            r.raw == raw,
            r.wf(),
    {
        let lowered = to_ascii_lower(raw.as_str());
        CompiledPattern { raw, lowered }
    }

    fn matches(&self, value_lower: &str) -> (r: bool)
        ensures
            r == glob_matches(encode_utf8(self.lowered@), encode_utf8(value_lower@)),
    {
        matches_pattern(self.lowered.as_str(), value_lower)
    }
}

spec fn compiled_from(c: Seq<CompiledPattern>, raws: Seq<String>) -> bool {
    &&& c.len() == raws.len()
    &&& forall|i: int| 0 <= i < c.len() ==> #[trigger] c[i].raw@ == raws[i]@ && c[i].wf()
}

/// `mb` megabytes in bytes.
pub open spec fn mb_to_bytes(mb: Option<u32>) -> Option<u64> {
    match mb {
        Some(m) => Some((m * 1048576) as u64),
        None => None,
    }
}

#[derive(Debug)]
struct CompiledDefaults {
    allow: Vec<CompiledPattern>,
    deny: Vec<CompiledPattern>,
    max_size_bytes: Option<u64>,
}

fn compile_patterns(raws: &Vec<String>) -> (r: Vec<CompiledPattern>)
    ensures
        compiled_from(r@, raws@),
{
    let mut r: Vec<CompiledPattern> = Vec::new();
    let mut i: usize = 0;
    while i < raws.len()
        invariant
            i <= raws@.len(),
            compiled_from(r@, raws@.subrange(0, i as int)),
        decreases raws@.len() - i,
    {
        r.push(CompiledPattern::new(raws[i].clone()));
        i = i + 1;
    }
    assert(raws@.subrange(0, raws@.len() as int) =~= raws@);
    r
}

fn mb_bytes(mb: Option<u32>) -> (r: Option<u64>)
    ensures
        r == mb_to_bytes(mb),
{
    match mb {
        Some(m) => Some(m as u64 * 1048576),
        None => None,
    }
}

fn compile_defaults(defaults: &DefaultsSection) -> (r: CompiledDefaults)
    ensures
        compiled_from(r.allow@, defaults.allow_types@),
        compiled_from(r.deny@, defaults.deny_types@),
        r.max_size_bytes == mb_to_bytes(defaults.max_size_mb),
{
    CompiledDefaults {
        allow: compile_patterns(&defaults.allow_types),
        deny: compile_patterns(&defaults.deny_types),
        max_size_bytes: mb_bytes(defaults.max_size_mb),
    }
}

/// Index of the first pattern that matches; `value_lower` is `mime` in lower case.
fn find_match(
    patterns: &Vec<CompiledPattern>,
    value_lower: &str,
    Ghost(raws): Ghost<Seq<String>>,
    Ghost(mime): Ghost<Seq<char>>,
) -> (r: Option<usize>)
    requires
        compiled_from(patterns@, raws),
        value_lower@ == ascii_lower(mime),
    ensures
        r matches Some(i) ==> i < patterns@.len(),
        match r {
            Some(i) => first_hit(views_of(raws), mime, 0) == Some(i as int),
            None => first_hit(views_of(raws), mime, 0) is None,
        },
{
    let ghost pats = views_of(raws);
    let mut i: usize = 0;
    while i < patterns.len()
        invariant
            i <= patterns@.len(),
            compiled_from(patterns@, raws),
            value_lower@ == ascii_lower(mime),
            pats == views_of(raws),
            first_hit(pats, mime, 0) == first_hit(pats, mime, i as int),
        decreases patterns@.len() - i,
    {
        assert(pats[i as int] == patterns@[i as int].raw@);
        if patterns[i].matches(value_lower) {
            return Some(i);
        }
        i = i + 1;
    }
    None
}

/// The rule, if any, that one validator outcome contributes.
pub open spec fn validator_record(v: ValidatorOutcome) -> Seq<(Decision, Seq<char>)> {
    match v.status {
        ValidatorStatus::Deny => seq![(Decision::Deny, "validator:"@ + v.name@ + ":deny"@)],
        ValidatorStatus::Warn => seq![(Decision::Warn, "validator:"@ + v.name@ + ":warn"@)],
        ValidatorStatus::Error => seq![(Decision::Deny, "validator:"@ + v.name@ + ":error"@)],
        ValidatorStatus::Pass => seq![],
    }
}

/// The rules of all validator outcomes, in order.
pub open spec fn validator_records(vs: Seq<ValidatorOutcome>) -> Seq<(Decision, Seq<char>)>
    decreases vs.len(),
{
    if vs.len() == 0 {
        seq![]
    } else {
        validator_records(vs.drop_last()) + validator_record(vs.last())
    }
}

/// The size limit in bytes: the resolved defaults' `max_size_mb` when set,
/// else the one compiled from the configuration.
pub open spec fn size_limit(config: PolicyConfig, resolved: Option<ResolvedPolicy>) -> Option<u64> {
    let mb = match resolved {
        Some(p) => p.defaults.max_size_mb,
        None => config.defaults.max_size_mb,
    };
    match mb {
        Some(_) => mb_to_bytes(mb),
        None => mb_to_bytes(config.defaults.max_size_mb),
    }
}

/// The size rule, when `size` is strictly above the limit.
pub open spec fn size_record(limit: Option<u64>, size: u64) -> Seq<(Decision, Seq<char>)> {
    match limit {
        Some(max) => if size > max {
            seq![
                (
                    Decision::Deny,
                    "size:exceeds_max:"@ + decimal(size as nat) + ">"@ + decimal(max as nat),
                ),
            ]
        } else {
            seq![]
        },
        None => seq![],
    }
}

/// The deny-list rule, naming the first deny pattern that matches.
pub open spec fn deny_record(config: PolicyConfig, mime: Seq<char>) -> Seq<(Decision, Seq<char>)> {
    let pats = views_of(config.defaults.deny_types@);
    match first_hit(pats, mime, 0) {
        Some(i) => seq![(Decision::Deny, "mime:deny:"@ + pats[i])],
        None => seq![],
    }
}

/// The allow-list rule: a non-empty allow list that no pattern of matches.
pub open spec fn allow_record(config: PolicyConfig, mime: Seq<char>) -> Seq<(Decision, Seq<char>)> {
    let pats = views_of(config.defaults.allow_types@);
    if pats.len() > 0 && first_hit(pats, mime, 0) is None {
        seq![(Decision::Deny, "mime:not_allowed:"@ + mime)]
    } else {
        seq![]
    }
}

/// Every rule that fires for a file, in evaluation order: validators, size,
/// deny list, allow list.
pub open spec fn decision_records(
    config: PolicyConfig,
    mime: Seq<char>,
    size: u64,
    validators: Seq<ValidatorOutcome>,
    resolved: Option<ResolvedPolicy>,
) -> Seq<(Decision, Seq<char>)> {
    validator_records(validators) + size_record(size_limit(config, resolved), size) + deny_record(
        config,
        mime,
    ) + allow_record(config, mime)
}

/// The deny list takes precedence: when a deny pattern matches the MIME
/// type, the decision is `Deny` whatever the validators, the size and the
/// allow list say.
pub proof fn lemma_deny_list_wins(
    config: PolicyConfig,
    mime: Seq<char>,
    size: u64,
    validators: Seq<ValidatorOutcome>,
    resolved: Option<ResolvedPolicy>,
)
    requires
        first_hit(views_of(config.defaults.deny_types@), mime, 0) is Some,
    ensures
        replay(fresh(), decision_records(config, mime, size, validators, resolved)).0
            == Decision::Deny,
{
    let recs = decision_records(config, mime, size, validators, resolved);
    let before = validator_records(validators) + size_record(size_limit(config, resolved), size);
    let at = before.len() as int;
    assert(recs[at] == deny_record(config, mime)[0]);
    lemma_max_level_bounds(recs, at);
    lemma_replay_is_max_and_ordered(recs);
}

/// A validator that denies or fails contributes a `Deny` record.
proof fn lemma_failed_validator_recorded(vs: Seq<ValidatorOutcome>, j: int) -> (k: int)
    requires
        0 <= j < vs.len(),
        vs[j].status == ValidatorStatus::Deny || vs[j].status == ValidatorStatus::Error,
    ensures
        0 <= k < validator_records(vs).len(),
        validator_records(vs)[k].0 == Decision::Deny,
    decreases vs.len(),
{
    let front = validator_records(vs.drop_last());
    if j == vs.len() - 1 {
        front.len() as int
    } else {
        lemma_failed_validator_recorded(vs.drop_last(), j)
    }
}

/// A validator fault is never a pass: when any validator outcome is `Deny`
/// or `Error`, the decision is `Deny`.
pub proof fn lemma_failed_validator_denies(
    config: PolicyConfig,
    mime: Seq<char>,
    size: u64,
    validators: Seq<ValidatorOutcome>,
    resolved: Option<ResolvedPolicy>,
    j: int,
)
    requires
        0 <= j < validators.len(),
        validators[j].status == ValidatorStatus::Deny || validators[j].status
            == ValidatorStatus::Error,
    ensures
        replay(fresh(), decision_records(config, mime, size, validators, resolved)).0
            == Decision::Deny,
{
    let recs = decision_records(config, mime, size, validators, resolved);
    let k = lemma_failed_validator_recorded(validators, j);
    assert(recs[k] == validator_records(validators)[k]);
    lemma_max_level_bounds(recs, k);
    lemma_replay_is_max_and_ordered(recs);
}

/// The outcome of the validators alone: a `Deny` or `Error` records `Deny`,
/// a `Warn` records `Warn`, in order.
pub fn validator_decision(validators: &[ValidatorOutcome]) -> (r: DecisionOutcome)
    ensures
        r@ == replay(fresh(), validator_records(validators@)),
{
    let ghost vs = validators@;
    let mut outcome = DecisionOutcome::new();
    let mut i: usize = 0;
    while i < validators.len()
        invariant
            i <= vs.len(),
            vs == validators@,
            outcome@ == replay(fresh(), validator_records(vs.subrange(0, i as int))),
        decreases vs.len() - i,
    {
        let v = &validators[i];
        let ghost before = outcome@;
        proof {
            assert(vs.subrange(0, i + 1).drop_last() =~= vs.subrange(0, i as int));
            lemma_replay_append(
                fresh(),
                validator_records(vs.subrange(0, i as int)),
                validator_record(*v),
            );
        }
        match validator_rule(v) {
            Some((severity, rule)) => {
                outcome.record(severity, rule);
                proof {
                    lemma_replay_single(before, validator_record(*v));
                }
            },
            None => {},
        }
        i = i + 1;
    }
    assert(vs.subrange(0, vs.len() as int) =~= vs);
    outcome
}

/// Applies a policy configuration; the pattern lists are compiled once, at
/// construction, and only read afterwards.
#[derive(Debug)]
pub struct PolicyEngine {
    config: PolicyConfig,
    compiled_defaults: CompiledDefaults,
}

impl PolicyEngine {
    #[verifier::type_invariant]
    spec fn compiled(self) -> bool {
        &&& compiled_from(self.compiled_defaults.allow@, self.config.defaults.allow_types@)
        &&& compiled_from(self.compiled_defaults.deny@, self.config.defaults.deny_types@)
        &&& self.compiled_defaults.max_size_bytes == mb_to_bytes(self.config.defaults.max_size_mb)
    }

    /// The configuration the engine applies.
    pub closed spec fn policy(&self) -> PolicyConfig {
        self.config
    }

    pub fn new(config: PolicyConfig) -> (r: Self)
        ensures
            r.policy() == config,
    {
        let compiled_defaults = compile_defaults(&config.defaults);
        PolicyEngine { config, compiled_defaults }
    }

    /// The policy for one file: the unconditional sections of the
    /// configuration.
    pub fn resolve(&self) -> (r: ResolvedPolicy)
        ensures
            resolved_from(r, self.policy()),
    {
        ResolvedPolicy::from_config(&self.config)
    }

    /// The configuration the engine was built from.
    pub fn config(&self) -> (r: &PolicyConfig)
        ensures
            *r == self.policy(),
    {
        &self.config
    }

    /// Decision for a file of sniffed type `mime_real` and `size_bytes`
    /// bytes, given its validator outcomes.
    pub fn decide(
        &self,
        mime_real: &str,
        size_bytes: u64,
        validators: &[ValidatorOutcome],
        resolved: Option<&ResolvedPolicy>,
    ) -> (r: DecisionOutcome)
        ensures
            r@ == replay(
                fresh(),
                decision_records(
                    self.policy(),
                    mime_real@,
                    size_bytes,
                    validators@,
                    match resolved {
                        Some(p) => Some(*p),
                        None => None,
                    },
                ),
            ),
    {
        proof {
            use_type_invariant(self);
        }
        let ghost config = self.config;
        let ghost vs = validators@;
        let mut outcome = validator_decision(validators);
        let ghost after_validators = outcome@;

        let limit = match resolved {
            Some(p) => match p.defaults.max_size_mb {
                Some(mb) => Some(mb as u64 * 1048576),
                None => self.compiled_defaults.max_size_bytes,
            },
            None => match self.config.defaults.max_size_mb {
                Some(mb) => Some(mb as u64 * 1048576),
                None => self.compiled_defaults.max_size_bytes,
            },
        };
        if let Some(max_bytes) = limit {
            if size_bytes > max_bytes {
                let mut rule = String::from_str("size:exceeds_max:");
                let actual = decimal_string(size_bytes);
                rule.append(actual.as_str());
                rule.append(">");
                let threshold = decimal_string(max_bytes);
                rule.append(threshold.as_str());
                outcome.record(Decision::Deny, rule);
            }
        }
        let ghost size_recs = size_record(
            size_limit(
                config,
                match resolved {
                    Some(p) => Some(*p),
                    None => None,
                },
            ),
            size_bytes,
        );
        proof {
            lemma_replay_append(fresh(), validator_records(vs), size_recs);
            if size_recs.len() == 1 {
                lemma_replay_single(after_validators, size_recs);
            }
        }

        let mime_lower = to_ascii_lower(mime_real);
        let ghost deny_recs = deny_record(config, mime_real@);
        let ghost after_size = outcome@;
        let denied = find_match(
            &self.compiled_defaults.deny,
            mime_lower.as_str(),
            Ghost(config.defaults.deny_types@),
            Ghost(mime_real@),
        );
        match denied {
            Some(idx) => {
                let mut rule = String::from_str("mime:deny:");
                rule.append(self.compiled_defaults.deny[idx].raw.as_str());
                outcome.record(Decision::Deny, rule);
            },
            None => {},
        }
        proof {
            lemma_replay_append(fresh(), validator_records(vs) + size_recs, deny_recs);
            if deny_recs.len() == 1 {
                lemma_replay_single(after_size, deny_recs);
            }
        }

        let ghost allow_recs = allow_record(config, mime_real@);
        let ghost after_deny = outcome@;
        if self.compiled_defaults.allow.len() > 0 {
            let allowed = find_match(
                &self.compiled_defaults.allow,
                mime_lower.as_str(),
                Ghost(config.defaults.allow_types@),
                Ghost(mime_real@),
            );
            if allowed.is_none() {
                let mut rule = String::from_str("mime:not_allowed:");
                rule.append(mime_real);
                outcome.record(Decision::Deny, rule);
            }
        }
        proof {
            lemma_replay_append(fresh(), validator_records(vs) + size_recs + deny_recs, allow_recs);
            if allow_recs.len() == 1 {
                lemma_replay_single(after_deny, allow_recs);
            }
        }
        outcome
    }
}

} // verus!
