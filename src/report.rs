//! Report records: the sniffing block, the policy decision and the summary
//! counters of a run.

use vstd::prelude::*;
use vstd::string::*;
use crate::decision::{Decision, DecisionOutcome};

verus! {

/// Counts of scanned files by decision.
#[derive(Debug, Clone, Copy, PartialEq, Eq, Structural)]
pub struct SummaryReport {
    pub scanned: u64,
    pub allow: u64,
    pub warn: u64,
    pub deny: u64,
}

impl SummaryReport {
    /// Every counted decision belongs to a scanned file.
    pub open spec fn wf(&self) -> bool {
        self.allow + self.warn + self.deny <= self.scanned
    }

    /// The counters after one more file with decision label `label`.
    pub open spec fn counted(self, label: Seq<char>) -> SummaryReport {
        SummaryReport {
            scanned: (self.scanned + 1) as u64,
            allow: if label == "ALLOW"@ {
                (self.allow + 1) as u64
            } else {
                self.allow
            },
            warn: if label == "WARN"@ {
                (self.warn + 1) as u64
            } else {
                self.warn
            },
            deny: if label == "DENY"@ {
                (self.deny + 1) as u64
            } else {
                self.deny
            },
        }
    }

    /// Counts one more scanned file under its decision; an unknown label
    /// counts as scanned only.
    pub fn update(&mut self, decision: &PolicyDecision)
        requires
            old(self).wf(),
            old(self).scanned < u64::MAX,
        ensures
            *final(self) == old(self).counted(decision.decision@),
            final(self).wf(),
    {
        proof {
            reveal_strlit("ALLOW");
            reveal_strlit("WARN");
            reveal_strlit("DENY");
        }
        assert("ALLOW"@ != "WARN"@ && "ALLOW"@ != "DENY"@ && "WARN"@ != "DENY"@) by {
            assert("ALLOW"@.len() != "WARN"@.len());
            assert("ALLOW"@.len() != "DENY"@.len());
            assert("WARN"@[0] != "DENY"@[0]);
        }
        self.scanned = self.scanned + 1;
        let label = decision.decision.clone();
        if label == String::from_str("ALLOW") {
            self.allow = self.allow + 1;
        } else if label == String::from_str("WARN") {
            self.warn = self.warn + 1;
        } else if label == String::from_str("DENY") {
            self.deny = self.deny + 1;
        }
    }
}

impl Default for SummaryReport {
    fn default() -> (r: Self)
        ensures
            r == (SummaryReport { scanned: 0, allow: 0, warn: 0, deny: 0 }),
    {
        SummaryReport { scanned: 0, allow: 0, warn: 0, deny: 0 }
    }
}

/// The sniffing block of a file report.
#[derive(Debug, Clone)]
pub struct SniffReport {
    /// Hexadecimal fingerprint of the first bytes, when there are enough.
    pub magic: Option<String>,
    pub mime_real: String,
    pub mime_claimed: Option<String>,
    /// Lower-case file extension with its leading dot.
    pub ext: Option<String>,
}

impl SniffReport {
    pub fn new(mime_real: String, magic: Option<String>, ext: Option<String>) -> (r: Self)
        ensures
            r == (SniffReport { magic, mime_real, mime_claimed: None, ext }),
    {
        SniffReport { magic, mime_real, mime_claimed: None, ext }
    }
}

/// The decision as written in a report.
#[derive(Debug, Clone)]
pub struct PolicyDecision {
    pub decision: String,
    pub rules_triggered: Vec<String>,
}

impl Default for PolicyDecision {
    /// `ALLOW` with no rules.
    fn default() -> (r: Self)
        ensures
            r.decision@ == "ALLOW"@,
            r.rules_triggered@.len() == 0,
    {
        PolicyDecision { decision: String::from_str("ALLOW"), rules_triggered: Vec::new() }
    }
}

/// The report form of an outcome: its label and the same rule trail.
impl From<DecisionOutcome> for PolicyDecision {
    fn from(value: DecisionOutcome) -> (r: Self)
        ensures
            r.decision@ == value.decision.label(),
            r.rules_triggered == value.rules_triggered,
    {
        PolicyDecision {
            decision: String::from_str(value.decision.as_str()),
            rules_triggered: value.rules_triggered,
        }
    }
}

// The label is a `String` made at run time, which no spec function can build:
// what `from` returns is stated by its own `ensures`.
impl vstd::std_specs::convert::FromSpecImpl<DecisionOutcome> for PolicyDecision {
    open spec fn obeys_from_spec() -> bool {
        false
    }

    open spec fn from_spec(v: DecisionOutcome) -> PolicyDecision {
        PolicyDecision { decision: arbitrary(), rules_triggered: v.rules_triggered }
    }
}

} // verus!
