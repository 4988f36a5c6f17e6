//! The decision model: a severity-ordered verdict with an append-only trail
//! of the rules that fired.

use vstd::prelude::*;
use vstd::string::*;
use crate::config::views_of;

verus! {

/// Verdict for one file, ordered `Allow < Warn < Deny`.
#[derive(Debug, Clone, Copy, PartialEq, Eq, Structural)]
pub enum Decision {
    Allow,
    Warn,
    Deny,
}

impl Decision {
    /// Ordinal severity: 0, 1, 2.
    pub open spec fn level(self) -> nat {
        match self {
            Decision::Allow => 0,
            Decision::Warn => 1,
            Decision::Deny => 2,
        }
    }

    /// Report label of the decision.
    pub open spec fn label(self) -> Seq<char> {
        match self {
            Decision::Allow => "ALLOW"@,
            Decision::Warn => "WARN"@,
            Decision::Deny => "DENY"@,
        }
    }

    /// `ALLOW`, `WARN` or `DENY`.
    pub fn as_str(&self) -> (r: &'static str)
        ensures
            r@ == self.label(),
    {
        match self {
            Decision::Allow => "ALLOW",
            Decision::Warn => "WARN",
            Decision::Deny => "DENY",
        }
    }

    /// Ordinal severity for comparison (higher is more critical).
    pub fn severity(&self) -> (r: u8)
        ensures
            r as nat == self.level(),
    {
        match self {
            Decision::Allow => 0,
            Decision::Warn => 1,
            Decision::Deny => 2,
        }
    }
}

/// The more severe of two decisions; `current` on a tie.
pub open spec fn raise(current: Decision, candidate: Decision) -> Decision {
    if candidate.level() > current.level() {
        candidate
    } else {
        current
    }
}

/// The more severe of `current` and `candidate` (`current` on a tie).
pub fn compare_decision(current: Decision, candidate: Decision) -> (r: Decision)
    ensures
        r == raise(current, candidate),
{
    if candidate.severity() > current.severity() {
        candidate
    } else {
        current
    }
}

/// The most severe decision of a run after one more file: raised by the
/// file's decision when it was evaluated, `Deny` when it could not be.
pub open spec fn after_file(highest: Decision, decided: Option<Decision>) -> Decision {
    match decided {
        Some(d) => raise(highest, d),
        None => Decision::Deny,
    }
}

/// Folds one file into the most severe decision of a run; a file that
/// could not be evaluated counts as `Deny`.
pub fn fold_file_decision(highest: Decision, decided: Option<Decision>) -> (r: Decision)
    ensures
        r == after_file(highest, decided),
{
    match decided {
        Some(d) => compare_decision(highest, d),
        None => Decision::Deny,
    }
}

/// Mathematical view of an outcome: the decision and the rule trail.
pub type OutcomeView = (Decision, Seq<Seq<char>>);

/// One recording: append the rule, raise the decision.
pub open spec fn step(o: OutcomeView, severity: Decision, rule: Seq<char>) -> OutcomeView {
    (raise(o.0, severity), o.1.push(rule))
}

/// The outcome after recording `recs` in order, starting from `o`.
pub open spec fn replay(o: OutcomeView, recs: Seq<(Decision, Seq<char>)>) -> OutcomeView
    decreases recs.len(),
{
    if recs.len() == 0 {
        o
    } else {
        let last = recs.last();
        step(replay(o, recs.drop_last()), last.0, last.1)
    }
}

/// The outcome of a file on which no rule fired.
pub open spec fn fresh() -> OutcomeView {
    (Decision::Allow, Seq::empty())
}

/// Highest severity among `recs` (0 when there are none).
pub open spec fn max_level(recs: Seq<(Decision, Seq<char>)>) -> nat
    decreases recs.len(),
{
    if recs.len() == 0 {
        0
    } else {
        let rest = max_level(recs.drop_last());
        let l = recs.last().0.level();
        if l > rest {
            l
        } else {
            rest
        }
    }
}

/// The rule identifiers of `recs`, in order.
pub open spec fn rule_ids(recs: Seq<(Decision, Seq<char>)>) -> Seq<Seq<char>> {
    recs.map_values(|r: (Decision, Seq<char>)| r.1)
}

/// Recording is monotone: after any sequence of recordings on a fresh
/// outcome, the decision's severity is the highest severity recorded, and
/// the trail holds every recorded rule, in recording order.
pub proof fn lemma_replay_is_max_and_ordered(recs: Seq<(Decision, Seq<char>)>)
    ensures
        replay(fresh(), recs).0.level() == max_level(recs),
        replay(fresh(), recs).1 == rule_ids(recs),
    decreases recs.len(),
{
    if recs.len() > 0 {
        lemma_replay_is_max_and_ordered(recs.drop_last());
        assert(rule_ids(recs) =~= rule_ids(recs.drop_last()).push(recs.last().1));
    } else {
        assert(rule_ids(recs) =~= Seq::<Seq<char>>::empty());
    }
}

/// No recorded severity is above the maximum.
pub proof fn lemma_max_level_bounds(recs: Seq<(Decision, Seq<char>)>, i: int)
    requires
        0 <= i < recs.len(),
    ensures
        recs[i].0.level() <= max_level(recs),
    decreases recs.len(),
{
    if i < recs.len() - 1 {
        lemma_max_level_bounds(recs.drop_last(), i);
    }
}

/// Outcome of the policy for one file.
#[derive(Debug, Clone)]
pub struct DecisionOutcome {
    pub decision: Decision,
    pub rules_triggered: Vec<String>,
}

impl View for DecisionOutcome {
    type V = OutcomeView;

    open spec fn view(&self) -> OutcomeView {
        (self.decision, views_of(self.rules_triggered@))
    }
}

impl DecisionOutcome {
    /// `Allow` with an empty trail.
    pub fn new() -> (r: Self)
        ensures
            r@ == fresh(),
    {
        let r = DecisionOutcome { decision: Decision::Allow, rules_triggered: Vec::new() };
        assert(r@.1 =~= Seq::<Seq<char>>::empty());
        r
    }

    /// Appends `rule` to the trail and raises the decision to `severity` if
    /// that is strictly more severe.
    pub fn record(&mut self, severity: Decision, rule: String)
        ensures
            final(self)@ == step(old(self)@, severity, rule@),
    {
        let ghost before = self.rules_triggered@;
        self.rules_triggered.push(rule);
        proof {
            assert(views_of(self.rules_triggered@) =~= views_of(before).push(rule@));
        }
        if severity.severity() > self.decision.severity() {
            self.decision = severity;
        }
    }
}

impl Default for DecisionOutcome {
    fn default() -> (r: Self)
        ensures
            r@ == fresh(),
    {
        DecisionOutcome::new()
    }
}

} // verus!
