//! Per-buffer ordered records of the checks and policies parsed out of it.
//!
//! Records are appended in parse order and never reordered or removed: the
//! index of a record is the index under which the evaluator reports the
//! statement. Only the outcome of a record can change after it is appended.
use vstd::prelude::*;
use crate::span::SourceSpan;

verus! {

/// What evaluation said of a statement.
#[derive(Clone, Copy, Debug, PartialEq, Eq, Structural)]
pub enum Outcome {
    Unknown,
    Succeeded,
    Failed,
}

/// The span of one check or policy and what evaluation said of it.
#[derive(Clone, Copy, Debug, PartialEq, Eq, Structural)]
pub struct StatementRecord {
    pub span: SourceSpan,
    pub outcome: Outcome,
}

/// A parse error of a buffer: where it lies and what the parser said.
#[derive(Clone, Debug)]
pub struct ParseDiagnostic {
    pub span: SourceSpan,
    pub message: String,
}

/// The records of one buffer: its checks and, for the verifier buffer, its
/// policies, each in parse order, and its parse errors.
#[derive(Clone, Debug)]
pub struct Ledger {
    checks: Vec<StatementRecord>,
    policies: Vec<StatementRecord>,
    errors: Vec<ParseDiagnostic>,
}

/// A fresh record for a statement at `span`.
pub open spec fn unknown_at(span: SourceSpan) -> StatementRecord {
    StatementRecord { span, outcome: Outcome::Unknown }
}

/// The outcome of a statement that evaluation reached.
pub open spec fn verdict_outcome(failed: bool) -> Outcome {
    if failed {
        Outcome::Failed
    } else {
        Outcome::Succeeded
    }
}

/// `new` holds the records of `old` with their spans, each settled as failed
/// where `failed` says so and as succeeded elsewhere.
pub open spec fn settled(
    old: Seq<StatementRecord>,
    new: Seq<StatementRecord>,
    failed: spec_fn(int) -> bool,
) -> bool {
    &&& new.len() == old.len()
    &&& forall|i: int|
        0 <= i < old.len() ==> #[trigger] new[i] == (StatementRecord {
            span: old[i].span,
            outcome: verdict_outcome(failed(i)),
        })
}

impl Ledger {
    /// The check records, in parse order.
    pub closed spec fn check_records(&self) -> Seq<StatementRecord> {
        self.checks@
    }

    /// The policy records, in parse order.
    pub closed spec fn policy_records(&self) -> Seq<StatementRecord> {
        self.policies@
    }

    /// The parse errors, in the order the parser reported them.
    pub closed spec fn error_records(&self) -> Seq<ParseDiagnostic> {
        self.errors@
    }

    pub fn new() -> (r: Ledger)
        ensures
            r.check_records() == Seq::<StatementRecord>::empty(),
            r.policy_records() == Seq::<StatementRecord>::empty(),
            r.error_records() == Seq::<ParseDiagnostic>::empty(),
    {
        Ledger { checks: Vec::new(), policies: Vec::new(), errors: Vec::new() }
    }

    /// Appends a parse error.
    pub fn record_error(&mut self, span: SourceSpan, message: String)
        ensures
            final(self).error_records() == old(self).error_records().push(
                ParseDiagnostic { span, message },
            ),
            final(self).check_records() == old(self).check_records(),
            final(self).policy_records() == old(self).policy_records(),
    {
        self.errors.push(ParseDiagnostic { span, message });
    }

    pub fn error_count(&self) -> (r: usize)
        ensures
            r == self.error_records().len(),
    {
        self.errors.len()
    }

    pub fn error(&self, index: usize) -> (r: &ParseDiagnostic)
        requires
            index < self.error_records().len(),
        ensures
            *r == self.error_records()[index as int],
    {
        &self.errors[index]
    }

    /// Appends a check found at `span`; returns its index.
    pub fn record_check(&mut self, span: SourceSpan) -> (r: usize)
        ensures
            final(self).check_records() == old(self).check_records().push(unknown_at(span)),
            final(self).policy_records() == old(self).policy_records(),
            final(self).error_records() == old(self).error_records(),
            r == old(self).check_records().len(),
    {
        let r = self.checks.len();
        self.checks.push(StatementRecord { span, outcome: Outcome::Unknown });
        r
    }

    /// Appends a policy found at `span`; returns its index.
    pub fn record_policy(&mut self, span: SourceSpan) -> (r: usize)
        ensures
            final(self).policy_records() == old(self).policy_records().push(unknown_at(span)),
            final(self).check_records() == old(self).check_records(),
            final(self).error_records() == old(self).error_records(),
            r == old(self).policy_records().len(),
    {
        let r = self.policies.len();
        self.policies.push(StatementRecord { span, outcome: Outcome::Unknown });
        r
    }

    pub fn check_count(&self) -> (r: usize)
        ensures
            r == self.check_records().len(),
    {
        self.checks.len()
    }

    pub fn policy_count(&self) -> (r: usize)
        ensures
            r == self.policy_records().len(),
    {
        self.policies.len()
    }

    pub fn check(&self, index: usize) -> (r: StatementRecord)
        requires
            index < self.check_records().len(),
        ensures
            r == self.check_records()[index as int],
    {
        self.checks[index]
    }

    pub fn policy(&self, index: usize) -> (r: StatementRecord)
        requires
            index < self.policy_records().len(),
        ensures
            r == self.policy_records()[index as int],
    {
        self.policies[index]
    }

    /// Sets the outcome of check `index`; the other records stay as they are.
    pub fn set_check_outcome(&mut self, index: usize, outcome: Outcome)
        requires
            index < old(self).check_records().len(),
        ensures
            final(self).check_records() == old(self).check_records().update(
                index as int,
                StatementRecord { span: old(self).check_records()[index as int].span, outcome },
            ),
            final(self).policy_records() == old(self).policy_records(),
            final(self).error_records() == old(self).error_records(),
    {
        let span = self.checks[index].span;
        self.checks.set(index, StatementRecord { span, outcome });
    }

    /// Sets the outcome of policy `index`; the other records stay as they are.
    pub fn set_policy_outcome(&mut self, index: usize, outcome: Outcome)
        requires
            index < old(self).policy_records().len(),
        ensures
            final(self).policy_records() == old(self).policy_records().update(
                index as int,
                StatementRecord { span: old(self).policy_records()[index as int].span, outcome },
            ),
            final(self).check_records() == old(self).check_records(),
            final(self).error_records() == old(self).error_records(),
    {
        let span = self.policies[index].span;
        self.policies.set(index, StatementRecord { span, outcome });
    }

    /// Settles every check: failed where `failed` holds `true` at its
    /// index, succeeded elsewhere.
    pub fn settle_checks(&mut self, failed: &Vec<bool>)
        requires
            failed@.len() == old(self).check_records().len(),
        ensures
            settled(old(self).check_records(), final(self).check_records(), |i: int| failed@[i]),
            final(self).policy_records() == old(self).policy_records(),
            final(self).error_records() == old(self).error_records(),
    {
        let n = self.checks.len();
        let mut i: usize = 0;
        while i < n
            invariant
                i <= n,
                n == failed@.len(),
                self.checks@.len() == n,
                old(self).checks@.len() == n,
                self.policies@ == old(self).policies@,
                self.errors@ == old(self).errors@,
                forall|j: int|
                    0 <= j < i ==> #[trigger] self.checks@[j] == (StatementRecord {
                        span: old(self).checks@[j].span,
                        outcome: verdict_outcome(failed@[j]),
                    }),
                forall|j: int| i <= j < n ==> #[trigger] self.checks@[j] == old(self).checks@[j],
            decreases n - i,
        {
            let outcome = if failed[i] {
                Outcome::Failed
            } else {
                Outcome::Succeeded
            };
            self.set_check_outcome(i, outcome);
            i = i + 1;
        }
    }
}

} // verus!
