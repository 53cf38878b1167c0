//! Applying the evaluator's verdict to the ledgers of one compilation pass.
//!
//! The evaluator names a failed check by `(block, index)` for the checks of
//! the token (block 0 is the authority buffer, block `n` the `n`-th
//! attenuation buffer) or by its index among the verifier's checks, and a
//! matching policy by its index among the verifier's policies.
use vstd::prelude::*;
use crate::ledger::{settled, Ledger, Outcome, StatementRecord};

verus! {

/// A check named by the evaluator.
#[derive(Clone, Copy, Debug, PartialEq, Eq, Structural)]
pub enum CheckRef {
    Block { block: u32, check: u32 },
    Verifier { check: u32 },
}

/// What the evaluator reported.
#[derive(Clone, Debug)]
pub enum Verdict {
    /// Every check passed and the allow policy with this index matched.
    Allowed(usize),
    /// Every check passed and the deny policy with this index matched.
    Denied(usize),
    /// These checks failed; no policy was tried.
    FailedChecks(Vec<CheckRef>),
    /// Every check passed and no policy matched.
    NoMatchingPolicy,
    /// Evaluation stopped before it reached a result (a time limit, a
    /// missing symbol): nothing is known of any statement.
    Aborted,
}

/// An index reported by the evaluator that names no record: the ledgers and
/// the evaluator disagree on the order of statements.
#[derive(Clone, Copy, Debug, PartialEq, Eq, Structural)]
pub enum Desync {
    Check(CheckRef),
    Policy(usize),
}

/// The ledgers of one pass: one per token buffer, in block order, and the
/// verifier buffer's.
#[derive(Clone, Debug)]
pub struct Ledgers {
    pub blocks: Vec<Ledger>,
    pub verifier: Ledger,
}

/// `r` is check `i` of block `b`.
pub open spec fn is_block_check(r: CheckRef, b: int, i: int) -> bool {
    match r {
        CheckRef::Block { block, check } => block == b && check == i,
        _ => false,
    }
}

/// `r` is check `i` of the verifier.
pub open spec fn is_verifier_check(r: CheckRef, i: int) -> bool {
    match r {
        CheckRef::Verifier { check } => check == i,
        _ => false,
    }
}

/// `refs` names check `i` of block `b`.
pub open spec fn names_block_check(refs: Seq<CheckRef>, b: int, i: int) -> bool {
    exists|k: int| 0 <= k < refs.len() && #[trigger] is_block_check(refs[k], b, i)
}

/// `refs` names check `i` of the verifier.
pub open spec fn names_verifier_check(refs: Seq<CheckRef>, i: int) -> bool {
    exists|k: int| 0 <= k < refs.len() && #[trigger] is_verifier_check(refs[k], i)
}

/// The check that `r` names has a record in `l`.
pub open spec fn ref_in_range(l: &Ledgers, r: CheckRef) -> bool {
    match r {
        CheckRef::Block { block, check } => block < l.blocks@.len() && check
            < l.blocks@[block as int].check_records().len(),
        CheckRef::Verifier { check } => check < l.verifier.check_records().len(),
    }
}

/// Every index that `v` reports names a record of `l`.
pub open spec fn consistent(l: &Ledgers, v: &Verdict) -> bool {
    match v {
        Verdict::Allowed(p) => *p < l.verifier.policy_records().len(),
        Verdict::Denied(p) => *p < l.verifier.policy_records().len(),
        Verdict::FailedChecks(refs) => forall|k: int|
            0 <= k < refs@.len() ==> ref_in_range(l, #[trigger] refs@[k]),
        _ => true,
    }
}

/// The checks of every buffer are settled by `failed_block` and
/// `failed_verifier`; the block ledgers' policies and every parse error are
/// kept.
pub open spec fn checks_settled(
    old: &Ledgers,
    new: &Ledgers,
    failed_block: spec_fn(int, int) -> bool,
    failed_verifier: spec_fn(int) -> bool,
) -> bool {
    &&& new.blocks@.len() == old.blocks@.len()
    &&& forall|b: int|
        0 <= b < old.blocks@.len() ==> settled(
            (#[trigger] old.blocks@[b]).check_records(),
            new.blocks@[b].check_records(),
            |i: int| failed_block(b, i),
        ) && new.blocks@[b].policy_records() == old.blocks@[b].policy_records()
            && new.blocks@[b].error_records() == old.blocks@[b].error_records()
    &&& settled(old.verifier.check_records(), new.verifier.check_records(), failed_verifier)
    &&& new.verifier.error_records() == old.verifier.error_records()
}

/// The policy with index `p` is settled with `outcome`, the others kept.
pub open spec fn policy_settled(old: &Ledgers, new: &Ledgers, p: int, outcome: Outcome) -> bool {
    new.verifier.policy_records() == old.verifier.policy_records().update(
        p,
        StatementRecord { span: old.verifier.policy_records()[p].span, outcome },
    )
}

/// The ledgers after `v` was applied to `old`, for a consistent `v`.
pub open spec fn applied(old: &Ledgers, new: &Ledgers, v: &Verdict) -> bool {
    match v {
        Verdict::Allowed(p) => checks_settled(old, new, |b: int, i: int| false, |i: int| false)
            && policy_settled(old, new, *p as int, Outcome::Succeeded),
        Verdict::Denied(p) => checks_settled(old, new, |b: int, i: int| false, |i: int| false)
            && policy_settled(old, new, *p as int, Outcome::Failed),
        Verdict::FailedChecks(refs) => checks_settled(
            old,
            new,
            |b: int, i: int| names_block_check(refs@, b, i),
            |i: int| names_verifier_check(refs@, i),
        ) && new.verifier.policy_records() == old.verifier.policy_records(),
        Verdict::NoMatchingPolicy => checks_settled(
            old,
            new,
            |b: int, i: int| false,
            |i: int| false,
        ) && new.verifier.policy_records() == old.verifier.policy_records(),
        Verdict::Aborted => new == old,
    }
}

/// `d` is an index of `v` that names no record of `l`.
pub open spec fn explains(l: &Ledgers, v: &Verdict, d: Desync) -> bool {
    match d {
        Desync::Policy(p) => (v == Verdict::Allowed(p) || v == Verdict::Denied(p)) && p
            >= l.verifier.policy_records().len(),
        Desync::Check(c) => match v {
            Verdict::FailedChecks(refs) => refs@.contains(c) && !ref_in_range(l, c),
            _ => false,
        },
    }
}

/// For each of the first `n` checks of block `b`: whether `refs` names it.
fn block_failures(refs: &Vec<CheckRef>, b: usize, n: usize) -> (r: Vec<bool>)
    ensures
        r@.len() == n,
        forall|i: int| 0 <= i < n ==> r@[i] == names_block_check(refs@, b as int, i),
{
    let mut r: Vec<bool> = Vec::new();
    let mut i: usize = 0;
    while i < n
        invariant
            i <= n,
            r@.len() == i,
            forall|j: int| 0 <= j < i ==> r@[j] == names_block_check(refs@, b as int, j),
        decreases n - i,
    {
        let mut found = false;
        let mut k: usize = 0;
        while k < refs.len()
            invariant
                k <= refs@.len(),
                found <==> exists|m: int| 0 <= m < k && #[trigger] is_block_check(refs@[m], b as int, i as int),
            decreases refs@.len() - k,
        {
            match refs[k] {
                CheckRef::Block { block, check } => {
                    if block as usize == b && check as usize == i {
                        found = true;
                    }
                },
                CheckRef::Verifier { .. } => {},
            }
            proof {
                if !is_block_check(refs@[k as int], b as int, i as int) {
                    assert forall|m: int| 0 <= m < k + 1 && is_block_check(refs@[m], b as int, i as int) implies 0 <= m < k by {}
                }
            }
            k = k + 1;
        }
        r.push(found);
        i = i + 1;
    }
    r
}

/// For each of the first `n` checks of the verifier: whether `refs` names it.
fn verifier_failures(refs: &Vec<CheckRef>, n: usize) -> (r: Vec<bool>)
    ensures
        r@.len() == n,
        forall|i: int| 0 <= i < n ==> r@[i] == names_verifier_check(refs@, i),
{
    let mut r: Vec<bool> = Vec::new();
    let mut i: usize = 0;
    while i < n
        invariant
            i <= n,
            r@.len() == i,
            forall|j: int| 0 <= j < i ==> r@[j] == names_verifier_check(refs@, j),
        decreases n - i,
    {
        let mut found = false;
        let mut k: usize = 0;
        while k < refs.len()
            invariant
                k <= refs@.len(),
                found <==> exists|m: int| 0 <= m < k && #[trigger] is_verifier_check(refs@[m], i as int),
            decreases refs@.len() - k,
        {
            match refs[k] {
                CheckRef::Verifier { check } => {
                    if check as usize == i {
                        found = true;
                    }
                },
                CheckRef::Block { .. } => {},
            }
            proof {
                if !is_verifier_check(refs@[k as int], i as int) {
                    assert forall|m: int| 0 <= m < k + 1 && is_verifier_check(refs@[m], i as int) implies 0 <= m < k by {}
                }
            }
            k = k + 1;
        }
        r.push(found);
        i = i + 1;
    }
    r
}

/// Settles the checks of every buffer: failed where `refs` names them,
/// succeeded elsewhere.
fn settle_all_checks(ledgers: &mut Ledgers, refs: &Vec<CheckRef>)
    ensures
        checks_settled(
            old(ledgers),
            final(ledgers),
            |b: int, i: int| names_block_check(refs@, b, i),
            |i: int| names_verifier_check(refs@, i),
        ),
        final(ledgers).verifier.policy_records() == old(ledgers).verifier.policy_records(),
{
    let n = ledgers.blocks.len();
    let mut b: usize = 0;
    while b < n
        invariant
            b <= n,
            n == old(ledgers).blocks@.len(),
            ledgers.blocks@.len() == n,
            ledgers.verifier == old(ledgers).verifier,
            forall|j: int|
                0 <= j < b ==> settled(
                    (#[trigger] old(ledgers).blocks@[j]).check_records(),
                    ledgers.blocks@[j].check_records(),
                    |i: int| names_block_check(refs@, j, i),
                ) && ledgers.blocks@[j].policy_records() == old(ledgers).blocks@[j].policy_records()
                    && ledgers.blocks@[j].error_records() == old(ledgers).blocks@[j].error_records(),
            forall|j: int| b <= j < n ==> #[trigger] ledgers.blocks@[j] == old(ledgers).blocks@[j],
        decreases n - b,
    {
        let mut l = ledgers.blocks.remove(b);
        let count = l.check_count();
        let failed = block_failures(refs, b, count);
        l.settle_checks(&failed);
        ledgers.blocks.insert(b, l);
        b = b + 1;
    }
    let count = ledgers.verifier.check_count();
    let failed = verifier_failures(refs, count);
    ledgers.verifier.settle_checks(&failed);
}

/// The first index in `refs` that names no record of `ledgers`, if any.
fn first_unknown_ref(ledgers: &Ledgers, refs: &Vec<CheckRef>) -> (r: Option<CheckRef>)
    ensures
        match r {
            Some(c) => refs@.contains(c) && !ref_in_range(ledgers, c),
            None => forall|k: int| 0 <= k < refs@.len() ==> ref_in_range(ledgers, #[trigger] refs@[k]),
        },
{
    let mut k: usize = 0;
    while k < refs.len()
        invariant
            k <= refs@.len(),
            forall|m: int| 0 <= m < k ==> ref_in_range(ledgers, #[trigger] refs@[m]),
        decreases refs@.len() - k,
    {
        let c = refs[k];
        let known = match c {
            CheckRef::Block { block, check } => {
                (block as usize) < ledgers.blocks.len() && (check as usize)
                    < ledgers.blocks[block as usize].check_count()
            },
            CheckRef::Verifier { check } => (check as usize) < ledgers.verifier.check_count(),
        };
        if !known {
            proof {
                assert(refs@[k as int] == c);
            }
            return Some(c);
        }
        k = k + 1;
    }
    None
}

/// Applies the evaluator's verdict to the ledgers of a pass.
///
/// Where every check passed (an allow or deny policy matched, or none did)
/// every check is settled as succeeded; where checks failed, those named
/// are settled as failed and the others as succeeded. A matching policy is
/// settled as succeeded (allow) or failed (deny). An aborted evaluation
/// changes nothing. A verdict with an index that names no record is refused
/// and leaves the ledgers as they were.
pub fn apply_verdict(ledgers: &mut Ledgers, verdict: &Verdict) -> (r: Result<(), Desync>)
    ensures
        r is Ok <==> consistent(old(ledgers), verdict),
        r is Ok ==> applied(old(ledgers), final(ledgers), verdict),
        r matches Err(d) ==> *final(ledgers) == *old(ledgers) && explains(old(ledgers), verdict, d),
{
    match verdict {
        Verdict::Allowed(p) => {
            if *p >= ledgers.verifier.policy_count() {
                return Err(Desync::Policy(*p));
            }
            let none: Vec<CheckRef> = Vec::new();
            settle_all_checks(ledgers, &none);
            ledgers.verifier.set_policy_outcome(*p, Outcome::Succeeded);
            Ok(())
        },
        Verdict::Denied(p) => {
            if *p >= ledgers.verifier.policy_count() {
                return Err(Desync::Policy(*p));
            }
            let none: Vec<CheckRef> = Vec::new();
            settle_all_checks(ledgers, &none);
            ledgers.verifier.set_policy_outcome(*p, Outcome::Failed);
            Ok(())
        },
        Verdict::FailedChecks(refs) => {
            match first_unknown_ref(ledgers, refs) {
                Some(c) => Err(Desync::Check(c)),
                None => {
                    settle_all_checks(ledgers, refs);
                    Ok(())
                },
            }
        },
        Verdict::NoMatchingPolicy => {
            let none: Vec<CheckRef> = Vec::new();
            settle_all_checks(ledgers, &none);
            Ok(())
        },
        Verdict::Aborted => Ok(()),
    }
}

/// When the evaluator reports exactly one failed check, applying the verdict
/// settles exactly that record of that buffer as failed: every other check
/// of every buffer is settled as succeeded, and no policy is touched.
pub proof fn lemma_single_failure_marks_one(
    old: Ledgers,
    new: Ledgers,
    verdict: Verdict,
    block: u32,
    check: u32,
)
    requires
        verdict matches Verdict::FailedChecks(refs) && refs@ == seq![
            CheckRef::Block { block, check },
        ],
        consistent(&old, &verdict),
        applied(&old, &new, &verdict),
    ensures
        new.blocks@[block as int].check_records()[check as int].outcome == Outcome::Failed,
        new.blocks@[block as int].check_records()[check as int].span
            == old.blocks@[block as int].check_records()[check as int].span,
        forall|b: int, i: int|
            0 <= b < new.blocks@.len() && 0 <= i < new.blocks@[b].check_records().len() && (b
                != block || i != check) ==> (#[trigger] new.blocks@[b].check_records()[i]).outcome
                == Outcome::Succeeded,
        forall|i: int|
            0 <= i < new.verifier.check_records().len() ==> (
            #[trigger] new.verifier.check_records()[i]).outcome == Outcome::Succeeded,
        new.verifier.policy_records() == old.verifier.policy_records(),
        forall|b: int|
            0 <= b < new.blocks@.len() ==> (#[trigger] new.blocks@[b]).policy_records()
                == old.blocks@[b].policy_records(),
{
    let refs = verdict->FailedChecks_0@;
    let r = CheckRef::Block { block, check };
    assert(refs[0] == r);
    assert(ref_in_range(&old, refs[0]));
    assert(is_block_check(refs[0], block as int, check as int));
    assert(names_block_check(refs, block as int, check as int));
    assert forall|b: int, i: int|
        0 <= b < new.blocks@.len() && 0 <= i < new.blocks@[b].check_records().len() && (b
            != block || i != check) implies (#[trigger] new.blocks@[b].check_records()[i]).outcome
            == Outcome::Succeeded by {
        assert(settled(
            old.blocks@[b].check_records(),
            new.blocks@[b].check_records(),
            |j: int| names_block_check(refs, b, j),
        ));
        assert(!names_block_check(refs, b, i));
    }
    assert forall|i: int| 0 <= i < new.verifier.check_records().len() implies (
    #[trigger] new.verifier.check_records()[i]).outcome == Outcome::Succeeded by {
        assert(!names_verifier_check(refs, i));
    }
}

} // verus!
