use biscuit_playground::correlate::{apply_verdict, CheckRef, Desync, Ledgers, Verdict};
use biscuit_playground::ledger::{Ledger, Outcome, StatementRecord};
use biscuit_playground::span::SourceSpan;

fn span(line: usize) -> SourceSpan {
    SourceSpan { line_start: line, column_start: 0, line_end: line, column_end: 10 }
}

fn ledger(checks: usize, policies: usize, first_line: usize) -> Ledger {
    let mut l = Ledger::new();
    for i in 0..checks {
        assert_eq!(l.record_check(span(first_line + i)), i);
    }
    for i in 0..policies {
        assert_eq!(l.record_policy(span(first_line + checks + i)), i);
    }
    l
}

fn outcomes(l: &Ledger) -> Vec<Outcome> {
    (0..l.check_count()).map(|i| l.check(i).outcome).collect()
}

fn policy_outcomes(l: &Ledger) -> Vec<Outcome> {
    (0..l.policy_count()).map(|i| l.policy(i).outcome).collect()
}

fn pass() -> Ledgers {
    Ledgers { blocks: vec![ledger(2, 0, 0), ledger(3, 0, 10)], verifier: ledger(2, 2, 20) }
}

#[test]
fn records_keep_the_order_they_were_added_in() {
    let l = ledger(3, 1, 5);
    assert_eq!(l.check_count(), 3);
    for i in 0..3 {
        assert_eq!(l.check(i), StatementRecord { span: span(5 + i), outcome: Outcome::Unknown });
    }
    assert_eq!(l.policy(0), StatementRecord { span: span(8), outcome: Outcome::Unknown });
}

#[test]
fn setting_an_outcome_changes_one_record() {
    let mut l = ledger(3, 0, 0);
    l.set_check_outcome(1, Outcome::Failed);
    assert_eq!(outcomes(&l), vec![Outcome::Unknown, Outcome::Failed, Outcome::Unknown]);
    assert_eq!(l.check(1).span, span(1));
}

#[test]
fn settle_checks_follows_the_flags() {
    let mut l = ledger(3, 1, 0);
    l.settle_checks(&vec![false, true, false]);
    assert_eq!(outcomes(&l), vec![Outcome::Succeeded, Outcome::Failed, Outcome::Succeeded]);
    assert_eq!(policy_outcomes(&l), vec![Outcome::Unknown]);
}

#[test]
fn one_failed_block_check_marks_exactly_that_record() {
    let mut l = pass();
    let v = Verdict::FailedChecks(vec![CheckRef::Block { block: 1, check: 0 }]);
    assert_eq!(apply_verdict(&mut l, &v), Ok(()));
    assert_eq!(outcomes(&l.blocks[0]), vec![Outcome::Succeeded, Outcome::Succeeded]);
    assert_eq!(
        outcomes(&l.blocks[1]),
        vec![Outcome::Failed, Outcome::Succeeded, Outcome::Succeeded]
    );
    assert_eq!(l.blocks[1].check(0).span, span(10));
    assert_eq!(outcomes(&l.verifier), vec![Outcome::Succeeded, Outcome::Succeeded]);
    assert_eq!(policy_outcomes(&l.verifier), vec![Outcome::Unknown, Outcome::Unknown]);
}

#[test]
fn failed_verifier_and_block_checks_together() {
    let mut l = pass();
    let v = Verdict::FailedChecks(vec![
        CheckRef::Verifier { check: 1 },
        CheckRef::Block { block: 0, check: 1 },
        CheckRef::Verifier { check: 1 },
    ]);
    assert_eq!(apply_verdict(&mut l, &v), Ok(()));
    assert_eq!(outcomes(&l.blocks[0]), vec![Outcome::Succeeded, Outcome::Failed]);
    assert_eq!(outcomes(&l.blocks[1]), vec![Outcome::Succeeded; 3]);
    assert_eq!(outcomes(&l.verifier), vec![Outcome::Succeeded, Outcome::Failed]);
}

#[test]
fn allowing_policy_succeeds_with_every_check() {
    let mut l = pass();
    assert_eq!(apply_verdict(&mut l, &Verdict::Allowed(1)), Ok(()));
    assert_eq!(outcomes(&l.blocks[1]), vec![Outcome::Succeeded; 3]);
    assert_eq!(policy_outcomes(&l.verifier), vec![Outcome::Unknown, Outcome::Succeeded]);
}

#[test]
fn denying_verdict_marks_the_policy_failed() {
    let mut l = pass();
    assert_eq!(apply_verdict(&mut l, &Verdict::Denied(0)), Ok(()));
    assert_eq!(outcomes(&l.verifier), vec![Outcome::Succeeded; 2]);
    assert_eq!(policy_outcomes(&l.verifier), vec![Outcome::Failed, Outcome::Unknown]);
}

#[test]
fn no_matching_policy_leaves_policies_unknown() {
    let mut l = pass();
    assert_eq!(apply_verdict(&mut l, &Verdict::NoMatchingPolicy), Ok(()));
    assert_eq!(outcomes(&l.blocks[0]), vec![Outcome::Succeeded; 2]);
    assert_eq!(policy_outcomes(&l.verifier), vec![Outcome::Unknown; 2]);
}

#[test]
fn aborted_evaluation_changes_nothing() {
    let mut l = pass();
    assert_eq!(apply_verdict(&mut l, &Verdict::Aborted), Ok(()));
    assert_eq!(outcomes(&l.blocks[1]), vec![Outcome::Unknown; 3]);
    assert_eq!(outcomes(&l.verifier), vec![Outcome::Unknown; 2]);
}

#[test]
fn unknown_block_is_a_desync() {
    let mut l = pass();
    let bad = CheckRef::Block { block: 2, check: 0 };
    let v = Verdict::FailedChecks(vec![CheckRef::Block { block: 0, check: 0 }, bad]);
    assert_eq!(apply_verdict(&mut l, &v), Err(Desync::Check(bad)));
    assert_eq!(outcomes(&l.blocks[0]), vec![Outcome::Unknown; 2]);
}

#[test]
fn unknown_check_index_is_a_desync() {
    let mut l = pass();
    let bad = CheckRef::Verifier { check: 2 };
    assert_eq!(apply_verdict(&mut l, &Verdict::FailedChecks(vec![bad])), Err(Desync::Check(bad)));
    let bad = CheckRef::Block { block: 1, check: 3 };
    assert_eq!(apply_verdict(&mut l, &Verdict::FailedChecks(vec![bad])), Err(Desync::Check(bad)));
}

#[test]
fn unknown_policy_index_is_a_desync() {
    let mut l = pass();
    assert_eq!(apply_verdict(&mut l, &Verdict::Allowed(2)), Err(Desync::Policy(2)));
    assert_eq!(apply_verdict(&mut l, &Verdict::Denied(5)), Err(Desync::Policy(5)));
    assert_eq!(policy_outcomes(&l.verifier), vec![Outcome::Unknown; 2]);
}

#[test]
fn parse_errors_are_kept_in_order() {
    let mut l = Ledger::new();
    l.record_error(span(0), String::from("first"));
    l.record_error(span(3), String::from("second"));
    assert_eq!(l.error_count(), 2);
    assert_eq!(l.error(1).span, span(3));
    assert_eq!(l.error(1).message, "second");
}
