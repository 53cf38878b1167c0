use biscuit_playground::compile::{join_lines, run_pass, PassOutput};
use biscuit_playground::correlate::{CheckRef, Verdict};
use biscuit_playground::ledger::{Ledger, Outcome};
use biscuit_playground::span::SourceSpan;

fn span(line_start: usize, column_start: usize, line_end: usize, column_end: usize) -> SourceSpan {
    SourceSpan { line_start, column_start, line_end, column_end }
}

fn run(buffers: &[&str], verifier: Option<&str>, query: &str) -> PassOutput {
    let buffers: Vec<String> = buffers.iter().map(|b| b.to_string()).collect();
    let verifier = verifier.map(|v| v.to_string());
    run_pass(&buffers, &verifier, query).unwrap()
}

fn check_spans(l: &Ledger) -> Vec<SourceSpan> {
    (0..l.check_count()).map(|i| l.check(i).span).collect()
}

fn outcomes(l: &Ledger) -> Vec<Outcome> {
    (0..l.check_count()).map(|i| l.check(i).outcome).collect()
}

fn policy_outcomes(l: &Ledger) -> Vec<Outcome> {
    (0..l.policy_count()).map(|i| l.policy(i).outcome).collect()
}

const VERIFIER_TWO_CHECKS: &str = "operation(#ambient, #read);\ncheck if operation(#ambient, #read);\ncheck if operation(#ambient, #write);\nallow if true;";

#[test]
fn one_check_in_the_authority_buffer() {
    let out = run(&["check if operation(\"read\")\n"], None, "");
    assert_eq!(out.ledgers.blocks.len(), 1);
    let l = &out.ledgers.blocks[0];
    assert_eq!(l.check_count(), 1);
    assert_eq!(l.check(0).span, span(0, 0, 0, 26));
    assert_eq!(l.check(0).outcome, Outcome::Unknown);
    assert_eq!(l.error_count(), 0);
    assert!(out.token_text.is_some());
    assert!(out.failure.is_none());
    assert!(out.verdict.is_none());
}

#[test]
fn invalid_buffer_gives_an_error_and_no_checks() {
    let out = run(
        &["check if operation(#ambient, #read) or", "check if operation(#ambient, #read);"],
        None,
        "",
    );
    assert_eq!(out.ledgers.blocks.len(), 2);
    let bad = &out.ledgers.blocks[0];
    assert_eq!(bad.check_count(), 0);
    assert_eq!(bad.error_count(), 1);
    let e = bad.error(0);
    assert_eq!(e.span.line_start, 0);
    assert!(e.span.column_start <= e.span.column_end);
    assert!(!e.message.is_empty());
    let bad_again = run(&["check if x(1) or;\ncheck if y(", "check if operation(#ambient, #read);"], None, "");
    assert_eq!(bad_again.ledgers.blocks[0].check_count(), 0);
    assert_eq!(bad_again.ledgers.blocks[0].error_count(), 2);
    assert_eq!(check_spans(&bad_again.ledgers.blocks[1]), vec![span(0, 0, 0, 35)]);
    let good = &out.ledgers.blocks[1];
    assert_eq!(good.error_count(), 0);
    assert_eq!(check_spans(good), vec![span(0, 0, 0, 35)]);
    assert!(out.failure.is_none());
}

#[test]
fn second_check_fails_and_first_succeeds() {
    let out = run(&[], Some(VERIFIER_TWO_CHECKS), "");
    let v = &out.ledgers.verifier;
    assert_eq!(check_spans(v), vec![span(1, 0, 1, 35), span(2, 0, 2, 36)]);
    assert_eq!(outcomes(v), vec![Outcome::Succeeded, Outcome::Failed]);
    assert_eq!(policy_outcomes(v), vec![Outcome::Unknown]);
    assert_eq!(v.policy(0).span, span(3, 0, 3, 13));
    match out.verdict {
        Some(Verdict::FailedChecks(refs)) => {
            assert_eq!(refs, vec![CheckRef::Verifier { check: 1 }])
        },
        other => panic!("unexpected verdict {:?}", other),
    }
    assert!(out.report.starts_with("Error: "));
}

#[test]
fn failed_check_of_block_one_is_marked_in_block_one() {
    let out = run(
        &["check if operation(#ambient, #read);", "check if operation(#ambient, #write);\ncheck if operation(#ambient, #read);"],
        Some("operation(#ambient, #read);\nallow if true;"),
        "",
    );
    assert_eq!(outcomes(&out.ledgers.blocks[0]), vec![Outcome::Succeeded]);
    assert_eq!(
        outcomes(&out.ledgers.blocks[1]),
        vec![Outcome::Failed, Outcome::Succeeded]
    );
    assert_eq!(out.ledgers.blocks[1].check(0).span, span(0, 0, 0, 36));
    assert_eq!(policy_outcomes(&out.ledgers.verifier), vec![Outcome::Unknown]);
}

#[test]
fn allowing_policy_is_marked_succeeded() {
    let out = run(
        &["check if operation(#ambient, #read);"],
        Some("operation(#ambient, #read);\ndeny if operation(#ambient, #write);\nallow if true;"),
        "",
    );
    assert!(matches!(out.verdict, Some(Verdict::Allowed(1))));
    assert_eq!(out.report, "Success");
    assert_eq!(outcomes(&out.ledgers.blocks[0]), vec![Outcome::Succeeded]);
    assert_eq!(
        policy_outcomes(&out.ledgers.verifier),
        vec![Outcome::Unknown, Outcome::Succeeded]
    );
    assert_eq!(out.ledgers.verifier.policy(1).span, span(2, 0, 2, 13));
}

#[test]
fn denying_policy_is_marked_failed() {
    let out = run(&[], Some("deny if true;\nallow if true;"), "");
    assert!(matches!(out.verdict, Some(Verdict::Denied(0))));
    assert_eq!(policy_outcomes(&out.ledgers.verifier), vec![Outcome::Failed, Outcome::Unknown]);
    assert!(out.report.starts_with("Error: "));
}

#[test]
fn no_policy_matches_after_passing_checks() {
    let out = run(&[], Some("check if true;"), "");
    assert!(matches!(out.verdict, Some(Verdict::NoMatchingPolicy)));
    assert_eq!(outcomes(&out.ledgers.verifier), vec![Outcome::Succeeded]);
}

#[test]
fn invalid_verifier_buffer_is_not_evaluated() {
    let out = run(&["check if operation(#ambient, #read);"], Some("allow if"), "");
    assert!(out.verdict.is_none());
    assert_eq!(out.report, "Error: ParseError");
    assert_eq!(out.ledgers.verifier.error_count(), 1);
    assert_eq!(out.world, format!("errors: {}", out.ledgers.verifier.error(0).message));
    assert_eq!(outcomes(&out.ledgers.blocks[0]), vec![Outcome::Unknown]);
}

#[test]
fn compiling_twice_gives_the_same_ledgers() {
    let buffers = ["fact(1);\ncheck if fact(1);\n\ncheck if\n  fact(2);", "check if x(1) or", "check if true;"];
    let a = run(&buffers, Some(VERIFIER_TWO_CHECKS), "");
    let b = run(&buffers, Some(VERIFIER_TWO_CHECKS), "");
    assert_eq!(a.ledgers.blocks.len(), b.ledgers.blocks.len());
    for (x, y) in a.ledgers.blocks.iter().zip(b.ledgers.blocks.iter()).chain(std::iter::once((&a.ledgers.verifier, &b.ledgers.verifier))) {
        assert_eq!(x.check_count(), y.check_count());
        assert_eq!(x.policy_count(), y.policy_count());
        assert_eq!(x.error_count(), y.error_count());
        for i in 0..x.check_count() {
            assert_eq!(x.check(i), y.check(i));
        }
        for i in 0..x.policy_count() {
            assert_eq!(x.policy(i), y.policy(i));
        }
        for i in 0..x.error_count() {
            assert_eq!(x.error(i).span, y.error(i).span);
            assert_eq!(x.error(i).message, y.error(i).message);
        }
    }
    assert_eq!(a.token_text, b.token_text);
}

#[test]
fn checks_are_recorded_in_source_order() {
    let text = "check if a(0);\ncheck if a(1);\n\n  check if a(2);\ncheck if\n a(3);";
    let out = run(&[text], None, "");
    let l = &out.ledgers.blocks[0];
    assert_eq!(
        check_spans(l),
        vec![span(0, 0, 0, 13), span(1, 0, 1, 13), span(3, 2, 3, 15), span(4, 0, 5, 5)]
    );
}

#[test]
fn no_buffers_and_no_verifier() {
    let out = run(&[], None, "");
    assert!(out.ledgers.blocks.is_empty());
    assert!(out.token_text.is_none());
    assert!(out.verdict.is_none());
    assert_eq!(out.ledgers.verifier.check_count(), 0);
    assert_eq!(out.report, "");
    assert_eq!(out.world, "");
}

#[test]
fn query_runs_after_evaluation() {
    let out = run(
        &[],
        Some("operation(#ambient, #read);\noperation(#ambient, #write);\nallow if true;"),
        "data($x) <- operation(#ambient, $x)",
    );
    let result = out.query_result.unwrap();
    assert!(result.contains("#read"), "{}", result);
    assert!(result.contains(",\n"), "{}", result);
    let none = run(&[], Some("allow if true;"), "");
    assert!(none.query_result.is_none());
}

#[test]
fn join_lines_puts_the_separator_between_items() {
    let items = vec!["a".to_string(), "bc".to_string(), "d".to_string()];
    assert_eq!(join_lines(&items, ",\n"), "a,\nbc,\nd");
    assert_eq!(join_lines(&vec!["x".to_string()], ",\n"), "x");
    assert_eq!(join_lines(&Vec::new(), ",\n"), "");
}
