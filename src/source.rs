//! Parsing a buffer with biscuit's Datalog parser, and indexing what it
//! found: the spans of its checks and policies, in source order, or the
//! spans and messages of its errors.
use vstd::prelude::*;
use vstd::string::StringSliceAdditionalSpecFns;
use biscuit_auth::parser;
use biscuit_auth::token::builder::{Check, Fact, Policy, Rule};
use nom::Offset;
use crate::ledger::{Ledger, ParseDiagnostic, StatementRecord, unknown_at};
use crate::span::{TokenRange, resolve_token, token_span};

verus! {

#[verifier::external_type_specification]
#[verifier::external_body]
pub struct ExFact(Fact);

#[verifier::external_type_specification]
#[verifier::external_body]
pub struct ExRule(Rule);

#[verifier::external_type_specification]
#[verifier::external_body]
pub struct ExCheck(Check);

#[verifier::external_type_specification]
#[verifier::external_body]
pub struct ExPolicy(Policy);

/// The statements of a buffer that parsed, in source order; facts and rules
/// with the text they were parsed from, checks and policies with its byte
/// range.
pub struct ParsedSource<'a> {
    pub facts: Vec<(&'a str, Fact)>,
    pub rules: Vec<(&'a str, Rule)>,
    pub checks: Vec<(TokenRange, Check)>,
    pub policies: Vec<(TokenRange, Policy)>,
}

/// One error of a buffer that did not parse: the byte range it points at,
/// the parser's message if it gave one, and its error code as text.
pub struct SyntaxError {
    pub token: TokenRange,
    pub message: Option<String>,
    pub code: String,
}

/// What the parser finds in a source text: whether it parsed, the byte
/// ranges of its checks and of its policies in source order, and for a text
/// that did not parse the range, message and code of each error.
pub struct SourceLayout {
    pub parsed: bool,
    pub checks: Seq<TokenRange>,
    pub policies: Seq<TokenRange>,
    pub errors: Seq<(TokenRange, Option<Seq<char>>, Seq<char>)>,
}

/// What biscuit's parser finds in the text `text`.
pub uninterp spec fn source_layout(text: Seq<char>) -> SourceLayout;

pub open spec fn message_view(m: Option<String>) -> Option<Seq<char>> {
    match m {
        Some(s) => Some(s@),
        None => None,
    }
}

/// The layout of a parse result.
pub open spec fn layout_of(r: Result<ParsedSource<'_>, Vec<SyntaxError>>) -> SourceLayout {
    match r {
        Ok(p) => SourceLayout {
            parsed: true,
            checks: p.checks@.map_values(|e: (TokenRange, Check)| e.0),
            policies: p.policies@.map_values(|e: (TokenRange, Policy)| e.0),
            errors: Seq::empty(),
        },
        Err(es) => SourceLayout {
            parsed: false,
            checks: Seq::empty(),
            policies: Seq::empty(),
            errors: es@.map_values(|e: SyntaxError| (e.token, message_view(e.message), e.code@)),
        },
    }
}

/// A text that parsed has no errors, and one that did not has no
/// statements.
pub open spec fn layout_consistent(lay: SourceLayout) -> bool {
    if lay.parsed {
        lay.errors.len() == 0
    } else {
        lay.checks.len() == 0 && lay.policies.len() == 0
    }
}

/// Every range of `lay` lies inside a buffer of `n` bytes.
pub open spec fn fits_all(lay: SourceLayout, n: int) -> bool {
    &&& forall|i: int| 0 <= i < lay.checks.len() ==> (#[trigger] lay.checks[i]).fits(n)
    &&& forall|i: int| 0 <= i < lay.policies.len() ==> (#[trigger] lay.policies[i]).fits(n)
    &&& forall|i: int| 0 <= i < lay.errors.len() ==> (#[trigger] lay.errors[i]).0.fits(n)
}

/// The message shown for an error: the parser's own, or else its code.
pub open spec fn message_of(e: (TokenRange, Option<Seq<char>>, Seq<char>)) -> Seq<char> {
    match e.1 {
        Some(m) => m,
        None => "error: "@ + e.2,
    }
}

/// Fresh records for the statements at `tokens`, in the same order.
pub open spec fn fresh_records(s: Seq<u8>, tokens: Seq<TokenRange>) -> Seq<StatementRecord> {
    tokens.map_values(|t: TokenRange| unknown_at(token_span(s, t)))
}

/// `l` is the ledger of a buffer with bytes `s` whose parse has layout
/// `lay`: its checks (and, where `with_policies`, its policies) in source
/// order, none of them settled yet, and its parse errors in the parser's
/// order.
pub open spec fn indexed(l: Ledger, s: Seq<u8>, lay: SourceLayout, with_policies: bool) -> bool {
    &&& l.check_records() == fresh_records(s, lay.checks)
    &&& l.policy_records() == if with_policies {
        fresh_records(s, lay.policies)
    } else {
        Seq::empty()
    }
    &&& l.error_records().len() == lay.errors.len()
    &&& forall|i: int|
        0 <= i < lay.errors.len() ==> (#[trigger] l.error_records()[i]).span == token_span(
            s,
            lay.errors[i].0,
        ) && l.error_records()[i].message@ == message_of(lay.errors[i])
}

/// The `i`-th check record of a buffer's ledger is the `i`-th check of the
/// buffer in source order: it sits at that check's span, and there are as
/// many records as checks. The same holds of policies where they are kept.
pub proof fn lemma_records_in_source_order(
    l: Ledger,
    s: Seq<u8>,
    lay: SourceLayout,
    with_policies: bool,
)
    requires
        indexed(l, s, lay, with_policies),
    ensures
        l.check_records().len() == lay.checks.len(),
        forall|i: int|
            0 <= i < lay.checks.len() ==> #[trigger] l.check_records()[i] == unknown_at(
                token_span(s, lay.checks[i]),
            ),
        with_policies ==> l.policy_records().len() == lay.policies.len(),
        with_policies ==> forall|i: int|
            0 <= i < lay.policies.len() ==> #[trigger] l.policy_records()[i] == unknown_at(
                token_span(s, lay.policies[i]),
            ),
{
}

/// Relies on biscuit_auth::parser::parse_source: it returns the statements
/// of `text`, or its errors, each with a slice of `text`, and depends on
/// `text` alone; nom's `Offset` gives each slice's byte offset in `text`.
#[verifier::external_body]
pub(crate) fn parse_source<'a>(text: &'a str) -> (r: Result<ParsedSource<'a>, Vec<SyntaxError>>)
    ensures
        layout_of(r) == source_layout(text@),
        fits_all(layout_of(r), text.spec_bytes().len() as int),
{
    let range = |t: &str| TokenRange { start: text.offset(t), len: t.len() };
    parser::parse_source(text).map(|(_, p)| ParsedSource {
        facts: p.facts,
        rules: p.rules,
        checks: p.checks.into_iter().map(|(t, c)| (range(t), c)).collect(),
        policies: p.policies.into_iter().map(|(t, c)| (range(t), c)).collect(),
    }).map_err(|es| es.into_iter().map(|e| SyntaxError {
        token: range(e.input), message: e.message, code: format!("{:?}", e.code),
    }).collect())
}

/// The message shown for a parse error.
fn error_message(e: &SyntaxError) -> (r: String)
    ensures
        r@ == message_of((e.token, message_view(e.message), e.code@)),
{
    match &e.message {
        Some(m) => m.clone(),
        None => {
            let prefix = String::from_str("error: ");
            proof {
                reveal_strlit("error: ");
            }
            prefix.concat(e.code.as_str())
        },
    }
}

/// Indexes a parse result of `text`: the spans of its checks (and, where
/// `with_policies`, of its policies) in source order, or the spans and
/// messages of its errors.
pub fn index_source(
    text: &str,
    parsed: &Result<ParsedSource<'_>, Vec<SyntaxError>>,
    with_policies: bool,
) -> (r: Ledger)
    requires
        fits_all(layout_of(*parsed), text.spec_bytes().len() as int),
    ensures
        indexed(r, text.spec_bytes(), layout_of(*parsed), with_policies),
{
    let ghost s = text.spec_bytes();
    let ghost lay = layout_of(*parsed);
    let mut l = Ledger::new();
    match parsed {
        Ok(p) => {
            let mut i: usize = 0;
            while i < p.checks.len()
                invariant
                    i <= p.checks@.len(),
                    lay == layout_of(*parsed),
                    s == text.spec_bytes(),
                    *parsed == Ok::<ParsedSource<'_>, Vec<SyntaxError>>(*p),
                    fits_all(lay, s.len() as int),
                    l.check_records() == fresh_records(s, lay.checks.take(i as int)),
                    l.policy_records() == Seq::<StatementRecord>::empty(),
                    l.error_records() == Seq::<ParseDiagnostic>::empty(),
                decreases p.checks@.len() - i,
            {
                assert(lay.checks[i as int] == p.checks@[i as int].0);
                let sp = resolve_token(text, p.checks[i].0);
                l.record_check(sp);
                assert(lay.checks.take(i + 1) =~= lay.checks.take(i as int).push(lay.checks[i as int]));
                assert(fresh_records(s, lay.checks.take(i + 1)) =~= fresh_records(s, lay.checks.take(i as int)).push(unknown_at(sp)));
                i = i + 1;
            }
            assert(lay.checks.take(i as int) =~= lay.checks);
            if with_policies {
                let mut j: usize = 0;
                while j < p.policies.len()
                    invariant
                        j <= p.policies@.len(),
                        lay == layout_of(*parsed),
                        s == text.spec_bytes(),
                        *parsed == Ok::<ParsedSource<'_>, Vec<SyntaxError>>(*p),
                        fits_all(lay, s.len() as int),
                        l.check_records() == fresh_records(s, lay.checks),
                        l.policy_records() == fresh_records(s, lay.policies.take(j as int)),
                        l.error_records() == Seq::<ParseDiagnostic>::empty(),
                    decreases p.policies@.len() - j,
                {
                    assert(lay.policies[j as int] == p.policies@[j as int].0);
                    let sp = resolve_token(text, p.policies[j].0);
                    l.record_policy(sp);
                    assert(lay.policies.take(j + 1) =~= lay.policies.take(j as int).push(lay.policies[j as int]));
                    assert(fresh_records(s, lay.policies.take(j + 1)) =~= fresh_records(s, lay.policies.take(j as int)).push(unknown_at(sp)));
                    j = j + 1;
                }
                assert(lay.policies.take(j as int) =~= lay.policies);
            }
        },
        Err(es) => {
            let mut i: usize = 0;
            while i < es.len()
                invariant
                    i <= es@.len(),
                    lay == layout_of(*parsed),
                    s == text.spec_bytes(),
                    *parsed == Err::<ParsedSource<'_>, Vec<SyntaxError>>(*es),
                    fits_all(lay, s.len() as int),
                    l.check_records() == Seq::<StatementRecord>::empty(),
                    l.policy_records() == Seq::<StatementRecord>::empty(),
                    l.error_records().len() == i,
                    forall|k: int|
                        0 <= k < i ==> (#[trigger] l.error_records()[k]).span == token_span(
                            s,
                            lay.errors[k].0,
                        ) && l.error_records()[k].message@ == message_of(lay.errors[k]),
                decreases es@.len() - i,
            {
                let e = &es[i];
                assert(lay.errors[i as int] == (e.token, message_view(e.message), e.code@));
                let sp = resolve_token(text, e.token);
                let message = error_message(e);
                l.record_error(sp, message);
                i = i + 1;
            }
        },
    }
    proof {
        assert(fresh_records(s, Seq::<TokenRange>::empty()) =~= Seq::<StatementRecord>::empty());
    }
    l
}

} // verus!
