//! One compilation pass: the token buffers are parsed and chained into a
//! biscuit token, the verifier buffer is parsed into a verifier for it, the
//! verifier is run, and its verdict is applied to the ledgers of the pass.
use vstd::prelude::*;
use biscuit_auth::crypto::KeyPair;
use biscuit_auth::error::{FailedCheck, Logic, Token};
use biscuit_auth::token::builder::{BiscuitBuilder, BlockBuilder, Check, Fact, Policy, Rule};
use biscuit_auth::token::verifier::{Verifier, VerifierLimits};
use biscuit_auth::token::Biscuit;
use rand::rngs::StdRng;
use vstd::utf8::encode_utf8;
use crate::correlate::{
    CheckRef, Desync, Ledgers, Verdict, applied, apply_verdict, consistent, explains,
};
use crate::ledger::{Ledger, ParseDiagnostic, StatementRecord};
use crate::source::{
    ParsedSource, SyntaxError, fresh_records, index_source, indexed, layout_consistent, parse_source,
    source_layout,
};

verus! {

#[verifier::external_type_specification]
#[verifier::external_body]
pub struct ExKeyPair(KeyPair);

#[verifier::external_type_specification]
#[verifier::external_body]
pub struct ExBiscuit(Biscuit);

#[verifier::external_type_specification]
#[verifier::external_body]
pub struct ExBiscuitBuilder<'a>(BiscuitBuilder<'a>);

#[verifier::external_type_specification]
#[verifier::external_body]
pub struct ExBlockBuilder(BlockBuilder);

#[verifier::external_type_specification]
#[verifier::external_body]
pub struct ExVerifier(Verifier);

#[verifier::external_type_specification]
#[verifier::external_body]
pub struct ExToken(Token);

#[verifier::external_type_specification]
#[verifier::external_body]
pub struct ExLogic(Logic);

#[verifier::external_type_specification]
#[verifier::external_body]
pub struct ExStdRng(StdRng);

/// Relies on rand's `SeedableRng::seed_from_u64` for `StdRng`.
#[verifier::external_body]
fn seeded_rng(seed: u64) -> StdRng {
    <StdRng as rand::SeedableRng>::seed_from_u64(seed)
}

/// Relies on biscuit_auth::crypto::KeyPair::new_with_rng.
#[verifier::external_body]
fn new_keypair(rng: &mut StdRng) -> KeyPair {
    KeyPair::new_with_rng(rng)
}

/// Relies on biscuit_auth::token::Biscuit::builder.
#[verifier::external_body]
fn token_builder<'a>(root: &'a KeyPair) -> BiscuitBuilder<'a> {
    Biscuit::builder(root)
}

/// Relies on BiscuitBuilder::add_authority_fact: a `Fact` converts to
/// itself without failure and is then pushed, so the call returns `Ok`.
#[verifier::external_body]
fn add_authority_fact(builder: &mut BiscuitBuilder, fact: Fact) -> (r: Result<(), Token>)
    ensures
        r is Ok,
{
    builder.add_authority_fact(fact)
}

/// Relies on BiscuitBuilder::add_authority_rule: a `Rule` converts to
/// itself without failure and is then pushed, so the call returns `Ok`.
#[verifier::external_body]
fn add_authority_rule(builder: &mut BiscuitBuilder, rule: Rule) -> (r: Result<(), Token>)
    ensures
        r is Ok,
{
    builder.add_authority_rule(rule)
}

/// Relies on BiscuitBuilder::add_authority_check: a `Check` converts to
/// itself without failure and is then pushed, so the call returns `Ok`.
#[verifier::external_body]
fn add_authority_check(builder: &mut BiscuitBuilder, check: Check) -> (r: Result<(), Token>)
    ensures
        r is Ok,
{
    builder.add_authority_check(check)
}

/// Relies on BiscuitBuilder::build_with_rng: signs the authority block.
#[verifier::external_body]
fn build_token<'a>(builder: BiscuitBuilder<'a>, rng: &'a mut StdRng) -> Result<Biscuit, Token> {
    builder.build_with_rng(rng)
}

/// Relies on biscuit_auth::token::Biscuit::create_block.
#[verifier::external_body]
fn create_block(token: &Biscuit) -> BlockBuilder {
    token.create_block()
}

/// Relies on BlockBuilder::add_fact: a `Fact` converts to itself without
/// failure and is then pushed, so the call returns `Ok`.
#[verifier::external_body]
fn add_block_fact(builder: &mut BlockBuilder, fact: Fact) -> (r: Result<(), Token>)
    ensures
        r is Ok,
{
    builder.add_fact(fact)
}

/// Relies on BlockBuilder::add_rule: a `Rule` converts to itself without
/// failure and is then pushed, so the call returns `Ok`.
#[verifier::external_body]
fn add_block_rule(builder: &mut BlockBuilder, rule: Rule) -> (r: Result<(), Token>)
    ensures
        r is Ok,
{
    builder.add_rule(rule)
}

/// Relies on BlockBuilder::add_check: a `Check` converts to itself without
/// failure and is then pushed, so the call returns `Ok`.
#[verifier::external_body]
fn add_block_check(builder: &mut BlockBuilder, check: Check) -> (r: Result<(), Token>)
    ensures
        r is Ok,
{
    builder.add_check(check)
}

/// Relies on biscuit_auth::token::Biscuit::append_with_rng: signs and
/// appends a block.
#[verifier::external_body]
fn append_block(
    token: &Biscuit,
    rng: &mut StdRng,
    keypair: &KeyPair,
    builder: BlockBuilder,
) -> Result<Biscuit, Token> {
    token.append_with_rng(rng, keypair, builder)
}

/// Relies on biscuit_auth::token::Biscuit::print.
#[verifier::external_body]
fn print_token(token: &Biscuit) -> String {
    token.print()
}

/// Relies on biscuit_auth::token::Biscuit::verify, with the public key of
/// `root`.
#[verifier::external_body]
fn token_verifier(token: &Biscuit, root: &KeyPair) -> Result<Verifier, Token> {
    token.verify(root.public())
}

/// Relies on biscuit_auth::token::verifier::Verifier::new, which always
/// returns `Ok`.
#[verifier::external_body]
fn empty_verifier() -> (r: Result<Verifier, Logic>)
    ensures
        r is Ok,
{
    Verifier::new()
}

/// Relies on Verifier::add_fact: a `Fact` converts to itself without
/// failure and is then inserted, so the call returns `Ok`.
#[verifier::external_body]
fn add_verifier_fact(verifier: &mut Verifier, fact: Fact) -> (r: Result<(), Token>)
    ensures
        r is Ok,
{
    verifier.add_fact(fact)
}

/// Relies on Verifier::add_rule: a `Rule` converts to itself without
/// failure and is then pushed, so the call returns `Ok`.
#[verifier::external_body]
fn add_verifier_rule(verifier: &mut Verifier, rule: Rule) -> (r: Result<(), Token>)
    ensures
        r is Ok,
{
    verifier.add_rule(rule)
}

/// Relies on Verifier::add_check: a `Check` converts to itself without
/// failure and is then pushed, so the call returns `Ok`.
#[verifier::external_body]
fn add_verifier_check(verifier: &mut Verifier, check: Check) -> (r: Result<(), Token>)
    ensures
        r is Ok,
{
    verifier.add_check(check)
}

/// Relies on Verifier::add_policy: a `Policy` converts to itself without
/// failure and is then pushed, so the call returns `Ok`.
#[verifier::external_body]
fn add_verifier_policy(verifier: &mut Verifier, policy: Policy) -> (r: Result<(), Token>)
    ensures
        r is Ok,
{
    verifier.add_policy(policy)
}

/// Relies on Verifier::verify_with_limits, with the default limits but for
/// the running time, which is `max_millis` milliseconds. The deadline is
/// the clock plus that time, in microseconds on wasm32 (biscuit's
/// `time.rs`), and adding them panics on overflow: the bound keeps the sum
/// far below `u64::MAX`.
#[verifier::external_body]
fn evaluate(verifier: &mut Verifier, max_millis: u64) -> Result<usize, Token>
    requires
        max_millis <= 1_000_000_000,
{
    let mut limits = VerifierLimits::default();
    limits.max_time = std::time::Duration::from_millis(max_millis);
    verifier.verify_with_limits(limits)
}

/// Relies on the variants of biscuit_auth::error::Token that
/// Verifier::verify_with_limits returns: the checks that failed (each with
/// its block id and check id), the index of the denying policy, no matching
/// policy; any other error stopped the evaluation. An error is never read
/// as an allowing verdict.
#[verifier::external_body]
fn verdict_of(error: &Token) -> (r: Verdict)
    ensures
        !(r is Allowed),
{
    match error {
        Token::FailedLogic(Logic::Deny(p)) => Verdict::Denied(*p),
        Token::FailedLogic(Logic::NoMatchingPolicy) => Verdict::NoMatchingPolicy,
        Token::FailedLogic(Logic::FailedChecks(v)) => Verdict::FailedChecks(v.iter().map(|c| match c {
            FailedCheck::Block(b) => CheckRef::Block { block: b.block_id, check: b.check_id },
            FailedCheck::Verifier(f) => CheckRef::Verifier { check: f.check_id },
        }).collect()),
        _ => Verdict::Aborted,
    }
}

/// Relies on the `Debug` impl of biscuit_auth::error::Token.
#[verifier::external_body]
fn describe(error: &Token) -> String {
    format!("{:?}", error)
}

/// Relies on Verifier::print_world.
#[verifier::external_body]
fn print_world(verifier: &Verifier) -> String {
    verifier.print_world()
}

/// Relies on Verifier::query, read as facts, each printed by its `Display`
/// impl.
#[verifier::external_body]
fn run_query(verifier: &mut Verifier, query: &str) -> Result<Vec<String>, Token> {
    let facts: Vec<Fact> = verifier.query(query)?;
    Ok(facts.iter().map(|f| f.to_string()).collect())
}

/// The running time that evaluation may take, in milliseconds.
pub const EVALUATION_MILLIS: u64 = 2000;

/// The seed of the random number generator that makes the keys of a pass,
/// so that the same buffers always give the same token.
pub const KEY_SEED: u64 = 0;

/// Why the token of a pass could not be assembled.
#[derive(Clone, Copy, Debug, PartialEq, Eq, Structural)]
pub enum TokenFailure {
    /// The authority block could not be signed.
    Build,
    /// The block of the token buffer with this index could not be appended.
    Append(usize),
}

/// The token buffers of a pass, compiled.
pub struct TokenStage {
    pub token: Option<Biscuit>,
    pub blocks: Vec<Ledger>,
    pub failure: Option<TokenFailure>,
}

/// `l` is the ledger of the buffer with text `text`, which the parser read.
pub open spec fn buffer_indexed(l: Ledger, text: Seq<char>, with_policies: bool) -> bool {
    indexed(l, encode_utf8(text), source_layout(text), with_policies) && layout_consistent(
        source_layout(text),
    )
}

/// A ledger with no record.
pub open spec fn empty_ledger(l: Ledger) -> bool {
    &&& l.check_records() == Seq::<StatementRecord>::empty()
    &&& l.policy_records() == Seq::<StatementRecord>::empty()
    &&& l.error_records() == Seq::<ParseDiagnostic>::empty()
}

/// `l` holds the ledgers of a pass over `buffers` and `verifier_text`
/// before evaluation: one for each token buffer, in order, and the verifier
/// buffer's.
pub open spec fn compiled(l: Ledgers, buffers: Seq<String>, verifier_text: Option<String>) -> bool {
    &&& l.blocks@.len() == buffers.len()
    &&& forall|b: int|
        0 <= b < l.blocks@.len() ==> buffer_indexed(#[trigger] l.blocks@[b], buffers[b]@, false)
    &&& match verifier_text {
        Some(t) => buffer_indexed(l.verifier, t@, true),
        None => empty_ledger(l.verifier),
    }
}

/// A token buffer that does not parse spoils no other: in the compiled
/// ledgers of a pass its ledger holds no check and one record for each of
/// its parse errors, while every buffer that parses holds its checks in
/// source order at their spans, and no error.
pub proof fn lemma_bad_buffer_is_isolated(
    l: Ledgers,
    buffers: Seq<String>,
    verifier_text: Option<String>,
    bad: int,
    good: int,
)
    requires
        compiled(l, buffers, verifier_text),
        0 <= bad < buffers.len(),
        0 <= good < buffers.len(),
        !source_layout(buffers[bad]@).parsed,
        source_layout(buffers[good]@).parsed,
    ensures
        l.blocks@[bad].check_records().len() == 0,
        l.blocks@[bad].error_records().len() == source_layout(buffers[bad]@).errors.len(),
        l.blocks@[good].check_records() == fresh_records(
            encode_utf8(buffers[good]@),
            source_layout(buffers[good]@).checks,
        ),
        l.blocks@[good].error_records().len() == 0,
{
    assert(buffer_indexed(l.blocks@[bad], buffers[bad]@, false));
    assert(buffer_indexed(l.blocks@[good], buffers[good]@, false));
}

/// Two passes over the same buffers compile to ledgers with the same
/// records: the same spans in the same order, with the same outcomes, and
/// the same parse errors, for every buffer.
pub proof fn lemma_compile_deterministic(
    a: Ledgers,
    b: Ledgers,
    buffers: Seq<String>,
    verifier_text: Option<String>,
)
    requires
        compiled(a, buffers, verifier_text),
        compiled(b, buffers, verifier_text),
    ensures
        a.blocks@.len() == b.blocks@.len(),
        forall|i: int| 0 <= i < a.blocks@.len() ==> same_records(#[trigger] a.blocks@[i], b.blocks@[i]),
        same_records(a.verifier, b.verifier),
{
    assert forall|i: int| 0 <= i < a.blocks@.len() implies same_records(
        #[trigger] a.blocks@[i],
        b.blocks@[i],
    ) by {
        assert(buffer_indexed(a.blocks@[i], buffers[i]@, false));
        assert(buffer_indexed(b.blocks@[i], buffers[i]@, false));
    }
}

/// `a` and `b` hold the same check and policy records, and parse errors with
/// the same spans and messages.
pub open spec fn same_records(a: Ledger, b: Ledger) -> bool {
    &&& a.check_records() == b.check_records()
    &&& a.policy_records() == b.policy_records()
    &&& a.error_records().len() == b.error_records().len()
    &&& forall|i: int|
        0 <= i < a.error_records().len() ==> (#[trigger] a.error_records()[i]).span
            == b.error_records()[i].span && a.error_records()[i].message@
            == b.error_records()[i].message@
}

/// Reads `text` as the ledger of a buffer and parses it.
fn parse_buffer<'a>(text: &'a String, with_policies: bool) -> (r: (Ledger, Result<ParsedSource<'a>, Vec<SyntaxError>>))
    ensures
        buffer_indexed(r.0, text@, with_policies),
        r.1 is Ok <==> source_layout(text@).parsed,
{
    let t = text.as_str();
    let parsed = parse_source(t);
    let ledger = index_source(t, &parsed, with_policies);
    (ledger, parsed)
}

/// Submits the statements of the authority buffer to the token builder.
fn submit_authority(builder: &mut BiscuitBuilder, source: ParsedSource<'_>) {
    let ParsedSource { mut facts, mut rules, mut checks, policies: _ } = source;
    while facts.len() > 0
        decreases facts@.len(),
    {
        let (_, fact) = facts.remove(0);
        let _ = add_authority_fact(builder, fact);
    }
    while rules.len() > 0
        decreases rules@.len(),
    {
        let (_, rule) = rules.remove(0);
        let _ = add_authority_rule(builder, rule);
    }
    while checks.len() > 0
        decreases checks@.len(),
    {
        let (_, check) = checks.remove(0);
        let _ = add_authority_check(builder, check);
    }
}

/// Submits the statements of an attenuation buffer to its block builder.
fn submit_block(builder: &mut BlockBuilder, source: ParsedSource<'_>) {
    let ParsedSource { mut facts, mut rules, mut checks, policies: _ } = source;
    while facts.len() > 0
        decreases facts@.len(),
    {
        let (_, fact) = facts.remove(0);
        let _ = add_block_fact(builder, fact);
    }
    while rules.len() > 0
        decreases rules@.len(),
    {
        let (_, rule) = rules.remove(0);
        let _ = add_block_rule(builder, rule);
    }
    while checks.len() > 0
        decreases checks@.len(),
    {
        let (_, check) = checks.remove(0);
        let _ = add_block_check(builder, check);
    }
}

/// Submits the statements of the verifier buffer to the verifier.
fn submit_verifier(verifier: &mut Verifier, source: ParsedSource<'_>) {
    let ParsedSource { mut facts, mut rules, mut checks, mut policies } = source;
    while facts.len() > 0
        decreases facts@.len(),
    {
        let (_, fact) = facts.remove(0);
        let _ = add_verifier_fact(verifier, fact);
    }
    while rules.len() > 0
        decreases rules@.len(),
    {
        let (_, rule) = rules.remove(0);
        let _ = add_verifier_rule(verifier, rule);
    }
    while checks.len() > 0
        decreases checks@.len(),
    {
        let (_, check) = checks.remove(0);
        let _ = add_verifier_check(verifier, check);
    }
    while policies.len() > 0
        decreases policies@.len(),
    {
        let (_, policy) = policies.remove(0);
        let _ = add_verifier_policy(verifier, policy);
    }
}

/// Compiles the token buffers in order: the first is the authority block,
/// each next one an attenuation block appended to the token. A buffer that
/// does not parse still gets its ledger (with its errors) and its block
/// (with nothing in it), so that block indices match buffer indices. Once
/// the token cannot be signed or a block cannot be appended there is no
/// token any more, but every later buffer is still parsed and indexed.
pub fn compile_token(root: &KeyPair, rng: &mut StdRng, buffers: &Vec<String>) -> (r: TokenStage)
    ensures
        r.blocks@.len() == buffers@.len(),
        forall|b: int|
            0 <= b < r.blocks@.len() ==> buffer_indexed(#[trigger] r.blocks@[b], buffers@[b]@, false),
        r.failure is None ==> (r.token is Some <==> buffers@.len() > 0),
        r.failure is Some ==> r.token is None && buffers@.len() > 0,
        r.failure matches Some(TokenFailure::Append(i)) ==> 1 <= i < buffers@.len(),
{
    let n = buffers.len();
    let mut blocks: Vec<Ledger> = Vec::new();
    if n == 0 {
        return TokenStage { token: None, blocks, failure: None };
    }
    let mut builder = token_builder(root);
    let (ledger, parsed) = parse_buffer(&buffers[0], false);
    blocks.push(ledger);
    match parsed {
        Ok(source) => submit_authority(&mut builder, source),
        Err(_) => {},
    }
    let (mut token, mut failure) = match build_token(builder, rng) {
        Ok(t) => (Some(t), None),
        Err(_) => (None, Some(TokenFailure::Build)),
    };
    let mut i: usize = 1;
    while i < n
        invariant
            1 <= i <= n,
            n == buffers@.len(),
            blocks@.len() == i,
            forall|b: int|
                0 <= b < i ==> buffer_indexed(#[trigger] blocks@[b], buffers@[b]@, false),
            failure is None <==> token is Some,
            failure matches Some(TokenFailure::Append(j)) ==> 1 <= j < n,
        decreases n - i,
    {
        let current = token;
        token = None;
        match current {
            Some(t) => {
                let keypair = new_keypair(rng);
                let mut block = create_block(&t);
                let (ledger, parsed) = parse_buffer(&buffers[i], false);
                blocks.push(ledger);
                match parsed {
                    Ok(source) => submit_block(&mut block, source),
                    Err(_) => {},
                }
                match append_block(&t, rng, &keypair, block) {
                    Ok(next) => {
                        token = Some(next);
                    },
                    Err(_) => {
                        failure = Some(TokenFailure::Append(i));
                    },
                }
            },
            None => {
                let (ledger, _) = parse_buffer(&buffers[i], false);
                blocks.push(ledger);
            },
        }
        i = i + 1;
    }
    TokenStage { token, blocks, failure }
}

/// `items` joined with `sep` between each two of them.
pub open spec fn joined(items: Seq<Seq<char>>, sep: Seq<char>) -> Seq<char>
    decreases items.len(),
{
    if items.len() == 0 {
        Seq::empty()
    } else if items.len() == 1 {
        items[0]
    } else {
        joined(items.drop_last(), sep) + sep + items.last()
    }
}

pub open spec fn views(items: Seq<String>) -> Seq<Seq<char>> {
    items.map_values(|s: String| s@)
}

/// Joins `items` with `sep` between each two of them.
pub fn join_lines(items: &Vec<String>, sep: &str) -> (r: String)
    ensures
        r@ == joined(views(items@), sep@),
{
    let n = items.len();
    if n == 0 {
        return String::new();
    }
    let mut r = items[0].clone();
    let ghost all = views(items@);
    proof {
        assert(all.take(1) =~= seq![items@[0]@]);
    }
    let mut i: usize = 1;
    while i < n
        invariant
            1 <= i <= n,
            n == items@.len(),
            all == views(items@),
            r@ == joined(all.take(i as int), sep@),
        decreases n - i,
    {
        r.append(sep);
        r.append(items[i].as_str());
        proof {
            let next = all.take(i + 1);
            assert(next.drop_last() =~= all.take(i as int));
            assert(next.last() == items@[i as int]@);
        }
        i = i + 1;
    }
    proof {
        assert(all.take(n as int) =~= all);
    }
    r
}

/// What a pass reports.
pub struct PassOutput {
    /// The ledgers of every buffer, settled by the verdict if there is one.
    pub ledgers: Ledgers,
    /// The token, printed, if it could be assembled.
    pub token_text: Option<String>,
    /// Why the token could not be assembled, if it could not.
    pub failure: Option<TokenFailure>,
    /// What the evaluator reported, if evaluation ran.
    pub verdict: Option<Verdict>,
    /// The evaluation result as text: `Success`, or `Error: ` and the error.
    pub report: String,
    /// The verifier's facts and rules after evaluation, printed.
    pub world: String,
    /// The facts that the query found, one per line, or its error.
    pub query_result: Option<String>,
}

/// `out` is what a pass whose ledgers compiled to `fresh` reports: the
/// ledgers as compiled where nothing was evaluated, else the verdict applied
/// to them.
pub open spec fn settled_from(fresh: Ledgers, out: PassOutput) -> bool {
    match out.verdict {
        Some(v) => consistent(&fresh, &v) && applied(&fresh, &out.ledgers, &v),
        None => out.ledgers == fresh,
    }
}

/// `s` reports an error: it starts with `Error: `.
pub open spec fn is_error_report(s: Seq<char>) -> bool {
    s.len() >= "Error: "@.len() && s.subrange(0, "Error: "@.len() as int) == "Error: "@
}

/// The messages of the parse errors of `l`, in order.
pub open spec fn messages_of(l: Ledger) -> Seq<Seq<char>> {
    l.error_records().map_values(|e: ParseDiagnostic| e.message@)
}

/// `Error: ` followed by the error, as the page shows it.
fn error_text(e: &Token) -> (r: String)
    ensures
        is_error_report(r@),
{
    let prefix = String::from_str("Error: ");
    let r = prefix.concat(describe(e).as_str());
    assert(r@.subrange(0, "Error: "@.len() as int) =~= "Error: "@);
    r
}

/// The messages of the parse errors of `l`, in order.
fn error_messages(l: &Ledger) -> (r: Vec<String>)
    ensures
        views(r@) == messages_of(*l),
{
    let n = l.error_count();
    let mut r: Vec<String> = Vec::new();
    let mut i: usize = 0;
    while i < n
        invariant
            i <= n,
            n == l.error_records().len(),
            views(r@) =~= messages_of(*l).take(i as int),
        decreases n - i,
    {
        let d = l.error(i);
        let m = d.message.clone();
        assert(m@ == messages_of(*l)[i as int]);
        let ghost before = r@;
        r.push(m);
        assert(r@ == before.push(m));
        assert(views(r@) =~= views(before).push(m@));
        assert(messages_of(*l).take(i + 1) =~= messages_of(*l).take(i as int).push(m@));
        i = i + 1;
    }
    assert(messages_of(*l).take(n as int) =~= messages_of(*l));
    r
}

/// Runs one compilation pass over the token buffers `buffers` (authority
/// first), the verifier buffer `verifier_text` and the query `query`.
///
/// Every buffer is parsed and indexed; the token is assembled from the
/// token buffers; where the verifier buffer parses and the token could be
/// assembled, the verifier is run on the token and its verdict applied to
/// the ledgers, and then the query, if not empty, is run. An index in the
/// verdict that names no record is returned as an error.
pub fn run_pass(buffers: &Vec<String>, verifier_text: &Option<String>, query: &str) -> (r: Result<
    PassOutput,
    Desync,
>)
    ensures
        verifier_text is None ==> r is Ok,
        (verifier_text matches Some(t) && !source_layout(t@).parsed) ==> r is Ok,
        r is Err ==> (verifier_text matches Some(t) && source_layout(t@).parsed),
        match r {
            Ok(out) => {
                &&& exists|fresh: Ledgers|
                    #[trigger] compiled(fresh, buffers@, *verifier_text) && settled_from(fresh, out)
                &&& out.verdict is Some ==> (verifier_text matches Some(t) && source_layout(
                    t@,
                ).parsed) && out.failure is None
                &&& ((verifier_text matches Some(t) && source_layout(t@).parsed) && buffers@.len()
                    == 0) ==> out.verdict is Some
                &&& out.failure is None ==> (out.token_text is Some <==> buffers@.len() > 0)
                &&& out.query_result is Some <==> (out.verdict is Some && query@.len() > 0)
                &&& verifier_text is None ==> out.report@ == Seq::<char>::empty() && out.world@
                    == Seq::<char>::empty()
                &&& (verifier_text matches Some(t) && !source_layout(t@).parsed) ==> out.report@
                    == "Error: ParseError"@ && out.world@ == "errors: "@ + joined(
                    messages_of(out.ledgers.verifier),
                    ",\n"@,
                )
                &&& out.verdict matches Some(Verdict::Allowed(_)) ==> out.report@ == "Success"@
                &&& (out.verdict is Some && !(out.verdict matches Some(Verdict::Allowed(_))))
                    ==> is_error_report(out.report@)
            },
            Err(d) => exists|fresh: Ledgers, v: Verdict|
                #[trigger] compiled(fresh, buffers@, *verifier_text) && #[trigger] explains(&fresh, &v, d),
        },
{
    let mut rng = seeded_rng(KEY_SEED);
    let root = new_keypair(&mut rng);
    let stage = compile_token(&root, &mut rng, buffers);
    let TokenStage { token, blocks, failure } = stage;
    let token_text = match &token {
        Some(t) => Some(print_token(t)),
        None => None,
    };
    let text = match verifier_text {
        Some(text) => text,
        None => {
            let ledgers = Ledgers { blocks, verifier: Ledger::new() };
            assert(compiled(ledgers, buffers@, *verifier_text));
            return Ok(
                PassOutput {
                    ledgers,
                    token_text,
                    failure,
                    verdict: None,
                    report: String::new(),
                    world: String::new(),
                    query_result: None,
                },
            );
        },
    };
    let (verifier_ledger, parsed) = parse_buffer(text, true);
    let mut ledgers = Ledgers { blocks, verifier: verifier_ledger };
    let ghost fresh = ledgers;
    assert(compiled(fresh, buffers@, *verifier_text));
    let source = match parsed {
        Ok(source) => source,
        Err(_) => {
            let report = String::from_str("Error: ParseError");
            let messages = error_messages(&ledgers.verifier);
            let world = String::from_str("errors: ").concat(join_lines(&messages, ",\n").as_str());
            return Ok(
                PassOutput {
                    ledgers,
                    token_text,
                    failure,
                    verdict: None,
                    report,
                    world,
                    query_result: None,
                },
            );
        },
    };
    if failure.is_some() {
        return Ok(
            PassOutput {
                ledgers,
                token_text,
                failure,
                verdict: None,
                report: String::new(),
                world: String::new(),
                query_result: None,
            },
        );
    }
    let created = match &token {
        Some(t) => token_verifier(t, &root),
        None => Ok(empty_verifier().unwrap()),
    };
    let mut verifier = match created {
        Ok(v) => v,
        Err(e) => {
            return Ok(
                PassOutput {
                    ledgers,
                    token_text,
                    failure,
                    verdict: None,
                    report: error_text(&e),
                    world: String::new(),
                    query_result: None,
                },
            );
        },
    };
    submit_verifier(&mut verifier, source);
    let (verdict, report) = match evaluate(&mut verifier, EVALUATION_MILLIS) {
        Ok(p) => (Verdict::Allowed(p), String::from_str("Success")),
        Err(e) => (verdict_of(&e), error_text(&e)),
    };
    let world = print_world(&verifier);
    match apply_verdict(&mut ledgers, &verdict) {
        Ok(()) => {},
        Err(d) => {
            return Err(d);
        },
    }
    let query_result = if query.is_empty() {
        None
    } else {
        match run_query(&mut verifier, query) {
            Ok(facts) => Some(join_lines(&facts, ",\n")),
            Err(e) => Some(error_text(&e)),
        }
    };
    Ok(
        PassOutput {
            ledgers,
            token_text,
            failure,
            verdict: Some(verdict),
            report,
            world,
            query_result,
        },
    )
}

} // verus!
