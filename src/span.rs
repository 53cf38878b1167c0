//! Conversion of byte ranges inside a buffer into line/column ranges.
//!
//! Lines and columns are 0-based and counted in bytes. A span is half-open:
//! `(line_start, column_start)` is the position of the first byte of the
//! token and `(line_end, column_end)` the position just after its last byte.
use vstd::prelude::*;
use vstd::string::StringSliceAdditionalSpecFns;

verus! {

/// A line/column range inside one buffer.
#[derive(Clone, Copy, Debug, PartialEq, Eq, Structural)]
pub struct SourceSpan {
    pub line_start: usize,
    pub column_start: usize,
    pub line_end: usize,
    pub column_end: usize,
}

/// A contiguous byte range of a buffer, as the parser reports a statement
/// or an error.
#[derive(Clone, Copy, Debug, PartialEq, Eq, Structural)]
pub struct TokenRange {
    pub start: usize,
    pub len: usize,
}

impl TokenRange {
    pub open spec fn end(self) -> int {
        self.start + self.len
    }

    /// The range lies inside a buffer of `n` bytes.
    pub open spec fn fits(self, n: int) -> bool {
        self.start + self.len <= n
    }
}

pub open spec fn is_newline(b: u8) -> bool {
    b == 10u8
}

/// Number of `\n` bytes among the first `p` bytes of `s`.
pub open spec fn newlines_before(s: Seq<u8>, p: int) -> nat
    decreases p,
{
    if p <= 0 {
        0
    } else {
        newlines_before(s, p - 1) + if is_newline(s[p - 1]) {
            1nat
        } else {
            0nat
        }
    }
}

/// Offset of the first byte of the line that holds offset `p`: just after
/// the last `\n` before `p`, or 0 when there is none.
pub open spec fn line_begin(s: Seq<u8>, p: int) -> int
    decreases p,
{
    if p <= 0 {
        0
    } else if is_newline(s[p - 1]) {
        p
    } else {
        line_begin(s, p - 1)
    }
}

/// The column of offset `p`: its distance from the beginning of its line.
pub open spec fn column_of(s: Seq<u8>, p: int) -> int {
    p - line_begin(s, p)
}

/// The span of the bytes `start..end` of `s`.
pub open spec fn span_of(s: Seq<u8>, start: int, end: int) -> SourceSpan {
    SourceSpan {
        line_start: newlines_before(s, start) as usize,
        column_start: column_of(s, start) as usize,
        line_end: newlines_before(s, end) as usize,
        column_end: column_of(s, end) as usize,
    }
}

/// The span of a token inside the buffer whose bytes are `s`.
pub open spec fn token_span(s: Seq<u8>, t: TokenRange) -> SourceSpan {
    span_of(s, t.start as int, t.end())
}

/// Offset `p` sits at line `line`, column `column`.
pub open spec fn at_position(s: Seq<u8>, p: int, line: int, column: int) -> bool {
    newlines_before(s, p) == line && column_of(s, p) == column
}

/// A span's start does not come after its end.
pub open spec fn ordered(sp: SourceSpan) -> bool {
    sp.line_start < sp.line_end || (sp.line_start == sp.line_end && sp.column_start
        <= sp.column_end)
}

pub proof fn lemma_line_begin_bounds(s: Seq<u8>, p: int)
    requires
        0 <= p,
    ensures
        0 <= line_begin(s, p) <= p,
        newlines_before(s, p) <= p,
    decreases p,
{
    if p > 0 {
        lemma_line_begin_bounds(s, p - 1);
    }
}

/// Between two offsets the newline count only grows, and while it stays the
/// same both offsets share the beginning of their line.
pub proof fn lemma_same_line(s: Seq<u8>, p: int, q: int)
    requires
        0 <= p <= q,
    ensures
        newlines_before(s, p) <= newlines_before(s, q),
        newlines_before(s, p) == newlines_before(s, q) ==> line_begin(s, p) == line_begin(
            s,
            q,
        ),
        newlines_before(s, p) == newlines_before(s, q) ==> column_of(s, p) + (q - p)
            == column_of(s, q),
    decreases q - p,
{
    if p < q {
        lemma_same_line(s, p, q - 1);
    }
}

/// Two different offsets never share a line and a column.
pub proof fn lemma_position_unique(s: Seq<u8>, p: int, q: int)
    requires
        0 <= p,
        0 <= q,
        p != q,
    ensures
        newlines_before(s, p) != newlines_before(s, q) || column_of(s, p) != column_of(s, q),
{
    if p < q {
        lemma_same_line(s, p, q);
    } else {
        lemma_same_line(s, q, p);
    }
}

/// A resolved span locates its token exactly: the offsets at its start and
/// end position are the token's first offset and the offset just after it,
/// and no others, so slicing the buffer between them gives the token back.
/// This holds for tokens on one line and for tokens spread over several.
pub proof fn lemma_span_locates_token(s: Seq<u8>, start: int, end: int)
    requires
        0 <= start <= end <= s.len(),
        s.len() <= usize::MAX,
    ensures
        ({
            let sp = span_of(s, start, end);
            &&& forall|p: int|
                0 <= p <= s.len() ==> (at_position(s, p, sp.line_start as int, sp.column_start as int)
                    <==> p == start)
            &&& forall|p: int|
                0 <= p <= s.len() ==> (at_position(s, p, sp.line_end as int, sp.column_end as int)
                    <==> p == end)
            &&& ordered(sp)
        }),
{
    lemma_line_begin_bounds(s, start);
    lemma_line_begin_bounds(s, end);
    lemma_same_line(s, start, end);
    assert forall|p: int| 0 <= p <= s.len() && p != start implies !at_position(
        s,
        p,
        newlines_before(s, start) as int,
        column_of(s, start),
    ) by {
        lemma_position_unique(s, p, start);
    }
    assert forall|p: int| 0 <= p <= s.len() && p != end implies !at_position(
        s,
        p,
        newlines_before(s, end) as int,
        column_of(s, end),
    ) by {
        lemma_position_unique(s, p, end);
    }
}

/// Every token that starts at offset 0 starts at line 0, column 0.
pub proof fn lemma_span_at_buffer_start(s: Seq<u8>, end: int)
    requires
        0 <= end <= s.len(),
    ensures
        span_of(s, 0, end).line_start == 0,
        span_of(s, 0, end).column_start == 0,
{
}

/// Line and column of byte offset `offset`.
fn position_of(bytes: &[u8], offset: usize) -> (r: (usize, usize))
    requires
        offset <= bytes@.len(),
    ensures
        r.0 == newlines_before(bytes@, offset as int),
        r.1 == column_of(bytes@, offset as int),
{
    let mut i: usize = 0;
    let mut line: usize = 0;
    let mut begin: usize = 0;
    while i < offset
        invariant
            i <= offset <= bytes@.len(),
            line == newlines_before(bytes@, i as int),
            begin == line_begin(bytes@, i as int),
            line <= i,
            begin <= i,
        decreases offset - i,
    {
        if bytes[i] == 10u8 {
            line = line + 1;
            begin = i + 1;
        }
        i = i + 1;
    }
    (line, offset - begin)
}

/// Resolves the bytes `start..start + len` of `text` to a span.
pub fn resolve_span(text: &str, start: usize, len: usize) -> (r: SourceSpan)
    requires
        start + len <= text.spec_bytes().len(),
    ensures
        r == span_of(text.spec_bytes(), start as int, start + len),
        ordered(r),
{
    let bytes = text.as_bytes();
    let n = bytes.len();
    let end: usize = start + len;
    let (line_start, column_start) = position_of(bytes, start);
    let (line_end, column_end) = position_of(bytes, end);
    proof {
        lemma_span_locates_token(bytes@, start as int, end as int);
    }
    SourceSpan { line_start, column_start, line_end, column_end }
}

/// Resolves a token of `text` to a span.
pub fn resolve_token(text: &str, token: TokenRange) -> (r: SourceSpan)
    requires
        token.fits(text.spec_bytes().len() as int),
    ensures
        r == token_span(text.spec_bytes(), token),
{
    resolve_span(text, token.start, token.len)
}

/// The byte offset of `text` at line `line`, column `column`, if there is one.
/// With the span of a token this gives back the token's first offset and the
/// offset just after it.
pub fn offset_at(text: &str, line: usize, column: usize) -> (r: Option<usize>)
    ensures
        match r {
            Some(p) => p <= text.spec_bytes().len() && at_position(
                text.spec_bytes(),
                p as int,
                line as int,
                column as int,
            ),
            None => forall|p: int|
                0 <= p <= text.spec_bytes().len() ==> !at_position(
                    text.spec_bytes(),
                    p,
                    line as int,
                    column as int,
                ),
        },
{
    let bytes = text.as_bytes();
    let n = bytes.len();
    let mut i: usize = 0;
    let mut current: usize = 0;
    let mut begin: usize = 0;
    loop
        invariant
            i <= n,
            n == bytes@.len(),
            bytes@ == text.spec_bytes(),
            current == newlines_before(bytes@, i as int),
            begin == line_begin(bytes@, i as int),
            current <= i,
            begin <= i,
            forall|p: int| 0 <= p < i ==> !at_position(bytes@, p, line as int, column as int),
        decreases n - i,
    {
        if current == line && i - begin == column {
            return Some(i);
        }
        if i == n {
            return None;
        }
        if bytes[i] == 10u8 {
            current = current + 1;
            begin = i + 1;
        }
        i = i + 1;
    }
}

} // verus!
