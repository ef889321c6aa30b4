//! Laws of the combinator library, proved once of every parser description
//! and every input.
//!
//! Purity needs no lemma of its own: `parse` ensures its result equals
//! [`spec_parse`] of the parser's description, the token values and the
//! cursor, so two invocations on one input are structurally equal, and a
//! failed alternative leaves no trace but the failure value.

use vstd::prelude::*;

use crate::ast::ParserErrV;
use crate::parser::d_chain;
use crate::parser::d_delimited;
use crate::parser::d_eoi;
use crate::parser::d_or;
use crate::parser::d_repeated;
use crate::parser::d_repeated_sep;
use crate::parser::err_merge;
use crate::parser::lemma_parse_in_bounds;
use crate::parser::max_idx;
use crate::parser::spec_parse;
use crate::parser::spec_repeat;
use crate::parser::DescV;
use crate::token::Span;
use crate::token::TokenV;
use crate::value::ValV;

verus! {

/// Range monotonicity: where `a` succeeds and `b` succeeds on the remainder,
/// their chain succeeds, its value is the pair, its cursor is `b`'s, and its
/// range runs from the start of `a`'s range to the end of `b`'s.
pub proof fn lemma_chain_range(
    a: DescV,
    b: DescV,
    toks: Seq<TokenV>,
    pos: int,
    p1: int,
    v1: ValV,
    r1: Span,
    p2: int,
    v2: ValV,
    r2: Span,
)
    requires
        0 <= pos <= toks.len(),
        spec_parse(a, toks, pos) == Ok::<(int, ValV, Span), ParserErrV>((p1, v1, r1)),
        spec_parse(b, toks, p1) == Ok::<(int, ValV, Span), ParserErrV>((p2, v2, r2)),
    ensures
        spec_parse(d_chain(a, b), toks, pos) == Ok::<(int, ValV, Span), ParserErrV>(
            (p2, ValV::Pair(Box::new(v1), Box::new(v2)), Span { start: r1.start, end: r2.end }),
        ),
{
    lemma_parse_in_bounds(a, toks, pos);
}

/// The furthest-failure law: where both alternatives fail, the choice fails
/// with the failure that reached further; on an exact tie the expectations
/// are concatenated, first alternative first.  A resolved failure never
/// stands before either of the two it came from.
pub proof fn lemma_or_furthest(
    a: DescV,
    b: DescV,
    toks: Seq<TokenV>,
    pos: int,
    ea: ParserErrV,
    eb: ParserErrV,
)
    requires
        0 <= pos <= toks.len(),
        spec_parse(a, toks, pos) == Err::<(int, ValV, Span), ParserErrV>(ea),
        spec_parse(b, toks, pos) == Err::<(int, ValV, Span), ParserErrV>(eb),
    ensures
        spec_parse(d_or(a, b), toks, pos) == Err::<(int, ValV, Span), ParserErrV>(
            err_merge(ea, eb),
        ),
        err_merge(ea, eb).end_idx == max_idx(ea.end_idx, eb.end_idx),
        ea.end_idx == eb.end_idx ==> err_merge(ea, eb).expected == ea.expected + ", "@
            + eb.expected,
{
}

/// Backtracking does not leak: where the first alternative fails and the
/// second succeeds, the choice returns exactly the second's result, so the
/// cursor, value and range reflect only the second's consumption.
pub proof fn lemma_or_backtracks(
    a: DescV,
    b: DescV,
    toks: Seq<TokenV>,
    pos: int,
    ea: ParserErrV,
    rb: (int, ValV, Span),
)
    requires
        0 <= pos <= toks.len(),
        spec_parse(a, toks, pos) == Err::<(int, ValV, Span), ParserErrV>(ea),
        spec_parse(b, toks, pos) == Ok::<(int, ValV, Span), ParserErrV>(rb),
    ensures
        spec_parse(d_or(a, b), toks, pos) == Ok::<(int, ValV, Span), ParserErrV>(rb),
{
}

/// The delimited round trip: over `open ++ X ++ close ++ rest`, the delimited
/// parser succeeds with the inner result over `X`, the cursor stands at the
/// start of `rest`, and the range spans from the opening to the closing
/// delimiter.
pub proof fn lemma_delimited_roundtrip(
    open: DescV,
    inner: DescV,
    close: DescV,
    toks: Seq<TokenV>,
    pos: int,
    p1: int,
    vo: ValV,
    ro: Span,
    p2: int,
    v: ValV,
    ri: Span,
    p3: int,
    vc: ValV,
    rc: Span,
)
    requires
        0 <= pos <= toks.len(),
        spec_parse(open, toks, pos) == Ok::<(int, ValV, Span), ParserErrV>((p1, vo, ro)),
        spec_parse(inner, toks, p1) == Ok::<(int, ValV, Span), ParserErrV>((p2, v, ri)),
        spec_parse(close, toks, p2) == Ok::<(int, ValV, Span), ParserErrV>((p3, vc, rc)),
    ensures
        spec_parse(d_delimited(open, inner, close), toks, pos) == Ok::<
            (int, ValV, Span),
            ParserErrV,
        >((p3, v, Span { start: ro.start, end: rc.end })),
{
    lemma_parse_in_bounds(open, toks, pos);
    lemma_parse_in_bounds(inner, toks, p1);
}

/// Exhaustion: a required non-empty repetition that matches zero times fails
/// with exactly the first element's failure, whether or not a separator was
/// asked for.
pub proof fn lemma_repeated_exhaustion(
    p: DescV,
    sep: DescV,
    toks: Seq<TokenV>,
    pos: int,
    e: ParserErrV,
)
    requires
        0 <= pos <= toks.len(),
        spec_parse(p, toks, pos) == Err::<(int, ValV, Span), ParserErrV>(e),
    ensures
        spec_parse(d_repeated(p), toks, pos) == Err::<(int, ValV, Span), ParserErrV>(e),
        spec_parse(d_repeated_sep(p, sep), toks, pos) == Err::<(int, ValV, Span), ParserErrV>(e),
{
    reveal_with_fuel(crate::parser::spec_repeat, 2);
    assert(spec_repeat(p, None, toks, pos) == Err::<(int, Seq<ValV>, Span), ParserErrV>(e));
    assert(spec_repeat(p, Some(Box::new(sep)), toks, pos) == Err::<
        (int, Seq<ValV>, Span),
        ParserErrV,
    >(e));
    assert(d_repeated(p) == DescV::Repeat(Box::new(p), None));
    assert(d_repeated_sep(p, sep) == DescV::Repeat(Box::new(p), Some(Box::new(sep))));
}

/// Trailing input: where the inner parser consumes the whole input, the
/// end-of-input assertion passes its result through unchanged; where input is
/// left over, it fails at the end of the consumed range, names `EOF`, and
/// reports the first leftover token.
pub proof fn lemma_eoi(
    p: DescV,
    toks: Seq<TokenV>,
    pos: int,
    p1: int,
    v: ValV,
    r: Span,
)
    requires
        0 <= pos <= toks.len(),
        spec_parse(p, toks, pos) == Ok::<(int, ValV, Span), ParserErrV>((p1, v, r)),
    ensures
        p1 == toks.len() ==> spec_parse(d_eoi(p), toks, pos) == Ok::<
            (int, ValV, Span),
            ParserErrV,
        >((p1, v, r)),
        p1 < toks.len() ==> spec_parse(d_eoi(p), toks, pos) == Err::<
            (int, ValV, Span),
            ParserErrV,
        >(
            ParserErrV {
                end_idx: r.end as int,
                expected: "EOF"@,
                next: Some((toks[p1].kind, toks[p1].text)),
            },
        ),
{
    lemma_parse_in_bounds(p, toks, pos);
}

} // verus!
