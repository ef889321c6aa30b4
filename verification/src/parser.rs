//! The parser core and the combinator library.
//!
//! A parser is described by a [`ParserDesc`] tree; [`BoxedParser`] wraps one
//! and offers the combinators that grow it.  The whole meaning of a parser is
//! the mathematical function [`spec_parse`]: from a description, a token
//! sequence and a cursor to either (advanced cursor, value, consumed span) or
//! a failure descriptor.  The one executable interpreter is verified to
//! return exactly that, so parsing is pure by construction: identical inputs
//! always yield identical results, and a failed attempt has no effect beyond
//! the error value it returns.

use vstd::prelude::*;
use vstd::string::StringExecFns;

use crate::ast::ParserErr;
use crate::ast::ParserErrV;
use crate::token::toks_view;
use crate::token::Span;
use crate::token::Tok;
use crate::token::Token;
use crate::token::TokenV;
use crate::value::check_apply;
use crate::value::map_apply;
use crate::value::vals_view;
use crate::value::CheckFn;
use crate::value::MapFn;
use crate::value::Val;
use crate::value::ValV;

verus! {

/// The description of a parser: one constructor per combinator.
#[derive(Debug)]
pub enum ParserDesc {
    /// Match one token of the given kind; the value is its text.
    Tok(Tok),
    /// Match one identifier token whose text equals the keyword.
    Reserved(String),
    /// Run the inner parser, then transform its value.
    MapTo(Box<ParserDesc>, MapFn),
    /// Run the first parser, then the second on the remainder; the value is
    /// the pair, the span the union.
    Chain(Box<ParserDesc>, Box<ParserDesc>),
    /// Run the inner parser, then accept its value only if the check holds.
    Check(Box<ParserDesc>, CheckFn),
    /// Try the first parser; on failure rewind and try the second.
    Or(Box<ParserDesc>, Box<ParserDesc>),
    /// Apply the inner parser one or more times, with an optional separator
    /// required between elements and optional after the last.
    Repeat(Box<ParserDesc>, Option<Box<ParserDesc>>),
    /// Open delimiter, inner parser, close delimiter; the value is the
    /// inner one, the span runs from the opening to the closing token.
    Delim(Box<ParserDesc>, Box<ParserDesc>, Box<ParserDesc>),
    /// Run the inner parser, then succeed only at end of input.
    Eoi(Box<ParserDesc>),
    /// Scan forward one token at a time, attempting the inner parser at each
    /// offset; the first success wins.
    MatchUntil(Box<ParserDesc>),
}

/// The mathematical value of a [`ParserDesc`].
pub enum DescV {
    Tok(Tok),
    Reserved(Seq<char>),
    MapTo(Box<DescV>, MapFn),
    Chain(Box<DescV>, Box<DescV>),
    Check(Box<DescV>, CheckFn),
    Or(Box<DescV>, Box<DescV>),
    Repeat(Box<DescV>, Option<Box<DescV>>),
    Delim(Box<DescV>, Box<DescV>, Box<DescV>),
    Eoi(Box<DescV>),
    MatchUntil(Box<DescV>),
}

/// The value of a [`ParserDesc`].
pub open spec fn desc_view(d: ParserDesc) -> DescV
    decreases d,
{
    match d {
        ParserDesc::Tok(k) => DescV::Tok(k),
        ParserDesc::Reserved(s) => DescV::Reserved(s@),
        ParserDesc::MapTo(p, f) => DescV::MapTo(Box::new(desc_view(*p)), f),
        ParserDesc::Chain(a, b) => DescV::Chain(Box::new(desc_view(*a)), Box::new(desc_view(*b))),
        ParserDesc::Check(p, c) => DescV::Check(Box::new(desc_view(*p)), c),
        ParserDesc::Or(a, b) => DescV::Or(Box::new(desc_view(*a)), Box::new(desc_view(*b))),
        ParserDesc::Repeat(p, s) => DescV::Repeat(Box::new(desc_view(*p)), opt_desc_view(s)),
        ParserDesc::Delim(a, p, b) => DescV::Delim(
            Box::new(desc_view(*a)),
            Box::new(desc_view(*p)),
            Box::new(desc_view(*b)),
        ),
        ParserDesc::Eoi(p) => DescV::Eoi(Box::new(desc_view(*p))),
        ParserDesc::MatchUntil(p) => DescV::MatchUntil(Box::new(desc_view(*p))),
    }
}

/// The value of an optional separator description.
pub open spec fn opt_desc_view(s: Option<Box<ParserDesc>>) -> Option<Box<DescV>>
    decreases s,
{
    match s {
        Some(p) => Some(Box::new(desc_view(*p))),
        None => None,
    }
}

impl View for ParserDesc {
    type V = DescV;

    open spec fn view(&self) -> DescV {
        desc_view(*self)
    }
}

/// [`BoxedParser::map`] and [`BoxedParser::map_range`], in math form.
pub open spec fn d_map(p: DescV, f: MapFn) -> DescV {
    DescV::MapTo(Box::new(p), f)
}

/// [`BoxedParser::chain`], in math form.
pub open spec fn d_chain(a: DescV, b: DescV) -> DescV {
    DescV::Chain(Box::new(a), Box::new(b))
}

/// [`BoxedParser::ignore_then`], in math form.
pub open spec fn d_ignore_then(a: DescV, b: DescV) -> DescV {
    d_map(d_chain(a, b), MapFn::Snd)
}

/// [`BoxedParser::then_ignore`], in math form.
pub open spec fn d_then_ignore(a: DescV, b: DescV) -> DescV {
    d_map(d_chain(a, b), MapFn::Fst)
}

/// [`BoxedParser::check`], in math form.
pub open spec fn d_check(p: DescV, c: CheckFn) -> DescV {
    DescV::Check(Box::new(p), c)
}

/// [`BoxedParser::or`], in math form.
pub open spec fn d_or(a: DescV, b: DescV) -> DescV {
    DescV::Or(Box::new(a), Box::new(b))
}

/// [`BoxedParser::repeated_sep`], in math form.
pub open spec fn d_repeated_sep(p: DescV, sep: DescV) -> DescV {
    DescV::Repeat(Box::new(p), Some(Box::new(sep)))
}

/// [`BoxedParser::repeated`], in math form.
pub open spec fn d_repeated(p: DescV) -> DescV {
    DescV::Repeat(Box::new(p), None)
}

/// [`BoxedParser::delimited`], in math form.
pub open spec fn d_delimited(open: DescV, inner: DescV, close: DescV) -> DescV {
    DescV::Delim(Box::new(open), Box::new(inner), Box::new(close))
}

/// [`BoxedParser::eoi`], in math form.
pub open spec fn d_eoi(p: DescV) -> DescV {
    DescV::Eoi(Box::new(p))
}

/// The height of a description tree, the termination measure of
/// [`spec_parse`] at a fixed cursor.
pub open spec fn ht(d: DescV) -> nat
    decreases d,
{
    match d {
        DescV::Tok(_) => 1,
        DescV::Reserved(_) => 1,
        DescV::MapTo(p, _) => ht(*p) + 1,
        DescV::Chain(a, b) => ht(*a) + ht(*b) + 1,
        DescV::Check(p, _) => ht(*p) + 1,
        DescV::Or(a, b) => ht(*a) + ht(*b) + 1,
        DescV::Repeat(p, s) => ht(*p) + opt_ht(s) + 1,
        DescV::Delim(a, p, b) => ht(*a) + ht(*p) + ht(*b) + 1,
        DescV::Eoi(p) => ht(*p) + 1,
        DescV::MatchUntil(p) => ht(*p) + 1,
    }
}

/// The height of an optional separator description.
pub open spec fn opt_ht(s: Option<Box<DescV>>) -> nat
    decreases s,
{
    match s {
        Some(p) => ht(*p),
        None => 0,
    }
}

/// The mathematical result of a parse.
pub type SpecParseResult = Result<(int, ValV, Span), ParserErrV>;

/// The failure descriptor of a leaf mismatch: positioned at the start of the
/// offending token, which it reports, or at offset zero when the input is
/// exhausted.
pub open spec fn leaf_err(expected: Seq<char>, toks: Seq<TokenV>, pos: int) -> ParserErrV {
    ParserErrV {
        end_idx: if pos < toks.len() {
            toks[pos].span.start as int
        } else {
            0
        },
        expected: expected,
        next: if pos < toks.len() {
            Some((toks[pos].kind, toks[pos].text))
        } else {
            None
        },
    }
}

/// The expectation text for a token kind.
pub open spec fn tok_expected(k: Tok) -> Seq<char> {
    match k {
        Tok::Unrecognized => "Unrecognized"@,
        Tok::Dollar => "Dollar"@,
        Tok::Ampersand => "Ampersand"@,
        Tok::Comma => "Comma"@,
        Tok::Dot => "Dot"@,
        Tok::Bang => "Bang"@,
        Tok::Ident => "Ident"@,
        Tok::OpenBracket => "OpenBracket"@,
        Tok::CloseBracket => "CloseBracket"@,
        Tok::Number => "Number"@,
        Tok::Equals => "Equals"@,
    }
}

/// The first of two optional offending tokens.
pub open spec fn or_next(
    first: Option<(Tok, Seq<char>)>,
    second: Option<(Tok, Seq<char>)>,
) -> Option<(Tok, Seq<char>)> {
    match first {
        Some(n) => Some(n),
        None => second,
    }
}

/// How choice resolves two failures: the one that reached further wins; on an
/// exact tie the expectations are concatenated, first alternative first, and
/// the second alternative's offending token is preferred.
pub open spec fn err_merge(a: ParserErrV, b: ParserErrV) -> ParserErrV {
    if b.end_idx > a.end_idx {
        b
    } else if a.end_idx > b.end_idx {
        a
    } else {
        ParserErrV {
            end_idx: b.end_idx,
            expected: a.expected + ", "@ + b.expected,
            next: or_next(b.next, a.next),
        }
    }
}

/// A failure that no parse built from the public constructors can produce:
/// [`spec_parse`] falls back to it where a sub-parse would have landed
/// outside the input, and [`lemma_parse_in_bounds`] shows that a sub-parse
/// never does.  The fallback keeps the definition total, which the
/// termination argument needs.
pub open spec fn stuck_err() -> ParserErrV {
    ParserErrV { end_idx: 0, expected: Seq::empty(), next: None }
}

/// The larger of two offsets.
pub open spec fn max_idx(a: int, b: int) -> int {
    if a >= b {
        a
    } else {
        b
    }
}

/// What a parser means: the result of running description `d` over the token
/// sequence `toks` from cursor `pos`.
///
/// A successful parse returns the advanced cursor, the value, and the
/// half-open byte span the parse consumed.  Termination holds because every
/// sub-parse either stands at the same cursor over a strictly smaller
/// description or has strictly advanced the cursor.
pub open spec fn spec_parse(d: DescV, toks: Seq<TokenV>, pos: int) -> SpecParseResult
    decreases toks.len() - pos, ht(d), 0int,
        when 0 <= pos <= toks.len()
{
    match d {
        DescV::Tok(k) => {
            if pos < toks.len() && toks[pos].kind == k {
                Ok((pos + 1, ValV::Text(toks[pos].text), toks[pos].span))
            } else {
                Err(leaf_err(tok_expected(k), toks, pos))
            }
        },
        DescV::Reserved(kw) => {
            if pos < toks.len() && toks[pos].kind == Tok::Ident && toks[pos].text == kw {
                Ok((pos + 1, ValV::Unit, toks[pos].span))
            } else {
                Err(leaf_err(kw, toks, pos))
            }
        },
        DescV::MapTo(p, f) => match spec_parse(*p, toks, pos) {
            Ok((p1, v, r)) => Ok((p1, map_apply(f, v, r), r)),
            Err(e) => Err(e),
        },
        DescV::Chain(a, b) => match spec_parse(*a, toks, pos) {
            Ok((p1, v1, r1)) => if pos <= p1 <= toks.len() {
                match spec_parse(*b, toks, p1) {
                    Ok((p2, v2, r2)) => Ok(
                        (
                            p2,
                            ValV::Pair(Box::new(v1), Box::new(v2)),
                            Span { start: r1.start, end: r2.end },
                        ),
                    ),
                    Err(e) => Err(e),
                }
            } else {
                Err(stuck_err())
            },
            Err(e) => Err(e),
        },
        DescV::Check(p, c) => match spec_parse(*p, toks, pos) {
            Ok((p1, v, r)) => match check_apply(c, v) {
                None => Ok((p1, v, r)),
                Some(msg) => Err(ParserErrV { end_idx: r.end as int, expected: msg, next: None }),
            },
            Err(e) => Err(e),
        },
        DescV::Or(a, b) => match spec_parse(*a, toks, pos) {
            Ok(r) => Ok(r),
            Err(ea) => match spec_parse(*b, toks, pos) {
                Ok(r) => Ok(r),
                Err(eb) => Err(err_merge(ea, eb)),
            },
        },
        DescV::Repeat(p, s) => match spec_repeat(*p, s, toks, pos) {
            Ok((p1, vs, r)) => Ok((p1, ValV::List(vs), r)),
            Err(e) => Err(e),
        },
        DescV::Delim(a, p, b) => match spec_parse(*a, toks, pos) {
            Ok((p1, _, ra)) => if pos <= p1 <= toks.len() {
                match spec_parse(*p, toks, p1) {
                    Ok((p2, v, _)) => if p1 <= p2 <= toks.len() {
                        match spec_parse(*b, toks, p2) {
                            Ok((p3, _, rb)) => Ok(
                                (p3, v, Span { start: ra.start, end: rb.end }),
                            ),
                            Err(e) => Err(e),
                        }
                    } else {
                        Err(stuck_err())
                    },
                    Err(e) => Err(e),
                }
            } else {
                Err(stuck_err())
            },
            Err(e) => Err(e),
        },
        DescV::Eoi(p) => match spec_parse(*p, toks, pos) {
            Ok((p1, v, r)) => if p1 == toks.len() {
                Ok((p1, v, r))
            } else if 0 <= p1 < toks.len() {
                Err(
                    ParserErrV {
                        end_idx: r.end as int,
                        expected: "EOF"@,
                        next: Some((toks[p1].kind, toks[p1].text)),
                    },
                )
            } else {
                Err(stuck_err())
            },
            Err(e) => Err(e),
        },
        DescV::MatchUntil(p) => {
            if pos < toks.len() {
                match spec_scan(*p, toks, pos) {
                    Ok(r) => Ok(r),
                    Err(e) => Err(
                        ParserErrV {
                            end_idx: max_idx(e.end_idx, toks[toks.len() - 1].span.end as int),
                            expected: e.expected,
                            next: None,
                        },
                    ),
                }
            } else {
                Err(ParserErrV { end_idx: 0, expected: "?"@, next: None })
            }
        },
    }
}

/// A non-empty repetition: the first element must parse; afterwards elements
/// accumulate as long as (separator and) element keep matching.
pub open spec fn spec_repeat(
    p: DescV,
    s: Option<Box<DescV>>,
    toks: Seq<TokenV>,
    pos: int,
) -> Result<(int, Seq<ValV>, Span), ParserErrV>
    decreases toks.len() - pos, ht(p) + opt_ht(s), 3int,
        when 0 <= pos <= toks.len()
{
    match spec_parse(p, toks, pos) {
        Err(e) => Err(e),
        Ok((p1, v, r)) => if pos < p1 <= toks.len() {
            Ok(spec_repeat_tail(p, s, toks, p1, seq![v], r))
        } else {
            Err(stuck_err())
        },
    }
}

/// The state right after a parsed element: if there is a separator it must
/// match for the list to go on, and a match extends the consumed span even
/// when no further element follows.
pub open spec fn spec_repeat_tail(
    p: DescV,
    s: Option<Box<DescV>>,
    toks: Seq<TokenV>,
    pos: int,
    acc: Seq<ValV>,
    range: Span,
) -> (int, Seq<ValV>, Span)
    decreases toks.len() - pos, ht(p) + opt_ht(s), 2int,
        when 0 <= pos <= toks.len()
{
    match s {
        Some(sd) => match spec_parse(*sd, toks, pos) {
            Err(_) => (pos, acc, range),
            Ok((p2, _, rs)) => if pos < p2 <= toks.len() {
                spec_repeat_elem(p, s, toks, p2, acc, Span { start: range.start, end: rs.end })
            } else {
                (pos, acc, range)
            },
        },
        None => spec_repeat_elem(p, s, toks, pos, acc, range),
    }
}

/// One further repetition element: a failure ends the list at the cursor as
/// it stands, consuming nothing of the failed attempt.
pub open spec fn spec_repeat_elem(
    p: DescV,
    s: Option<Box<DescV>>,
    toks: Seq<TokenV>,
    pos: int,
    acc: Seq<ValV>,
    range: Span,
) -> (int, Seq<ValV>, Span)
    decreases toks.len() - pos, ht(p) + opt_ht(s), 1int,
        when 0 <= pos <= toks.len()
{
    match spec_parse(p, toks, pos) {
        Err(_) => (pos, acc, range),
        Ok((p1, v, r)) => if pos < p1 <= toks.len() {
            spec_repeat_tail(p, s, toks, p1, acc.push(v), Span { start: range.start, end: r.end })
        } else {
            (pos, acc, range)
        },
    }
}

/// The scan of [`DescV::MatchUntil`]: attempt the parser at every offset from
/// `pos` on; the first success wins, and failures fold left to right by the
/// same rule as choice.
pub open spec fn spec_scan(p: DescV, toks: Seq<TokenV>, pos: int) -> SpecParseResult
    decreases toks.len() - pos, ht(p), 1int,
        when 0 <= pos < toks.len()
{
    let attempt = spec_parse(p, toks, pos);
    if pos + 1 == toks.len() {
        attempt
    } else {
        match attempt {
            Ok(r) => Ok(r),
            Err(e) => match spec_scan(p, toks, pos + 1) {
                Ok(r) => Ok(r),
                Err(e2) => Err(err_merge(e, e2)),
            },
        }
    }
}

/// A successful parse advances the cursor by at least one token and never
/// past the end of input: every repetition makes progress, so parsing always
/// terminates, and the guarded fallbacks inside [`spec_parse`] are never
/// taken.
pub proof fn lemma_parse_in_bounds(d: DescV, toks: Seq<TokenV>, pos: int)
    requires
        0 <= pos <= toks.len(),
    ensures
        spec_parse(d, toks, pos) matches Ok(r) ==> pos < r.0 <= toks.len(),
    decreases toks.len() - pos, ht(d), 0int,
{
    match d {
        DescV::Tok(_) => {},
        DescV::Reserved(_) => {},
        DescV::MapTo(p, _) => {
            lemma_parse_in_bounds(*p, toks, pos);
        },
        DescV::Chain(a, b) => {
            lemma_parse_in_bounds(*a, toks, pos);
            if let Ok((p1, _, _)) = spec_parse(*a, toks, pos) {
                lemma_parse_in_bounds(*b, toks, p1);
            }
        },
        DescV::Check(p, _) => {
            lemma_parse_in_bounds(*p, toks, pos);
        },
        DescV::Or(a, b) => {
            lemma_parse_in_bounds(*a, toks, pos);
            lemma_parse_in_bounds(*b, toks, pos);
        },
        DescV::Repeat(p, s) => {
            lemma_repeat_in_bounds(*p, s, toks, pos);
        },
        DescV::Delim(a, p, b) => {
            lemma_parse_in_bounds(*a, toks, pos);
            if let Ok((p1, _, _)) = spec_parse(*a, toks, pos) {
                lemma_parse_in_bounds(*p, toks, p1);
                if let Ok((p2, _, _)) = spec_parse(*p, toks, p1) {
                    lemma_parse_in_bounds(*b, toks, p2);
                }
            }
        },
        DescV::Eoi(p) => {
            lemma_parse_in_bounds(*p, toks, pos);
        },
        DescV::MatchUntil(p) => {
            if pos < toks.len() {
                lemma_scan_in_bounds(*p, toks, pos);
            }
        },
    }
}

/// Bounds for [`spec_repeat`].
pub proof fn lemma_repeat_in_bounds(
    p: DescV,
    s: Option<Box<DescV>>,
    toks: Seq<TokenV>,
    pos: int,
)
    requires
        0 <= pos <= toks.len(),
    ensures
        spec_repeat(p, s, toks, pos) matches Ok(r) ==> pos < r.0 <= toks.len(),
    decreases toks.len() - pos, ht(p) + opt_ht(s), 3int,
{
    lemma_parse_in_bounds(p, toks, pos);
    if let Ok((p1, v, r)) = spec_parse(p, toks, pos) {
        lemma_repeat_tail_in_bounds(p, s, toks, p1, seq![v], r);
    }
}

/// Bounds for [`spec_repeat_tail`]: the cursor never moves backwards and
/// stays inside the input.
pub proof fn lemma_repeat_tail_in_bounds(
    p: DescV,
    s: Option<Box<DescV>>,
    toks: Seq<TokenV>,
    pos: int,
    acc: Seq<ValV>,
    range: Span,
)
    requires
        0 <= pos <= toks.len(),
    ensures
        pos <= spec_repeat_tail(p, s, toks, pos, acc, range).0 <= toks.len(),
    decreases toks.len() - pos, ht(p) + opt_ht(s), 2int,
{
    match s {
        Some(sd) => {
            lemma_parse_in_bounds(*sd, toks, pos);
            if let Ok((p2, _, rs)) = spec_parse(*sd, toks, pos) {
                lemma_repeat_elem_in_bounds(
                    p,
                    s,
                    toks,
                    p2,
                    acc,
                    Span { start: range.start, end: rs.end },
                );
            }
        },
        None => {
            lemma_repeat_elem_in_bounds(p, s, toks, pos, acc, range);
        },
    }
}

/// Bounds for [`spec_repeat_elem`].
pub proof fn lemma_repeat_elem_in_bounds(
    p: DescV,
    s: Option<Box<DescV>>,
    toks: Seq<TokenV>,
    pos: int,
    acc: Seq<ValV>,
    range: Span,
)
    requires
        0 <= pos <= toks.len(),
    ensures
        pos <= spec_repeat_elem(p, s, toks, pos, acc, range).0 <= toks.len(),
    decreases toks.len() - pos, ht(p) + opt_ht(s), 1int,
{
    lemma_parse_in_bounds(p, toks, pos);
    if let Ok((p1, v, r)) = spec_parse(p, toks, pos) {
        lemma_repeat_tail_in_bounds(
            p,
            s,
            toks,
            p1,
            acc.push(v),
            Span { start: range.start, end: r.end },
        );
    }
}

/// The mathematical value of an executable parse result.
pub open spec fn res_view(r: Result<(usize, Val, Span), ParserErr>) -> SpecParseResult {
    match r {
        Ok(t) => Ok((t.0 as int, t.1@, t.2)),
        Err(e) => Err(e@),
    }
}

/// The expectation text for a token kind.
fn tok_expected_str(k: Tok) -> (s: String)
    ensures
        s@ == tok_expected(k),
{
    match k {
        Tok::Unrecognized => String::from_str("Unrecognized"),
        Tok::Dollar => String::from_str("Dollar"),
        Tok::Ampersand => String::from_str("Ampersand"),
        Tok::Comma => String::from_str("Comma"),
        Tok::Dot => String::from_str("Dot"),
        Tok::Bang => String::from_str("Bang"),
        Tok::Ident => String::from_str("Ident"),
        Tok::OpenBracket => String::from_str("OpenBracket"),
        Tok::CloseBracket => String::from_str("CloseBracket"),
        Tok::Number => String::from_str("Number"),
        Tok::Equals => String::from_str("Equals"),
    }
}

/// The kind and text of the offending token at `pos`, if any.
fn next_info(toks: &Vec<Token>, pos: usize) -> (r: Option<(Tok, String)>)
    ensures
        r matches Some(n) ==> pos < toks@.len() && n.0 == toks@[pos as int]@.kind && n.1@
            == toks@[pos as int]@.text,
        r is None ==> pos >= toks@.len(),
{
    if pos < toks.len() {
        Some((toks[pos].kind, toks[pos].text.clone()))
    } else {
        None
    }
}

/// Resolves two failures as [`err_merge`] says.
fn merge_errs(a: ParserErr, b: ParserErr) -> (r: ParserErr)
    ensures
        r@ == err_merge(a@, b@),
{
    if b.end_idx > a.end_idx {
        b
    } else if a.end_idx > b.end_idx {
        a
    } else {
        let mut expected = a.expected;
        expected.append(", ");
        expected.append(b.expected.as_str());
        let next = if b.next.is_some() {
            b.next
        } else {
            a.next
        };
        ParserErr { end_idx: b.end_idx, expected, next }
    }
}

/// The executable form of one-or-more repetition: the
/// [`ParserDesc::Repeat`] case of [`parse_at`].
#[verifier::rlimit(60)]
fn parse_repeat(
    p: &ParserDesc,
    s: &Option<Box<ParserDesc>>,
    toks: &Vec<Token>,
    pos: usize,
) -> (r: Result<(usize, Val, Span), ParserErr>)
    requires
        pos <= toks@.len(),
    ensures
        res_view(r) == (match spec_repeat(p@, opt_desc_view(*s), toks_view(toks@), pos as int) {
            Ok(t) => Ok::<(int, ValV, Span), ParserErrV>((t.0, ValV::List(t.1), t.2)),
            Err(e) => Err(e),
        }),
        r matches Ok(t) ==> pos < t.0 <= toks@.len(),
    decreases toks@.len() - pos, ht(p@) + opt_ht(opt_desc_view(*s)), 3int,
{
    let ghost tv = toks_view(toks@);
    let ghost pd = p@;
    let ghost sv = opt_desc_view(*s);
    match parse_at(p, toks, pos) {
        Err(e) => Err(e),
        Ok((p1, v, r)) => {
            let ghost v0 = v;
            let ghost target = spec_repeat_tail(pd, sv, tv, p1 as int, seq![v0@], r);
            let mut cur = p1;
            let mut acc: Vec<Val> = Vec::new();
            proof {
                crate::value::lemma_vals_view_push(Seq::empty(), v0);
            }
            acc.push(v);
            proof {
                assert(acc@ =~= Seq::<Val>::empty().push(v0));
                assert(vals_view(acc@) =~= seq![v0@]);
            }
            let mut range = r;
            loop
                invariant_except_break
                    pos < cur <= toks@.len(),
                    spec_repeat_tail(pd, sv, tv, cur as int, vals_view(acc@), range) == target,
                    pd == p@,
                    sv == opt_desc_view(*s),
                    tv == toks_view(toks@),
                ensures
                    cur <= toks@.len(),
                    pos < cur,
                    (cur as int, vals_view(acc@), range) == target,
                decreases toks@.len() - cur,
            {
                match s {
                    Some(sd) => {
                        match parse_at(sd, toks, cur) {
                            Err(_) => {
                                break ;
                            },
                            Ok((p2, _, rs)) => {
                                let r2 = Span { start: range.start, end: rs.end };
                                match parse_at(p, toks, p2) {
                                    Err(_) => {
                                        cur = p2;
                                        range = r2;
                                        break ;
                                    },
                                    Ok((p3, v2, re)) => {
                                        let ghost acc0 = acc@;
                                        let ghost v2c = v2;
                                        proof {
                                            crate::value::lemma_vals_view_push(acc0, v2c);
                                        }
                                        acc.push(v2);
                                        proof {
                                            assert(vals_view(acc@) == vals_view(acc0).push(
                                                v2c@,
                                            ));
                                        }
                                        cur = p3;
                                        range = Span { start: range.start, end: re.end };
                                    },
                                }
                            },
                        }
                    },
                    None => {
                        match parse_at(p, toks, cur) {
                            Err(_) => {
                                break ;
                            },
                            Ok((p3, v2, re)) => {
                                let ghost acc0 = acc@;
                                let ghost v2c = v2;
                                proof {
                                    crate::value::lemma_vals_view_push(acc0, v2c);
                                }
                                acc.push(v2);
                                proof {
                                    assert(vals_view(acc@) == vals_view(acc0).push(v2c@));
                                }
                                cur = p3;
                                range = Span { start: range.start, end: re.end };
                            },
                        }
                    },
                }
            }
            Ok((cur, Val::List(acc), range))
        },
    }
}

/// Runs a parser description: the executable form of [`spec_parse`].
///
/// The result is exactly the mathematical one, so parsing is pure: two runs
/// over the same tokens return structurally equal results, and a failing
/// attempt leaves nothing behind but the error value.
#[verifier::rlimit(100)]
fn parse_at(d: &ParserDesc, toks: &Vec<Token>, pos: usize) -> (r: Result<
    (usize, Val, Span),
    ParserErr,
>)
    requires
        pos <= toks@.len(),
    ensures
        res_view(r) == spec_parse(d@, toks_view(toks@), pos as int),
        r matches Ok(t) ==> pos < t.0 <= toks@.len(),
    decreases toks@.len() - pos, ht(d@), 0int,
{
    match d {
        ParserDesc::Tok(k) => {
            if pos < toks.len() && toks[pos].kind == *k {
                Ok((pos + 1, Val::Text(toks[pos].text.clone()), toks[pos].span))
            } else {
                Err(
                    ParserErr {
                        end_idx: if pos < toks.len() {
                            toks[pos].span.start
                        } else {
                            0
                        },
                        expected: tok_expected_str(*k),
                        next: next_info(toks, pos),
                    },
                )
            }
        },
        ParserDesc::Reserved(kw) => {
            if pos < toks.len() && matches!(toks[pos].kind, Tok::Ident) && toks[pos].text
                == *kw {
                Ok((pos + 1, Val::Unit, toks[pos].span))
            } else {
                Err(
                    ParserErr {
                        end_idx: if pos < toks.len() {
                            toks[pos].span.start
                        } else {
                            0
                        },
                        expected: kw.clone(),
                        next: next_info(toks, pos),
                    },
                )
            }
        },
        ParserDesc::MapTo(p, f) => match parse_at(p, toks, pos) {
            Ok((p1, v, r)) => Ok((p1, crate::value::run_map(*f, v, r), r)),
            Err(e) => Err(e),
        },
        ParserDesc::Chain(a, b) => match parse_at(a, toks, pos) {
            Ok((p1, v1, r1)) => match parse_at(b, toks, p1) {
                Ok((p2, v2, r2)) => Ok(
                    (
                        p2,
                        Val::Pair(Box::new(v1), Box::new(v2)),
                        Span { start: r1.start, end: r2.end },
                    ),
                ),
                Err(e) => Err(e),
            },
            Err(e) => Err(e),
        },
        ParserDesc::Check(p, c) => match parse_at(p, toks, pos) {
            Ok((p1, v, r)) => match crate::value::run_check(*c, &v) {
                None => Ok((p1, v, r)),
                Some(msg) => Err(ParserErr { end_idx: r.end, expected: msg, next: None }),
            },
            Err(e) => Err(e),
        },
        ParserDesc::Or(a, b) => match parse_at(a, toks, pos) {
            Ok(r) => Ok(r),
            Err(ea) => match parse_at(b, toks, pos) {
                Ok(r) => Ok(r),
                Err(eb) => Err(merge_errs(ea, eb)),
            },
        },
        ParserDesc::Repeat(p, s) => parse_repeat(p, s, toks, pos),
        ParserDesc::Delim(a, p, b) => match parse_at(a, toks, pos) {
            Ok((p1, _, ra)) => match parse_at(p, toks, p1) {
                Ok((p2, v, _)) => match parse_at(b, toks, p2) {
                    Ok((p3, _, rb)) => Ok((p3, v, Span { start: ra.start, end: rb.end })),
                    Err(e) => Err(e),
                },
                Err(e) => Err(e),
            },
            Err(e) => Err(e),
        },
        ParserDesc::Eoi(p) => match parse_at(p, toks, pos) {
            Ok((p1, v, r)) => {
                if p1 == toks.len() {
                    Ok((p1, v, r))
                } else {
                    Err(
                        ParserErr {
                            end_idx: r.end,
                            expected: String::from_str("EOF"),
                            next: next_info(toks, p1),
                        },
                    )
                }
            },
            Err(e) => Err(e),
        },
        ParserDesc::MatchUntil(p) => {
            if pos < toks.len() {
                match parse_scan(p, toks, pos) {
                    Ok(r) => Ok(r),
                    Err(e) => {
                        let last_end = toks[toks.len() - 1].span.end;
                        Err(
                            ParserErr {
                                end_idx: if e.end_idx >= last_end {
                                    e.end_idx
                                } else {
                                    last_end
                                },
                                expected: e.expected,
                                next: None,
                            },
                        )
                    },
                }
            } else {
                Err(ParserErr { end_idx: 0, expected: String::from_str("?"), next: None })
            }
        },
    }
}

/// The executable form of [`spec_scan`].
fn parse_scan(p: &ParserDesc, toks: &Vec<Token>, pos: usize) -> (r: Result<
    (usize, Val, Span),
    ParserErr,
>)
    requires
        pos < toks@.len(),
    ensures
        res_view(r) == spec_scan(p@, toks_view(toks@), pos as int),
        r matches Ok(t) ==> pos < t.0 <= toks@.len(),
    decreases toks@.len() - pos, ht(p@), 1int,
{
    let n = toks.len();
    let attempt = parse_at(p, toks, pos);
    if pos + 1 == n {
        attempt
    } else {
        match attempt {
            Ok(r) => Ok(r),
            Err(e) => match parse_scan(p, toks, pos + 1) {
                Ok(r) => Ok(r),
                Err(e2) => Err(merge_errs(e, e2)),
            },
        }
    }
}

/// A deep copy of a description.
fn clone_desc(d: &ParserDesc) -> (r: ParserDesc)
    ensures
        r@ == d@,
    decreases *d,
{
    proof {
        reveal_with_fuel(desc_view, 3);
        reveal_with_fuel(opt_desc_view, 3);
    }
    match d {
        ParserDesc::Tok(k) => ParserDesc::Tok(*k),
        ParserDesc::Reserved(s) => ParserDesc::Reserved(s.clone()),
        ParserDesc::MapTo(p, f) => ParserDesc::MapTo(Box::new(clone_desc(p)), *f),
        ParserDesc::Chain(a, b) => ParserDesc::Chain(
            Box::new(clone_desc(a)),
            Box::new(clone_desc(b)),
        ),
        ParserDesc::Check(p, c) => ParserDesc::Check(Box::new(clone_desc(p)), *c),
        ParserDesc::Or(a, b) => ParserDesc::Or(Box::new(clone_desc(a)), Box::new(clone_desc(b))),
        ParserDesc::Repeat(p, s) => match s {
            Some(sd) => ParserDesc::Repeat(
                Box::new(clone_desc(p)),
                Some(Box::new(clone_desc(sd))),
            ),
            None => ParserDesc::Repeat(Box::new(clone_desc(p)), None),
        },
        ParserDesc::Delim(a, p, b) => ParserDesc::Delim(
            Box::new(clone_desc(a)),
            Box::new(clone_desc(p)),
            Box::new(clone_desc(b)),
        ),
        ParserDesc::Eoi(p) => ParserDesc::Eoi(Box::new(clone_desc(p))),
        ParserDesc::MatchUntil(p) => ParserDesc::MatchUntil(Box::new(clone_desc(p))),
    }
}

/// A parser: something that can be run over a token buffer from a cursor.
///
/// `parse` is a pure function of the parser's description, the token values
/// and the cursor: it returns exactly what [`spec_parse`] says, so two runs
/// on the same input return structurally equal results, a failed run consumes
/// nothing, and a successful run consumes at least one token.
pub trait Parser {
    /// The description this parser runs.
    spec fn pdesc(&self) -> DescV;

    /// Runs the parser over `toks` from `pos`.
    fn parse(&self, toks: &Vec<Token>, pos: usize) -> (r: Result<(usize, Val, Span), ParserErr>)
        requires
            pos <= toks@.len(),
        ensures
            res_view(r) == spec_parse(self.pdesc(), toks_view(toks@), pos as int),
            r matches Ok(t) ==> pos < t.0 <= toks@.len(),
    ;
}

/// A parser value: a description ready to run or to compose further.
pub struct BoxedParser {
    desc: ParserDesc,
}

impl View for BoxedParser {
    type V = DescV;

    closed spec fn view(&self) -> DescV {
        self.desc@
    }
}

impl Parser for BoxedParser {
    open spec fn pdesc(&self) -> DescV {
        self@
    }

    fn parse(&self, toks: &Vec<Token>, pos: usize) -> (r: Result<(usize, Val, Span), ParserErr>) {
        parse_at(&self.desc, toks, pos)
    }
}

impl BoxedParser {
    /// Wraps a description.
    fn new(desc: ParserDesc) -> (r: BoxedParser)
        ensures
            r@ == desc@,
    {
        BoxedParser { desc }
    }

    /// A copy of this parser, to use it in several alternatives.
    pub fn clone(&self) -> (r: BoxedParser)
        ensures
            r@ == self@,
    {
        BoxedParser { desc: clone_desc(&self.desc) }
    }

    /// Transforms the success value with `f`; consumption is unchanged.
    pub fn map(self, f: MapFn) -> (r: BoxedParser)
        ensures
            r@ == DescV::MapTo(Box::new(self@), f),
    {
        BoxedParser { desc: ParserDesc::MapTo(Box::new(self.desc), f) }
    }

    /// Transforms the success value with `f`, which also receives the
    /// consumed span — how syntax-tree nodes get stamped with their range.
    /// Each [`MapFn`] tag already knows whether it reads the span, so this is
    /// [`Self::map`] under a name that flags the span use.
    pub fn map_range(self, f: MapFn) -> (r: BoxedParser)
        ensures
            r@ == DescV::MapTo(Box::new(self@), f),
    {
        self.map(f)
    }

    /// Runs `self`, then `next` on the remainder: the value is the pair of
    /// values and the span the union of the two spans.  A failure of either
    /// side propagates untouched.
    pub fn chain(self, next: BoxedParser) -> (r: BoxedParser)
        ensures
            r@ == DescV::Chain(Box::new(self@), Box::new(next@)),
    {
        BoxedParser { desc: ParserDesc::Chain(Box::new(self.desc), Box::new(next.desc)) }
    }

    /// Chains, keeping only the second value while consuming both.
    pub fn ignore_then(self, next: BoxedParser) -> (r: BoxedParser)
        ensures
            r@ == DescV::MapTo(
                Box::new(DescV::Chain(Box::new(self@), Box::new(next@))),
                MapFn::Snd,
            ),
    {
        self.chain(next).map(MapFn::Snd)
    }

    /// Chains, keeping only the first value while consuming both.
    pub fn then_ignore(self, next: BoxedParser) -> (r: BoxedParser)
        ensures
            r@ == DescV::MapTo(
                Box::new(DescV::Chain(Box::new(self@), Box::new(next@))),
                MapFn::Fst,
            ),
    {
        self.chain(next).map(MapFn::Fst)
    }

    /// Accepts the value only if the semantic check holds; a rejection turns
    /// the syntactic success into a failure positioned at the end of the
    /// consumed span.
    pub fn check(self, c: CheckFn) -> (r: BoxedParser)
        ensures
            r@ == DescV::Check(Box::new(self@), c),
    {
        BoxedParser { desc: ParserDesc::Check(Box::new(self.desc), c) }
    }

    /// Tries `self`; on failure rewinds and tries `alt`.  If both fail, the
    /// failure that consumed more input wins; on an exact tie the
    /// expectations are concatenated.
    pub fn or(self, alt: BoxedParser) -> (r: BoxedParser)
        ensures
            r@ == DescV::Or(Box::new(self@), Box::new(alt@)),
    {
        BoxedParser { desc: ParserDesc::Or(Box::new(self.desc), Box::new(alt.desc)) }
    }

    /// One-or-more repetition with an optional separator.
    fn repeated_optsep(self, sep: Option<BoxedParser>) -> (r: BoxedParser)
        ensures
            r@ == DescV::Repeat(
                Box::new(self@),
                match sep {
                    Some(s) => Some(Box::new(s@)),
                    None => None,
                },
            ),
    {
        proof {
            reveal_with_fuel(desc_view, 3);
            reveal_with_fuel(opt_desc_view, 3);
        }
        match sep {
            Some(s) => BoxedParser {
                desc: ParserDesc::Repeat(Box::new(self.desc), Some(Box::new(s.desc))),
            },
            None => BoxedParser { desc: ParserDesc::Repeat(Box::new(self.desc), None) },
        }
    }

    /// Applies `self` one or more times with `sep` required between elements;
    /// a separator after the last element is also consumed.
    pub fn repeated_sep(self, sep: BoxedParser) -> (r: BoxedParser)
        ensures
            r@ == DescV::Repeat(Box::new(self@), Some(Box::new(sep@))),
    {
        self.repeated_optsep(Some(sep))
    }

    /// Applies `self` one or more times; zero matches is an error.
    pub fn repeated(self) -> (r: BoxedParser)
        ensures
            r@ == DescV::Repeat(Box::new(self@), None),
    {
        self.repeated_optsep(None)
    }

    /// Requires `open`, then `self`, then `close`; the value is `self`'s and
    /// the span runs from the opening to the closing delimiter.
    pub fn delimited(self, open: BoxedParser, close: BoxedParser) -> (r: BoxedParser)
        ensures
            r@ == DescV::Delim(Box::new(open@), Box::new(self@), Box::new(close@)),
    {
        BoxedParser {
            desc: ParserDesc::Delim(
                Box::new(open.desc),
                Box::new(self.desc),
                Box::new(close.desc),
            ),
        }
    }

    /// Succeeds only if the input is fully consumed after `self`; leftover
    /// input fails naming `EOF` as expected and the first leftover token.
    pub fn eoi(self) -> (r: BoxedParser)
        ensures
            r@ == DescV::Eoi(Box::new(self@)),
    {
        BoxedParser { desc: ParserDesc::Eoi(Box::new(self.desc)) }
    }
}

/// Matches one token of kind `tomatch`; the value is the token's text.
pub fn tok(tomatch: Tok) -> (r: BoxedParser)
    ensures
        r@ == DescV::Tok(tomatch),
{
    BoxedParser::new(ParserDesc::Tok(tomatch))
}

/// Matches one identifier token whose text equals `tomatch`: keywords are a
/// positional convention, not a lexical class.
pub fn reserved(tomatch: &str) -> (r: BoxedParser)
    ensures
        r@ == DescV::Reserved(tomatch@),
{
    BoxedParser::new(ParserDesc::Reserved(String::from_str(tomatch)))
}

/// The recovery primitive: scan forward one token at a time, attempting `p`
/// at each offset, and return the first success; if none succeeds, the
/// failures fold by the furthest-failure rule and the final offset reaches
/// past the last attempted token.
pub fn match_until(p: BoxedParser) -> (r: BoxedParser)
    ensures
        r@ == DescV::MatchUntil(Box::new(p@)),
{
    BoxedParser::new(ParserDesc::MatchUntil(Box::new(p.desc)))
}

/// Bounds for [`spec_scan`].
pub proof fn lemma_scan_in_bounds(p: DescV, toks: Seq<TokenV>, pos: int)
    requires
        0 <= pos < toks.len(),
    ensures
        spec_scan(p, toks, pos) matches Ok(r) ==> pos < r.0 <= toks.len(),
    decreases toks.len() - pos, ht(p), 1int,
{
    lemma_parse_in_bounds(p, toks, pos);
    if pos + 1 < toks.len() {
        lemma_scan_in_bounds(p, toks, pos + 1);
    }
}

} // verus!
