//! Behaviour of the combinators themselves: purity, furthest-failure
//! resolution, backtracking, separators, delimiters, and the recovery scan.

use naklang::match_until;
use naklang::reserved;
use naklang::tok;
use naklang::AstNode;
use naklang::MapFn;
use naklang::Parser;
use naklang::Span;
use naklang::SliceHelper;
use naklang::Tok;
use naklang::Token;
use naklang::TokenStream;
use naklang::Val;

fn tk(kind: Tok, start: usize, text: &str) -> Token {
    Token {
        kind,
        span: Span { start, end: start + text.len() },
        text: text.to_string(),
    }
}

/// `"a, a, a"`, lexed.
fn idents_with_commas() -> Vec<Token> {
    vec![
        tk(Tok::Ident, 0, "a"),
        tk(Tok::Comma, 1, ","),
        tk(Tok::Ident, 3, "a"),
        tk(Tok::Comma, 4, ","),
        tk(Tok::Ident, 6, "a"),
    ]
}

#[test]
fn parse_is_pure() {
    let toks = idents_with_commas();
    let p = tok(Tok::Ident).repeated_sep(tok(Tok::Comma));
    let r1 = p.parse(&toks, 0);
    let r2 = p.parse(&toks, 0);
    assert_eq!(r1, r2);
    // a clone behaves as the original
    let r3 = p.clone().parse(&toks, 0);
    assert_eq!(r1, r3);
}

#[test]
fn repeated_sep_consumes_all_elements() {
    // "a, a, a" yields 3 elements and consumes the whole input
    let toks = idents_with_commas();
    let r = tok(Tok::Ident).repeated_sep(tok(Tok::Comma)).parse(&toks, 0).unwrap();
    assert_eq!(r.0, 5);
    match r.1 {
        Val::List(items) => assert_eq!(items.len(), 3),
        other => panic!("expected a list, got {:?}", other),
    }
    assert_eq!(r.2, Span { start: 0, end: 7 });
}

#[test]
fn trailing_separator_adds_no_element() {
    // "a, a,": the list completes with 2 elements; the trailing separator is
    // consumed but contributes nothing to it
    let toks = vec![
        tk(Tok::Ident, 0, "a"),
        tk(Tok::Comma, 1, ","),
        tk(Tok::Ident, 3, "a"),
        tk(Tok::Comma, 4, ","),
    ];
    let r = tok(Tok::Ident).repeated_sep(tok(Tok::Comma)).parse(&toks, 0).unwrap();
    assert_eq!(r.0, 4);
    match r.1 {
        Val::List(items) => assert_eq!(items.len(), 2),
        other => panic!("expected a list, got {:?}", other),
    }
    assert_eq!(r.2, Span { start: 0, end: 5 });
}

#[test]
fn repeated_requires_one_match() {
    let toks = vec![tk(Tok::Comma, 0, ",")];
    let e = tok(Tok::Ident).repeated().parse(&toks, 0).unwrap_err();
    assert_eq!(e.expected, "Ident");
    assert_eq!(e.end_idx, 0);
    assert_eq!(e.next, Some((Tok::Comma, ",".to_string())));
}

#[test]
fn or_prefers_the_furthest_failure() {
    // "foo bar": the chained alternative consumes "foo" before failing, so
    // its failure beats the leaf failure of the first alternative
    let toks = vec![tk(Tok::Ident, 0, "foo"), tk(Tok::Ident, 4, "bar")];
    let first = tok(Tok::Number);
    let second = reserved("foo").ignore_then(tok(Tok::Number));
    let e = first.or(second).parse(&toks, 0).unwrap_err();
    assert_eq!(e.expected, "Number");
    assert_eq!(e.end_idx, 4);
}

#[test]
fn or_merges_expectations_on_a_tie() {
    // both alternatives fail on the very first token
    let toks = vec![tk(Tok::Comma, 0, ",")];
    let e = tok(Tok::Number).or(tok(Tok::Ident)).parse(&toks, 0).unwrap_err();
    assert_eq!(e.expected, "Number, Ident");
    assert_eq!(e.end_idx, 0);
    assert_eq!(e.next, Some((Tok::Comma, ",".to_string())));
}

#[test]
fn or_backtracks_without_leaking() {
    // the first alternative consumes a token before failing; the winner's
    // result reflects only its own consumption
    let toks = vec![tk(Tok::Ident, 0, "foo"), tk(Tok::Ident, 4, "bar")];
    let first = tok(Tok::Ident).ignore_then(tok(Tok::Number));
    let second = tok(Tok::Ident);
    let r = first.or(second).parse(&toks, 0).unwrap();
    assert_eq!(r.0, 1);
    assert_eq!(r.1, Val::Text("foo".to_string()));
    assert_eq!(r.2, Span { start: 0, end: 3 });
}

#[test]
fn delimited_round_trip() {
    // "( foo ) bar": the delimited parser returns the inner value, spans the
    // brackets, and leaves the rest untouched
    let toks = vec![
        tk(Tok::OpenBracket, 0, "("),
        tk(Tok::Ident, 2, "foo"),
        tk(Tok::CloseBracket, 6, ")"),
        tk(Tok::Ident, 8, "bar"),
    ];
    let p = tok(Tok::Ident).delimited(tok(Tok::OpenBracket), tok(Tok::CloseBracket));
    let r = p.parse(&toks, 0).unwrap();
    assert_eq!(r.0, 3);
    assert_eq!(r.1, Val::Text("foo".to_string()));
    assert_eq!(r.2, Span { start: 0, end: 7 });
}

#[test]
fn delimited_failure_names_the_missing_close() {
    let toks = vec![tk(Tok::OpenBracket, 0, "("), tk(Tok::Ident, 1, "foo")];
    let p = tok(Tok::Ident).delimited(tok(Tok::OpenBracket), tok(Tok::CloseBracket));
    let e = p.parse(&toks, 0).unwrap_err();
    assert_eq!(e.expected, "CloseBracket");
    assert_eq!(e.end_idx, 0);
    assert_eq!(e.next, None);
}

#[test]
fn match_until_finds_a_later_match() {
    // scanning past two tokens that do not match
    let toks = vec![
        tk(Tok::Comma, 0, ","),
        tk(Tok::Dot, 2, "."),
        tk(Tok::Ident, 4, "yes"),
    ];
    let r = match_until(tok(Tok::Ident)).parse(&toks, 0).unwrap();
    assert_eq!(r.0, 3);
    assert_eq!(r.1, Val::Text("yes".to_string()));
    assert_eq!(r.2, Span { start: 4, end: 7 });
}

#[test]
fn match_until_failure_reaches_past_the_last_attempt() {
    let toks = vec![tk(Tok::Comma, 0, ","), tk(Tok::Dot, 2, ".")];
    let e = match_until(tok(Tok::Ident)).parse(&toks, 0).unwrap_err();
    assert_eq!(e.expected, "Ident");
    assert_eq!(e.end_idx, 3);
    assert_eq!(e.next, None);
}

#[test]
fn match_until_on_empty_input() {
    let toks: Vec<Token> = Vec::new();
    let e = match_until(tok(Tok::Ident)).parse(&toks, 0).unwrap_err();
    assert_eq!(e.expected, "?");
    assert_eq!(e.end_idx, 0);
    assert_eq!(e.next, None);
}

#[test]
fn reserved_matches_text_not_kind() {
    // "cpy" and "copy" are both plain identifiers; only the text decides
    let toks = vec![tk(Tok::Ident, 0, "copy")];
    let e = reserved("cpy").parse(&toks, 0).unwrap_err();
    assert_eq!(e.expected, "cpy");
    assert_eq!(e.next, Some((Tok::Ident, "copy".to_string())));
    let toks2 = vec![tk(Tok::Ident, 0, "cpy")];
    let r = reserved("cpy").parse(&toks2, 0).unwrap();
    assert_eq!(r.0, 1);
    assert_eq!(r.1, Val::Unit);
}

#[test]
fn tok_failure_at_end_of_input() {
    let toks: Vec<Token> = Vec::new();
    let e = tok(Tok::Dollar).parse(&toks, 0).unwrap_err();
    assert_eq!(e.expected, "Dollar");
    assert_eq!(e.end_idx, 0);
    assert_eq!(e.next, None);
}

#[test]
fn map_with_span_pairs_value_and_span() {
    let toks = vec![tk(Tok::Ident, 3, "abc")];
    let r = tok(Tok::Ident).map_range(MapFn::WithSpan).parse(&toks, 0).unwrap();
    assert_eq!(
        r.1,
        Val::Pair(
            Box::new(Val::Sp(Span { start: 3, end: 6 })),
            Box::new(Val::Text("abc".to_string())),
        )
    );
}

#[test]
fn token_stream_keeps_its_tokens() {
    let toks = idents_with_commas();
    let stream = TokenStream::new(toks.clone());
    assert_eq!(stream.slice(), &toks);
    assert!(!stream.slice().finished());
    assert_eq!(stream.slice().first(), &toks[0]);
    let empty = TokenStream::new(Vec::new());
    assert!(empty.slice().finished());
}

#[test]
fn ast_span_and_is_var() {
    let local = AstNode::Local("x".to_string(), Span { start: 2, end: 4 });
    assert_eq!(local.span(), Span { start: 2, end: 4 });
    assert!(local.is_var());
    let cpy = AstNode::Cpy(Box::new(local), Span { start: 0, end: 4 });
    assert_eq!(cpy.span(), Span { start: 0, end: 4 });
    assert!(!cpy.is_var());
}
