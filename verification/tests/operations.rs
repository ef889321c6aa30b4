//! The remaining operation forms, and the failure taxonomy: lexical errors,
//! grammar mismatches, and fully merged diagnostics.

use naklang::atom;
use naklang::stmt;
use naklang::AstNode;
use naklang::Parser;
use naklang::Span;
use naklang::Tok;
use naklang::Token;
use naklang::Type;
use naklang::Val;

fn tk(kind: Tok, start: usize, text: &str) -> Token {
    Token {
        kind,
        span: Span { start, end: start + text.len() },
        text: text.to_string(),
    }
}

fn sp(start: usize, end: usize) -> Span {
    Span { start, end }
}

fn local(name: &str, start: usize) -> AstNode {
    AstNode::Local(name.to_string(), sp(start, start + 1 + name.len()))
}

fn u32ty() -> Type {
    Type::Unresolved("u32".to_string())
}

#[test]
fn ret_statement() {
    // "ret(u32) &a"
    let toks = vec![
        tk(Tok::Ident, 0, "ret"),
        tk(Tok::OpenBracket, 3, "("),
        tk(Tok::Ident, 4, "u32"),
        tk(Tok::CloseBracket, 7, ")"),
        tk(Tok::Ampersand, 9, "&"),
        tk(Tok::Ident, 10, "a"),
    ];
    let r = stmt().parse(&toks, 0).unwrap();
    let expected = AstNode::Ret(u32ty(), Box::new(local("a", 9)), sp(0, 11));
    assert_eq!(r.1, Val::Node(Box::new(expected)));
}

#[test]
fn store_statement() {
    // "store(u32) ptr &p, &v"
    let toks = vec![
        tk(Tok::Ident, 0, "store"),
        tk(Tok::OpenBracket, 5, "("),
        tk(Tok::Ident, 6, "u32"),
        tk(Tok::CloseBracket, 9, ")"),
        tk(Tok::Ident, 11, "ptr"),
        tk(Tok::Ampersand, 15, "&"),
        tk(Tok::Ident, 16, "p"),
        tk(Tok::Comma, 17, ","),
        tk(Tok::Ampersand, 19, "&"),
        tk(Tok::Ident, 20, "v"),
    ];
    let r = stmt().parse(&toks, 0).unwrap();
    let expected = AstNode::Store(
        u32ty(),
        Box::new(local("p", 15)),
        Box::new(local("v", 19)),
        sp(0, 21),
    );
    assert_eq!(r.0, 10);
    assert_eq!(r.1, Val::Node(Box::new(expected)));
}

#[test]
fn stalloc_assignment() {
    // "&x = stalloc u32 times !(u32) 4"
    let toks = vec![
        tk(Tok::Ampersand, 0, "&"),
        tk(Tok::Ident, 1, "x"),
        tk(Tok::Equals, 3, "="),
        tk(Tok::Ident, 5, "stalloc"),
        tk(Tok::Ident, 13, "u32"),
        tk(Tok::Ident, 17, "times"),
        tk(Tok::Bang, 23, "!"),
        tk(Tok::OpenBracket, 24, "("),
        tk(Tok::Ident, 25, "u32"),
        tk(Tok::CloseBracket, 28, ")"),
        tk(Tok::Number, 30, "4"),
    ];
    let r = stmt().parse(&toks, 0).unwrap();
    let expected = AstNode::Equals(
        Box::new(local("x", 0)),
        Box::new(AstNode::Stalloc(
            u32ty(),
            Box::new(AstNode::Const(u32ty(), "4".to_string(), sp(23, 31))),
            sp(5, 31),
        )),
        sp(0, 31),
    );
    assert_eq!(r.1, Val::Node(Box::new(expected)));
}

#[test]
fn load_assignment() {
    // "&p = load(u32) ptr &q"
    let toks = vec![
        tk(Tok::Ampersand, 0, "&"),
        tk(Tok::Ident, 1, "p"),
        tk(Tok::Equals, 3, "="),
        tk(Tok::Ident, 5, "load"),
        tk(Tok::OpenBracket, 9, "("),
        tk(Tok::Ident, 10, "u32"),
        tk(Tok::CloseBracket, 13, ")"),
        tk(Tok::Ident, 15, "ptr"),
        tk(Tok::Ampersand, 19, "&"),
        tk(Tok::Ident, 20, "q"),
    ];
    let r = stmt().parse(&toks, 0).unwrap();
    let expected = AstNode::Equals(
        Box::new(local("p", 0)),
        Box::new(AstNode::Load(u32ty(), Box::new(local("q", 19)), sp(5, 21))),
        sp(0, 21),
    );
    assert_eq!(r.1, Val::Node(Box::new(expected)));
}

#[test]
fn ptroffset_assignment() {
    // "&p = ptroffset(u32) ptr &q &i"
    let toks = vec![
        tk(Tok::Ampersand, 0, "&"),
        tk(Tok::Ident, 1, "p"),
        tk(Tok::Equals, 3, "="),
        tk(Tok::Ident, 5, "ptroffset"),
        tk(Tok::OpenBracket, 14, "("),
        tk(Tok::Ident, 15, "u32"),
        tk(Tok::CloseBracket, 18, ")"),
        tk(Tok::Ident, 20, "ptr"),
        tk(Tok::Ampersand, 24, "&"),
        tk(Tok::Ident, 25, "q"),
        tk(Tok::Ampersand, 27, "&"),
        tk(Tok::Ident, 28, "i"),
    ];
    let r = stmt().parse(&toks, 0).unwrap();
    let expected = AstNode::Equals(
        Box::new(local("p", 0)),
        Box::new(AstNode::Ptroffset(
            u32ty(),
            Box::new(local("q", 24)),
            Box::new(local("i", 27)),
            sp(5, 29),
        )),
        sp(0, 29),
    );
    assert_eq!(r.1, Val::Node(Box::new(expected)));
}

#[test]
fn cptroffset_atom_with_hex_literal() {
    // "cptroffset x, 0x10": the literal's raw text is kept for a later pass
    let toks = vec![
        tk(Tok::Ident, 0, "cptroffset"),
        tk(Tok::Ident, 11, "x"),
        tk(Tok::Comma, 12, ","),
        tk(Tok::Number, 14, "0x10"),
    ];
    let r = atom().parse(&toks, 0).unwrap();
    let expected = AstNode::CPtrOffset(
        Type::Unresolved("x".to_string()),
        "0x10".to_string(),
        sp(0, 18),
    );
    assert_eq!(r.0, 4);
    assert_eq!(r.1, Val::Node(Box::new(expected)));
}

#[test]
fn unrecognized_token_fails_to_match() {
    // a lexical error becomes an ordinary token that no rule accepts
    let toks = vec![
        tk(Tok::Ampersand, 0, "&"),
        tk(Tok::Unrecognized, 1, "#"),
    ];
    let e = atom().parse(&toks, 0).unwrap_err();
    assert_eq!(e.expected, "Ident");
    assert_eq!(e.end_idx, 1);
    assert_eq!(e.next, Some((Tok::Unrecognized, "#".to_string())));
}

#[test]
fn statement_mismatch_merges_all_alternatives() {
    // a lone number matches no statement form: every alternative fails on the
    // first token, so the tie merges all their expectations in order
    let toks = vec![tk(Tok::Number, 0, "7")];
    let e = stmt().parse(&toks, 0).unwrap_err();
    assert_eq!(
        e.expected,
        "call, ret, store, dbg, Ampersand, Dollar, Bang, cptroffset, sptroffset"
    );
    assert_eq!(e.end_idx, 0);
    assert_eq!(e.next, Some((Tok::Number, "7".to_string())));
}
