//! Token-level scenarios for the grammar: whole statements, diagnostics, and
//! statement sequences.

use naklang::atom;
use naklang::op;
use naklang::stmt;
use naklang::AstNode;
use naklang::Parser;
use naklang::Span;
use naklang::Tok;
use naklang::Token;
use naklang::Type;
use naklang::Val;

fn tk(kind: Tok, start: usize, text: &str) -> Token {
    Token {
        kind,
        span: Span { start, end: start + text.len() },
        text: text.to_string(),
    }
}

fn sp(start: usize, end: usize) -> Span {
    Span { start, end }
}

/// `"&x = cpy !(u32) 5"`, lexed.
fn assign_cpy_tokens() -> Vec<Token> {
    vec![
        tk(Tok::Ampersand, 0, "&"),
        tk(Tok::Ident, 1, "x"),
        tk(Tok::Equals, 3, "="),
        tk(Tok::Ident, 5, "cpy"),
        tk(Tok::Bang, 9, "!"),
        tk(Tok::OpenBracket, 10, "("),
        tk(Tok::Ident, 11, "u32"),
        tk(Tok::CloseBracket, 14, ")"),
        tk(Tok::Number, 16, "5"),
    ]
}

#[test]
fn assign_cpy_const() {
    let toks = assign_cpy_tokens();
    let r = stmt().parse(&toks, 0).unwrap();
    let expected = AstNode::Equals(
        Box::new(AstNode::Local("x".to_string(), sp(0, 2))),
        Box::new(AstNode::Cpy(
            Box::new(AstNode::Const(
                Type::Unresolved("u32".to_string()),
                "5".to_string(),
                sp(9, 17),
            )),
            sp(5, 17),
        )),
        sp(0, 17),
    );
    assert_eq!(r.0, 9);
    assert_eq!(r.1, Val::Node(Box::new(expected)));
    // the whole input is spanned
    assert_eq!(r.2, sp(0, 17));
}

#[test]
fn add_of_two_locals() {
    // "add(u32) &a, &b" — a non-standalone operation
    let toks = vec![
        tk(Tok::Ident, 0, "add"),
        tk(Tok::OpenBracket, 3, "("),
        tk(Tok::Ident, 4, "u32"),
        tk(Tok::CloseBracket, 7, ")"),
        tk(Tok::Ampersand, 9, "&"),
        tk(Tok::Ident, 10, "a"),
        tk(Tok::Comma, 11, ","),
        tk(Tok::Ampersand, 13, "&"),
        tk(Tok::Ident, 14, "b"),
    ];
    let r = op(false).parse(&toks, 0).unwrap();
    let expected = AstNode::Add(
        Type::Unresolved("u32".to_string()),
        Box::new(AstNode::Local("a".to_string(), sp(9, 11))),
        Box::new(AstNode::Local("b".to_string(), sp(13, 15))),
        sp(0, 15),
    );
    assert_eq!(r.0, 9);
    assert_eq!(r.1, Val::Node(Box::new(expected)));
}

fn dbg_tokens(base: usize) -> Vec<Token> {
    vec![
        tk(Tok::Ident, base, "dbg"),
        tk(Tok::OpenBracket, base + 3, "("),
        tk(Tok::Ident, base + 4, "u32"),
        tk(Tok::CloseBracket, base + 7, ")"),
        tk(Tok::Ampersand, base + 9, "&"),
        tk(Tok::Ident, base + 10, "r"),
    ]
}

#[test]
fn dbg_standalone() {
    // "dbg(u32) &r"
    let toks = dbg_tokens(0);
    let r = stmt().parse(&toks, 0).unwrap();
    let expected = AstNode::Dbg(
        Type::Unresolved("u32".to_string()),
        Box::new(AstNode::Local("r".to_string(), sp(9, 11))),
        sp(0, 11),
    );
    assert_eq!(r.0, 6);
    assert_eq!(r.1, Val::Node(Box::new(expected)));
}

#[test]
fn missing_equals_reports_furthest_alternative() {
    // "&bad 5": the assignment alternative consumes past "&bad" before
    // failing, so its expectation wins over the standalone keywords that
    // failed at the very first token.
    let toks = vec![
        tk(Tok::Ampersand, 0, "&"),
        tk(Tok::Ident, 1, "bad"),
        tk(Tok::Number, 5, "5"),
    ];
    let e = stmt().parse(&toks, 0).unwrap_err();
    assert_eq!(e.expected, "Equals");
    assert_eq!(e.end_idx, 5);
    assert_eq!(e.next, Some((Tok::Number, "5".to_string())));
}

#[test]
fn leftover_tokens_fail_at_eof() {
    // a valid statement followed by stray tokens
    let mut toks = dbg_tokens(0);
    toks.push(tk(Tok::Ampersand, 12, "&"));
    toks.push(tk(Tok::Ident, 13, "r"));
    let e = stmt().repeated().eoi().parse(&toks, 0).unwrap_err();
    assert_eq!(e.expected, "EOF");
    assert_eq!(e.end_idx, 11);
    assert_eq!(e.next, Some((Tok::Ampersand, "&".to_string())));
}

#[test]
fn two_statements_consume_everything() {
    let mut toks = dbg_tokens(0);
    toks.extend(dbg_tokens(12));
    let r = stmt().repeated().eoi().parse(&toks, 0).unwrap();
    assert_eq!(r.0, 12);
    match r.1 {
        Val::List(items) => {
            assert_eq!(items.len(), 2);
            for item in &items {
                assert!(matches!(item, Val::Node(n) if matches!(**n, AstNode::Dbg(..))));
            }
        },
        other => panic!("expected a statement list, got {:?}", other),
    }
    assert_eq!(r.2, sp(0, 23));
}

#[test]
fn assignment_target_must_be_variable() {
    // "!(u32) 7 = cpy &a": a constant is not assignable, and the rejection is
    // a semantic one at the end of the consumed atom, not a leaf mismatch.
    let toks = vec![
        tk(Tok::Bang, 0, "!"),
        tk(Tok::OpenBracket, 1, "("),
        tk(Tok::Ident, 2, "u32"),
        tk(Tok::CloseBracket, 5, ")"),
        tk(Tok::Number, 7, "7"),
        tk(Tok::Equals, 9, "="),
        tk(Tok::Ident, 11, "cpy"),
        tk(Tok::Ampersand, 15, "&"),
        tk(Tok::Ident, 16, "a"),
    ];
    let e = stmt().parse(&toks, 0).unwrap_err();
    assert_eq!(e.expected, "Variable");
    assert_eq!(e.end_idx, 8);
    assert_eq!(e.next, None);
}

#[test]
fn sptroffset_collects_path() {
    // "sptroffset vec, field, inner"
    let toks = vec![
        tk(Tok::Ident, 0, "sptroffset"),
        tk(Tok::Ident, 11, "vec"),
        tk(Tok::Comma, 14, ","),
        tk(Tok::Ident, 16, "field"),
        tk(Tok::Comma, 21, ","),
        tk(Tok::Ident, 23, "inner"),
    ];
    let r = atom().parse(&toks, 0).unwrap();
    let expected = AstNode::SPtrOffset(
        Type::Unresolved("vec".to_string()),
        vec!["field".to_string(), "inner".to_string()],
        sp(0, 28),
    );
    assert_eq!(r.0, 6);
    assert_eq!(r.1, Val::Node(Box::new(expected)));
}

#[test]
fn call_with_typed_arguments() {
    // "call(u32) $f u32 &a, u32 &b"
    let toks = vec![
        tk(Tok::Ident, 0, "call"),
        tk(Tok::OpenBracket, 4, "("),
        tk(Tok::Ident, 5, "u32"),
        tk(Tok::CloseBracket, 8, ")"),
        tk(Tok::Dollar, 10, "$"),
        tk(Tok::Ident, 11, "f"),
        tk(Tok::Ident, 13, "u32"),
        tk(Tok::Ampersand, 17, "&"),
        tk(Tok::Ident, 18, "a"),
        tk(Tok::Comma, 19, ","),
        tk(Tok::Ident, 21, "u32"),
        tk(Tok::Ampersand, 25, "&"),
        tk(Tok::Ident, 26, "b"),
    ];
    let r = stmt().parse(&toks, 0).unwrap();
    let expected = AstNode::Call(
        Type::Unresolved("u32".to_string()),
        Box::new(AstNode::Global("f".to_string(), sp(10, 12))),
        vec![
            (
                Type::Unresolved("u32".to_string()),
                AstNode::Local("a".to_string(), sp(17, 19)),
            ),
            (
                Type::Unresolved("u32".to_string()),
                AstNode::Local("b".to_string(), sp(25, 27)),
            ),
        ],
        sp(0, 27),
    );
    assert_eq!(r.0, 13);
    assert_eq!(r.1, Val::Node(Box::new(expected)));
}
