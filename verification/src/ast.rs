//! The abstract syntax tree of the instruction language, the failure
//! descriptor that a parse reports, and their mathematical values.
//!
//! Every node carries the [`Span`] of source it was parsed from.  Types are
//! left unresolved by the grammar: resolving an identifier such as `u32` to a
//! concrete width is a later pass's job, so the grammar only ever builds
//! [`Type::Unresolved`].

use vstd::prelude::*;

use crate::token::Span;
use crate::token::Tok;

verus! {

/// The width of a fixed-size machine type, in bits.
#[derive(Clone, Copy, PartialEq, Eq, Structural, Debug)]
pub enum TypeSize {
    _8,
    _16,
    _32,
    _64,
}

/// A type annotation: a fixed-width integer or float, a resolved alias, or a
/// forward reference carrying raw identifier text, pending a later resolution
/// pass.
#[derive(Debug, PartialEq)]
pub enum Type {
    I(TypeSize),
    U(TypeSize),
    F(TypeSize),
    Ref(String),
    Unresolved(String),
}

/// The mathematical value of a [`Type`].
pub enum TypeV {
    I(TypeSize),
    U(TypeSize),
    F(TypeSize),
    Ref(Seq<char>),
    Unresolved(Seq<char>),
}

impl View for Type {
    type V = TypeV;

    open spec fn view(&self) -> TypeV {
        match self {
            Type::I(s) => TypeV::I(*s),
            Type::U(s) => TypeV::U(*s),
            Type::F(s) => TypeV::F(*s),
            Type::Ref(t) => TypeV::Ref(t@),
            Type::Unresolved(t) => TypeV::Unresolved(t@),
        }
    }
}

/// The failure descriptor of a parse: the furthest byte offset any attempted
/// alternative reached, a description of what was wanted there (possibly a
/// merged list from several alternatives), and the offending token with its
/// text, if any.
#[derive(Debug, PartialEq)]
pub struct ParserErr {
    pub end_idx: usize,
    pub expected: String,
    pub next: Option<(Tok, String)>,
}

/// The mathematical value of a [`ParserErr`].
pub struct ParserErrV {
    pub end_idx: int,
    pub expected: Seq<char>,
    pub next: Option<(Tok, Seq<char>)>,
}

impl View for ParserErr {
    type V = ParserErrV;

    open spec fn view(&self) -> ParserErrV {
        ParserErrV {
            end_idx: self.end_idx as int,
            expected: self.expected@,
            next: match &self.next {
                Some(p) => Some((p.0, p.1@)),
                None => None,
            },
        }
    }
}

/// One node of the syntax tree.  Each variant carries its own consumed span
/// and typed operands.
///
/// `Error` is a placeholder for a statement that failed to parse; the grammar
/// in this crate aborts the whole parse on the first unrecoverable mismatch
/// and never produces it, but it is part of the data model for callers that
/// build recovering parsers from [`crate::parser::match_until`].
#[derive(Debug, PartialEq)]
pub enum AstNode {
    Error(ParserErr, Span),
    Local(String, Span),
    Global(String, Span),
    Const(Type, String, Span),
    CPtrOffset(Type, String, Span),
    SPtrOffset(Type, Vec<String>, Span),
    Cpy(Box<AstNode>, Span),
    Add(Type, Box<AstNode>, Box<AstNode>, Span),
    Sub(Type, Box<AstNode>, Box<AstNode>, Span),
    Div(Type, Box<AstNode>, Box<AstNode>, Span),
    Mul(Type, Box<AstNode>, Box<AstNode>, Span),
    Call(Type, Box<AstNode>, Vec<(Type, AstNode)>, Span),
    Ret(Type, Box<AstNode>, Span),
    Stalloc(Type, Box<AstNode>, Span),
    Ptroffset(Type, Box<AstNode>, Box<AstNode>, Span),
    Load(Type, Box<AstNode>, Span),
    Store(Type, Box<AstNode>, Box<AstNode>, Span),
    Dbg(Type, Box<AstNode>, Span),
    Equals(Box<AstNode>, Box<AstNode>, Span),
}

/// The mathematical value of an [`AstNode`].
pub enum AstV {
    Error(ParserErrV, Span),
    Local(Seq<char>, Span),
    Global(Seq<char>, Span),
    Const(TypeV, Seq<char>, Span),
    CPtrOffset(TypeV, Seq<char>, Span),
    SPtrOffset(TypeV, Seq<Seq<char>>, Span),
    Cpy(Box<AstV>, Span),
    Add(TypeV, Box<AstV>, Box<AstV>, Span),
    Sub(TypeV, Box<AstV>, Box<AstV>, Span),
    Div(TypeV, Box<AstV>, Box<AstV>, Span),
    Mul(TypeV, Box<AstV>, Box<AstV>, Span),
    Call(TypeV, Box<AstV>, Seq<(TypeV, AstV)>, Span),
    Ret(TypeV, Box<AstV>, Span),
    Stalloc(TypeV, Box<AstV>, Span),
    Ptroffset(TypeV, Box<AstV>, Box<AstV>, Span),
    Load(TypeV, Box<AstV>, Span),
    Store(TypeV, Box<AstV>, Box<AstV>, Span),
    Dbg(TypeV, Box<AstV>, Span),
    Equals(Box<AstV>, Box<AstV>, Span),
}

/// The value of a list of identifiers, as in a structured pointer path.
pub open spec fn strings_view(v: Seq<String>) -> Seq<Seq<char>> {
    Seq::new(v.len(), |i: int| v[i]@)
}

/// The value of a syntax tree node.
pub open spec fn ast_view(n: AstNode) -> AstV
    decreases n,
{
    match n {
        AstNode::Error(e, r) => AstV::Error(e@, r),
        AstNode::Local(t, r) => AstV::Local(t@, r),
        AstNode::Global(t, r) => AstV::Global(t@, r),
        AstNode::Const(ty, t, r) => AstV::Const(ty@, t@, r),
        AstNode::CPtrOffset(ty, t, r) => AstV::CPtrOffset(ty@, t@, r),
        AstNode::SPtrOffset(ty, p, r) => AstV::SPtrOffset(ty@, strings_view(p@), r),
        AstNode::Cpy(a, r) => AstV::Cpy(Box::new(ast_view(*a)), r),
        AstNode::Add(ty, a, b, r) => AstV::Add(
            ty@,
            Box::new(ast_view(*a)),
            Box::new(ast_view(*b)),
            r,
        ),
        AstNode::Sub(ty, a, b, r) => AstV::Sub(
            ty@,
            Box::new(ast_view(*a)),
            Box::new(ast_view(*b)),
            r,
        ),
        AstNode::Div(ty, a, b, r) => AstV::Div(
            ty@,
            Box::new(ast_view(*a)),
            Box::new(ast_view(*b)),
            r,
        ),
        AstNode::Mul(ty, a, b, r) => AstV::Mul(
            ty@,
            Box::new(ast_view(*a)),
            Box::new(ast_view(*b)),
            r,
        ),
        AstNode::Call(ty, f, args, r) => AstV::Call(
            ty@,
            Box::new(ast_view(*f)),
            args_view(args@),
            r,
        ),
        AstNode::Ret(ty, a, r) => AstV::Ret(ty@, Box::new(ast_view(*a)), r),
        AstNode::Stalloc(ty, a, r) => AstV::Stalloc(ty@, Box::new(ast_view(*a)), r),
        AstNode::Ptroffset(ty, a, b, r) => AstV::Ptroffset(
            ty@,
            Box::new(ast_view(*a)),
            Box::new(ast_view(*b)),
            r,
        ),
        AstNode::Load(ty, a, r) => AstV::Load(ty@, Box::new(ast_view(*a)), r),
        AstNode::Store(ty, a, b, r) => AstV::Store(
            ty@,
            Box::new(ast_view(*a)),
            Box::new(ast_view(*b)),
            r,
        ),
        AstNode::Dbg(ty, a, r) => AstV::Dbg(ty@, Box::new(ast_view(*a)), r),
        AstNode::Equals(a, b, r) => AstV::Equals(
            Box::new(ast_view(*a)),
            Box::new(ast_view(*b)),
            r,
        ),
    }
}

/// The value of a typed argument list, as in a call node.
pub open spec fn args_view(args: Seq<(Type, AstNode)>) -> Seq<(TypeV, AstV)>
    decreases args,
{
    if args.len() == 0 {
        Seq::empty()
    } else {
        seq![(args[0].0@, ast_view(args[0].1))] + args_view(args.drop_first())
    }
}

impl View for AstNode {
    type V = AstV;

    open spec fn view(&self) -> AstV {
        ast_view(*self)
    }
}

/// Appending one argument appends its view.
pub proof fn lemma_args_view_push(args: Seq<(Type, AstNode)>, x: (Type, AstNode))
    ensures
        args_view(args.push(x)) =~= args_view(args).push((x.0@, ast_view(x.1))),
    decreases args.len(),
{
    if args.len() == 0 {
        assert(args.push(x).drop_first() =~= Seq::<(Type, AstNode)>::empty());
        assert(args.push(x)[0] == x);
        assert(args_view(args.push(x)) == seq![(x.0@, ast_view(x.1))] + args_view(
            args.push(x).drop_first(),
        ));
    } else {
        assert(args.push(x).drop_first() =~= args.drop_first().push(x));
        lemma_args_view_push(args.drop_first(), x);
        assert(args.push(x)[0] == args[0]);
        assert(args_view(args.push(x)) == seq![(args[0].0@, ast_view(args[0].1))] + args_view(
            args.drop_first().push(x),
        ));
        assert(args_view(args) == seq![(args[0].0@, ast_view(args[0].1))] + args_view(
            args.drop_first(),
        ));
    }
}

impl AstV {
    /// The span a node value covers.
    pub open spec fn spec_span(self) -> Span {
        match self {
            AstV::Error(_, r) => r,
            AstV::Local(_, r) => r,
            AstV::Global(_, r) => r,
            AstV::Const(_, _, r) => r,
            AstV::CPtrOffset(_, _, r) => r,
            AstV::SPtrOffset(_, _, r) => r,
            AstV::Cpy(_, r) => r,
            AstV::Add(_, _, _, r) => r,
            AstV::Sub(_, _, _, r) => r,
            AstV::Div(_, _, _, r) => r,
            AstV::Mul(_, _, _, r) => r,
            AstV::Call(_, _, _, r) => r,
            AstV::Ret(_, _, r) => r,
            AstV::Stalloc(_, _, r) => r,
            AstV::Ptroffset(_, _, _, r) => r,
            AstV::Load(_, _, r) => r,
            AstV::Store(_, _, _, r) => r,
            AstV::Dbg(_, _, r) => r,
            AstV::Equals(_, _, r) => r,
        }
    }

    /// Whether a node value is a plain variable reference.
    pub open spec fn spec_is_var(self) -> bool {
        self is Local || self is Global
    }
}

impl AstNode {
    /// The span this node covers.
    pub fn span(&self) -> (r: Span)
        ensures
            r == self@.spec_span(),
    {
        match self {
            AstNode::Error(_, r) => *r,
            AstNode::Local(_, r) => *r,
            AstNode::Global(_, r) => *r,
            AstNode::Const(_, _, r) => *r,
            AstNode::CPtrOffset(_, _, r) => *r,
            AstNode::SPtrOffset(_, _, r) => *r,
            AstNode::Cpy(_, r) => *r,
            AstNode::Add(_, _, _, r) => *r,
            AstNode::Sub(_, _, _, r) => *r,
            AstNode::Div(_, _, _, r) => *r,
            AstNode::Mul(_, _, _, r) => *r,
            AstNode::Call(_, _, _, r) => *r,
            AstNode::Ret(_, _, r) => *r,
            AstNode::Stalloc(_, _, r) => *r,
            AstNode::Ptroffset(_, _, _, r) => *r,
            AstNode::Load(_, _, r) => *r,
            AstNode::Store(_, _, _, r) => *r,
            AstNode::Dbg(_, _, r) => *r,
            AstNode::Equals(_, _, r) => *r,
        }
    }

    /// Whether this node is a plain variable reference — a legal assignment
    /// target.
    pub fn is_var(&self) -> (r: bool)
        ensures
            r == self@.spec_is_var(),
    {
        match self {
            AstNode::Local(_, _) => true,
            AstNode::Global(_, _) => true,
            _ => false,
        }
    }
}

} // verus!
