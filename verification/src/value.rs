//! The values that parsers produce, and the fixed families of value
//! transformers and semantic checks that the combinators apply.
//!
//! The combinator library is untyped over one universal value: a leaf parser
//! yields token text, `chain` yields a pair, `repeated` yields a list, and
//! the grammar's `map` steps assemble syntax-tree nodes from those shapes.
//! Each transformer is one tag of [`MapFn`], so a parser's behaviour is a
//! plain value that the single interpreter in [`crate::parser`] gives a
//! meaning to.

use vstd::prelude::*;
use vstd::string::StringExecFns;

use crate::ast::args_view;
use crate::ast::lemma_args_view_push;
use crate::ast::ast_view;
use crate::ast::strings_view;
use crate::ast::AstNode;
use crate::ast::AstV;
use crate::ast::ParserErr;
use crate::ast::ParserErrV;
use crate::ast::Type;
use crate::ast::TypeV;
use crate::token::Span;

verus! {

/// A value produced by a successful parse.
#[derive(Debug, PartialEq)]
pub enum Val {
    /// No value, as from a matched keyword.
    Unit,
    /// The text of a matched token.
    Text(String),
    /// A source span, as paired with path elements.
    Sp(Span),
    /// A type annotation.
    Ty(Type),
    /// A syntax-tree node.
    Node(Box<AstNode>),
    /// The two results of `chain`.
    Pair(Box<Val>, Box<Val>),
    /// The results of `repeated` / `repeated_sep`.
    List(Vec<Val>),
}

/// The mathematical value of a [`Val`].
pub enum ValV {
    Unit,
    Text(Seq<char>),
    Sp(Span),
    Ty(TypeV),
    Node(Box<AstV>),
    Pair(Box<ValV>, Box<ValV>),
    List(Seq<ValV>),
}

/// The value of a [`Val`].
pub open spec fn val_view(v: Val) -> ValV
    decreases v,
{
    match v {
        Val::Unit => ValV::Unit,
        Val::Text(t) => ValV::Text(t@),
        Val::Sp(s) => ValV::Sp(s),
        Val::Ty(t) => ValV::Ty(t@),
        Val::Node(n) => ValV::Node(Box::new(ast_view(*n))),
        Val::Pair(a, b) => ValV::Pair(Box::new(val_view(*a)), Box::new(val_view(*b))),
        Val::List(items) => ValV::List(vals_view(items@)),
    }
}

/// The value of a list of [`Val`]s.
pub open spec fn vals_view(items: Seq<Val>) -> Seq<ValV>
    decreases items,
{
    if items.len() == 0 {
        Seq::empty()
    } else {
        seq![val_view(items[0])] + vals_view(items.drop_first())
    }
}

impl View for Val {
    type V = ValV;

    open spec fn view(&self) -> ValV {
        val_view(*self)
    }
}

/// `vals_view` maps the element view over the list.
pub proof fn lemma_vals_view_index(items: Seq<Val>)
    ensures
        vals_view(items).len() == items.len(),
        forall|i: int| 0 <= i < items.len() ==> vals_view(items)[i] == val_view(#[trigger] items[i]),
    decreases items.len(),
{
    if items.len() > 0 {
        lemma_vals_view_index(items.drop_first());
        assert(vals_view(items) == seq![val_view(items[0])] + vals_view(items.drop_first()));
        assert forall|i: int| 0 <= i < items.len() implies vals_view(items)[i] == val_view(
            #[trigger] items[i],
        ) by {
            if i > 0 {
                assert(items.drop_first()[i - 1] == items[i]);
                assert(vals_view(items.drop_first())[i - 1] == val_view(items.drop_first()[i - 1]));
            }
        }
    }
}

/// Appending one value appends its view.
pub proof fn lemma_vals_view_push(items: Seq<Val>, x: Val)
    ensures
        vals_view(items.push(x)) =~= vals_view(items).push(val_view(x)),
    decreases items.len(),
{
    if items.len() == 0 {
        assert(items.push(x).drop_first() =~= Seq::<Val>::empty());
        assert(items.push(x)[0] == x);
        assert(vals_view(items.push(x)) == seq![val_view(x)] + vals_view(
            items.push(x).drop_first(),
        ));
    } else {
        assert(items.push(x).drop_first() =~= items.drop_first().push(x));
        lemma_vals_view_push(items.drop_first(), x);
        assert(items.push(x)[0] == items[0]);
        assert(vals_view(items.push(x)) == seq![val_view(items[0])] + vals_view(
            items.drop_first().push(x),
        ));
        assert(vals_view(items) == seq![val_view(items[0])] + vals_view(items.drop_first()));
    }
}

/// The text of one element of a parsed identifier path.  A path element is
/// built as a span/text pair; any other shape reads as empty text.
pub open spec fn elem_text(v: ValV) -> Seq<char> {
    match v {
        ValV::Pair(_, b) => match *b {
            ValV::Text(t) => t,
            _ => Seq::empty(),
        },
        _ => Seq::empty(),
    }
}

/// The identifier texts of a parsed path list.
pub open spec fn path_texts(elems: Seq<ValV>) -> Seq<Seq<char>> {
    Seq::new(elems.len(), |i: int| elem_text(elems[i]))
}

/// One typed call argument.  An argument is built as a type/node pair; any
/// other shape reads as an empty placeholder, which the grammar never builds.
pub open spec fn call_arg(v: ValV) -> (TypeV, AstV) {
    match v {
        ValV::Pair(a, b) => match (*a, *b) {
            (ValV::Ty(t), ValV::Node(n)) => (t, *n),
            _ => arg_placeholder(),
        },
        _ => arg_placeholder(),
    }
}

/// The placeholder argument for a malformed call-argument value.
pub open spec fn arg_placeholder() -> (TypeV, AstV) {
    (
        TypeV::Unresolved(Seq::empty()),
        AstV::Error(
            ParserErrV { end_idx: 0, expected: Seq::empty(), next: None },
            Span { start: 0, end: 0 },
        ),
    )
}

/// The typed arguments of a parsed call-argument list.
pub open spec fn call_args(elems: Seq<ValV>) -> Seq<(TypeV, AstV)> {
    Seq::new(elems.len(), |i: int| call_arg(elems[i]))
}

/// The transformers that `map` and `map_range` can apply to a parsed value.
///
/// Each tag takes the value a sub-parser produced, together with the span it
/// consumed, to a new value; a value whose shape a tag does not recognize
/// passes through unchanged.  The grammar composes parsers so that each tag
/// only ever sees the shape it recognizes.
#[derive(Clone, Copy, Debug, PartialEq, Eq, Structural)]
pub enum MapFn {
    /// `(a, b)` to `a`.
    Fst,
    /// `(a, b)` to `b`.
    Snd,
    /// Identifier text to an unresolved type annotation.
    ToType,
    /// Any value to the pair of the consumed span and the value.
    WithSpan,
    /// `(sigil, name)` to a local variable reference.
    MkLocal,
    /// `(sigil, name)` to a global variable reference.
    MkGlobal,
    /// `(type text, literal text)` to a typed constant.
    MkConst,
    /// `(type text, literal text)` to a contiguous pointer offset.
    MkCPtrOffset,
    /// `(type text, path list)` to a structured pointer offset.
    MkSPtrOffset,
    /// `(type, (a, b))` to a typed addition.
    MkAdd,
    /// `(type, (a, b))` to a typed subtraction.
    MkSub,
    /// `(type, (a, b))` to a typed division.
    MkDiv,
    /// `(type, (a, b))` to a typed multiplication.
    MkMul,
    /// An atom to a copy operation.
    MkCpy,
    /// `((type, callee), argument list)` to a call.
    MkCall,
    /// `(type, atom)` to a return.
    MkRet,
    /// `(type, count atom)` to a stack allocation.
    MkStalloc,
    /// `(type, (pointer, offset))` to a pointer offset operation.
    MkPtroffset,
    /// `(type, pointer atom)` to a load.
    MkLoad,
    /// `(type, (pointer, value))` to a store.
    MkStore,
    /// `(type, atom)` to a debug print.
    MkDbg,
    /// `(target, operation)` to an assignment.
    MkAssign,
}

/// What a [`MapFn`] tag does to a parsed value `v` whose consumed span is
/// `sp`.
pub open spec fn map_apply(f: MapFn, v: ValV, sp: Span) -> ValV {
    match f {
        MapFn::Fst => match v {
            ValV::Pair(a, _) => *a,
            _ => v,
        },
        MapFn::Snd => match v {
            ValV::Pair(_, b) => *b,
            _ => v,
        },
        MapFn::ToType => match v {
            ValV::Text(t) => ValV::Ty(TypeV::Unresolved(t)),
            _ => v,
        },
        MapFn::WithSpan => ValV::Pair(Box::new(ValV::Sp(sp)), Box::new(v)),
        MapFn::MkLocal => match v {
            ValV::Pair(_, b) => match *b {
                ValV::Text(name) => ValV::Node(Box::new(AstV::Local(name, sp))),
                _ => v,
            },
            _ => v,
        },
        MapFn::MkGlobal => match v {
            ValV::Pair(_, b) => match *b {
                ValV::Text(name) => ValV::Node(Box::new(AstV::Global(name, sp))),
                _ => v,
            },
            _ => v,
        },
        MapFn::MkConst => match v {
            ValV::Pair(a, b) => match (*a, *b) {
                (ValV::Text(ty), ValV::Text(lit)) => ValV::Node(
                    Box::new(AstV::Const(TypeV::Unresolved(ty), lit, sp)),
                ),
                _ => v,
            },
            _ => v,
        },
        MapFn::MkCPtrOffset => match v {
            ValV::Pair(a, b) => match (*a, *b) {
                (ValV::Text(ty), ValV::Text(lit)) => ValV::Node(
                    Box::new(AstV::CPtrOffset(TypeV::Unresolved(ty), lit, sp)),
                ),
                _ => v,
            },
            _ => v,
        },
        MapFn::MkSPtrOffset => match v {
            ValV::Pair(a, b) => match (*a, *b) {
                (ValV::Text(ty), ValV::List(elems)) => ValV::Node(
                    Box::new(AstV::SPtrOffset(TypeV::Unresolved(ty), path_texts(elems), sp)),
                ),
                _ => v,
            },
            _ => v,
        },
        MapFn::MkAdd => match bin_parts(v) {
            Some((t, a, b)) => ValV::Node(Box::new(AstV::Add(t, Box::new(a), Box::new(b), sp))),
            None => v,
        },
        MapFn::MkSub => match bin_parts(v) {
            Some((t, a, b)) => ValV::Node(Box::new(AstV::Sub(t, Box::new(a), Box::new(b), sp))),
            None => v,
        },
        MapFn::MkDiv => match bin_parts(v) {
            Some((t, a, b)) => ValV::Node(Box::new(AstV::Div(t, Box::new(a), Box::new(b), sp))),
            None => v,
        },
        MapFn::MkMul => match bin_parts(v) {
            Some((t, a, b)) => ValV::Node(Box::new(AstV::Mul(t, Box::new(a), Box::new(b), sp))),
            None => v,
        },
        MapFn::MkCpy => match v {
            ValV::Node(n) => ValV::Node(Box::new(AstV::Cpy(n, sp))),
            _ => v,
        },
        MapFn::MkCall => match v {
            ValV::Pair(a, b) => match (*a, *b) {
                (ValV::Pair(t, f0), ValV::List(args)) => match (*t, *f0) {
                    (ValV::Ty(ty), ValV::Node(callee)) => ValV::Node(
                        Box::new(AstV::Call(ty, callee, call_args(args), sp)),
                    ),
                    _ => v,
                },
                _ => v,
            },
            _ => v,
        },
        MapFn::MkRet => match ty_node_parts(v) {
            Some((t, a)) => ValV::Node(Box::new(AstV::Ret(t, Box::new(a), sp))),
            None => v,
        },
        MapFn::MkStalloc => match ty_node_parts(v) {
            Some((t, a)) => ValV::Node(Box::new(AstV::Stalloc(t, Box::new(a), sp))),
            None => v,
        },
        MapFn::MkPtroffset => match bin_parts(v) {
            Some((t, a, b)) => ValV::Node(
                Box::new(AstV::Ptroffset(t, Box::new(a), Box::new(b), sp)),
            ),
            None => v,
        },
        MapFn::MkLoad => match ty_node_parts(v) {
            Some((t, a)) => ValV::Node(Box::new(AstV::Load(t, Box::new(a), sp))),
            None => v,
        },
        MapFn::MkStore => match bin_parts(v) {
            Some((t, a, b)) => ValV::Node(Box::new(AstV::Store(t, Box::new(a), Box::new(b), sp))),
            None => v,
        },
        MapFn::MkDbg => match ty_node_parts(v) {
            Some((t, a)) => ValV::Node(Box::new(AstV::Dbg(t, Box::new(a), sp))),
            None => v,
        },
        MapFn::MkAssign => match v {
            ValV::Pair(a, b) => match (*a, *b) {
                (ValV::Node(lhs), ValV::Node(rhs)) => ValV::Node(
                    Box::new(AstV::Equals(lhs, rhs, sp)),
                ),
                _ => v,
            },
            _ => v,
        },
    }
}

/// The `(type, (a, b))` shape the binary operations are built from.
pub open spec fn bin_parts(v: ValV) -> Option<(TypeV, AstV, AstV)> {
    match v {
        ValV::Pair(t, ops) => match (*t, *ops) {
            (ValV::Ty(ty), ValV::Pair(a, b)) => match (*a, *b) {
                (ValV::Node(x), ValV::Node(y)) => Some((ty, *x, *y)),
                _ => None,
            },
            _ => None,
        },
        _ => None,
    }
}

/// The `(type, node)` shape the unary operations are built from.
pub open spec fn ty_node_parts(v: ValV) -> Option<(TypeV, AstV)> {
    match v {
        ValV::Pair(t, a) => match (*t, *a) {
            (ValV::Ty(ty), ValV::Node(x)) => Some((ty, *x)),
            _ => None,
        },
        _ => None,
    }
}

/// The semantic checks that `check` can apply to a parsed value.
#[derive(Clone, Copy, Debug, PartialEq, Eq, Structural)]
pub enum CheckFn {
    /// Accept only a plain variable reference, as required left of `=`.
    IsVar,
}

/// What a [`CheckFn`] tag reports of a parsed value: `None` to accept, or the
/// expectation text of the rejection.
pub open spec fn check_apply(c: CheckFn, v: ValV) -> Option<Seq<char>> {
    match c {
        CheckFn::IsVar => match v {
            ValV::Node(n) => if n.spec_is_var() {
                None
            } else {
                Some("Variable"@)
            },
            _ => Some("Variable"@),
        },
    }
}

/// The value of an optional expectation text.
pub open spec fn opt_text_view(r: Option<String>) -> Option<Seq<char>> {
    match r {
        Some(s) => Some(s@),
        None => None,
    }
}

/// Runs a [`CheckFn`] tag on a parsed value.
pub fn run_check(c: CheckFn, v: &Val) -> (r: Option<String>)
    ensures
        opt_text_view(r) == check_apply(c, v@),
{
    match c {
        CheckFn::IsVar => match v {
            Val::Node(n) => if n.is_var() {
                None
            } else {
                Some(String::from_str("Variable"))
            },
            _ => Some(String::from_str("Variable")),
        },
    }
}

/// Splits the `(type, (a, b))` shape of a binary operation, or returns the
/// value unchanged.
fn split_bin(v: Val) -> (r: Result<(Type, Box<AstNode>, Box<AstNode>), Val>)
    ensures
        match r {
            Ok(t) => bin_parts(v@) == Some((t.0@, ast_view(*t.1), ast_view(*t.2))),
            Err(v2) => v2@ == v@ && bin_parts(v@) is None,
        },
{
    proof {
        reveal_with_fuel(val_view, 5);
    }
    match v {
        Val::Pair(t, ops) => match (*t, *ops) {
            (Val::Ty(ty), Val::Pair(a, b)) => match (*a, *b) {
                (Val::Node(x), Val::Node(y)) => Ok((ty, x, y)),
                (a2, b2) => Err(
                    Val::Pair(
                        Box::new(Val::Ty(ty)),
                        Box::new(Val::Pair(Box::new(a2), Box::new(b2))),
                    ),
                ),
            },
            (t2, ops2) => Err(Val::Pair(Box::new(t2), Box::new(ops2))),
        },
        other => Err(other),
    }
}

/// Splits the `(type, node)` shape of a unary operation, or returns the value
/// unchanged.
fn split_ty_node(v: Val) -> (r: Result<(Type, Box<AstNode>), Val>)
    ensures
        match r {
            Ok(t) => ty_node_parts(v@) == Some((t.0@, ast_view(*t.1))),
            Err(v2) => v2@ == v@ && ty_node_parts(v@) is None,
        },
{
    proof {
        reveal_with_fuel(val_view, 5);
    }
    match v {
        Val::Pair(t, a) => match (*t, *a) {
            (Val::Ty(ty), Val::Node(x)) => Ok((ty, x)),
            (t2, a2) => Err(Val::Pair(Box::new(t2), Box::new(a2))),
        },
        other => Err(other),
    }
}

/// Reads the identifier texts out of a parsed path list.
fn path_strings(elems: &Vec<Val>) -> (r: Vec<String>)
    ensures
        strings_view(r@) =~= path_texts(vals_view(elems@)),
{
    let mut out: Vec<String> = Vec::new();
    let mut i: usize = 0;
    proof {
        lemma_vals_view_index(elems@);
    }
    while i < elems.len()
        invariant
            i <= elems.len(),
            out@.len() == i,
            forall|j: int|
                0 <= j < i ==> #[trigger] out@[j]@ == path_texts(vals_view(elems@))[j],
        decreases elems@.len() - i,
    {
        proof {
            lemma_vals_view_index(elems@);
            reveal_with_fuel(val_view, 3);
        }
        let text = match &elems[i] {
            Val::Pair(_, b) => match &**b {
                Val::Text(t) => t.clone(),
                _ => String::new(),
            },
            _ => String::new(),
        };
        out.push(text);
        i = i + 1;
    }
    proof {
        lemma_vals_view_index(elems@);
        assert(strings_view(out@) =~= path_texts(vals_view(elems@)));
    }
    out
}

/// The placeholder argument for a malformed call-argument value, which the
/// grammar never builds.
fn placeholder_arg() -> (r: (Type, AstNode))
    ensures
        (r.0@, ast_view(r.1)) == arg_placeholder(),
{
    (
        Type::Unresolved(String::new()),
        AstNode::Error(
            ParserErr { end_idx: 0, expected: String::new(), next: None },
            Span { start: 0, end: 0 },
        ),
    )
}

/// Turns a parsed call-argument list into typed arguments.
fn build_call_args(elems: Vec<Val>) -> (r: Vec<(Type, AstNode)>)
    ensures
        args_view(r@) =~= call_args(vals_view(elems@)),
{
    let ghost orig = elems@;
    let mut rest = elems;
    let mut out: Vec<(Type, AstNode)> = Vec::new();
    proof {
        lemma_vals_view_index(orig);
    }
    while rest.len() > 0
        invariant
            out@.len() + rest@.len() == orig.len(),
            rest@ =~= orig.subrange(out@.len() as int, orig.len() as int),
            args_view(out@) =~= call_args(vals_view(orig)).subrange(0, out@.len() as int),
        decreases rest@.len(),
    {
        let ghost k = out@.len() as int;
        let e = rest.remove(0);
        proof {
            lemma_vals_view_index(orig);
            reveal_with_fuel(val_view, 3);
            assert(e == orig[k]);
            assert(rest@ =~= orig.subrange(k + 1, orig.len() as int));
        }
        let arg = match e {
            Val::Pair(a, b) => match (*a, *b) {
                (Val::Ty(t), Val::Node(n)) => (t, *n),
                _ => placeholder_arg(),
            },
            _ => placeholder_arg(),
        };
        proof {
            assert((arg.0@, ast_view(arg.1)) == call_arg(vals_view(orig)[k]));
            lemma_args_view_push(out@, arg);
        }
        out.push(arg);
        proof {
            assert(args_view(out@) =~= call_args(vals_view(orig)).subrange(0, out@.len() as int));
        }
    }
    proof {
        assert(args_view(out@) =~= call_args(vals_view(orig)));
    }
    out
}

/// Runs a [`MapFn`] tag on a parsed value `v` whose consumed span is `sp`.
pub fn run_map(f: MapFn, v: Val, sp: Span) -> (r: Val)
    ensures
        r@ == map_apply(f, v@, sp),
{
    proof {
        reveal_with_fuel(val_view, 5);
    }
    match f {
        MapFn::Fst => match v {
            Val::Pair(a, _) => *a,
            other => other,
        },
        MapFn::Snd => match v {
            Val::Pair(_, b) => *b,
            other => other,
        },
        MapFn::ToType => match v {
            Val::Text(t) => Val::Ty(Type::Unresolved(t)),
            other => other,
        },
        MapFn::WithSpan => Val::Pair(Box::new(Val::Sp(sp)), Box::new(v)),
        MapFn::MkLocal => match v {
            Val::Pair(a, b) => match *b {
                Val::Text(name) => Val::Node(Box::new(AstNode::Local(name, sp))),
                b2 => Val::Pair(a, Box::new(b2)),
            },
            other => other,
        },
        MapFn::MkGlobal => match v {
            Val::Pair(a, b) => match *b {
                Val::Text(name) => Val::Node(Box::new(AstNode::Global(name, sp))),
                b2 => Val::Pair(a, Box::new(b2)),
            },
            other => other,
        },
        MapFn::MkConst => match v {
            Val::Pair(a, b) => match (*a, *b) {
                (Val::Text(ty), Val::Text(lit)) => Val::Node(
                    Box::new(AstNode::Const(Type::Unresolved(ty), lit, sp)),
                ),
                (a2, b2) => Val::Pair(Box::new(a2), Box::new(b2)),
            },
            other => other,
        },
        MapFn::MkCPtrOffset => match v {
            Val::Pair(a, b) => match (*a, *b) {
                (Val::Text(ty), Val::Text(lit)) => Val::Node(
                    Box::new(AstNode::CPtrOffset(Type::Unresolved(ty), lit, sp)),
                ),
                (a2, b2) => Val::Pair(Box::new(a2), Box::new(b2)),
            },
            other => other,
        },
        MapFn::MkSPtrOffset => match v {
            Val::Pair(a, b) => match (*a, *b) {
                (Val::Text(ty), Val::List(elems)) => {
                    let path = path_strings(&elems);
                    Val::Node(Box::new(AstNode::SPtrOffset(Type::Unresolved(ty), path, sp)))
                },
                (a2, b2) => Val::Pair(Box::new(a2), Box::new(b2)),
            },
            other => other,
        },
        MapFn::MkAdd => match split_bin(v) {
            Ok((t, a, b)) => Val::Node(Box::new(AstNode::Add(t, a, b, sp))),
            Err(v2) => v2,
        },
        MapFn::MkSub => match split_bin(v) {
            Ok((t, a, b)) => Val::Node(Box::new(AstNode::Sub(t, a, b, sp))),
            Err(v2) => v2,
        },
        MapFn::MkDiv => match split_bin(v) {
            Ok((t, a, b)) => Val::Node(Box::new(AstNode::Div(t, a, b, sp))),
            Err(v2) => v2,
        },
        MapFn::MkMul => match split_bin(v) {
            Ok((t, a, b)) => Val::Node(Box::new(AstNode::Mul(t, a, b, sp))),
            Err(v2) => v2,
        },
        MapFn::MkCpy => match v {
            Val::Node(n) => Val::Node(Box::new(AstNode::Cpy(n, sp))),
            other => other,
        },
        MapFn::MkCall => match v {
            Val::Pair(a, b) => match (*a, *b) {
                (Val::Pair(t, f0), Val::List(elems)) => match (*t, *f0) {
                    (Val::Ty(ty), Val::Node(callee)) => {
                        let argv = build_call_args(elems);
                        Val::Node(Box::new(AstNode::Call(ty, callee, argv, sp)))
                    },
                    (t2, f2) => Val::Pair(
                        Box::new(Val::Pair(Box::new(t2), Box::new(f2))),
                        Box::new(Val::List(elems)),
                    ),
                },
                (a2, b2) => Val::Pair(Box::new(a2), Box::new(b2)),
            },
            other => other,
        },
        MapFn::MkRet => match split_ty_node(v) {
            Ok((t, a)) => Val::Node(Box::new(AstNode::Ret(t, a, sp))),
            Err(v2) => v2,
        },
        MapFn::MkStalloc => match split_ty_node(v) {
            Ok((t, a)) => Val::Node(Box::new(AstNode::Stalloc(t, a, sp))),
            Err(v2) => v2,
        },
        MapFn::MkPtroffset => match split_bin(v) {
            Ok((t, a, b)) => Val::Node(Box::new(AstNode::Ptroffset(t, a, b, sp))),
            Err(v2) => v2,
        },
        MapFn::MkLoad => match split_ty_node(v) {
            Ok((t, a)) => Val::Node(Box::new(AstNode::Load(t, a, sp))),
            Err(v2) => v2,
        },
        MapFn::MkStore => match split_bin(v) {
            Ok((t, a, b)) => Val::Node(Box::new(AstNode::Store(t, a, b, sp))),
            Err(v2) => v2,
        },
        MapFn::MkDbg => match split_ty_node(v) {
            Ok((t, a)) => Val::Node(Box::new(AstNode::Dbg(t, a, sp))),
            Err(v2) => v2,
        },
        MapFn::MkAssign => match v {
            Val::Pair(a, b) => match (*a, *b) {
                (Val::Node(lhs), Val::Node(rhs)) => Val::Node(
                    Box::new(AstNode::Equals(lhs, rhs, sp)),
                ),
                (a2, b2) => Val::Pair(Box::new(a2), Box::new(b2)),
            },
            other => other,
        },
    }
}

} // verus!
