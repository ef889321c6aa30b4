//! The grammar of the instruction language, assembled entirely from the
//! combinator library.
//!
//! Each function returns the parser for one grammar production and is proved
//! to build exactly the description that its companion `*_desc` spec function
//! states, so everything [`crate::parser::spec_parse`] says of those
//! descriptions holds of the parsers built here.  The order of alternatives
//! in each choice chain affects only which failure stands before the
//! furthest-failure comparison — it never affects acceptance.

use vstd::prelude::*;

use crate::parser::d_chain;
use crate::parser::d_check;
use crate::parser::d_delimited;
use crate::parser::d_ignore_then;
use crate::parser::d_map;
use crate::parser::d_or;
use crate::parser::d_repeated_sep;
use crate::parser::d_then_ignore;
use crate::parser::reserved;
use crate::parser::tok;
use crate::parser::BoxedParser;
use crate::parser::DescV;
use crate::token::Tok;
use crate::value::CheckFn;
use crate::value::MapFn;

verus! {

/// A type annotation in brackets, as the operations other than the binary
/// arithmetic ones write it: the transformer sits inside the delimiters.
pub open spec fn ty_inner_desc() -> DescV {
    d_delimited(
        DescV::Tok(Tok::OpenBracket),
        d_map(DescV::Tok(Tok::Ident), MapFn::ToType),
        DescV::Tok(Tok::CloseBracket),
    )
}

/// A type annotation in brackets, as the binary arithmetic operations write
/// it: the transformer wraps the delimited identifier.
pub open spec fn ty_outer_desc() -> DescV {
    d_map(
        d_delimited(
            DescV::Tok(Tok::OpenBracket),
            DescV::Tok(Tok::Ident),
            DescV::Tok(Tok::CloseBracket),
        ),
        MapFn::ToType,
    )
}

/// The description that [`path`] builds.
pub open spec fn path_desc() -> DescV {
    d_repeated_sep(d_map(DescV::Tok(Tok::Ident), MapFn::WithSpan), DescV::Tok(Tok::Comma))
}

/// `path := ident ("," ident)*` — the named path of a structured pointer
/// offset, each element paired with its span.
pub fn path() -> (r: BoxedParser)
    ensures
        r@ == path_desc(),
{
    tok(Tok::Ident).map_range(MapFn::WithSpan).repeated_sep(tok(Tok::Comma))
}

/// The description that [`atom`] builds.
pub open spec fn atom_desc() -> DescV {
    let local = d_map(d_chain(DescV::Tok(Tok::Ampersand), DescV::Tok(Tok::Ident)), MapFn::MkLocal);
    let global = d_map(d_chain(DescV::Tok(Tok::Dollar), DescV::Tok(Tok::Ident)), MapFn::MkGlobal);
    let cst = d_map(
        d_chain(
            d_ignore_then(
                DescV::Tok(Tok::Bang),
                d_delimited(
                    DescV::Tok(Tok::OpenBracket),
                    DescV::Tok(Tok::Ident),
                    DescV::Tok(Tok::CloseBracket),
                ),
            ),
            DescV::Tok(Tok::Number),
        ),
        MapFn::MkConst,
    );
    let cptroffset = d_map(
        d_chain(
            d_then_ignore(
                d_ignore_then(DescV::Reserved("cptroffset"@), DescV::Tok(Tok::Ident)),
                DescV::Tok(Tok::Comma),
            ),
            DescV::Tok(Tok::Number),
        ),
        MapFn::MkCPtrOffset,
    );
    let sptroffset = d_map(
        d_chain(
            d_then_ignore(
                d_ignore_then(DescV::Reserved("sptroffset"@), DescV::Tok(Tok::Ident)),
                DescV::Tok(Tok::Comma),
            ),
            path_desc(),
        ),
        MapFn::MkSPtrOffset,
    );
    d_or(d_or(d_or(d_or(local, global), cst), cptroffset), sptroffset)
}

/// `atom := "&" ident | "$" ident | "!" "(" ident ")" number
///        | "cptroffset" ident "," number | "sptroffset" ident "," path`
/// — the terminal operand forms.
pub fn atom() -> (r: BoxedParser)
    ensures
        r@ == atom_desc(),
{
    let local = tok(Tok::Ampersand).chain(tok(Tok::Ident)).map_range(MapFn::MkLocal);
    let global = tok(Tok::Dollar).chain(tok(Tok::Ident)).map_range(MapFn::MkGlobal);
    let cst = tok(Tok::Bang).ignore_then(
        tok(Tok::Ident).delimited(tok(Tok::OpenBracket), tok(Tok::CloseBracket)),
    ).chain(tok(Tok::Number)).map_range(MapFn::MkConst);
    let cptroffset = reserved("cptroffset").ignore_then(tok(Tok::Ident)).then_ignore(
        tok(Tok::Comma),
    ).chain(tok(Tok::Number)).map_range(MapFn::MkCPtrOffset);
    let sptroffset = reserved("sptroffset").ignore_then(tok(Tok::Ident)).then_ignore(
        tok(Tok::Comma),
    ).chain(path()).map_range(MapFn::MkSPtrOffset);
    local.or(global).or(cst).or(cptroffset).or(sptroffset)
}

/// The description of one binary arithmetic operation:
/// `name "(" ident ")" atom "," atom`.
pub open spec fn binop_desc(name: Seq<char>, f: MapFn) -> DescV {
    d_map(
        d_chain(
            d_ignore_then(DescV::Reserved(name), ty_outer_desc()),
            d_chain(d_then_ignore(atom_desc(), DescV::Tok(Tok::Comma)), atom_desc()),
        ),
        f,
    )
}

/// One binary arithmetic operation.
fn binop(name: &str, f: MapFn) -> (r: BoxedParser)
    ensures
        r@ == binop_desc(name@, f),
{
    reserved(name).ignore_then(
        tok(Tok::Ident).delimited(tok(Tok::OpenBracket), tok(Tok::CloseBracket)).map(
            MapFn::ToType,
        ),
    ).chain(atom().then_ignore(tok(Tok::Comma)).chain(atom())).map_range(f)
}

/// The description that [`op`] builds.
pub open spec fn op_desc(standalone: bool) -> DescV {
    let call = d_map(
        d_chain(
            d_chain(
                d_ignore_then(DescV::Reserved("call"@), ty_inner_desc()),
                atom_desc(),
            ),
            d_repeated_sep(
                d_chain(d_map(DescV::Tok(Tok::Ident), MapFn::ToType), atom_desc()),
                DescV::Tok(Tok::Comma),
            ),
        ),
        MapFn::MkCall,
    );
    if !standalone {
        let stalloc = d_map(
            d_chain(
                d_then_ignore(
                    d_ignore_then(
                        DescV::Reserved("stalloc"@),
                        d_map(DescV::Tok(Tok::Ident), MapFn::ToType),
                    ),
                    DescV::Reserved("times"@),
                ),
                atom_desc(),
            ),
            MapFn::MkStalloc,
        );
        let ptroffset = d_map(
            d_chain(
                d_then_ignore(
                    d_ignore_then(DescV::Reserved("ptroffset"@), ty_inner_desc()),
                    DescV::Reserved("ptr"@),
                ),
                d_chain(atom_desc(), atom_desc()),
            ),
            MapFn::MkPtroffset,
        );
        let load = d_map(
            d_chain(
                d_then_ignore(
                    d_ignore_then(DescV::Reserved("load"@), ty_inner_desc()),
                    DescV::Reserved("ptr"@),
                ),
                atom_desc(),
            ),
            MapFn::MkLoad,
        );
        let cpy = d_map(
            d_ignore_then(DescV::Reserved("cpy"@), atom_desc()),
            MapFn::MkCpy,
        );
        d_or(
            d_or(
                d_or(
                    d_or(
                        d_or(
                            d_or(
                                d_or(d_or(call, stalloc), ptroffset),
                                load,
                            ),
                            binop_desc("add"@, MapFn::MkAdd),
                        ),
                        binop_desc("sub"@, MapFn::MkSub),
                    ),
                    binop_desc("div"@, MapFn::MkDiv),
                ),
                binop_desc("mul"@, MapFn::MkMul),
            ),
            cpy,
        )
    } else {
        let ret = d_map(
            d_chain(
                d_ignore_then(DescV::Reserved("ret"@), ty_inner_desc()),
                atom_desc(),
            ),
            MapFn::MkRet,
        );
        let store = d_map(
            d_chain(
                d_then_ignore(
                    d_ignore_then(DescV::Reserved("store"@), ty_inner_desc()),
                    DescV::Reserved("ptr"@),
                ),
                d_chain(d_then_ignore(atom_desc(), DescV::Tok(Tok::Comma)), atom_desc()),
            ),
            MapFn::MkStore,
        );
        let dbg = d_map(
            d_chain(
                d_ignore_then(DescV::Reserved("dbg"@), ty_inner_desc()),
                atom_desc(),
            ),
            MapFn::MkDbg,
        );
        d_or(d_or(d_or(call, ret), store), dbg)
    }
}

/// The operations.  `standalone` selects the forms that stand alone as a
/// statement (`call`, `ret`, `store`, `dbg`); the rest may only appear right
/// of `=` in an assignment.
pub fn op(standalone: bool) -> (r: BoxedParser)
    ensures
        r@ == op_desc(standalone),
{
    let call = reserved("call").ignore_then(
        tok(Tok::Ident).map(MapFn::ToType).delimited(
            tok(Tok::OpenBracket),
            tok(Tok::CloseBracket),
        ),
    ).chain(atom()).chain(
        tok(Tok::Ident).map(MapFn::ToType).chain(atom()).repeated_sep(tok(Tok::Comma)),
    ).map_range(MapFn::MkCall);
    if !standalone {
        let stalloc = reserved("stalloc").ignore_then(tok(Tok::Ident).map(MapFn::ToType))
            .then_ignore(reserved("times")).chain(atom()).map_range(MapFn::MkStalloc);
        let ptroffset = reserved("ptroffset").ignore_then(
            tok(Tok::Ident).map(MapFn::ToType).delimited(
                tok(Tok::OpenBracket),
                tok(Tok::CloseBracket),
            ),
        ).then_ignore(reserved("ptr")).chain(atom().chain(atom())).map_range(MapFn::MkPtroffset);
        let load = reserved("load").ignore_then(
            tok(Tok::Ident).map(MapFn::ToType).delimited(
                tok(Tok::OpenBracket),
                tok(Tok::CloseBracket),
            ),
        ).then_ignore(reserved("ptr")).chain(atom()).map_range(MapFn::MkLoad);
        let cpy = reserved("cpy").ignore_then(atom()).map_range(MapFn::MkCpy);
        call.or(stalloc).or(ptroffset).or(load).or(binop("add", MapFn::MkAdd)).or(
            binop("sub", MapFn::MkSub),
        ).or(binop("div", MapFn::MkDiv)).or(binop("mul", MapFn::MkMul)).or(cpy)
    } else {
        let ret = reserved("ret").ignore_then(
            tok(Tok::Ident).map(MapFn::ToType).delimited(
                tok(Tok::OpenBracket),
                tok(Tok::CloseBracket),
            ),
        ).chain(atom()).map_range(MapFn::MkRet);
        let store = reserved("store").ignore_then(
            tok(Tok::Ident).map(MapFn::ToType).delimited(
                tok(Tok::OpenBracket),
                tok(Tok::CloseBracket),
            ),
        ).then_ignore(reserved("ptr")).chain(
            atom().then_ignore(tok(Tok::Comma)).chain(atom()),
        ).map_range(MapFn::MkStore);
        let dbg = reserved("dbg").ignore_then(
            tok(Tok::Ident).map(MapFn::ToType).delimited(
                tok(Tok::OpenBracket),
                tok(Tok::CloseBracket),
            ),
        ).chain(atom()).map_range(MapFn::MkDbg);
        call.or(ret).or(store).or(dbg)
    }
}

/// The description that [`stmt`] builds.
pub open spec fn stmt_desc() -> DescV {
    let eq = d_map(
        d_chain(
            d_then_ignore(d_check(atom_desc(), CheckFn::IsVar), DescV::Tok(Tok::Equals)),
            op_desc(false),
        ),
        MapFn::MkAssign,
    );
    d_or(op_desc(true), eq)
}

/// `stmt := op(standalone) | atom[assignable] "=" op(nonstandalone)` — a
/// statement is a standalone operation or an assignment whose target must be
/// a plain variable reference.
pub fn stmt() -> (r: BoxedParser)
    ensures
        r@ == stmt_desc(),
{
    let justop = op(true);
    let var = atom().check(CheckFn::IsVar);
    let eq = var.then_ignore(tok(Tok::Equals)).chain(op(false)).map_range(MapFn::MkAssign);
    justop.or(eq)
}

} // verus!
