//! A backtracking parser-combinator library for a small typed, low-level
//! instruction language, together with the token-level grammar built on it.
//!
//! A parser is a pure function from a cursor into a token buffer to either
//! (advanced cursor, value, consumed range) or a failure descriptor.  The
//! combinators compose such parsers; choice resolves competing failures by
//! keeping the one that consumed the most input.  Every combinator and the
//! whole grammar are verified against a single mathematical semantics,
//! `parser::spec_parse`.

pub mod ast;
pub mod grammar;
pub mod laws;
pub mod parser;
pub mod stream;
pub mod token;
pub mod value;

pub use ast::AstNode;
pub use grammar::atom;
pub use grammar::op;
pub use grammar::path;
pub use grammar::stmt;
pub use parser::match_until;
pub use stream::CharStream;
pub use stream::InputStream;
pub use parser::reserved;
pub use parser::tok;
pub use parser::BoxedParser;
pub use parser::DescV;
pub use parser::Parser;
pub use parser::ParserDesc;
pub use value::CheckFn;
pub use value::MapFn;
pub use value::Val;
pub use value::ValV;
pub use ast::AstV;
pub use ast::ParserErr;
pub use ast::ParserErrV;
pub use ast::Type;
pub use ast::TypeSize;
pub use ast::TypeV;
pub use token::Span;
pub use token::SliceHelper;
pub use token::Tok;
pub use token::Token;
pub use token::TokenStream;
