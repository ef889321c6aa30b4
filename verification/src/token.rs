//! The token model: token kinds, source spans, tokens, and the token buffer
//! that a parse runs over.
//!
//! Tokens are produced by an external lexical scanner and handed to this
//! library as plain values; an unrecognized byte sequence arrives as the
//! designated kind [`Tok::Err`] rather than aborting tokenization, and simply
//! fails to match any grammar rule downstream.

use vstd::prelude::*;

verus! {

/// A half-open range of byte positions in the original source text.
///
/// Every token carries the span it was lexed from, and every successful parse
/// reports the span it consumed; composing parsers compute enclosing spans as
/// the union (min start, max end) of their children's spans.
#[derive(Clone, Copy, PartialEq, Eq, Structural, Debug)]
pub struct Span {
    pub start: usize,
    pub end: usize,
}

/// The lexical categories of the instruction language.
///
/// Whitespace and `;`-prefixed line comments never appear as tokens.
/// `Unrecognized` marks input the scanner could not classify.
#[derive(Clone, Copy, PartialEq, Eq, Structural, Debug)]
pub enum Tok {
    Unrecognized,
    Dollar,
    Ampersand,
    Comma,
    Dot,
    Bang,
    Ident,
    OpenBracket,
    CloseBracket,
    Number,
    Equals,
}

/// One lexed token: its kind, the byte span it covers, and its source text.
///
/// Immutable once built; owned by the buffer for the parse's duration.
#[derive(Clone, Debug, PartialEq)]
pub struct Token {
    pub kind: Tok,
    pub span: Span,
    pub text: String,
}

/// The mathematical value of a [`Token`]: the same data with the text as a
/// sequence of characters.
pub struct TokenV {
    pub kind: Tok,
    pub span: Span,
    pub text: Seq<char>,
}

impl View for Token {
    type V = TokenV;

    open spec fn view(&self) -> TokenV {
        TokenV { kind: self.kind, span: self.span, text: self.text@ }
    }
}

/// The value of a whole token buffer: the sequence of token values.
pub open spec fn toks_view(toks: Seq<Token>) -> Seq<TokenV> {
    Seq::new(toks.len(), |i: int| toks[i]@)
}

/// A finite, randomly indexable sequence of tokens, materialized once per
/// parse invocation and read-only thereafter.
pub struct TokenStream {
    toks: Vec<Token>,
}

impl View for TokenStream {
    type V = Seq<TokenV>;

    closed spec fn view(&self) -> Seq<TokenV> {
        toks_view(self.toks@)
    }
}

impl TokenStream {
    /// Materializes the buffer from already-lexed tokens.
    pub fn new(toks: Vec<Token>) -> (r: TokenStream)
        ensures
            r@ == toks_view(toks@),
    {
        TokenStream { toks }
    }

    /// The underlying token sequence.
    pub fn slice(&self) -> (r: &Vec<Token>)
        ensures
            toks_view(r@) == self@,
    {
        &self.toks
    }
}

/// A bounded view of a sequence of items: whether any remain, and the first
/// one if so.
pub trait SliceHelper<T> {
    /// The remaining items.
    spec fn sh_seq(&self) -> Seq<T>;

    /// True exactly when no items remain.
    fn finished(&self) -> (r: bool)
        ensures
            r == (self.sh_seq().len() == 0),
    ;

    /// The first remaining item.
    fn first(&self) -> (r: &T)
        requires
            self.sh_seq().len() > 0,
        ensures
            *r == self.sh_seq()[0],
    ;
}

impl<T> SliceHelper<T> for Vec<T> {
    open spec fn sh_seq(&self) -> Seq<T> {
        self@
    }

    fn finished(&self) -> (r: bool) {
        self.len() == 0
    }

    fn first(&self) -> (r: &T) {
        &self[0]
    }
}

} // verus!
