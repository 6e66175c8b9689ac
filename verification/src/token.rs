//! Tokens: a piece of source text together with where it stood.

use vstd::prelude::*;
use crate::span::Span;

verus! {

/// A token as matched in the source: its literal text and its span.
#[derive(Debug, PartialEq, Eq)]
pub struct Token {
    pub value: String,
    pub span: Span,
}

/// What a [`Token`] is, with its text as a sequence of characters.
pub ghost struct TokenView {
    pub value: Seq<char>,
    pub span: Span,
}

impl View for Token {
    type V = TokenView;

    open spec fn view(&self) -> TokenView {
        TokenView { value: self.value@, span: self.span }
    }
}

impl Token {
    pub fn new(value: String, span: Span) -> (r: Token)
        ensures
            r@ == (TokenView { value: value@, span }),
    {
        Token { value, span }
    }

}

impl Clone for Token {
    fn clone(&self) -> (r: Token)
        ensures
            r@ == self@,
    {
        Token { value: self.value.clone(), span: self.span }
    }
}

/// The view of an optional token.
pub open spec fn token_option_view(t: Option<Token>) -> Option<TokenView> {
    match t {
        Some(t) => Some(t@),
        None => None,
    }
}

} // verus!
