//! Expression nodes: the literals, identifiers and binary operators.

use vstd::prelude::*;
use crate::span::Span;
use crate::token::{Token, TokenView};
use crate::node::{NodeType, NodeView, node_view};

verus! {

/// Marks the nodes that are expressions.
pub trait Expression {
}

/// A boolean literal.
#[derive(Debug, PartialEq, Eq)]
pub struct Boolean {
    pub value: bool,
    pub span: Span,
}

/// A character literal between its two quotes. The value is the low byte of
/// the character's code point.
#[derive(Debug, PartialEq, Eq)]
pub struct Character {
    pub lquote: Token,
    pub value: u8,
    pub rquote: Token,
    pub span: Span,
}

/// A floating-point literal, kept as the text that was written.
#[derive(Debug, PartialEq, Eq)]
pub struct Float {
    pub text: String,
    pub span: Span,
}

/// An integer literal.
#[derive(Debug, PartialEq, Eq)]
pub struct Integer {
    pub value: i128,
    pub span: Span,
}

/// A string literal, kept as the text that was matched.
#[derive(Debug, PartialEq, Eq)]
pub struct Str {
    pub string: String,
    pub span: Span,
}

/// A name.
#[derive(Debug, PartialEq, Eq)]
pub struct Identifier {
    pub name: String,
    pub span: Span,
}

/// Two operands joined by an operator token.
#[derive(Debug, PartialEq, Eq)]
pub struct BinaryOperator {
    pub left: Box<NodeType>,
    pub op: Token,
    pub right: Box<NodeType>,
    pub span: Span,
}

impl Expression for Boolean {
}

impl Expression for Character {
}

impl Expression for Float {
}

impl Expression for Integer {
}

impl Expression for Str {
}

impl Expression for Identifier {
}

impl Expression for BinaryOperator {
}

/// What a [`Character`] is, with its quotes as views.
pub ghost struct CharacterView {
    pub lquote: TokenView,
    pub value: u8,
    pub rquote: TokenView,
    pub span: Span,
}

/// What a [`Float`] is, with its text as a sequence of characters.
pub ghost struct FloatView {
    pub text: Seq<char>,
    pub span: Span,
}

/// What a [`Str`] is, with its text as a sequence of characters.
pub ghost struct StrView {
    pub string: Seq<char>,
    pub span: Span,
}

/// What an [`Identifier`] is, with its name as a sequence of characters.
pub ghost struct IdentifierView {
    pub name: Seq<char>,
    pub span: Span,
}

/// What a [`BinaryOperator`] is, with its operands and its token as views.
pub ghost struct BinaryOperatorView {
    pub left: Box<NodeView>,
    pub op: TokenView,
    pub right: Box<NodeView>,
    pub span: Span,
}

impl View for Boolean {
    type V = Boolean;

    open spec fn view(&self) -> Boolean {
        *self
    }
}

impl View for Integer {
    type V = Integer;

    open spec fn view(&self) -> Integer {
        *self
    }
}

impl View for Character {
    type V = CharacterView;

    open spec fn view(&self) -> CharacterView {
        CharacterView { lquote: self.lquote@, value: self.value, rquote: self.rquote@, span: self.span }
    }
}

impl View for Float {
    type V = FloatView;

    open spec fn view(&self) -> FloatView {
        FloatView { text: self.text@, span: self.span }
    }
}

impl View for Str {
    type V = StrView;

    open spec fn view(&self) -> StrView {
        StrView { string: self.string@, span: self.span }
    }
}

impl View for Identifier {
    type V = IdentifierView;

    open spec fn view(&self) -> IdentifierView {
        IdentifierView { name: self.name@, span: self.span }
    }
}

impl View for BinaryOperator {
    type V = BinaryOperatorView;

    open spec fn view(&self) -> BinaryOperatorView {
        BinaryOperatorView {
            left: Box::new(node_view(*self.left)),
            op: self.op@,
            right: Box::new(node_view(*self.right)),
            span: self.span,
        }
    }
}

impl Clone for Identifier {
    fn clone(&self) -> (r: Identifier)
        ensures
            r@ == self@,
    {
        Identifier { name: self.name.clone(), span: self.span }
    }
}

} // verus!
