//! Statement nodes.

use vstd::prelude::*;
use crate::span::Span;
use crate::token::{Token, TokenView};
use crate::expression::{Identifier, IdentifierView};
use crate::node::{
    Block, BlockView, NodeType, NodeView, Output, OutputView, ParameterList, ParameterListView,
    TypeSpecifier, TypeSpecifierView, block_view, node_view, type_specifier_option_view,
};

verus! {

/// Marks the nodes that are statements.
pub trait Statement {
}

/// An expression that stands as a statement.
#[derive(Debug, PartialEq, Eq)]
pub struct ExpressionStatement {
    pub expr: Box<NodeType>,
    pub span: Span,
}

/// The head of a function: its name, parameters and return type.
#[derive(Debug, PartialEq, Eq)]
pub struct Signature {
    pub func_token: Token,
    pub id: Identifier,
    pub params: ParameterList,
    pub output: Output,
    pub span: Span,
}

/// A function: its signature and its body.
#[derive(Debug, PartialEq, Eq)]
pub struct FunctionDefinition {
    pub sig: Signature,
    pub block: Block,
    pub span: Span,
}

/// `return` with the expression whose value is returned.
#[derive(Debug, PartialEq, Eq)]
pub struct ReturnStatement {
    pub return_token: Token,
    pub expr: Box<NodeType>,
    pub span: Span,
}

/// `let` with a type and no initial value.
#[derive(Debug, PartialEq, Eq)]
pub struct VariableDeclaration {
    pub let_token: Token,
    pub id: Identifier,
    pub colon: Token,
    pub ty: TypeSpecifier,
    pub span: Span,
}

/// `let` with an initial value and, optionally, a type.
#[derive(Debug, PartialEq, Eq)]
pub struct VariableInitialisation {
    pub let_token: Token,
    pub id: Identifier,
    pub colon: Token,
    pub ty: Option<TypeSpecifier>,
    pub equals: Token,
    pub expr: Box<NodeType>,
    pub span: Span,
}

impl Statement for ExpressionStatement {
}

impl Statement for FunctionDefinition {
}

impl Statement for ReturnStatement {
}

impl Statement for VariableDeclaration {
}

impl Statement for VariableInitialisation {
}

/// What an [`ExpressionStatement`] is.
pub ghost struct ExpressionStatementView {
    pub expr: Box<NodeView>,
    pub span: Span,
}

/// What a [`Signature`] is.
pub ghost struct SignatureView {
    pub func_token: TokenView,
    pub id: IdentifierView,
    pub params: ParameterListView,
    pub output: OutputView,
    pub span: Span,
}

/// What a [`FunctionDefinition`] is.
pub ghost struct FunctionDefinitionView {
    pub sig: SignatureView,
    pub block: BlockView,
    pub span: Span,
}

/// What a [`ReturnStatement`] is.
pub ghost struct ReturnStatementView {
    pub return_token: TokenView,
    pub expr: Box<NodeView>,
    pub span: Span,
}

/// What a [`VariableDeclaration`] is.
pub ghost struct VariableDeclarationView {
    pub let_token: TokenView,
    pub id: IdentifierView,
    pub colon: TokenView,
    pub ty: TypeSpecifierView,
    pub span: Span,
}

/// What a [`VariableInitialisation`] is.
pub ghost struct VariableInitialisationView {
    pub let_token: TokenView,
    pub id: IdentifierView,
    pub colon: TokenView,
    pub ty: Option<TypeSpecifierView>,
    pub equals: TokenView,
    pub expr: Box<NodeView>,
    pub span: Span,
}

impl View for ExpressionStatement {
    type V = ExpressionStatementView;

    open spec fn view(&self) -> ExpressionStatementView {
        ExpressionStatementView { expr: Box::new(node_view(*self.expr)), span: self.span }
    }
}

impl View for Signature {
    type V = SignatureView;

    open spec fn view(&self) -> SignatureView {
        SignatureView {
            func_token: self.func_token@,
            id: self.id@,
            params: self.params@,
            output: self.output@,
            span: self.span,
        }
    }
}

impl View for FunctionDefinition {
    type V = FunctionDefinitionView;

    open spec fn view(&self) -> FunctionDefinitionView {
        FunctionDefinitionView { sig: self.sig@, block: block_view(self.block), span: self.span }
    }
}

impl View for ReturnStatement {
    type V = ReturnStatementView;

    open spec fn view(&self) -> ReturnStatementView {
        ReturnStatementView {
            return_token: self.return_token@,
            expr: Box::new(node_view(*self.expr)),
            span: self.span,
        }
    }
}

impl View for VariableDeclaration {
    type V = VariableDeclarationView;

    open spec fn view(&self) -> VariableDeclarationView {
        VariableDeclarationView {
            let_token: self.let_token@,
            id: self.id@,
            colon: self.colon@,
            ty: self.ty@,
            span: self.span,
        }
    }
}

impl View for VariableInitialisation {
    type V = VariableInitialisationView;

    open spec fn view(&self) -> VariableInitialisationView {
        VariableInitialisationView {
            let_token: self.let_token@,
            id: self.id@,
            colon: self.colon@,
            ty: type_specifier_option_view(self.ty),
            equals: self.equals@,
            expr: Box::new(node_view(*self.expr)),
            span: self.span,
        }
    }
}

} // verus!
