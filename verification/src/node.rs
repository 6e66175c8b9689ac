//! Structural nodes, and the closed set of node variants.

use vstd::prelude::*;
use crate::span::Span;
use crate::token::{Token, TokenView, token_option_view};
use crate::expression::{
    BinaryOperator, BinaryOperatorView, Boolean, Character, CharacterView, Float, FloatView,
    Identifier, IdentifierView, Integer, Str, StrView,
};
use crate::statement::{
    ExpressionStatement, ExpressionStatementView, FunctionDefinition, FunctionDefinitionView,
    ReturnStatement, ReturnStatementView, Signature, SignatureView, VariableDeclaration,
    VariableDeclarationView, VariableInitialisation, VariableInitialisationView,
};

verus! {

/// The statements between a pair of braces.
#[derive(Debug, PartialEq, Eq)]
pub struct Block {
    pub lbrace: Token,
    pub stmts: Vec<Box<NodeType>>,
    pub rbrace: Token,
    pub span: Span,
}

/// The root of a tree: the top-level statements of one source text.
#[derive(Debug, PartialEq, Eq)]
pub struct File {
    pub stmts: Vec<Box<NodeType>>,
    pub span: Option<Span>,
}

/// The return type of a function, behind its arrow.
#[derive(Debug, PartialEq, Eq)]
pub struct Output {
    pub rarrow: Token,
    pub ty: TypeSpecifier,
    pub span: Span,
}

/// One typed parameter.
#[derive(Debug, PartialEq, Eq)]
pub struct Parameter {
    pub id: Identifier,
    pub colon_token: Token,
    pub ty: TypeSpecifier,
    pub span: Span,
}

/// The parameters between a pair of parentheses, each with the comma that
/// follows it, if one does.
#[derive(Debug, PartialEq, Eq)]
pub struct ParameterList {
    pub lparen: Token,
    pub parameters: Vec<(Parameter, Option<Token>)>,
    pub rparen: Token,
    pub span: Span,
}

/// An operand of an expression: a wrapper around the node it holds.
#[derive(Debug, PartialEq, Eq)]
pub struct Term {
    pub node: Box<NodeType>,
    pub span: Span,
}

/// The name of a type, where one is written.
#[derive(Debug, PartialEq, Eq)]
pub struct TypeSpecifier {
    pub id: Identifier,
    pub span: Span,
}

/// Every kind of node that a tree can hold.
#[derive(Debug, PartialEq, Eq)]
pub enum NodeType {
    Token(Token),
    BinaryOperator(BinaryOperator),
    Boolean(Boolean),
    Character(Character),
    Float(Float),
    Integer(Integer),
    Identifier(Identifier),
    Str(Str),
    Block(Block),
    File(File),
    Output(Output),
    ParameterList(ParameterList),
    Parameter(Parameter),
    Term(Term),
    TypeSpecifier(TypeSpecifier),
    Signature(Signature),
    Expression(ExpressionStatement),
    FunctionDefinition(FunctionDefinition),
    Return(ReturnStatement),
    VariableDeclaration(VariableDeclaration),
    VariableInitialisation(VariableInitialisation),
}

/// What a [`Block`] is, with its statements as a sequence of views.
pub ghost struct BlockView {
    pub lbrace: TokenView,
    pub stmts: Seq<NodeView>,
    pub rbrace: TokenView,
    pub span: Span,
}

/// What a [`File`] is, with its statements as a sequence of views.
pub ghost struct FileView {
    pub stmts: Seq<NodeView>,
    pub span: Option<Span>,
}

/// What an [`Output`] is.
pub ghost struct OutputView {
    pub rarrow: TokenView,
    pub ty: TypeSpecifierView,
    pub span: Span,
}

/// What a [`Parameter`] is.
pub ghost struct ParameterView {
    pub id: IdentifierView,
    pub colon_token: TokenView,
    pub ty: TypeSpecifierView,
    pub span: Span,
}

/// What a [`ParameterList`] is, with its parameters as a sequence.
pub ghost struct ParameterListView {
    pub lparen: TokenView,
    pub parameters: Seq<(ParameterView, Option<TokenView>)>,
    pub rparen: TokenView,
    pub span: Span,
}

/// What a [`Term`] is.
pub ghost struct TermView {
    pub node: Box<NodeView>,
    pub span: Span,
}

/// What a [`TypeSpecifier`] is.
pub ghost struct TypeSpecifierView {
    pub id: IdentifierView,
    pub span: Span,
}

/// What a [`NodeType`] is: the same tree with every text as a sequence of
/// characters and every list as a sequence.
pub ghost enum NodeView {
    Token(TokenView),
    BinaryOperator(BinaryOperatorView),
    Boolean(Boolean),
    Character(CharacterView),
    Float(FloatView),
    Integer(Integer),
    Identifier(IdentifierView),
    Str(StrView),
    Block(BlockView),
    File(FileView),
    Output(OutputView),
    ParameterList(ParameterListView),
    Parameter(ParameterView),
    Term(TermView),
    TypeSpecifier(TypeSpecifierView),
    Signature(SignatureView),
    Expression(ExpressionStatementView),
    FunctionDefinition(FunctionDefinitionView),
    Return(ReturnStatementView),
    VariableDeclaration(VariableDeclarationView),
    VariableInitialisation(VariableInitialisationView),
}

/// The views of a list of boxed nodes, in order.
pub open spec fn nodes_view(nodes: Seq<Box<NodeType>>) -> Seq<NodeView>
    decreases nodes,
{
    Seq::new(
        nodes.len(),
        |i: int|
            if 0 <= i < nodes.len() {
                node_view(*nodes[i])
            } else {
                arbitrary()
            },
    )
}

/// The view of a block.
pub open spec fn block_view(b: Block) -> BlockView
    decreases b,
{
    BlockView { lbrace: b.lbrace@, stmts: nodes_view(b.stmts@), rbrace: b.rbrace@, span: b.span }
}

/// The view of a file.
pub open spec fn file_view(f: File) -> FileView
    decreases f,
{
    FileView { stmts: nodes_view(f.stmts@), span: f.span }
}

/// The view of a node.
pub open spec fn node_view(n: NodeType) -> NodeView
    decreases n,
{
    match n {
        NodeType::Token(t) => NodeView::Token(t@),
        NodeType::BinaryOperator(b) => NodeView::BinaryOperator(
            BinaryOperatorView {
                left: Box::new(node_view(*b.left)),
                op: b.op@,
                right: Box::new(node_view(*b.right)),
                span: b.span,
            },
        ),
        NodeType::Boolean(b) => NodeView::Boolean(b),
        NodeType::Character(c) => NodeView::Character(c@),
        NodeType::Float(f) => NodeView::Float(f@),
        NodeType::Integer(i) => NodeView::Integer(i),
        NodeType::Identifier(i) => NodeView::Identifier(i@),
        NodeType::Str(s) => NodeView::Str(s@),
        NodeType::Block(b) => NodeView::Block(block_view(b)),
        NodeType::File(f) => NodeView::File(file_view(f)),
        NodeType::Output(o) => NodeView::Output(o@),
        NodeType::ParameterList(p) => NodeView::ParameterList(p@),
        NodeType::Parameter(p) => NodeView::Parameter(p@),
        NodeType::Term(t) => NodeView::Term(TermView { node: Box::new(node_view(*t.node)), span: t.span }),
        NodeType::TypeSpecifier(t) => NodeView::TypeSpecifier(t@),
        NodeType::Signature(s) => NodeView::Signature(s@),
        NodeType::Expression(e) => NodeView::Expression(
            ExpressionStatementView { expr: Box::new(node_view(*e.expr)), span: e.span },
        ),
        NodeType::FunctionDefinition(f) => NodeView::FunctionDefinition(
            FunctionDefinitionView { sig: f.sig@, block: block_view(f.block), span: f.span },
        ),
        NodeType::Return(r) => NodeView::Return(
            ReturnStatementView {
                return_token: r.return_token@,
                expr: Box::new(node_view(*r.expr)),
                span: r.span,
            },
        ),
        NodeType::VariableDeclaration(v) => NodeView::VariableDeclaration(v@),
        NodeType::VariableInitialisation(v) => NodeView::VariableInitialisation(
            VariableInitialisationView {
                let_token: v.let_token@,
                id: v.id@,
                colon: v.colon@,
                ty: type_specifier_option_view(v.ty),
                equals: v.equals@,
                expr: Box::new(node_view(*v.expr)),
                span: v.span,
            },
        ),
    }
}

/// The view of an optional type specifier.
pub open spec fn type_specifier_option_view(t: Option<TypeSpecifier>) -> Option<TypeSpecifierView> {
    match t {
        Some(t) => Some(t@),
        None => None,
    }
}

/// The view of one entry of a parameter list.
pub open spec fn parameter_entry_view(e: (Parameter, Option<Token>)) -> (ParameterView, Option<TokenView>) {
    (e.0@, token_option_view(e.1))
}

impl View for TypeSpecifier {
    type V = TypeSpecifierView;

    open spec fn view(&self) -> TypeSpecifierView {
        TypeSpecifierView { id: self.id@, span: self.span }
    }
}

impl View for Output {
    type V = OutputView;

    open spec fn view(&self) -> OutputView {
        OutputView { rarrow: self.rarrow@, ty: self.ty@, span: self.span }
    }
}

impl View for Parameter {
    type V = ParameterView;

    open spec fn view(&self) -> ParameterView {
        ParameterView { id: self.id@, colon_token: self.colon_token@, ty: self.ty@, span: self.span }
    }
}

impl View for ParameterList {
    type V = ParameterListView;

    open spec fn view(&self) -> ParameterListView {
        ParameterListView {
            lparen: self.lparen@,
            parameters: self.parameters@.map_values(|e: (Parameter, Option<Token>)| parameter_entry_view(e)),
            rparen: self.rparen@,
            span: self.span,
        }
    }
}

impl View for Term {
    type V = TermView;

    open spec fn view(&self) -> TermView {
        TermView { node: Box::new(node_view(*self.node)), span: self.span }
    }
}

impl View for Block {
    type V = BlockView;

    open spec fn view(&self) -> BlockView {
        block_view(*self)
    }
}

impl View for File {
    type V = FileView;

    open spec fn view(&self) -> FileView {
        file_view(*self)
    }
}

impl View for NodeType {
    type V = NodeView;

    open spec fn view(&self) -> NodeView {
        node_view(*self)
    }
}

} // verus!
