//! The parse tree that the grammar engine hands over: the rule that each
//! node was recognised by, the text it matched, where it stood, and what it
//! holds.

use vstd::prelude::*;
use vstd::string::*;
use crate::span::{
    Span, characters_before, characters_between, has_position, line_column, text_between,
};

verus! {

/// The rules of the grammar.
#[derive(Copy, Clone, Debug, PartialEq, Eq, Structural)]
pub enum Rule {
    EOI,
    LetToken,
    ProcToken,
    TypeToken,
    ReturnToken,
    ExternToken,
    RArrow,
    LArrow,
    LParen,
    RParen,
    LBrace,
    RBrace,
    Colon,
    Comma,
    SingleQuote,
    DoubleQuote,
    Equals,
    Identifier,
    Boolean,
    BooleanTrue,
    BooleanFalse,
    IntegerZero,
    IntegerDecimal,
    Integer,
    Float,
    Character,
    CharacterValue,
    String,
    Expression,
    Term,
    Block,
    Parameter,
    ParameterList,
    Output,
    FunctionDefinition,
    VariableDeclaration,
    VariableInitialisation,
    ReturnStatement,
    ExpressionStatement,
    ImportStatement,
    UseStatement,
    File,
    Assignment,
    LogicalOr,
    LogicalAnd,
    Equal,
    NotEqual,
    GreaterThanOrEqual,
    LessThanOrEqual,
    GreaterThan,
    LessThan,
    BitwiseXor,
    BitwiseOr,
    BitwiseAnd,
    ShiftRight,
    ShiftLeft,
    Plus,
    Minus,
    Multiply,
    Divide,
    Exponent,
    Cast,
}

/// One node of the parse tree.
#[derive(Debug, PartialEq, Eq)]
pub struct ParseNode {
    pub rule: Rule,
    pub text: String,
    pub span: Span,
    pub children: Vec<ParseNode>,
}

/// What a [`ParseNode`] is, with its text as a sequence of characters and
/// its children as a sequence.
pub ghost struct ParseNodeView {
    pub rule: Rule,
    pub text: Seq<char>,
    pub span: Span,
    pub children: Seq<ParseNodeView>,
}

/// The views of a list of parse nodes, in order.
pub open spec fn parse_nodes_view(nodes: Seq<ParseNode>) -> Seq<ParseNodeView>
    decreases nodes,
{
    Seq::new(
        nodes.len(),
        |i: int|
            if 0 <= i < nodes.len() {
                parse_node_view(nodes[i])
            } else {
                arbitrary()
            },
    )
}

/// The view of a parse node.
pub open spec fn parse_node_view(n: ParseNode) -> ParseNodeView
    decreases n,
{
    ParseNodeView {
        rule: n.rule,
        text: n.text@,
        span: n.span,
        children: parse_nodes_view(n.children@),
    }
}

impl View for ParseNode {
    type V = ParseNodeView;

    open spec fn view(&self) -> ParseNodeView {
        parse_node_view(*self)
    }
}

impl ParseNode {
    /// A node without children.
    pub fn leaf(rule: Rule, text: String, span: Span) -> (r: ParseNode)
        ensures
            r@ == (ParseNodeView { rule, text: text@, span, children: Seq::empty() }),
    {
        let node = ParseNode { rule, text, span, children: Vec::new() };
        assert(parse_nodes_view(node.children@) =~= Seq::empty());
        node
    }

    /// The node that a rule recognised between two byte offsets of a source
    /// text: its text is the text between the offsets, its span reaches from
    /// the line and column of the first to those of the second. There is one
    /// where the first offset is not behind the second and the text has a
    /// position at both.
    pub fn located(rule: Rule, source: &str, start: usize, end: usize, children: Vec<ParseNode>) -> (r:
        Option<ParseNode>)
        ensures
            r is Some <==> start <= end && has_position(source, start as int) && has_position(
                source,
                end as int,
            ),
            r matches Some(node) ==> {
                &&& node@.span.wf()
                &&& node@.rule == rule
                &&& node@.text == characters_between(source, start as int, end as int)
                &&& (node@.span.start.line as int, node@.span.start.column as int) == line_column(
                    characters_before(source, start as int),
                )
                &&& (node@.span.end.line as int, node@.span.end.column as int) == line_column(
                    characters_before(source, end as int),
                )
                &&& node@.children == parse_nodes_view(children@)
            },
    {
        match (text_between(source, start, end), Span::from_offsets(source, start, end)) {
            (Some(text), Some(span)) => Some(
                ParseNode { rule, text: String::from_str(text), span, children },
            ),
            _ => None,
        }
    }

    /// A node that holds the given children.
    pub fn new(rule: Rule, text: String, span: Span, children: Vec<ParseNode>) -> (r: ParseNode)
        ensures
            r@ == (ParseNodeView { rule, text: text@, span, children: parse_nodes_view(children@) }),
    {
        ParseNode { rule, text, span, children }
    }
}

} // verus!
