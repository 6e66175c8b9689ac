//! What the builder makes of a parse tree, stated over the views of the
//! parse tree and of the syntax tree.

use vstd::prelude::*;
use crate::error::{ParseError, ParseFault};
use crate::expression::{
    BinaryOperatorView, Boolean, CharacterView, FloatView, IdentifierView, Integer, StrView,
};
use crate::grammar::{ParseNodeView, Rule};
use crate::literal::{decimal, low_byte};
use crate::node::{
    BlockView, FileView, NodeView, OutputView, ParameterListView, ParameterView, TermView,
    TypeSpecifierView,
};
use crate::precedence::{precedence_of, weakest};
use crate::statement::{
    ExpressionStatementView, FunctionDefinitionView, ReturnStatementView, SignatureView,
    VariableDeclarationView, VariableInitialisationView,
};
use crate::token::TokenView;

verus! {

/// The failure that names `n` as the offending node.
pub open spec fn fault_at(fault: ParseFault, within: Rule, n: ParseNodeView) -> ParseError {
    ParseError { fault, within, rule: n.rule, span: n.span }
}

/// The view of what a building routine returns.
pub open spec fn built<T: View>(r: Result<T, ParseError>) -> Result<T::V, ParseError> {
    match r {
        Ok(x) => Ok(x@),
        Err(e) => Err(e),
    }
}

/// Whether the children are recognised by exactly the given rules, in order.
pub open spec fn shaped(children: Seq<ParseNodeView>, rules: Seq<Rule>) -> bool {
    children.len() == rules.len() && forall|i: int|
        0 <= i < rules.len() ==> (#[trigger] children[i]).rule == rules[i]
}

/// The token that a node stands for: its text and its span.
pub open spec fn token_of(n: ParseNodeView) -> TokenView {
    TokenView { value: n.text, span: n.span }
}

/// The identifier that a node stands for: its text and its span.
pub open spec fn identifier_of(n: ParseNodeView) -> IdentifierView {
    IdentifierView { name: n.text, span: n.span }
}

/// The type specifier that a node stands for.
pub open spec fn type_specifier_of(n: ParseNodeView) -> TypeSpecifierView {
    TypeSpecifierView { id: identifier_of(n), span: n.span }
}

/// An identifier is built from a node of its rule.
pub open spec fn built_identifier(n: ParseNodeView) -> Result<IdentifierView, ParseError> {
    if n.rule != Rule::Identifier {
        Err(fault_at(ParseFault::UnexpectedRule, Rule::Identifier, n))
    } else {
        Ok(identifier_of(n))
    }
}

/// A boolean literal holds one child, whose rule tells its value.
pub open spec fn built_boolean(n: ParseNodeView) -> Result<Boolean, ParseError> {
    if n.rule != Rule::Boolean {
        Err(fault_at(ParseFault::UnexpectedRule, Rule::Boolean, n))
    } else if shaped(n.children, seq![Rule::BooleanTrue]) {
        Ok(Boolean { value: true, span: n.span })
    } else if shaped(n.children, seq![Rule::BooleanFalse]) {
        Ok(Boolean { value: false, span: n.span })
    } else {
        Err(fault_at(ParseFault::UnexpectedChildren, Rule::Boolean, n))
    }
}

/// The value of a decimal literal, which must fit.
pub open spec fn built_integer_decimal(n: ParseNodeView) -> Result<i128, ParseError> {
    if n.rule != Rule::IntegerDecimal {
        Err(fault_at(ParseFault::UnexpectedRule, Rule::IntegerDecimal, n))
    } else {
        match decimal(n.text) {
            Some(value) => Ok(value),
            None => Err(fault_at(ParseFault::IntegerOutOfRange, Rule::IntegerDecimal, n)),
        }
    }
}

/// An integer literal holds a decimal number or a zero.
pub open spec fn built_integer(n: ParseNodeView) -> Result<Integer, ParseError> {
    if n.rule != Rule::Integer {
        Err(fault_at(ParseFault::UnexpectedRule, Rule::Integer, n))
    } else if shaped(n.children, seq![Rule::IntegerDecimal]) {
        match built_integer_decimal(n.children[0]) {
            Ok(value) => Ok(Integer { value, span: n.span }),
            Err(e) => Err(e),
        }
    } else if shaped(n.children, seq![Rule::IntegerZero]) {
        Ok(Integer { value: 0, span: n.span })
    } else {
        Err(fault_at(ParseFault::UnexpectedChildren, Rule::Integer, n))
    }
}

/// A floating-point literal keeps the text of its node.
pub open spec fn built_float(n: ParseNodeView) -> Result<FloatView, ParseError> {
    if n.rule != Rule::Float {
        Err(fault_at(ParseFault::UnexpectedRule, Rule::Float, n))
    } else {
        Ok(FloatView { text: n.text, span: n.span })
    }
}

/// A character literal holds, between two quotes, a node whose text is
/// one character.
pub open spec fn built_character(n: ParseNodeView) -> Result<CharacterView, ParseError> {
    if n.rule != Rule::Character {
        Err(fault_at(ParseFault::UnexpectedRule, Rule::Character, n))
    } else if n.children.len() == 3 && n.children[0].rule == Rule::SingleQuote
        && n.children[2].rule == Rule::SingleQuote {
        if n.children[1].text.len() == 1 {
            Ok(
                CharacterView {
                    lquote: token_of(n.children[0]),
                    value: low_byte(n.children[1].text[0]),
                    rquote: token_of(n.children[2]),
                    span: n.span,
                },
            )
        } else {
            Err(fault_at(ParseFault::NotOneCharacter, Rule::Character, n.children[1]))
        }
    } else {
        Err(fault_at(ParseFault::UnexpectedChildren, Rule::Character, n))
    }
}

/// A string literal keeps the text of its node.
pub open spec fn built_string(n: ParseNodeView) -> Result<StrView, ParseError> {
    if n.rule != Rule::String {
        Err(fault_at(ParseFault::UnexpectedRule, Rule::String, n))
    } else {
        Ok(StrView { string: n.text, span: n.span })
    }
}

/// The term that wraps a node under the node's own span.
pub open spec fn wrapped(node: NodeView, span: crate::span::Span) -> TermView {
    TermView { node: Box::new(node), span }
}

/// Two operands joined by an operator: the new node and the term around
/// it both reach from the start of the left operand to the end of the
/// right one.
pub open spec fn folded(left: TermView, op: ParseNodeView, right: TermView) -> TermView {
    let span = left.span.through(right.span);
    TermView {
        node: Box::new(
            NodeView::BinaryOperator(
                BinaryOperatorView { left: left.node, op: token_of(op), right: right.node, span },
            ),
        ),
        span,
    }
}

/// The operand that stands at place `k` of a chain: the child at `2 * k`.
pub open spec fn operand_node(children: Seq<ParseNodeView>, k: int) -> ParseNodeView {
    children[2 * k]
}

/// The operator that stands behind operand `k`: the child at `2 * k + 1`.
pub open spec fn operator_node(children: Seq<ParseNodeView>, k: int) -> ParseNodeView {
    children[2 * k + 1]
}

/// The level of the operator behind operand `k`.
pub open spec fn level_at(children: Seq<ParseNodeView>, k: int) -> nat {
    match precedence_of(operator_node(children, k).rule) {
        Some((level, _)) => level,
        None => 0,
    }
}

/// The levels of the operators of a chain, in order.
pub open spec fn levels_of(children: Seq<ParseNodeView>) -> Seq<nat> {
    Seq::new((children.len() / 2) as nat, |k: int| level_at(children, k))
}

/// What is wrong with the child at place `i` of a chain, if anything: an
/// operand must build as a term, an operator must stand in the table.
pub open spec fn chain_fault_at(children: Seq<ParseNodeView>, i: int) -> Option<ParseError>
    decreases children, 0nat, 0nat,
{
    if 0 <= i < children.len() {
        if i % 2 == 0 {
            match built_term(children[i]) {
                Ok(_) => None,
                Err(e) => Some(e),
            }
        } else if precedence_of(children[i].rule) is None {
            Some(fault_at(ParseFault::NotAnOperator, Rule::Expression, children[i]))
        } else {
            None
        }
    } else {
        None
    }
}

/// The first thing that is wrong with a chain from place `i` on, in source
/// order. A chain that ends on an operator lacks an operand.
pub open spec fn chain_fault_from(children: Seq<ParseNodeView>, i: int) -> Option<ParseError>
    decreases children, 0nat, 1 + children.len() - i,
{
    if i < 0 {
        None
    } else if i >= children.len() {
        if children.len() > 0 && children.len() % 2 == 0 {
            Some(fault_at(ParseFault::MissingOperand, Rule::Expression, children.last()))
        } else {
            None
        }
    } else {
        match chain_fault_at(children, i) {
            Some(e) => Some(e),
            None => chain_fault_from(children, i + 1),
        }
    }
}

/// The term that operand `k` of a chain builds to.
pub open spec fn operand_term(children: Seq<ParseNodeView>, k: int) -> TermView
    decreases children, 0nat, 0nat,
{
    if 0 <= 2 * k < children.len() {
        match built_term(children[2 * k]) {
            Ok(t) => t,
            Err(_) => arbitrary(),
        }
    } else {
        arbitrary()
    }
}

/// The tree of the operands `lo..=hi` of a chain and the operators between
/// them: the chain splits at its weakest operator, and each side is the
/// tree of its own chain.
pub open spec fn climbed(children: Seq<ParseNodeView>, lo: int, hi: int) -> TermView
    decreases children, 1nat, hi - lo,
{
    if lo >= hi {
        operand_term(children, lo)
    } else {
        let at = weakest(levels_of(children), lo, hi);
        if lo <= at < hi {
            folded(climbed(children, lo, at), operator_node(children, at), climbed(children, at + 1, hi))
        } else {
            operand_term(children, lo)
        }
    }
}

/// An expression is a chain of terms with an operator between each two.
/// It builds to the tree that resolves precedence and associativity.
pub open spec fn built_expression(n: ParseNodeView) -> Result<TermView, ParseError>
    decreases n, 0nat, 0nat,
{
    if n.rule != Rule::Expression {
        Err(fault_at(ParseFault::UnexpectedRule, Rule::Expression, n))
    } else if n.children.len() == 0 {
        Err(fault_at(ParseFault::MissingOperand, Rule::Expression, n))
    } else {
        match chain_fault_from(n.children, 0) {
            Some(e) => Err(e),
            None => Ok(climbed(n.children, 0, (n.children.len() - 1) / 2)),
        }
    }
}

/// A term holds one node: an expression in its own right, or a literal,
/// or an identifier.
pub open spec fn built_term(n: ParseNodeView) -> Result<TermView, ParseError>
    decreases n, 0nat, 0nat,
{
    if n.rule != Rule::Term {
        Err(fault_at(ParseFault::UnexpectedRule, Rule::Term, n))
    } else if n.children.len() != 1 {
        Err(fault_at(ParseFault::UnexpectedChildren, Rule::Term, n))
    } else {
        let c = n.children[0];
        match c.rule {
            Rule::Expression => built_expression(c),
            Rule::Identifier => Ok(wrapped(NodeView::Identifier(identifier_of(c)), c.span)),
            Rule::Integer => match built_integer(c) {
                Ok(i) => Ok(wrapped(NodeView::Integer(i), c.span)),
                Err(e) => Err(e),
            },
            Rule::Character => match built_character(c) {
                Ok(x) => Ok(wrapped(NodeView::Character(x), c.span)),
                Err(e) => Err(e),
            },
            Rule::String => Ok(wrapped(NodeView::Str(StrView { string: c.text, span: c.span }), c.span)),
            Rule::Float => Ok(wrapped(NodeView::Float(FloatView { text: c.text, span: c.span }), c.span)),
            Rule::Boolean => match built_boolean(c) {
                Ok(b) => Ok(wrapped(NodeView::Boolean(b), c.span)),
                Err(e) => Err(e),
            },
            _ => Err(fault_at(ParseFault::UnexpectedChildren, Rule::Term, n)),
        }
    }
}

/// A parameter holds a name, a colon and the name of a type.
pub open spec fn built_parameter(n: ParseNodeView) -> Result<ParameterView, ParseError> {
    if n.rule != Rule::Parameter {
        Err(fault_at(ParseFault::UnexpectedRule, Rule::Parameter, n))
    } else if shaped(n.children, seq![Rule::Identifier, Rule::Colon, Rule::Identifier]) {
        Ok(
            ParameterView {
                id: identifier_of(n.children[0]),
                colon_token: token_of(n.children[1]),
                ty: type_specifier_of(n.children[2]),
                span: n.span,
            },
        )
    } else {
        Err(fault_at(ParseFault::UnexpectedChildren, Rule::Parameter, n))
    }
}

/// What has been read of a parameter list: its delimiters, the parameters
/// that are complete, and the parameter that still waits for the comma or
/// the parenthesis behind it.
pub ghost struct ParameterScan {
    pub lparen: Option<TokenView>,
    pub parameters: Seq<(ParameterView, Option<TokenView>)>,
    pub pending: Option<ParameterView>,
    pub rparen: Option<TokenView>,
}

/// Nothing has been read yet.
pub open spec fn scan_start() -> ParameterScan {
    ParameterScan { lparen: None, parameters: Seq::empty(), pending: None, rparen: None }
}

/// Reads one child of a parameter list.
///
/// - A parameter waits for what follows it; it may not follow a parameter
///   that still waits.
/// - A comma completes the waiting parameter; there must be one.
/// - The closing parenthesis completes the waiting parameter; where none
///   waits, no parameter may have been read at all.
/// - Children of other rules are passed over.
pub open spec fn scan_step(state: ParameterScan, child: ParseNodeView) -> Result<ParameterScan, ParseError> {
    match child.rule {
        Rule::LParen => Ok(ParameterScan { lparen: Some(token_of(child)), ..state }),
        Rule::Parameter => if state.pending is Some {
            Err(fault_at(ParseFault::MissingDelimiter, Rule::ParameterList, child))
        } else {
            match built_parameter(child) {
                Ok(p) => Ok(ParameterScan { pending: Some(p), ..state }),
                Err(e) => Err(e),
            }
        },
        Rule::Comma => match state.pending {
            Some(p) => Ok(
                ParameterScan {
                    parameters: state.parameters.push((p, Some(token_of(child)))),
                    pending: None,
                    ..state
                },
            ),
            None => Err(fault_at(ParseFault::MisplacedComma, Rule::ParameterList, child)),
        },
        Rule::RParen => match state.pending {
            Some(p) => Ok(
                ParameterScan {
                    parameters: state.parameters.push((p, None)),
                    pending: None,
                    rparen: Some(token_of(child)),
                    ..state
                },
            ),
            None => if state.parameters.len() > 0 {
                Err(fault_at(ParseFault::MisplacedComma, Rule::ParameterList, child))
            } else {
                Ok(ParameterScan { rparen: Some(token_of(child)), ..state })
            },
        },
        _ => Ok(state),
    }
}

/// Reads the children of a parameter list from place `i` on.
pub open spec fn scan_parameters(children: Seq<ParseNodeView>, i: int, state: ParameterScan) -> Result<
    ParameterScan,
    ParseError,
>
    decreases children.len() - i,
{
    if i < 0 || i >= children.len() {
        Ok(state)
    } else {
        match scan_step(state, children[i]) {
            Ok(next) => scan_parameters(children, i + 1, next),
            Err(e) => Err(e),
        }
    }
}

/// A parameter list holds its parameters between two parentheses, both of
/// which must be there.
pub open spec fn built_parameter_list(n: ParseNodeView) -> Result<ParameterListView, ParseError> {
    if n.rule != Rule::ParameterList {
        Err(fault_at(ParseFault::UnexpectedRule, Rule::ParameterList, n))
    } else {
        match scan_parameters(n.children, 0, scan_start()) {
            Err(e) => Err(e),
            Ok(scan) => match (scan.lparen, scan.rparen) {
                (Some(lparen), Some(rparen)) => Ok(
                    ParameterListView { lparen, parameters: scan.parameters, rparen, span: n.span },
                ),
                _ => Err(fault_at(ParseFault::MissingDelimiter, Rule::ParameterList, n)),
            },
        }
    }
}

/// An output holds an arrow and the name of a type.
pub open spec fn built_output(n: ParseNodeView) -> Result<OutputView, ParseError> {
    if n.rule != Rule::Output {
        Err(fault_at(ParseFault::UnexpectedRule, Rule::Output, n))
    } else if shaped(n.children, seq![Rule::RArrow, Rule::Identifier]) {
        Ok(
            OutputView {
                rarrow: token_of(n.children[0]),
                ty: type_specifier_of(n.children[1]),
                span: n.span,
            },
        )
    } else {
        Err(fault_at(ParseFault::UnexpectedChildren, Rule::Output, n))
    }
}

/// A declaration holds `let`, a name, a colon and the name of a type.
pub open spec fn built_variable_declaration(n: ParseNodeView) -> Result<VariableDeclarationView, ParseError> {
    if n.rule != Rule::VariableDeclaration {
        Err(fault_at(ParseFault::UnexpectedRule, Rule::VariableDeclaration, n))
    } else if shaped(n.children, seq![Rule::LetToken, Rule::Identifier, Rule::Colon, Rule::Identifier]) {
        Ok(
            VariableDeclarationView {
                let_token: token_of(n.children[0]),
                id: identifier_of(n.children[1]),
                colon: token_of(n.children[2]),
                ty: type_specifier_of(n.children[3]),
                span: n.span,
            },
        )
    } else {
        Err(fault_at(ParseFault::UnexpectedChildren, Rule::VariableDeclaration, n))
    }
}

/// The shape of an initialisation that writes a type.
pub open spec fn annotated_shape() -> Seq<Rule> {
    seq![
        Rule::LetToken,
        Rule::Identifier,
        Rule::Colon,
        Rule::Identifier,
        Rule::Equals,
        Rule::Expression,
    ]
}

/// The shape of an initialisation that leaves the type to the value.
pub open spec fn inferred_shape() -> Seq<Rule> {
    seq![Rule::LetToken, Rule::Identifier, Rule::Colon, Rule::Equals, Rule::Expression]
}

/// An initialisation has one of its two shapes, and holds the tree of its
/// expression.
pub open spec fn built_variable_initialisation(n: ParseNodeView) -> Result<
    VariableInitialisationView,
    ParseError,
>
    decreases n, 1nat, 0nat,
{
    if n.rule != Rule::VariableInitialisation {
        Err(fault_at(ParseFault::UnexpectedRule, Rule::VariableInitialisation, n))
    } else if shaped(n.children, annotated_shape()) {
        match built_expression(n.children[5]) {
            Ok(value) => Ok(
                VariableInitialisationView {
                    let_token: token_of(n.children[0]),
                    id: identifier_of(n.children[1]),
                    colon: token_of(n.children[2]),
                    ty: Some(type_specifier_of(n.children[3])),
                    equals: token_of(n.children[4]),
                    expr: value.node,
                    span: n.span,
                },
            ),
            Err(e) => Err(e),
        }
    } else if shaped(n.children, inferred_shape()) {
        match built_expression(n.children[4]) {
            Ok(value) => Ok(
                VariableInitialisationView {
                    let_token: token_of(n.children[0]),
                    id: identifier_of(n.children[1]),
                    colon: token_of(n.children[2]),
                    ty: None,
                    equals: token_of(n.children[3]),
                    expr: value.node,
                    span: n.span,
                },
            ),
            Err(e) => Err(e),
        }
    } else {
        Err(fault_at(ParseFault::UnexpectedChildren, Rule::VariableInitialisation, n))
    }
}

/// A return statement holds `return` and the tree of its expression.
pub open spec fn built_return_statement(n: ParseNodeView) -> Result<ReturnStatementView, ParseError>
    decreases n, 1nat, 0nat,
{
    if n.rule != Rule::ReturnStatement {
        Err(fault_at(ParseFault::UnexpectedRule, Rule::ReturnStatement, n))
    } else if shaped(n.children, seq![Rule::ReturnToken, Rule::Expression]) {
        match built_expression(n.children[1]) {
            Ok(value) => Ok(
                ReturnStatementView {
                    return_token: token_of(n.children[0]),
                    expr: value.node,
                    span: n.span,
                },
            ),
            Err(e) => Err(e),
        }
    } else {
        Err(fault_at(ParseFault::UnexpectedChildren, Rule::ReturnStatement, n))
    }
}

/// An expression statement holds the tree of its expression.
pub open spec fn built_expression_statement(n: ParseNodeView) -> Result<ExpressionStatementView, ParseError>
    decreases n, 1nat, 0nat,
{
    if n.rule != Rule::ExpressionStatement {
        Err(fault_at(ParseFault::UnexpectedRule, Rule::ExpressionStatement, n))
    } else if shaped(n.children, seq![Rule::Expression]) {
        match built_expression(n.children[0]) {
            Ok(value) => Ok(ExpressionStatementView { expr: value.node, span: n.span }),
            Err(e) => Err(e),
        }
    } else {
        Err(fault_at(ParseFault::UnexpectedChildren, Rule::ExpressionStatement, n))
    }
}

/// The rules that stand for a statement. Children of a block or file that
/// are recognised by other rules are passed over.
pub open spec fn is_statement(rule: Rule) -> bool {
    rule == Rule::ExpressionStatement || rule == Rule::ReturnStatement || rule
        == Rule::VariableDeclaration || rule == Rule::VariableInitialisation || rule
        == Rule::FunctionDefinition
}

/// The node that a statement builds to.
pub open spec fn built_statement(n: ParseNodeView) -> Result<NodeView, ParseError>
    decreases n, 2nat, 0nat,
{
    match n.rule {
        Rule::ExpressionStatement => match built_expression_statement(n) {
            Ok(s) => Ok(NodeView::Expression(s)),
            Err(e) => Err(e),
        },
        Rule::ReturnStatement => match built_return_statement(n) {
            Ok(s) => Ok(NodeView::Return(s)),
            Err(e) => Err(e),
        },
        Rule::VariableDeclaration => match built_variable_declaration(n) {
            Ok(s) => Ok(NodeView::VariableDeclaration(s)),
            Err(e) => Err(e),
        },
        Rule::VariableInitialisation => match built_variable_initialisation(n) {
            Ok(s) => Ok(NodeView::VariableInitialisation(s)),
            Err(e) => Err(e),
        },
        Rule::FunctionDefinition => match built_function_definition(n) {
            Ok(s) => Ok(NodeView::FunctionDefinition(s)),
            Err(e) => Err(e),
        },
        _ => Err(fault_at(ParseFault::UnexpectedRule, Rule::ExpressionStatement, n)),
    }
}

/// The statements among the children from place `i` on, in order, behind
/// those that were built before. The first statement that fails to build
/// fails them all.
pub open spec fn built_statements(children: Seq<ParseNodeView>, i: int, before: Seq<NodeView>) -> Result<
    Seq<NodeView>,
    ParseError,
>
    decreases children, 3nat, children.len() - i,
{
    if i < 0 || i >= children.len() {
        Ok(before)
    } else if is_statement(children[i].rule) {
        match built_statement(children[i]) {
            Ok(s) => built_statements(children, i + 1, before.push(s)),
            Err(e) => Err(e),
        }
    } else {
        built_statements(children, i + 1, before)
    }
}

/// The token of the last child before place `i` that `rule` recognised.
pub open spec fn last_token(children: Seq<ParseNodeView>, rule: Rule, i: int) -> Option<TokenView>
    decreases i,
{
    if i <= 0 || i > children.len() {
        None
    } else if children[i - 1].rule == rule {
        Some(token_of(children[i - 1]))
    } else {
        last_token(children, rule, i - 1)
    }
}

/// A block holds its statements between two braces, both of which must be
/// there.
pub open spec fn built_block(n: ParseNodeView) -> Result<BlockView, ParseError>
    decreases n, 0nat, 0nat,
{
    if n.rule != Rule::Block {
        Err(fault_at(ParseFault::UnexpectedRule, Rule::Block, n))
    } else {
        match built_statements(n.children, 0, Seq::empty()) {
            Err(e) => Err(e),
            Ok(stmts) => match (
                last_token(n.children, Rule::LBrace, n.children.len() as int),
                last_token(n.children, Rule::RBrace, n.children.len() as int),
            ) {
                (Some(lbrace), Some(rbrace)) => Ok(BlockView { lbrace, stmts, rbrace, span: n.span }),
                _ => Err(fault_at(ParseFault::MissingDelimiter, Rule::Block, n)),
            },
        }
    }
}

/// The shape of a function definition.
pub open spec fn function_shape() -> Seq<Rule> {
    seq![Rule::ProcToken, Rule::Identifier, Rule::ParameterList, Rule::Output, Rule::Block]
}

/// A function definition holds its keyword, its name, its parameters, its
/// output and its body. The signature reaches from the keyword to the end
/// of the output.
pub open spec fn built_function_definition(n: ParseNodeView) -> Result<FunctionDefinitionView, ParseError>
    decreases n, 1nat, 0nat,
{
    if n.rule != Rule::FunctionDefinition {
        Err(fault_at(ParseFault::UnexpectedRule, Rule::FunctionDefinition, n))
    } else if shaped(n.children, function_shape()) {
        match built_parameter_list(n.children[2]) {
            Err(e) => Err(e),
            Ok(params) => match built_output(n.children[3]) {
                Err(e) => Err(e),
                Ok(output) => match built_block(n.children[4]) {
                    Err(e) => Err(e),
                    Ok(block) => Ok(
                        FunctionDefinitionView {
                            sig: SignatureView {
                                func_token: token_of(n.children[0]),
                                id: identifier_of(n.children[1]),
                                params,
                                output,
                                span: n.children[0].span.through(output.span),
                            },
                            block,
                            span: n.span,
                        },
                    ),
                },
            },
        }
    } else {
        Err(fault_at(ParseFault::UnexpectedChildren, Rule::FunctionDefinition, n))
    }
}

/// A file holds the top-level statements of one source text.
pub open spec fn built_file(n: ParseNodeView) -> Result<FileView, ParseError>
    decreases n, 4nat, 0nat,
{
    if n.rule != Rule::File {
        Err(fault_at(ParseFault::UnexpectedRule, Rule::File, n))
    } else {
        match built_statements(n.children, 0, Seq::empty()) {
            Err(e) => Err(e),
            Ok(stmts) => Ok(FileView { stmts, span: Some(n.span) }),
        }
    }
}

/// The failure for a parse that did not hand over exactly one tree: it
/// names the second tree where there is one.
pub open spec fn not_single(inputs: Seq<ParseNodeView>) -> ParseError {
    if inputs.len() >= 2 {
        fault_at(ParseFault::NotSingle, Rule::File, inputs[1])
    } else {
        ParseError {
            fault: ParseFault::NotSingle,
            within: Rule::File,
            rule: Rule::EOI,
            span: crate::span::Span {
                start: crate::span::LineColumn { line: 1, column: 1 },
                end: crate::span::LineColumn { line: 1, column: 1 },
            },
        }
    }
}

/// The syntax tree of what a parse handed over, which must be one tree
/// whose root is a file.
pub open spec fn parsed(inputs: Seq<ParseNodeView>) -> Result<FileView, ParseError> {
    if inputs.len() == 1 {
        built_file(inputs[0])
    } else {
        Err(not_single(inputs))
    }
}

} // verus!
