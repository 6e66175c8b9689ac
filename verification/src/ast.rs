//! The builder: one routine for each rule of the grammar, which makes the
//! node of the syntax tree out of the node of the parse tree.

use vstd::prelude::*;
use vstd::string::*;
use crate::error::{ParseError, ParseFault};
use crate::expression::{BinaryOperator, Boolean, Character, Float, Identifier, Integer, Str};
use crate::grammar::{ParseNode, Rule, parse_nodes_view};
use crate::literal::{character_value, parse_decimal};
use crate::node::{
    Block, File, NodeType, NodeView, Output, Parameter, ParameterList, ParameterView, Term,
    TypeSpecifier, nodes_view, parameter_entry_view,
};
use crate::climbing::{
    climb_state, ends_at, lemma_climb_done, lemma_climb_starts, lemma_fold_climbs,
    lemma_operand_fails, lemma_operand_missing, lemma_operator_sound, lemma_operator_unknown,
    lemma_right_continues, lemma_right_descends, lemma_right_starts, right_ends_at, right_state,
};
use crate::layout::{file_well_spanned, lemma_file_is_well_spanned};
use crate::placement::well_placed;
use crate::precedence::{Assoc, lemma_level_has_one_side, operator_precedence};
use crate::statement::{
    ExpressionStatement, FunctionDefinition, ReturnStatement, Signature, VariableDeclaration,
    VariableInitialisation,
};
use crate::syntax::{
    ParameterScan, built, built_block, built_boolean, built_character, built_expression,
    built_expression_statement, built_file, built_float, built_function_definition,
    built_identifier, built_integer, built_integer_decimal, built_output, built_parameter,
    built_parameter_list, built_return_statement, built_statement, built_statements, built_string,
    built_term, built_variable_declaration, built_variable_initialisation, chain_fault_from,
    fault_at, folded, identifier_of, last_token, level_at, operator_node, parsed, scan_parameters,
    scan_start, scan_step, shaped, token_of, type_specifier_of, wrapped,
};
use crate::token::{Token, TokenView, token_option_view};

verus! {

/// The builder of syntax trees.
pub struct GeckoParser;

/// The token that a node stands for.
pub fn token_from_node(input: &ParseNode) -> (r: Token)
    ensures
        r@ == token_of(input@),
{
    Token { value: input.text.clone(), span: input.span }
}

/// The failure that names `node` as the offending node.
fn fault(what: ParseFault, within: Rule, node: &ParseNode) -> (r: ParseError)
    ensures
        r == fault_at(what, within, node@),
{
    ParseError { fault: what, within, rule: node.rule, span: node.span }
}

/// Whether the children are recognised by exactly the given rules, in order.
fn has_shape(children: &Vec<ParseNode>, rules: Vec<Rule>) -> (r: bool)
    ensures
        r == shaped(parse_nodes_view(children@), rules@),
{
    if children.len() != rules.len() {
        return false;
    }
    let ghost views = parse_nodes_view(children@);
    let mut i: usize = 0;
    while i < rules.len()
        invariant
            i <= rules.len(),
            children.len() == rules.len(),
            views == parse_nodes_view(children@),
            forall|j: int| 0 <= j < i ==> (#[trigger] views[j]).rule == rules@[j],
        decreases rules.len() - i,
    {
        if children[i].rule != rules[i] {
            assert(views[i as int].rule != rules@[i as int]);
            return false;
        }
        i = i + 1;
    }
    true
}

/// The identifier that a node stands for.
fn identifier_from_node(input: &ParseNode) -> (r: Identifier)
    ensures
        r@ == identifier_of(input@),
{
    Identifier { name: input.text.clone(), span: input.span }
}

/// The type specifier that a node stands for.
fn type_specifier_from_node(input: &ParseNode) -> (r: TypeSpecifier)
    ensures
        r@ == type_specifier_of(input@),
{
    TypeSpecifier { id: identifier_from_node(input), span: input.span }
}

/// The term that wraps a node under the given span.
fn wrap(node: NodeType, span: crate::span::Span) -> (r: Term)
    ensures
        r@ == wrapped(node@, span),
{
    Term { node: Box::new(node), span }
}

/// Joins two operands by an operator.
fn fold(left: Term, op: &ParseNode, right: Term) -> (r: Term)
    ensures
        r@ == folded(left@, op@, right@),
{
    let span = left.span.join(&right.span);
    Term {
        node: Box::new(
            NodeType::BinaryOperator(
                BinaryOperator { left: left.node, op: token_from_node(op), right: right.node, span },
            ),
        ),
        span,
    }
}

/// The token of the last child that `rule` recognised.
fn last_of(children: &Vec<ParseNode>, rule: Rule) -> (r: Option<Token>)
    ensures
        token_option_view(r) == last_token(parse_nodes_view(children@), rule, children@.len() as int),
{
    let ghost views = parse_nodes_view(children@);
    let mut i: usize = children.len();
    while i > 0
        invariant
            i <= children.len(),
            views == parse_nodes_view(children@),
            last_token(views, rule, i as int) == last_token(views, rule, children@.len() as int),
        decreases i,
    {
        i = i - 1;
        if children[i].rule == rule {
            return Some(token_from_node(&children[i]));
        }
    }
    None
}

impl GeckoParser {
    /// Builds an identifier: its name is the text of the node.
    pub fn identifier(input: &ParseNode) -> (r: Result<Identifier, ParseError>)
        ensures
            built(r) == built_identifier(input@),
    {
        if input.rule != Rule::Identifier {
            return Err(fault(ParseFault::UnexpectedRule, Rule::Identifier, input));
        }
        Ok(identifier_from_node(input))
    }

    /// Builds a boolean literal, whose value the rule of its child tells.
    pub fn boolean(input: &ParseNode) -> (r: Result<Boolean, ParseError>)
        ensures
            built(r) == built_boolean(input@),
    {
        if input.rule != Rule::Boolean {
            return Err(fault(ParseFault::UnexpectedRule, Rule::Boolean, input));
        }
        if has_shape(&input.children, vec![Rule::BooleanTrue]) {
            Ok(Boolean { value: true, span: input.span })
        } else if has_shape(&input.children, vec![Rule::BooleanFalse]) {
            Ok(Boolean { value: false, span: input.span })
        } else {
            Err(fault(ParseFault::UnexpectedChildren, Rule::Boolean, input))
        }
    }

    /// The value of a decimal literal.
    pub fn integer_decimal(input: &ParseNode) -> (r: Result<i128, ParseError>)
        ensures
            r == built_integer_decimal(input@),
    {
        if input.rule != Rule::IntegerDecimal {
            return Err(fault(ParseFault::UnexpectedRule, Rule::IntegerDecimal, input));
        }
        match parse_decimal(input.text.as_str()) {
            Some(value) => Ok(value),
            None => Err(fault(ParseFault::IntegerOutOfRange, Rule::IntegerDecimal, input)),
        }
    }

    /// Builds an integer literal: a decimal number, or zero.
    pub fn integer(input: &ParseNode) -> (r: Result<Integer, ParseError>)
        ensures
            built(r) == built_integer(input@),
    {
        if input.rule != Rule::Integer {
            return Err(fault(ParseFault::UnexpectedRule, Rule::Integer, input));
        }
        if has_shape(&input.children, vec![Rule::IntegerDecimal]) {
            match Self::integer_decimal(&input.children[0]) {
                Ok(value) => Ok(Integer { value, span: input.span }),
                Err(e) => Err(e),
            }
        } else if has_shape(&input.children, vec![Rule::IntegerZero]) {
            Ok(Integer { value: 0, span: input.span })
        } else {
            Err(fault(ParseFault::UnexpectedChildren, Rule::Integer, input))
        }
    }

    /// Builds a floating-point literal, which keeps its text.
    pub fn float(input: &ParseNode) -> (r: Result<Float, ParseError>)
        ensures
            built(r) == built_float(input@),
    {
        if input.rule != Rule::Float {
            return Err(fault(ParseFault::UnexpectedRule, Rule::Float, input));
        }
        Ok(Float { text: input.text.clone(), span: input.span })
    }

    /// Builds a character literal: one character between two quotes.
    pub fn character(input: &ParseNode) -> (r: Result<Character, ParseError>)
        ensures
            built(r) == built_character(input@),
    {
        if input.rule != Rule::Character {
            return Err(fault(ParseFault::UnexpectedRule, Rule::Character, input));
        }
        proof {
            let views = input@.children;
            assert(views.len() == input.children@.len());
            if views.len() == 3 {
                assert(views[0] == input.children@[0]@);
                assert(views[1] == input.children@[1]@);
                assert(views[2] == input.children@[2]@);
            }
        }
        if input.children.len() == 3 && input.children[0].rule == Rule::SingleQuote
            && input.children[2].rule == Rule::SingleQuote {
            let content = input.children[1].text.as_str();
            if content.unicode_len() == 1 {
                Ok(
                    Character {
                        lquote: token_from_node(&input.children[0]),
                        value: character_value(content.get_char(0)),
                        rquote: token_from_node(&input.children[2]),
                        span: input.span,
                    },
                )
            } else {
                Err(fault(ParseFault::NotOneCharacter, Rule::Character, &input.children[1]))
            }
        } else {
            Err(fault(ParseFault::UnexpectedChildren, Rule::Character, input))
        }
    }

    /// Builds a string literal, which keeps its text.
    pub fn string(input: &ParseNode) -> (r: Result<Str, ParseError>)
        ensures
            built(r) == built_string(input@),
    {
        if input.rule != Rule::String {
            return Err(fault(ParseFault::UnexpectedRule, Rule::String, input));
        }
        Ok(Str { string: input.text.clone(), span: input.span })
    }

    /// Builds a parameter: a name, a colon and the name of a type.
    pub fn parameter(input: &ParseNode) -> (r: Result<Parameter, ParseError>)
        ensures
            built(r) == built_parameter(input@),
    {
        if input.rule != Rule::Parameter {
            return Err(fault(ParseFault::UnexpectedRule, Rule::Parameter, input));
        }
        if has_shape(&input.children, vec![Rule::Identifier, Rule::Colon, Rule::Identifier]) {
            Ok(
                Parameter {
                    id: identifier_from_node(&input.children[0]),
                    colon_token: token_from_node(&input.children[1]),
                    ty: type_specifier_from_node(&input.children[2]),
                    span: input.span,
                },
            )
        } else {
            Err(fault(ParseFault::UnexpectedChildren, Rule::Parameter, input))
        }
    }

    /// Builds the output of a function: an arrow and the name of a type.
    pub fn output(input: &ParseNode) -> (r: Result<Output, ParseError>)
        ensures
            built(r) == built_output(input@),
    {
        if input.rule != Rule::Output {
            return Err(fault(ParseFault::UnexpectedRule, Rule::Output, input));
        }
        if has_shape(&input.children, vec![Rule::RArrow, Rule::Identifier]) {
            Ok(
                Output {
                    rarrow: token_from_node(&input.children[0]),
                    ty: type_specifier_from_node(&input.children[1]),
                    span: input.span,
                },
            )
        } else {
            Err(fault(ParseFault::UnexpectedChildren, Rule::Output, input))
        }
    }

    /// Builds a declaration: `let`, a name, a colon and the name of a type.
    pub fn variable_declaration(input: &ParseNode) -> (r: Result<VariableDeclaration, ParseError>)
        ensures
            built(r) == built_variable_declaration(input@),
    {
        if input.rule != Rule::VariableDeclaration {
            return Err(fault(ParseFault::UnexpectedRule, Rule::VariableDeclaration, input));
        }
        if has_shape(
            &input.children,
            vec![Rule::LetToken, Rule::Identifier, Rule::Colon, Rule::Identifier],
        ) {
            Ok(
                VariableDeclaration {
                    let_token: token_from_node(&input.children[0]),
                    id: identifier_from_node(&input.children[1]),
                    colon: token_from_node(&input.children[2]),
                    ty: type_specifier_from_node(&input.children[3]),
                    span: input.span,
                },
            )
        } else {
            Err(fault(ParseFault::UnexpectedChildren, Rule::VariableDeclaration, input))
        }
    }

    /// Builds a term: the operand that it holds, under the span of the
    /// operand.
    pub fn term(input: &ParseNode) -> (r: Result<Term, ParseError>)
        ensures
            built(r) == built_term(input@),
        decreases input, 0nat, 0nat,
    {
        if input.rule != Rule::Term {
            return Err(fault(ParseFault::UnexpectedRule, Rule::Term, input));
        }
        if input.children.len() != 1 {
            return Err(fault(ParseFault::UnexpectedChildren, Rule::Term, input));
        }
        let c = &input.children[0];
        assert(input@.children[0] == c@);
        match c.rule {
            Rule::Expression => Self::expression(c),
            Rule::Identifier => Ok(wrap(NodeType::Identifier(identifier_from_node(c)), c.span)),
            Rule::Integer => match Self::integer(c) {
                Ok(i) => Ok(wrap(NodeType::Integer(i), c.span)),
                Err(e) => Err(e),
            },
            Rule::Character => match Self::character(c) {
                Ok(x) => Ok(wrap(NodeType::Character(x), c.span)),
                Err(e) => Err(e),
            },
            Rule::String => Ok(
                wrap(NodeType::Str(Str { string: c.text.clone(), span: c.span }), c.span),
            ),
            Rule::Float => Ok(
                wrap(NodeType::Float(Float { text: c.text.clone(), span: c.span }), c.span),
            ),
            Rule::Boolean => match Self::boolean(c) {
                Ok(b) => Ok(wrap(NodeType::Boolean(b), c.span)),
                Err(e) => Err(e),
            },
            _ => Err(fault(ParseFault::UnexpectedChildren, Rule::Term, input)),
        }
    }

    /// Climbs a chain from the operator behind operand `next` on. `lhs` is
    /// the tree of the operands `first..=next`. Operators that bind at least
    /// as strongly as `min_prec` are taken, each with the right operand that
    /// the operators behind it leave to it; the climb ends before the first
    /// operator that binds weaker, or where the chain ends.
    fn climb(
        children: &Vec<ParseNode>,
        lhs: Term,
        min_prec: u32,
        next: usize,
        Ghost(first): Ghost<int>,
    ) -> (r: Result<(Term, usize), ParseError>)
        requires
            climb_state(
                parse_nodes_view(children@),
                first,
                next as int,
                next as int,
                min_prec as nat,
                lhs@,
            ),
        ensures
            match r {
                Err(e) => chain_fault_from(parse_nodes_view(children@), 0) == Some(e),
                Ok((tree, end)) => climb_state(
                    parse_nodes_view(children@),
                    first,
                    next as int,
                    end as int,
                    min_prec as nat,
                    tree@,
                ) && ends_at(parse_nodes_view(children@), end as int, min_prec as nat),
            },
        decreases children, children.len() - next, 0nat,
    {
        let ghost cv = parse_nodes_view(children@);
        let mut acc = lhs;
        let mut cur = next;
        while 2 * cur + 1 < children.len()
            invariant
                cv == parse_nodes_view(children@),
                climb_state(cv, first, next as int, cur as int, min_prec as nat, acc@),
            decreases children.len() - cur,
        {
            let op = &children[2 * cur + 1];
            assert(operator_node(cv, cur as int) == op@);
            match operator_precedence(op.rule) {
                None => {
                    proof {
                        lemma_operator_unknown(cv, cur as int);
                    }
                    return Err(fault(ParseFault::NotAnOperator, Rule::Expression, op));
                },
                Some((prec, _)) => {
                    assert(level_at(cv, cur as int) == prec);
                    if prec < min_prec {
                        return Ok((acc, cur));
                    }
                    if 2 * cur + 2 >= children.len() {
                        proof {
                            lemma_operand_missing(cv, cur as int);
                        }
                        return Err(fault(ParseFault::MissingOperand, Rule::Expression, op));
                    }
                    assert(cv[2 * cur + 2] == children@[2 * cur + 2]@);
                    let operand = match Self::term(&children[2 * cur + 2]) {
                        Ok(t) => t,
                        Err(e) => {
                            proof {
                                lemma_operator_sound(cv, cur as int);
                                lemma_operand_fails(cv, cur + 1, e);
                            }
                            return Err(e);
                        },
                    };
                    proof {
                        lemma_right_starts(cv, cur as int, operand@);
                    }
                    let (rhs, end) = match Self::climb_right(children, operand, prec, cur + 1, Ghost(cur as int)) {
                        Ok(pair) => pair,
                        Err(e) => {
                            return Err(e);
                        },
                    };
                    proof {
                        lemma_fold_climbs(
                            cv,
                            first,
                            next as int,
                            cur as int,
                            end as int,
                            min_prec as nat,
                            acc@,
                            rhs@,
                        );
                    }
                    acc = fold(acc, op, rhs);
                    cur = end;
                },
            }
        }
        Ok((acc, cur))
    }

    /// Climbs into the right operand of the operator behind operand `root`,
    /// whose level is `prec`. `rhs` is the tree of the operands
    /// `root + 1..=next`. The climb goes on while the next operator binds
    /// stronger than the root, or as strongly where the level groups to the
    /// right.
    fn climb_right(
        children: &Vec<ParseNode>,
        rhs: Term,
        prec: u32,
        next: usize,
        Ghost(root): Ghost<int>,
    ) -> (r: Result<(Term, usize), ParseError>)
        requires
            right_state(parse_nodes_view(children@), root, next as int, rhs@),
            level_at(parse_nodes_view(children@), root) == prec,
        ensures
            match r {
                Err(e) => chain_fault_from(parse_nodes_view(children@), 0) == Some(e),
                Ok((tree, end)) => right_state(parse_nodes_view(children@), root, end as int, tree@)
                    && right_ends_at(parse_nodes_view(children@), root, end as int),
            },
        decreases children, children.len() - next, 1nat,
    {
        let ghost cv = parse_nodes_view(children@);
        let mut acc = rhs;
        let mut cur = next;
        while 2 * cur + 1 < children.len()
            invariant
                cv == parse_nodes_view(children@),
                next <= cur,
                level_at(cv, root) == prec,
                right_state(cv, root, cur as int, acc@),
            decreases children.len() - cur,
        {
            let peek = &children[2 * cur + 1];
            assert(operator_node(cv, cur as int) == peek@);
            match operator_precedence(peek.rule) {
                None => {
                    proof {
                        lemma_operator_unknown(cv, cur as int);
                    }
                    return Err(fault(ParseFault::NotAnOperator, Rule::Expression, peek));
                },
                Some((new_prec, assoc)) => {
                    proof {
                        lemma_level_has_one_side(peek.rule);
                    }
                    assert(level_at(cv, cur as int) == new_prec);
                    if new_prec > prec || (assoc == Assoc::Right && new_prec == prec) {
                        let ghost before = cur;
                        proof {
                            lemma_right_descends(cv, root, cur as int, acc@);
                        }
                        let (tree, end) = match Self::climb(children, acc, new_prec, cur, Ghost(root + 1)) {
                            Ok(pair) => pair,
                            Err(e) => {
                                return Err(e);
                            },
                        };
                        proof {
                            lemma_right_continues(cv, root, before as int, end as int, tree@);
                        }
                        acc = tree;
                        cur = end;
                    } else {
                        return Ok((acc, cur));
                    }
                },
            }
        }
        Ok((acc, cur))
    }

    /// Builds an expression: the tree of its chain of terms and operators.
    pub fn expression(input: &ParseNode) -> (r: Result<Term, ParseError>)
        ensures
            built(r) == built_expression(input@),
        decreases input, 0nat, 1nat,
    {
        if input.rule != Rule::Expression {
            return Err(fault(ParseFault::UnexpectedRule, Rule::Expression, input));
        }
        if input.children.len() == 0 {
            return Err(fault(ParseFault::MissingOperand, Rule::Expression, input));
        }
        let ghost cv = parse_nodes_view(input.children@);
        assert(cv[0] == input.children@[0]@);
        let first = match Self::term(&input.children[0]) {
            Ok(t) => t,
            Err(e) => {
                proof {
                    lemma_operand_fails(cv, 0, e);
                }
                return Err(e);
            },
        };
        proof {
            lemma_climb_starts(cv, first@);
        }
        match Self::climb(&input.children, first, 0, 0, Ghost(0)) {
            Ok((tree, end)) => {
                proof {
                    lemma_climb_done(cv, end as int, tree@);
                }
                Ok(tree)
            },
            Err(e) => Err(e),
        }
    }

    /// Builds a parameter list: each parameter with the comma behind it,
    /// between the two parentheses.
    pub fn parameter_list(input: &ParseNode) -> (r: Result<ParameterList, ParseError>)
        ensures
            built(r) == built_parameter_list(input@),
    {
        if input.rule != Rule::ParameterList {
            return Err(fault(ParseFault::UnexpectedRule, Rule::ParameterList, input));
        }
        let ghost cv = parse_nodes_view(input.children@);
        let mut lp: Option<Token> = None;
        let mut params: Vec<(Parameter, Option<Token>)> = Vec::new();
        let mut next_param: Option<Parameter> = None;
        let mut rp: Option<Token> = None;
        let mut i: usize = 0;
        assert(scan_view(lp, params@, next_param, rp) == scan_start()) by {
            assert(entries_view(params@) =~= Seq::empty());
        }
        while i < input.children.len()
            invariant
                i <= input.children.len(),
                input.rule == Rule::ParameterList,
                cv == parse_nodes_view(input.children@),
                scan_parameters(cv, i as int, scan_view(lp, params@, next_param, rp))
                    == scan_parameters(cv, 0, scan_start()),
            decreases input.children.len() - i,
        {
            let n = &input.children[i];
            assert(cv[i as int] == n@);
            let ghost state = scan_view(lp, params@, next_param, rp);
            match n.rule {
                Rule::LParen => {
                    lp = Some(token_from_node(n));
                },
                Rule::Parameter => {
                    if next_param.is_some() {
                        return Err(fault(ParseFault::MissingDelimiter, Rule::ParameterList, n));
                    }
                    match Self::parameter(n) {
                        Ok(p) => {
                            next_param = Some(p);
                        },
                        Err(e) => {
                            return Err(e);
                        },
                    }
                },
                Rule::Comma => {
                    match next_param {
                        Some(p) => {
                            let ghost before = params@;
                            let comma = token_from_node(n);
                            params.push((p, Some(comma)));
                            next_param = None;
                            assert(entries_view(params@) =~= entries_view(before).push(
                                (p@, Some(token_of(n@))),
                            ));
                        },
                        None => {
                            return Err(fault(ParseFault::MisplacedComma, Rule::ParameterList, n));
                        },
                    }
                },
                Rule::RParen => {
                    match next_param {
                        Some(p) => {
                            let ghost before = params@;
                            params.push((p, None));
                            next_param = None;
                            assert(entries_view(params@) =~= entries_view(before).push((p@, None)));
                        },
                        None => {
                            if params.len() > 0 {
                                return Err(fault(ParseFault::MisplacedComma, Rule::ParameterList, n));
                            }
                        },
                    }
                    rp = Some(token_from_node(n));
                },
                _ => {},
            }
            assert(scan_step(state, cv[i as int]) == Ok::<ParameterScan, ParseError>(
                scan_view(lp, params@, next_param, rp),
            ));
            i = i + 1;
        }
        match (lp, rp) {
            (Some(lparen), Some(rparen)) => {
                Ok(ParameterList { lparen, parameters: params, rparen, span: input.span })
            },
            _ => Err(fault(ParseFault::MissingDelimiter, Rule::ParameterList, input)),
        }
    }

    /// Builds an expression statement from the expression it holds.
    pub fn expression_statement(input: &ParseNode) -> (r: Result<ExpressionStatement, ParseError>)
        ensures
            built(r) == built_expression_statement(input@),
        decreases input, 1nat, 0nat,
    {
        if input.rule != Rule::ExpressionStatement {
            return Err(fault(ParseFault::UnexpectedRule, Rule::ExpressionStatement, input));
        }
        if has_shape(&input.children, vec![Rule::Expression]) {
            assert(input@.children[0] == input.children@[0]@);
            match Self::expression(&input.children[0]) {
                Ok(value) => Ok(ExpressionStatement { expr: value.node, span: input.span }),
                Err(e) => Err(e),
            }
        } else {
            Err(fault(ParseFault::UnexpectedChildren, Rule::ExpressionStatement, input))
        }
    }

    /// Builds a return statement: `return` and an expression.
    pub fn return_statement(input: &ParseNode) -> (r: Result<ReturnStatement, ParseError>)
        ensures
            built(r) == built_return_statement(input@),
        decreases input, 1nat, 0nat,
    {
        if input.rule != Rule::ReturnStatement {
            return Err(fault(ParseFault::UnexpectedRule, Rule::ReturnStatement, input));
        }
        if has_shape(&input.children, vec![Rule::ReturnToken, Rule::Expression]) {
            assert(input@.children[0] == input.children@[0]@);
            assert(input@.children[1] == input.children@[1]@);
            match Self::expression(&input.children[1]) {
                Ok(value) => Ok(
                    ReturnStatement {
                        return_token: token_from_node(&input.children[0]),
                        expr: value.node,
                        span: input.span,
                    },
                ),
                Err(e) => Err(e),
            }
        } else {
            Err(fault(ParseFault::UnexpectedChildren, Rule::ReturnStatement, input))
        }
    }

    /// Builds an initialisation: `let`, a name, a colon, optionally the name
    /// of a type, an equals sign and an expression.
    pub fn variable_initialisation(input: &ParseNode) -> (r: Result<VariableInitialisation, ParseError>)
        ensures
            built(r) == built_variable_initialisation(input@),
        decreases input, 1nat, 0nat,
    {
        if input.rule != Rule::VariableInitialisation {
            return Err(fault(ParseFault::UnexpectedRule, Rule::VariableInitialisation, input));
        }
        let ghost cv = input@.children;
        if has_shape(
            &input.children,
            vec![
                Rule::LetToken,
                Rule::Identifier,
                Rule::Colon,
                Rule::Identifier,
                Rule::Equals,
                Rule::Expression,
            ],
        ) {
            assert(cv[0] == input.children@[0]@ && cv[1] == input.children@[1]@ && cv[2]
                == input.children@[2]@ && cv[3] == input.children@[3]@ && cv[4]
                == input.children@[4]@ && cv[5] == input.children@[5]@);
            match Self::expression(&input.children[5]) {
                Ok(value) => Ok(
                    VariableInitialisation {
                        let_token: token_from_node(&input.children[0]),
                        id: identifier_from_node(&input.children[1]),
                        colon: token_from_node(&input.children[2]),
                        ty: Some(type_specifier_from_node(&input.children[3])),
                        equals: token_from_node(&input.children[4]),
                        expr: value.node,
                        span: input.span,
                    },
                ),
                Err(e) => Err(e),
            }
        } else if has_shape(
            &input.children,
            vec![Rule::LetToken, Rule::Identifier, Rule::Colon, Rule::Equals, Rule::Expression],
        ) {
            assert(cv[0] == input.children@[0]@ && cv[1] == input.children@[1]@ && cv[2]
                == input.children@[2]@ && cv[3] == input.children@[3]@ && cv[4]
                == input.children@[4]@);
            match Self::expression(&input.children[4]) {
                Ok(value) => Ok(
                    VariableInitialisation {
                        let_token: token_from_node(&input.children[0]),
                        id: identifier_from_node(&input.children[1]),
                        colon: token_from_node(&input.children[2]),
                        ty: None,
                        equals: token_from_node(&input.children[3]),
                        expr: value.node,
                        span: input.span,
                    },
                ),
                Err(e) => Err(e),
            }
        } else {
            Err(fault(ParseFault::UnexpectedChildren, Rule::VariableInitialisation, input))
        }
    }

    /// Builds a function definition: its signature and its body.
    pub fn function_definition(input: &ParseNode) -> (r: Result<FunctionDefinition, ParseError>)
        ensures
            built(r) == built_function_definition(input@),
        decreases input, 1nat, 0nat,
    {
        if input.rule != Rule::FunctionDefinition {
            return Err(fault(ParseFault::UnexpectedRule, Rule::FunctionDefinition, input));
        }
        let ghost cv = input@.children;
        if has_shape(
            &input.children,
            vec![Rule::ProcToken, Rule::Identifier, Rule::ParameterList, Rule::Output, Rule::Block],
        ) {
            assert(cv[0] == input.children@[0]@ && cv[1] == input.children@[1]@ && cv[2]
                == input.children@[2]@ && cv[3] == input.children@[3]@ && cv[4]
                == input.children@[4]@);
            let params = match Self::parameter_list(&input.children[2]) {
                Ok(p) => p,
                Err(e) => {
                    return Err(e);
                },
            };
            let output = match Self::output(&input.children[3]) {
                Ok(o) => o,
                Err(e) => {
                    return Err(e);
                },
            };
            let block = match Self::block(&input.children[4]) {
                Ok(b) => b,
                Err(e) => {
                    return Err(e);
                },
            };
            let func_token = token_from_node(&input.children[0]);
            let span = func_token.span.join(&output.span);
            let sig = Signature {
                func_token,
                id: identifier_from_node(&input.children[1]),
                params,
                output,
                span,
            };
            Ok(FunctionDefinition { sig, block, span: input.span })
        } else {
            Err(fault(ParseFault::UnexpectedChildren, Rule::FunctionDefinition, input))
        }
    }

    /// Builds the node of a statement.
    fn statement(input: &ParseNode) -> (r: Result<NodeType, ParseError>)
        ensures
            built(r) == built_statement(input@),
        decreases input, 2nat, 0nat,
    {
        match input.rule {
            Rule::ExpressionStatement => match Self::expression_statement(input) {
                Ok(s) => Ok(NodeType::Expression(s)),
                Err(e) => Err(e),
            },
            Rule::ReturnStatement => match Self::return_statement(input) {
                Ok(s) => Ok(NodeType::Return(s)),
                Err(e) => Err(e),
            },
            Rule::VariableDeclaration => match Self::variable_declaration(input) {
                Ok(s) => Ok(NodeType::VariableDeclaration(s)),
                Err(e) => Err(e),
            },
            Rule::VariableInitialisation => match Self::variable_initialisation(input) {
                Ok(s) => Ok(NodeType::VariableInitialisation(s)),
                Err(e) => Err(e),
            },
            Rule::FunctionDefinition => match Self::function_definition(input) {
                Ok(s) => Ok(NodeType::FunctionDefinition(s)),
                Err(e) => Err(e),
            },
            _ => Err(fault(ParseFault::UnexpectedRule, Rule::ExpressionStatement, input)),
        }
    }

    /// Builds the statements among the children of a block or file, in
    /// order, and passes over the children that are no statements.
    fn statements(children: &Vec<ParseNode>) -> (r: Result<Vec<Box<NodeType>>, ParseError>)
        ensures
            match r {
                Ok(stmts) => built_statements(parse_nodes_view(children@), 0, Seq::empty()) == Ok::<
                    Seq<NodeView>,
                    ParseError,
                >(nodes_view(stmts@)),
                Err(e) => built_statements(parse_nodes_view(children@), 0, Seq::empty()) == Err::<
                    Seq<NodeView>,
                    ParseError,
                >(e),
            },
        decreases children, 3nat, 0nat,
    {
        let ghost cv = parse_nodes_view(children@);
        let mut stmts: Vec<Box<NodeType>> = Vec::new();
        let mut i: usize = 0;
        assert(nodes_view(stmts@) =~= Seq::empty());
        while i < children.len()
            invariant
                i <= children.len(),
                cv == parse_nodes_view(children@),
                built_statements(cv, i as int, nodes_view(stmts@)) == built_statements(
                    cv,
                    0,
                    Seq::empty(),
                ),
            decreases children.len() - i,
        {
            let n = &children[i];
            assert(cv[i as int] == n@);
            let is_stmt = match n.rule {
                Rule::ExpressionStatement
                | Rule::ReturnStatement
                | Rule::VariableDeclaration
                | Rule::VariableInitialisation
                | Rule::FunctionDefinition => true,
                _ => false,
            };
            if is_stmt {
                match Self::statement(n) {
                    Ok(s) => {
                        let ghost before = nodes_view(stmts@);
                        stmts.push(Box::new(s));
                        assert(nodes_view(stmts@) =~= before.push(s@));
                    },
                    Err(e) => {
                        return Err(e);
                    },
                }
            }
            i = i + 1;
        }
        Ok(stmts)
    }

    /// Builds a block: its statements between its two braces.
    pub fn block(input: &ParseNode) -> (r: Result<Block, ParseError>)
        ensures
            built(r) == built_block(input@),
        decreases input, 4nat, 0nat,
    {
        if input.rule != Rule::Block {
            return Err(fault(ParseFault::UnexpectedRule, Rule::Block, input));
        }
        let stmts = match Self::statements(&input.children) {
            Ok(s) => s,
            Err(e) => {
                return Err(e);
            },
        };
        let lb = last_of(&input.children, Rule::LBrace);
        let rb = last_of(&input.children, Rule::RBrace);
        match (lb, rb) {
            (Some(lbrace), Some(rbrace)) => Ok(Block { lbrace, stmts, rbrace, span: input.span }),
            _ => Err(fault(ParseFault::MissingDelimiter, Rule::Block, input)),
        }
    }

    /// Builds a file: the top-level statements of one source text. Where
    /// the parse tree is laid out in source order, every span of the file
    /// starts at or before its end.
    pub fn file(input: &ParseNode) -> (r: Result<File, ParseError>)
        ensures
            built(r) == built_file(input@),
            well_placed(input@) ==> (r matches Ok(file) ==> file_well_spanned(file@)),
    {
        if input.rule != Rule::File {
            return Err(fault(ParseFault::UnexpectedRule, Rule::File, input));
        }
        match Self::statements(&input.children) {
            Ok(stmts) => {
                let file = File { stmts, span: Some(input.span) };
                proof {
                    if well_placed(input@) {
                        lemma_file_is_well_spanned(input@);
                    }
                }
                Ok(file)
            },
            Err(e) => Err(e),
        }
    }
}

/// The view of the list of complete parameters.
pub open spec fn entries_view(entries: Seq<(Parameter, Option<Token>)>) -> Seq<
    (ParameterView, Option<TokenView>),
> {
    entries.map_values(|e: (Parameter, Option<Token>)| parameter_entry_view(e))
}

/// The view of what has been read of a parameter list.
pub open spec fn scan_view(
    lparen: Option<Token>,
    parameters: Seq<(Parameter, Option<Token>)>,
    pending: Option<Parameter>,
    rparen: Option<Token>,
) -> ParameterScan {
    ParameterScan {
        lparen: token_option_view(lparen),
        parameters: entries_view(parameters),
        pending: match pending {
            Some(p) => Some(p@),
            None => None,
        },
        rparen: token_option_view(rparen),
    }
}

/// Builds the syntax tree of what a parse handed over, which must be one
/// tree whose root is a file. Where the parse tree is laid out in source
/// order, every span of the file starts at or before its end.
pub fn parse_gecko(inputs: &Vec<ParseNode>) -> (r: Result<File, ParseError>)
    ensures
        built(r) == parsed(parse_nodes_view(inputs@)),
        inputs@.len() == 1 && well_placed(inputs@[0]@) ==> (r matches Ok(file) ==> file_well_spanned(
            file@,
        )),
{
    if inputs.len() == 1 {
        assert(parse_nodes_view(inputs@)[0] == inputs@[0]@);
        GeckoParser::file(&inputs[0])
    } else if inputs.len() >= 2 {
        assert(parse_nodes_view(inputs@)[1] == inputs@[1]@);
        Err(fault(ParseFault::NotSingle, Rule::File, &inputs[1]))
    } else {
        Err(
            ParseError {
                fault: ParseFault::NotSingle,
                within: Rule::File,
                rule: Rule::EOI,
                span: crate::span::Span {
                    start: crate::span::LineColumn { line: 1, column: 1 },
                    end: crate::span::LineColumn { line: 1, column: 1 },
                },
            },
        )
    }
}

/// Building is a function of what the parse tree holds: two parses that
/// hand over the same trees build the same syntax tree, or fail alike.
pub proof fn lemma_building_is_deterministic(
    first: Vec<ParseNode>,
    second: Vec<ParseNode>,
    first_built: Result<File, ParseError>,
    second_built: Result<File, ParseError>,
)
    requires
        parse_nodes_view(first@) == parse_nodes_view(second@),
        built(first_built) == parsed(parse_nodes_view(first@)),
        built(second_built) == parsed(parse_nodes_view(second@)),
    ensures
        built(first_built) == built(second_built),
{
}

} // verus!
