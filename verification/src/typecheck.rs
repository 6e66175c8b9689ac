//! The semantic pass: a visitor that gives every expression its type,
//! enters declarations into the symbol table, and reports what does not
//! fit.

use vstd::prelude::*;
use vstd::string::*;
use crate::error::{ErrorKind, TypeError, TypeErrorView, append_errors, errors_view};
use crate::expression::{BinaryOperator, Boolean, Character, Float, Identifier, Integer, Str};
use crate::node::{
    Block, File, NodeType, Output, Parameter, ParameterList, Term, TypeSpecifier, nodes_view,
};
use crate::span::Span;
use crate::statement::{
    ExpressionStatement, FunctionDefinition, ReturnStatement, Signature, VariableDeclaration,
    VariableInitialisation,
};
use crate::symbol::{SymbolTable, SymbolView, framed};
use crate::token::Token;
use crate::tree_type::{
    FundamentalType, FundamentalTypeView, Type, binary_operator_prec, numeric_order, order_view,
    promoted, text_is, type_option_view,
};
use crate::typing::{
    Checked, ResolvedView, check_binary_operator, check_block, check_expression_statement,
    check_file, check_function_definition, check_identifier, check_node, check_output,
    check_parameter, check_parameter_list, check_return_statement, check_right_operand,
    check_signature, check_statements, check_term, check_type_specifier,
    check_variable_declaration, check_variable_initialisation, collected, has_type, mismatch_text,
    operand_type, operator_result, parameters_entered, passes, resolved_here,
};

verus! {

/// The type that an expression node was found to have: the span of the
/// node and the type.
#[derive(Debug, PartialEq, Eq)]
pub struct Resolved {
    pub span: Span,
    pub ty: Type,
}

impl View for Resolved {
    type V = ResolvedView;

    open spec fn view(&self) -> ResolvedView {
        ResolvedView { span: self.span, ty: self.ty@ }
    }
}

impl Clone for Resolved {
    fn clone(&self) -> (r: Resolved)
        ensures
            r@ == self@,
    {
        Resolved { span: self.span, ty: self.ty.clone() }
    }
}

/// The views of a list of resolved types, in order.
pub open spec fn resolved_view(types: Seq<Resolved>) -> Seq<ResolvedView> {
    types.map_values(|r: Resolved| r@)
}

/// The view of what a check returns.
pub open spec fn result_view(r: Result<Option<Type>, Vec<TypeError>>) -> Result<
    Option<FundamentalTypeView>,
    Seq<TypeErrorView>,
> {
    match r {
        Ok(t) => Ok(type_option_view(t)),
        Err(errors) => Err(errors_view(errors@)),
    }
}

/// A node that can be checked against a symbol table.
pub trait TypeCheck {
    /// What checking this node gives.
    spec fn checked(
        &self,
        table: Map<Seq<char>, SymbolView>,
        expected: Option<FundamentalTypeView>,
    ) -> Checked;

    /// Checks the node against `symbol_table`. `expected` is the return
    /// type that the enclosing function declares, where there is one. An
    /// expression gives its type, any other node gives none; a node that
    /// does not fit gives its diagnostics. The type of every expression
    /// node that is resolved on the way is put behind `types`.
    fn check(
        &self,
        symbol_table: &mut SymbolTable,
        expected: &Option<Type>,
        types: &mut Vec<Resolved>,
    ) -> (r: Result<Option<Type>, Vec<TypeError>>)
        ensures
            result_view(r) == self.checked(old(symbol_table)@, type_option_view(*expected)).result,
            final(symbol_table)@ == self.checked(
                old(symbol_table)@,
                type_option_view(*expected),
            ).table,
            resolved_view(final(types)@) == resolved_view(old(types)@) + self.checked(
                old(symbol_table)@,
                type_option_view(*expected),
            ).types,
    ;
}

/// Puts the type of an expression node behind the types that were
/// resolved before.
fn resolve(types: &mut Vec<Resolved>, span: Span, ty: &Type)
    ensures
        resolved_view(final(types)@) == resolved_view(old(types)@) + seq![
            ResolvedView { span, ty: ty@ },
        ],
{
    let ghost before = types@;
    types.push(Resolved { span, ty: ty.clone() });
    assert(resolved_view(types@) =~= resolved_view(before) + seq![ResolvedView { span, ty: ty@ }]);
}

/// Nothing is resolved: the types stay as they are.
proof fn lemma_nothing_resolved(types: Seq<Resolved>)
    ensures
        resolved_view(types) == resolved_view(types) + Seq::<ResolvedView>::empty(),
{
    assert(resolved_view(types) =~= resolved_view(types) + Seq::<ResolvedView>::empty());
}

/// A list that holds one diagnostic.
fn single(e: TypeError) -> (r: Vec<TypeError>)
    ensures
        errors_view(r@) == seq![e@],
{
    let mut errors: Vec<TypeError> = Vec::new();
    errors.push(e);
    assert(errors_view(errors@) =~= seq![e@]);
    errors
}

/// The text that names the type that was asked for and the one that was found.
fn mismatch_message(lead: &str, wanted: &Type, found: &Type) -> (r: String)
    ensures
        r@ == mismatch_text(lead@, wanted@, found@),
{
    let mut text = String::from_str(lead);
    text.append(wanted.name().as_str());
    text.append("', got '");
    text.append(found.name().as_str());
    text.append("'");
    text
}

/// The type of an operand, where the check of the operand gave one.
fn require_type(result: Result<Option<Type>, Vec<TypeError>>, span: Span) -> (r: Result<
    Type,
    Vec<TypeError>,
>)
    ensures
        match r {
            Ok(t) => operand_type(result_view(result), span) == Ok::<
                FundamentalTypeView,
                Seq<TypeErrorView>,
            >(t@),
            Err(errors) => operand_type(result_view(result), span) == Err::<
                FundamentalTypeView,
                Seq<TypeErrorView>,
            >(errors_view(errors@)),
        },
{
    match result {
        Ok(Some(t)) => Ok(t),
        Ok(None) => Err(
            single(
                TypeError::new(
                    ErrorKind::Type,
                    String::new(),
                    String::from_str("expression expected"),
                    span,
                ),
            ),
        ),
        Err(errors) => Err(errors),
    }
}

/// Promotion of two operand types along the numeric order.
pub fn numeric_promotion(left: &Type, right: &Type) -> (r: Option<Type>)
    ensures
        type_option_view(r) == promoted(numeric_order(), left@, right@),
{
    let mut order: Vec<FundamentalType> = Vec::new();
    order.push(FundamentalType::Float);
    order.push(FundamentalType::Integer);
    order.push(FundamentalType::Character);
    assert(order_view(order@) =~= numeric_order());
    match binary_operator_prec(order, left, right) {
        Ok(t) => t,
        Err(_) => None,
    }
}

/// The type of `left op right`, where the operator takes operands of these
/// types.
pub fn operator_type(op: &String, left: &Type, right: &Type) -> (r: Option<Type>)
    ensures
        type_option_view(r) == operator_result(op@, left@, right@),
{
    let numeric = numeric_promotion(left, right);
    let text = left.ty == FundamentalType::String || right.ty == FundamentalType::String;
    if text_is(op, "+") || text_is(op, "-") {
        if numeric.is_some() {
            numeric
        } else if text_is(op, "+") && text {
            Some(Type::new(FundamentalType::String))
        } else {
            None
        }
    } else if text_is(op, "*") || text_is(op, "/") || text_is(op, ">") || text_is(op, "<")
        || text_is(op, ">=") || text_is(op, "<=") {
        if numeric.is_some() {
            numeric
        } else if text_is(op, "*") && text {
            Some(Type::new(FundamentalType::String))
        } else {
            None
        }
    } else if text_is(op, "&&") || text_is(op, "||") || text_is(op, "==") || text_is(op, "!=") {
        if left.ty == FundamentalType::Boolean && right.ty == FundamentalType::Boolean {
            Some(Type::new(FundamentalType::Boolean))
        } else {
            None
        }
    } else if text_is(op, "as") {
        Some(right.clone())
    } else {
        numeric
    }
}

/// Checks the statements of a block or file in order, and collects the
/// diagnostics of all of them.
fn check_all(
    stmts: &Vec<Box<NodeType>>,
    symbol_table: &mut SymbolTable,
    expected: &Option<Type>,
    types: &mut Vec<Resolved>,
) -> (r: Vec<TypeError>)
    ensures
        errors_view(r@) == check_statements(
            nodes_view(stmts@),
            0,
            old(symbol_table)@,
            type_option_view(*expected),
        ).errors,
        final(symbol_table)@ == check_statements(
            nodes_view(stmts@),
            0,
            old(symbol_table)@,
            type_option_view(*expected),
        ).table,
        resolved_view(final(types)@) == resolved_view(old(types)@) + check_statements(
            nodes_view(stmts@),
            0,
            old(symbol_table)@,
            type_option_view(*expected),
        ).types,
    decreases stmts,
{
    let ghost views = nodes_view(stmts@);
    let ghost start = symbol_table@;
    let ghost given = resolved_view(types@);
    let ghost wanted = type_option_view(*expected);
    let mut errors: Vec<TypeError> = Vec::new();
    let mut i: usize = 0;
    assert(errors_view(errors@) =~= Seq::empty());
    while i < stmts.len()
        invariant
            i <= stmts.len(),
            views == nodes_view(stmts@),
            wanted == type_option_view(*expected),
            errors_view(errors@) + check_statements(views, i as int, symbol_table@, wanted).errors
                == check_statements(views, 0, start, wanted).errors,
            check_statements(views, i as int, symbol_table@, wanted).table == check_statements(
                views,
                0,
                start,
                wanted,
            ).table,
            resolved_view(types@) + check_statements(views, i as int, symbol_table@, wanted).types
                == given + check_statements(views, 0, start, wanted).types,
        decreases stmts.len() - i,
    {
        let ghost before = symbol_table@;
        let ghost so_far = errors_view(errors@);
        let ghost resolved = resolved_view(types@);
        let ghost first = check_node(views[i as int], before, wanted);
        let ghost rest = check_statements(views, i + 1, first.table, wanted);
        let outcome = stmts[i].check(symbol_table, expected, types);
        assert(resolved + (first.types + rest.types) =~= (resolved + first.types) + rest.types);
        match outcome {
            Ok(_) => {
                assert(so_far + (Seq::<TypeErrorView>::empty() + rest.errors) =~= so_far + rest.errors);
            },
            Err(more) => {
                let ghost added = errors_view(more@);
                append_errors(&mut errors, more);
                assert(so_far + (added + rest.errors) =~= (so_far + added) + rest.errors);
            },
        }
        i = i + 1;
    }
    assert(errors_view(errors@) + Seq::<TypeErrorView>::empty() =~= errors_view(errors@));
    assert(resolved_view(types@) + Seq::<ResolvedView>::empty() =~= resolved_view(types@));
    errors
}

/// Passed where there is no diagnostic, else all the diagnostics.
fn collect(errors: Vec<TypeError>) -> (r: Result<Option<Type>, Vec<TypeError>>)
    ensures
        result_view(r) == collected(errors_view(errors@)),
{
    if errors.len() == 0 {
        Ok(None)
    } else {
        Err(errors)
    }
}

impl TypeCheck for NodeType {
    open spec fn checked(
        &self,
        table: Map<Seq<char>, SymbolView>,
        expected: Option<FundamentalTypeView>,
    ) -> Checked {
        check_node(self@, table, expected)
    }

    fn check(
        &self,
        symbol_table: &mut SymbolTable,
        expected: &Option<Type>,
        types: &mut Vec<Resolved>,
    ) -> (r: Result<Option<Type>, Vec<TypeError>>)
        decreases self,
    {
        match self {
            NodeType::Token(token) => token.check(symbol_table, expected, types),
            NodeType::BinaryOperator(binary_operator) => binary_operator.check(symbol_table, expected, types),
            NodeType::Boolean(boolean) => boolean.check(symbol_table, expected, types),
            NodeType::Character(character) => character.check(symbol_table, expected, types),
            NodeType::Float(float) => float.check(symbol_table, expected, types),
            NodeType::Integer(integer) => integer.check(symbol_table, expected, types),
            NodeType::Identifier(identifier) => identifier.check(symbol_table, expected, types),
            NodeType::Str(string) => string.check(symbol_table, expected, types),
            NodeType::Block(block) => block.check(symbol_table, expected, types),
            NodeType::File(file) => file.check(symbol_table, expected, types),
            NodeType::Output(output) => output.check(symbol_table, expected, types),
            NodeType::ParameterList(parameter_list) => parameter_list.check(symbol_table, expected, types),
            NodeType::Parameter(parameter) => parameter.check(symbol_table, expected, types),
            NodeType::Term(term) => term.check(symbol_table, expected, types),
            NodeType::TypeSpecifier(type_specifier) => type_specifier.check(symbol_table, expected, types),
            NodeType::Signature(signature) => signature.check(symbol_table, expected, types),
            NodeType::Expression(expression) => expression.check(symbol_table, expected, types),
            NodeType::FunctionDefinition(function_definition) => function_definition.check(
                symbol_table,
                expected,
                types,
            ),
            NodeType::Return(return_statement) => return_statement.check(symbol_table, expected, types),
            NodeType::VariableDeclaration(variable_declaration) => variable_declaration.check(
                symbol_table,
                expected,
                types,
            ),
            NodeType::VariableInitialisation(variable_initialisation) => variable_initialisation.check(
                symbol_table,
                expected,
                types,
            ),
        }
    }
}

impl TypeCheck for Token {
    open spec fn checked(
        &self,
        table: Map<Seq<char>, SymbolView>,
        expected: Option<FundamentalTypeView>,
    ) -> Checked {
        passes(table)
    }

    fn check(
        &self,
        symbol_table: &mut SymbolTable,
        expected: &Option<Type>,
        types: &mut Vec<Resolved>,
    ) -> (r: Result<Option<Type>, Vec<TypeError>>) {
        proof {
            lemma_nothing_resolved(types@);
        }
        Ok(None)
    }
}

impl TypeCheck for Boolean {
    open spec fn checked(
        &self,
        table: Map<Seq<char>, SymbolView>,
        expected: Option<FundamentalTypeView>,
    ) -> Checked {
        has_type(FundamentalTypeView::Boolean, self.span, table)
    }

    fn check(
        &self,
        symbol_table: &mut SymbolTable,
        expected: &Option<Type>,
        types: &mut Vec<Resolved>,
    ) -> (r: Result<Option<Type>, Vec<TypeError>>) {
        let ty = Type::new(FundamentalType::Boolean);
        resolve(types, self.span, &ty);
        Ok(Some(ty))
    }
}

impl TypeCheck for Character {
    open spec fn checked(
        &self,
        table: Map<Seq<char>, SymbolView>,
        expected: Option<FundamentalTypeView>,
    ) -> Checked {
        has_type(FundamentalTypeView::Character, self.span, table)
    }

    fn check(
        &self,
        symbol_table: &mut SymbolTable,
        expected: &Option<Type>,
        types: &mut Vec<Resolved>,
    ) -> (r: Result<Option<Type>, Vec<TypeError>>) {
        let ty = Type::new(FundamentalType::Character);
        resolve(types, self.span, &ty);
        Ok(Some(ty))
    }
}

impl TypeCheck for Float {
    open spec fn checked(
        &self,
        table: Map<Seq<char>, SymbolView>,
        expected: Option<FundamentalTypeView>,
    ) -> Checked {
        has_type(FundamentalTypeView::Float, self.span, table)
    }

    fn check(
        &self,
        symbol_table: &mut SymbolTable,
        expected: &Option<Type>,
        types: &mut Vec<Resolved>,
    ) -> (r: Result<Option<Type>, Vec<TypeError>>) {
        let ty = Type::new(FundamentalType::Float);
        resolve(types, self.span, &ty);
        Ok(Some(ty))
    }
}

impl TypeCheck for Integer {
    open spec fn checked(
        &self,
        table: Map<Seq<char>, SymbolView>,
        expected: Option<FundamentalTypeView>,
    ) -> Checked {
        has_type(FundamentalTypeView::Integer, self.span, table)
    }

    fn check(
        &self,
        symbol_table: &mut SymbolTable,
        expected: &Option<Type>,
        types: &mut Vec<Resolved>,
    ) -> (r: Result<Option<Type>, Vec<TypeError>>) {
        let ty = Type::new(FundamentalType::Integer);
        resolve(types, self.span, &ty);
        Ok(Some(ty))
    }
}

impl TypeCheck for Str {
    open spec fn checked(
        &self,
        table: Map<Seq<char>, SymbolView>,
        expected: Option<FundamentalTypeView>,
    ) -> Checked {
        has_type(FundamentalTypeView::String, self.span, table)
    }

    fn check(
        &self,
        symbol_table: &mut SymbolTable,
        expected: &Option<Type>,
        types: &mut Vec<Resolved>,
    ) -> (r: Result<Option<Type>, Vec<TypeError>>) {
        let ty = Type::new(FundamentalType::String);
        resolve(types, self.span, &ty);
        Ok(Some(ty))
    }
}

impl TypeCheck for Identifier {
    open spec fn checked(
        &self,
        table: Map<Seq<char>, SymbolView>,
        expected: Option<FundamentalTypeView>,
    ) -> Checked {
        check_identifier(self@, table)
    }

    fn check(
        &self,
        symbol_table: &mut SymbolTable,
        expected: &Option<Type>,
        types: &mut Vec<Resolved>,
    ) -> (r: Result<Option<Type>, Vec<TypeError>>) {
        match symbol_table.variable_type(self) {
            Ok(t) => {
                resolve(types, self.span, &t);
                Ok(Some(t))
            },
            Err(e) => {
                proof {
                    lemma_nothing_resolved(types@);
                }
                Err(single(e))
            },
        }
    }
}

impl TypeCheck for BinaryOperator {
    open spec fn checked(
        &self,
        table: Map<Seq<char>, SymbolView>,
        expected: Option<FundamentalTypeView>,
    ) -> Checked {
        check_binary_operator(self@, table, expected)
    }

    fn check(
        &self,
        symbol_table: &mut SymbolTable,
        expected: &Option<Type>,
        types: &mut Vec<Resolved>,
    ) -> (r: Result<Option<Type>, Vec<TypeError>>)
        decreases self,
    {
        let ghost before = resolved_view(types@);
        let ghost start = symbol_table@;
        let ghost wanted = type_option_view(*expected);
        let ghost left_model = check_node(*self@.left, start, wanted);
        let ghost right_model = check_right_operand(self@, left_model.table, wanted);
        let left = self.left.check(symbol_table, expected, types);
        let right = if text_is(&self.op.value, "as") {
            proof {
                lemma_nothing_resolved(types@);
            }
            match &*self.right {
                NodeType::Identifier(id) => Ok(Some(Type::from_id(id))),
                _ => Err(
                    single(
                        TypeError::new(
                            ErrorKind::Type,
                            String::from_str("as"),
                            String::from_str("type specifier expected after 'as'"),
                            self.span,
                        ),
                    ),
                ),
            }
        } else {
            self.right.check(symbol_table, expected, types)
        };
        assert(resolved_view(types@) == before + left_model.types + right_model.types);
        let outcome = match (require_type(left, self.span), require_type(right, self.span)) {
            (Ok(l), Ok(r)) => match operator_type(&self.op.value, &l, &r) {
                Some(t) => {
                    resolve(types, self.span, &t);
                    Ok(Some(t))
                },
                None => Err(
                    single(
                        TypeError::new(
                            ErrorKind::Type,
                            self.op.value.clone(),
                            framed("invalid operand type for operator '", &self.op.value, "'"),
                            self.span,
                        ),
                    ),
                ),
            },
            (Err(le), Ok(_)) => Err(le),
            (Ok(_), Err(re)) => Err(re),
            (Err(le), Err(re)) => {
                let mut errors = le;
                append_errors(&mut errors, re);
                Err(errors)
            },
        };
        proof {
            let own = resolved_here(result_view(outcome), self.span);
            assert(before + left_model.types + right_model.types + own =~= before + (
            left_model.types + right_model.types + own));
            if own.len() == 0 {
                assert(before + left_model.types + right_model.types + own =~= before
                    + left_model.types + right_model.types);
            }
        }
        outcome
    }
}

impl TypeCheck for Block {
    open spec fn checked(
        &self,
        table: Map<Seq<char>, SymbolView>,
        expected: Option<FundamentalTypeView>,
    ) -> Checked {
        check_block(self@, table, expected)
    }

    fn check(
        &self,
        symbol_table: &mut SymbolTable,
        expected: &Option<Type>,
        types: &mut Vec<Resolved>,
    ) -> (r: Result<Option<Type>, Vec<TypeError>>)
        decreases self,
    {
        collect(check_all(&self.stmts, symbol_table, expected, types))
    }
}

impl TypeCheck for File {
    open spec fn checked(
        &self,
        table: Map<Seq<char>, SymbolView>,
        expected: Option<FundamentalTypeView>,
    ) -> Checked {
        check_file(self@, table, expected)
    }

    fn check(
        &self,
        symbol_table: &mut SymbolTable,
        expected: &Option<Type>,
        types: &mut Vec<Resolved>,
    ) -> (r: Result<Option<Type>, Vec<TypeError>>)
        decreases self,
    {
        collect(check_all(&self.stmts, symbol_table, expected, types))
    }
}

impl TypeCheck for Output {
    open spec fn checked(
        &self,
        table: Map<Seq<char>, SymbolView>,
        expected: Option<FundamentalTypeView>,
    ) -> Checked {
        check_output(self@, table)
    }

    fn check(
        &self,
        symbol_table: &mut SymbolTable,
        expected: &Option<Type>,
        types: &mut Vec<Resolved>,
    ) -> (r: Result<Option<Type>, Vec<TypeError>>) {
        let _ = self.ty.check(symbol_table, expected, types);
        Ok(None)
    }
}

impl TypeCheck for ParameterList {
    open spec fn checked(
        &self,
        table: Map<Seq<char>, SymbolView>,
        expected: Option<FundamentalTypeView>,
    ) -> Checked {
        check_parameter_list(self@, table)
    }

    fn check(
        &self,
        symbol_table: &mut SymbolTable,
        expected: &Option<Type>,
        types: &mut Vec<Resolved>,
    ) -> (r: Result<Option<Type>, Vec<TypeError>>) {
        let ghost start = symbol_table@;
        let ghost views = self@.parameters;
        let ghost given = resolved_view(types@);
        let mut i: usize = 0;
        proof {
            lemma_nothing_resolved(types@);
        }
        while i < self.parameters.len()
            invariant
                i <= self.parameters.len(),
                views == self@.parameters,
                resolved_view(types@) == given,
                parameters_entered(views, i as int, symbol_table@) == parameters_entered(
                    views,
                    0,
                    start,
                ),
            decreases self.parameters.len() - i,
        {
            let _ = self.parameters[i].0.check(symbol_table, expected, types);
            i = i + 1;
        }
        Ok(None)
    }
}

impl TypeCheck for Parameter {
    open spec fn checked(
        &self,
        table: Map<Seq<char>, SymbolView>,
        expected: Option<FundamentalTypeView>,
    ) -> Checked {
        check_parameter(self@, table)
    }

    fn check(
        &self,
        symbol_table: &mut SymbolTable,
        expected: &Option<Type>,
        types: &mut Vec<Resolved>,
    ) -> (r: Result<Option<Type>, Vec<TypeError>>) {
        symbol_table.initialise_variable(&self.id, Type::from_id(&self.ty.id));
        proof {
            lemma_nothing_resolved(types@);
        }
        Ok(None)
    }
}

impl TypeCheck for Term {
    open spec fn checked(
        &self,
        table: Map<Seq<char>, SymbolView>,
        expected: Option<FundamentalTypeView>,
    ) -> Checked {
        check_term(self@, table, expected)
    }

    fn check(
        &self,
        symbol_table: &mut SymbolTable,
        expected: &Option<Type>,
        types: &mut Vec<Resolved>,
    ) -> (r: Result<Option<Type>, Vec<TypeError>>)
        decreases self,
    {
        self.node.check(symbol_table, expected, types)
    }
}

impl TypeCheck for TypeSpecifier {
    open spec fn checked(
        &self,
        table: Map<Seq<char>, SymbolView>,
        expected: Option<FundamentalTypeView>,
    ) -> Checked {
        check_type_specifier(self@, table)
    }

    fn check(
        &self,
        symbol_table: &mut SymbolTable,
        expected: &Option<Type>,
        types: &mut Vec<Resolved>,
    ) -> (r: Result<Option<Type>, Vec<TypeError>>) {
        proof {
            lemma_nothing_resolved(types@);
        }
        Ok(Some(Type::from_id(&self.id)))
    }
}

impl TypeCheck for ExpressionStatement {
    open spec fn checked(
        &self,
        table: Map<Seq<char>, SymbolView>,
        expected: Option<FundamentalTypeView>,
    ) -> Checked {
        check_expression_statement(self@, table, expected)
    }

    fn check(
        &self,
        symbol_table: &mut SymbolTable,
        expected: &Option<Type>,
        types: &mut Vec<Resolved>,
    ) -> (r: Result<Option<Type>, Vec<TypeError>>)
        decreases self,
    {
        match self.expr.check(symbol_table, expected, types) {
            Ok(_) => Ok(None),
            Err(errors) => Err(errors),
        }
    }
}

impl TypeCheck for Signature {
    open spec fn checked(
        &self,
        table: Map<Seq<char>, SymbolView>,
        expected: Option<FundamentalTypeView>,
    ) -> Checked {
        check_signature(self@, table)
    }

    fn check(
        &self,
        symbol_table: &mut SymbolTable,
        expected: &Option<Type>,
        types: &mut Vec<Resolved>,
    ) -> (r: Result<Option<Type>, Vec<TypeError>>) {
        let _ = self.params.check(symbol_table, expected, types);
        self.output.check(symbol_table, expected, types)
    }
}

impl TypeCheck for FunctionDefinition {
    open spec fn checked(
        &self,
        table: Map<Seq<char>, SymbolView>,
        expected: Option<FundamentalTypeView>,
    ) -> Checked {
        check_function_definition(self@, table, expected)
    }

    fn check(
        &self,
        symbol_table: &mut SymbolTable,
        expected: &Option<Type>,
        types: &mut Vec<Resolved>,
    ) -> (r: Result<Option<Type>, Vec<TypeError>>)
        decreases self,
    {
        let mut inner = symbol_table.clone();
        let _ = self.sig.check(&mut inner, expected, types);
        let declared = Some(Type::from_id(&self.sig.output.ty.id));
        self.block.check(&mut inner, &declared, types)
    }
}

impl TypeCheck for ReturnStatement {
    open spec fn checked(
        &self,
        table: Map<Seq<char>, SymbolView>,
        expected: Option<FundamentalTypeView>,
    ) -> Checked {
        check_return_statement(self@, table, expected)
    }

    fn check(
        &self,
        symbol_table: &mut SymbolTable,
        expected: &Option<Type>,
        types: &mut Vec<Resolved>,
    ) -> (r: Result<Option<Type>, Vec<TypeError>>)
        decreases self,
    {
        let inner = self.expr.check(symbol_table, expected, types);
        match require_type(inner, self.span) {
            Err(errors) => Err(errors),
            Ok(found) => match expected {
                None => Err(
                    single(
                        TypeError::new(
                            ErrorKind::Type,
                            String::from_str("return"),
                            String::from_str("return statement outside of a function"),
                            self.span,
                        ),
                    ),
                ),
                Some(wanted) => {
                    if found == *wanted {
                        Ok(None)
                    } else {
                        Err(
                            single(
                                TypeError::new(
                                    ErrorKind::Type,
                                    String::from_str("return"),
                                    mismatch_message(
                                        "return type mismatch: expected '",
                                        wanted,
                                        &found,
                                    ),
                                    self.span,
                                ),
                            ),
                        )
                    }
                },
            },
        }
    }
}

impl TypeCheck for VariableDeclaration {
    open spec fn checked(
        &self,
        table: Map<Seq<char>, SymbolView>,
        expected: Option<FundamentalTypeView>,
    ) -> Checked {
        check_variable_declaration(self@, table)
    }

    fn check(
        &self,
        symbol_table: &mut SymbolTable,
        expected: &Option<Type>,
        types: &mut Vec<Resolved>,
    ) -> (r: Result<Option<Type>, Vec<TypeError>>) {
        symbol_table.declare_variable(&self.id, Type::from_id(&self.ty.id));
        proof {
            lemma_nothing_resolved(types@);
        }
        Ok(None)
    }
}

impl TypeCheck for VariableInitialisation {
    open spec fn checked(
        &self,
        table: Map<Seq<char>, SymbolView>,
        expected: Option<FundamentalTypeView>,
    ) -> Checked {
        check_variable_initialisation(self@, table, expected)
    }

    fn check(
        &self,
        symbol_table: &mut SymbolTable,
        expected: &Option<Type>,
        types: &mut Vec<Resolved>,
    ) -> (r: Result<Option<Type>, Vec<TypeError>>)
        decreases self,
    {
        let inner = self.expr.check(symbol_table, expected, types);
        match require_type(inner, self.span) {
            Err(errors) => Err(errors),
            Ok(found) => match &self.ty {
                Some(specifier) => {
                    let wanted = Type::from_id(&specifier.id);
                    if wanted == found {
                        symbol_table.initialise_variable(&self.id, wanted);
                        Ok(None)
                    } else {
                        Err(
                            single(
                                TypeError::new(
                                    ErrorKind::Type,
                                    self.id.name.clone(),
                                    mismatch_message("type mismatch: expected '", &wanted, &found),
                                    self.span,
                                ),
                            ),
                        )
                    }
                },
                None => {
                    symbol_table.initialise_variable(&self.id, found);
                    Ok(None)
                },
            },
        }
    }
}

/// What the semantic pass hands on: the symbol table as the file leaves
/// it, and the type of every expression node of the file, in the order in
/// which the nodes were resolved: operands before their operator,
/// statements in source order.
#[derive(Debug)]
pub struct Annotated {
    pub symbols: SymbolTable,
    pub types: Vec<Resolved>,
}

/// What checking a whole file against a fresh table gives.
pub open spec fn annotated(tree: crate::node::FileView) -> Checked {
    check_file(tree, Map::empty(), None)
}

/// Checks a whole file against a fresh symbol table. Gives the table as the
/// file leaves it and the types of its expression nodes, or every
/// diagnostic of the file.
pub fn annotate_file(tree: &File) -> (r: Result<Annotated, Vec<TypeError>>)
    ensures
        match r {
            Ok(done) => annotated(tree@).result == Ok::<
                Option<FundamentalTypeView>,
                Seq<TypeErrorView>,
            >(None) && done.symbols@ == annotated(tree@).table && resolved_view(done.types@)
                == annotated(tree@).types,
            Err(errors) => annotated(tree@).result == Err::<
                Option<FundamentalTypeView>,
                Seq<TypeErrorView>,
            >(errors_view(errors@)) && errors@.len() > 0,
        },
{
    let mut symbol_table = SymbolTable::new();
    let mut types: Vec<Resolved> = Vec::new();
    let expected: Option<Type> = None;
    assert(resolved_view(types@) =~= Seq::empty());
    match tree.check(&mut symbol_table, &expected, &mut types) {
        Ok(_) => {
            assert(Seq::<ResolvedView>::empty() + annotated(tree@).types =~= annotated(tree@).types);
            Ok(Annotated { symbols: symbol_table, types })
        },
        Err(errors) => Err(errors),
    }
}

} // verus!
