//! What the semantic pass computes, stated over the views of the tree and
//! of the symbol table.

use vstd::prelude::*;
use crate::error::{ErrorKind, TypeErrorView};
use crate::expression::{BinaryOperatorView, IdentifierView};
use crate::node::{
    BlockView, FileView, NodeView, OutputView, ParameterListView, ParameterView, TermView,
    TypeSpecifierView,
};
use crate::span::Span;
use crate::statement::{
    ExpressionStatementView, FunctionDefinitionView, ReturnStatementView, SignatureView,
    VariableDeclarationView, VariableInitialisationView,
};
use crate::symbol::{SymbolView, variable_symbol, variable_type_in};
use crate::token::TokenView;
use crate::tree_type::{FundamentalTypeView, named_type, numeric_order, promoted, written_name};

verus! {

/// The type that an expression node was found to have: the span of the
/// node and the type.
pub ghost struct ResolvedView {
    pub span: Span,
    pub ty: FundamentalTypeView,
}

/// The outcome of checking a node: the type it has (none for a node that
/// is no expression) or the diagnostics, the symbol table afterwards, and
/// the types of the expression nodes that were resolved on the way, in
/// the order in which they were resolved.
pub ghost struct Checked {
    pub result: Result<Option<FundamentalTypeView>, Seq<TypeErrorView>>,
    pub table: Map<Seq<char>, SymbolView>,
    pub types: Seq<ResolvedView>,
}

/// The diagnostic for an operator whose operands have types it does not take.
pub open spec fn invalid_operand(op: TokenView, span: Span) -> TypeErrorView {
    TypeErrorView {
        kind: ErrorKind::Type,
        subject: op.value,
        text: "invalid operand type for operator '"@ + op.value + "'"@,
        span,
    }
}

/// The diagnostic for a cast whose right side is no identifier.
pub open spec fn specifier_expected(span: Span) -> TypeErrorView {
    TypeErrorView {
        kind: ErrorKind::Type,
        subject: "as"@,
        text: "type specifier expected after 'as'"@,
        span,
    }
}

/// The diagnostic for a node that has no type where an expression is needed.
pub open spec fn expression_expected(span: Span) -> TypeErrorView {
    TypeErrorView {
        kind: ErrorKind::Type,
        subject: Seq::empty(),
        text: "expression expected"@,
        span,
    }
}

/// The text that names the type that was asked for and the one that was found.
pub open spec fn mismatch_text(
    lead: Seq<char>,
    wanted: FundamentalTypeView,
    found: FundamentalTypeView,
) -> Seq<char> {
    lead + written_name(wanted) + "', got '"@ + written_name(found) + "'"@
}

/// The diagnostic for an initial value whose type is not the annotated one.
pub open spec fn type_mismatch(
    id: IdentifierView,
    wanted: FundamentalTypeView,
    found: FundamentalTypeView,
    span: Span,
) -> TypeErrorView {
    TypeErrorView {
        kind: ErrorKind::Type,
        subject: id.name,
        text: mismatch_text("type mismatch: expected '"@, wanted, found),
        span,
    }
}

/// The diagnostic for a returned value whose type is not the declared one.
pub open spec fn return_mismatch(
    wanted: FundamentalTypeView,
    found: FundamentalTypeView,
    span: Span,
) -> TypeErrorView {
    TypeErrorView {
        kind: ErrorKind::Type,
        subject: "return"@,
        text: mismatch_text("return type mismatch: expected '"@, wanted, found),
        span,
    }
}

/// The diagnostic for a `return` that no function encloses.
pub open spec fn return_outside(span: Span) -> TypeErrorView {
    TypeErrorView {
        kind: ErrorKind::Type,
        subject: "return"@,
        text: "return statement outside of a function"@,
        span,
    }
}

/// The outcome of a node that is no expression and cannot fail.
pub open spec fn passes(table: Map<Seq<char>, SymbolView>) -> Checked {
    Checked { result: Ok(None), table, types: Seq::empty() }
}

/// The outcome of an expression node of a known type, which is resolved
/// under its span.
pub open spec fn has_type(t: FundamentalTypeView, span: Span, table: Map<Seq<char>, SymbolView>) -> Checked {
    Checked { result: Ok(Some(t)), table, types: seq![ResolvedView { span, ty: t }] }
}

/// The outcome of a node that names a type.
pub open spec fn names_type(t: FundamentalTypeView, table: Map<Seq<char>, SymbolView>) -> Checked {
    Checked { result: Ok(Some(t)), table, types: Seq::empty() }
}

/// The outcome of a check that fails with one diagnostic.
pub open spec fn fails(e: TypeErrorView, table: Map<Seq<char>, SymbolView>) -> Checked {
    Checked { result: Err(seq![e]), table, types: Seq::empty() }
}

/// What a node resolves itself: its own type under its own span where it
/// has one, nothing where its check failed.
pub open spec fn resolved_here(
    result: Result<Option<FundamentalTypeView>, Seq<TypeErrorView>>,
    span: Span,
) -> Seq<ResolvedView> {
    match result {
        Ok(Some(t)) => seq![ResolvedView { span, ty: t }],
        _ => Seq::empty(),
    }
}

/// The type of an operand, where the check of the operand gave one. A node
/// that passed without a type is no expression.
pub open spec fn operand_type(
    result: Result<Option<FundamentalTypeView>, Seq<TypeErrorView>>,
    span: Span,
) -> Result<FundamentalTypeView, Seq<TypeErrorView>> {
    match result {
        Ok(Some(t)) => Ok(t),
        Ok(None) => Err(seq![expression_expected(span)]),
        Err(errors) => Err(errors),
    }
}

/// The diagnostics of an outcome: none where the check passed.
pub open spec fn diagnostics(
    result: Result<Option<FundamentalTypeView>, Seq<TypeErrorView>>,
) -> Seq<TypeErrorView> {
    match result {
        Ok(_) => Seq::empty(),
        Err(errors) => errors,
    }
}

/// The outcome of a list of checks that are independent of each other:
/// passed where none gave a diagnostic, else all their diagnostics.
pub open spec fn collected(errors: Seq<TypeErrorView>) -> Result<
    Option<FundamentalTypeView>,
    Seq<TypeErrorView>,
> {
    if errors.len() == 0 {
        Ok(None)
    } else {
        Err(errors)
    }
}

/// The operators `+` and `-`.
pub open spec fn is_additive(op: Seq<char>) -> bool {
    op == "+"@ || op == "-"@
}

/// The operators `*` and `/` and the four comparisons.
pub open spec fn is_scaling_or_relational(op: Seq<char>) -> bool {
    op == "*"@ || op == "/"@ || op == ">"@ || op == "<"@ || op == ">="@ || op == "<="@
}

/// The operators `&&`, `||`, `==` and `!=`.
pub open spec fn is_logical_or_equality(op: Seq<char>) -> bool {
    op == "&&"@ || op == "||"@ || op == "=="@ || op == "!="@
}

/// Whether one of two types is the string type.
pub open spec fn either_is_string(left: FundamentalTypeView, right: FundamentalTypeView) -> bool {
    left == FundamentalTypeView::String || right == FundamentalTypeView::String
}

/// The type of `left op right`, where the operator takes operands of these
/// types.
///
/// - `+` and `-` promote numeric operands; `+` with a string on either side
///   gives a string.
/// - `*`, `/` and the four comparisons promote numeric operands, and give
///   the promoted type; `*` with a string on either side gives a string,
///   whatever stands on the other side.
/// - `&&`, `||`, `==` and `!=` take two booleans and give a boolean.
/// - `as` gives the type on its right.
/// - Any other operator promotes numeric operands.
pub open spec fn operator_result(
    op: Seq<char>,
    left: FundamentalTypeView,
    right: FundamentalTypeView,
) -> Option<FundamentalTypeView> {
    let numeric = promoted(numeric_order(), left, right);
    if is_additive(op) {
        if numeric is Some {
            numeric
        } else if op == "+"@ && either_is_string(left, right) {
            Some(FundamentalTypeView::String)
        } else {
            None
        }
    } else if is_scaling_or_relational(op) {
        if numeric is Some {
            numeric
        } else if op == "*"@ && either_is_string(left, right) {
            Some(FundamentalTypeView::String)
        } else {
            None
        }
    } else if is_logical_or_equality(op) {
        if left == FundamentalTypeView::Boolean && right == FundamentalTypeView::Boolean {
            Some(FundamentalTypeView::Boolean)
        } else {
            None
        }
    } else if op == "as"@ {
        Some(right)
    } else {
        numeric
    }
}

/// A type specifier stands for the type that its identifier names.
pub open spec fn check_type_specifier(t: TypeSpecifierView, table: Map<Seq<char>, SymbolView>) -> Checked {
    names_type(named_type(t.id.name), table)
}

/// An output resolves its type specifier, which cannot fail.
pub open spec fn check_output(o: OutputView, table: Map<Seq<char>, SymbolView>) -> Checked {
    passes(table)
}

/// A parameter enters its name as a variable that has a value.
pub open spec fn check_parameter(p: ParameterView, table: Map<Seq<char>, SymbolView>) -> Checked {
    passes(table.insert(p.id.name, variable_symbol(true, p.id, named_type(p.ty.id.name))))
}

/// The table after the parameters from place `i` on have been entered.
pub open spec fn parameters_entered(
    parameters: Seq<(ParameterView, Option<TokenView>)>,
    i: int,
    table: Map<Seq<char>, SymbolView>,
) -> Map<Seq<char>, SymbolView>
    decreases parameters.len() - i,
{
    if i < 0 || i >= parameters.len() {
        table
    } else {
        parameters_entered(parameters, i + 1, check_parameter(parameters[i].0, table).table)
    }
}

/// A parameter list enters its parameters in order.
pub open spec fn check_parameter_list(p: ParameterListView, table: Map<Seq<char>, SymbolView>) -> Checked {
    passes(parameters_entered(p.parameters, 0, table))
}

/// A signature checks its parameters, then its output.
pub open spec fn check_signature(s: SignatureView, table: Map<Seq<char>, SymbolView>) -> Checked {
    check_output(s.output, check_parameter_list(s.params, table).table)
}

/// A declaration enters its name as a variable that has no value yet.
pub open spec fn check_variable_declaration(
    v: VariableDeclarationView,
    table: Map<Seq<char>, SymbolView>,
) -> Checked {
    passes(table.insert(v.id.name, variable_symbol(false, v.id, named_type(v.ty.id.name))))
}

/// An identifier has the type that the table holds for it as a variable
/// with a value.
pub open spec fn check_identifier(id: IdentifierView, table: Map<Seq<char>, SymbolView>) -> Checked {
    match variable_type_in(table, id) {
        Ok(t) => has_type(t, id.span, table),
        Err(e) => fails(e, table),
    }
}

/// The right side of an operator. Behind `as` stands the name of a type,
/// which is not looked up as a variable; any other node there is refused.
pub open spec fn check_right_operand(
    b: BinaryOperatorView,
    table: Map<Seq<char>, SymbolView>,
    expected: Option<FundamentalTypeView>,
) -> Checked
    decreases b, 0nat,
{
    if b.op.value == "as"@ {
        match *b.right {
            NodeView::Identifier(id) => names_type(named_type(id.name), table),
            _ => fails(specifier_expected(b.span), table),
        }
    } else {
        check_node(*b.right, table, expected)
    }
}

/// What two operand outcomes and the operator give together. Diagnostics
/// of both operands are kept; the operator is judged only where both
/// operands have a type.
pub open spec fn combine_operands(
    b: BinaryOperatorView,
    left: Result<Option<FundamentalTypeView>, Seq<TypeErrorView>>,
    right: Result<Option<FundamentalTypeView>, Seq<TypeErrorView>>,
) -> Result<Option<FundamentalTypeView>, Seq<TypeErrorView>> {
    match (operand_type(left, b.span), operand_type(right, b.span)) {
        (Ok(l), Ok(r)) => match operator_result(b.op.value, l, r) {
            Some(t) => Ok(Some(t)),
            None => Err(seq![invalid_operand(b.op, b.span)]),
        },
        (Err(le), Ok(_)) => Err(le),
        (Ok(_), Err(re)) => Err(re),
        (Err(le), Err(re)) => Err(le + re),
    }
}

/// A binary operator checks its left operand, then its right one, then
/// judges the operator on their types. It is resolved behind its operands.
pub open spec fn check_binary_operator(
    b: BinaryOperatorView,
    table: Map<Seq<char>, SymbolView>,
    expected: Option<FundamentalTypeView>,
) -> Checked
    decreases b, 1nat,
{
    let left = check_node(*b.left, table, expected);
    let right = check_right_operand(b, left.table, expected);
    let result = combine_operands(b, left.result, right.result);
    Checked {
        result,
        table: right.table,
        types: left.types + right.types + resolved_here(result, b.span),
    }
}

/// The outcome of a list of statements: all their diagnostics, the table
/// after the last of them, and all that they resolved.
pub ghost struct CheckedAll {
    pub errors: Seq<TypeErrorView>,
    pub table: Map<Seq<char>, SymbolView>,
    pub types: Seq<ResolvedView>,
}

/// The outcome of the statements from place `i` on, each checked against
/// the table that the ones before it left. A statement that fails does
/// not stop those behind it.
pub open spec fn check_statements(
    stmts: Seq<NodeView>,
    i: int,
    table: Map<Seq<char>, SymbolView>,
    expected: Option<FundamentalTypeView>,
) -> CheckedAll
    decreases stmts, stmts.len() - i,
{
    if i < 0 || i >= stmts.len() {
        CheckedAll { errors: Seq::empty(), table, types: Seq::empty() }
    } else {
        let first = check_node(stmts[i], table, expected);
        let rest = check_statements(stmts, i + 1, first.table, expected);
        CheckedAll {
            errors: diagnostics(first.result) + rest.errors,
            table: rest.table,
            types: first.types + rest.types,
        }
    }
}

/// A block checks its statements in order.
pub open spec fn check_block(
    b: BlockView,
    table: Map<Seq<char>, SymbolView>,
    expected: Option<FundamentalTypeView>,
) -> Checked
    decreases b,
{
    let all = check_statements(b.stmts, 0, table, expected);
    Checked { result: collected(all.errors), table: all.table, types: all.types }
}

/// A file checks its statements in order.
pub open spec fn check_file(
    f: FileView,
    table: Map<Seq<char>, SymbolView>,
    expected: Option<FundamentalTypeView>,
) -> Checked
    decreases f,
{
    let all = check_statements(f.stmts, 0, table, expected);
    Checked { result: collected(all.errors), table: all.table, types: all.types }
}

/// A term has the type of the node it wraps.
pub open spec fn check_term(
    t: TermView,
    table: Map<Seq<char>, SymbolView>,
    expected: Option<FundamentalTypeView>,
) -> Checked
    decreases t,
{
    check_node(*t.node, table, expected)
}

/// An expression statement checks its expression and has no type itself.
pub open spec fn check_expression_statement(
    e: ExpressionStatementView,
    table: Map<Seq<char>, SymbolView>,
    expected: Option<FundamentalTypeView>,
) -> Checked
    decreases e,
{
    let inner = check_node(*e.expr, table, expected);
    Checked {
        result: match inner.result {
            Ok(_) => Ok(None),
            Err(errors) => Err(errors),
        },
        table: inner.table,
        types: inner.types,
    }
}

/// The return type that a signature declares.
pub open spec fn declared_return(s: SignatureView) -> FundamentalTypeView {
    named_type(s.output.ty.id.name)
}

/// A function definition checks its signature and then its body against a
/// copy of the table, with the declared return type expected of every
/// `return` in the body. The table it was given stays as it was.
pub open spec fn check_function_definition(
    f: FunctionDefinitionView,
    table: Map<Seq<char>, SymbolView>,
    expected: Option<FundamentalTypeView>,
) -> Checked
    decreases f,
{
    let inner = check_signature(f.sig, table).table;
    let body = check_block(f.block, inner, Some(declared_return(f.sig)));
    Checked { result: body.result, table, types: body.types }
}

/// What a returned value of a known type gives against the expected type.
pub open spec fn judge_return(
    found: FundamentalTypeView,
    expected: Option<FundamentalTypeView>,
    span: Span,
) -> Result<Option<FundamentalTypeView>, Seq<TypeErrorView>> {
    match expected {
        None => Err(seq![return_outside(span)]),
        Some(wanted) => if found == wanted {
            Ok(None)
        } else {
            Err(seq![return_mismatch(wanted, found, span)])
        },
    }
}

/// A return statement checks its expression, whose type must be the one
/// that the enclosing function declares.
pub open spec fn check_return_statement(
    r: ReturnStatementView,
    table: Map<Seq<char>, SymbolView>,
    expected: Option<FundamentalTypeView>,
) -> Checked
    decreases r,
{
    let inner = check_node(*r.expr, table, expected);
    Checked {
        result: match operand_type(inner.result, r.span) {
            Ok(found) => judge_return(found, expected, r.span),
            Err(errors) => Err(errors),
        },
        table: inner.table,
        types: inner.types,
    }
}

/// What an initial value of a known type gives: the variable is entered
/// with a value, under the annotated type where one is written and equals
/// the type of the value, under the type of the value where none is
/// written. (What the value resolved is not counted here.)
pub open spec fn judge_initialisation(
    v: VariableInitialisationView,
    found: FundamentalTypeView,
    table: Map<Seq<char>, SymbolView>,
) -> Checked {
    match v.ty {
        Some(specifier) => {
            let wanted = named_type(specifier.id.name);
            if wanted == found {
                passes(table.insert(v.id.name, variable_symbol(true, v.id, wanted)))
            } else {
                fails(type_mismatch(v.id, wanted, found, v.span), table)
            }
        },
        None => passes(table.insert(v.id.name, variable_symbol(true, v.id, found))),
    }
}

/// An initialisation checks its initial value, then enters the variable.
pub open spec fn check_variable_initialisation(
    v: VariableInitialisationView,
    table: Map<Seq<char>, SymbolView>,
    expected: Option<FundamentalTypeView>,
) -> Checked
    decreases v,
{
    let inner = check_node(*v.expr, table, expected);
    match operand_type(inner.result, v.span) {
        Ok(found) => Checked { types: inner.types, ..judge_initialisation(v, found, inner.table) },
        Err(errors) => Checked { result: Err(errors), table: inner.table, types: inner.types },
    }
}

/// The outcome of checking any node against a table, with the return type
/// of the enclosing function where there is one.
pub open spec fn check_node(
    n: NodeView,
    table: Map<Seq<char>, SymbolView>,
    expected: Option<FundamentalTypeView>,
) -> Checked
    decreases n,
{
    match n {
        NodeView::Token(_) => passes(table),
        NodeView::BinaryOperator(b) => check_binary_operator(b, table, expected),
        NodeView::Boolean(b) => has_type(FundamentalTypeView::Boolean, b.span, table),
        NodeView::Character(c) => has_type(FundamentalTypeView::Character, c.span, table),
        NodeView::Float(f) => has_type(FundamentalTypeView::Float, f.span, table),
        NodeView::Integer(i) => has_type(FundamentalTypeView::Integer, i.span, table),
        NodeView::Identifier(id) => check_identifier(id, table),
        NodeView::Str(s) => has_type(FundamentalTypeView::String, s.span, table),
        NodeView::Block(b) => check_block(b, table, expected),
        NodeView::File(f) => check_file(f, table, expected),
        NodeView::Output(o) => check_output(o, table),
        NodeView::ParameterList(p) => check_parameter_list(p, table),
        NodeView::Parameter(p) => check_parameter(p, table),
        NodeView::Term(t) => check_term(t, table, expected),
        NodeView::TypeSpecifier(t) => check_type_specifier(t, table),
        NodeView::Signature(s) => check_signature(s, table),
        NodeView::Expression(e) => check_expression_statement(e, table, expected),
        NodeView::FunctionDefinition(f) => check_function_definition(f, table, expected),
        NodeView::Return(r) => check_return_statement(r, table, expected),
        NodeView::VariableDeclaration(v) => check_variable_declaration(v, table),
        NodeView::VariableInitialisation(v) => check_variable_initialisation(v, table, expected),
    }
}

} // verus!
