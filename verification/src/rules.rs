//! What holds of the typing rules, whatever the program.

use vstd::prelude::*;
use crate::expression::{BinaryOperatorView, IdentifierView};
use crate::node::NodeView;
use crate::statement::{FunctionDefinitionView, VariableInitialisationView};
use crate::symbol::{SymbolView, uninitialised_variable, unknown_variable, variable_symbol};
use crate::tree_type::{FundamentalTypeView, named_type, numeric_order, position_from, promoted};
use crate::typing::{
    check_binary_operator, check_block, check_function_definition, check_identifier, check_node,
    check_right_operand, check_signature, check_statements, check_variable_initialisation,
    declared_return, diagnostics, either_is_string, fails, invalid_operand, is_additive,
    is_logical_or_equality, is_scaling_or_relational, judge_initialisation, operand_type,
    operator_result, specifier_expected, type_mismatch,
};

verus! {

/// The numeric types: those that take part in promotion.
pub open spec fn is_numeric(t: FundamentalTypeView) -> bool {
    t == FundamentalTypeView::Float || t == FundamentalTypeView::Integer || t
        == FundamentalTypeView::Character
}

/// The higher of two numeric types: float over integer over character.
pub open spec fn higher(left: FundamentalTypeView, right: FundamentalTypeView) -> FundamentalTypeView {
    if left == FundamentalTypeView::Float || right == FundamentalTypeView::Float {
        FundamentalTypeView::Float
    } else if left == FundamentalTypeView::Integer || right == FundamentalTypeView::Integer {
        FundamentalTypeView::Integer
    } else {
        FundamentalTypeView::Character
    }
}

/// Two numeric types promote to the higher of them; where one of the two
/// is not numeric, there is no promoted type.
pub proof fn lemma_numeric_promotion(left: FundamentalTypeView, right: FundamentalTypeView)
    ensures
        is_numeric(left) && is_numeric(right) ==> promoted(numeric_order(), left, right) == Some(
            higher(left, right),
        ),
        !(is_numeric(left) && is_numeric(right)) ==> promoted(numeric_order(), left, right) is None,
{
    reveal_with_fuel(position_from, 4);
}

/// Promotion does not depend on the order of the operands.
pub proof fn lemma_promotion_is_symmetric(left: FundamentalTypeView, right: FundamentalTypeView)
    ensures
        promoted(numeric_order(), left, right) == promoted(numeric_order(), right, left),
{
    lemma_numeric_promotion(left, right);
    lemma_numeric_promotion(right, left);
}

/// The words of the operators are all different from each other.
pub proof fn lemma_operator_words_differ()
    ensures
        !is_scaling_or_relational("+"@),
        !is_scaling_or_relational("-"@),
        !is_additive("*"@),
        "+"@ != "-"@,
        "*"@ != "/"@,
        "*"@ != ">"@,
        "*"@ != "<"@,
        "*"@ != ">="@,
        "*"@ != "<="@,
        forall|op: Seq<char>| is_logical_or_equality(op) ==> !is_additive(op) && !is_scaling_or_relational(op),
        !is_additive("as"@),
        !is_scaling_or_relational("as"@),
        !is_logical_or_equality("as"@),
{
    reveal_strlit("+");
    reveal_strlit("-");
    reveal_strlit("*");
    reveal_strlit("/");
    reveal_strlit(">");
    reveal_strlit("<");
    reveal_strlit(">=");
    reveal_strlit("<=");
    reveal_strlit("&&");
    reveal_strlit("||");
    reveal_strlit("==");
    reveal_strlit("!=");
    reveal_strlit("as");
    assert("+"@[0] != "-"@[0]);
    assert("*"@[0] != "/"@[0] && "*"@[0] != ">"@[0] && "*"@[0] != "<"@[0]);
    assert("+"@[0] != "*"@[0] && "+"@[0] != "/"@[0] && "+"@[0] != ">"@[0] && "+"@[0] != "<"@[0]);
    assert("-"@[0] != "*"@[0] && "-"@[0] != "/"@[0] && "-"@[0] != ">"@[0] && "-"@[0] != "<"@[0]);
    assert("&&"@[0] != ">="@[0] && "&&"@[0] != "<="@[0]);
    assert("||"@[0] != ">="@[0] && "||"@[0] != "<="@[0]);
    assert("=="@[0] != ">="@[0] && "=="@[0] != "<="@[0]);
    assert("!="@[0] != ">="@[0] && "!="@[0] != "<="@[0]);
    assert("as"@[0] != ">="@[0] && "as"@[0] != "<="@[0] && "as"@[0] != "&&"@[0] && "as"@[0]
        != "||"@[0] && "as"@[0] != "=="@[0] && "as"@[0] != "!="@[0]);
}

/// `+` promotes numeric operands, and joins a string with anything that
/// does not promote with it; `-` promotes numeric operands and takes
/// nothing else.
pub proof fn lemma_additive_operators(left: FundamentalTypeView, right: FundamentalTypeView)
    ensures
        operator_result("+"@, left, right) == (if is_numeric(left) && is_numeric(right) {
            Some(higher(left, right))
        } else if either_is_string(left, right) {
            Some(FundamentalTypeView::String)
        } else {
            None
        }),
        operator_result("-"@, left, right) == (if is_numeric(left) && is_numeric(right) {
            Some(higher(left, right))
        } else {
            None
        }),
{
    lemma_numeric_promotion(left, right);
    lemma_operator_words_differ();
}

/// A string on either side of `+` gives a string, whatever stands on the
/// other side; a string on either side of `-` is refused.
pub proof fn lemma_string_concatenation(other: FundamentalTypeView)
    ensures
        operator_result("+"@, FundamentalTypeView::String, other) == Some(FundamentalTypeView::String),
        operator_result("+"@, other, FundamentalTypeView::String) == Some(FundamentalTypeView::String),
        operator_result("-"@, FundamentalTypeView::String, other) is None,
        operator_result("-"@, other, FundamentalTypeView::String) is None,
{
    lemma_additive_operators(FundamentalTypeView::String, other);
    lemma_additive_operators(other, FundamentalTypeView::String);
}

/// `*` promotes numeric operands and gives a string where a string stands
/// on either side; `/` and the comparisons promote numeric operands and
/// take nothing else.
pub proof fn lemma_scaling_and_relational_operators(
    op: Seq<char>,
    left: FundamentalTypeView,
    right: FundamentalTypeView,
)
    requires
        is_scaling_or_relational(op),
    ensures
        operator_result(op, left, right) == (if is_numeric(left) && is_numeric(right) {
            Some(higher(left, right))
        } else if op == "*"@ && either_is_string(left, right) {
            Some(FundamentalTypeView::String)
        } else {
            None
        }),
{
    lemma_numeric_promotion(left, right);
    lemma_operator_words_differ();
}

/// `&&`, `||`, `==` and `!=` give a boolean for two booleans, and take
/// nothing else.
pub proof fn lemma_boolean_operators(op: Seq<char>, left: FundamentalTypeView, right: FundamentalTypeView)
    requires
        is_logical_or_equality(op),
    ensures
        operator_result(op, left, right) == (if left == FundamentalTypeView::Boolean && right
            == FundamentalTypeView::Boolean {
            Some(FundamentalTypeView::Boolean)
        } else {
            None
        }),
{
    lemma_operator_words_differ();
}

/// A cast gives the type on its right, whatever the type on its left.
pub proof fn lemma_cast_gives_target(left: FundamentalTypeView, right: FundamentalTypeView)
    ensures
        operator_result("as"@, left, right) == Some(right),
{
    lemma_operator_words_differ();
}

/// A cast whose left side has a type has the type that the identifier on
/// its right names; a cast whose right side is no identifier is refused.
pub proof fn lemma_cast_checks(
    b: BinaryOperatorView,
    table: Map<Seq<char>, SymbolView>,
    expected: Option<FundamentalTypeView>,
)
    requires
        b.op.value == "as"@,
    ensures
        match *b.right {
            NodeView::Identifier(id) => check_node(*b.left, table, expected).result matches Ok(Some(_))
                ==> check_binary_operator(b, table, expected).result == Ok::<
                Option<FundamentalTypeView>,
                Seq<crate::error::TypeErrorView>,
            >(Some(named_type(id.name))),
            _ => check_binary_operator(b, table, expected).result is Err && (check_node(
                *b.left,
                table,
                expected,
            ).result matches Ok(Some(_)) ==> check_binary_operator(b, table, expected).result == Err::<
                Option<FundamentalTypeView>,
                Seq<crate::error::TypeErrorView>,
            >(seq![specifier_expected(b.span)])),
        },
{
    lemma_operator_words_differ();
    let left = check_node(*b.left, table, expected);
    match left.result {
        Ok(Some(t)) => {
            match *b.right {
                NodeView::Identifier(id) => {
                    lemma_cast_gives_target(t, named_type(id.name));
                },
                _ => {},
            }
        },
        _ => {},
    }
}

/// A name can be read only once it has been declared and given a value:
/// an unknown name is refused, a variable without a value is refused, and
/// a variable with a value has the type it was entered with.
pub proof fn lemma_declare_before_use(
    table: Map<Seq<char>, SymbolView>,
    declared: IdentifierView,
    ty: FundamentalTypeView,
    read: IdentifierView,
)
    requires
        read.name == declared.name,
    ensures
        !table.contains_key(read.name) ==> check_identifier(read, table) == fails(
            unknown_variable(read),
            table,
        ),
        check_identifier(read, table.insert(declared.name, variable_symbol(false, declared, ty))).result
            == Err::<Option<FundamentalTypeView>, Seq<crate::error::TypeErrorView>>(
            seq![uninitialised_variable(read)],
        ),
        check_identifier(read, table.insert(declared.name, variable_symbol(true, declared, ty))).result
            == Ok::<Option<FundamentalTypeView>, Seq<crate::error::TypeErrorView>>(Some(ty)),
{
}

/// After an initialisation that passes, the variable can be read, and has
/// the annotated type where one is written.
pub proof fn lemma_initialised_variable_is_readable(
    v: VariableInitialisationView,
    table: Map<Seq<char>, SymbolView>,
    expected: Option<FundamentalTypeView>,
    read: IdentifierView,
)
    requires
        check_variable_initialisation(v, table, expected).result is Ok,
        read.name == v.id.name,
    ensures
        check_identifier(read, check_variable_initialisation(v, table, expected).table).result matches Ok(
            Some(t),
        ) && (v.ty matches Some(specifier) ==> t == named_type(specifier.id.name)),
{
}

/// An annotation that differs from the type of the initial value is
/// refused with a diagnostic that names both, and the variable is not
/// entered.
pub proof fn lemma_annotation_mismatch(
    v: VariableInitialisationView,
    found: FundamentalTypeView,
    table: Map<Seq<char>, SymbolView>,
)
    requires
        v.ty is Some,
        named_type(v.ty->Some_0.id.name) != found,
    ensures
        judge_initialisation(v, found, table) == fails(
            type_mismatch(v.id, named_type(v.ty->Some_0.id.name), found, v.span),
            table,
        ),
{
}

/// Whatever a function definition declares, in its parameters or in its
/// body, the table that it was checked against stays as it was: what
/// follows the function sees none of it.
pub proof fn lemma_function_scope_is_closed(
    f: FunctionDefinitionView,
    table: Map<Seq<char>, SymbolView>,
    expected: Option<FundamentalTypeView>,
)
    ensures
        check_function_definition(f, table, expected).table == table,
        check_node(NodeView::FunctionDefinition(f), table, expected).table == table,
{
}

/// A function definition among a list of statements is checked against
/// the same table as the statement behind it: nothing that it declares is
/// visible there.
pub proof fn lemma_function_is_checked_alone(
    stmts: Seq<NodeView>,
    i: int,
    table: Map<Seq<char>, SymbolView>,
    expected: Option<FundamentalTypeView>,
)
    requires
        0 <= i < stmts.len(),
        stmts[i] is FunctionDefinition,
    ensures
        check_statements(stmts, i, table, expected).errors == diagnostics(
            check_node(stmts[i], table, expected).result,
        ) + check_statements(stmts, i + 1, table, expected).errors,
        check_statements(stmts, i, table, expected).table == check_statements(
            stmts,
            i + 1,
            table,
            expected,
        ).table,
{
    lemma_function_scope_is_closed(stmts[i]->FunctionDefinition_0, table, expected);
}

/// A check that fails gives at least one diagnostic.
pub proof fn lemma_failure_has_diagnostics(
    n: NodeView,
    table: Map<Seq<char>, SymbolView>,
    expected: Option<FundamentalTypeView>,
)
    ensures
        check_node(n, table, expected).result matches Err(errors) ==> errors.len() > 0,
    decreases n,
{
    match n {
        NodeView::BinaryOperator(b) => {
            let left = check_node(*b.left, table, expected);
            lemma_failure_has_diagnostics(*b.left, table, expected);
            lemma_failure_has_diagnostics(*b.right, left.table, expected);
            let right = check_right_operand(b, left.table, expected);
            assert(right.result matches Err(errors) ==> errors.len() > 0);
            let l = operand_type(left.result, b.span);
            let r = operand_type(right.result, b.span);
            assert(l matches Err(errors) ==> errors.len() > 0);
            assert(r matches Err(errors) ==> errors.len() > 0);
            match (l, r) {
                (Err(le), Err(re)) => {
                    assert((le + re).len() == le.len() + re.len());
                },
                (Ok(lt), Ok(rt)) => {
                    assert(seq![invalid_operand(b.op, b.span)].len() == 1);
                },
                _ => {},
            }
        },
        NodeView::Term(t) => {
            lemma_failure_has_diagnostics(*t.node, table, expected);
        },
        NodeView::Expression(e) => {
            lemma_failure_has_diagnostics(*e.expr, table, expected);
        },
        NodeView::Return(r) => {
            lemma_failure_has_diagnostics(*r.expr, table, expected);
        },
        NodeView::VariableInitialisation(v) => {
            lemma_failure_has_diagnostics(*v.expr, table, expected);
        },
        NodeView::FunctionDefinition(f) => {
            let inner = check_signature(f.sig, table).table;
            let body = check_block(f.block, inner, Some(declared_return(f.sig)));
            assert(body.result matches Err(errors) ==> errors.len() > 0);
        },
        _ => {},
    }
}

/// The nodes that are expressions: the literals, the identifiers, and
/// the binary operators and terms over expressions.
pub open spec fn is_expression(n: NodeView) -> bool
    decreases n,
{
    match n {
        NodeView::Boolean(_) => true,
        NodeView::Character(_) => true,
        NodeView::Float(_) => true,
        NodeView::Integer(_) => true,
        NodeView::Str(_) => true,
        NodeView::Identifier(_) => true,
        NodeView::BinaryOperator(b) => is_expression(*b.left) && is_expression(*b.right),
        NodeView::Term(t) => is_expression(*t.node),
        _ => false,
    }
}

/// Checking an expression never changes the symbol table, and gives a
/// type or diagnostics, never nothing.
pub proof fn lemma_expressions_leave_the_table(
    n: NodeView,
    table: Map<Seq<char>, SymbolView>,
    expected: Option<FundamentalTypeView>,
)
    requires
        is_expression(n),
    ensures
        check_node(n, table, expected).table == table,
        check_node(n, table, expected).result != Ok::<
            Option<FundamentalTypeView>,
            Seq<crate::error::TypeErrorView>,
        >(None),
    decreases n,
{
    match n {
        NodeView::BinaryOperator(b) => {
            lemma_expressions_leave_the_table(*b.left, table, expected);
            lemma_expressions_leave_the_table(*b.right, table, expected);
            let left = check_node(*b.left, table, expected);
            let right = check_right_operand(b, left.table, expected);
            assert(right.table == table);
        },
        NodeView::Term(t) => {
            lemma_expressions_leave_the_table(*t.node, table, expected);
        },
        _ => {},
    }
}

/// A literal has its fixed type, whatever the table holds, and leaves the
/// table as it was.
pub proof fn lemma_literals_have_fixed_types(
    n: NodeView,
    table: Map<Seq<char>, SymbolView>,
    expected: Option<FundamentalTypeView>,
)
    ensures
        n is Boolean ==> check_node(n, table, expected).result == Ok::<
            Option<FundamentalTypeView>,
            Seq<crate::error::TypeErrorView>,
        >(Some(FundamentalTypeView::Boolean)),
        n is Character ==> check_node(n, table, expected).result == Ok::<
            Option<FundamentalTypeView>,
            Seq<crate::error::TypeErrorView>,
        >(Some(FundamentalTypeView::Character)),
        n is Integer ==> check_node(n, table, expected).result == Ok::<
            Option<FundamentalTypeView>,
            Seq<crate::error::TypeErrorView>,
        >(Some(FundamentalTypeView::Integer)),
        n is Float ==> check_node(n, table, expected).result == Ok::<
            Option<FundamentalTypeView>,
            Seq<crate::error::TypeErrorView>,
        >(Some(FundamentalTypeView::Float)),
        n is Str ==> check_node(n, table, expected).result == Ok::<
            Option<FundamentalTypeView>,
            Seq<crate::error::TypeErrorView>,
        >(Some(FundamentalTypeView::String)),
        n is Boolean || n is Character || n is Integer || n is Float || n is Str ==> check_node(
            n,
            table,
            expected,
        ).table == table,
{
}

} // verus!
