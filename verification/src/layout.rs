//! Every span of a tree that is built from a parse tree in source order
//! starts at or before its end.

use vstd::prelude::*;
use crate::grammar::{ParseNodeView, Rule};
use crate::node::{
    BlockView, FileView, NodeView, OutputView, ParameterListView, ParameterView,
    TypeSpecifierView,
};
use crate::placement::{
    lemma_folds_are_well_placed, lemma_sound_chain_builds_its_operands, lemma_sound_chain_is_odd,
    well_placed,
};
use crate::precedence::{lemma_weakest_in_range, weakest};
use crate::statement::{FunctionDefinitionView, SignatureView};
use crate::syntax::{
    ParameterScan, built_block, built_character, built_expression, built_expression_statement,
    built_file, built_function_definition, built_output, built_parameter, built_parameter_list,
    built_return_statement, built_statement, built_statements, built_term,
    built_variable_declaration, built_variable_initialisation, climbed, folded, is_statement,
    last_token, levels_of, operand_term, operator_node, parsed, scan_parameters, scan_start,
    scan_step,
};
use crate::token::TokenView;

verus! {

/// Whether the spans of a type specifier are well formed.
pub open spec fn type_specifier_well_spanned(t: TypeSpecifierView) -> bool {
    t.span.wf() && t.id.span.wf()
}

/// Whether the spans of an output are well formed.
pub open spec fn output_well_spanned(o: OutputView) -> bool {
    o.span.wf() && o.rarrow.span.wf() && type_specifier_well_spanned(o.ty)
}

/// Whether the spans of a parameter are well formed.
pub open spec fn parameter_well_spanned(p: ParameterView) -> bool {
    p.span.wf() && p.id.span.wf() && p.colon_token.span.wf() && type_specifier_well_spanned(p.ty)
}

/// Whether the spans of a parameter and of the comma behind it are well
/// formed.
pub open spec fn entry_well_spanned(e: (ParameterView, Option<TokenView>)) -> bool {
    parameter_well_spanned(e.0) && (e.1 matches Some(comma) ==> comma.span.wf())
}

/// Whether the spans of all parameters of a list are well formed.
pub open spec fn entries_well_spanned(entries: Seq<(ParameterView, Option<TokenView>)>) -> bool {
    forall|i: int| 0 <= i < entries.len() ==> entry_well_spanned(#[trigger] entries[i])
}

/// Whether the spans of a parameter list are well formed.
pub open spec fn parameter_list_well_spanned(p: ParameterListView) -> bool {
    p.span.wf() && p.lparen.span.wf() && p.rparen.span.wf() && entries_well_spanned(p.parameters)
}

/// Whether the spans of a signature are well formed.
pub open spec fn signature_well_spanned(s: SignatureView) -> bool {
    s.span.wf() && s.func_token.span.wf() && s.id.span.wf() && parameter_list_well_spanned(s.params)
        && output_well_spanned(s.output)
}

/// Whether every node of a list has well formed spans throughout.
pub open spec fn all_well_spanned(nodes: Seq<NodeView>) -> bool
    decreases nodes, 1nat,
{
    forall|i: int| 0 <= i < nodes.len() ==> well_spanned(#[trigger] nodes[i])
}

/// Whether the spans of a block and of all its statements are well formed.
pub open spec fn block_well_spanned(b: BlockView) -> bool
    decreases b,
{
    b.span.wf() && b.lbrace.span.wf() && b.rbrace.span.wf() && all_well_spanned(b.stmts)
}

/// Whether the spans of a file and of all its statements are well formed.
pub open spec fn file_well_spanned(f: FileView) -> bool
    decreases f,
{
    (f.span matches Some(span) ==> span.wf()) && all_well_spanned(f.stmts)
}

/// Whether the spans of a function definition are well formed.
pub open spec fn function_well_spanned(f: FunctionDefinitionView) -> bool
    decreases f,
{
    f.span.wf() && signature_well_spanned(f.sig) && block_well_spanned(f.block)
}

/// Whether every span in a tree, of the node itself and of every token and
/// node under it, starts at or before its end.
pub open spec fn well_spanned(n: NodeView) -> bool
    decreases n, 0nat,
{
    match n {
        NodeView::Token(t) => t.span.wf(),
        NodeView::BinaryOperator(b) => b.span.wf() && b.op.span.wf() && well_spanned(*b.left)
            && well_spanned(*b.right),
        NodeView::Boolean(b) => b.span.wf(),
        NodeView::Character(c) => c.span.wf() && c.lquote.span.wf() && c.rquote.span.wf(),
        NodeView::Float(f) => f.span.wf(),
        NodeView::Integer(i) => i.span.wf(),
        NodeView::Identifier(i) => i.span.wf(),
        NodeView::Str(s) => s.span.wf(),
        NodeView::Block(b) => block_well_spanned(b),
        NodeView::File(f) => file_well_spanned(f),
        NodeView::Output(o) => output_well_spanned(o),
        NodeView::ParameterList(p) => parameter_list_well_spanned(p),
        NodeView::Parameter(p) => parameter_well_spanned(p),
        NodeView::Term(t) => t.span.wf() && well_spanned(*t.node),
        NodeView::TypeSpecifier(t) => type_specifier_well_spanned(t),
        NodeView::Signature(s) => signature_well_spanned(s),
        NodeView::Expression(e) => e.span.wf() && well_spanned(*e.expr),
        NodeView::FunctionDefinition(f) => function_well_spanned(f),
        NodeView::Return(r) => r.span.wf() && r.return_token.span.wf() && well_spanned(*r.expr),
        NodeView::VariableDeclaration(v) => v.span.wf() && v.let_token.span.wf() && v.id.span.wf()
            && v.colon.span.wf() && type_specifier_well_spanned(v.ty),
        NodeView::VariableInitialisation(v) => v.span.wf() && v.let_token.span.wf() && v.id.span.wf()
            && v.colon.span.wf() && (v.ty matches Some(t) ==> type_specifier_well_spanned(t))
            && v.equals.span.wf() && well_spanned(*v.expr),
    }
}

/// Every tree over a chain in source order whose operands have well formed
/// spans has well formed spans.
proof fn lemma_folds_are_well_spanned(children: Seq<ParseNodeView>, lo: int, hi: int)
    requires
        0 <= lo <= hi,
        2 * hi < children.len(),
        forall|i: int| 0 <= i < children.len() ==> (#[trigger] children[i]).span.wf(),
        forall|k: int|
            lo <= k <= hi ==> (#[trigger] operand_term(children, k)).span.wf() && operand_term(
                children,
                k,
            ).span.within(children[2 * k].span) && well_spanned(*operand_term(children, k).node),
        forall|i: int, j: int|
            0 <= i < j < children.len() ==> (#[trigger] children[i]).span.before(
                (#[trigger] children[j]).span,
            ),
    ensures
        well_spanned(*climbed(children, lo, hi).node),
    decreases hi - lo,
{
    if lo < hi {
        let at = weakest(levels_of(children), lo, hi);
        lemma_weakest_in_range(levels_of(children), lo, hi);
        lemma_folds_are_well_spanned(children, lo, at);
        lemma_folds_are_well_spanned(children, at + 1, hi);
        lemma_folds_are_well_placed(children, lo, hi);
        let left = climbed(children, lo, at);
        let right = climbed(children, at + 1, hi);
        let tree = folded(left, operator_node(children, at), right);
        assert(climbed(children, lo, hi) == tree);
        assert(tree.node->BinaryOperator_0.left == left.node);
        assert(tree.node->BinaryOperator_0.right == right.node);
        assert(tree.node->BinaryOperator_0.span == tree.span);
        assert(children[2 * at + 1].span.wf());
    } else {
        assert(climbed(children, lo, hi) == operand_term(children, lo));
    }
}

/// A term that is built from a parse tree in source order has well formed
/// spans and lies within its node.
pub proof fn lemma_term_is_well_spanned(n: ParseNodeView)
    requires
        well_placed(n),
        built_term(n) is Ok,
    ensures
        built_term(n)->Ok_0.span.wf(),
        built_term(n)->Ok_0.span.within(n.span),
        well_spanned(*built_term(n)->Ok_0.node),
    decreases n, 0nat, 0nat,
{
    let c = n.children[0];
    assert(well_placed(c) && c.span.within(n.span));
    if c.rule == Rule::Expression {
        lemma_expression_is_well_spanned(c);
    } else if c.rule == Rule::Character {
        let quoted = built_character(c)->Ok_0;
        assert(well_placed(c.children[0]) && well_placed(c.children[2]));
    }
}

/// An expression that is built from a parse tree in source order has well
/// formed spans and lies within its node.
pub proof fn lemma_expression_is_well_spanned(n: ParseNodeView)
    requires
        well_placed(n),
        built_expression(n) is Ok,
    ensures
        built_expression(n)->Ok_0.span.wf(),
        built_expression(n)->Ok_0.span.within(n.span),
        well_spanned(*built_expression(n)->Ok_0.node),
    decreases n, 0nat, 1nat,
{
    let children = n.children;
    let last = (children.len() - 1) / 2;
    lemma_sound_chain_is_odd(children, 0);
    assert forall|i: int| 0 <= i < children.len() implies (#[trigger] children[i]).span.wf() by {
        assert(well_placed(children[i]));
    }
    assert forall|k: int| 0 <= k <= last implies (#[trigger] operand_term(children, k)).span.wf()
        && operand_term(children, k).span.within(children[2 * k].span) && well_spanned(
        *operand_term(children, k).node,
    ) by {
        lemma_sound_chain_builds_its_operands(children, 0, k);
        assert(well_placed(children[2 * k]));
        lemma_term_is_well_spanned(children[2 * k]);
    }
    lemma_folds_are_well_placed(children, 0, last);
    lemma_folds_are_well_spanned(children, 0, last);
    assert(children[0].span.within(n.span));
    assert(children[2 * last].span.within(n.span));
}

/// The children of a node in source order have well formed spans, lie
/// within the node and stand in order.
proof fn lemma_children_are_placed(n: ParseNodeView, i: int)
    requires
        well_placed(n),
        0 <= i < n.children.len(),
    ensures
        well_placed(n.children[i]),
        n.children[i].span.wf(),
        n.children[i].span.within(n.span),
{
    assert(well_placed(n.children[i]));
}

proof fn lemma_expression_statement_is_well_spanned(n: ParseNodeView)
    requires
        well_placed(n),
        built_expression_statement(n) is Ok,
    ensures
        well_spanned(NodeView::Expression(built_expression_statement(n)->Ok_0)),
{
    lemma_children_are_placed(n, 0);
    lemma_expression_is_well_spanned(n.children[0]);
}

proof fn lemma_return_statement_is_well_spanned(n: ParseNodeView)
    requires
        well_placed(n),
        built_return_statement(n) is Ok,
    ensures
        well_spanned(NodeView::Return(built_return_statement(n)->Ok_0)),
{
    lemma_children_are_placed(n, 0);
    lemma_children_are_placed(n, 1);
    lemma_expression_is_well_spanned(n.children[1]);
}

proof fn lemma_variable_declaration_is_well_spanned(n: ParseNodeView)
    requires
        well_placed(n),
        built_variable_declaration(n) is Ok,
    ensures
        well_spanned(NodeView::VariableDeclaration(built_variable_declaration(n)->Ok_0)),
{
    lemma_children_are_placed(n, 0);
    lemma_children_are_placed(n, 1);
    lemma_children_are_placed(n, 2);
    lemma_children_are_placed(n, 3);
}

proof fn lemma_variable_initialisation_is_well_spanned(n: ParseNodeView)
    requires
        well_placed(n),
        built_variable_initialisation(n) is Ok,
    ensures
        well_spanned(NodeView::VariableInitialisation(built_variable_initialisation(n)->Ok_0)),
{
    lemma_children_are_placed(n, 0);
    lemma_children_are_placed(n, 1);
    lemma_children_are_placed(n, 2);
    lemma_children_are_placed(n, 3);
    lemma_children_are_placed(n, 4);
    if n.children.len() == 6 {
        lemma_children_are_placed(n, 5);
        lemma_expression_is_well_spanned(n.children[5]);
    } else {
        lemma_expression_is_well_spanned(n.children[4]);
    }
}

/// What a statement builds to has well formed spans.
pub proof fn lemma_statement_is_well_spanned(n: ParseNodeView)
    requires
        well_placed(n),
        built_statement(n) is Ok,
    ensures
        well_spanned(built_statement(n)->Ok_0),
    decreases n, 2nat, 0nat,
{
    if n.rule == Rule::ExpressionStatement {
        lemma_expression_statement_is_well_spanned(n);
    } else if n.rule == Rule::ReturnStatement {
        lemma_return_statement_is_well_spanned(n);
    } else if n.rule == Rule::VariableDeclaration {
        lemma_variable_declaration_is_well_spanned(n);
    } else if n.rule == Rule::VariableInitialisation {
        lemma_variable_initialisation_is_well_spanned(n);
    } else if n.rule == Rule::FunctionDefinition {
        lemma_function_is_well_spanned(n);
    }
}

/// The statements that are built from children in source order have well
/// formed spans, where those that were built before have.
pub proof fn lemma_statements_are_well_spanned(
    parent: ParseNodeView,
    i: int,
    before: Seq<NodeView>,
)
    requires
        well_placed(parent),
        0 <= i,
        all_well_spanned(before),
        built_statements(parent.children, i, before) is Ok,
    ensures
        all_well_spanned(built_statements(parent.children, i, before)->Ok_0),
    decreases parent, 3nat, parent.children.len() - i,
{
    let children = parent.children;
    if i < children.len() {
        if is_statement(children[i].rule) {
            lemma_children_are_placed(parent, i);
            lemma_statement_is_well_spanned(children[i]);
            let s = built_statement(children[i])->Ok_0;
            assert(all_well_spanned(before.push(s))) by {
                assert forall|k: int| 0 <= k < before.push(s).len() implies well_spanned(
                    #[trigger] before.push(s)[k],
                ) by {
                    if k < before.len() {
                        assert(before.push(s)[k] == before[k]);
                    }
                }
            }
            lemma_statements_are_well_spanned(parent, i + 1, before.push(s));
        } else {
            lemma_statements_are_well_spanned(parent, i + 1, before);
        }
    }
}

/// The last token of a rule among children with well formed spans has a
/// well formed span.
proof fn lemma_last_token_is_well_spanned(parent: ParseNodeView, rule: Rule, i: int)
    requires
        well_placed(parent),
        0 <= i <= parent.children.len(),
    ensures
        last_token(parent.children, rule, i) matches Some(t) ==> t.span.wf(),
    decreases i,
{
    if i > 0 {
        lemma_children_are_placed(parent, i - 1);
        lemma_last_token_is_well_spanned(parent, rule, i - 1);
    }
}

/// What a block builds to has well formed spans.
pub proof fn lemma_block_is_well_spanned(n: ParseNodeView)
    requires
        well_placed(n),
        built_block(n) is Ok,
    ensures
        block_well_spanned(built_block(n)->Ok_0),
    decreases n, 4nat, 0nat,
{
    assert(all_well_spanned(Seq::<NodeView>::empty()));
    lemma_statements_are_well_spanned(n, 0, Seq::empty());
    lemma_last_token_is_well_spanned(n, Rule::LBrace, n.children.len() as int);
    lemma_last_token_is_well_spanned(n, Rule::RBrace, n.children.len() as int);
}

/// Whether what has been read of a parameter list has well formed spans.
pub open spec fn scan_well_spanned(state: ParameterScan) -> bool {
    &&& state.lparen matches Some(t) ==> t.span.wf()
    &&& state.rparen matches Some(t) ==> t.span.wf()
    &&& state.pending matches Some(p) ==> parameter_well_spanned(p)
    &&& entries_well_spanned(state.parameters)
}

proof fn lemma_parameter_is_well_spanned(n: ParseNodeView)
    requires
        well_placed(n),
        built_parameter(n) is Ok,
    ensures
        parameter_well_spanned(built_parameter(n)->Ok_0),
{
    lemma_children_are_placed(n, 0);
    lemma_children_are_placed(n, 1);
    lemma_children_are_placed(n, 2);
}

proof fn lemma_scan_is_well_spanned(parent: ParseNodeView, i: int, state: ParameterScan)
    requires
        well_placed(parent),
        0 <= i,
        scan_well_spanned(state),
        scan_parameters(parent.children, i, state) is Ok,
    ensures
        scan_well_spanned(scan_parameters(parent.children, i, state)->Ok_0),
    decreases parent.children.len() - i,
{
    let children = parent.children;
    if i < children.len() {
        let child = children[i];
        lemma_children_are_placed(parent, i);
        let next = scan_step(state, child)->Ok_0;
        if child.rule == Rule::Parameter {
            lemma_parameter_is_well_spanned(child);
        }
        assert(scan_well_spanned(next)) by {
            assert forall|k: int| 0 <= k < next.parameters.len() implies entry_well_spanned(
                #[trigger] next.parameters[k],
            ) by {
                if k < state.parameters.len() {
                    assert(next.parameters[k] == state.parameters[k]);
                }
            }
        }
        lemma_scan_is_well_spanned(parent, i + 1, next);
    }
}

/// What a parameter list builds to has well formed spans.
pub proof fn lemma_parameter_list_is_well_spanned(n: ParseNodeView)
    requires
        well_placed(n),
        built_parameter_list(n) is Ok,
    ensures
        parameter_list_well_spanned(built_parameter_list(n)->Ok_0),
{
    assert(entries_well_spanned(scan_start().parameters));
    lemma_scan_is_well_spanned(n, 0, scan_start());
}

proof fn lemma_output_is_well_spanned(n: ParseNodeView)
    requires
        well_placed(n),
        built_output(n) is Ok,
    ensures
        output_well_spanned(built_output(n)->Ok_0),
        built_output(n)->Ok_0.span == n.span,
{
    lemma_children_are_placed(n, 0);
    lemma_children_are_placed(n, 1);
}

/// What a function definition builds to has well formed spans.
pub proof fn lemma_function_is_well_spanned(n: ParseNodeView)
    requires
        well_placed(n),
        built_function_definition(n) is Ok,
    ensures
        function_well_spanned(built_function_definition(n)->Ok_0),
    decreases n, 1nat, 0nat,
{
    lemma_children_are_placed(n, 0);
    lemma_children_are_placed(n, 1);
    lemma_children_are_placed(n, 2);
    lemma_children_are_placed(n, 3);
    lemma_children_are_placed(n, 4);
    lemma_parameter_list_is_well_spanned(n.children[2]);
    lemma_output_is_well_spanned(n.children[3]);
    lemma_block_is_well_spanned(n.children[4]);
    assert(n.children[0].span.before(n.children[3].span));
}

/// Every span of the tree that is built from a parse tree in source order
/// starts at or before its end.
pub proof fn lemma_file_is_well_spanned(n: ParseNodeView)
    requires
        well_placed(n),
        built_file(n) is Ok,
    ensures
        file_well_spanned(built_file(n)->Ok_0),
        well_spanned(NodeView::File(built_file(n)->Ok_0)),
{
    assert(all_well_spanned(Seq::<NodeView>::empty()));
    lemma_statements_are_well_spanned(n, 0, Seq::empty());
}

/// Every span of the tree that a parse in source order builds to starts at
/// or before its end.
pub proof fn lemma_parse_is_well_spanned(inputs: Seq<ParseNodeView>)
    requires
        forall|i: int| 0 <= i < inputs.len() ==> well_placed(#[trigger] inputs[i]),
        parsed(inputs) is Ok,
    ensures
        file_well_spanned(parsed(inputs)->Ok_0),
{
    lemma_file_is_well_spanned(inputs[0]);
}

} // verus!
