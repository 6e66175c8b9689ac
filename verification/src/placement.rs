//! Parse trees in source order, and what holds of the expressions that
//! the builder makes of them: each fold reaches from its first operand to
//! its last, and the semantic pass takes each for an expression.

use vstd::prelude::*;
use crate::climbing::lemma_tree_spans_its_operands;
use crate::grammar::{ParseNode, ParseNodeView, Rule, parse_nodes_view};
use crate::rules::is_expression;
use crate::syntax::{
    built_expression, built_term, chain_fault_at, chain_fault_from, climbed, operand_term,
};

verus! {

/// Whether a parse tree is laid out in source order: no span ends before
/// it starts, every child lies within its parent, and each child ends at
/// or before the start of the next.
pub open spec fn well_placed(n: ParseNodeView) -> bool
    decreases n,
{
    &&& n.span.wf()
    &&& forall|i: int|
        0 <= i < n.children.len() ==> well_placed(#[trigger] n.children[i]) && n.children[i].span.within(
            n.span,
        )
    &&& forall|i: int, j: int|
        0 <= i < j < n.children.len() ==> (#[trigger] n.children[i]).span.before(
            (#[trigger] n.children[j]).span,
        )
}

/// Decides whether a parse tree is laid out in source order.
pub fn is_well_placed(node: &ParseNode) -> (r: bool)
    ensures
        r == well_placed(node@),
    decreases node,
{
    if !node.span.start.precedes_or_equals(&node.span.end) {
        return false;
    }
    let ghost views = parse_nodes_view(node.children@);
    let mut i: usize = 0;
    while i < node.children.len()
        invariant
            i <= node.children.len(),
            node.span.wf(),
            views == parse_nodes_view(node.children@),
            views == node@.children,
            forall|k: int|
                0 <= k < i ==> well_placed(#[trigger] views[k]) && views[k].span.within(node.span),
            forall|a: int, b: int|
                0 <= a < b < i ==> (#[trigger] views[a]).span.before((#[trigger] views[b]).span),
        decreases node.children.len() - i,
    {
        let child = &node.children[i];
        assert(views[i as int] == child@);
        if !is_well_placed(child) {
            return false;
        }
        if !node.span.start.precedes_or_equals(&child.span.start)
            || !child.span.end.precedes_or_equals(&node.span.end) {
            assert(!views[i as int].span.within(node.span));
            return false;
        }
        if i > 0 {
            let earlier = &node.children[i - 1];
            assert(views[i - 1] == earlier@);
            if !earlier.span.end.precedes_or_equals(&child.span.start) {
                assert(!views[i - 1].span.before(views[i as int].span));
                return false;
            }
            assert forall|a: int| 0 <= a < i implies (#[trigger] views[a]).span.before(
                views[i as int].span,
            ) by {
                if a < i - 1 {
                    assert(views[a].span.before(views[i - 1].span));
                    assert(views[i - 1].span.wf());
                }
            }
        }
        i = i + 1;
    }
    true
}

/// A chain without a fault has operands that all build.
pub proof fn lemma_sound_chain_builds_its_operands(children: Seq<ParseNodeView>, from: int, k: int)
    requires
        0 <= from <= 2 * k < children.len(),
        chain_fault_from(children, from) is None,
    ensures
        built_term(children[2 * k]) is Ok,
        built_term(children[2 * k]) == Ok::<crate::node::TermView, crate::error::ParseError>(
            operand_term(children, k),
        ),
    decreases 2 * k - from,
{
    if from < 2 * k {
        lemma_sound_chain_builds_its_operands(children, from + 1, k);
    } else {
        assert(chain_fault_at(children, from) is None);
    }
}

/// Where every operand of a chain is well formed and lies within the
/// child it was built from, and the children stand in source order, every
/// tree over the chain is well formed: it starts where its first operand
/// starts and ends where its last operand ends.
pub proof fn lemma_folds_are_well_placed(children: Seq<ParseNodeView>, lo: int, hi: int)
    requires
        0 <= lo <= hi,
        2 * hi < children.len(),
        forall|k: int|
            lo <= k <= hi ==> (#[trigger] operand_term(children, k)).span.wf() && operand_term(
                children,
                k,
            ).span.within(children[2 * k].span),
        forall|i: int, j: int|
            0 <= i < j < children.len() ==> (#[trigger] children[i]).span.before(
                (#[trigger] children[j]).span,
            ),
    ensures
        climbed(children, lo, hi).span.wf(),
        climbed(children, lo, hi).span.start == operand_term(children, lo).span.start,
        climbed(children, lo, hi).span.end == operand_term(children, hi).span.end,
        climbed(children, lo, hi).span.within(children[2 * lo].span.through(children[2 * hi].span)),
{
    lemma_tree_spans_its_operands(children, lo, hi);
    let first = operand_term(children, lo).span;
    let last = operand_term(children, hi).span;
    assert(first.wf() && first.within(children[2 * lo].span));
    assert(last.wf() && last.within(children[2 * hi].span));
    if lo < hi {
        assert(children[2 * lo].span.before(children[2 * hi].span));
    }
}

/// A chain without a fault has an odd number of children.
pub proof fn lemma_sound_chain_is_odd(children: Seq<ParseNodeView>, from: int)
    requires
        0 <= from <= children.len(),
        children.len() > 0,
        chain_fault_from(children, from) is None,
    ensures
        children.len() % 2 == 1,
    decreases children.len() - from,
{
    if from < children.len() {
        lemma_sound_chain_is_odd(children, from + 1);
    }
}

/// Every tree over a chain whose operands are expressions is an
/// expression.
pub proof fn lemma_folds_are_expressions(children: Seq<ParseNodeView>, lo: int, hi: int)
    requires
        lo <= hi,
        forall|k: int| lo <= k <= hi ==> is_expression(*(#[trigger] operand_term(children, k)).node),
    ensures
        is_expression(*climbed(children, lo, hi).node),
    decreases hi - lo,
{
    if lo < hi {
        let at = crate::precedence::weakest(crate::syntax::levels_of(children), lo, hi);
        crate::precedence::lemma_weakest_in_range(crate::syntax::levels_of(children), lo, hi);
        lemma_folds_are_expressions(children, lo, at);
        lemma_folds_are_expressions(children, at + 1, hi);
        let left = climbed(children, lo, at);
        let right = climbed(children, at + 1, hi);
        let tree = crate::syntax::folded(left, crate::syntax::operator_node(children, at), right);
        assert(climbed(children, lo, hi) == tree);
        assert(tree.node->BinaryOperator_0.left == left.node);
        assert(tree.node->BinaryOperator_0.right == right.node);
    } else {
        assert(climbed(children, lo, hi) == operand_term(children, lo));
    }
}

/// What a term builds to is an expression.
pub proof fn lemma_term_is_an_expression(n: ParseNodeView)
    requires
        built_term(n) is Ok,
    ensures
        is_expression(*built_term(n)->Ok_0.node),
    decreases n, 0nat,
{
    let c = n.children[0];
    if c.rule == Rule::Expression {
        lemma_expression_is_an_expression(c);
    }
}

/// What an expression builds to is an expression: the semantic pass gives
/// it a type or diagnostics, and checks it without changing the symbol
/// table.
pub proof fn lemma_expression_is_an_expression(n: ParseNodeView)
    requires
        built_expression(n) is Ok,
    ensures
        is_expression(*built_expression(n)->Ok_0.node),
    decreases n, 1nat,
{
    let children = n.children;
    let last = (children.len() - 1) / 2;
    lemma_sound_chain_is_odd(children, 0);
    assert forall|k: int| 0 <= k <= last implies is_expression(
        *(#[trigger] operand_term(children, k)).node,
    ) by {
        lemma_sound_chain_builds_its_operands(children, 0, k);
        lemma_term_is_an_expression(children[2 * k]);
    }
    lemma_folds_are_expressions(children, 0, last);
}

} // verus!
