//! Why precedence climbing builds the tree that splits each chain at its
//! weakest operator: the states that the climb passes through, and the
//! steps between them.

use vstd::prelude::*;
use crate::error::{ParseError, ParseFault};
use crate::grammar::{ParseNodeView, Rule};
use crate::node::TermView;
use crate::precedence::{
    binds_into_right, lemma_level_has_one_side, lemma_weakest_is, precedence_of, splits_at_later,
};
use crate::syntax::{
    built_term, chain_fault_at, chain_fault_from, climbed, fault_at, folded, level_at, levels_of,
    operand_term, operator_node,
};

verus! {

/// Whether an operator stands behind operand `k`, one that the table holds.
pub open spec fn has_operator(children: Seq<ParseNodeView>, k: int) -> bool {
    2 * k + 1 < children.len() && precedence_of(operator_node(children, k).rule) is Some
}

/// Whether every operator between the operands `first..=at` yields to the
/// operator behind operand `at`, where there is one.
pub open spec fn yields_before(children: Seq<ParseNodeView>, first: int, at: int) -> bool {
    has_operator(children, at) ==> forall|i: int|
        first <= i < at ==> splits_at_later(#[trigger] level_at(children, i), level_at(children, at))
}

/// The state of a climb that took the operators `from..at` and holds
/// `tree` for the operands `first..=at`: the chain is sound up to operand
/// `at`, the tree is the one that splits at the weakest operator, and every
/// operator that was taken binds at least as strongly as `min`.
pub open spec fn climb_state(
    children: Seq<ParseNodeView>,
    first: int,
    from: int,
    at: int,
    min: nat,
    tree: TermView,
) -> bool {
    &&& 0 <= first <= from <= at
    &&& 2 * at < children.len()
    &&& chain_fault_from(children, 0) == chain_fault_from(children, 2 * at + 1)
    &&& tree == climbed(children, first, at)
    &&& yields_before(children, first, at)
    &&& forall|i: int| from <= i < at ==> #[trigger] level_at(children, i) >= min
}

/// The state of a climb into the right operand of the operator behind
/// operand `root`: `tree` is the tree of the operands `root + 1..=at`, and
/// every operator in it binds into the right operand of the root.
pub open spec fn right_state(children: Seq<ParseNodeView>, root: int, at: int, tree: TermView) -> bool {
    &&& 0 <= root < at
    &&& 2 * at < children.len()
    &&& precedence_of(operator_node(children, root).rule) is Some
    &&& chain_fault_from(children, 0) == chain_fault_from(children, 2 * at + 1)
    &&& tree == climbed(children, root + 1, at)
    &&& yields_before(children, root + 1, at)
    &&& forall|i: int|
        root < i < at ==> binds_into_right(level_at(children, root), #[trigger] level_at(children, i))
}

/// Whether a climb over operators of at least level `min` ends at operand
/// `at`: the chain ends there, or the operator behind it binds weaker.
pub open spec fn ends_at(children: Seq<ParseNodeView>, at: int, min: nat) -> bool {
    2 * at + 1 < children.len() ==> has_operator(children, at) && level_at(children, at) < min
}

/// Whether a climb into the right operand of `root` ends at operand `at`:
/// the chain ends there, or the operator behind it does not bind into the
/// right operand.
pub open spec fn right_ends_at(children: Seq<ParseNodeView>, root: int, at: int) -> bool {
    2 * at + 1 < children.len() ==> has_operator(children, at) && !binds_into_right(
        level_at(children, root),
        level_at(children, at),
    )
}

/// An operator that the table holds is no fault of the chain.
pub proof fn lemma_operator_sound(children: Seq<ParseNodeView>, k: int)
    requires
        0 <= k,
        has_operator(children, k),
    ensures
        chain_fault_from(children, 2 * k + 1) == chain_fault_from(children, 2 * k + 2),
{
    assert(chain_fault_at(children, 2 * k + 1) is None);
}

/// An operator that the table does not hold is the fault of the chain.
pub proof fn lemma_operator_unknown(children: Seq<ParseNodeView>, k: int)
    requires
        0 <= k,
        2 * k + 1 < children.len(),
        precedence_of(operator_node(children, k).rule) is None,
    ensures
        chain_fault_from(children, 2 * k + 1) == Some(
            fault_at(ParseFault::NotAnOperator, Rule::Expression, operator_node(children, k)),
        ),
{
    assert(chain_fault_at(children, 2 * k + 1) == Some(
        fault_at(ParseFault::NotAnOperator, Rule::Expression, children[2 * k + 1]),
    ));
}

/// An operator at the end of the chain lacks its operand.
pub proof fn lemma_operand_missing(children: Seq<ParseNodeView>, k: int)
    requires
        0 <= k,
        has_operator(children, k),
        2 * k + 2 >= children.len(),
    ensures
        chain_fault_from(children, 2 * k + 1) == Some(
            fault_at(ParseFault::MissingOperand, Rule::Expression, operator_node(children, k)),
        ),
{
    lemma_operator_sound(children, k);
    assert(children.last() == children[2 * k + 1]);
}

/// An operand that builds is no fault of the chain, and is its own tree.
pub proof fn lemma_operand_sound(children: Seq<ParseNodeView>, k: int, term: TermView)
    requires
        0 <= k,
        2 * k < children.len(),
        built_term(children[2 * k]) == Ok::<TermView, ParseError>(term),
    ensures
        chain_fault_from(children, 2 * k) == chain_fault_from(children, 2 * k + 1),
        climbed(children, k, k) == term,
{
    assert(chain_fault_at(children, 2 * k) is None);
    assert(operand_term(children, k) == term);
}

/// An operand that does not build is the fault of the chain.
pub proof fn lemma_operand_fails(children: Seq<ParseNodeView>, k: int, e: ParseError)
    requires
        0 <= k,
        2 * k < children.len(),
        built_term(children[2 * k]) == Err::<TermView, ParseError>(e),
    ensures
        chain_fault_from(children, 2 * k) == Some(e),
{
    assert(chain_fault_at(children, 2 * k) == Some(e));
}

/// The first operand starts a climb.
pub proof fn lemma_climb_starts(children: Seq<ParseNodeView>, term: TermView)
    requires
        children.len() > 0,
        built_term(children[0]) == Ok::<TermView, ParseError>(term),
    ensures
        climb_state(children, 0, 0, 0, 0, term),
{
    lemma_operand_sound(children, 0, term);
}

/// A climb from the first operand that ends has read the whole chain.
pub proof fn lemma_climb_done(children: Seq<ParseNodeView>, end: int, tree: TermView)
    requires
        climb_state(children, 0, 0, end, 0, tree),
        ends_at(children, end, 0),
    ensures
        chain_fault_from(children, 0) is None,
        end == (children.len() - 1) / 2,
        tree == climbed(children, 0, (children.len() - 1) / 2),
{
    assert(children.len() == 2 * end + 1);
    assert(chain_fault_from(children, 2 * end + 1) is None);
}

/// The operand behind a root operator starts the climb into its right
/// operand.
pub proof fn lemma_right_starts(children: Seq<ParseNodeView>, root: int, term: TermView)
    requires
        0 <= root,
        has_operator(children, root),
        2 * root + 2 < children.len(),
        chain_fault_from(children, 0) == chain_fault_from(children, 2 * root + 1),
        built_term(children[2 * root + 2]) == Ok::<TermView, ParseError>(term),
    ensures
        right_state(children, root, root + 1, term),
{
    lemma_operator_sound(children, root);
    lemma_operand_sound(children, root + 1, term);
}

/// A climb into the right operand may hand its tree to a climb over the
/// operators of the level of the next operator.
pub proof fn lemma_right_descends(children: Seq<ParseNodeView>, root: int, at: int, tree: TermView)
    requires
        right_state(children, root, at, tree),
        has_operator(children, at),
    ensures
        climb_state(children, root + 1, at, at, level_at(children, at), tree),
{
}

/// What a climb over the operators of the level of the next operator hands
/// back continues the climb into the right operand.
pub proof fn lemma_right_continues(
    children: Seq<ParseNodeView>,
    root: int,
    at: int,
    end: int,
    tree: TermView,
)
    requires
        0 <= root < at,
        precedence_of(operator_node(children, root).rule) is Some,
        has_operator(children, at),
        binds_into_right(level_at(children, root), level_at(children, at)),
        forall|i: int|
            root < i < at ==> binds_into_right(level_at(children, root), #[trigger] level_at(children, i)),
        yields_before(children, root + 1, at),
        climb_state(children, root + 1, at, end, level_at(children, at), tree),
        ends_at(children, end, level_at(children, at)),
    ensures
        right_state(children, root, end, tree),
{
    let low = level_at(children, root);
    let mid = level_at(children, at);
    assert forall|i: int| root < i < end implies binds_into_right(low, #[trigger] level_at(children, i)) by {
        if i >= at {
            assert(level_at(children, i) >= mid);
        }
    }
    if has_operator(children, end) {
        assert forall|i: int| root + 1 <= i < end implies splits_at_later(
            #[trigger] level_at(children, i),
            level_at(children, end),
        ) by {
            if i >= at {
                assert(level_at(children, i) >= mid);
            } else {
                assert(splits_at_later(level_at(children, i), mid));
            }
        }
    }
}

/// Folding the tree of the left operands, the root operator and the tree of
/// its right operand gives the tree of them all, and the climb goes on
/// behind the right operand.
pub proof fn lemma_fold_climbs(
    children: Seq<ParseNodeView>,
    first: int,
    from: int,
    root: int,
    end: int,
    min: nat,
    left: TermView,
    right: TermView,
)
    requires
        climb_state(children, first, from, root, min, left),
        has_operator(children, root),
        level_at(children, root) >= min,
        right_state(children, root, end, right),
        right_ends_at(children, root, end),
    ensures
        climb_state(
            children,
            first,
            from,
            end,
            min,
            folded(left, operator_node(children, root), right),
        ),
{
    let levels = levels_of(children);
    let low = level_at(children, root);
    assert forall|i: int| first <= i < end implies levels[i] == level_at(children, i) by {}
    assert forall|i: int| first <= i < root implies splits_at_later(levels[i], levels[root]) by {
        assert(splits_at_later(level_at(children, i), low));
    }
    assert forall|i: int| root < i < end implies binds_into_right(levels[root], levels[i]) by {
        assert(binds_into_right(low, level_at(children, i)));
    }
    lemma_weakest_is(levels, first, end, root);
    assert(climbed(children, first, end) == folded(
        climbed(children, first, root),
        operator_node(children, root),
        climbed(children, root + 1, end),
    ));
    if has_operator(children, end) {
        lemma_level_has_one_side(operator_node(children, end).rule);
        lemma_level_has_one_side(operator_node(children, root).rule);
        assert forall|i: int| first <= i < end implies splits_at_later(
            #[trigger] level_at(children, i),
            level_at(children, end),
        ) by {
            if i < root {
                assert(splits_at_later(level_at(children, i), low));
            } else if i > root {
                assert(binds_into_right(low, level_at(children, i)));
            }
        }
    }
    assert forall|i: int| from <= i < end implies #[trigger] level_at(children, i) >= min by {
        if i > root {
            assert(binds_into_right(low, level_at(children, i)));
        }
    }
}

/// The tree of a chain reaches from the start of its first operand to the
/// end of its last one.
pub proof fn lemma_tree_spans_its_operands(children: Seq<ParseNodeView>, lo: int, hi: int)
    requires
        lo <= hi,
    ensures
        climbed(children, lo, hi).span == operand_term(children, lo).span.through(
            operand_term(children, hi).span,
        ),
    decreases hi - lo,
{
    if lo < hi {
        let at = crate::precedence::weakest(levels_of(children), lo, hi);
        crate::precedence::lemma_weakest_in_range(levels_of(children), lo, hi);
        lemma_tree_spans_its_operands(children, lo, at);
        lemma_tree_spans_its_operands(children, at + 1, hi);
    }
}

/// The tree of a chain of one operator joins its two operands.
pub proof fn lemma_chain_of_two(children: Seq<ParseNodeView>, k: int)
    ensures
        climbed(children, k, k + 1) == folded(
            operand_term(children, k),
            operator_node(children, k),
            operand_term(children, k + 1),
        ),
{
    assert(crate::precedence::weakest(levels_of(children), k, k + 1) == k);
    assert(climbed(children, k, k) == operand_term(children, k));
    assert(climbed(children, k + 1, k + 1) == operand_term(children, k + 1));
}

/// In a chain of two operators, the one that binds stronger takes the
/// middle operand. Where both bind equally, the first takes it if their
/// level groups to the left, the second if it groups to the right.
pub proof fn lemma_chain_of_three(children: Seq<ParseNodeView>)
    requires
        children.len() == 5,
    ensures
        climbed(children, 0, 2) == (if splits_at_later(level_at(children, 0), level_at(children, 1)) {
            folded(
                folded(operand_term(children, 0), operator_node(children, 0), operand_term(children, 1)),
                operator_node(children, 1),
                operand_term(children, 2),
            )
        } else {
            folded(
                operand_term(children, 0),
                operator_node(children, 0),
                folded(operand_term(children, 1), operator_node(children, 1), operand_term(children, 2)),
            )
        }),
{
    let levels = levels_of(children);
    assert(levels[0] == level_at(children, 0));
    assert(levels[1] == level_at(children, 1));
    reveal_with_fuel(crate::precedence::weakest, 3);
    lemma_chain_of_two(children, 0);
    lemma_chain_of_two(children, 1);
    assert(climbed(children, 0, 0) == operand_term(children, 0));
    assert(climbed(children, 2, 2) == operand_term(children, 2));
}

/// The operator at which a chain splits binds weakest: no operator of the
/// chain binds weaker than the root of its tree.
pub proof fn lemma_root_binds_weakest(children: Seq<ParseNodeView>, lo: int, hi: int, i: int)
    requires
        0 <= lo <= i < hi,
        2 * hi < children.len(),
    ensures
        lo <= crate::precedence::weakest(levels_of(children), lo, hi) < hi,
        level_at(children, crate::precedence::weakest(levels_of(children), lo, hi)) <= level_at(
            children,
            i,
        ),
        climbed(children, lo, hi) == folded(
            climbed(children, lo, crate::precedence::weakest(levels_of(children), lo, hi)),
            operator_node(children, crate::precedence::weakest(levels_of(children), lo, hi)),
            climbed(children, crate::precedence::weakest(levels_of(children), lo, hi) + 1, hi),
        ),
{
    let levels = levels_of(children);
    crate::precedence::lemma_weakest_in_range(levels, lo, hi);
    crate::precedence::lemma_weakest_is_minimal(levels, lo, hi, i);
    let at = crate::precedence::weakest(levels, lo, hi);
    assert(levels[at] == level_at(children, at));
    assert(levels[i] == level_at(children, i));
}

} // verus!
