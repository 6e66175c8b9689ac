//! The table of operator precedence and associativity, and the place at
//! which a chain of operands and operators splits.

use vstd::prelude::*;
use crate::grammar::Rule;

verus! {

/// The side on which operators of one level group.
#[derive(Copy, Clone, Debug, PartialEq, Eq, Structural)]
pub enum Assoc {
    Left,
    Right,
}

/// The level of an operator, from 1 for the one that binds weakest, and the
/// side on which it groups; nothing for a rule that is no operator.
///
/// From the weakest level to the strongest: assignment; logical or;
/// logical and; equality and inequality; the four comparisons; bitwise
/// xor, or and and; the shifts; plus and minus; multiply and divide;
/// exponent; the cast `as`. Assignment and exponent group to the right, all
/// others to the left.
pub open spec fn precedence_of(rule: Rule) -> Option<(nat, Assoc)> {
    match rule {
        Rule::Assignment => Some((1nat, Assoc::Right)),
        Rule::LogicalOr => Some((2nat, Assoc::Left)),
        Rule::LogicalAnd => Some((3nat, Assoc::Left)),
        Rule::Equal | Rule::NotEqual => Some((4nat, Assoc::Left)),
        Rule::GreaterThanOrEqual | Rule::LessThanOrEqual | Rule::GreaterThan | Rule::LessThan => Some(
            (5nat, Assoc::Left),
        ),
        Rule::BitwiseXor | Rule::BitwiseOr | Rule::BitwiseAnd => Some((6nat, Assoc::Left)),
        Rule::ShiftRight | Rule::ShiftLeft => Some((7nat, Assoc::Left)),
        Rule::Plus | Rule::Minus => Some((8nat, Assoc::Left)),
        Rule::Multiply | Rule::Divide => Some((9nat, Assoc::Left)),
        Rule::Exponent => Some((10nat, Assoc::Right)),
        Rule::Cast => Some((11nat, Assoc::Left)),
        _ => None,
    }
}

/// The side on which the operators of a level group.
pub open spec fn side_of(level: nat) -> Assoc {
    if level == 1 || level == 10 {
        Assoc::Right
    } else {
        Assoc::Left
    }
}

/// Looks an operator up in the table.
pub fn operator_precedence(rule: Rule) -> (r: Option<(u32, Assoc)>)
    ensures
        match r {
            Some((level, side)) => precedence_of(rule) == Some((level as nat, side)),
            None => precedence_of(rule) is None,
        },
{
    match rule {
        Rule::Assignment => Some((1u32, Assoc::Right)),
        Rule::LogicalOr => Some((2u32, Assoc::Left)),
        Rule::LogicalAnd => Some((3u32, Assoc::Left)),
        Rule::Equal | Rule::NotEqual => Some((4u32, Assoc::Left)),
        Rule::GreaterThanOrEqual | Rule::LessThanOrEqual | Rule::GreaterThan | Rule::LessThan => Some(
            (5u32, Assoc::Left),
        ),
        Rule::BitwiseXor | Rule::BitwiseOr | Rule::BitwiseAnd => Some((6u32, Assoc::Left)),
        Rule::ShiftRight | Rule::ShiftLeft => Some((7u32, Assoc::Left)),
        Rule::Plus | Rule::Minus => Some((8u32, Assoc::Left)),
        Rule::Multiply | Rule::Divide => Some((9u32, Assoc::Left)),
        Rule::Exponent => Some((10u32, Assoc::Right)),
        Rule::Cast => Some((11u32, Assoc::Left)),
        _ => None,
    }
}

/// All operators of one level group on the same side.
pub proof fn lemma_level_has_one_side(rule: Rule)
    ensures
        match precedence_of(rule) {
            Some((level, side)) => side == side_of(level) && 1 <= level <= 11,
            None => true,
        },
{
}

/// Whether, of two operators in a chain, the one that stands later is the
/// one at which the chain splits first: it binds weaker than the earlier
/// one, or as weakly and their level groups to the left.
pub open spec fn splits_at_later(earlier: nat, later: nat) -> bool {
    later < earlier || (later == earlier && side_of(later) == Assoc::Left)
}

/// Whether an operator that stands later in a chain belongs to the right
/// operand of an earlier one: it binds stronger, or as strongly and their
/// level groups to the right.
pub open spec fn binds_into_right(earlier: nat, later: nat) -> bool {
    later > earlier || (later == earlier && side_of(later) == Assoc::Right)
}

/// The place at which the chain of operators `lo..hi` splits: the operator
/// that binds weakest; among several of the weakest level the last one
/// where the level groups to the left, the first one where it groups to the
/// right.
pub open spec fn weakest(levels: Seq<nat>, lo: int, hi: int) -> int
    decreases hi - lo,
{
    if hi - lo <= 1 {
        lo
    } else {
        let before = weakest(levels, lo, hi - 1);
        if splits_at_later(levels[before], levels[hi - 1]) {
            hi - 1
        } else {
            before
        }
    }
}

/// The split lies within the chain.
pub proof fn lemma_weakest_in_range(levels: Seq<nat>, lo: int, hi: int)
    requires
        lo < hi,
    ensures
        lo <= weakest(levels, lo, hi) < hi,
    decreases hi - lo,
{
    if hi - lo > 1 {
        lemma_weakest_in_range(levels, lo, hi - 1);
    }
}

/// The split is the operator to which every earlier one yields and into
/// whose right operand every later one binds.
pub proof fn lemma_weakest_is(levels: Seq<nat>, lo: int, hi: int, at: int)
    requires
        lo <= at < hi,
        forall|i: int| lo <= i < at ==> splits_at_later(levels[i], levels[at]),
        forall|i: int| at < i < hi ==> binds_into_right(levels[at], levels[i]),
    ensures
        weakest(levels, lo, hi) == at,
    decreases hi - lo,
{
    if hi - lo > 1 {
        if at == hi - 1 {
            lemma_weakest_in_range(levels, lo, hi - 1);
        } else {
            lemma_weakest_is(levels, lo, hi - 1, at);
        }
    }
}

/// The split is weakest: no operator of the chain binds weaker than it.
pub proof fn lemma_weakest_is_minimal(levels: Seq<nat>, lo: int, hi: int, i: int)
    requires
        lo <= i < hi,
    ensures
        levels[weakest(levels, lo, hi)] <= levels[i],
    decreases hi - lo,
{
    if hi - lo > 1 {
        if i < hi - 1 {
            lemma_weakest_is_minimal(levels, lo, hi - 1, i);
        }
        lemma_weakest_in_range(levels, lo, hi - 1);
    }
}

} // verus!
