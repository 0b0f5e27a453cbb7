//! What it is for one part of a statement to be a copy of another.
//!
//! A copy owns storage of its own, so it is told from what it was copied
//! from by what it holds: the same kinds, names and numbers, and byte for
//! byte and item for item the same sequences.

use vstd::prelude::*;
use crate::ast::compare::Compare;
use crate::ast::conditions::ConditionTree;
use crate::ast::expression::Expression;
use crate::ast::join::Join;
use crate::ast::select::Select;
use crate::value::Value;

verus! {

impl Value {
    /// True when this value holds what `of` holds.
    pub open spec fn is_copy_of(self, of: Value) -> bool {
        match (self, of) {
            (Value::Bytes(copy), Value::Bytes(bytes)) => copy@ == bytes@,
            _ => self == of,
        }
    }
}

impl Expression {
    /// True when this expression holds what `of` holds.
    pub open spec fn is_copy_of(self, of: Expression) -> bool {
        match (self, of) {
            (Expression::Parameter(copy), Expression::Parameter(value)) => copy.is_copy_of(value),
            _ => self == of,
        }
    }
}

/// True when there are as many expressions in `copy` as in `of`, each a copy
/// of the one at its place.
pub open spec fn expressions_are_copies(copy: Seq<Expression>, of: Seq<Expression>) -> bool {
    &&& copy.len() == of.len()
    &&& forall|i: int| 0 <= i < of.len() ==> (#[trigger] copy[i]).is_copy_of(of[i])
}

/// True when `copy` is the same comparison as `of`, over copies of its
/// operands.
pub open spec fn compare_is_copy(copy: Compare, of: Compare) -> bool
    decreases of,
{
    match (copy, of) {
        (Compare::Binary(l, o, r), Compare::Binary(left, operator, right)) => l.is_copy_of(left)
            && o == operator && r.is_copy_of(right),
        (Compare::In(l, v), Compare::In(left, values)) => l.is_copy_of(left)
            && expressions_are_copies(v@, values@),
        (Compare::NotIn(l, v), Compare::NotIn(left, values)) => l.is_copy_of(left)
            && expressions_are_copies(v@, values@),
        (Compare::Null(l), Compare::Null(left)) => l.is_copy_of(left),
        (Compare::NotNull(l), Compare::NotNull(left)) => l.is_copy_of(left),
        (Compare::Between(l, a, b), Compare::Between(left, low, high)) => l.is_copy_of(left)
            && a.is_copy_of(low) && b.is_copy_of(high),
        (Compare::NotBetween(l, a, b), Compare::NotBetween(left, low, high)) => l.is_copy_of(
            left,
        ) && a.is_copy_of(low) && b.is_copy_of(high),
        (Compare::InSelection(l, s), Compare::InSelection(left, select)) => l.is_copy_of(left)
            && select_is_copy(*s, *select),
        (Compare::NotInSelection(l, s), Compare::NotInSelection(left, select)) => l.is_copy_of(
            left,
        ) && select_is_copy(*s, *select),
        _ => false,
    }
}

/// True when `copy` is a tree of the same shape as `of`, with a copy of
/// each of its comparisons at the same place.
pub open spec fn condition_is_copy(copy: ConditionTree, of: ConditionTree) -> bool
    decreases of,
{
    match (copy, of) {
        (ConditionTree::And(l, r), ConditionTree::And(left, right)) => condition_is_copy(
            *l,
            *left,
        ) && condition_is_copy(*r, *right),
        (ConditionTree::Or(l, r), ConditionTree::Or(left, right)) => condition_is_copy(*l, *left)
            && condition_is_copy(*r, *right),
        (ConditionTree::Not(c), ConditionTree::Not(inner)) => condition_is_copy(*c, *inner),
        (ConditionTree::Single(c), ConditionTree::Single(compare)) => compare_is_copy(c, compare),
        (ConditionTree::NoCondition, ConditionTree::NoCondition) => true,
        (ConditionTree::NegativeCondition, ConditionTree::NegativeCondition) => true,
        _ => false,
    }
}

/// True when `copy` has conditions exactly when `of` has, and they are then
/// a copy of them.
pub open spec fn clause_is_copy(copy: Option<ConditionTree>, of: Option<ConditionTree>) -> bool
    decreases of,
{
    match (copy, of) {
        (Some(c), Some(tree)) => condition_is_copy(c, tree),
        (None, None) => true,
        _ => false,
    }
}

/// True when `copy` joins the same table in the same way as `of`, on a copy
/// of its condition.
pub open spec fn join_is_copy(copy: Join, of: Join) -> bool
    decreases of,
{
    &&& copy.kind == of.kind
    &&& copy.table == of.table
    &&& condition_is_copy(copy.on, of.on)
}

/// True when there are as many joins in `copy` as in `of`, each a copy of
/// the one at its place.
pub open spec fn joins_are_copies(copy: Seq<Join>, of: Seq<Join>) -> bool
    decreases of,
{
    &&& copy.len() == of.len()
    &&& forall|i: int| 0 <= i < of.len() ==> join_is_copy(#[trigger] copy[i], of[i])
}

/// True when `copy` is the same select as `of`: the same table, grouping,
/// ordering, limit and offset, and copies of its columns, joins and
/// conditions.
pub open spec fn select_is_copy(copy: Select, of: Select) -> bool
    decreases of,
{
    &&& copy.table == of.table
    &&& expressions_are_copies(copy.columns@, of.columns@)
    &&& joins_are_copies(copy.joins@, of.joins@)
    &&& clause_is_copy(copy.conditions, of.conditions)
    &&& copy.grouping@ == of.grouping@
    &&& clause_is_copy(copy.having, of.having)
    &&& copy.ordering@ == of.ordering@
    &&& copy.limit == of.limit
    &&& copy.offset == of.offset
}

} // verus!
