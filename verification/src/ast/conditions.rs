//! Boolean trees over comparisons.

use vstd::prelude::*;
use vstd::std_specs::convert::FromSpecImpl;
use crate::ast::compare::Compare;
use crate::ast::copy::condition_is_copy;

verus! {

/// A boolean expression: comparisons at the leaves, joined by `AND`, `OR`
/// and `NOT`. Every node owns its operands, so a tree has no cycles.
#[derive(Debug, PartialEq)]
pub enum ConditionTree {
    And(Box<ConditionTree>, Box<ConditionTree>),
    Or(Box<ConditionTree>, Box<ConditionTree>),
    Not(Box<ConditionTree>),
    Single(Compare),
    /// Always true.
    NoCondition,
    /// Always false.
    NegativeCondition,
}

impl Clone for ConditionTree {
    /// A tree of the same shape over copies of its comparisons.
    fn clone(&self) -> (t: ConditionTree)
        ensures
            condition_is_copy(t, *self),
        decreases self,
    {
        match self {
            ConditionTree::And(l, r) => ConditionTree::And(
                Box::new((**l).clone()),
                Box::new((**r).clone()),
            ),
            ConditionTree::Or(l, r) => ConditionTree::Or(
                Box::new((**l).clone()),
                Box::new((**r).clone()),
            ),
            ConditionTree::Not(c) => ConditionTree::Not(Box::new((**c).clone())),
            ConditionTree::Single(c) => ConditionTree::Single(c.clone()),
            ConditionTree::NoCondition => ConditionTree::NoCondition,
            ConditionTree::NegativeCondition => ConditionTree::NegativeCondition,
        }
    }
}

impl From<Compare> for ConditionTree {
    fn from(c: Compare) -> (t: ConditionTree) {
        ConditionTree::Single(c)
    }
}

impl FromSpecImpl<Compare> for ConditionTree {
    open spec fn obeys_from_spec() -> bool {
        true
    }

    open spec fn from_spec(c: Compare) -> ConditionTree {
        ConditionTree::Single(c)
    }
}

/// Anything that can be joined into a condition tree.
pub trait Conjunctive: Sized {
    /// The tree this value stands for.
    spec fn tree(self) -> ConditionTree;

    fn into_tree(self) -> (t: ConditionTree)
        ensures
            t == self.tree(),
    ;

    /// Both must hold.
    fn and<E: Into<ConditionTree>>(self, other: E) -> (t: ConditionTree)
        ensures
            t matches ConditionTree::And(l, r) && *l == self.tree() && call_ensures(
                E::into,
                (other,),
                *r,
            ),
    {
        ConditionTree::And(Box::new(self.into_tree()), Box::new(other.into()))
    }

    /// At least one must hold.
    fn or<E: Into<ConditionTree>>(self, other: E) -> (t: ConditionTree)
        ensures
            t matches ConditionTree::Or(l, r) && *l == self.tree() && call_ensures(
                E::into,
                (other,),
                *r,
            ),
    {
        ConditionTree::Or(Box::new(self.into_tree()), Box::new(other.into()))
    }

    /// Must not hold.
    fn not(self) -> (t: ConditionTree)
        ensures
            t == ConditionTree::Not(Box::new(self.tree())),
    {
        ConditionTree::Not(Box::new(self.into_tree()))
    }
}

impl Conjunctive for ConditionTree {
    open spec fn tree(self) -> ConditionTree {
        self
    }

    fn into_tree(self) -> (t: ConditionTree) {
        self
    }
}

impl Conjunctive for Compare {
    open spec fn tree(self) -> ConditionTree {
        ConditionTree::Single(self)
    }

    fn into_tree(self) -> (t: ConditionTree) {
        ConditionTree::Single(self)
    }
}

} // verus!
