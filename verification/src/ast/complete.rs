//! When a statement is complete enough to be written out.
//!
//! The builders accept anything; what they cannot rule out is a statement
//! that is not yet a statement: a table without a name, an `UPDATE` that
//! sets nothing, a union of nothing, raw text that is empty.

use vstd::prelude::*;
use crate::ast::compare::Compare;
use crate::ast::conditions::ConditionTree;
use crate::ast::delete::Delete;
use crate::ast::join::Join;
use crate::ast::query::Query;
use crate::ast::select::Select;
use crate::ast::table::Table;
use crate::ast::union::UnionAll;
use crate::ast::update::Update;

verus! {

impl Table {
    /// True when the table's name is not empty.
    pub open spec fn spec_has_name(self) -> bool {
        self.name@.len() > 0
    }

    pub fn has_name(&self) -> (b: bool)
        ensures
            b == self.spec_has_name(),
    {
        !self.name.as_str().is_empty()
    }
}

/// True when the select that the comparison is against, if it is against
/// one, is complete.
pub open spec fn compare_is_complete(compare: Compare) -> bool
    decreases compare,
{
    match compare {
        Compare::InSelection(_, select) => select_is_complete(*select),
        Compare::NotInSelection(_, select) => select_is_complete(*select),
        _ => true,
    }
}

/// True when every select in the tree is complete.
pub open spec fn condition_is_complete(tree: ConditionTree) -> bool
    decreases tree,
{
    match tree {
        ConditionTree::And(left, right) => condition_is_complete(*left) && condition_is_complete(
            *right,
        ),
        ConditionTree::Or(left, right) => condition_is_complete(*left) && condition_is_complete(
            *right,
        ),
        ConditionTree::Not(inner) => condition_is_complete(*inner),
        ConditionTree::Single(compare) => compare_is_complete(compare),
        ConditionTree::NoCondition => true,
        ConditionTree::NegativeCondition => true,
    }
}

/// True when every select in the conditions, if there are any, is complete.
pub open spec fn clause_is_complete(conditions: Option<ConditionTree>) -> bool
    decreases conditions,
{
    match conditions {
        Some(tree) => condition_is_complete(tree),
        None => true,
    }
}

/// True when the joined table has a name and every select in the join's
/// condition is complete.
pub open spec fn join_is_complete(join: Join) -> bool
    decreases join,
{
    join.table.spec_has_name() && condition_is_complete(join.on)
}

/// True when every join is complete.
pub open spec fn joins_are_complete(joins: Seq<Join>) -> bool
    decreases joins,
{
    if joins.len() == 0 {
        true
    } else {
        joins_are_complete(joins.drop_last()) && join_is_complete(joins.last())
    }
}

/// True when the select's table has a name, its joins are complete, and so
/// is every select nested in its conditions.
pub open spec fn select_is_complete(select: Select) -> bool
    decreases select,
{
    &&& select.table.spec_has_name()
    &&& joins_are_complete(select.joins@)
    &&& clause_is_complete(select.conditions)
    &&& clause_is_complete(select.having)
}

pub fn compare_complete(compare: &Compare) -> (b: bool)
    ensures
        b == compare_is_complete(*compare),
    decreases compare,
{
    match compare {
        Compare::InSelection(_, select) => select_complete(select),
        Compare::NotInSelection(_, select) => select_complete(select),
        _ => true,
    }
}

pub fn condition_complete(tree: &ConditionTree) -> (b: bool)
    ensures
        b == condition_is_complete(*tree),
    decreases tree,
{
    match tree {
        ConditionTree::And(left, right) => condition_complete(left) && condition_complete(right),
        ConditionTree::Or(left, right) => condition_complete(left) && condition_complete(right),
        ConditionTree::Not(inner) => condition_complete(inner),
        ConditionTree::Single(compare) => compare_complete(compare),
        ConditionTree::NoCondition => true,
        ConditionTree::NegativeCondition => true,
    }
}

pub fn clause_complete(conditions: &Option<ConditionTree>) -> (b: bool)
    ensures
        b == clause_is_complete(*conditions),
    decreases conditions,
{
    match conditions {
        Some(tree) => condition_complete(tree),
        None => true,
    }
}

pub fn joins_complete(joins: &Vec<Join>) -> (b: bool)
    ensures
        b == joins_are_complete(joins@),
    decreases joins,
{
    let mut i: usize = 0;
    while i < joins.len()
        invariant
            i <= joins@.len(),
            joins_are_complete(joins@.take(i as int)),
        decreases joins@.len() - i,
    {
        proof {
            assert(joins@.take(i + 1).drop_last() == joins@.take(i as int));
            assert(joins@.take(i + 1).last() == joins@[i as int]);
        }
        let join = &joins[i];
        assert(join_is_complete(*join) == (join.table.spec_has_name() && condition_is_complete(
            join.on,
        )));
        if !(join.table.has_name() && condition_complete(&join.on)) {
            proof {
                lemma_incomplete_prefix(joins@, i + 1);
            }
            return false;
        }
        i = i + 1;
    }
    proof {
        assert(joins@.take(joins@.len() as int) == joins@);
    }
    true
}

/// Joins of which the first few are not all complete are not all complete.
pub proof fn lemma_incomplete_prefix(joins: Seq<Join>, n: int)
    requires
        0 <= n <= joins.len(),
        !joins_are_complete(joins.take(n)),
    ensures
        !joins_are_complete(joins),
    decreases joins.len() - n,
{
    if n < joins.len() {
        assert(joins.take(n + 1).drop_last() == joins.take(n));
        lemma_incomplete_prefix(joins, n + 1);
    } else {
        assert(joins.take(n) == joins);
    }
}

pub fn select_complete(select: &Select) -> (b: bool)
    ensures
        b == select_is_complete(*select),
    decreases select,
{
    select.table.has_name() && joins_complete(&select.joins) && clause_complete(&select.conditions)
        && clause_complete(&select.having)
}

impl Select {
    /// True when the select can be written out.
    pub open spec fn spec_is_complete(self) -> bool {
        select_is_complete(self)
    }

    pub fn is_complete(&self) -> (b: bool)
        ensures
            b == self.spec_is_complete(),
    {
        select_complete(self)
    }
}

impl Update {
    /// True when the table has a name, at least one column is set, and
    /// every select in the conditions is complete.
    pub open spec fn spec_is_complete(self) -> bool {
        &&& self.table.spec_has_name()
        &&& self.assignments@.len() > 0
        &&& clause_is_complete(self.conditions)
    }

    pub fn is_complete(&self) -> (b: bool)
        ensures
            b == self.spec_is_complete(),
    {
        self.table.has_name() && self.assignments.len() > 0 && clause_complete(&self.conditions)
    }
}

impl Delete {
    /// True when the table has a name and every select in the conditions is
    /// complete.
    pub open spec fn spec_is_complete(self) -> bool {
        self.table.spec_has_name() && clause_is_complete(self.conditions)
    }

    pub fn is_complete(&self) -> (b: bool)
        ensures
            b == self.spec_is_complete(),
    {
        self.table.has_name() && clause_complete(&self.conditions)
    }
}

/// True when every select is complete.
pub open spec fn selects_are_complete(selects: Seq<Select>) -> bool {
    forall|i: int| 0 <= i < selects.len() ==> select_is_complete(#[trigger] selects[i])
}

impl UnionAll {
    /// True when there is at least one select and each is complete.
    pub open spec fn spec_is_complete(self) -> bool {
        self.selects@.len() > 0 && selects_are_complete(self.selects@)
    }

    pub fn is_complete(&self) -> (b: bool)
        ensures
            b == self.spec_is_complete(),
    {
        if self.selects.len() == 0 {
            return false;
        }
        let mut i: usize = 0;
        while i < self.selects.len()
            invariant
                i <= self.selects@.len(),
                selects_are_complete(self.selects@.take(i as int)),
            decreases self.selects@.len() - i,
        {
            if !select_complete(&self.selects[i]) {
                return false;
            }
            i = i + 1;
        }
        proof {
            assert(self.selects@.take(self.selects@.len() as int) == self.selects@);
        }
        true
    }
}

impl Query {
    /// True when the query can be written out: its tables have names, an
    /// `UPDATE` sets something, a union has a select, raw text is not
    /// empty, and the same holds of every select nested in it.
    pub open spec fn spec_is_complete(self) -> bool {
        match self {
            Query::Select(select) => select.spec_is_complete(),
            Query::Insert(insert) => insert.table.spec_has_name(),
            Query::Update(update) => update.spec_is_complete(),
            Query::Delete(delete) => delete.spec_is_complete(),
            Query::UnionAll(union) => union.spec_is_complete(),
            Query::Raw(sql) => sql@.len() > 0,
        }
    }

    pub fn is_complete(&self) -> (b: bool)
        ensures
            b == self.spec_is_complete(),
    {
        match self {
            Query::Select(select) => select.is_complete(),
            Query::Insert(insert) => insert.table.has_name(),
            Query::Update(update) => update.is_complete(),
            Query::Delete(delete) => delete.is_complete(),
            Query::UnionAll(union) => union.is_complete(),
            Query::Raw(sql) => !sql.as_str().is_empty(),
        }
    }
}

} // verus!
