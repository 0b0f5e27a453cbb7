//! The `UPDATE` statement.

use vstd::prelude::*;
use crate::ast::assignment::{assigns, Assignment};
use crate::ast::column::Column;
use crate::ast::conditions::ConditionTree;
use crate::ast::expression::Expression;
use crate::ast::table::Table;

verus! {

/// A builder for an `UPDATE` statement. It is complete once it sets at least
/// one column.
#[derive(Debug, Clone, PartialEq)]
pub struct Update {
    pub table: Table,
    pub assignments: Vec<Assignment>,
    pub conditions: Option<ConditionTree>,
}

impl Update {
    /// An `UPDATE` of the table that sets nothing yet.
    pub fn table<T: Into<Table>>(table: T) -> (u: Update)
        ensures
            call_ensures(T::into, (table,), u.table),
            u.assignments@ == Seq::<Assignment>::empty(),
            u.conditions is None,
    {
        Update { table: table.into(), assignments: Vec::new(), conditions: None }
    }

    /// The same statement, setting one more column.
    pub fn set<K: Into<Column>, V: Into<Expression>>(self, column: K, value: V) -> (u: Update)
        ensures
            u.table == self.table,
            u.conditions == self.conditions,
            u.assignments@.len() == self.assignments@.len() + 1,
            u.assignments@.drop_last() == self.assignments@,
            assigns(u.assignments@.last(), column, value),
    {
        let mut assignments = self.assignments;
        assignments.push(Assignment { column: column.into(), value: value.into() });
        Update { table: self.table, assignments, conditions: self.conditions }
    }

    /// The same statement, restricted to the rows that meet `conditions`.
    /// Conditions given earlier are replaced.
    pub fn so_that<T: Into<ConditionTree>>(self, conditions: T) -> (u: Update)
        ensures
            u.table == self.table,
            u.assignments == self.assignments,
            u.conditions matches Some(c) && call_ensures(T::into, (conditions,), c),
    {
        Update {
            table: self.table,
            assignments: self.assignments,
            conditions: Some(conditions.into()),
        }
    }
}

} // verus!
