//! The `DELETE` statement.

use vstd::prelude::*;
use crate::ast::conditions::ConditionTree;
use crate::ast::table::Table;

verus! {

/// A builder for a `DELETE` statement. `conditions` is `None` exactly when
/// the statement has no `WHERE` clause.
#[derive(Debug, Clone, PartialEq)]
pub struct Delete {
    pub table: Table,
    pub conditions: Option<ConditionTree>,
}

impl Delete {
    /// A `DELETE` of every row of the table.
    pub fn from_table<T: Into<Table>>(table: T) -> (d: Delete)
        ensures
            call_ensures(T::into, (table,), d.table),
            d.conditions is None,
    {
        Delete { table: table.into(), conditions: None }
    }

    /// The same statement, restricted to the rows that meet `conditions`.
    /// Conditions given earlier are replaced.
    pub fn so_that<T: Into<ConditionTree>>(self, conditions: T) -> (d: Delete)
        ensures
            d.table == self.table,
            d.conditions matches Some(c) && call_ensures(T::into, (conditions,), c),
    {
        Delete { table: self.table, conditions: Some(conditions.into()) }
    }

    /// The names of the items the statement hands back. A `DELETE` hands
    /// back none.
    pub fn named_selection(&self) -> (names: Vec<String>)
        ensures
            names@ == Seq::<String>::empty(),
    {
        Vec::new()
    }
}

} // verus!
