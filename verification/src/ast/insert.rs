//! The `INSERT` statement.

use vstd::prelude::*;
use crate::ast::assignment::{assigns, Assignment};
use crate::ast::column::Column;
use crate::ast::expression::Expression;
use crate::ast::table::Table;

verus! {

/// A builder for an `INSERT` of one row.
#[derive(Debug, Clone, PartialEq)]
pub struct Insert {
    pub table: Table,
    pub values: Vec<Assignment>,
}

impl Insert {
    /// An `INSERT` of one row of defaults into the table.
    pub fn single_into<T: Into<Table>>(table: T) -> (i: Insert)
        ensures
            call_ensures(T::into, (table,), i.table),
            i.values@ == Seq::<Assignment>::empty(),
    {
        Insert { table: table.into(), values: Vec::new() }
    }

    /// The same statement, with one more column given a value.
    pub fn value<K: Into<Column>, V: Into<Expression>>(self, column: K, value: V) -> (i: Insert)
        ensures
            i.table == self.table,
            i.values@.len() == self.values@.len() + 1,
            i.values@.drop_last() == self.values@,
            assigns(i.values@.last(), column, value),
    {
        let mut values = self.values;
        values.push(Assignment { column: column.into(), value: value.into() });
        Insert { table: self.table, values }
    }
}

} // verus!
