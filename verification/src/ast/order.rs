//! One term of an `ORDER BY` clause.

use vstd::prelude::*;
use crate::ast::column::Column;

verus! {

#[derive(Debug, Clone, Copy, PartialEq, Eq)]
pub enum Direction {
    Ascending,
    Descending,
}

/// A column to sort by, with the direction if one was asked for.
#[derive(Debug, PartialEq)]
pub struct Order {
    pub column: Column,
    pub direction: Option<Direction>,
}

impl Clone for Order {
    fn clone(&self) -> (o: Order)
        ensures
            o == *self,
    {
        Order { column: self.column.clone(), direction: self.direction }
    }
}

impl Order {
    /// Sort by the column, in the backend's default direction.
    pub fn by<T: Into<Column>>(column: T) -> (o: Order)
        ensures
            call_ensures(T::into, (column,), o.column),
            o.direction is None,
    {
        Order { column: column.into(), direction: None }
    }

    pub fn ascending<T: Into<Column>>(column: T) -> (o: Order)
        ensures
            call_ensures(T::into, (column,), o.column),
            o.direction == Some(Direction::Ascending),
    {
        Order { column: column.into(), direction: Some(Direction::Ascending) }
    }

    pub fn descending<T: Into<Column>>(column: T) -> (o: Order)
        ensures
            call_ensures(T::into, (column,), o.column),
            o.direction == Some(Direction::Descending),
    {
        Order { column: column.into(), direction: Some(Direction::Descending) }
    }
}

} // verus!
