//! The `SELECT` statement.

use vstd::prelude::*;
use crate::ast::column::Column;
use crate::ast::conditions::ConditionTree;
use crate::ast::copy::{clause_is_copy, join_is_copy, joins_are_copies, select_is_copy};
use crate::ast::expression::Expression;
use crate::ast::join::{Join, JoinKind};
use crate::ast::order::Order;
use crate::ast::table::Table;

verus! {

/// A builder for a `SELECT` statement. An empty `columns` selects every
/// column; `conditions` and `having` are `None` exactly when their clause is
/// absent.
#[derive(Debug, PartialEq)]
pub struct Select {
    pub table: Table,
    pub columns: Vec<Expression>,
    pub joins: Vec<Join>,
    pub conditions: Option<ConditionTree>,
    pub grouping: Vec<Column>,
    pub having: Option<ConditionTree>,
    pub ordering: Vec<Order>,
    pub limit: Option<u32>,
    pub offset: Option<u32>,
}

/// Copies of the joins, in their order.
fn clone_joins(joins: &Vec<Join>) -> (copy: Vec<Join>)
    ensures
        joins_are_copies(copy@, joins@),
    decreases joins,
{
    let mut copy: Vec<Join> = Vec::new();
    let mut i: usize = 0;
    while i < joins.len()
        invariant
            i <= joins@.len(),
            copy@.len() == i,
            forall|k: int| 0 <= k < i ==> join_is_copy(#[trigger] copy@[k], joins@[k]),
        decreases joins@.len() - i,
    {
        copy.push(joins[i].clone());
        i = i + 1;
    }
    copy
}

/// A copy of the conditions, where there are any.
fn clone_conditions(conditions: &Option<ConditionTree>) -> (copy: Option<ConditionTree>)
    ensures
        clause_is_copy(copy, *conditions),
    decreases conditions,
{
    match conditions {
        Some(tree) => Some(tree.clone()),
        None => None,
    }
}

impl Clone for Select {
    /// The same select over copies of its columns, joins and conditions.
    fn clone(&self) -> (s: Select)
        ensures
            select_is_copy(s, *self),
        decreases self,
    {
        Select {
            table: self.table.clone(),
            columns: self.columns.clone(),
            joins: clone_joins(&self.joins),
            conditions: clone_conditions(&self.conditions),
            grouping: self.grouping.clone(),
            having: clone_conditions(&self.having),
            ordering: self.ordering.clone(),
            limit: self.limit,
            offset: self.offset,
        }
    }
}

impl Select {
    /// True when nothing but the table has been given.
    pub open spec fn is_bare(self) -> bool {
        &&& self.columns@.len() == 0
        &&& self.joins@.len() == 0
        &&& self.conditions is None
        &&& self.grouping@.len() == 0
        &&& self.having is None
        &&& self.ordering@.len() == 0
        &&& self.limit is None
        &&& self.offset is None
    }

    /// A `SELECT` of every column and row of the table.
    pub fn from_table<T: Into<Table>>(table: T) -> (s: Select)
        ensures
            call_ensures(T::into, (table,), s.table),
            s.is_bare(),
    {
        Select {
            table: table.into(),
            columns: Vec::new(),
            joins: Vec::new(),
            conditions: None,
            grouping: Vec::new(),
            having: None,
            ordering: Vec::new(),
            limit: None,
            offset: None,
        }
    }

    /// The same statement, selecting one more column.
    pub fn column<T: Into<Column>>(self, column: T) -> (s: Select)
        ensures
            s == (Select { columns: s.columns, ..self }),
            s.columns@.len() == self.columns@.len() + 1,
            s.columns@.drop_last() == self.columns@,
            s.columns@.last() matches Expression::Column(c) && call_ensures(
                T::into,
                (column,),
                c,
            ),
    {
        let mut s = self;
        s.columns.push(Expression::Column(column.into()));
        s
    }

    /// The same statement, selecting one more expression.
    pub fn value<T: Into<Expression>>(self, value: T) -> (s: Select)
        ensures
            s == (Select { columns: s.columns, ..self }),
            s.columns@.len() == self.columns@.len() + 1,
            s.columns@.drop_last() == self.columns@,
            call_ensures(T::into, (value,), s.columns@.last()),
    {
        let mut s = self;
        s.columns.push(value.into());
        s
    }

    /// The same statement, restricted to the rows that meet `conditions`.
    /// Conditions given earlier are replaced.
    pub fn so_that<T: Into<ConditionTree>>(self, conditions: T) -> (s: Select)
        ensures
            s == (Select { conditions: s.conditions, ..self }),
            s.conditions matches Some(c) && call_ensures(T::into, (conditions,), c),
    {
        let mut s = self;
        s.conditions = Some(conditions.into());
        s
    }

    /// The same statement, with one more table joined by `INNER JOIN`.
    pub fn inner_join<T: Into<Table>, C: Into<ConditionTree>>(self, table: T, on: C) -> (s: Select)
        ensures
            s == (Select { joins: s.joins, ..self }),
            s.joins@.len() == self.joins@.len() + 1,
            s.joins@.drop_last() == self.joins@,
            s.joins@.last().kind == JoinKind::Inner,
            call_ensures(T::into, (table,), s.joins@.last().table),
            call_ensures(C::into, (on,), s.joins@.last().on),
    {
        let mut s = self;
        s.joins.push(Join { kind: JoinKind::Inner, table: table.into(), on: on.into() });
        s
    }

    /// The same statement, with one more table joined by `LEFT JOIN`.
    pub fn left_join<T: Into<Table>, C: Into<ConditionTree>>(self, table: T, on: C) -> (s: Select)
        ensures
            s == (Select { joins: s.joins, ..self }),
            s.joins@.len() == self.joins@.len() + 1,
            s.joins@.drop_last() == self.joins@,
            s.joins@.last().kind == JoinKind::Left,
            call_ensures(T::into, (table,), s.joins@.last().table),
            call_ensures(C::into, (on,), s.joins@.last().on),
    {
        let mut s = self;
        s.joins.push(Join { kind: JoinKind::Left, table: table.into(), on: on.into() });
        s
    }

    /// The same statement, grouped by one more column.
    pub fn group_by<T: Into<Column>>(self, column: T) -> (s: Select)
        ensures
            s == (Select { grouping: s.grouping, ..self }),
            s.grouping@.len() == self.grouping@.len() + 1,
            s.grouping@.drop_last() == self.grouping@,
            call_ensures(T::into, (column,), s.grouping@.last()),
    {
        let mut s = self;
        s.grouping.push(column.into());
        s
    }

    /// The same statement, keeping the groups that meet `conditions`.
    /// Conditions given earlier are replaced.
    pub fn having<T: Into<ConditionTree>>(self, conditions: T) -> (s: Select)
        ensures
            s == (Select { having: s.having, ..self }),
            s.having matches Some(c) && call_ensures(T::into, (conditions,), c),
    {
        let mut s = self;
        s.having = Some(conditions.into());
        s
    }

    /// The same statement, sorted by one more term.
    pub fn order_by(self, order: Order) -> (s: Select)
        ensures
            s == (Select { ordering: s.ordering, ..self }),
            s.ordering@ == self.ordering@.push(order),
    {
        let mut s = self;
        s.ordering.push(order);
        s
    }

    /// The same statement, handing back at most `limit` rows.
    pub fn limit(self, limit: u32) -> (s: Select)
        ensures
            s == (Select { limit: Some(limit), ..self }),
    {
        let mut s = self;
        s.limit = Some(limit);
        s
    }

    /// The same statement, skipping the first `offset` rows.
    pub fn offset(self, offset: u32) -> (s: Select)
        ensures
            s == (Select { offset: Some(offset), ..self }),
    {
        let mut s = self;
        s.offset = Some(offset);
        s
    }
}

} // verus!
