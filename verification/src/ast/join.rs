//! A joined table.

use vstd::prelude::*;
use crate::ast::conditions::ConditionTree;
use crate::ast::copy::join_is_copy;
use crate::ast::table::Table;

verus! {

#[derive(Debug, Clone, Copy, PartialEq, Eq)]
pub enum JoinKind {
    Inner,
    Left,
}

/// A table joined to the statement's own, and the condition that pairs rows.
#[derive(Debug, PartialEq)]
pub struct Join {
    pub kind: JoinKind,
    pub table: Table,
    pub on: ConditionTree,
}

impl Clone for Join {
    /// The same join on a copy of its condition.
    fn clone(&self) -> (j: Join)
        ensures
            join_is_copy(j, *self),
        decreases self,
    {
        Join { kind: self.kind, table: self.table.clone(), on: self.on.clone() }
    }
}

} // verus!
