//! A column paired with the value it is given.

use vstd::prelude::*;
use crate::ast::column::Column;
use crate::ast::expression::Expression;

verus! {

/// One `column = value` of an `UPDATE`, or one column and its value of an
/// `INSERT`.
#[derive(Debug, Clone, PartialEq)]
pub struct Assignment {
    pub column: Column,
    pub value: Expression,
}

/// True when `a` pairs what `column` and `value` convert to.
pub open spec fn assigns<K: Into<Column>, V: Into<Expression>>(
    a: Assignment,
    column: K,
    value: V,
) -> bool {
    call_ensures(K::into, (column,), a.column) && call_ensures(V::into, (value,), a.value)
}

} // verus!
