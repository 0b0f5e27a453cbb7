//! Comparisons: the leaves of a condition tree.

use vstd::prelude::*;
use crate::ast::column::Column;
use crate::ast::copy::compare_is_copy;
use crate::ast::expression::Expression;
use crate::ast::select::Select;

verus! {

/// The operators that stand between two operands.
#[derive(Debug, Clone, Copy, PartialEq, Eq)]
pub enum Operator {
    Equals,
    NotEquals,
    LessThan,
    LessThanOrEquals,
    GreaterThan,
    GreaterThanOrEquals,
    Like,
    NotLike,
}

/// A predicate over one operand and what it is held against.
#[derive(Debug, PartialEq)]
pub enum Compare {
    /// `left op right`
    Binary(Expression, Operator, Expression),
    /// `left IN (..)`
    In(Expression, Vec<Expression>),
    /// `left NOT IN (..)`
    NotIn(Expression, Vec<Expression>),
    /// `left IS NULL`
    Null(Expression),
    /// `left IS NOT NULL`
    NotNull(Expression),
    /// `left BETWEEN low AND high`
    Between(Expression, Expression, Expression),
    /// `left NOT BETWEEN low AND high`
    NotBetween(Expression, Expression, Expression),
    /// `left IN (SELECT ..)`
    InSelection(Expression, Box<Select>),
    /// `left NOT IN (SELECT ..)`
    NotInSelection(Expression, Box<Select>),
}

impl Clone for Compare {
    /// The same comparison over copies of its operands.
    fn clone(&self) -> (c: Compare)
        ensures
            compare_is_copy(c, *self),
        decreases self,
    {
        match self {
            Compare::Binary(left, operator, right) => Compare::Binary(
                left.clone(),
                *operator,
                right.clone(),
            ),
            Compare::In(left, values) => Compare::In(left.clone(), values.clone()),
            Compare::NotIn(left, values) => Compare::NotIn(left.clone(), values.clone()),
            Compare::Null(left) => Compare::Null(left.clone()),
            Compare::NotNull(left) => Compare::NotNull(left.clone()),
            Compare::Between(left, low, high) => Compare::Between(
                left.clone(),
                low.clone(),
                high.clone(),
            ),
            Compare::NotBetween(left, low, high) => Compare::NotBetween(
                left.clone(),
                low.clone(),
                high.clone(),
            ),
            Compare::InSelection(left, select) => Compare::InSelection(
                left.clone(),
                Box::new((**select).clone()),
            ),
            Compare::NotInSelection(left, select) => Compare::NotInSelection(
                left.clone(),
                Box::new((**select).clone()),
            ),
        }
    }
}

/// Anything that can stand on the left of a comparison.
pub trait Comparable: Sized {
    /// True when `e` is the operand this value stands for.
    spec fn is_operand(self, e: Expression) -> bool;

    fn into_operand(self) -> (e: Expression)
        ensures
            self.is_operand(e),
    ;

    fn equals<T: Into<Expression>>(self, right: T) -> (c: Compare)
        ensures
            c matches Compare::Binary(l, o, r) && self.is_operand(l) && o == Operator::Equals
                && call_ensures(T::into, (right,), r),
    {
        Compare::Binary(self.into_operand(), Operator::Equals, right.into())
    }

    fn not_equals<T: Into<Expression>>(self, right: T) -> (c: Compare)
        ensures
            c matches Compare::Binary(l, o, r) && self.is_operand(l) && o == Operator::NotEquals
                && call_ensures(T::into, (right,), r),
    {
        Compare::Binary(self.into_operand(), Operator::NotEquals, right.into())
    }

    fn less_than<T: Into<Expression>>(self, right: T) -> (c: Compare)
        ensures
            c matches Compare::Binary(l, o, r) && self.is_operand(l) && o == Operator::LessThan
                && call_ensures(T::into, (right,), r),
    {
        Compare::Binary(self.into_operand(), Operator::LessThan, right.into())
    }

    fn less_than_or_equals<T: Into<Expression>>(self, right: T) -> (c: Compare)
        ensures
            c matches Compare::Binary(l, o, r) && self.is_operand(l) && o == Operator::LessThanOrEquals
                && call_ensures(T::into, (right,), r),
    {
        Compare::Binary(self.into_operand(), Operator::LessThanOrEquals, right.into())
    }

    fn greater_than<T: Into<Expression>>(self, right: T) -> (c: Compare)
        ensures
            c matches Compare::Binary(l, o, r) && self.is_operand(l) && o == Operator::GreaterThan
                && call_ensures(T::into, (right,), r),
    {
        Compare::Binary(self.into_operand(), Operator::GreaterThan, right.into())
    }

    fn greater_than_or_equals<T: Into<Expression>>(self, right: T) -> (c: Compare)
        ensures
            c matches Compare::Binary(l, o, r) && self.is_operand(l) && o == Operator::GreaterThanOrEquals
                && call_ensures(T::into, (right,), r),
    {
        Compare::Binary(self.into_operand(), Operator::GreaterThanOrEquals, right.into())
    }

    fn like<T: Into<Expression>>(self, pattern: T) -> (c: Compare)
        ensures
            c matches Compare::Binary(l, o, r) && self.is_operand(l) && o == Operator::Like
                && call_ensures(T::into, (pattern,), r),
    {
        Compare::Binary(self.into_operand(), Operator::Like, pattern.into())
    }

    fn not_like<T: Into<Expression>>(self, pattern: T) -> (c: Compare)
        ensures
            c matches Compare::Binary(l, o, r) && self.is_operand(l) && o == Operator::NotLike
                && call_ensures(T::into, (pattern,), r),
    {
        Compare::Binary(self.into_operand(), Operator::NotLike, pattern.into())
    }

    fn in_values(self, values: Vec<Expression>) -> (c: Compare)
        ensures
            c matches Compare::In(l, vs) && self.is_operand(l) && vs == values,
    {
        Compare::In(self.into_operand(), values)
    }

    fn not_in_values(self, values: Vec<Expression>) -> (c: Compare)
        ensures
            c matches Compare::NotIn(l, vs) && self.is_operand(l) && vs == values,
    {
        Compare::NotIn(self.into_operand(), values)
    }

    fn is_null(self) -> (c: Compare)
        ensures
            c matches Compare::Null(l) && self.is_operand(l),
    {
        Compare::Null(self.into_operand())
    }

    fn is_not_null(self) -> (c: Compare)
        ensures
            c matches Compare::NotNull(l) && self.is_operand(l),
    {
        Compare::NotNull(self.into_operand())
    }

    /// Among the rows of a select.
    fn in_selection(self, select: Select) -> (c: Compare)
        ensures
            c matches Compare::InSelection(l, s) && self.is_operand(l) && *s == select,
    {
        Compare::InSelection(self.into_operand(), Box::new(select))
    }

    /// Not among the rows of a select.
    fn not_in_selection(self, select: Select) -> (c: Compare)
        ensures
            c matches Compare::NotInSelection(l, s) && self.is_operand(l) && *s == select,
    {
        Compare::NotInSelection(self.into_operand(), Box::new(select))
    }

    fn between<T: Into<Expression>, U: Into<Expression>>(self, low: T, high: U) -> (c: Compare)
        ensures
            c matches Compare::Between(l, a, b) && self.is_operand(l) && call_ensures(
                T::into,
                (low,),
                a,
            ) && call_ensures(U::into, (high,), b),
    {
        Compare::Between(self.into_operand(), low.into(), high.into())
    }

    fn not_between<T: Into<Expression>, U: Into<Expression>>(self, low: T, high: U) -> (c: Compare)
        ensures
            c matches Compare::NotBetween(l, a, b) && self.is_operand(l) && call_ensures(
                T::into,
                (low,),
                a,
            ) && call_ensures(U::into, (high,), b),
    {
        Compare::NotBetween(self.into_operand(), low.into(), high.into())
    }
}

impl Comparable for Expression {
    open spec fn is_operand(self, e: Expression) -> bool {
        e == self
    }

    fn into_operand(self) -> (e: Expression) {
        self
    }
}

impl Comparable for Column {
    open spec fn is_operand(self, e: Expression) -> bool {
        e == Expression::Column(self)
    }

    fn into_operand(self) -> (e: Expression) {
        Expression::Column(self)
    }
}

/// On the left of a comparison a string names a column.
impl Comparable for &str {
    open spec fn is_operand(self, e: Expression) -> bool {
        e matches Expression::Column(c) && c.is_named(self@)
    }

    fn into_operand(self) -> (e: Expression) {
        Expression::Column(Column::new(self))
    }
}

} // verus!
