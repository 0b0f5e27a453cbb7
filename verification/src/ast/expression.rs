//! What can stand as an operand: a column, a bound value, a raw fragment.

use vstd::prelude::*;
use vstd::std_specs::convert::FromSpecImpl;
use crate::ast::column::Column;
use crate::value::Value;

verus! {

#[derive(Debug, PartialEq)]
pub enum Expression {
    /// A column reference.
    Column(Column),
    /// A value bound as a parameter.
    Parameter(Value),
    /// SQL text taken as it is.
    Raw(String),
    /// Every column.
    Asterisk,
}

impl Clone for Expression {
    /// An expression of the same kind that holds the same.
    fn clone(&self) -> (e: Expression)
        ensures
            e.is_copy_of(*self),
    {
        match self {
            Expression::Column(c) => Expression::Column(c.clone()),
            Expression::Parameter(v) => Expression::Parameter(v.clone()),
            Expression::Raw(sql) => Expression::Raw(sql.clone()),
            Expression::Asterisk => Expression::Asterisk,
        }
    }
}

impl Expression {
    /// True when this is a bound text value of the given characters.
    pub open spec fn is_text(self, s: Seq<char>) -> bool {
        self matches Expression::Parameter(Value::Text(t)) && t@ == s
    }

    pub fn raw(sql: &str) -> (e: Expression)
        ensures
            e matches Expression::Raw(s) && s@ == sql@,
    {
        Expression::Raw(sql.to_owned())
    }

    pub fn asterisk() -> (e: Expression)
        ensures
            e == Expression::Asterisk,
    {
        Expression::Asterisk
    }
}

impl From<Column> for Expression {
    fn from(c: Column) -> (e: Expression) {
        Expression::Column(c)
    }
}

impl FromSpecImpl<Column> for Expression {
    open spec fn obeys_from_spec() -> bool {
        true
    }

    open spec fn from_spec(c: Column) -> Expression {
        Expression::Column(c)
    }
}

impl From<Value> for Expression {
    fn from(v: Value) -> (e: Expression) {
        Expression::Parameter(v)
    }
}

impl FromSpecImpl<Value> for Expression {
    open spec fn obeys_from_spec() -> bool {
        true
    }

    open spec fn from_spec(v: Value) -> Expression {
        Expression::Parameter(v)
    }
}

impl From<i64> for Expression {
    fn from(i: i64) -> (e: Expression) {
        Expression::Parameter(Value::Integer(i))
    }
}

impl FromSpecImpl<i64> for Expression {
    open spec fn obeys_from_spec() -> bool {
        true
    }

    open spec fn from_spec(i: i64) -> Expression {
        Expression::Parameter(Value::Integer(i))
    }
}

impl From<bool> for Expression {
    fn from(b: bool) -> (e: Expression) {
        Expression::Parameter(Value::Boolean(b))
    }
}

impl FromSpecImpl<bool> for Expression {
    open spec fn obeys_from_spec() -> bool {
        true
    }

    open spec fn from_spec(b: bool) -> Expression {
        Expression::Parameter(Value::Boolean(b))
    }
}

/// A borrowed string on the value side of a comparison is a bound text value.
impl From<&str> for Expression {
    fn from(s: &str) -> (e: Expression)
        ensures
            e.is_text(s@),
    {
        Expression::Parameter(Value::text(s))
    }
}

impl FromSpecImpl<&str> for Expression {
    open spec fn obeys_from_spec() -> bool {
        false
    }

    open spec fn from_spec(s: &str) -> Expression {
        arbitrary()
    }
}

} // verus!
