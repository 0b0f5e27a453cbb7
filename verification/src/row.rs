//! The shape of a result: rows of values under a sequence of column names.

use vstd::prelude::*;
use crate::error::{Error, Expected};
use crate::value::{Real, Timestamp, Value};

verus! {

/// The names of a result's columns, in the order of the columns.
#[derive(Debug, Clone, PartialEq, Default)]
pub struct ColumnNames {
    pub names: Vec<String>,
}

/// The values of one row, in the order of the columns.
#[derive(Debug, Clone, PartialEq, Default)]
pub struct ResultRow {
    pub values: Vec<Value>,
}

/// The rows a query handed back, and the names of their columns.
#[derive(Debug, Clone, PartialEq, Default)]
pub struct ResultSet {
    pub columns: ColumnNames,
    pub rows: Vec<ResultRow>,
}

/// One row of a result together with the names of its columns.
#[derive(Debug, Clone, Copy)]
pub struct NamedRow<'a> {
    pub columns: &'a ColumnNames,
    pub row: &'a ResultRow,
}

/// True when `i` is the first column of exactly this name. Names are
/// compared character by character, so case matters.
pub open spec fn is_first_named(names: Seq<String>, name: Seq<char>, i: int) -> bool {
    &&& 0 <= i < names.len()
    &&& names[i]@ == name
    &&& forall|j: int| 0 <= j < i ==> (#[trigger] names[j])@ != name
}

/// True when no column has exactly this name.
pub open spec fn is_absent(names: Seq<String>, name: Seq<char>) -> bool {
    forall|j: int| 0 <= j < names.len() ==> (#[trigger] names[j])@ != name
}

/// True when `r` is what looking `name` up gives: the value under the
/// first column of that name; or that there is no such column; or that the
/// row is too short to have a cell there.
pub open spec fn is_lookup(
    names: Seq<String>,
    values: Seq<Value>,
    name: Seq<char>,
    r: Result<Value, Error>,
) -> bool {
    match r {
        Ok(v) => exists|i: int|
            #![trigger names[i]]
            is_first_named(names, name, i) && i < values.len() && values[i] == v,
        Err(Error::ColumnNotFound(n)) => n@ == name && is_absent(names, name),
        Err(Error::ResultIndexOutOfBounds(i)) => is_first_named(names, name, i as int) && i
            >= values.len(),
        Err(_) => false,
    }
}

/// True when `r` is what reading `name` as one kind of value gives: the
/// failure of the lookup, or that the cell holds another kind, or the
/// cell's value.
pub open spec fn is_typed_lookup(
    names: Seq<String>,
    values: Seq<Value>,
    name: Seq<char>,
    expected: Expected,
    r: Result<Value, Error>,
) -> bool {
    match r {
        Ok(v) => is_lookup(names, values, name, Ok(v)) && is_of_kind(v, expected),
        Err(Error::ResultTypeMismatch(k)) => k == expected && exists|v: Value|
            #![trigger is_of_kind(v, expected)]
            is_lookup(names, values, name, Ok(v)) && !is_of_kind(v, expected),
        Err(e) => is_lookup(names, values, name, Err(e)),
    }
}

/// True when the cell under `name` holds text of the given characters.
pub open spec fn is_text_lookup(
    names: Seq<String>,
    values: Seq<Value>,
    name: Seq<char>,
    text: Seq<char>,
) -> bool {
    exists|i: int|
        #![trigger names[i]]
        is_first_named(names, name, i) && i < values.len() && (values[i] matches Value::Text(t)
            && t@ == text)
}

/// True when the value is of the kind.
pub open spec fn is_of_kind(v: Value, kind: Expected) -> bool {
    match kind {
        Expected::Integer => v is Integer,
        Expected::Real => v is Real,
        Expected::Text => v is Text,
        Expected::Boolean => v is Boolean,
        Expected::DateTime => v is DateTime,
        Expected::Bytes => v is Bytes,
    }
}

impl ColumnNames {
    pub fn new(names: Vec<String>) -> (c: ColumnNames)
        ensures
            c.names == names,
    {
        ColumnNames { names }
    }

    /// The position of the first column of exactly this name.
    pub fn position(&self, name: &str) -> (r: Option<usize>)
        ensures
            match r {
                Some(i) => is_first_named(self.names@, name@, i as int),
                None => is_absent(self.names@, name@),
            },
    {
        let wanted = name.to_owned();
        let mut i: usize = 0;
        while i < self.names.len()
            invariant
                i <= self.names@.len(),
                wanted@ == name@,
                forall|j: int| 0 <= j < i ==> (#[trigger] self.names@[j])@ != name@,
            decreases self.names@.len() - i,
        {
            if self.names[i] == wanted {
                return Some(i);
            }
            i = i + 1;
        }
        None
    }
}

impl ResultRow {
    pub fn new(values: Vec<Value>) -> (r: ResultRow)
        ensures
            r.values == values,
    {
        ResultRow { values }
    }
}

impl<'a> NamedRow<'a> {
    /// The value under the first column of exactly this name.
    pub fn get(&self, name: &str) -> (r: Result<&'a Value, Error>)
        ensures
            match r {
                Ok(v) => is_lookup(self.columns.names@, self.row.values@, name@, Ok(*v)),
                Err(e) => is_lookup(self.columns.names@, self.row.values@, name@, Err(e)),
            },
    {
        match self.columns.position(name) {
            None => Err(Error::ColumnNotFound(name.to_owned())),
            Some(i) => {
                if i < self.row.values.len() {
                    Ok(&self.row.values[i])
                } else {
                    Err(Error::ResultIndexOutOfBounds(i))
                }
            },
        }
    }

    /// The integer under the column.
    pub fn get_as_integer(&self, name: &str) -> (r: Result<i64, Error>)
        ensures
            match r {
                Ok(i) => is_typed_lookup(
                    self.columns.names@,
                    self.row.values@,
                    name@,
                    Expected::Integer,
                    Ok(Value::Integer(i)),
                ),
                Err(e) => is_typed_lookup(
                    self.columns.names@,
                    self.row.values@,
                    name@,
                    Expected::Integer,
                    Err(e),
                ),
            },
    {
        match self.get(name) {
            Ok(v) => match v {
                Value::Integer(i) => Ok(*i),
                _ => {
                    assert(!is_of_kind(*v, Expected::Integer));
                    Err(Error::ResultTypeMismatch(Expected::Integer))
                },
            },
            Err(e) => Err(e),
        }
    }

    /// The real number under the column.
    pub fn get_as_real(&self, name: &str) -> (r: Result<Real, Error>)
        ensures
            match r {
                Ok(x) => is_typed_lookup(
                    self.columns.names@,
                    self.row.values@,
                    name@,
                    Expected::Real,
                    Ok(Value::Real(x)),
                ),
                Err(e) => is_typed_lookup(
                    self.columns.names@,
                    self.row.values@,
                    name@,
                    Expected::Real,
                    Err(e),
                ),
            },
    {
        match self.get(name) {
            Ok(v) => match v {
                Value::Real(x) => Ok(*x),
                _ => {
                    assert(!is_of_kind(*v, Expected::Real));
                    Err(Error::ResultTypeMismatch(Expected::Real))
                },
            },
            Err(e) => Err(e),
        }
    }

    /// The text under the column.
    pub fn get_as_string(&self, name: &str) -> (r: Result<&'a str, Error>)
        ensures
            match r {
                Ok(s) => is_text_lookup(self.columns.names@, self.row.values@, name@, s@),
                Err(e) => is_typed_lookup(
                    self.columns.names@,
                    self.row.values@,
                    name@,
                    Expected::Text,
                    Err(e),
                ),
            },
    {
        match self.get(name) {
            Ok(v) => match v {
                Value::Text(t) => Ok(t.as_str()),
                _ => {
                    assert(!is_of_kind(*v, Expected::Text));
                    Err(Error::ResultTypeMismatch(Expected::Text))
                },
            },
            Err(e) => Err(e),
        }
    }

    /// The truth value under the column.
    pub fn get_as_bool(&self, name: &str) -> (r: Result<bool, Error>)
        ensures
            match r {
                Ok(b) => is_typed_lookup(
                    self.columns.names@,
                    self.row.values@,
                    name@,
                    Expected::Boolean,
                    Ok(Value::Boolean(b)),
                ),
                Err(e) => is_typed_lookup(
                    self.columns.names@,
                    self.row.values@,
                    name@,
                    Expected::Boolean,
                    Err(e),
                ),
            },
    {
        match self.get(name) {
            Ok(v) => match v {
                Value::Boolean(b) => Ok(*b),
                _ => {
                    assert(!is_of_kind(*v, Expected::Boolean));
                    Err(Error::ResultTypeMismatch(Expected::Boolean))
                },
            },
            Err(e) => Err(e),
        }
    }

    /// The bytes under the column.
    pub fn get_as_bytes(&self, name: &str) -> (r: Result<&'a Vec<u8>, Error>)
        ensures
            match r {
                Ok(b) => is_typed_lookup(
                    self.columns.names@,
                    self.row.values@,
                    name@,
                    Expected::Bytes,
                    Ok(Value::Bytes(*b)),
                ),
                Err(e) => is_typed_lookup(
                    self.columns.names@,
                    self.row.values@,
                    name@,
                    Expected::Bytes,
                    Err(e),
                ),
            },
    {
        match self.get(name) {
            Ok(v) => match v {
                Value::Bytes(b) => Ok(b),
                _ => {
                    assert(!is_of_kind(*v, Expected::Bytes));
                    Err(Error::ResultTypeMismatch(Expected::Bytes))
                },
            },
            Err(e) => Err(e),
        }
    }

    /// The instant under the column.
    pub fn get_as_datetime(&self, name: &str) -> (r: Result<Timestamp, Error>)
        ensures
            match r {
                Ok(t) => is_typed_lookup(
                    self.columns.names@,
                    self.row.values@,
                    name@,
                    Expected::DateTime,
                    Ok(Value::DateTime(t)),
                ),
                Err(e) => is_typed_lookup(
                    self.columns.names@,
                    self.row.values@,
                    name@,
                    Expected::DateTime,
                    Err(e),
                ),
            },
    {
        match self.get(name) {
            Ok(v) => match v {
                Value::DateTime(t) => Ok(*t),
                _ => {
                    assert(!is_of_kind(*v, Expected::DateTime));
                    Err(Error::ResultTypeMismatch(Expected::DateTime))
                },
            },
            Err(e) => Err(e),
        }
    }
}

impl ResultSet {
    /// A result of the given rows under the given column names.
    pub fn new(columns: ColumnNames, rows: Vec<ResultRow>) -> (s: ResultSet)
        ensures
            s.columns == columns,
            s.rows == rows,
    {
        ResultSet { columns, rows }
    }

    /// The number of rows.
    pub fn len(&self) -> (n: usize)
        ensures
            n == self.rows@.len(),
    {
        self.rows.len()
    }

    pub fn is_empty(&self) -> (b: bool)
        ensures
            b == (self.rows@.len() == 0),
    {
        self.rows.len() == 0
    }

    /// One more row at the end.
    pub fn push(&mut self, row: ResultRow)
        ensures
            final(self).columns == old(self).columns,
            final(self).rows@ == old(self).rows@.push(row),
    {
        self.rows.push(row);
    }

    /// The row at a position, with the column names to read it by.
    pub fn row(&self, index: usize) -> (r: Option<NamedRow<'_>>)
        ensures
            match r {
                Some(named) => index < self.rows@.len() && *named.columns == self.columns
                    && *named.row == self.rows@[index as int],
                None => index >= self.rows@.len(),
            },
    {
        if index < self.rows.len() {
            Some(NamedRow { columns: &self.columns, row: &self.rows[index] })
        } else {
            None
        }
    }
}

} // verus!
