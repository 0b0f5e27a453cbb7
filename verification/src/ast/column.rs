//! A reference to a column.

use vstd::prelude::*;
use vstd::std_specs::convert::FromSpecImpl;

verus! {

/// A column by name, optionally qualified by its table and under an alias.
#[derive(Debug, PartialEq)]
pub struct Column {
    pub name: String,
    pub table: Option<String>,
    pub alias: Option<String>,
}

impl Clone for Column {
    fn clone(&self) -> (c: Column)
        ensures
            c == *self,
    {
        Column { name: self.name.clone(), table: self.table.clone(), alias: self.alias.clone() }
    }
}

impl Column {
    /// True when this is the bare column of the given name.
    pub open spec fn is_named(self, name: Seq<char>) -> bool {
        &&& self.name@ == name
        &&& self.table is None
        &&& self.alias is None
    }

    pub fn new(name: &str) -> (c: Column)
        ensures
            c.is_named(name@),
    {
        Column { name: name.to_owned(), table: None, alias: None }
    }

    /// The same column, qualified by a table.
    pub fn table(self, table: &str) -> (c: Column)
        ensures
            c.name == self.name,
            c.alias == self.alias,
            c.table matches Some(t) && t@ == table@,
    {
        Column { name: self.name, table: Some(table.to_owned()), alias: self.alias }
    }

    /// The same column, under an alias.
    pub fn alias(self, alias: &str) -> (c: Column)
        ensures
            c.name == self.name,
            c.table == self.table,
            c.alias matches Some(a) && a@ == alias@,
    {
        Column { name: self.name, table: self.table, alias: Some(alias.to_owned()) }
    }
}

impl From<&str> for Column {
    fn from(name: &str) -> (c: Column)
        ensures
            c.is_named(name@),
    {
        Column::new(name)
    }
}

impl FromSpecImpl<&str> for Column {
    open spec fn obeys_from_spec() -> bool {
        false
    }

    open spec fn from_spec(name: &str) -> Column {
        arbitrary()
    }
}

impl From<String> for Column {
    fn from(name: String) -> (c: Column) {
        Column { name, table: None, alias: None }
    }
}

impl FromSpecImpl<String> for Column {
    open spec fn obeys_from_spec() -> bool {
        true
    }

    open spec fn from_spec(name: String) -> Column {
        Column { name, table: None, alias: None }
    }
}

} // verus!
