//! A reference to a table.

use vstd::prelude::*;
use vstd::std_specs::convert::FromSpecImpl;

verus! {

/// A table by name, optionally within a database and under an alias.
#[derive(Debug, PartialEq)]
pub struct Table {
    pub name: String,
    pub database: Option<String>,
    pub alias: Option<String>,
}

impl Clone for Table {
    fn clone(&self) -> (t: Table)
        ensures
            t == *self,
    {
        Table {
            name: self.name.clone(),
            database: self.database.clone(),
            alias: self.alias.clone(),
        }
    }
}

/// The characters of a name that may be absent.
pub open spec fn name_of(name: Option<String>) -> Option<Seq<char>> {
    match name {
        Some(n) => Some(n@),
        None => None,
    }
}

impl Table {
    /// True when the two tables are named alike: the same characters for
    /// name, database and alias.
    pub open spec fn is_named_like(self, other: Table) -> bool {
        &&& self.name@ == other.name@
        &&& name_of(self.database) == name_of(other.database)
        &&& name_of(self.alias) == name_of(other.alias)
    }

    /// True when this is the bare table of the given name.
    pub open spec fn is_named(self, name: Seq<char>) -> bool {
        &&& self.name@ == name
        &&& self.database is None
        &&& self.alias is None
    }

    pub fn new(name: &str) -> (t: Table)
        ensures
            t.is_named(name@),
    {
        Table { name: name.to_owned(), database: None, alias: None }
    }

    /// The same table, placed in a database.
    pub fn database(self, database: &str) -> (t: Table)
        ensures
            t.name == self.name,
            t.alias == self.alias,
            t.database matches Some(d) && d@ == database@,
    {
        Table { name: self.name, database: Some(database.to_owned()), alias: self.alias }
    }

    /// The same table, under an alias.
    pub fn alias(self, alias: &str) -> (t: Table)
        ensures
            t.name == self.name,
            t.database == self.database,
            t.alias matches Some(a) && a@ == alias@,
    {
        Table { name: self.name, database: self.database, alias: Some(alias.to_owned()) }
    }
}

impl From<&str> for Table {
    fn from(name: &str) -> (t: Table)
        ensures
            t.is_named(name@),
    {
        Table::new(name)
    }
}

impl FromSpecImpl<&str> for Table {
    open spec fn obeys_from_spec() -> bool {
        false
    }

    open spec fn from_spec(name: &str) -> Table {
        arbitrary()
    }
}

impl From<String> for Table {
    fn from(name: String) -> (t: Table) {
        Table { name, database: None, alias: None }
    }
}

impl FromSpecImpl<String> for Table {
    open spec fn obeys_from_spec() -> bool {
        true
    }

    open spec fn from_spec(name: String) -> Table {
        Table { name, database: None, alias: None }
    }
}

} // verus!
