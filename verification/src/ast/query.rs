//! A statement of any kind.

use vstd::prelude::*;
use vstd::std_specs::convert::FromSpecImpl;
use crate::ast::delete::Delete;
use crate::ast::insert::Insert;
use crate::ast::select::Select;
use crate::ast::union::UnionAll;
use crate::ast::update::Update;

verus! {

/// A database query: one statement of one kind, or SQL text taken as it is.
#[derive(Debug, Clone, PartialEq)]
pub enum Query {
    Select(Select),
    Insert(Box<Insert>),
    Update(Box<Update>),
    Delete(Box<Delete>),
    UnionAll(UnionAll),
    Raw(String),
}

impl Query {
    pub fn is_select(&self) -> (b: bool)
        ensures
            b == (*self is Select),
    {
        if let Query::Select(_) = self {
            true
        } else {
            false
        }
    }

    pub fn is_insert(&self) -> (b: bool)
        ensures
            b == (*self is Insert),
    {
        if let Query::Insert(_) = self {
            true
        } else {
            false
        }
    }

    pub fn is_update(&self) -> (b: bool)
        ensures
            b == (*self is Update),
    {
        if let Query::Update(_) = self {
            true
        } else {
            false
        }
    }

    pub fn is_delete(&self) -> (b: bool)
        ensures
            b == (*self is Delete),
    {
        if let Query::Delete(_) = self {
            true
        } else {
            false
        }
    }

    pub fn is_union_all(&self) -> (b: bool)
        ensures
            b == (*self is UnionAll),
    {
        if let Query::UnionAll(_) = self {
            true
        } else {
            false
        }
    }
}

impl From<Select> for Query {
    fn from(select: Select) -> (q: Query) {
        Query::Select(select)
    }
}

impl FromSpecImpl<Select> for Query {
    open spec fn obeys_from_spec() -> bool {
        true
    }

    open spec fn from_spec(select: Select) -> Query {
        Query::Select(select)
    }
}

impl From<Insert> for Query {
    fn from(insert: Insert) -> (q: Query) {
        Query::Insert(Box::new(insert))
    }
}

impl FromSpecImpl<Insert> for Query {
    open spec fn obeys_from_spec() -> bool {
        true
    }

    open spec fn from_spec(insert: Insert) -> Query {
        Query::Insert(Box::new(insert))
    }
}

impl From<Update> for Query {
    fn from(update: Update) -> (q: Query) {
        Query::Update(Box::new(update))
    }
}

impl FromSpecImpl<Update> for Query {
    open spec fn obeys_from_spec() -> bool {
        true
    }

    open spec fn from_spec(update: Update) -> Query {
        Query::Update(Box::new(update))
    }
}

impl From<Delete> for Query {
    fn from(delete: Delete) -> (q: Query) {
        Query::Delete(Box::new(delete))
    }
}

impl FromSpecImpl<Delete> for Query {
    open spec fn obeys_from_spec() -> bool {
        true
    }

    open spec fn from_spec(delete: Delete) -> Query {
        Query::Delete(Box::new(delete))
    }
}

impl From<UnionAll> for Query {
    fn from(union: UnionAll) -> (q: Query) {
        Query::UnionAll(union)
    }
}

impl FromSpecImpl<UnionAll> for Query {
    open spec fn obeys_from_spec() -> bool {
        true
    }

    open spec fn from_spec(union: UnionAll) -> Query {
        Query::UnionAll(union)
    }
}

impl From<String> for Query {
    fn from(sql: String) -> (q: Query) {
        Query::Raw(sql)
    }
}

impl FromSpecImpl<String> for Query {
    open spec fn obeys_from_spec() -> bool {
        true
    }

    open spec fn from_spec(sql: String) -> Query {
        Query::Raw(sql)
    }
}

/// Text becomes a raw query of the same characters.
impl From<&str> for Query {
    fn from(sql: &str) -> (q: Query)
        ensures
            q matches Query::Raw(s) && s@ == sql@,
    {
        Query::Raw(sql.to_owned())
    }
}

impl FromSpecImpl<&str> for Query {
    open spec fn obeys_from_spec() -> bool {
        false
    }

    open spec fn from_spec(sql: &str) -> Query {
        arbitrary()
    }
}

} // verus!
