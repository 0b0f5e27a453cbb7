//! What the generator's output is delivered to: a session with a backend.
//!
//! The library does not talk to a backend. It says what a session offers,
//! so that whatever implements a session can be handed any query, and it
//! holds the rules that every session follows.

use vstd::prelude::*;
use crate::ast::query::Query;
use crate::error::Error;
use crate::row::ResultSet;
use crate::value::Value;
use crate::visitor::dialect::Dialect;
use crate::visitor::alignment::query_values;
use crate::visitor::generate::{build, sql_of};

verus! {

/// An identifier that the backend generated for an inserted row.
#[derive(Debug, Clone, Copy, PartialEq, Eq)]
pub enum Id {
    Int(usize),
}

/// How a unit of work ends.
#[derive(Debug, Clone, Copy, PartialEq, Eq)]
pub enum TransactionEnd {
    Commit,
    Rollback,
}

/// How a unit of work with this result ends: it is committed if it
/// succeeded and rolled back if it failed.
pub fn conclude<T>(result: &Result<T, Error>) -> (end: TransactionEnd)
    ensures
        end == (if result is Ok {
            TransactionEnd::Commit
        } else {
            TransactionEnd::Rollback
        }),
{
    match result {
        Ok(_) => TransactionEnd::Commit,
        Err(_) => TransactionEnd::Rollback,
    }
}

/// The identifier to report for an insert, from the backend's counter.
/// Inside a transaction none is reported.
pub fn generated_id(last_insert_id: u64, in_transaction: bool) -> (id: Option<Id>)
    ensures
        id == (if in_transaction {
            None
        } else {
            Some(Id::Int(last_insert_id as usize))
        }),
{
    if in_transaction {
        None
    } else {
        Some(Id::Int(#[verifier::truncate] (last_insert_id as usize)))
    }
}

/// A session with a backend that speaks one dialect.
///
/// What a backend answers is its own affair. A session may say which
/// dialect is its backend's, by `speaks`, and which answers are its
/// backend's, by `answers`; one that says nothing claims nothing. The
/// library says what it hands over: the text and the parameters of the
/// query in that dialect, as they are.
pub trait Connection {
    /// True when `dialect` is the dialect of the backend.
    open spec fn speaks(&self, dialect: Dialect) -> bool {
        true
    }

    /// True when `r` is an answer of the backend, in the state the session
    /// is in, to this text with these values bound to its placeholders.
    open spec fn answers(
        &self,
        sql: Seq<char>,
        params: Seq<Value>,
        r: Result<ResultSet, Error>,
    ) -> bool {
        true
    }

    /// The dialect the backend speaks.
    fn dialect(&self) -> (d: Dialect)
        ensures
            self.speaks(d),
    ;

    /// Runs a statement; hands back the identifier of an inserted row if
    /// the backend generated one.
    fn execute(&mut self, query: Query) -> Result<Option<Id>, Error>;

    /// Runs SQL text with the values bound to its placeholders, in order.
    fn query_raw(&mut self, sql: &str, params: &[Value]) -> (r: Result<ResultSet, Error>)
        ensures
            old(self).answers(sql@, params@, r),
    ;

    /// Runs a query: lowers it in the session's dialect and hands text and
    /// parameters on as they are; the answer is the backend's answer to
    /// exactly those. A query that is not complete does not reach the
    /// backend.
    fn query(&mut self, query: Query) -> (r: Result<ResultSet, Error>)
        ensures
            query.spec_is_complete() ==> exists|d: Dialect|
                #![trigger old(self).speaks(d)]
                old(self).speaks(d) && old(self).answers(
                    sql_of(query, d),
                    query_values(query, d),
                    r,
                ),
            !query.spec_is_complete() ==> r == Err::<ResultSet, Error>(
                Error::IncompleteStatement,
            ),
    {
        let dialect = self.dialect();
        match build(query, dialect) {
            Ok((sql, params)) => self.query_raw(sql.as_str(), params.as_slice()),
            Err(e) => Err(e),
        }
    }
}

} // verus!
