//! The entry point of the generator.

use vstd::prelude::*;
use crate::ast::query::Query;
use crate::error::Error;
use crate::value::Value;
use crate::visitor::dialect::Dialect;
use crate::visitor::emit::emit_query;
use crate::visitor::alignment::{lemma_query, query_values};
use crate::visitor::grammar::query_tokens;
use crate::visitor::token::{binds, render};
use crate::visitor::writer::SqlWriter;

verus! {

/// The SQL text of a query in a dialect.
pub open spec fn sql_of(query: Query, dialect: Dialect) -> Seq<char> {
    render(query_tokens(query, dialect), dialect)
}

/// The values a query binds in a dialect, in the order of their placeholders.
pub open spec fn params_of(query: Query, dialect: Dialect) -> Seq<Value> {
    binds(query_tokens(query, dialect))
}

/// True when `out` is the text and the parameters of the query in the
/// dialect.
pub open spec fn is_output_of(out: (String, Vec<Value>), query: Query, dialect: Dialect) -> bool {
    out.0@ == sql_of(query, dialect) && out.1@ == params_of(query, dialect)
}

/// Lowers a query to SQL text and the values bound into it.
///
/// A complete query always yields both: the text is that of the query's
/// tokens, and the parameters are the values those tokens bind, one for
/// each placeholder and in the same order. A query that is not complete
/// yields no text at all.
pub fn build(query: Query, dialect: Dialect) -> (r: Result<(String, Vec<Value>), Error>)
    ensures
        query.spec_is_complete() ==> (r matches Ok(out) && is_output_of(out, query, dialect)
            && out.1@ == query_values(query, dialect)),
        !query.spec_is_complete() ==> r == Err::<(String, Vec<Value>), Error>(
            Error::IncompleteStatement,
        ),
{
    if !query.is_complete() {
        return Err(Error::IncompleteStatement);
    }
    let mut w = SqlWriter::new(dialect);
    emit_query(&mut w, query);
    proof {
        assert(w.tokens() == query_tokens(query, dialect));
        lemma_query(query, dialect);
    }
    Ok(w.finish())
}

} // verus!
