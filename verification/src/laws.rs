//! What holds of the generator for every query and every dialect.

use vstd::prelude::*;
use crate::ast::delete::Delete;
use crate::ast::query::Query;
use crate::ast::select::Select;
use crate::value::Value;
use crate::visitor::agreement::{
    clause_holds_no_select, is_flat, is_windowed, lemma_alike_branch_list, lemma_alike_clause,
    lemma_alike_select, lemma_count_branch_list, lemma_count_clause, lemma_count_select,
    lemma_flat_clause, lemma_flat_select, window_alike,
};
use crate::visitor::alignment::{
    lemma_assignment_list, lemma_insert, lemma_qualified, lemma_query, query_values,
};
use crate::visitor::dialect::Dialect;
use crate::visitor::generate::{is_output_of, params_of, sql_of};
use crate::visitor::grammar::{branch_list_tokens, query_tokens};
use crate::visitor::marks::{lemma_marks_are_placeholders, names_are_free_of, occurrences};
use crate::visitor::token::{
    binds, free_of, lemma_binds_concat, lemma_placeholders_are_binds, lemma_render_concat,
    placeholders, render, render_after, Keyword, Token,
};

verus! {

/// Placeholders and parameters align: the text of a query holds as many
/// placeholders as the query binds values, and the parameters are those
/// values in the order of their placeholders.
pub proof fn law_placeholders_match_parameters(query: Query, dialect: Dialect)
    ensures
        placeholders(query_tokens(query, dialect)) == query_values(query, dialect).len(),
        params_of(query, dialect) == query_values(query, dialect),
{
    lemma_placeholders_are_binds(query_tokens(query, dialect));
    lemma_query(query, dialect);
}

/// In the text itself, the mark of the dialect's placeholders (`?`, `$` or
/// `@`) stands once for each parameter. This holds wherever no name and no
/// raw fragment of the query holds the mark: inside such a name the mark is
/// a character of the name, not a placeholder.
pub proof fn law_the_text_holds_one_mark_for_each_parameter(query: Query, dialect: Dialect)
    requires
        names_are_free_of(query_tokens(query, dialect), dialect.spec_mark()),
    ensures
        occurrences(sql_of(query, dialect), dialect.spec_mark()) == params_of(
            query,
            dialect,
        ).len(),
{
    lemma_marks_are_placeholders(query_tokens(query, dialect), dialect);
    lemma_placeholders_are_binds(query_tokens(query, dialect));
}

/// How many values a query binds does not depend on the dialect, however
/// deep selects are nested in it.
pub proof fn law_parameter_count_is_the_same_in_every_dialect(
    query: Query,
    one: Dialect,
    other: Dialect,
)
    ensures
        params_of(query, one).len() == params_of(query, other).len(),
{
    lemma_query(query, one);
    lemma_query(query, other);
    match query {
        Query::Select(select) => {
            lemma_count_select(select, one, other);
        },
        Query::Update(update) => {
            lemma_count_clause(update.conditions, one, other);
        },
        Query::Delete(delete) => {
            lemma_count_clause(delete.conditions, one, other);
        },
        Query::UnionAll(union) => {
            lemma_count_branch_list(union.selects@, one, other);
        },
        _ => {},
    }
}

/// The n-th placeholder stands for the n-th parameter: wherever a value is
/// bound, the text holds at that place the placeholder whose ordinal is the
/// value's position among the parameters, and what follows is numbered on
/// from there. Nothing is merged: a value bound twice is there twice.
pub proof fn law_placeholder_carries_its_position(
    before: Seq<Token>,
    value: Value,
    after: Seq<Token>,
    dialect: Dialect,
)
    ensures
        binds(before.push(Token::Bind(value)) + after) == binds(before).push(value) + binds(
            after,
        ),
        render(before.push(Token::Bind(value)) + after, dialect) == render(before, dialect)
            + dialect.spec_placeholder(binds(before).len() + 1) + render_after(
            after,
            dialect,
            binds(before).len() + 1,
        ),
{
    let upto = before.push(Token::Bind(value));
    assert(upto.drop_last() == before);
    lemma_binds_concat(upto, after);
    lemma_render_concat(upto, after, dialect);
}

/// Building is a function of the query and the dialect: two outputs for the
/// same query in the same dialect are the same text and the same parameters.
pub proof fn law_build_is_deterministic(
    query: Query,
    dialect: Dialect,
    first: (String, Vec<Value>),
    second: (String, Vec<Value>),
)
    requires
        is_output_of(first, query, dialect),
        is_output_of(second, query, dialect),
    ensures
        first.0@ == second.0@,
        first.1@ == second.1@,
{
}

/// Equal arguments give equal statements: two `DELETE`s of tables that are
/// named alike, under the same conditions, are the same tokens, and so the
/// same text and the same parameters. Two tables built from the same name
/// are named alike, whatever storage each holds its name in.
pub proof fn law_tables_named_alike_give_the_same_statement(
    first: Delete,
    second: Delete,
    dialect: Dialect,
)
    requires
        first.table.is_named_like(second.table),
        first.conditions == second.conditions,
    ensures
        query_tokens(Query::Delete(Box::new(first)), dialect) == query_tokens(
            Query::Delete(Box::new(second)),
            dialect,
        ),
        sql_of(Query::Delete(Box::new(first)), dialect) == sql_of(
            Query::Delete(Box::new(second)),
            dialect,
        ),
        params_of(Query::Delete(Box::new(first)), dialect) == params_of(
            Query::Delete(Box::new(second)),
            dialect,
        ),
{
}

/// True when every select is flat and has neither limit nor offset.
pub open spec fn all_flat_and_unwindowed(selects: Seq<Select>) -> bool {
    forall|i: int|
        0 <= i < selects.len() ==> is_flat(#[trigger] selects[i]) && !is_windowed(selects[i])
}

/// True when no select is nested in the query and none of its selects has
/// a limit or an offset: there is nothing in it that dialects lay out
/// differently.
pub open spec fn is_plain(query: Query) -> bool {
    match query {
        Query::Select(select) => is_flat(select) && !is_windowed(select),
        Query::Insert(_) => true,
        Query::Update(update) => clause_holds_no_select(update.conditions),
        Query::Delete(delete) => clause_holds_no_select(delete.conditions),
        Query::UnionAll(union) => all_flat_and_unwindowed(union.selects@),
        Query::Raw(_) => true,
    }
}

proof fn lemma_plain_branches_agree(selects: Seq<Select>, one: Dialect, other: Dialect)
    requires
        all_flat_and_unwindowed(selects),
    ensures
        branch_list_tokens(selects, one) == branch_list_tokens(selects, other),
    decreases selects.len(),
{
    if selects.len() > 0 {
        assert forall|i: int| 0 <= i < selects.drop_last().len() implies is_flat(
            #[trigger] selects.drop_last()[i],
        ) && !is_windowed(selects.drop_last()[i]) by {
            assert(selects.drop_last()[i] == selects[i]);
        }
        lemma_plain_branches_agree(selects.drop_last(), one, other);
        let last = selects.last();
        assert(last == selects[selects.len() - 1]);
        lemma_flat_select(last, one, other);
    }
}

/// Dialects differ in how they write a statement, not in what it says: a
/// query is lowered to the same tokens in every dialect, but for the layout
/// of limit and offset, which T-SQL has its own way of. Two dialects on the
/// same side of that divide agree on every token of every query, and any
/// two agree where the query has nothing to lay out; the text then differs
/// only where a token is written differently.
pub proof fn law_dialects_agree_on_tokens(query: Query, one: Dialect, other: Dialect)
    requires
        window_alike(one, other) || is_plain(query),
    ensures
        query_tokens(query, one) == query_tokens(query, other),
        params_of(query, one) == params_of(query, other),
{
    if window_alike(one, other) {
        match query {
            Query::Select(select) => {
                lemma_alike_select(select, one, other);
            },
            Query::Update(update) => {
                lemma_alike_clause(Keyword::Where, update.conditions, one, other);
            },
            Query::Delete(delete) => {
                lemma_alike_clause(Keyword::Where, delete.conditions, one, other);
            },
            Query::UnionAll(union) => {
                lemma_alike_branch_list(union.selects@, one, other);
            },
            _ => {},
        }
    } else {
        match query {
            Query::Select(select) => {
                lemma_flat_select(select, one, other);
            },
            Query::Update(update) => {
                lemma_flat_clause(Keyword::Where, update.conditions, one, other);
            },
            Query::Delete(delete) => {
                lemma_flat_clause(Keyword::Where, delete.conditions, one, other);
            },
            Query::UnionAll(union) => {
                lemma_plain_branches_agree(union.selects@, one, other);
            },
            _ => {},
        }
    }
}

/// True when every select is flat and has no conditions.
pub open spec fn all_flat_and_unconditioned(selects: Seq<Select>) -> bool {
    forall|i: int|
        0 <= i < selects.len() ==> is_flat(#[trigger] selects[i]) && selects[i].conditions
            is None
}

/// True when the query has no conditions of its own and nothing nested in
/// it that could have any: no `WHERE` is owed anywhere.
pub open spec fn is_unconditioned(query: Query) -> bool {
    match query {
        Query::Select(select) => is_flat(select) && select.conditions is None,
        Query::Insert(_) => true,
        Query::Update(update) => update.conditions is None,
        Query::Delete(delete) => delete.conditions is None,
        Query::UnionAll(union) => all_flat_and_unconditioned(union.selects@),
        Query::Raw(_) => true,
    }
}

proof fn lemma_unconditioned_branches(selects: Seq<Select>, dialect: Dialect)
    requires
        all_flat_and_unconditioned(selects),
    ensures
        free_of(branch_list_tokens(selects, dialect), Keyword::Where),
    decreases selects.len(),
{
    if selects.len() > 0 {
        assert forall|i: int| 0 <= i < selects.drop_last().len() implies is_flat(
            #[trigger] selects.drop_last()[i],
        ) && selects.drop_last()[i].conditions is None by {
            assert(selects.drop_last()[i] == selects[i]);
        }
        lemma_unconditioned_branches(selects.drop_last(), dialect);
        let last = selects.last();
        assert(last == selects[selects.len() - 1]);
        lemma_flat_select(last, dialect, dialect);
    }
}

/// A statement without conditions has no `WHERE` clause: the word is not
/// among its tokens at all, rather than followed by a condition that always
/// holds.
pub proof fn law_no_conditions_no_where(query: Query, dialect: Dialect)
    requires
        is_unconditioned(query),
    ensures
        free_of(query_tokens(query, dialect), Keyword::Where),
{
    match query {
        Query::Select(select) => {
            lemma_flat_select(select, dialect, dialect);
        },
        Query::Insert(insert) => {
            lemma_insert(*insert);
        },
        Query::Update(update) => {
            lemma_qualified(update.table.database, update.table.name, update.table.alias);
            lemma_assignment_list(update.assignments@);
        },
        Query::Delete(delete) => {
            lemma_qualified(delete.table.database, delete.table.name, delete.table.alias);
        },
        Query::UnionAll(union) => {
            lemma_unconditioned_branches(union.selects@, dialect);
        },
        Query::Raw(_) => {},
    }
}

/// True when two dialects quote names with different marks.
pub open spec fn quote_differently(one: Dialect, other: Dialect) -> bool {
    one.spec_quote_open() != other.spec_quote_open()
}

/// True when two dialects write placeholders in different ways.
pub open spec fn bind_differently(one: Dialect, other: Dialect) -> bool {
    match (one, other) {
        (Dialect::Mysql, Dialect::Sqlite) => false,
        (Dialect::Sqlite, Dialect::Mysql) => false,
        _ => one != other,
    }
}

/// Where dialects differ they differ in the text: no name is quoted alike
/// by two dialects of different quotes, and no placeholder is written alike
/// by two dialects of different placeholders.
pub proof fn law_dialects_differ_in_the_text(
    one: Dialect,
    other: Dialect,
    name: Seq<char>,
    ordinal: nat,
)
    ensures
        quote_differently(one, other) ==> one.spec_quote(name) != other.spec_quote(name),
        bind_differently(one, other) ==> one.spec_placeholder(ordinal) != other.spec_placeholder(
            ordinal,
        ),
{
    assert(one.spec_quote(name)[0] == one.spec_quote_open());
    assert(other.spec_quote(name)[0] == other.spec_quote_open());
    assert(one.spec_placeholder(ordinal)[0] == match one {
        Dialect::Mysql => '?',
        Dialect::Sqlite => '?',
        Dialect::Postgres => '$',
        Dialect::Mssql => '@',
    });
    assert(other.spec_placeholder(ordinal)[0] == match other {
        Dialect::Mysql => '?',
        Dialect::Sqlite => '?',
        Dialect::Postgres => '$',
        Dialect::Mssql => '@',
    });
}

/// One for true, zero for false.
pub open spec fn flag(b: bool) -> nat {
    if b {
        1
    } else {
        0
    }
}

/// How many of the five statement kinds a query is said to be.
pub open spec fn kinds_that_hold(query: Query) -> nat {
    flag(query is Select) + flag(query is Insert) + flag(query is Update) + flag(
        query is Delete,
    ) + flag(query is UnionAll)
}

/// A query that is a statement is of exactly one kind, and raw text is of
/// none.
pub proof fn law_a_statement_is_of_one_kind(query: Query)
    ensures
        !(query is Raw) ==> kinds_that_hold(query) == 1,
        query is Raw ==> kinds_that_hold(query) == 0,
{
}

} // verus!
