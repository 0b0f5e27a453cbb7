//! The values a statement binds, read off the statement itself, and the
//! proof that the generator binds exactly those, in that order.

use vstd::prelude::*;
use crate::ast::assignment::Assignment;
use crate::ast::column::Column;
use crate::ast::compare::Compare;
use crate::ast::conditions::ConditionTree;
use crate::ast::delete::Delete;
use crate::ast::expression::Expression;
use crate::ast::insert::Insert;
use crate::ast::join::Join;
use crate::ast::order::Order;
use crate::ast::query::Query;
use crate::ast::select::Select;
use crate::ast::union::UnionAll;
use crate::ast::update::Update;
use crate::value::Value;
use crate::visitor::dialect::Dialect;
use crate::visitor::grammar::{
    arrangement_tokens, assignment_list_tokens, branch_list_tokens, clause_tokens,
    column_list_tokens, compare_tokens, condition_tokens, count, delete_tokens,
    expression_list_tokens, expression_tokens, fetch_tokens, grouping_tokens, insert_tokens,
    join_list_tokens, join_tokens, limit_tokens, offset_tokens, order_list_tokens,
    ordering_tokens, projection_tokens, qualified_tokens, query_tokens, select_tokens,
    selection_tokens, skip_tokens, source_list_tokens, target_list_tokens, update_tokens,
    window_tokens, word,
};
use crate::visitor::token::{
    binds, free_of, lemma_binds_concat, lemma_binds_nothing, Keyword, Token,
};

verus! {

/// The value an expression binds, if it binds one.
pub open spec fn expression_values(expression: Expression) -> Seq<Value> {
    match expression {
        Expression::Parameter(v) => seq![v],
        _ => Seq::empty(),
    }
}

pub open spec fn expression_list_values(expressions: Seq<Expression>) -> Seq<Value>
    decreases expressions.len(),
{
    if expressions.len() == 0 {
        Seq::empty()
    } else {
        expression_list_values(expressions.drop_last()) + expression_values(expressions.last())
    }
}

/// The values of a comparison, operands left to right. Membership in an
/// empty list is written without its operand, so it binds nothing.
pub open spec fn compare_values(compare: Compare, dialect: Dialect) -> Seq<Value>
    decreases compare,
{
    match compare {
        Compare::Binary(left, _, right) => expression_values(left) + expression_values(right),
        Compare::In(left, values) => if values@.len() == 0 {
            Seq::empty()
        } else {
            expression_values(left) + expression_list_values(values@)
        },
        Compare::NotIn(left, values) => if values@.len() == 0 {
            Seq::empty()
        } else {
            expression_values(left) + expression_list_values(values@)
        },
        Compare::Null(left) => expression_values(left),
        Compare::NotNull(left) => expression_values(left),
        Compare::Between(left, low, high) => expression_values(left) + expression_values(low)
            + expression_values(high),
        Compare::NotBetween(left, low, high) => expression_values(left) + expression_values(
            low,
        ) + expression_values(high),
        Compare::InSelection(left, select) => expression_values(left) + select_values(
            *select,
            dialect,
        ),
        Compare::NotInSelection(left, select) => expression_values(left) + select_values(
            *select,
            dialect,
        ),
    }
}

/// The values of a condition tree: those of the left operand, then those of
/// the right.
pub open spec fn condition_values(tree: ConditionTree, dialect: Dialect) -> Seq<Value>
    decreases tree,
{
    match tree {
        ConditionTree::And(left, right) => condition_values(*left, dialect) + condition_values(
            *right,
            dialect,
        ),
        ConditionTree::Or(left, right) => condition_values(*left, dialect) + condition_values(
            *right,
            dialect,
        ),
        ConditionTree::Not(inner) => condition_values(*inner, dialect),
        ConditionTree::Single(compare) => compare_values(compare, dialect),
        ConditionTree::NoCondition => Seq::empty(),
        ConditionTree::NegativeCondition => Seq::empty(),
    }
}

pub open spec fn clause_values(conditions: Option<ConditionTree>, dialect: Dialect) -> Seq<Value>
    decreases conditions,
{
    match conditions {
        Some(tree) => condition_values(tree, dialect),
        None => Seq::empty(),
    }
}

pub open spec fn join_list_values(joins: Seq<Join>, dialect: Dialect) -> Seq<Value>
    decreases joins,
{
    if joins.len() == 0 {
        Seq::empty()
    } else {
        join_list_values(joins.drop_last(), dialect) + condition_values(joins.last().on, dialect)
    }
}

/// A row count as a bound value, if there is one.
pub open spec fn count_values(n: Option<u32>) -> Seq<Value> {
    match n {
        Some(n) => seq![Value::Integer(n as i64)],
        None => Seq::empty(),
    }
}

/// The limit and the offset, in the order the dialect writes them: T-SQL
/// the offset first, the others the limit first.
pub open spec fn window_values(limit: Option<u32>, offset: Option<u32>, dialect: Dialect) -> Seq<
    Value,
> {
    if dialect == Dialect::Mssql {
        count_values(offset) + count_values(limit)
    } else {
        count_values(limit) + count_values(offset)
    }
}

/// The values of a select, clause by clause in the order of the grammar.
/// A select nested in a condition has its values where the condition
/// stands.
pub open spec fn select_values(select: Select, dialect: Dialect) -> Seq<Value>
    decreases select,
{
    expression_list_values(select.columns@) + join_list_values(select.joins@, dialect)
        + clause_values(select.conditions, dialect) + clause_values(select.having, dialect)
        + window_values(select.limit, select.offset, dialect)
}

/// The values that the assignments give, in their order.
pub open spec fn assignment_list_values(assignments: Seq<Assignment>) -> Seq<Value>
    decreases assignments.len(),
{
    if assignments.len() == 0 {
        Seq::empty()
    } else {
        assignment_list_values(assignments.drop_last()) + expression_values(
            assignments.last().value,
        )
    }
}

pub open spec fn branch_list_values(selects: Seq<Select>, dialect: Dialect) -> Seq<Value>
    decreases selects.len(),
{
    if selects.len() == 0 {
        Seq::empty()
    } else {
        branch_list_values(selects.drop_last(), dialect) + select_values(
            selects.last(),
            dialect,
        )
    }
}

/// The values a query binds, in the order in which a dialect writes their
/// placeholders. Raw text binds nothing.
pub open spec fn query_values(query: Query, dialect: Dialect) -> Seq<Value> {
    match query {
        Query::Select(select) => select_values(select, dialect),
        Query::Insert(insert) => assignment_list_values(insert.values@),
        Query::Update(update) => assignment_list_values(update.assignments@) + clause_values(
            update.conditions,
            dialect,
        ),
        Query::Delete(delete) => clause_values(delete.conditions, dialect),
        Query::UnionAll(union) => branch_list_values(union.selects@, dialect),
        Query::Raw(_) => Seq::empty(),
    }
}

pub broadcast proof fn lemma_word_binds_nothing(keyword: Keyword)
    ensures
        #[trigger] binds(word(keyword)) == Seq::<Value>::empty(),
{
    lemma_binds_nothing(word(keyword));
}

pub broadcast proof fn lemma_count_binds_itself(n: u32)
    ensures
        #[trigger] binds(count(n)) == seq![Value::Integer(n as i64)],
{
    let tokens = count(n);
    assert(tokens.drop_last() == Seq::<Token>::empty());
    assert(binds(tokens.drop_last()) == Seq::<Value>::empty());
    assert(Seq::<Value>::empty().push(Value::Integer(n as i64)) == seq![
        Value::Integer(n as i64),
    ]);
}

pub proof fn lemma_qualified(qualifier: Option<String>, name: String, alias: Option<String>)
    ensures
        binds(qualified_tokens(qualifier, name, alias)) == Seq::<Value>::empty(),
        free_of(qualified_tokens(qualifier, name, alias), Keyword::Where),
{
    lemma_binds_nothing(qualified_tokens(qualifier, name, alias));
}

pub proof fn lemma_expression(expression: Expression)
    ensures
        binds(expression_tokens(expression)) == expression_values(expression),
        free_of(expression_tokens(expression), Keyword::Where),
{
    match expression {
        Expression::Column(c) => {
            lemma_qualified(c.table, c.name, c.alias);
        },
        Expression::Parameter(v) => {
            let tokens = seq![Token::Bind(v)];
            assert(tokens.drop_last() == Seq::<Token>::empty());
            assert(binds(tokens.drop_last()) == Seq::<Value>::empty());
            assert(Seq::<Value>::empty().push(v) == seq![v]);
        },
        Expression::Raw(sql) => {
            lemma_binds_nothing(seq![Token::Raw(sql@)]);
        },
        Expression::Asterisk => {
            lemma_binds_nothing(word(Keyword::Star));
        },
    }
}

pub proof fn lemma_expression_list(expressions: Seq<Expression>)
    ensures
        binds(expression_list_tokens(expressions)) == expression_list_values(expressions),
        free_of(expression_list_tokens(expressions), Keyword::Where),
    decreases expressions.len(),
{
    broadcast use {lemma_binds_concat, lemma_word_binds_nothing};

    if expressions.len() > 0 {
        lemma_expression_list(expressions.drop_last());
        lemma_expression(expressions.last());
    }
}

pub proof fn lemma_column_list(columns: Seq<Column>)
    ensures
        binds(column_list_tokens(columns)) == Seq::<Value>::empty(),
        free_of(column_list_tokens(columns), Keyword::Where),
    decreases columns.len(),
{
    broadcast use {lemma_binds_concat, lemma_word_binds_nothing};

    if columns.len() > 0 {
        lemma_column_list(columns.drop_last());
        let c = columns.last();
        lemma_qualified(c.table, c.name, c.alias);
    }
}

pub proof fn lemma_order_list(orders: Seq<Order>)
    ensures
        binds(order_list_tokens(orders)) == Seq::<Value>::empty(),
        free_of(order_list_tokens(orders), Keyword::Where),
    decreases orders.len(),
{
    broadcast use {lemma_binds_concat, lemma_word_binds_nothing};

    if orders.len() > 0 {
        lemma_order_list(orders.drop_last());
        let c = orders.last().column;
        lemma_qualified(c.table, c.name, c.alias);
    }
}

pub proof fn lemma_compare(compare: Compare, dialect: Dialect)
    ensures
        binds(compare_tokens(compare, dialect)) == compare_values(compare, dialect),
    decreases compare,
{
    broadcast use {lemma_binds_concat, lemma_word_binds_nothing};

    match compare {
        Compare::Binary(left, _, right) => {
            lemma_expression(left);
            lemma_expression(right);
        },
        Compare::In(left, values) => {
            lemma_expression(left);
            lemma_expression_list(values@);
        },
        Compare::NotIn(left, values) => {
            lemma_expression(left);
            lemma_expression_list(values@);
        },
        Compare::Null(left) => {
            lemma_expression(left);
        },
        Compare::NotNull(left) => {
            lemma_expression(left);
        },
        Compare::Between(left, low, high) => {
            lemma_expression(left);
            lemma_expression(low);
            lemma_expression(high);
        },
        Compare::NotBetween(left, low, high) => {
            lemma_expression(left);
            lemma_expression(low);
            lemma_expression(high);
        },
        Compare::InSelection(left, select) => {
            lemma_expression(left);
            lemma_select(*select, dialect);
        },
        Compare::NotInSelection(left, select) => {
            lemma_expression(left);
            lemma_select(*select, dialect);
        },
    }
}

pub proof fn lemma_condition(tree: ConditionTree, dialect: Dialect)
    ensures
        binds(condition_tokens(tree, dialect)) == condition_values(tree, dialect),
    decreases tree,
{
    broadcast use {lemma_binds_concat, lemma_word_binds_nothing};

    match tree {
        ConditionTree::And(left, right) => {
            lemma_condition(*left, dialect);
            lemma_condition(*right, dialect);
        },
        ConditionTree::Or(left, right) => {
            lemma_condition(*left, dialect);
            lemma_condition(*right, dialect);
        },
        ConditionTree::Not(inner) => {
            lemma_condition(*inner, dialect);
        },
        ConditionTree::Single(compare) => {
            lemma_compare(compare, dialect);
        },
        ConditionTree::NoCondition => {},
        ConditionTree::NegativeCondition => {},
    }
}

pub proof fn lemma_clause(keyword: Keyword, conditions: Option<ConditionTree>, dialect: Dialect)
    ensures
        binds(clause_tokens(keyword, conditions, dialect)) == clause_values(conditions, dialect),
    decreases conditions,
{
    broadcast use {lemma_binds_concat, lemma_word_binds_nothing};

    match conditions {
        Some(tree) => {
            lemma_condition(tree, dialect);
        },
        None => {},
    }
}

pub proof fn lemma_join_list(joins: Seq<Join>, dialect: Dialect)
    ensures
        binds(join_list_tokens(joins, dialect)) == join_list_values(joins, dialect),
    decreases joins,
{
    broadcast use {lemma_binds_concat, lemma_word_binds_nothing};

    if joins.len() > 0 {
        lemma_join_list(joins.drop_last(), dialect);
        let j = joins.last();
        lemma_qualified(j.table.database, j.table.name, j.table.alias);
        lemma_condition(j.on, dialect);
        assert(binds(join_tokens(j, dialect)) == condition_values(j.on, dialect));
    }
}

pub proof fn lemma_window(limit: Option<u32>, offset: Option<u32>, ordered: bool, dialect: Dialect)
    ensures
        binds(window_tokens(limit, offset, ordered, dialect)) == window_values(
            limit,
            offset,
            dialect,
        ),
        free_of(window_tokens(limit, offset, ordered, dialect), Keyword::Where),
{
    broadcast use {lemma_binds_concat, lemma_word_binds_nothing, lemma_count_binds_itself};

    assert(binds(skip_tokens(offset)) == count_values(offset));
    assert(binds(fetch_tokens(limit)) == count_values(limit));
    assert(binds(limit_tokens(limit, offset)) == count_values(limit));
    assert(binds(offset_tokens(offset)) == count_values(offset));
    assert(binds(Seq::<Token>::empty()) == Seq::<Value>::empty());
}

pub proof fn lemma_selection(select: Select, dialect: Dialect)
    ensures
        binds(selection_tokens(select, dialect)) == expression_list_values(select.columns@)
            + join_list_values(select.joins@, dialect) + clause_values(
            select.conditions,
            dialect,
        ),
    decreases select, 0int,
{
    broadcast use {lemma_binds_concat, lemma_word_binds_nothing};

    lemma_expression_list(select.columns@);
    lemma_qualified(select.table.database, select.table.name, select.table.alias);
    lemma_join_list(select.joins@, dialect);
    lemma_clause(Keyword::Where, select.conditions, dialect);
    assert(binds(projection_tokens(select.columns@)) == expression_list_values(select.columns@));
}

pub proof fn lemma_arrangement(select: Select, dialect: Dialect)
    ensures
        binds(arrangement_tokens(select, dialect)) == clause_values(select.having, dialect)
            + window_values(select.limit, select.offset, dialect),
    decreases select, 0int,
{
    broadcast use {lemma_binds_concat, lemma_word_binds_nothing};

    lemma_column_list(select.grouping@);
    lemma_clause(Keyword::Having, select.having, dialect);
    lemma_order_list(select.ordering@);
    lemma_window(select.limit, select.offset, select.ordering@.len() > 0, dialect);
    assert(binds(grouping_tokens(select.grouping@)) == Seq::<Value>::empty());
    assert(binds(ordering_tokens(select.ordering@)) == Seq::<Value>::empty());
}

pub proof fn lemma_select(select: Select, dialect: Dialect)
    ensures
        binds(select_tokens(select, dialect)) == select_values(select, dialect),
    decreases select, 1int,
{
    broadcast use lemma_binds_concat;

    lemma_selection(select, dialect);
    lemma_arrangement(select, dialect);
}

pub proof fn lemma_target_list(assignments: Seq<Assignment>)
    ensures
        binds(target_list_tokens(assignments)) == Seq::<Value>::empty(),
        free_of(target_list_tokens(assignments), Keyword::Where),
    decreases assignments.len(),
{
    broadcast use {lemma_binds_concat, lemma_word_binds_nothing};

    if assignments.len() > 0 {
        lemma_target_list(assignments.drop_last());
        let c = assignments.last().column;
        lemma_qualified(c.table, c.name, c.alias);
    }
}

pub proof fn lemma_source_list(assignments: Seq<Assignment>)
    ensures
        binds(source_list_tokens(assignments)) == assignment_list_values(assignments),
        free_of(source_list_tokens(assignments), Keyword::Where),
    decreases assignments.len(),
{
    broadcast use {lemma_binds_concat, lemma_word_binds_nothing};

    if assignments.len() > 0 {
        lemma_source_list(assignments.drop_last());
        lemma_expression(assignments.last().value);
    }
}

pub proof fn lemma_assignment_list(assignments: Seq<Assignment>)
    ensures
        binds(assignment_list_tokens(assignments)) == assignment_list_values(assignments),
        free_of(assignment_list_tokens(assignments), Keyword::Where),
    decreases assignments.len(),
{
    broadcast use {lemma_binds_concat, lemma_word_binds_nothing};

    if assignments.len() > 0 {
        lemma_assignment_list(assignments.drop_last());
        let a = assignments.last();
        lemma_qualified(a.column.table, a.column.name, a.column.alias);
        lemma_expression(a.value);
    }
}

pub proof fn lemma_insert(insert: Insert)
    ensures
        binds(insert_tokens(insert)) == assignment_list_values(insert.values@),
        free_of(insert_tokens(insert), Keyword::Where),
{
    broadcast use {lemma_binds_concat, lemma_word_binds_nothing};

    lemma_qualified(insert.table.database, insert.table.name, insert.table.alias);
    lemma_target_list(insert.values@);
    lemma_source_list(insert.values@);
}

pub proof fn lemma_update(update: Update, dialect: Dialect)
    ensures
        binds(update_tokens(update, dialect)) == assignment_list_values(update.assignments@)
            + clause_values(update.conditions, dialect),
{
    broadcast use {lemma_binds_concat, lemma_word_binds_nothing};

    lemma_qualified(update.table.database, update.table.name, update.table.alias);
    lemma_assignment_list(update.assignments@);
    lemma_clause(Keyword::Where, update.conditions, dialect);
}

pub proof fn lemma_delete(delete: Delete, dialect: Dialect)
    ensures
        binds(delete_tokens(delete, dialect)) == clause_values(delete.conditions, dialect),
{
    broadcast use {lemma_binds_concat, lemma_word_binds_nothing};

    lemma_qualified(delete.table.database, delete.table.name, delete.table.alias);
    lemma_clause(Keyword::Where, delete.conditions, dialect);
}

pub proof fn lemma_branch_list(selects: Seq<Select>, dialect: Dialect)
    ensures
        binds(branch_list_tokens(selects, dialect)) == branch_list_values(selects, dialect),
    decreases selects.len(),
{
    broadcast use {lemma_binds_concat, lemma_word_binds_nothing};

    if selects.len() > 0 {
        lemma_branch_list(selects.drop_last(), dialect);
        lemma_select(selects.last(), dialect);
    }
}

/// The generator binds exactly the values that the query holds where the
/// grammar binds, in the order of the grammar.
pub proof fn lemma_query(query: Query, dialect: Dialect)
    ensures
        binds(query_tokens(query, dialect)) == query_values(query, dialect),
{
    match query {
        Query::Select(select) => {
            lemma_select(select, dialect);
        },
        Query::Insert(insert) => {
            lemma_insert(*insert);
        },
        Query::Update(update) => {
            lemma_update(*update, dialect);
        },
        Query::Delete(delete) => {
            lemma_delete(*delete, dialect);
        },
        Query::UnionAll(union) => {
            lemma_branch_list(union.selects@, dialect);
        },
        Query::Raw(sql) => {
            lemma_binds_nothing(seq![Token::Raw(sql@)]);
        },
    }
}

} // verus!
