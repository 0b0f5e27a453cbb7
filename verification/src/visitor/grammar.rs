//! The grammar: the tokens that each part of a statement is lowered to.
//!
//! Clauses come in one order for every dialect. A dialect decides only what
//! a token looks like and how `LIMIT` and `OFFSET` are laid out.

use vstd::prelude::*;
use crate::ast::assignment::Assignment;
use crate::ast::column::Column;
use crate::ast::compare::{Compare, Operator};
use crate::ast::conditions::ConditionTree;
use crate::ast::delete::Delete;
use crate::ast::expression::Expression;
use crate::ast::insert::Insert;
use crate::ast::join::{Join, JoinKind};
use crate::ast::order::{Direction, Order};
use crate::ast::query::Query;
use crate::ast::select::Select;
use crate::ast::table::Table;
use crate::ast::union::UnionAll;
use crate::ast::update::Update;
use crate::value::Value;
use crate::visitor::dialect::Dialect;
use crate::visitor::token::{Keyword, Token};

verus! {

/// A keyword as a sequence of one token.
pub open spec fn word(keyword: Keyword) -> Seq<Token> {
    seq![Token::Word(keyword)]
}

/// A row count as a sequence of one token: the count, bound as an integer.
pub open spec fn count(n: u32) -> Seq<Token> {
    seq![Token::Bind(Value::Integer(n as i64))]
}

/// One more item of a list: the separator stands before every item but the
/// first.
pub open spec fn joined(before: Seq<Token>, position: int, separator: Keyword, item: Seq<Token>) -> Seq<
    Token,
> {
    if position > 0 {
        before + word(separator) + item
    } else {
        before + item
    }
}

/// A name with what qualifies it before and its alias after:
/// `qualifier.name AS alias`.
pub open spec fn qualified_tokens(
    qualifier: Option<String>,
    name: String,
    alias: Option<String>,
) -> Seq<Token> {
    let head = match qualifier {
        Some(q) => seq![Token::Ident(q@), Token::Word(Keyword::Dot), Token::Ident(name@)],
        None => seq![Token::Ident(name@)],
    };
    match alias {
        Some(a) => head + seq![Token::Word(Keyword::As), Token::Ident(a@)],
        None => head,
    }
}

pub open spec fn table_tokens(table: Table) -> Seq<Token> {
    qualified_tokens(table.database, table.name, table.alias)
}

pub open spec fn column_tokens(column: Column) -> Seq<Token> {
    qualified_tokens(column.table, column.name, column.alias)
}

pub open spec fn expression_tokens(expression: Expression) -> Seq<Token> {
    match expression {
        Expression::Column(c) => column_tokens(c),
        Expression::Parameter(v) => seq![Token::Bind(v)],
        Expression::Raw(sql) => seq![Token::Raw(sql@)],
        Expression::Asterisk => word(Keyword::Star),
    }
}

/// Expressions, separated by commas.
pub open spec fn expression_list_tokens(expressions: Seq<Expression>) -> Seq<Token>
    decreases expressions.len(),
{
    if expressions.len() == 0 {
        Seq::empty()
    } else {
        joined(
            expression_list_tokens(expressions.drop_last()),
            expressions.len() - 1,
            Keyword::Comma,
            expression_tokens(expressions.last()),
        )
    }
}

/// Columns, separated by commas.
pub open spec fn column_list_tokens(columns: Seq<Column>) -> Seq<Token>
    decreases columns.len(),
{
    if columns.len() == 0 {
        Seq::empty()
    } else {
        joined(
            column_list_tokens(columns.drop_last()),
            columns.len() - 1,
            Keyword::Comma,
            column_tokens(columns.last()),
        )
    }
}

pub open spec fn operator_keyword(operator: Operator) -> Keyword {
    match operator {
        Operator::Equals => Keyword::Equals,
        Operator::NotEquals => Keyword::NotEquals,
        Operator::LessThan => Keyword::LessThan,
        Operator::LessThanOrEquals => Keyword::LessThanOrEquals,
        Operator::GreaterThan => Keyword::GreaterThan,
        Operator::GreaterThanOrEquals => Keyword::GreaterThanOrEquals,
        Operator::Like => Keyword::Like,
        Operator::NotLike => Keyword::NotLike,
    }
}

/// A comparison. Membership in an empty list is written as the condition
/// that never holds, and its negation as the one that always does; the left
/// operand is then not written at all. A select to choose among is written
/// in full, inside parentheses.
pub open spec fn compare_tokens(compare: Compare, dialect: Dialect) -> Seq<Token>
    decreases compare,
{
    match compare {
        Compare::Binary(left, operator, right) => expression_tokens(left) + word(
            operator_keyword(operator),
        ) + expression_tokens(right),
        Compare::In(left, values) => if values@.len() == 0 {
            word(Keyword::False)
        } else {
            expression_tokens(left) + word(Keyword::In) + word(Keyword::Open)
                + expression_list_tokens(values@) + word(Keyword::Close)
        },
        Compare::NotIn(left, values) => if values@.len() == 0 {
            word(Keyword::True)
        } else {
            expression_tokens(left) + word(Keyword::NotIn) + word(Keyword::Open)
                + expression_list_tokens(values@) + word(Keyword::Close)
        },
        Compare::Null(left) => expression_tokens(left) + word(Keyword::IsNull),
        Compare::NotNull(left) => expression_tokens(left) + word(Keyword::IsNotNull),
        Compare::Between(left, low, high) => expression_tokens(left) + word(Keyword::Between)
            + expression_tokens(low) + word(Keyword::And) + expression_tokens(high),
        Compare::NotBetween(left, low, high) => expression_tokens(left) + word(
            Keyword::NotBetween,
        ) + expression_tokens(low) + word(Keyword::And) + expression_tokens(high),
        Compare::InSelection(left, select) => expression_tokens(left) + word(Keyword::In) + word(
            Keyword::Open,
        ) + select_tokens(*select, dialect) + word(Keyword::Close),
        Compare::NotInSelection(left, select) => expression_tokens(left) + word(Keyword::NotIn)
            + word(Keyword::Open) + select_tokens(*select, dialect) + word(Keyword::Close),
    }
}

/// A condition tree. Every combinator is written inside parentheses, its
/// operands left to right.
pub open spec fn condition_tokens(tree: ConditionTree, dialect: Dialect) -> Seq<Token>
    decreases tree,
{
    match tree {
        ConditionTree::And(left, right) => word(Keyword::Open) + condition_tokens(
            *left,
            dialect,
        ) + word(Keyword::And) + condition_tokens(*right, dialect) + word(Keyword::Close),
        ConditionTree::Or(left, right) => word(Keyword::Open) + condition_tokens(*left, dialect)
            + word(Keyword::Or) + condition_tokens(*right, dialect) + word(Keyword::Close),
        ConditionTree::Not(inner) => word(Keyword::Open) + word(Keyword::Not) + condition_tokens(
            *inner,
            dialect,
        ) + word(Keyword::Close),
        ConditionTree::Single(compare) => compare_tokens(compare, dialect),
        ConditionTree::NoCondition => word(Keyword::True),
        ConditionTree::NegativeCondition => word(Keyword::False),
    }
}

/// A clause that is there only when the statement has conditions for it.
pub open spec fn clause_tokens(
    keyword: Keyword,
    conditions: Option<ConditionTree>,
    dialect: Dialect,
) -> Seq<Token>
    decreases conditions,
{
    match conditions {
        Some(tree) => word(keyword) + condition_tokens(tree, dialect),
        None => Seq::empty(),
    }
}

pub open spec fn join_keyword(kind: JoinKind) -> Keyword {
    match kind {
        JoinKind::Inner => Keyword::InnerJoin,
        JoinKind::Left => Keyword::LeftJoin,
    }
}

pub open spec fn join_tokens(join: Join, dialect: Dialect) -> Seq<Token>
    decreases join,
{
    word(join_keyword(join.kind)) + table_tokens(join.table) + word(Keyword::On)
        + condition_tokens(join.on, dialect)
}

/// Joins, one after the other.
pub open spec fn join_list_tokens(joins: Seq<Join>, dialect: Dialect) -> Seq<Token>
    decreases joins,
{
    if joins.len() == 0 {
        Seq::empty()
    } else {
        join_list_tokens(joins.drop_last(), dialect) + join_tokens(joins.last(), dialect)
    }
}

pub open spec fn order_tokens(order: Order) -> Seq<Token> {
    match order.direction {
        Some(Direction::Ascending) => column_tokens(order.column) + word(Keyword::Ascending),
        Some(Direction::Descending) => column_tokens(order.column) + word(Keyword::Descending),
        None => column_tokens(order.column),
    }
}

/// Ordering terms, separated by commas.
pub open spec fn order_list_tokens(orders: Seq<Order>) -> Seq<Token>
    decreases orders.len(),
{
    if orders.len() == 0 {
        Seq::empty()
    } else {
        joined(
            order_list_tokens(orders.drop_last()),
            orders.len() - 1,
            Keyword::Comma,
            order_tokens(orders.last()),
        )
    }
}

/// What the statement selects: every column when none is named.
pub open spec fn projection_tokens(columns: Seq<Expression>) -> Seq<Token> {
    if columns.len() == 0 {
        word(Keyword::Star)
    } else {
        expression_list_tokens(columns)
    }
}

pub open spec fn grouping_tokens(columns: Seq<Column>) -> Seq<Token> {
    if columns.len() == 0 {
        Seq::empty()
    } else {
        word(Keyword::GroupBy) + column_list_tokens(columns)
    }
}

pub open spec fn ordering_tokens(orders: Seq<Order>) -> Seq<Token> {
    if orders.len() == 0 {
        Seq::empty()
    } else {
        word(Keyword::OrderBy) + order_list_tokens(orders)
    }
}

/// The offset of a T-SQL statement: bound when there is one, else zero.
pub open spec fn skip_tokens(offset: Option<u32>) -> Seq<Token> {
    match offset {
        Some(o) => word(Keyword::Offset) + count(o) + word(Keyword::Rows),
        None => word(Keyword::Offset) + word(Keyword::Zero) + word(Keyword::Rows),
    }
}

/// The limit of a T-SQL statement.
pub open spec fn fetch_tokens(limit: Option<u32>) -> Seq<Token> {
    match limit {
        Some(l) => word(Keyword::FetchNext) + count(l) + word(Keyword::RowsOnly),
        None => Seq::empty(),
    }
}

/// The limit of a statement in the other dialects. Where an offset comes
/// without a limit, the dialect's word for "no limit" stands in.
pub open spec fn limit_tokens(limit: Option<u32>, offset: Option<u32>) -> Seq<Token> {
    match limit {
        Some(l) => word(Keyword::Limit) + count(l),
        None => if offset is Some {
            word(Keyword::NoLimit)
        } else {
            Seq::empty()
        },
    }
}

/// The offset of a statement in the other dialects.
pub open spec fn offset_tokens(offset: Option<u32>) -> Seq<Token> {
    match offset {
        Some(o) => word(Keyword::Offset) + count(o),
        None => Seq::empty(),
    }
}

/// How many rows to skip and to hand back. T-SQL writes
/// `OFFSET n ROWS FETCH NEXT m ROWS ONLY`, the offset first, and wants an
/// ordering before it; the others write `LIMIT m OFFSET n`.
pub open spec fn window_tokens(
    limit: Option<u32>,
    offset: Option<u32>,
    ordered: bool,
    dialect: Dialect,
) -> Seq<Token> {
    if limit is None && offset is None {
        Seq::empty()
    } else if dialect == Dialect::Mssql {
        if ordered {
            skip_tokens(offset) + fetch_tokens(limit)
        } else {
            word(Keyword::FirstColumn) + skip_tokens(offset) + fetch_tokens(limit)
        }
    } else {
        limit_tokens(limit, offset) + offset_tokens(offset)
    }
}

/// The first half of a select: what is read, from where, and which rows.
pub open spec fn selection_tokens(select: Select, dialect: Dialect) -> Seq<Token>
    decreases select, 0int,
{
    word(Keyword::Select) + projection_tokens(select.columns@) + word(Keyword::From)
        + table_tokens(select.table) + join_list_tokens(select.joins@, dialect) + clause_tokens(
        Keyword::Where,
        select.conditions,
        dialect,
    )
}

/// The second half of a select: how the rows are grouped, sorted and cut.
pub open spec fn arrangement_tokens(select: Select, dialect: Dialect) -> Seq<Token>
    decreases select, 0int,
{
    grouping_tokens(select.grouping@) + clause_tokens(Keyword::Having, select.having, dialect)
        + ordering_tokens(select.ordering@) + window_tokens(
        select.limit,
        select.offset,
        select.ordering@.len() > 0,
        dialect,
    )
}

/// A select, its clauses in the order of the grammar: projection, table,
/// joins, `WHERE`, `GROUP BY`, `HAVING`, `ORDER BY`, then limit and offset.
pub open spec fn select_tokens(select: Select, dialect: Dialect) -> Seq<Token>
    decreases select, 1int,
{
    selection_tokens(select, dialect) + arrangement_tokens(select, dialect)
}

/// The columns of the assignments, separated by commas.
pub open spec fn target_list_tokens(assignments: Seq<Assignment>) -> Seq<Token>
    decreases assignments.len(),
{
    if assignments.len() == 0 {
        Seq::empty()
    } else {
        joined(
            target_list_tokens(assignments.drop_last()),
            assignments.len() - 1,
            Keyword::Comma,
            column_tokens(assignments.last().column),
        )
    }
}

/// The values of the assignments, separated by commas.
pub open spec fn source_list_tokens(assignments: Seq<Assignment>) -> Seq<Token>
    decreases assignments.len(),
{
    if assignments.len() == 0 {
        Seq::empty()
    } else {
        joined(
            source_list_tokens(assignments.drop_last()),
            assignments.len() - 1,
            Keyword::Comma,
            expression_tokens(assignments.last().value),
        )
    }
}

pub open spec fn assignment_tokens(assignment: Assignment) -> Seq<Token> {
    column_tokens(assignment.column) + word(Keyword::Equals) + expression_tokens(
        assignment.value,
    )
}

/// The assignments as `column = value`, separated by commas.
pub open spec fn assignment_list_tokens(assignments: Seq<Assignment>) -> Seq<Token>
    decreases assignments.len(),
{
    if assignments.len() == 0 {
        Seq::empty()
    } else {
        joined(
            assignment_list_tokens(assignments.drop_last()),
            assignments.len() - 1,
            Keyword::Comma,
            assignment_tokens(assignments.last()),
        )
    }
}

pub open spec fn insert_tokens(insert: Insert) -> Seq<Token> {
    if insert.values@.len() == 0 {
        word(Keyword::InsertInto) + table_tokens(insert.table) + word(Keyword::DefaultValues)
    } else {
        word(Keyword::InsertInto) + table_tokens(insert.table) + word(Keyword::Space) + word(
            Keyword::Open,
        ) + target_list_tokens(insert.values@) + word(Keyword::Close) + word(Keyword::Values)
            + word(Keyword::Open) + source_list_tokens(insert.values@) + word(Keyword::Close)
    }
}

pub open spec fn update_tokens(update: Update, dialect: Dialect) -> Seq<Token> {
    word(Keyword::Update) + table_tokens(update.table) + word(Keyword::SetColumns)
        + assignment_list_tokens(update.assignments@) + clause_tokens(
        Keyword::Where,
        update.conditions,
        dialect,
    )
}

pub open spec fn delete_tokens(delete: Delete, dialect: Dialect) -> Seq<Token> {
    word(Keyword::DeleteFrom) + table_tokens(delete.table) + clause_tokens(
        Keyword::Where,
        delete.conditions,
        dialect,
    )
}

/// One select of a union, in parentheses.
pub open spec fn branch_tokens(select: Select, dialect: Dialect) -> Seq<Token> {
    word(Keyword::Open) + select_tokens(select, dialect) + word(Keyword::Close)
}

/// The selects of a union, each in parentheses, separated by `UNION ALL`.
pub open spec fn branch_list_tokens(selects: Seq<Select>, dialect: Dialect) -> Seq<Token>
    decreases selects.len(),
{
    if selects.len() == 0 {
        Seq::empty()
    } else {
        joined(
            branch_list_tokens(selects.drop_last(), dialect),
            selects.len() - 1,
            Keyword::UnionAll,
            branch_tokens(selects.last(), dialect),
        )
    }
}

pub open spec fn union_tokens(union: UnionAll, dialect: Dialect) -> Seq<Token> {
    branch_list_tokens(union.selects@, dialect)
}

/// A query. Raw text is a single token, written as it is.
pub open spec fn query_tokens(query: Query, dialect: Dialect) -> Seq<Token> {
    match query {
        Query::Select(select) => select_tokens(select, dialect),
        Query::Insert(insert) => insert_tokens(*insert),
        Query::Update(update) => update_tokens(*update, dialect),
        Query::Delete(delete) => delete_tokens(*delete, dialect),
        Query::UnionAll(union) => union_tokens(union, dialect),
        Query::Raw(sql) => seq![Token::Raw(sql@)],
    }
}

} // verus!
