//! The traversal: writes each part of a statement as the grammar lays it
//! out, binding values as their placeholders are written.

use vstd::prelude::*;
use crate::ast::assignment::Assignment;
use crate::ast::column::Column;
use crate::ast::compare::{Compare, Operator};
use crate::ast::conditions::ConditionTree;
use crate::ast::delete::Delete;
use crate::ast::expression::Expression;
use crate::ast::insert::Insert;
use crate::ast::join::{Join, JoinKind};
use crate::ast::order::{Direction, Order};
use crate::ast::query::Query;
use crate::ast::select::Select;
use crate::ast::table::Table;
use crate::ast::union::UnionAll;
use crate::ast::update::Update;
use crate::value::Value;
use crate::visitor::dialect::Dialect;
use crate::visitor::grammar::{
    arrangement_tokens, assignment_list_tokens, assignment_tokens, branch_list_tokens,
    branch_tokens, clause_tokens, column_list_tokens, column_tokens, compare_tokens,
    condition_tokens, count, delete_tokens, expression_list_tokens, expression_tokens,
    fetch_tokens, grouping_tokens, insert_tokens, join_keyword, join_list_tokens, join_tokens,
    limit_tokens, offset_tokens, operator_keyword, order_list_tokens, order_tokens,
    ordering_tokens, projection_tokens, qualified_tokens, query_tokens, select_tokens,
    selection_tokens, skip_tokens, source_list_tokens, table_tokens, target_list_tokens,
    union_tokens, update_tokens, window_tokens, word,
};
use crate::visitor::token::Keyword;
use crate::visitor::writer::SqlWriter;

verus! {

fn emit_qualified(
    w: &mut SqlWriter,
    qualifier: &Option<String>,
    name: &String,
    alias: &Option<String>,
)
    requires
        old(w).wf(),
    ensures
        final(w).extends(*old(w), qualified_tokens(*qualifier, *name, *alias)),
{
    match qualifier {
        Some(q) => {
            w.ident(q.as_str());
            w.word(Keyword::Dot);
        },
        None => {},
    }
    w.ident(name.as_str());
    match alias {
        Some(a) => {
            w.word(Keyword::As);
            w.ident(a.as_str());
        },
        None => {},
    }
}

pub fn emit_table(w: &mut SqlWriter, table: &Table)
    requires
        old(w).wf(),
    ensures
        final(w).extends(*old(w), table_tokens(*table)),
{
    emit_qualified(w, &table.database, &table.name, &table.alias);
}

pub fn emit_column(w: &mut SqlWriter, column: &Column)
    requires
        old(w).wf(),
    ensures
        final(w).extends(*old(w), column_tokens(*column)),
{
    emit_qualified(w, &column.table, &column.name, &column.alias);
}

pub fn emit_expression(w: &mut SqlWriter, expression: Expression)
    requires
        old(w).wf(),
    ensures
        final(w).extends(*old(w), expression_tokens(expression)),
{
    match expression {
        Expression::Column(c) => {
            emit_column(w, &c);
        },
        Expression::Parameter(v) => {
            w.bind(v);
        },
        Expression::Raw(sql) => {
            w.raw(sql.as_str());
        },
        Expression::Asterisk => {
            w.word(Keyword::Star);
        },
    }
}

pub fn emit_expression_list(w: &mut SqlWriter, expressions: Vec<Expression>)
    requires
        old(w).wf(),
    ensures
        final(w).extends(*old(w), expression_list_tokens(expressions@)),
{
    let ghost all = expressions@;
    let ghost start = *w;
    let mut first = true;
    for e in it: expressions
        invariant
            it.seq() == all,
            first == (it.index() == 0),
            w.extends(start, expression_list_tokens(all.take(it.index()))),
    {
        proof {
            let i = it.index();
            assert(all.take(i + 1).drop_last() == all.take(i));
            assert(all.take(i + 1).last() == e);
        }
        if !first {
            w.word(Keyword::Comma);
        }
        emit_expression(w, e);
        first = false;
    }
    proof {
        assert(all.take(all.len() as int) == all);
    }
}

pub fn operator_word(operator: Operator) -> (k: Keyword)
    ensures
        k == operator_keyword(operator),
{
    match operator {
        Operator::Equals => Keyword::Equals,
        Operator::NotEquals => Keyword::NotEquals,
        Operator::LessThan => Keyword::LessThan,
        Operator::LessThanOrEquals => Keyword::LessThanOrEquals,
        Operator::GreaterThan => Keyword::GreaterThan,
        Operator::GreaterThanOrEquals => Keyword::GreaterThanOrEquals,
        Operator::Like => Keyword::Like,
        Operator::NotLike => Keyword::NotLike,
    }
}

fn emit_membership(
    w: &mut SqlWriter,
    left: Expression,
    keyword: Keyword,
    values: Vec<Expression>,
)
    requires
        old(w).wf(),
    ensures
        final(w).extends(
            *old(w),
            expression_tokens(left) + word(keyword) + word(Keyword::Open)
                + expression_list_tokens(values@) + word(Keyword::Close),
        ),
{
    emit_expression(w, left);
    w.word(keyword);
    w.word(Keyword::Open);
    emit_expression_list(w, values);
    w.word(Keyword::Close);
}

fn emit_range(
    w: &mut SqlWriter,
    left: Expression,
    keyword: Keyword,
    low: Expression,
    high: Expression,
)
    requires
        old(w).wf(),
    ensures
        final(w).extends(
            *old(w),
            expression_tokens(left) + word(keyword) + expression_tokens(low) + word(Keyword::And)
                + expression_tokens(high),
        ),
{
    emit_expression(w, left);
    w.word(keyword);
    emit_expression(w, low);
    w.word(Keyword::And);
    emit_expression(w, high);
}

pub fn emit_compare(w: &mut SqlWriter, compare: Compare)
    requires
        old(w).wf(),
    ensures
        final(w).extends(*old(w), compare_tokens(compare, old(w).dialect())),
    decreases compare,
{
    match compare {
        Compare::Binary(left, operator, right) => {
            emit_expression(w, left);
            w.word(operator_word(operator));
            emit_expression(w, right);
        },
        Compare::In(left, values) => {
            if values.len() == 0 {
                w.word(Keyword::False);
            } else {
                emit_membership(w, left, Keyword::In, values);
            }
        },
        Compare::NotIn(left, values) => {
            if values.len() == 0 {
                w.word(Keyword::True);
            } else {
                emit_membership(w, left, Keyword::NotIn, values);
            }
        },
        Compare::Null(left) => {
            emit_expression(w, left);
            w.word(Keyword::IsNull);
        },
        Compare::NotNull(left) => {
            emit_expression(w, left);
            w.word(Keyword::IsNotNull);
        },
        Compare::Between(left, low, high) => {
            emit_range(w, left, Keyword::Between, low, high);
        },
        Compare::NotBetween(left, low, high) => {
            emit_range(w, left, Keyword::NotBetween, low, high);
        },
        Compare::InSelection(left, select) => {
            emit_expression(w, left);
            w.word(Keyword::In);
            w.word(Keyword::Open);
            emit_select(w, *select);
            w.word(Keyword::Close);
        },
        Compare::NotInSelection(left, select) => {
            emit_expression(w, left);
            w.word(Keyword::NotIn);
            w.word(Keyword::Open);
            emit_select(w, *select);
            w.word(Keyword::Close);
        },
    }
}

pub fn emit_conditions(w: &mut SqlWriter, tree: ConditionTree)
    requires
        old(w).wf(),
    ensures
        final(w).extends(*old(w), condition_tokens(tree, old(w).dialect())),
    decreases tree,
{
    match tree {
        ConditionTree::And(left, right) => {
            w.word(Keyword::Open);
            emit_conditions(w, *left);
            w.word(Keyword::And);
            emit_conditions(w, *right);
            w.word(Keyword::Close);
        },
        ConditionTree::Or(left, right) => {
            w.word(Keyword::Open);
            emit_conditions(w, *left);
            w.word(Keyword::Or);
            emit_conditions(w, *right);
            w.word(Keyword::Close);
        },
        ConditionTree::Not(inner) => {
            w.word(Keyword::Open);
            w.word(Keyword::Not);
            emit_conditions(w, *inner);
            w.word(Keyword::Close);
        },
        ConditionTree::Single(compare) => {
            emit_compare(w, compare);
        },
        ConditionTree::NoCondition => {
            w.word(Keyword::True);
        },
        ConditionTree::NegativeCondition => {
            w.word(Keyword::False);
        },
    }
}

fn emit_clause(w: &mut SqlWriter, keyword: Keyword, conditions: Option<ConditionTree>)
    requires
        old(w).wf(),
    ensures
        final(w).extends(*old(w), clause_tokens(keyword, conditions, old(w).dialect())),
    decreases conditions,
{
    match conditions {
        Some(tree) => {
            w.word(keyword);
            emit_conditions(w, tree);
        },
        None => {},
    }
}

pub fn emit_delete(w: &mut SqlWriter, delete: Delete)
    requires
        old(w).wf(),
    ensures
        final(w).extends(*old(w), delete_tokens(delete, old(w).dialect())),
{
    w.word(Keyword::DeleteFrom);
    emit_table(w, &delete.table);
    emit_clause(w, Keyword::Where, delete.conditions);
}

pub fn emit_column_list(w: &mut SqlWriter, columns: &Vec<Column>)
    requires
        old(w).wf(),
    ensures
        final(w).extends(*old(w), column_list_tokens(columns@)),
{
    let ghost start = *w;
    let mut i: usize = 0;
    while i < columns.len()
        invariant
            i <= columns@.len(),
            w.extends(start, column_list_tokens(columns@.take(i as int))),
        decreases columns@.len() - i,
    {
        proof {
            assert(columns@.take(i + 1).drop_last() == columns@.take(i as int));
            assert(columns@.take(i + 1).last() == columns@[i as int]);
        }
        if i > 0 {
            w.word(Keyword::Comma);
        }
        emit_column(w, &columns[i]);
        i = i + 1;
    }
    proof {
        assert(columns@.take(columns@.len() as int) == columns@);
    }
}

pub fn join_word(kind: JoinKind) -> (k: Keyword)
    ensures
        k == join_keyword(kind),
{
    match kind {
        JoinKind::Inner => Keyword::InnerJoin,
        JoinKind::Left => Keyword::LeftJoin,
    }
}

pub fn emit_join(w: &mut SqlWriter, join: Join)
    requires
        old(w).wf(),
    ensures
        final(w).extends(*old(w), join_tokens(join, old(w).dialect())),
    decreases join,
{
    w.word(join_word(join.kind));
    emit_table(w, &join.table);
    w.word(Keyword::On);
    emit_conditions(w, join.on);
}

pub fn emit_join_list(w: &mut SqlWriter, joins: Vec<Join>)
    requires
        old(w).wf(),
    ensures
        final(w).extends(*old(w), join_list_tokens(joins@, old(w).dialect())),
    decreases joins,
{
    let ghost all = joins@;
    let ghost start = *w;
    for j in it: joins
        invariant
            it.seq() == all,
            all == joins@,
            w.extends(start, join_list_tokens(all.take(it.index()), start.dialect())),
    {
        proof {
            let i = it.index();
            assert(all.take(i + 1).drop_last() == all.take(i));
            assert(all.take(i + 1).last() == j);
        }
        emit_join(w, j);
    }
    proof {
        assert(all.take(all.len() as int) == all);
    }
}

pub fn emit_order(w: &mut SqlWriter, order: &Order)
    requires
        old(w).wf(),
    ensures
        final(w).extends(*old(w), order_tokens(*order)),
{
    emit_column(w, &order.column);
    match order.direction {
        Some(Direction::Ascending) => {
            w.word(Keyword::Ascending);
        },
        Some(Direction::Descending) => {
            w.word(Keyword::Descending);
        },
        None => {},
    }
}

pub fn emit_order_list(w: &mut SqlWriter, orders: &Vec<Order>)
    requires
        old(w).wf(),
    ensures
        final(w).extends(*old(w), order_list_tokens(orders@)),
{
    let ghost start = *w;
    let mut i: usize = 0;
    while i < orders.len()
        invariant
            i <= orders@.len(),
            w.extends(start, order_list_tokens(orders@.take(i as int))),
        decreases orders@.len() - i,
    {
        proof {
            assert(orders@.take(i + 1).drop_last() == orders@.take(i as int));
            assert(orders@.take(i + 1).last() == orders@[i as int]);
        }
        if i > 0 {
            w.word(Keyword::Comma);
        }
        emit_order(w, &orders[i]);
        i = i + 1;
    }
    proof {
        assert(orders@.take(orders@.len() as int) == orders@);
    }
}

fn emit_count(w: &mut SqlWriter, n: u32)
    requires
        old(w).wf(),
    ensures
        final(w).extends(*old(w), count(n)),
{
    w.bind(Value::Integer(n as i64));
}

fn emit_skip(w: &mut SqlWriter, offset: Option<u32>)
    requires
        old(w).wf(),
    ensures
        final(w).extends(*old(w), skip_tokens(offset)),
{
    w.word(Keyword::Offset);
    match offset {
        Some(o) => {
            emit_count(w, o);
        },
        None => {
            w.word(Keyword::Zero);
        },
    }
    w.word(Keyword::Rows);
}

fn emit_fetch(w: &mut SqlWriter, limit: Option<u32>)
    requires
        old(w).wf(),
    ensures
        final(w).extends(*old(w), fetch_tokens(limit)),
{
    match limit {
        Some(l) => {
            w.word(Keyword::FetchNext);
            emit_count(w, l);
            w.word(Keyword::RowsOnly);
        },
        None => {},
    }
}

fn emit_limit(w: &mut SqlWriter, limit: Option<u32>, offset: Option<u32>)
    requires
        old(w).wf(),
    ensures
        final(w).extends(*old(w), limit_tokens(limit, offset)),
{
    match limit {
        Some(l) => {
            w.word(Keyword::Limit);
            emit_count(w, l);
        },
        None => {
            if offset.is_some() {
                w.word(Keyword::NoLimit);
            }
        },
    }
}

fn emit_offset(w: &mut SqlWriter, offset: Option<u32>)
    requires
        old(w).wf(),
    ensures
        final(w).extends(*old(w), offset_tokens(offset)),
{
    match offset {
        Some(o) => {
            w.word(Keyword::Offset);
            emit_count(w, o);
        },
        None => {},
    }
}

pub fn emit_window(w: &mut SqlWriter, limit: Option<u32>, offset: Option<u32>, ordered: bool)
    requires
        old(w).wf(),
    ensures
        final(w).extends(*old(w), window_tokens(limit, offset, ordered, old(w).dialect())),
{
    if limit.is_none() && offset.is_none() {
        return ;
    }
    match w.speaks() {
        Dialect::Mssql => {
            if !ordered {
                w.word(Keyword::FirstColumn);
            }
            emit_skip(w, offset);
            emit_fetch(w, limit);
        },
        _ => {
            emit_limit(w, limit, offset);
            emit_offset(w, offset);
        },
    }
}

fn emit_projection(w: &mut SqlWriter, columns: Vec<Expression>)
    requires
        old(w).wf(),
    ensures
        final(w).extends(*old(w), projection_tokens(columns@)),
{
    if columns.len() == 0 {
        w.word(Keyword::Star);
    } else {
        emit_expression_list(w, columns);
    }
}

fn emit_grouping(w: &mut SqlWriter, columns: &Vec<Column>)
    requires
        old(w).wf(),
    ensures
        final(w).extends(*old(w), grouping_tokens(columns@)),
{
    if columns.len() > 0 {
        w.word(Keyword::GroupBy);
        emit_column_list(w, columns);
    }
}

fn emit_ordering(w: &mut SqlWriter, orders: &Vec<Order>)
    requires
        old(w).wf(),
    ensures
        final(w).extends(*old(w), ordering_tokens(orders@)),
{
    if orders.len() > 0 {
        w.word(Keyword::OrderBy);
        emit_order_list(w, orders);
    }
}

fn emit_selection(
    w: &mut SqlWriter,
    columns: Vec<Expression>,
    table: &Table,
    joins: Vec<Join>,
    conditions: Option<ConditionTree>,
    Ghost(select): Ghost<Select>,
)
    requires
        old(w).wf(),
        columns == select.columns,
        *table == select.table,
        joins == select.joins,
        conditions == select.conditions,
    ensures
        final(w).extends(*old(w), selection_tokens(select, old(w).dialect())),
    decreases select, 0int,
{
    w.word(Keyword::Select);
    emit_projection(w, columns);
    w.word(Keyword::From);
    emit_table(w, table);
    emit_join_list(w, joins);
    emit_clause(w, Keyword::Where, conditions);
}

fn emit_arrangement(
    w: &mut SqlWriter,
    grouping: &Vec<Column>,
    having: Option<ConditionTree>,
    ordering: &Vec<Order>,
    limit: Option<u32>,
    offset: Option<u32>,
    Ghost(select): Ghost<Select>,
)
    requires
        old(w).wf(),
        *grouping == select.grouping,
        having == select.having,
        *ordering == select.ordering,
        limit == select.limit,
        offset == select.offset,
    ensures
        final(w).extends(*old(w), arrangement_tokens(select, old(w).dialect())),
    decreases select, 0int,
{
    emit_grouping(w, grouping);
    emit_clause(w, Keyword::Having, having);
    emit_ordering(w, ordering);
    emit_window(w, limit, offset, ordering.len() > 0);
}

pub fn emit_select(w: &mut SqlWriter, select: Select)
    requires
        old(w).wf(),
    ensures
        final(w).extends(*old(w), select_tokens(select, old(w).dialect())),
    decreases select, 1int,
{
    let ghost whole = select;
    emit_selection(
        w,
        select.columns,
        &select.table,
        select.joins,
        select.conditions,
        Ghost(whole),
    );
    emit_arrangement(
        w,
        &select.grouping,
        select.having,
        &select.ordering,
        select.limit,
        select.offset,
        Ghost(whole),
    );
}

fn emit_target_list(w: &mut SqlWriter, assignments: &Vec<Assignment>)
    requires
        old(w).wf(),
    ensures
        final(w).extends(*old(w), target_list_tokens(assignments@)),
{
    let ghost start = *w;
    let mut i: usize = 0;
    while i < assignments.len()
        invariant
            i <= assignments@.len(),
            w.extends(start, target_list_tokens(assignments@.take(i as int))),
        decreases assignments@.len() - i,
    {
        proof {
            assert(assignments@.take(i + 1).drop_last() == assignments@.take(i as int));
            assert(assignments@.take(i + 1).last() == assignments@[i as int]);
        }
        if i > 0 {
            w.word(Keyword::Comma);
        }
        emit_column(w, &assignments[i].column);
        i = i + 1;
    }
    proof {
        assert(assignments@.take(assignments@.len() as int) == assignments@);
    }
}

fn emit_source_list(w: &mut SqlWriter, assignments: Vec<Assignment>)
    requires
        old(w).wf(),
    ensures
        final(w).extends(*old(w), source_list_tokens(assignments@)),
{
    let ghost all = assignments@;
    let ghost start = *w;
    let mut first = true;
    for a in it: assignments
        invariant
            it.seq() == all,
            first == (it.index() == 0),
            w.extends(start, source_list_tokens(all.take(it.index()))),
    {
        proof {
            let i = it.index();
            assert(all.take(i + 1).drop_last() == all.take(i));
            assert(all.take(i + 1).last() == a);
        }
        if !first {
            w.word(Keyword::Comma);
        }
        emit_expression(w, a.value);
        first = false;
    }
    proof {
        assert(all.take(all.len() as int) == all);
    }
}

fn emit_assignment(w: &mut SqlWriter, assignment: Assignment)
    requires
        old(w).wf(),
    ensures
        final(w).extends(*old(w), assignment_tokens(assignment)),
{
    emit_column(w, &assignment.column);
    w.word(Keyword::Equals);
    emit_expression(w, assignment.value);
}

fn emit_assignment_list(w: &mut SqlWriter, assignments: Vec<Assignment>)
    requires
        old(w).wf(),
    ensures
        final(w).extends(*old(w), assignment_list_tokens(assignments@)),
{
    let ghost all = assignments@;
    let ghost start = *w;
    let mut first = true;
    for a in it: assignments
        invariant
            it.seq() == all,
            first == (it.index() == 0),
            w.extends(start, assignment_list_tokens(all.take(it.index()))),
    {
        proof {
            let i = it.index();
            assert(all.take(i + 1).drop_last() == all.take(i));
            assert(all.take(i + 1).last() == a);
        }
        if !first {
            w.word(Keyword::Comma);
        }
        emit_assignment(w, a);
        first = false;
    }
    proof {
        assert(all.take(all.len() as int) == all);
    }
}

pub fn emit_insert(w: &mut SqlWriter, insert: Insert)
    requires
        old(w).wf(),
    ensures
        final(w).extends(*old(w), insert_tokens(insert)),
{
    w.word(Keyword::InsertInto);
    emit_table(w, &insert.table);
    if insert.values.len() == 0 {
        w.word(Keyword::DefaultValues);
    } else {
        w.word(Keyword::Space);
        w.word(Keyword::Open);
        emit_target_list(w, &insert.values);
        w.word(Keyword::Close);
        w.word(Keyword::Values);
        w.word(Keyword::Open);
        emit_source_list(w, insert.values);
        w.word(Keyword::Close);
    }
}

pub fn emit_update(w: &mut SqlWriter, update: Update)
    requires
        old(w).wf(),
    ensures
        final(w).extends(*old(w), update_tokens(update, old(w).dialect())),
{
    w.word(Keyword::Update);
    emit_table(w, &update.table);
    w.word(Keyword::SetColumns);
    emit_assignment_list(w, update.assignments);
    emit_clause(w, Keyword::Where, update.conditions);
}

fn emit_branch(w: &mut SqlWriter, select: Select)
    requires
        old(w).wf(),
    ensures
        final(w).extends(*old(w), branch_tokens(select, old(w).dialect())),
{
    w.word(Keyword::Open);
    emit_select(w, select);
    w.word(Keyword::Close);
}

pub fn emit_union(w: &mut SqlWriter, union: UnionAll)
    requires
        old(w).wf(),
    ensures
        final(w).extends(*old(w), union_tokens(union, old(w).dialect())),
{
    let ghost all = union.selects@;
    let ghost start = *w;
    let mut first = true;
    for s in it: union.selects
        invariant
            it.seq() == all,
            first == (it.index() == 0),
            w.extends(start, branch_list_tokens(all.take(it.index()), start.dialect())),
    {
        proof {
            let i = it.index();
            assert(all.take(i + 1).drop_last() == all.take(i));
            assert(all.take(i + 1).last() == s);
        }
        if !first {
            w.word(Keyword::UnionAll);
        }
        emit_branch(w, s);
        first = false;
    }
    proof {
        assert(all.take(all.len() as int) == all);
    }
}

/// Writes a query in the writer's dialect.
pub fn emit_query(w: &mut SqlWriter, query: Query)
    requires
        old(w).wf(),
    ensures
        final(w).extends(*old(w), query_tokens(query, old(w).dialect())),
{
    match query {
        Query::Select(select) => {
            emit_select(w, select);
        },
        Query::Insert(insert) => {
            emit_insert(w, *insert);
        },
        Query::Update(update) => {
            emit_update(w, *update);
        },
        Query::Delete(delete) => {
            emit_delete(w, *delete);
        },
        Query::UnionAll(union) => {
            emit_union(w, union);
        },
        Query::Raw(sql) => {
            w.raw(sql.as_str());
        },
    }
}

} // verus!
