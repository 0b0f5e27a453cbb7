//! Where dialects agree: on every token but the layout of limit and offset,
//! and on how many values a statement binds.

use vstd::prelude::*;
use crate::ast::compare::Compare;
use crate::ast::conditions::ConditionTree;
use crate::ast::join::Join;
use crate::ast::select::Select;
use crate::visitor::alignment::{
    branch_list_values, clause_values, compare_values, condition_values, join_list_values,
    lemma_column_list, lemma_expression, lemma_expression_list, lemma_order_list,
    lemma_qualified, lemma_window, select_values,
};
use crate::visitor::dialect::Dialect;
use crate::visitor::grammar::{
    arrangement_tokens, branch_list_tokens, clause_tokens, compare_tokens, condition_tokens,
    join_list_tokens, join_tokens, select_tokens, selection_tokens,
};
use crate::visitor::token::{free_of, Keyword};

verus! {

/// True when two dialects lay out limit and offset in the same way.
pub open spec fn window_alike(one: Dialect, other: Dialect) -> bool {
    (one == Dialect::Mssql) == (other == Dialect::Mssql)
}

/// True when a select has a limit or an offset.
pub open spec fn is_windowed(select: Select) -> bool {
    select.limit is Some || select.offset is Some
}

/// True when the comparison is not against a select.
pub open spec fn compare_holds_no_select(compare: Compare) -> bool {
    !(compare is InSelection) && !(compare is NotInSelection)
}

/// True when no comparison of the tree is against a select.
pub open spec fn holds_no_select(tree: ConditionTree) -> bool
    decreases tree,
{
    match tree {
        ConditionTree::And(left, right) => holds_no_select(*left) && holds_no_select(*right),
        ConditionTree::Or(left, right) => holds_no_select(*left) && holds_no_select(*right),
        ConditionTree::Not(inner) => holds_no_select(*inner),
        ConditionTree::Single(compare) => compare_holds_no_select(compare),
        ConditionTree::NoCondition => true,
        ConditionTree::NegativeCondition => true,
    }
}

/// True when the conditions, if there are any, hold no select.
pub open spec fn clause_holds_no_select(conditions: Option<ConditionTree>) -> bool {
    match conditions {
        Some(tree) => holds_no_select(tree),
        None => true,
    }
}

/// True when no join is on a condition that holds a select.
pub open spec fn joins_hold_no_select(joins: Seq<Join>) -> bool {
    forall|i: int| 0 <= i < joins.len() ==> holds_no_select((#[trigger] joins[i]).on)
}

/// True when no select is nested in the select.
pub open spec fn is_flat(select: Select) -> bool {
    &&& joins_hold_no_select(select.joins@)
    &&& clause_holds_no_select(select.conditions)
    &&& clause_holds_no_select(select.having)
}

pub proof fn lemma_flat_compare(compare: Compare, one: Dialect, other: Dialect)
    requires
        compare_holds_no_select(compare),
    ensures
        free_of(compare_tokens(compare, one), Keyword::Where),
        compare_tokens(compare, one) == compare_tokens(compare, other),
{
    match compare {
        Compare::Binary(left, _, right) => {
            lemma_expression(left);
            lemma_expression(right);
        },
        Compare::In(left, values) => {
            lemma_expression(left);
            lemma_expression_list(values@);
        },
        Compare::NotIn(left, values) => {
            lemma_expression(left);
            lemma_expression_list(values@);
        },
        Compare::Null(left) => {
            lemma_expression(left);
        },
        Compare::NotNull(left) => {
            lemma_expression(left);
        },
        Compare::Between(left, low, high) => {
            lemma_expression(left);
            lemma_expression(low);
            lemma_expression(high);
        },
        Compare::NotBetween(left, low, high) => {
            lemma_expression(left);
            lemma_expression(low);
            lemma_expression(high);
        },
        Compare::InSelection(_, _) => {},
        Compare::NotInSelection(_, _) => {},
    }
}

pub proof fn lemma_flat_condition(tree: ConditionTree, one: Dialect, other: Dialect)
    requires
        holds_no_select(tree),
    ensures
        free_of(condition_tokens(tree, one), Keyword::Where),
        condition_tokens(tree, one) == condition_tokens(tree, other),
    decreases tree,
{
    match tree {
        ConditionTree::And(left, right) => {
            lemma_flat_condition(*left, one, other);
            lemma_flat_condition(*right, one, other);
        },
        ConditionTree::Or(left, right) => {
            lemma_flat_condition(*left, one, other);
            lemma_flat_condition(*right, one, other);
        },
        ConditionTree::Not(inner) => {
            lemma_flat_condition(*inner, one, other);
        },
        ConditionTree::Single(compare) => {
            lemma_flat_compare(compare, one, other);
        },
        ConditionTree::NoCondition => {},
        ConditionTree::NegativeCondition => {},
    }
}

/// A clause without a nested select is the same in every dialect. Only the
/// `WHERE` clause holds the word `WHERE`, and only when there are
/// conditions.
pub proof fn lemma_flat_clause(
    keyword: Keyword,
    conditions: Option<ConditionTree>,
    one: Dialect,
    other: Dialect,
)
    requires
        clause_holds_no_select(conditions),
    ensures
        clause_tokens(keyword, conditions, one) == clause_tokens(keyword, conditions, other),
        keyword != Keyword::Where || conditions is None ==> free_of(
            clause_tokens(keyword, conditions, one),
            Keyword::Where,
        ),
{
    match conditions {
        Some(tree) => {
            lemma_flat_condition(tree, one, other);
        },
        None => {},
    }
}

pub proof fn lemma_flat_join_list(joins: Seq<Join>, one: Dialect, other: Dialect)
    requires
        joins_hold_no_select(joins),
    ensures
        free_of(join_list_tokens(joins, one), Keyword::Where),
        join_list_tokens(joins, one) == join_list_tokens(joins, other),
    decreases joins.len(),
{
    if joins.len() > 0 {
        assert forall|i: int| 0 <= i < joins.drop_last().len() implies holds_no_select(
            (#[trigger] joins.drop_last()[i]).on,
        ) by {
            assert(joins.drop_last()[i] == joins[i]);
        }
        lemma_flat_join_list(joins.drop_last(), one, other);
        let j = joins.last();
        assert(j == joins[joins.len() - 1]);
        lemma_qualified(j.table.database, j.table.name, j.table.alias);
        lemma_flat_condition(j.on, one, other);
        assert(free_of(join_tokens(j, one), Keyword::Where));
        assert(join_tokens(j, one) == join_tokens(j, other));
    }
}

/// A select with no select nested in it has the word `WHERE` only for its
/// own conditions, and is the same in any two dialects unless it has a
/// limit or an offset that they lay out differently.
pub proof fn lemma_flat_select(select: Select, one: Dialect, other: Dialect)
    requires
        is_flat(select),
    ensures
        select.conditions is None ==> free_of(select_tokens(select, one), Keyword::Where),
        !is_windowed(select) || window_alike(one, other) ==> select_tokens(select, one)
            == select_tokens(select, other),
{
    lemma_expression_list(select.columns@);
    lemma_qualified(select.table.database, select.table.name, select.table.alias);
    lemma_flat_join_list(select.joins@, one, other);
    lemma_flat_clause(Keyword::Where, select.conditions, one, other);
    lemma_column_list(select.grouping@);
    lemma_flat_clause(Keyword::Having, select.having, one, other);
    lemma_order_list(select.ordering@);
    lemma_window(select.limit, select.offset, select.ordering@.len() > 0, one);
    assert(select.conditions is None ==> free_of(selection_tokens(select, one), Keyword::Where));
    assert(free_of(arrangement_tokens(select, one), Keyword::Where));
    assert(selection_tokens(select, one) == selection_tokens(select, other));
}

pub proof fn lemma_alike_compare(compare: Compare, one: Dialect, other: Dialect)
    requires
        window_alike(one, other),
    ensures
        compare_tokens(compare, one) == compare_tokens(compare, other),
    decreases compare,
{
    match compare {
        Compare::InSelection(_, select) => {
            lemma_alike_select(*select, one, other);
        },
        Compare::NotInSelection(_, select) => {
            lemma_alike_select(*select, one, other);
        },
        _ => {},
    }
}

pub proof fn lemma_alike_condition(tree: ConditionTree, one: Dialect, other: Dialect)
    requires
        window_alike(one, other),
    ensures
        condition_tokens(tree, one) == condition_tokens(tree, other),
    decreases tree,
{
    match tree {
        ConditionTree::And(left, right) => {
            lemma_alike_condition(*left, one, other);
            lemma_alike_condition(*right, one, other);
        },
        ConditionTree::Or(left, right) => {
            lemma_alike_condition(*left, one, other);
            lemma_alike_condition(*right, one, other);
        },
        ConditionTree::Not(inner) => {
            lemma_alike_condition(*inner, one, other);
        },
        ConditionTree::Single(compare) => {
            lemma_alike_compare(compare, one, other);
        },
        ConditionTree::NoCondition => {},
        ConditionTree::NegativeCondition => {},
    }
}

pub proof fn lemma_alike_clause(
    keyword: Keyword,
    conditions: Option<ConditionTree>,
    one: Dialect,
    other: Dialect,
)
    requires
        window_alike(one, other),
    ensures
        clause_tokens(keyword, conditions, one) == clause_tokens(keyword, conditions, other),
    decreases conditions,
{
    match conditions {
        Some(tree) => {
            lemma_alike_condition(tree, one, other);
        },
        None => {},
    }
}

pub proof fn lemma_alike_join_list(joins: Seq<Join>, one: Dialect, other: Dialect)
    requires
        window_alike(one, other),
    ensures
        join_list_tokens(joins, one) == join_list_tokens(joins, other),
    decreases joins,
{
    if joins.len() > 0 {
        lemma_alike_join_list(joins.drop_last(), one, other);
        lemma_alike_condition(joins.last().on, one, other);
        assert(join_tokens(joins.last(), one) == join_tokens(joins.last(), other));
    }
}

/// Two dialects that lay out limit and offset alike lower a select to the
/// same tokens, however deep selects are nested in it.
pub proof fn lemma_alike_select(select: Select, one: Dialect, other: Dialect)
    requires
        window_alike(one, other),
    ensures
        select_tokens(select, one) == select_tokens(select, other),
    decreases select,
{
    lemma_alike_join_list(select.joins@, one, other);
    lemma_alike_clause(Keyword::Where, select.conditions, one, other);
    lemma_alike_clause(Keyword::Having, select.having, one, other);
    assert(selection_tokens(select, one) == selection_tokens(select, other));
    assert(arrangement_tokens(select, one) == arrangement_tokens(select, other));
}

pub proof fn lemma_alike_branch_list(selects: Seq<Select>, one: Dialect, other: Dialect)
    requires
        window_alike(one, other),
    ensures
        branch_list_tokens(selects, one) == branch_list_tokens(selects, other),
    decreases selects.len(),
{
    if selects.len() > 0 {
        lemma_alike_branch_list(selects.drop_last(), one, other);
        lemma_alike_select(selects.last(), one, other);
    }
}

pub proof fn lemma_count_compare(compare: Compare, one: Dialect, other: Dialect)
    ensures
        compare_values(compare, one).len() == compare_values(compare, other).len(),
    decreases compare,
{
    match compare {
        Compare::InSelection(_, select) => {
            lemma_count_select(*select, one, other);
        },
        Compare::NotInSelection(_, select) => {
            lemma_count_select(*select, one, other);
        },
        _ => {},
    }
}

pub proof fn lemma_count_condition(tree: ConditionTree, one: Dialect, other: Dialect)
    ensures
        condition_values(tree, one).len() == condition_values(tree, other).len(),
    decreases tree,
{
    match tree {
        ConditionTree::And(left, right) => {
            lemma_count_condition(*left, one, other);
            lemma_count_condition(*right, one, other);
        },
        ConditionTree::Or(left, right) => {
            lemma_count_condition(*left, one, other);
            lemma_count_condition(*right, one, other);
        },
        ConditionTree::Not(inner) => {
            lemma_count_condition(*inner, one, other);
        },
        ConditionTree::Single(compare) => {
            lemma_count_compare(compare, one, other);
        },
        ConditionTree::NoCondition => {},
        ConditionTree::NegativeCondition => {},
    }
}

pub proof fn lemma_count_clause(conditions: Option<ConditionTree>, one: Dialect, other: Dialect)
    ensures
        clause_values(conditions, one).len() == clause_values(conditions, other).len(),
    decreases conditions,
{
    match conditions {
        Some(tree) => {
            lemma_count_condition(tree, one, other);
        },
        None => {},
    }
}

pub proof fn lemma_count_join_list(joins: Seq<Join>, one: Dialect, other: Dialect)
    ensures
        join_list_values(joins, one).len() == join_list_values(joins, other).len(),
    decreases joins,
{
    if joins.len() > 0 {
        lemma_count_join_list(joins.drop_last(), one, other);
        lemma_count_condition(joins.last().on, one, other);
    }
}

/// A select binds as many values in one dialect as in another, however
/// deep selects are nested in it.
pub proof fn lemma_count_select(select: Select, one: Dialect, other: Dialect)
    ensures
        select_values(select, one).len() == select_values(select, other).len(),
    decreases select,
{
    lemma_count_join_list(select.joins@, one, other);
    lemma_count_clause(select.conditions, one, other);
    lemma_count_clause(select.having, one, other);
}

pub proof fn lemma_count_branch_list(selects: Seq<Select>, one: Dialect, other: Dialect)
    ensures
        branch_list_values(selects, one).len() == branch_list_values(selects, other).len(),
    decreases selects.len(),
{
    if selects.len() > 0 {
        lemma_count_branch_list(selects.drop_last(), one, other);
        lemma_count_select(selects.last(), one, other);
    }
}

} // verus!
