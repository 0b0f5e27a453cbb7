use quaint::ast::{
    Column, Comparable, Compare, ConditionTree, Conjunctive, Expression, Operator, Select, Table,
};
use quaint::value::{Real, Timestamp, Value};

#[test]
fn constructors_build_the_kind_they_name() {
    assert_eq!(Value::null(), Value::Null);
    assert_eq!(Value::integer(1), Value::Integer(1));
    assert_eq!(Value::text("x"), Value::Text("x".to_string()));
    assert_eq!(Value::boolean(false), Value::Boolean(false));
    assert_eq!(Value::bytes(vec![1, 2]), Value::Bytes(vec![1, 2]));
    assert_eq!(Value::double(Real::from_bits(5)), Value::Real(Real { bits: 5 }));
    assert_eq!(
        Value::date_time(Timestamp::from_seconds(9)),
        Value::DateTime(Timestamp { seconds: 9, nanos: 0 })
    );
    assert!(Value::null().is_null());
    assert!(!Value::integer(0).is_null());
}

#[test]
fn kinds_do_not_equal_each_other() {
    assert_ne!(Value::Null, Value::text(""));
    assert_ne!(Value::Null, Value::bytes(vec![]));
    assert_ne!(Value::integer(0), Value::boolean(false));
    assert_ne!(Value::integer(1), Value::double(Real::from_bits(1)));
    assert_ne!(Value::text("a"), Value::bytes(vec![0x61]));
}

#[test]
fn conversions_into_values() {
    assert_eq!(Value::from(3i64), Value::Integer(3));
    assert_eq!(Value::from(true), Value::Boolean(true));
    assert_eq!(Value::from("a"), Value::Text("a".to_string()));
    assert_eq!(Value::from("a".to_string()), Value::Text("a".to_string()));
}

#[test]
fn negation_flips_the_sign_alone() {
    let x = Real::from_bits(1.5f64.to_bits());
    assert_eq!(f64::from_bits(x.negated().to_bits()), -1.5);
    assert_eq!(x.negated().negated(), x);
    let zero = Real::from_bits(0.0f64.to_bits());
    assert_eq!(zero.negated().to_bits(), (-0.0f64).to_bits());
}

#[test]
fn operands_and_comparisons() {
    assert_eq!(
        "a".equals(1i64),
        Compare::Binary(
            Expression::Column(Column::new("a")),
            Operator::Equals,
            Expression::Parameter(Value::Integer(1))
        )
    );
    assert_eq!(
        Column::new("a").table("t").less_than("x"),
        Compare::Binary(
            Expression::Column(Column { name: "a".into(), table: Some("t".into()), alias: None }),
            Operator::LessThan,
            Expression::Parameter(Value::text("x"))
        )
    );
    assert_eq!(
        Expression::raw("1").is_null(),
        Compare::Null(Expression::Raw("1".to_string()))
    );
    assert_eq!(
        "a".in_values(vec![Expression::Asterisk]),
        Compare::In(Expression::Column(Column::new("a")), vec![Expression::Asterisk])
    );
    assert_eq!(
        "a".in_selection(Select::from_table("t")),
        Compare::InSelection(
            Expression::Column(Column::new("a")),
            Box::new(Select::from_table("t"))
        )
    );
    assert_eq!(
        "a".not_in_selection(Select::from_table("t").limit(1)),
        Compare::NotInSelection(
            Expression::Column(Column::new("a")),
            Box::new(Select::from_table("t").limit(1))
        )
    );
    let nested = "a".in_selection(Select::from_table("t").inner_join("u", "k".is_null()));
    assert_eq!(nested.clone(), nested);
    assert_eq!(Expression::from(Column::new("c")), Expression::Column(Column::new("c")));
    assert_eq!(Expression::from(Value::Null), Expression::Parameter(Value::Null));
}

#[test]
fn trees_own_their_operands() {
    let left = "a".equals(1i64);
    let right = "b".equals(2i64);
    assert_eq!(
        left.clone().and(right.clone()),
        ConditionTree::And(
            Box::new(ConditionTree::Single(left.clone())),
            Box::new(ConditionTree::Single(right.clone()))
        )
    );
    assert_eq!(
        ConditionTree::NoCondition.or(right.clone()),
        ConditionTree::Or(
            Box::new(ConditionTree::NoCondition),
            Box::new(ConditionTree::Single(right))
        )
    );
    assert_eq!(
        left.clone().not(),
        ConditionTree::Not(Box::new(ConditionTree::Single(left)))
    );
}

#[test]
fn tables_and_columns() {
    assert_eq!(Table::from("t"), Table { name: "t".into(), database: None, alias: None });
    assert_eq!(Table::from("t".to_string()), Table::new("t"));
    assert_eq!(
        Table::new("t").database("d").alias("a"),
        Table { name: "t".into(), database: Some("d".into()), alias: Some("a".into()) }
    );
    assert_eq!(Column::from("c"), Column { name: "c".into(), table: None, alias: None });
    assert_eq!(Column::from("c".to_string()), Column::new("c"));
    assert_eq!(
        Column::new("c").table("t").alias("a"),
        Column { name: "c".into(), table: Some("t".into()), alias: Some("a".into()) }
    );
}

#[test]
fn a_copy_holds_what_was_copied() {
    let inner = Select::from_table("m").so_that("a".equals(Value::bytes(vec![1, 2, 3])));
    let select = Select::from_table(Table::new("t").alias("x"))
        .column("c")
        .value(Value::bytes(vec![9]))
        .inner_join("u", "k".in_selection(inner))
        .left_join("v", "l".is_null())
        .so_that("w".equals("text").and("z".in_values(vec![Expression::from(1i64)])))
        .group_by("g")
        .having("h".between(1i64, 2i64))
        .order_by(quaint::ast::Order::descending("o"))
        .limit(3)
        .offset(4);
    let copy = select.clone();
    assert_eq!(copy, select);
    assert_eq!(copy.joins.len(), 2);
    assert_eq!(copy.joins[1], select.joins[1]);
    assert_eq!(copy.conditions, select.conditions);
    assert_eq!(copy.having, select.having);

    let bare = Select::from_table("t");
    let copy = bare.clone();
    assert_eq!(copy.joins, vec![]);
    assert_eq!(copy.conditions, None);
    assert_eq!(copy.having, None);

    assert_eq!(Value::bytes(vec![7, 8]).clone(), Value::Bytes(vec![7, 8]));
    assert_eq!(Value::text("a").clone(), Value::text("a"));
    assert_eq!(Value::Null.clone(), Value::Null);
    assert_eq!(Expression::raw("1").clone(), Expression::Raw("1".to_string()));
    assert_eq!(Column::new("c").alias("a").clone(), Column::new("c").alias("a"));
    assert_eq!(Table::new("t").database("d").clone(), Table::new("t").database("d"));
}
