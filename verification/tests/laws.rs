use quaint::ast::{Comparable, Conjunctive, Delete, Expression, Insert, Order, Query, Select, UnionAll, Update};
use quaint::visitor::{build, Dialect};

fn dialects() -> Vec<Dialect> {
    vec![Dialect::Mysql, Dialect::Postgres, Dialect::Sqlite, Dialect::Mssql]
}

fn samples() -> Vec<Query> {
    vec![
        Query::from(Delete::from_table("t")),
        Query::from(Delete::from_table("t").so_that("a".equals(1i64).and("b".equals("x")))),
        Query::from(
            Select::from_table("t")
                .value(1i64)
                .inner_join("u", "k".equals(2i64))
                .so_that("a".in_values(vec![Expression::from(3i64), Expression::from(4i64)]))
                .having("c".between(5i64, 6i64))
                .order_by(Order::by("a"))
                .limit(7)
                .offset(8),
        ),
        Query::from(Select::from_table("t").limit(1)),
        Query::from(Insert::single_into("t").value("a", 1i64).value("b", true)),
        Query::from(Update::table("t").set("a", 1i64).so_that("b".is_null())),
        Query::from(UnionAll::new(
            Select::from_table("a").so_that("x".equals(1i64)).limit(2),
            Select::from_table("b").offset(3),
        )),
        Query::from("SELECT 1"),
        Query::from(
            Select::from_table("a")
                .so_that(
                    "x".equals(1i64).and("id".in_selection(
                        Select::from_table("b")
                            .so_that("y".not_in_selection(Select::from_table("c").offset(2)))
                            .limit(3),
                    )),
                )
                .limit(4),
        ),
    ]
}

fn count(haystack: &str, needle: &str) -> usize {
    haystack.matches(needle).count()
}

#[test]
fn placeholders_and_parameters_align() {
    for q in samples() {
        for d in dialects() {
            let (sql, params) = build(q.clone(), d).unwrap();
            match d {
                Dialect::Mysql | Dialect::Sqlite => {
                    assert_eq!(count(&sql, "?"), params.len());
                }
                Dialect::Postgres => {
                    assert_eq!(count(&sql, "$"), params.len());
                    let mut from = 0;
                    for n in 1..=params.len() {
                        let at = sql[from..].find(&format!("${}", n)).unwrap();
                        from += at + 1;
                    }
                }
                Dialect::Mssql => {
                    assert_eq!(count(&sql, "@P"), params.len());
                    let mut from = 0;
                    for n in 1..=params.len() {
                        let at = sql[from..].find(&format!("@P{}", n)).unwrap();
                        from += at + 1;
                    }
                }
            }
        }
    }
}

#[test]
fn parameter_count_is_the_same_in_every_dialect() {
    let expected = vec![0, 2, 8, 1, 2, 1, 3, 0, 4];
    for (q, k) in samples().into_iter().zip(expected) {
        for d in dialects() {
            assert_eq!(build(q.clone(), d).unwrap().1.len(), k);
        }
    }
}

#[test]
fn building_twice_gives_the_same_output() {
    for q in samples() {
        for d in dialects() {
            let first = build(q.clone(), d).unwrap();
            let second = build(q.clone(), d).unwrap();
            assert_eq!(first.0.as_bytes(), second.0.as_bytes());
            assert_eq!(first.1, second.1);
        }
    }
}

#[test]
fn dialects_that_lay_out_alike_bind_alike() {
    for q in samples() {
        let mysql = build(q.clone(), Dialect::Mysql).unwrap();
        let sqlite = build(q.clone(), Dialect::Sqlite).unwrap();
        let postgres = build(q.clone(), Dialect::Postgres).unwrap();
        assert_eq!(mysql.1, sqlite.1);
        assert_eq!(mysql.1, postgres.1);
    }
    let q = Query::from(Delete::from_table("t").so_that("a".equals(1i64)));
    let mssql = build(q.clone(), Dialect::Mssql).unwrap();
    let mysql = build(q, Dialect::Mysql).unwrap();
    assert_eq!(mssql.1, mysql.1);
    assert_ne!(mssql.0, mysql.0);
}

#[test]
fn no_conditions_no_where() {
    let bare = vec![
        Query::from(Delete::from_table("t")),
        Query::from(Select::from_table("t").inner_join("u", "k".equals(2i64)).having("c".is_null())),
        Query::from(Update::table("t").set("a", 1i64)),
        Query::from(Insert::single_into("t").value("a", 1i64)),
        Query::from(UnionAll::new(Select::from_table("a"), Select::from_table("b"))),
    ];
    for q in bare {
        for d in dialects() {
            let (sql, _) = build(q.clone(), d).unwrap();
            assert_eq!(count(&sql, "WHERE"), 0);
        }
    }
    for d in dialects() {
        let q = Query::from(Delete::from_table("t").so_that("a".is_null()));
        assert_eq!(count(&build(q, d).unwrap().0, " WHERE "), 1);
        let inner = Select::from_table("u").so_that("b".is_null());
        let q = Query::from(Select::from_table("t").having("a".in_selection(inner)));
        assert_eq!(count(&build(q, d).unwrap().0, " WHERE "), 1);
    }
}

#[test]
fn a_statement_is_of_one_kind() {
    for q in samples() {
        let kinds = [q.is_select(), q.is_insert(), q.is_update(), q.is_delete(), q.is_union_all()];
        let holding = kinds.iter().filter(|b| **b).count();
        if let Query::Raw(_) = q {
            assert_eq!(holding, 0);
        } else {
            assert_eq!(holding, 1);
        }
    }
}
