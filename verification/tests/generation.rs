use quaint::ast::{
    Column, Comparable, ConditionTree, Conjunctive, Delete, Expression, Insert, Order, Query,
    Select, Table, UnionAll, Update,
};
use quaint::error::Error;
use quaint::value::Value;
use quaint::visitor::{build, Dialect};

fn all_dialects() -> Vec<Dialect> {
    vec![Dialect::Mysql, Dialect::Postgres, Dialect::Sqlite, Dialect::Mssql]
}

fn sample_select() -> Select {
    Select::from_table("users")
        .column("id")
        .so_that("age".greater_than(18i64))
        .group_by("country")
        .having("total".greater_than_or_equals(2i64))
        .order_by(Order::descending("age"))
        .limit(10)
        .offset(5)
}

#[test]
fn delete_without_conditions_in_each_dialect() {
    let sqlite = build(Query::from(Delete::from_table("users")), Dialect::Sqlite).unwrap();
    assert_eq!(sqlite.0, "DELETE FROM `users`");
    assert_eq!(sqlite.1, vec![]);
    let mysql = build(Query::from(Delete::from_table("users")), Dialect::Mysql).unwrap();
    assert_eq!(mysql.0, "DELETE FROM `users`");
    let postgres = build(Query::from(Delete::from_table("users")), Dialect::Postgres).unwrap();
    assert_eq!(postgres.0, "DELETE FROM \"users\"");
    let mssql = build(Query::from(Delete::from_table("users")), Dialect::Mssql).unwrap();
    assert_eq!(mssql.0, "DELETE FROM [users]");
}

#[test]
fn delete_with_a_condition_binds_its_value() {
    let query = Delete::from_table("users").so_that(Column::new("bar").equals(false));
    let (sql, params) = build(Query::from(query), Dialect::Sqlite).unwrap();
    assert_eq!(sql, "DELETE FROM `users` WHERE `bar` = ?");
    assert_eq!(params, vec![Value::boolean(false)]);

    let query = Delete::from_table("users").so_that("bar".equals(false));
    let (sql, params) = build(Query::from(query), Dialect::Postgres).unwrap();
    assert_eq!(sql, "DELETE FROM \"users\" WHERE \"bar\" = $1");
    assert_eq!(params, vec![Value::boolean(false)]);
}

#[test]
fn and_keeps_both_sides_in_order() {
    let tree = "word".equals("meow").and("age".less_than(10i64));
    let query = Select::from_table("naukio").so_that(tree);
    let (sql, params) = build(Query::from(query), Dialect::Mysql).unwrap();
    assert_eq!(sql, "SELECT * FROM `naukio` WHERE (`word` = ? AND `age` < ?)");
    assert_eq!(params, vec![Value::text("meow"), Value::integer(10)]);
}

#[test]
fn nested_trees_keep_their_parentheses() {
    let tree = "a".equals(1i64).or("b".equals(2i64)).and("c".not_equals(3i64)).not();
    let query = Delete::from_table("t").so_that(tree);
    let (sql, params) = build(Query::from(query), Dialect::Postgres).unwrap();
    assert_eq!(
        sql,
        "DELETE FROM \"t\" WHERE (NOT ((\"a\" = $1 OR \"b\" = $2) AND \"c\" <> $3))"
    );
    assert_eq!(params, vec![Value::integer(1), Value::integer(2), Value::integer(3)]);
}

#[test]
fn the_same_value_bound_twice_is_two_parameters() {
    let tree = "col1".equals(7i64).and("col2".equals(7i64));
    let query = Delete::from_table("t").so_that(tree);
    let (sql, params) = build(Query::from(query), Dialect::Mssql).unwrap();
    assert_eq!(sql, "DELETE FROM [t] WHERE ([col1] = @P1 AND [col2] = @P2)");
    assert_eq!(params, vec![Value::integer(7), Value::integer(7)]);

    let query = Delete::from_table("t")
        .so_that("col1".equals(7i64).and("col2".equals(7i64)));
    let (sql, params) = build(Query::from(query), Dialect::Mysql).unwrap();
    assert_eq!(sql, "DELETE FROM `t` WHERE (`col1` = ? AND `col2` = ?)");
    assert_eq!(sql.matches('?').count(), 2);
    assert_eq!(params.len(), 2);
    assert_eq!(params[0], params[1]);
}

#[test]
fn select_writes_its_clauses_in_order() {
    let (sql, params) = build(Query::from(sample_select()), Dialect::Mysql).unwrap();
    assert_eq!(
        sql,
        "SELECT `id` FROM `users` WHERE `age` > ? GROUP BY `country` HAVING `total` >= ? \
         ORDER BY `age` DESC LIMIT ? OFFSET ?"
    );
    assert_eq!(
        params,
        vec![Value::integer(18), Value::integer(2), Value::integer(10), Value::integer(5)]
    );

    let (sql, params) = build(Query::from(sample_select()), Dialect::Postgres).unwrap();
    assert_eq!(
        sql,
        "SELECT \"id\" FROM \"users\" WHERE \"age\" > $1 GROUP BY \"country\" \
         HAVING \"total\" >= $2 ORDER BY \"age\" DESC LIMIT $3 OFFSET $4"
    );
    assert_eq!(
        params,
        vec![Value::integer(18), Value::integer(2), Value::integer(10), Value::integer(5)]
    );
}

#[test]
fn tsql_writes_offset_before_fetch() {
    let (sql, params) = build(Query::from(sample_select()), Dialect::Mssql).unwrap();
    assert_eq!(
        sql,
        "SELECT [id] FROM [users] WHERE [age] > @P1 GROUP BY [country] HAVING [total] >= @P2 \
         ORDER BY [age] DESC OFFSET @P3 ROWS FETCH NEXT @P4 ROWS ONLY"
    );
    assert_eq!(
        params,
        vec![Value::integer(18), Value::integer(2), Value::integer(5), Value::integer(10)]
    );

    let (sql, params) =
        build(Query::from(Select::from_table("t").limit(3)), Dialect::Mssql).unwrap();
    assert_eq!(sql, "SELECT * FROM [t] ORDER BY 1 OFFSET 0 ROWS FETCH NEXT @P1 ROWS ONLY");
    assert_eq!(params, vec![Value::integer(3)]);

    let (sql, params) =
        build(Query::from(Select::from_table("t").offset(4)), Dialect::Mssql).unwrap();
    assert_eq!(sql, "SELECT * FROM [t] ORDER BY 1 OFFSET @P1 ROWS");
    assert_eq!(params, vec![Value::integer(4)]);
}

#[test]
fn offset_without_limit_in_each_dialect() {
    let q = || Query::from(Select::from_table("t").offset(4));
    assert_eq!(
        build(q(), Dialect::Mysql).unwrap().0,
        "SELECT * FROM `t` LIMIT 18446744073709551615 OFFSET ?"
    );
    assert_eq!(build(q(), Dialect::Sqlite).unwrap().0, "SELECT * FROM `t` LIMIT -1 OFFSET ?");
    assert_eq!(build(q(), Dialect::Postgres).unwrap().0, "SELECT * FROM \"t\" OFFSET $1");
    for d in all_dialects() {
        assert_eq!(build(q(), d).unwrap().1, vec![Value::integer(4)]);
    }
}

#[test]
fn limit_without_offset() {
    let q = || Query::from(Select::from_table("t").limit(7));
    assert_eq!(build(q(), Dialect::Mysql).unwrap().0, "SELECT * FROM `t` LIMIT ?");
    assert_eq!(build(q(), Dialect::Postgres).unwrap().0, "SELECT * FROM \"t\" LIMIT $1");
    assert_eq!(build(q(), Dialect::Postgres).unwrap().1, vec![Value::integer(7)]);
}

#[test]
fn joins_come_between_table_and_where() {
    let on = Column::new("user_id").table("posts").equals(Column::new("id").table("users"));
    let query = Select::from_table("users")
        .column(Column::new("title").table("posts").alias("t"))
        .inner_join("posts", on)
        .left_join(Table::new("tags").alias("g"), "kind".equals(1i64))
        .so_that("age".less_than_or_equals(30i64))
        .order_by(Order::by("id"))
        .order_by(Order::ascending("age"));
    let (sql, params) = build(Query::from(query), Dialect::Sqlite).unwrap();
    assert_eq!(
        sql,
        "SELECT `posts`.`title` AS `t` FROM `users` \
         INNER JOIN `posts` ON `posts`.`user_id` = `users`.`id` \
         LEFT JOIN `tags` AS `g` ON `kind` = ? WHERE `age` <= ? ORDER BY `id`, `age` ASC"
    );
    assert_eq!(params, vec![Value::integer(1), Value::integer(30)]);
}

#[test]
fn selected_values_are_bound_first() {
    let query = Select::from_table("t")
        .value(5i64)
        .value(Expression::raw("COUNT(*)"))
        .value(Expression::asterisk())
        .so_that("x".equals(6i64));
    let (sql, params) = build(Query::from(query), Dialect::Postgres).unwrap();
    assert_eq!(sql, "SELECT $1, COUNT(*), * FROM \"t\" WHERE \"x\" = $2");
    assert_eq!(params, vec![Value::integer(5), Value::integer(6)]);
}

#[test]
fn insert_names_columns_then_values() {
    let query = Insert::single_into("users").value("name", "Joe").value("age", 27i64);
    let (sql, params) = build(Query::from(query), Dialect::Mysql).unwrap();
    assert_eq!(sql, "INSERT INTO `users` (`name`, `age`) VALUES (?, ?)");
    assert_eq!(params, vec![Value::text("Joe"), Value::integer(27)]);

    let query = Insert::single_into("users").value("name", "Joe").value("age", 27i64);
    let (sql, _) = build(Query::from(query), Dialect::Mssql).unwrap();
    assert_eq!(sql, "INSERT INTO [users] ([name], [age]) VALUES (@P1, @P2)");
}

#[test]
fn insert_of_defaults() {
    let q = || Query::from(Insert::single_into("users"));
    assert_eq!(build(q(), Dialect::Mysql).unwrap().0, "INSERT INTO `users` () VALUES ()");
    assert_eq!(build(q(), Dialect::Sqlite).unwrap().0, "INSERT INTO `users` DEFAULT VALUES");
    assert_eq!(build(q(), Dialect::Postgres).unwrap().0, "INSERT INTO \"users\" DEFAULT VALUES");
    assert_eq!(build(q(), Dialect::Mssql).unwrap().0, "INSERT INTO [users] DEFAULT VALUES");
    assert_eq!(build(q(), Dialect::Mssql).unwrap().1, vec![]);
}

#[test]
fn update_sets_then_restricts() {
    let query =
        Update::table("users").set("name", "Joe").set("age", 28i64).so_that("id".equals(1i64));
    let (sql, params) = build(Query::from(query), Dialect::Postgres).unwrap();
    assert_eq!(sql, "UPDATE \"users\" SET \"name\" = $1, \"age\" = $2 WHERE \"id\" = $3");
    assert_eq!(params, vec![Value::text("Joe"), Value::integer(28), Value::integer(1)]);

    let query = Update::table("users").set("flag", true);
    let (sql, params) = build(Query::from(query), Dialect::Sqlite).unwrap();
    assert_eq!(sql, "UPDATE `users` SET `flag` = ?");
    assert_eq!(params, vec![Value::boolean(true)]);
}

#[test]
fn union_numbers_placeholders_across_branches() {
    let union = UnionAll::new(
        Select::from_table("a").so_that("x".equals(1i64)),
        Select::from_table("b").so_that("y".equals(2i64)),
    )
    .all(Select::from_table("c").limit(3));
    let (sql, params) = build(Query::from(union), Dialect::Postgres).unwrap();
    assert_eq!(
        sql,
        "(SELECT * FROM \"a\" WHERE \"x\" = $1) UNION ALL (SELECT * FROM \"b\" WHERE \"y\" = $2) \
         UNION ALL (SELECT * FROM \"c\" LIMIT $3)"
    );
    assert_eq!(params, vec![Value::integer(1), Value::integer(2), Value::integer(3)]);
}

#[test]
fn raw_text_passes_through() {
    for d in all_dialects() {
        let (sql, params) = build(Query::from("SELECT 1 WHERE ? = `x`"), d).unwrap();
        assert_eq!(sql, "SELECT 1 WHERE ? = `x`");
        assert_eq!(params, vec![]);
    }
    let (sql, _) = build(Query::from(String::from("VACUUM")), Dialect::Sqlite).unwrap();
    assert_eq!(sql, "VACUUM");
}

#[test]
fn names_cannot_close_their_own_quotes() {
    let (sql, _) = build(Query::from(Delete::from_table("we`ird")), Dialect::Mysql).unwrap();
    assert_eq!(sql, "DELETE FROM `we``ird`");
    let (sql, _) = build(Query::from(Delete::from_table("a\"b")), Dialect::Postgres).unwrap();
    assert_eq!(sql, "DELETE FROM \"a\"\"b\"");
    let (sql, _) = build(Query::from(Delete::from_table("a]b[c")), Dialect::Mssql).unwrap();
    assert_eq!(sql, "DELETE FROM [a]]b[c]");
    let (sql, _) = build(Query::from(Delete::from_table("a\"b")), Dialect::Sqlite).unwrap();
    assert_eq!(sql, "DELETE FROM `a\"b`");
    assert_eq!(Dialect::Postgres.quote("x\"; DROP TABLE y; --"), "\"x\"\"; DROP TABLE y; --\"");
}

#[test]
fn qualified_and_aliased_names() {
    let table = Table::new("users").database("crm").alias("u");
    let (sql, _) = build(Query::from(Delete::from_table(table)), Dialect::Mysql).unwrap();
    assert_eq!(sql, "DELETE FROM `crm`.`users` AS `u`");
    let (sql, _) =
        build(Query::from(Delete::from_table(String::from("plain"))), Dialect::Mssql).unwrap();
    assert_eq!(sql, "DELETE FROM [plain]");
}

#[test]
fn membership_and_its_empty_lists() {
    let list = vec![Expression::from(1i64), Expression::from(2i64), Expression::from("x")];
    let query = Delete::from_table("t").so_that("id".in_values(list));
    let (sql, params) = build(Query::from(query), Dialect::Postgres).unwrap();
    assert_eq!(sql, "DELETE FROM \"t\" WHERE \"id\" IN ($1, $2, $3)");
    assert_eq!(params, vec![Value::integer(1), Value::integer(2), Value::text("x")]);

    let query = Delete::from_table("t").so_that("id".not_in_values(vec![Expression::from(9i64)]));
    let (sql, _) = build(Query::from(query), Dialect::Mysql).unwrap();
    assert_eq!(sql, "DELETE FROM `t` WHERE `id` NOT IN (?)");

    let empty_in = |d| {
        build(Query::from(Delete::from_table("t").so_that("id".in_values(vec![]))), d).unwrap()
    };
    assert_eq!(empty_in(Dialect::Mysql).0, "DELETE FROM `t` WHERE FALSE");
    assert_eq!(empty_in(Dialect::Postgres).0, "DELETE FROM \"t\" WHERE FALSE");
    assert_eq!(empty_in(Dialect::Sqlite).0, "DELETE FROM `t` WHERE 0");
    assert_eq!(empty_in(Dialect::Mssql).0, "DELETE FROM [t] WHERE 1=0");
    assert_eq!(empty_in(Dialect::Mssql).1, vec![]);

    let empty_not_in = |d| {
        build(Query::from(Delete::from_table("t").so_that("id".not_in_values(vec![]))), d)
            .unwrap()
    };
    assert_eq!(empty_not_in(Dialect::Mysql).0, "DELETE FROM `t` WHERE TRUE");
    assert_eq!(empty_not_in(Dialect::Sqlite).0, "DELETE FROM `t` WHERE 1");
    assert_eq!(empty_not_in(Dialect::Mssql).0, "DELETE FROM [t] WHERE 1=1");
}

#[test]
fn an_operand_dropped_with_its_empty_list_is_not_bound() {
    let left = Expression::from(5i64);
    let query = Delete::from_table("t").so_that(left.in_values(vec![]));
    let (sql, params) = build(Query::from(query), Dialect::Postgres).unwrap();
    assert_eq!(sql, "DELETE FROM \"t\" WHERE FALSE");
    assert_eq!(params, vec![]);
}

#[test]
fn the_other_comparisons() {
    let one = |c: quaint::ast::Compare| {
        build(Query::from(Delete::from_table("t").so_that(c)), Dialect::Mysql).unwrap()
    };
    assert_eq!(one("x".is_null()).0, "DELETE FROM `t` WHERE `x` IS NULL");
    assert_eq!(one("x".is_not_null()).0, "DELETE FROM `t` WHERE `x` IS NOT NULL");
    assert_eq!(one("x".greater_than(1i64)).0, "DELETE FROM `t` WHERE `x` > ?");
    assert_eq!(one("x".like("%a%")).0, "DELETE FROM `t` WHERE `x` LIKE ?");
    assert_eq!(one("x".like("%a%")).1, vec![Value::text("%a%")]);
    assert_eq!(one("x".not_like("b")).0, "DELETE FROM `t` WHERE `x` NOT LIKE ?");
    let between = one("x".between(1i64, 9i64));
    assert_eq!(between.0, "DELETE FROM `t` WHERE `x` BETWEEN ? AND ?");
    assert_eq!(between.1, vec![Value::integer(1), Value::integer(9)]);
    assert_eq!(one("x".not_between(1i64, 9i64)).0, "DELETE FROM `t` WHERE `x` NOT BETWEEN ? AND ?");
    let raw = one(Expression::raw("LOWER(`x`)").equals("a"));
    assert_eq!(raw.0, "DELETE FROM `t` WHERE LOWER(`x`) = ?");
}

#[test]
fn constant_conditions_are_written_as_the_dialect_writes_them() {
    let always = |d| {
        build(Query::from(Delete::from_table("t").so_that(ConditionTree::NoCondition)), d).unwrap()
    };
    assert_eq!(always(Dialect::Mysql).0, "DELETE FROM `t` WHERE TRUE");
    assert_eq!(always(Dialect::Mssql).0, "DELETE FROM [t] WHERE 1=1");
    let never = |d| {
        build(Query::from(Delete::from_table("t").so_that(ConditionTree::NegativeCondition)), d)
            .unwrap()
    };
    assert_eq!(never(Dialect::Postgres).0, "DELETE FROM \"t\" WHERE FALSE");
    assert_eq!(never(Dialect::Sqlite).0, "DELETE FROM `t` WHERE 0");
}

#[test]
fn placeholders_count_past_nine() {
    let mut list = Vec::new();
    for i in 0..12i64 {
        list.push(Expression::from(i));
    }
    let query = Delete::from_table("t").so_that("id".in_values(list));
    let (sql, params) = build(Query::from(query), Dialect::Postgres).unwrap();
    assert_eq!(
        sql,
        "DELETE FROM \"t\" WHERE \"id\" IN ($1, $2, $3, $4, $5, $6, $7, $8, $9, $10, $11, $12)"
    );
    assert_eq!(params.len(), 12);
    assert_eq!(Dialect::Postgres.placeholder(10), "$10");
    assert_eq!(Dialect::Mssql.placeholder(120), "@P120");
    assert_eq!(Dialect::Mysql.placeholder(7), "?");
    assert_eq!(Dialect::Sqlite.placeholder(1), "?");
    assert_eq!(Dialect::Postgres.placeholder(0), "$0");
}

#[test]
fn incomplete_statements_are_refused() {
    for d in all_dialects() {
        assert_eq!(build(Query::from(Update::table("t")), d), Err(Error::IncompleteStatement));
        assert_eq!(build(Query::from(Delete::from_table("")), d), Err(Error::IncompleteStatement));
        assert_eq!(build(Query::from(""), d), Err(Error::IncompleteStatement));
        assert_eq!(
            build(Query::from(UnionAll { selects: vec![] }), d),
            Err(Error::IncompleteStatement)
        );
        assert_eq!(
            build(Query::from(Select::from_table("t").inner_join("", "a".equals(1i64))), d),
            Err(Error::IncompleteStatement)
        );
        assert_eq!(
            build(Query::from(Insert::single_into("").value("a", 1i64)), d),
            Err(Error::IncompleteStatement)
        );
    }
    assert!(Query::from(Update::table("t").set("a", 1i64)).is_complete());
    assert!(!Query::from(Update::table("t")).is_complete());
}

#[test]
fn every_kind_of_value_can_be_bound() {
    let values = vec![
        Value::null(),
        Value::integer(-3),
        Value::double(quaint::value::Real::from_bits(2.5f64.to_bits())),
        Value::text("t"),
        Value::boolean(true),
        Value::date_time(quaint::value::Timestamp::from_seconds(0)),
        Value::bytes(vec![0u8, 255u8]),
    ];
    for d in all_dialects() {
        let list: Vec<Expression> = values.iter().cloned().map(Expression::from).collect();
        let query = Delete::from_table("t").so_that("x".in_values(list));
        let (_, params) = build(Query::from(query), d).unwrap();
        assert_eq!(params, values);
    }
}

#[test]
fn statement_kinds() {
    let select = Query::from(Select::from_table("t"));
    let insert = Query::from(Insert::single_into("t"));
    let update = Query::from(Update::table("t"));
    let delete = Query::from(Delete::from_table("t"));
    let union = Query::from(UnionAll::new(Select::from_table("a"), Select::from_table("b")));
    let raw = Query::from("SELECT 1");
    let flags = |q: &Query| {
        vec![q.is_select(), q.is_insert(), q.is_update(), q.is_delete(), q.is_union_all()]
    };
    assert_eq!(flags(&select), vec![true, false, false, false, false]);
    assert_eq!(flags(&insert), vec![false, true, false, false, false]);
    assert_eq!(flags(&update), vec![false, false, true, false, false]);
    assert_eq!(flags(&delete), vec![false, false, false, true, false]);
    assert_eq!(flags(&union), vec![false, false, false, false, true]);
    assert_eq!(flags(&raw), vec![false, false, false, false, false]);
}

#[test]
fn builders_hand_back_what_they_were_given() {
    let delete = Delete::from_table("users");
    assert_eq!(delete.table, Table::new("users"));
    assert_eq!(delete.conditions, None);
    assert_eq!(delete.named_selection(), Vec::<String>::new());
    let restricted = delete.clone().so_that("a".equals(1i64)).so_that("b".equals(2i64));
    assert_eq!(restricted.table, delete.table);
    assert_eq!(restricted.conditions, Some(ConditionTree::from("b".equals(2i64))));
    assert_eq!(Query::from(delete.clone()), Query::Delete(Box::new(delete)));
    let tree = "a".equals(1i64).and("b".equals(2i64));
    assert_eq!(tree.clone(), tree);
}

#[test]
fn a_nested_select_is_numbered_in_place() {
    let inner = Select::from_table("posts")
        .column("user_id")
        .so_that("likes".greater_than(10i64))
        .limit(5);
    let tree = "age".greater_than(18i64).and("id".in_selection(inner)).and("n".equals(7i64));
    let query = Select::from_table("users").so_that(tree);
    let (sql, params) = build(Query::from(query), Dialect::Postgres).unwrap();
    assert_eq!(
        sql,
        "SELECT * FROM \"users\" WHERE ((\"age\" > $1 AND \"id\" IN (SELECT \"user_id\" \
         FROM \"posts\" WHERE \"likes\" > $2 LIMIT $3)) AND \"n\" = $4)"
    );
    assert_eq!(
        params,
        vec![Value::integer(18), Value::integer(10), Value::integer(5), Value::integer(7)]
    );
}

#[test]
fn selects_nest_to_any_depth() {
    let innermost = Select::from_table("c").column("id").so_that("z".equals(3i64));
    let middle = Select::from_table("b")
        .column("id")
        .so_that("y".equals(2i64).and("c_id".not_in_selection(innermost)));
    let query = Delete::from_table("a")
        .so_that("x".equals(1i64).or("b_id".in_selection(middle)).and("w".equals(4i64)));
    let (sql, params) = build(Query::from(query), Dialect::Mssql).unwrap();
    assert_eq!(
        sql,
        "DELETE FROM [a] WHERE (([x] = @P1 OR [b_id] IN (SELECT [id] FROM [b] WHERE \
         ([y] = @P2 AND [c_id] NOT IN (SELECT [id] FROM [c] WHERE [z] = @P3)))) AND [w] = @P4)"
    );
    assert_eq!(
        params,
        vec![Value::integer(1), Value::integer(2), Value::integer(3), Value::integer(4)]
    );
}

#[test]
fn a_nested_select_is_laid_out_in_the_dialect() {
    let q = || {
        let inner = Select::from_table("b").column("id").limit(2).offset(1);
        Query::from(Update::table("a").set("f", true).so_that("id".in_selection(inner)))
    };
    let (sql, params) = build(q(), Dialect::Mssql).unwrap();
    assert_eq!(
        sql,
        "UPDATE [a] SET [f] = @P1 WHERE [id] IN (SELECT [id] FROM [b] ORDER BY 1 \
         OFFSET @P2 ROWS FETCH NEXT @P3 ROWS ONLY)"
    );
    assert_eq!(params, vec![Value::boolean(true), Value::integer(1), Value::integer(2)]);
    let (sql, params) = build(q(), Dialect::Sqlite).unwrap();
    assert_eq!(
        sql,
        "UPDATE `a` SET `f` = ? WHERE `id` IN (SELECT `id` FROM `b` LIMIT ? OFFSET ?)"
    );
    assert_eq!(params, vec![Value::boolean(true), Value::integer(2), Value::integer(1)]);
}

#[test]
fn a_nested_select_in_a_join_or_a_having() {
    let on = "k".in_selection(Select::from_table("m").so_that("a".equals(1i64)));
    let having = "c".not_in_selection(Select::from_table("n").so_that("b".equals(3i64)));
    let query = Select::from_table("t")
        .left_join("u", on)
        .so_that("w".equals(2i64))
        .group_by("g")
        .having(having);
    let (sql, params) = build(Query::from(query), Dialect::Postgres).unwrap();
    assert_eq!(
        sql,
        "SELECT * FROM \"t\" LEFT JOIN \"u\" ON \"k\" IN (SELECT * FROM \"m\" WHERE \"a\" = $1) \
         WHERE \"w\" = $2 GROUP BY \"g\" HAVING \"c\" NOT IN (SELECT * FROM \"n\" WHERE \"b\" = $3)"
    );
    assert_eq!(params, vec![Value::integer(1), Value::integer(2), Value::integer(3)]);
}

#[test]
fn an_incomplete_nested_select_is_refused() {
    let bad = || Select::from_table("");
    let good = || Select::from_table("b");
    for d in all_dialects() {
        let q = Delete::from_table("a").so_that("id".in_selection(bad()));
        assert_eq!(build(Query::from(q), d), Err(Error::IncompleteStatement));
        let q = Delete::from_table("a")
            .so_that("x".equals(1i64).and("id".in_selection(good()).not().or("y".in_selection(bad()))));
        assert_eq!(build(Query::from(q), d), Err(Error::IncompleteStatement));
        let q = Update::table("a").set("x", 1i64).so_that("id".not_in_selection(bad()));
        assert_eq!(build(Query::from(q), d), Err(Error::IncompleteStatement));
        let q = Select::from_table("a").having("id".in_selection(bad()));
        assert_eq!(build(Query::from(q), d), Err(Error::IncompleteStatement));
        let q = Select::from_table("a").inner_join("j", "id".in_selection(bad()));
        assert_eq!(build(Query::from(q), d), Err(Error::IncompleteStatement));
        let nested = good().so_that("id".in_selection(bad()));
        let q = Select::from_table("a").so_that("id".in_selection(nested));
        assert_eq!(build(Query::from(q), d), Err(Error::IncompleteStatement));
        let q = Select::from_table("a").so_that("id".in_selection(good()));
        assert!(build(Query::from(q), d).is_ok());
    }
}

#[test]
fn names_are_written_character_by_character() {
    let (sql, params) = build(Query::from(Delete::from_table("žlutý kůň")), Dialect::Postgres).unwrap();
    assert_eq!(sql, "DELETE FROM \"žlutý kůň\"");
    assert_eq!(params, vec![]);
    let (sql, params) = build(Query::from(Delete::from_table("a?b")), Dialect::Mysql).unwrap();
    assert_eq!(sql, "DELETE FROM `a?b`");
    assert_eq!(params, vec![]);
    assert_eq!(Dialect::Mysql.quote(""), "``");
    assert_eq!(Dialect::Mssql.quote("]"), "[]]]");
    assert_eq!(Dialect::Sqlite.quote("``"), "``````");
}
