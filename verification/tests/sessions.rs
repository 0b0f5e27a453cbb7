use quaint::ast::{Comparable, Delete, Query, Update};
use quaint::error::Error;
use quaint::row::{ColumnNames, ResultSet};
use quaint::session::{conclude, generated_id, Connection, Id, TransactionEnd};
use quaint::value::Value;
use quaint::visitor::Dialect;

struct Recorder {
    dialect: Dialect,
    seen: Vec<(String, Vec<Value>)>,
}

impl Connection for Recorder {
    fn dialect(&self) -> Dialect {
        self.dialect
    }

    fn execute(&mut self, _query: Query) -> Result<Option<Id>, Error> {
        Ok(None)
    }

    fn query_raw(&mut self, sql: &str, params: &[Value]) -> Result<ResultSet, Error> {
        self.seen.push((sql.to_string(), params.to_vec()));
        Ok(ResultSet::new(ColumnNames::new(vec![]), vec![]))
    }
}

#[test]
fn a_query_reaches_the_session_as_text_and_parameters() {
    let mut session = Recorder { dialect: Dialect::Postgres, seen: vec![] };
    let query = Delete::from_table("users").so_that("bar".equals(false));
    let rows = session.query(Query::from(query)).unwrap();
    assert!(rows.is_empty());
    assert_eq!(
        session.seen,
        vec![(
            "DELETE FROM \"users\" WHERE \"bar\" = $1".to_string(),
            vec![Value::boolean(false)]
        )]
    );
}

#[test]
fn an_incomplete_query_does_not_reach_the_session() {
    let mut session = Recorder { dialect: Dialect::Mysql, seen: vec![] };
    assert_eq!(session.query(Query::from(Update::table("t"))), Err(Error::IncompleteStatement));
    assert!(session.seen.is_empty());
}

#[test]
fn a_unit_of_work_commits_only_on_success() {
    let ok: Result<u8, Error> = Ok(1);
    let failed: Result<u8, Error> = Err(Error::QueryError("boom".to_string()));
    assert_eq!(conclude(&ok), TransactionEnd::Commit);
    assert_eq!(conclude(&failed), TransactionEnd::Rollback);
}

#[test]
fn the_generated_id_is_reported_outside_transactions() {
    assert_eq!(generated_id(17, false), Some(Id::Int(17)));
    assert_eq!(generated_id(0, false), Some(Id::Int(0)));
    assert_eq!(generated_id(17, true), None);
}
