use quaint::error::{Error, Expected};
use quaint::row::{ColumnNames, NamedRow, ResultRow, ResultSet};
use quaint::value::{Real, Timestamp, Value};

fn names(list: &[&str]) -> ColumnNames {
    ColumnNames::new(list.iter().map(|s| s.to_string()).collect())
}

fn sample() -> ResultSet {
    let columns = names(&["id", "name", "Name", "salary", "id", "born", "ok", "blob"]);
    let mut set = ResultSet::new(columns, vec![]);
    set.push(ResultRow::new(vec![
        Value::integer(1),
        Value::text("Joe"),
        Value::text("JOE"),
        Value::double(Real::from_bits(20000.0f64.to_bits())),
        Value::integer(99),
        Value::date_time(Timestamp::from_seconds(86400)),
        Value::boolean(true),
        Value::bytes(vec![1, 2, 3]),
    ]));
    set.push(ResultRow::new(vec![Value::integer(2), Value::null()]));
    set
}

#[test]
fn lookup_is_by_exact_name() {
    let set = sample();
    let row = set.row(0).unwrap();
    assert_eq!(row.get("name"), Ok(&Value::text("Joe")));
    assert_eq!(row.get("Name"), Ok(&Value::text("JOE")));
    assert_eq!(row.get("NAME"), Err(Error::ColumnNotFound("NAME".to_string())));
    assert_eq!(row.get(""), Err(Error::ColumnNotFound(String::new())));
}

#[test]
fn the_first_of_two_columns_of_a_name_is_read() {
    let set = sample();
    let row = set.row(0).unwrap();
    assert_eq!(row.get_as_integer("id"), Ok(1));
    assert_eq!(set.columns.position("id"), Some(0));
    assert_eq!(set.columns.position("salary"), Some(3));
    assert_eq!(set.columns.position("wage"), None);
}

#[test]
fn typed_reads() {
    let set = sample();
    let row = set.row(0).unwrap();
    assert_eq!(row.get_as_integer("id"), Ok(1));
    assert_eq!(row.get_as_string("name"), Ok("Joe"));
    assert_eq!(row.get_as_real("salary").map(|r| f64::from_bits(r.to_bits())), Ok(20000.0));
    assert_eq!(row.get_as_bool("ok"), Ok(true));
    assert_eq!(row.get_as_bytes("blob"), Ok(&vec![1u8, 2, 3]));
    assert_eq!(row.get_as_datetime("born"), Ok(Timestamp { seconds: 86400, nanos: 0 }));
}

#[test]
fn a_cell_of_another_kind_is_a_mismatch() {
    let set = sample();
    let row = set.row(0).unwrap();
    assert_eq!(row.get_as_integer("name"), Err(Error::ResultTypeMismatch(Expected::Integer)));
    assert_eq!(row.get_as_string("id"), Err(Error::ResultTypeMismatch(Expected::Text)));
    assert_eq!(row.get_as_real("id"), Err(Error::ResultTypeMismatch(Expected::Real)));
    assert_eq!(row.get_as_bool("id"), Err(Error::ResultTypeMismatch(Expected::Boolean)));
    assert_eq!(row.get_as_bytes("name"), Err(Error::ResultTypeMismatch(Expected::Bytes)));
    assert_eq!(row.get_as_datetime("id"), Err(Error::ResultTypeMismatch(Expected::DateTime)));
    let second = set.row(1).unwrap();
    assert_eq!(second.get_as_string("name"), Err(Error::ResultTypeMismatch(Expected::Text)));
}

#[test]
fn a_missing_column_or_cell_is_reported() {
    let set = sample();
    let row = set.row(1).unwrap();
    assert_eq!(row.get_as_integer("wage"), Err(Error::ColumnNotFound("wage".to_string())));
    assert_eq!(row.get("salary"), Err(Error::ResultIndexOutOfBounds(3)));
    assert_eq!(row.get_as_real("salary"), Err(Error::ResultIndexOutOfBounds(3)));
}

#[test]
fn rows_are_kept_in_order() {
    let set = sample();
    assert_eq!(set.len(), 2);
    assert!(!set.is_empty());
    assert!(set.row(2).is_none());
    assert_eq!(set.row(1).unwrap().get_as_integer("id"), Ok(2));
    let empty = ResultSet::new(names(&["a"]), vec![]);
    assert!(empty.is_empty());
    assert_eq!(empty.len(), 0);
    assert!(empty.row(0).is_none());
    let loose = NamedRow { columns: &set.columns, row: &set.rows[0] };
    assert_eq!(loose.get_as_integer("id"), Ok(1));
}
