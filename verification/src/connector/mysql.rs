//! The MySQL connector's share of the library: what the driver's values
//! mean as values of the library, and how a statement's parameters are
//! handed to the driver.

use vstd::prelude::*;
use vstd::utf8::{encode_utf8, valid_utf8};
use crate::ast::query::Query;
use crate::connector::calendar::{
    epoch_of, has_field_out_of_range, is_on_the_calendar, seconds_since_epoch,
};
use crate::error::{CivilTime, Error};
use crate::row::{ColumnNames, ResultRow, ResultSet};
use crate::value::{Real, Timestamp, Value};
use crate::visitor::alignment::query_values;
use crate::visitor::dialect::Dialect;
use crate::visitor::generate::{build, sql_of};

verus! {

/// A value as the driver reports it, in plain form. A real number is held
/// by its double-precision bits, whatever precision the driver read it at.
#[derive(Debug, Clone, PartialEq)]
pub enum RawValue {
    Null,
    Bytes(Vec<u8>),
    Int(i64),
    UInt(u64),
    Real(Real),
    /// A calendar date and time of day, and the microseconds into its second.
    Date(CivilTime, u32),
}

/// The parameters of a prepared statement, as the driver takes them.
#[derive(Debug, Clone, PartialEq)]
pub enum DriverParams {
    /// The statement has no placeholders.
    Empty,
    /// One value for each placeholder, in order.
    Positional(Vec<Value>),
}

/// The error of `std::str::from_utf8`. Nothing is read from it.
#[verifier::external_type_specification]
#[verifier::external_body]
pub struct ExUtf8Error(core::str::Utf8Error);

/// `std::str::from_utf8`: the bytes are text exactly when they are valid
/// UTF-8, and the text is then those bytes.
#[verifier::external_body]
fn text_of_bytes(bytes: &[u8]) -> (r: Result<&str, core::str::Utf8Error>)
    ensures
        r is Ok <==> valid_utf8(bytes@),
        r matches Ok(s) ==> encode_utf8(s@) == bytes@,
{
    std::str::from_utf8(bytes)
}

/// The largest unsigned number that an integer value can hold.
pub const LARGEST_INTEGER: u64 = 0x7fff_ffff_ffff_ffff;

/// True when the driver's value can be read as a value of the library:
/// its bytes are text, its number is one that an integer can hold, its
/// date is a day of the calendar.
pub open spec fn is_readable(raw: RawValue) -> bool {
    match raw {
        RawValue::Bytes(b) => valid_utf8(b@),
        RawValue::UInt(u) => u <= LARGEST_INTEGER,
        RawValue::Date(at, _) => is_on_the_calendar(at),
        _ => true,
    }
}

/// True when `r` is what reading the driver's value gives. A value that
/// cannot be read gives the error of its kind, which holds the value.
pub open spec fn is_reading_of(raw: RawValue, r: Result<Value, Error>) -> bool {
    match raw {
        RawValue::Null => r == Ok::<Value, Error>(Value::Null),
        RawValue::Bytes(b) => if valid_utf8(b@) {
            r matches Ok(Value::Text(t)) && encode_utf8(t@) == b@
        } else {
            r == Err::<Value, Error>(Error::InvalidUtf8(b))
        },
        RawValue::Int(i) => r == Ok::<Value, Error>(Value::Integer(i)),
        RawValue::UInt(u) => if u <= LARGEST_INTEGER {
            r == Ok::<Value, Error>(Value::Integer(u as i64))
        } else {
            r == Err::<Value, Error>(Error::IntegerOutOfRange(u))
        },
        RawValue::Real(x) => r == Ok::<Value, Error>(Value::Real(x)),
        RawValue::Date(at, _) => r == read_date(at, epoch_of(at)),
    }
}

/// What a calendar date and time is read as, given its seconds since the
/// epoch: the instant of those seconds, or the report of a date that does
/// not exist. The part of a second is not carried over.
pub open spec fn read_date(at: CivilTime, seconds: Option<i64>) -> Result<Value, Error> {
    match seconds {
        Some(s) => Ok(Value::DateTime(Timestamp { seconds: s, nanos: 0 })),
        None => Err(Error::InvalidDateTime(at)),
    }
}

/// True when the value is a date with a field that no date can have.
pub open spec fn is_date_out_of_range(raw: RawValue) -> bool {
    raw matches RawValue::Date(at, _) && has_field_out_of_range(at)
}

/// A calendar date and time as a value, given its seconds since the epoch.
pub fn date_value(at: CivilTime, seconds: Option<i64>) -> (r: Result<Value, Error>)
    ensures
        r == read_date(at, seconds),
{
    match seconds {
        Some(s) => Ok(Value::DateTime(Timestamp { seconds: s, nanos: 0 })),
        None => Err(Error::InvalidDateTime(at)),
    }
}

/// Reads one value of the driver as a value of the library.
pub fn convert(raw: RawValue) -> (r: Result<Value, Error>)
    ensures
        is_reading_of(raw, r),
        r is Ok <==> is_readable(raw),
        is_date_out_of_range(raw) ==> r == Err::<Value, Error>(
            Error::InvalidDateTime(raw->Date_0),
        ),
{
    match raw {
        RawValue::Null => Ok(Value::Null),
        RawValue::Bytes(b) => {
            match text_of_bytes(b.as_slice()) {
                Ok(s) => Ok(Value::Text(s.to_owned())),
                Err(_) => Err(Error::InvalidUtf8(b)),
            }
        },
        RawValue::Int(i) => Ok(Value::Integer(i)),
        RawValue::UInt(u) => {
            if u <= LARGEST_INTEGER {
                Ok(Value::Integer(u as i64))
            } else {
                Err(Error::IntegerOutOfRange(u))
            }
        },
        RawValue::Real(x) => Ok(Value::Real(x)),
        RawValue::Date(at, _) => {
            let seconds = seconds_since_epoch(&at);
            date_value(at, seconds)
        },
    }
}

/// True when every value up to `n` can be read.
pub open spec fn all_readable(raw: Seq<RawValue>, n: int) -> bool {
    forall|j: int| 0 <= j < n ==> is_readable(#[trigger] raw[j])
}

/// True when some value is a date with a field that no date can have.
pub open spec fn holds_date_out_of_range(raw: Seq<RawValue>) -> bool {
    exists|i: int| 0 <= i < raw.len() && is_date_out_of_range(#[trigger] raw[i])
}

/// True when `r` is what reading a row of the driver gives: a row of as
/// many values, each the reading of the value at its place; or the error of
/// the first value that cannot be read.
pub open spec fn is_row_reading_of(raw: Seq<RawValue>, r: Result<ResultRow, Error>) -> bool {
    match r {
        Ok(row) => row.values@.len() == raw.len() && forall|i: int|
            #![trigger raw[i]]
            #![trigger row.values@[i]]
            0 <= i < raw.len() ==> is_reading_of(raw[i], Ok(row.values@[i])),
        Err(e) => exists|i: int|
            0 <= i < raw.len() && all_readable(raw, i) && !is_readable(#[trigger] raw[i])
                && is_reading_of(raw[i], Err(e)),
    }
}

/// Reads a row of the driver as a row of the library, cell by cell. The
/// row is read in full or not at all: the first cell that cannot be read
/// ends the reading with its error.
pub fn to_result_row(raw: Vec<RawValue>) -> (r: Result<ResultRow, Error>)
    ensures
        is_row_reading_of(raw@, r),
        r is Ok <==> all_readable(raw@, raw@.len() as int),
        holds_date_out_of_range(raw@) ==> r is Err,
{
    let ghost all = raw@;
    let mut values: Vec<Value> = Vec::new();
    for cell in it: raw
        invariant
            it.seq() == all,
            values@.len() == it.index(),
            all_readable(all, it.index()),
            forall|i: int| 0 <= i < it.index() ==> !is_date_out_of_range(#[trigger] all[i]),
            forall|i: int|
                #![trigger all[i]]
                #![trigger values@[i]]
                0 <= i < it.index() ==> is_reading_of(all[i], Ok(values@[i])),
    {
        match convert(cell) {
            Ok(v) => {
                values.push(v);
            },
            Err(e) => {
                assert(!is_readable(all[it.index()]));
                return Err(e);
            },
        }
    }
    Ok(ResultRow { values })
}

/// True when the row came from the driver whole and every value of it can
/// be read.
pub open spec fn is_readable_row(row: Result<Vec<RawValue>, Error>) -> bool {
    row matches Ok(raw) && all_readable(raw@, raw@.len() as int)
}

/// True when every row up to `n` can be read.
pub open spec fn all_rows_readable(rows: Seq<Result<Vec<RawValue>, Error>>, n: int) -> bool {
    forall|j: int| 0 <= j < n ==> is_readable_row(#[trigger] rows[j])
}

/// True when `e` is what a row that cannot be read fails with: the
/// driver's error, where the row did not come whole, and else the error of
/// its first value that cannot be read.
pub open spec fn is_failure_of(row: Result<Vec<RawValue>, Error>, e: Error) -> bool {
    match row {
        Ok(raw) => is_row_reading_of(raw@, Err(e)),
        Err(d) => e == d,
    }
}

/// True when `set` holds the reading of each row, at the row's place.
pub open spec fn are_rows_read(
    rows: Seq<Result<Vec<RawValue>, Error>>,
    read: Seq<ResultRow>,
    n: int,
) -> bool {
    forall|i: int|
        #![trigger rows[i]]
        #![trigger read[i]]
        0 <= i < n ==> (rows[i] matches Ok(raw) && is_row_reading_of(raw@, Ok(read[i])))
}

/// True when `r` is what reading the rows gives: a result of as many rows
/// in the same order under the given column names, or the failure of the
/// first row that cannot be read.
pub open spec fn is_set_reading_of(
    columns: Option<Vec<String>>,
    rows: Seq<Result<Vec<RawValue>, Error>>,
    r: Result<ResultSet, Error>,
) -> bool {
    match r {
        Ok(set) => {
            &&& match columns {
                Some(c) => set.columns.names == c,
                None => set.columns.names@ == Seq::<String>::empty(),
            }
            &&& set.rows@.len() == rows.len()
            &&& are_rows_read(rows, set.rows@, rows.len() as int)
        },
        Err(e) => exists|i: int|
            0 <= i < rows.len() && all_rows_readable(rows, i) && !is_readable_row(
                #[trigger] rows[i],
            ) && is_failure_of(rows[i], e),
    }
}

/// Reads what a statement handed back: the names of its columns and its
/// rows, in the order in which the driver gave them. The result is read in
/// full or not at all: the first row that the driver failed on, or that
/// holds a value that cannot be read, ends the reading with its error.
pub fn to_result_set(
    columns: Option<Vec<String>>,
    rows: Vec<Result<Vec<RawValue>, Error>>,
) -> (r: Result<ResultSet, Error>)
    ensures
        is_set_reading_of(columns, rows@, r),
        r is Ok <==> all_rows_readable(rows@, rows@.len() as int),
{
    let ghost all = rows@;
    let mut read: Vec<ResultRow> = Vec::new();
    for row in it: rows
        invariant
            it.seq() == all,
            read@.len() == it.index(),
            all_rows_readable(all, it.index()),
            are_rows_read(all, read@, it.index()),
    {
        match row {
            Ok(raw) => {
                match to_result_row(raw) {
                    Ok(values) => {
                        read.push(values);
                    },
                    Err(e) => {
                        assert(!is_readable_row(all[it.index()]));
                        assert(is_failure_of(all[it.index()], e));
                        return Err(e);
                    },
                }
            },
            Err(e) => {
                assert(!is_readable_row(all[it.index()]));
                assert(is_failure_of(all[it.index()], e));
                return Err(e);
            },
        }
    }
    Ok(ResultSet { columns: to_column_names(columns), rows: read })
}

/// The names of a statement's columns, in their order. A statement that
/// hands back no rows has no columns and so no names.
pub fn to_column_names(columns: Option<Vec<String>>) -> (names: ColumnNames)
    ensures
        match columns {
            Some(c) => names.names == c,
            None => names.names@ == Seq::<String>::empty(),
        },
{
    match columns {
        Some(c) => ColumnNames { names: c },
        None => ColumnNames { names: Vec::new() },
    }
}

/// The parameters in the form the driver takes them: positional when there
/// are any, and explicitly empty when there are none. The driver does not
/// take a positional list of nothing.
pub fn conv_params(params: Vec<Value>) -> (r: DriverParams)
    ensures
        params@.len() > 0 ==> r == DriverParams::Positional(params),
        params@.len() == 0 ==> r == DriverParams::Empty,
{
    if params.len() > 0 {
        DriverParams::Positional(params)
    } else {
        DriverParams::Empty
    }
}

/// The values that the parameters hold.
pub open spec fn values_of(params: DriverParams) -> Seq<Value> {
    match params {
        DriverParams::Empty => Seq::empty(),
        DriverParams::Positional(values) => values@,
    }
}

/// A statement ready for the driver: its text in MySQL's dialect and its
/// parameters in the driver's form.
pub fn prepare(query: Query) -> (r: Result<(String, DriverParams), Error>)
    ensures
        query.spec_is_complete() ==> (r matches Ok(out) && out.0@ == sql_of(
            query,
            Dialect::Mysql,
        ) && values_of(out.1) == query_values(query, Dialect::Mysql) && (out.1 is Empty
            <==> query_values(query, Dialect::Mysql).len() == 0)),
        !query.spec_is_complete() ==> r == Err::<(String, DriverParams), Error>(
            Error::IncompleteStatement,
        ),
{
    match build(query, Dialect::Mysql) {
        Ok((sql, params)) => Ok((sql, conv_params(params))),
        Err(e) => Err(e),
    }
}

} // verus!
