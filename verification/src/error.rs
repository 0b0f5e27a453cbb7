//! The errors the library reports.

use vstd::prelude::*;
use crate::value::Timestamp;

verus! {

/// The calendar fields of a date and time of day, as a driver hands them over.
#[derive(Debug, Clone, Copy, PartialEq, Eq)]
pub struct CivilTime {
    pub year: u16,
    pub month: u8,
    pub day: u8,
    pub hour: u8,
    pub minute: u8,
    pub second: u8,
}

/// The scalar kinds a caller can ask a result cell to be read as.
#[derive(Debug, Clone, Copy, PartialEq, Eq)]
pub enum Expected {
    Integer,
    Real,
    Text,
    Boolean,
    DateTime,
    Bytes,
}

#[derive(Debug, Clone, PartialEq, Eq)]
pub enum Error {
    /// A statement was handed to the generator before it was complete.
    IncompleteStatement,
    /// The backend rejected a statement; carries its message.
    QueryError(String),
    /// A result row has no column of this name.
    ColumnNotFound(String),
    /// A result row has no cell at this position.
    ResultIndexOutOfBounds(usize),
    /// A cell does not hold the kind of value it was asked for.
    ResultTypeMismatch(Expected),
    /// A driver value of text kind is not valid UTF-8; carries its bytes.
    InvalidUtf8(Vec<u8>),
    /// An unsigned driver value is above the largest integer a value can
    /// hold; carries the number.
    IntegerOutOfRange(u64),
    /// A driver value names a day or a time of day that does not exist.
    InvalidDateTime(CivilTime),
    /// An instant is outside what a driver's date can hold; carries the
    /// instant.
    TimestampOutOfRange(Timestamp),
    /// A connection string is not a well-formed URL.
    InvalidConnectionUrl,
}

} // verus!
