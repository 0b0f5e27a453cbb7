//! The scalar values that can be bound into a statement or read from a row.

use vstd::prelude::*;
use vstd::std_specs::convert::FromSpecImpl;

verus! {

/// A double-precision number, held by the 64 bits of its IEEE 754 encoding.
#[derive(Debug, Clone, Copy, PartialEq, Eq)]
pub struct Real {
    pub bits: u64,
}

impl Real {
    pub fn from_bits(bits: u64) -> (r: Real)
        ensures
            r.bits == bits,
    {
        Real { bits }
    }

    pub fn to_bits(&self) -> (bits: u64)
        ensures
            bits == self.bits,
    {
        self.bits
    }

    /// The bit that carries the sign.
    pub open spec fn sign_mask() -> u64 {
        0x8000_0000_0000_0000u64
    }

    /// The number of the same magnitude and opposite sign.
    pub open spec fn spec_negated(self) -> Real {
        Real { bits: self.bits ^ Self::sign_mask() }
    }

    pub fn negated(&self) -> (r: Real)
        ensures
            r == self.spec_negated(),
    {
        Real { bits: self.bits ^ 0x8000_0000_0000_0000u64 }
    }
}

/// An instant in UTC: whole seconds since the Unix epoch and the nanoseconds
/// into that second.
#[derive(Debug, Clone, Copy, PartialEq, Eq)]
pub struct Timestamp {
    pub seconds: i64,
    pub nanos: u32,
}

impl Timestamp {
    pub fn from_seconds(seconds: i64) -> (r: Timestamp)
        ensures
            r == (Timestamp { seconds, nanos: 0 }),
    {
        Timestamp { seconds, nanos: 0 }
    }
}

/// A scalar of one of a closed set of kinds. Nothing converts between kinds
/// here: a value is exactly what it was built as.
#[derive(Debug, PartialEq)]
pub enum Value {
    Null,
    Integer(i64),
    Real(Real),
    Text(String),
    Boolean(bool),
    DateTime(Timestamp),
    Bytes(Vec<u8>),
}

impl Clone for Value {
    /// A value of the same kind that holds the same.
    fn clone(&self) -> (v: Value)
        ensures
            v.is_copy_of(*self),
    {
        match self {
            Value::Null => Value::Null,
            Value::Integer(i) => Value::Integer(*i),
            Value::Real(r) => Value::Real(*r),
            Value::Text(s) => Value::Text(s.clone()),
            Value::Boolean(b) => Value::Boolean(*b),
            Value::DateTime(t) => Value::DateTime(*t),
            Value::Bytes(b) => Value::Bytes(b.clone()),
        }
    }
}

impl Value {
    pub fn null() -> (v: Value)
        ensures
            v == Value::Null,
    {
        Value::Null
    }

    pub fn integer(i: i64) -> (v: Value)
        ensures
            v == Value::Integer(i),
    {
        Value::Integer(i)
    }

    pub fn double(r: Real) -> (v: Value)
        ensures
            v == Value::Real(r),
    {
        Value::Real(r)
    }

    pub fn text(s: &str) -> (v: Value)
        ensures
            v matches Value::Text(t) && t@ == s@,
    {
        Value::Text(s.to_owned())
    }

    pub fn boolean(b: bool) -> (v: Value)
        ensures
            v == Value::Boolean(b),
    {
        Value::Boolean(b)
    }

    pub fn date_time(t: Timestamp) -> (v: Value)
        ensures
            v == Value::DateTime(t),
    {
        Value::DateTime(t)
    }

    pub fn bytes(b: Vec<u8>) -> (v: Value)
        ensures
            v == Value::Bytes(b),
    {
        Value::Bytes(b)
    }

    pub fn is_null(&self) -> (b: bool)
        ensures
            b == (*self is Null),
    {
        match self {
            Value::Null => true,
            _ => false,
        }
    }
}

impl From<i64> for Value {
    fn from(i: i64) -> (v: Value) {
        Value::Integer(i)
    }
}

impl FromSpecImpl<i64> for Value {
    open spec fn obeys_from_spec() -> bool {
        true
    }

    open spec fn from_spec(i: i64) -> Value {
        Value::Integer(i)
    }
}

impl From<bool> for Value {
    fn from(b: bool) -> (v: Value) {
        Value::Boolean(b)
    }
}

impl FromSpecImpl<bool> for Value {
    open spec fn obeys_from_spec() -> bool {
        true
    }

    open spec fn from_spec(b: bool) -> Value {
        Value::Boolean(b)
    }
}

impl From<String> for Value {
    fn from(s: String) -> (v: Value) {
        Value::Text(s)
    }
}

impl FromSpecImpl<String> for Value {
    open spec fn obeys_from_spec() -> bool {
        true
    }

    open spec fn from_spec(s: String) -> Value {
        Value::Text(s)
    }
}

/// A borrowed string becomes a text value of the same characters. The new
/// value owns a fresh string, so the result is stated by its characters.
impl From<&str> for Value {
    fn from(s: &str) -> (v: Value)
        ensures
            v matches Value::Text(t) && t@ == s@,
    {
        Value::Text(s.to_owned())
    }
}

impl FromSpecImpl<&str> for Value {
    open spec fn obeys_from_spec() -> bool {
        false
    }

    open spec fn from_spec(s: &str) -> Value {
        arbitrary()
    }
}

} // verus!
