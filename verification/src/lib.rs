//! A database-agnostic SQL query builder: a typed statement model and a
//! per-dialect generator that lowers it to parameterized SQL.

pub mod ast;
pub mod connector;
pub mod error;
pub mod laws;
pub mod row;
pub mod session;
pub mod value;
pub mod visitor;
