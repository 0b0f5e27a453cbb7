//! The generator: lowers a query to SQL text and the values bound into it,
//! for one of four dialects.

pub mod agreement;
pub mod alignment;
pub mod dialect;
pub mod emit;
pub mod generate;
pub mod grammar;
pub mod marks;
pub mod token;
pub mod writer;

pub use dialect::Dialect;
pub use generate::build;
pub use token::{Keyword, Token};
