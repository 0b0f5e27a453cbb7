//! The statement model: tables, columns, expressions, conditions and the
//! statements built from them.

pub mod assignment;
pub mod column;
pub mod compare;
pub mod complete;
pub mod conditions;
pub mod convert;
pub mod copy;
pub mod delete;
pub mod expression;
pub mod insert;
pub mod join;
pub mod order;
pub mod query;
pub mod select;
pub mod table;
pub mod union;
pub mod update;

pub use assignment::Assignment;
pub use column::Column;
pub use compare::{Comparable, Compare, Operator};
pub use conditions::{ConditionTree, Conjunctive};
pub use delete::Delete;
pub use expression::Expression;
pub use insert::Insert;
pub use join::{Join, JoinKind};
pub use order::{Direction, Order};
pub use query::Query;
pub use select::Select;
pub use table::Table;
pub use union::UnionAll;
pub use update::Update;
