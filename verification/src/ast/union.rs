//! `UNION ALL` of several selects.

use vstd::prelude::*;
use crate::ast::select::Select;

verus! {

/// The rows of every select in turn, duplicates kept.
#[derive(Debug, Clone, PartialEq)]
pub struct UnionAll {
    pub selects: Vec<Select>,
}

impl UnionAll {
    /// The rows of `left`, then those of `right`.
    pub fn new(left: Select, right: Select) -> (u: UnionAll)
        ensures
            u.selects@ == seq![left, right],
    {
        let mut selects = Vec::new();
        selects.push(left);
        selects.push(right);
        UnionAll { selects }
    }

    /// The same union, followed by the rows of one more select.
    pub fn all(self, select: Select) -> (u: UnionAll)
        ensures
            u.selects@ == self.selects@.push(select),
    {
        let mut selects = self.selects;
        selects.push(select);
        UnionAll { selects }
    }
}

} // verus!
