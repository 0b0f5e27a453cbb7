//! What the standard library's identity conversion returns.

use vstd::prelude::*;

verus! {

/// `From<T> for T` of the standard library: converting a value into its own
/// type hands the value back. The builders take `Into<..>` arguments, and this
/// is what lets a caller pass a value that already has the wanted type.
pub assume_specification<Same>[ <Same as core::convert::From<Same>>::from ](same: Same) -> (r: Same)
    ensures
        r == same,
;

} // verus!
