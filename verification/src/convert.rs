//! What std documents of converting a value into its own type.
use vstd::prelude::*;

verus! {

/// std's reflexive `impl<T> From<T> for T`, which every `into` into the same
/// type goes through: std documents that it returns the argument unchanged,
/// and that is all this claims of it.
pub assume_specification<V>[ <V as std::convert::From<V>>::from ](v: V) -> (r: V)
    ensures
        r == v,
;

} // verus!
