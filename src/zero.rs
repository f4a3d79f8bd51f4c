//! The zero element of a numeric type, from `num_traits`.

use vstd::prelude::*;

verus! {

/// Every element of `s` is `z` or a clone of it.
pub open spec fn filled_with<T: Clone>(z: T, s: Seq<T>) -> bool {
    forall|p: int| 0 <= p < s.len() ==> cloned(z, #[trigger] s[p])
}

/// Relies on `num_traits::zero`: it returns `T::zero()`, the additive
/// identity of `T`. Nothing about the value is assumed here.
#[verifier::external_body]
pub(crate) fn zero_value<T: num_traits::Zero>() -> T {
    num_traits::zero()
}

} // verus!
