//! Duplication helpers for cached values.
//!
//! The cache hands out copies of what it stores. The `Clone` impls of the
//! entity types promise that a clone equals the original; these helpers
//! lift that promise to vectors and options of such types.

use vstd::prelude::*;

verus! {

/// True when `T::clone` is guaranteed to return a value equal to its input.
pub open spec fn clone_is_exact<T: Clone>() -> bool {
    forall|x: T, y: T| call_ensures(T::clone, (&x,), y) ==> y == x
}

pub fn clone_vec_exact<T: Clone>(v: &Vec<T>) -> (r: Vec<T>)
    requires
        clone_is_exact::<T>(),
    ensures
        r@ == v@,
{
    let r = v.clone();
    proof {
        assert forall|i: int| 0 <= i < v@.len() implies r@[i] == v@[i] by {
            assert(cloned::<T>(v@[i], r@[i]));
        }
        assert(r@ =~= v@);
    }
    r
}

pub fn clone_option_exact<T: Clone>(v: &Option<T>) -> (r: Option<T>)
    requires
        clone_is_exact::<T>(),
    ensures
        r == *v,
{
    match v {
        Some(x) => Some(x.clone()),
        None => None,
    }
}

} // verus!
