use vstd::prelude::*;
use crate::implementations::empty::ConIterEmpty;
use crate::iter::con_iter::ConcurrentIter;

verus! {

/// Creates an empty concurrent iterator, which yields no elements.
pub fn empty<T>() -> (r: ConIterEmpty<T>)
    ensures
        r.initial_len_spec() == Some(0nat),
        forall|i: int, x: T| !r.is_item_at(i, x),
{
    ConIterEmpty::new()
}

} // verus!
