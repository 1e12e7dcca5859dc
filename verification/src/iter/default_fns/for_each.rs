use vstd::prelude::*;
use crate::iter::con_iter::ConcurrentIter;
use crate::iter::default_fns::fold::is_item_of;

verus! {

/// Applies `fun` to each element that this thread pulls from `iter`, pulling one element at a
/// time when `chunk_size` is one and chunks of `chunk_size` elements otherwise.
///
/// `fun` is applied only to elements of the source. Gives up after `usize::MAX` pulls, a
/// number of elements no source in memory reaches.
pub fn for_each<I: ConcurrentIter, F: FnMut(I::Item)>(iter: &I, chunk_size: usize, fun: F)
    requires
        chunk_size > 0,
        forall|x: I::Item| is_item_of(iter, x) ==> call_requires(fun, (x,)),
{
    let mut f = fun;
    let mut budget: usize = usize::MAX;
    if chunk_size == 1 {
        while budget > 0
            invariant
                f == fun,
                forall|x: I::Item| is_item_of(iter, x) ==> call_requires(f, (x,)),
            decreases budget,
        {
            budget -= 1;
            match iter.next() {
                Some(value) => {
                    assert(is_item_of(iter, value));
                    f(value);
                },
                None => {
                    break;
                },
            }
        }
    } else {
        while budget > 0
            invariant
                f == fun,
                forall|x: I::Item| is_item_of(iter, x) ==> call_requires(f, (x,)),
            decreases budget,
        {
            budget -= 1;
            match iter.next_chunk(chunk_size) {
                Some(chunk) => {
                    let ghost vals = chunk.values@;
                    let ghost b = chunk.begin_idx as int;
                    assert forall|j: int| 0 <= j < vals.len() implies is_item_of(iter, #[trigger] vals[j]) by {
                        assert(iter.is_item_at(b + j, vals[j]));
                    }
                    for value in it: chunk.values
                        invariant
                            it.seq() == vals,
                            forall|j: int| 0 <= j < vals.len() ==> is_item_of(iter, #[trigger] vals[j]),
                            f == fun,
                            forall|x: I::Item| is_item_of(iter, x) ==> call_requires(f, (x,)),
                    {
                        assert(value == vals[it.index() as int]);
                        f(value);
                    }
                },
                None => {
                    break;
                },
            }
        }
    }
}

/// Applies `fun` to the position and the element of each element that this thread pulls from
/// `iter`, pulling one element at a time when `chunk_size` is one and chunks of `chunk_size`
/// elements otherwise.
///
/// `fun` is applied only to an element together with its own position in the source. Gives up
/// after `usize::MAX` pulls, a number of elements no source in memory reaches.
pub fn for_each_with_ids<I: ConcurrentIter, F: FnMut(usize, I::Item)>(iter: &I, chunk_size: usize, fun: F)
    requires
        chunk_size > 0,
        forall|i: usize, x: I::Item| iter.is_item_at(i as int, x) ==> call_requires(fun, (i, x)),
{
    let mut f = fun;
    let mut budget: usize = usize::MAX;
    if chunk_size == 1 {
        while budget > 0
            invariant
                f == fun,
                forall|i: usize, x: I::Item| iter.is_item_at(i as int, x) ==> call_requires(f, (i, x)),
            decreases budget,
        {
            budget -= 1;
            match iter.next_id_and_value() {
                Some(next) => {
                    f(next.idx, next.value);
                },
                None => {
                    break;
                },
            }
        }
    } else {
        while budget > 0
            invariant
                f == fun,
                forall|i: usize, x: I::Item| iter.is_item_at(i as int, x) ==> call_requires(f, (i, x)),
            decreases budget,
        {
            budget -= 1;
            match iter.next_chunk(chunk_size) {
                Some(chunk) => {
                    let begin_idx = chunk.begin_idx;
                    let ghost vals = chunk.values@;
                    let n = chunk.values.len();
                    let mut k: usize = 0;
                    for value in it: chunk.values
                        invariant
                            it.seq() == vals,
                            n == vals.len(),
                            begin_idx + n <= usize::MAX,
                            k == it.index(),
                            forall|j: int| 0 <= j < vals.len() ==> iter.is_item_at(begin_idx + j, #[trigger] vals[j]),
                            f == fun,
                            forall|i: usize, x: I::Item| iter.is_item_at(i as int, x) ==> call_requires(f, (i, x)),
                    {
                        assert(value == vals[k as int]);
                        f(begin_idx + k, value);
                        k += 1;
                    }
                },
                None => {
                    break;
                },
            }
        }
    }
}

} // verus!
