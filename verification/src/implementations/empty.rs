use vstd::prelude::*;
use vstd::std_specs::iter::IteratorSpec;
use core::marker::PhantomData;
use crate::iter::con_iter::ConcurrentIter;
use crate::next::{Next, NextChunk};

verus! {

/// A concurrent iterator that yields no elements.
pub struct ConIterEmpty<T> {
    phantom: PhantomData<T>,
}

impl<T> ConIterEmpty<T> {
    /// Creates a concurrent iterator that yields no elements.
    pub fn new() -> (r: Self) {
        ConIterEmpty { phantom: PhantomData }
    }
}

impl<T> Default for ConIterEmpty<T> {
    /// Creates a concurrent iterator that yields no elements.
    fn default() -> (r: Self) {
        Self::new()
    }
}

impl<T> ConcurrentIter for ConIterEmpty<T> {
    type Item = T;

    type SeqIter = std::vec::IntoIter<T>;

    open spec fn is_item_at(&self, idx: int, item: T) -> bool {
        false
    }

    open spec fn initial_len_spec(&self) -> Option<nat> {
        Some(0nat)
    }

    fn into_seq_iter(self) -> (r: Self::SeqIter)
        ensures
            r.remaining() == Seq::<T>::empty(),
    {
        let empty: Vec<T> = Vec::new();
        empty.into_iter()
    }

    fn next_id_and_value(&self) -> (r: Option<Next<T>>)
        ensures
            r is None,
    {
        None
    }

    fn next_chunk(&self, chunk_size: usize) -> (r: Option<NextChunk<T>>)
        ensures
            r is None,
    {
        None
    }

    fn skip_to_end(&self) {
    }

    fn try_get_len(&self) -> (r: Option<usize>)
        ensures
            r == Some(0usize),
    {
        Some(0)
    }

    fn try_get_initial_len(&self) -> (r: Option<usize>) {
        Some(0)
    }
}

} // verus!
