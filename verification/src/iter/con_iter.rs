use vstd::prelude::*;
use crate::next::{Next, NextChunk};

verus! {

/// A concurrent iterator: its `next` and `next_chunk` methods can safely be called by multiple
/// threads through a shared reference, each position of the source being reserved atomically.
///
/// What a call pulls depends on the calls that other threads made before it; the contracts
/// therefore state what holds of every element that comes back: it is the element at the
/// position it is reported with (`is_item_at`), and a chunk holds consecutive positions.
pub trait ConcurrentIter: Sized {
    /// Type of the elements that the iterator yields.
    type Item;

    /// Type of the sequential iterator that the remaining elements are converted into.
    type SeqIter;

    /// Holds when `item` is the element at position `idx` of the source of this iterator.
    spec fn is_item_at(&self, idx: int, item: Self::Item) -> bool;

    /// Number of elements of the source, when it is known.
    spec fn initial_len_spec(&self) -> Option<nat>;

    /// Converts the concurrent iterator into a sequential iterator over the elements that were not pulled.
    fn into_seq_iter(self) -> Self::SeqIter;

    /// Advances the iterator and returns the next value together with its position in the source.
    fn next_id_and_value(&self) -> (r: Option<Next<Self::Item>>)
        ensures
            r matches Some(n) ==> self.is_item_at(n.idx as int, n.value),
    ;

    /// Advances the iterator and returns the next value together with its position in the source.
    fn next_with_idx(&self) -> (r: Option<(usize, Self::Item)>)
        ensures
            r matches Some(p) ==> self.is_item_at(p.0 as int, p.1),
    {
        match self.next_id_and_value() {
            Some(n) => Some((n.idx, n.value)),
            None => None,
        }
    }

    /// Advances the iterator and returns the next value.
    fn next(&self) -> (r: Option<Self::Item>)
        ensures
            r matches Some(x) ==> exists|i: int| #[trigger] self.is_item_at(i, x),
    {
        match self.next_id_and_value() {
            Some(n) => {
                let r = Some(n.value);
                assert(self.is_item_at(n.idx as int, r->0));
                r
            },
            None => None,
        }
    }

    /// Reserves at most `chunk_size` consecutive positions and returns their elements.
    ///
    /// Never returns `Some` of an empty chunk.
    fn next_chunk(&self, chunk_size: usize) -> (r: Option<NextChunk<Self::Item>>)
        ensures
            r matches Some(c) ==> {
                &&& 0 < c.values@.len() <= chunk_size
                &&& c.begin_idx + c.values@.len() <= usize::MAX
                &&& forall|j: int| 0 <= j < c.values@.len() ==> self.is_item_at(c.begin_idx + j, #[trigger] c.values@[j])
            },
    ;

    /// Reserves at most `chunk_size` consecutive positions and returns their elements without the beginning position.
    fn next_chunk_x(&self, chunk_size: usize) -> (r: Option<Vec<Self::Item>>)
        ensures
            r matches Some(v) ==> {
                &&& 0 < v@.len() <= chunk_size
                &&& exists|b: int| #![trigger self.is_item_at(b, v@[0])]
                        forall|j: int| 0 <= j < v@.len() ==> self.is_item_at(b + j, #[trigger] v@[j])
            },
    {
        match self.next_chunk(chunk_size) {
            Some(c) => {
                assert(self.is_item_at(c.begin_idx + 0, c.values@[0]));
                Some(c.values)
            },
            None => None,
        }
    }

    /// Skips all remaining elements: pulls that follow return `None`.
    fn skip_to_end(&self);

    /// Returns the number of elements left, when it is known.
    fn try_get_len(&self) -> (r: Option<usize>)
        ensures
            self.initial_len_spec() is Some ==> r is Some,
            r matches Some(l) ==> (self.initial_len_spec() matches Some(n) ==> l <= n),
    ;

    /// Returns the number of elements of the source, when it is known.
    fn try_get_initial_len(&self) -> (r: Option<usize>)
        ensures
            r matches Some(n) ==> self.initial_len_spec() == Some(n as nat),
            r is None ==> self.initial_len_spec() is None,
    ;

}

} // verus!
