use vstd::prelude::*;
use vstd::std_specs::iter::IteratorSpec;
use crate::iter::con_iter::ConcurrentIter;
use crate::iter::progress::spec_chunk_end;
use crate::iter::slots::ElementSlots;
use crate::next::{Next, NextChunk};

verus! {

/// A concurrent iterator over a vector, consuming the vector and yielding its elements.
///
/// A pull reserves the next positions and moves their elements out of their slots under one
/// lock, so each element is handed out once, at the position it was reserved at.
pub struct ConIterOfVec<T> {
    slots: ElementSlots<T>,
}

impl<T> ConIterOfVec<T> {
    /// The elements of the vector that this iterator was created from.
    pub closed spec fn source(&self) -> Seq<T> {
        self.slots.source()
    }

    /// Consumes and creates a concurrent iterator of the given `vec`.
    pub fn new(vec: Vec<T>) -> (r: Self)
        ensures
            r.source() == vec@,
    {
        ConIterOfVec { slots: ElementSlots::new(vec) }
    }

    /// Reserves `number_to_fetch` positions and returns the first of them, if it lies within
    /// the vector; their elements are then moved out with `get`.
    pub fn progress_and_get_begin_idx(&self, number_to_fetch: usize) -> (r: Option<usize>)
        ensures
            number_to_fetch == 0 ==> r is None,
            r matches Some(b) ==> b < self.source().len(),
    {
        self.slots.reserve_positions(number_to_fetch)
    }

    /// Moves out the element at the reserved position `item_idx`; `None` if it is not reserved
    /// yet, or was already moved out.
    pub fn get(&self, item_idx: usize) -> (r: Option<T>)
        ensures
            r matches Some(x) ==> item_idx < self.source().len() && x == self.source()[item_idx as int],
    {
        self.slots.take_reserved(item_idx)
    }

    /// Number of positions that have been handed out so far.
    pub fn num_taken(&self) -> (r: usize)
        ensures
            r <= self.source().len(),
    {
        self.slots.taken()
    }

    /// Converts the iterator into a vector of the elements that were not pulled, in order:
    /// exactly the elements of the source after the reserved positions.
    pub fn into_remaining_vec(self) -> (r: Vec<T>)
        ensures
            r@.is_suffix_of(self.source()),
    {
        self.slots.into_rest()
    }
}

impl<T> View for ConIterOfVec<T> {
    /// The elements of the source, in order.
    type V = Seq<T>;

    open spec fn view(&self) -> Seq<T> {
        self.source()
    }
}

impl<T> ConcurrentIter for ConIterOfVec<T> {
    type Item = T;

    type SeqIter = std::vec::IntoIter<T>;

    open spec fn is_item_at(&self, idx: int, item: T) -> bool {
        0 <= idx < self.source().len() && item == self.source()[idx]
    }

    open spec fn initial_len_spec(&self) -> Option<nat> {
        Some(self.source().len())
    }

    /// The sequential iterator yields the elements of the vector after the positions handed out.
    fn into_seq_iter(self) -> (r: Self::SeqIter)
        ensures
            r.remaining().is_suffix_of(self.source()),
    {
        let v = self.into_remaining_vec();
        v.into_iter()
    }

    fn next_id_and_value(&self) -> (r: Option<Next<T>>) {
        self.slots.reserve_one()
    }

    /// A chunk holds `chunk_size` elements unless it reaches the end of the vector, and they
    /// are the elements of the vector at its positions.
    fn next_chunk(&self, chunk_size: usize) -> (r: Option<NextChunk<T>>)
        ensures
            r matches Some(c) ==> {
                &&& c.values@.len() == spec_chunk_end(c.begin_idx as int, chunk_size as int, self.source().len() as int) - c.begin_idx
                &&& c.values@ == self.source().subrange(c.begin_idx as int, c.begin_idx + c.values@.len())
            },
    {
        let r = self.slots.reserve_chunk(chunk_size);
        proof {
            if r is Some {
                let c = r->0;
                assert forall|j: int| 0 <= j < c.values@.len() implies self.is_item_at(c.begin_idx + j, #[trigger] c.values@[j]) by {
                    assert(c.values@[j] == self.source().subrange(c.begin_idx as int, c.begin_idx + c.values@.len())[j]);
                }
            }
        }
        r
    }

    fn skip_to_end(&self) {
        self.slots.skip_rest()
    }

    fn try_get_len(&self) -> (r: Option<usize>) {
        Some(self.slots.rest_len())
    }

    fn try_get_initial_len(&self) -> (r: Option<usize>) {
        Some(self.slots.len())
    }
}

} // verus!
