use vstd::prelude::*;
use vstd::std_specs::iter::IteratorSpec;
use crate::iter::atomic_counter::AtomicCounter;
use crate::iter::con_iter::ConcurrentIter;
use crate::iter::progress::{begin_idx_in_range, chunk_end, num_taken, remaining_len, spec_num_taken};
use crate::next::{Next, NextChunk};

verus! {

/// A concurrent iterator over a slice yielding references to the elements.
pub struct ConIterOfSlice<'a, T> {
    slice: &'a [T],
    counter: AtomicCounter,
}

impl<'a, T> ConIterOfSlice<'a, T> {
    /// The slice that this iterator yields references into.
    pub closed spec fn slice_view(&self) -> Seq<T> {
        self.slice@
    }

    /// Creates a concurrent iterator for the given `slice`.
    pub fn new(slice: &'a [T]) -> (r: Self)
        ensures
            r.slice_view() == slice@,
    {
        ConIterOfSlice { slice, counter: AtomicCounter::new() }
    }

    /// The counter of positions handed out that this iterator holds.
    pub closed spec fn counter_view(&self) -> AtomicCounter {
        self.counter
    }

    /// Returns a reference to the counter of positions handed out.
    pub fn counter(&self) -> (r: &AtomicCounter)
        ensures
            *r == self.counter_view(),
    {
        &self.counter
    }

    /// Returns a reference to the underlying slice.
    pub fn as_slice(&self) -> (r: &'a [T])
        ensures
            r@ == self.slice_view(),
    {
        self.slice
    }

    /// Returns the element at position `item_idx`, if the slice has one.
    pub fn get(&self, item_idx: usize) -> (r: Option<&'a T>)
        ensures
            r == (if item_idx < self.slice_view().len() { Some(&self.slice_view()[item_idx as int]) } else { None::<&T> }),
    {
        if item_idx < self.slice.len() {
            Some(&self.slice[item_idx])
        } else {
            None
        }
    }

    /// Reserves `number_to_fetch` positions and returns the first of them, if it lies within the slice.
    pub fn progress_and_get_begin_idx(&self, number_to_fetch: usize) -> (r: Option<usize>)
        ensures
            r matches Some(b) ==> b < self.slice_view().len(),
    {
        let begin_idx = self.counter.fetch_and_add(number_to_fetch);
        begin_idx_in_range(begin_idx, self.slice.len())
    }

    /// Returns the chunk of the slice that begins at `begin_idx` and holds at most `chunk_size` elements.
    pub fn chunk_at(&self, begin_idx: usize, chunk_size: usize) -> (r: NextChunk<&'a T>)
        requires
            begin_idx < self.slice_view().len(),
        ensures
            self.slice_view().len() <= usize::MAX,
            r.begin_idx == begin_idx,
            r.values@.len() == spec_chunk_len(begin_idx as int, chunk_size as int, self.slice_view().len() as int),
            forall|j: int| 0 <= j < r.values@.len() ==> #[trigger] r.values@[j] == &self.slice_view()[begin_idx + j],
    {
        let end_idx = chunk_end(begin_idx, chunk_size, self.slice.len());
        let mut values: Vec<&'a T> = Vec::new();
        let mut i = begin_idx;
        while i < end_idx
            invariant
                begin_idx <= i <= end_idx <= self.slice@.len(),
                values@.len() == i - begin_idx,
                forall|j: int| 0 <= j < values@.len() ==> #[trigger] values@[j] == &self.slice@[begin_idx + j],
            decreases end_idx - i,
        {
            values.push(&self.slice[i]);
            i += 1;
        }
        NextChunk { begin_idx, values }
    }

    /// The sequential iterator over the elements that remain once a counter at `current` has
    /// handed out its positions: references to the elements from the number taken on.
    pub fn seq_iter_from(&self, current: usize) -> (r: core::slice::Iter<'a, T>)
        ensures
            r.remaining() == self.slice_view().as_ref().subrange(
                spec_num_taken(current as int, self.slice_view().len() as int),
                self.slice_view().len() as int,
            ),
    {
        let begin = num_taken(current, self.slice.len());
        let rest = &self.slice[begin..self.slice.len()];
        let r = rest.iter();
        assert(r.remaining() =~= self.slice@.as_ref().subrange(begin as int, self.slice@.len() as int));
        r
    }

    /// The chunk that a reservation of `chunk_size` positions beginning at `begin_idx` hands out:
    /// `None` when nothing is reserved or the reservation begins at or past the end of the slice.
    pub fn chunk_from(&self, begin_idx: usize, chunk_size: usize) -> (r: Option<NextChunk<&'a T>>)
        ensures
            self.slice_view().len() <= usize::MAX,
            r is None <==> (chunk_size == 0 || begin_idx >= self.slice_view().len()),
            r matches Some(c) ==> {
                &&& c.begin_idx == begin_idx
                &&& c.values@.len() == spec_chunk_len(begin_idx as int, chunk_size as int, self.slice_view().len() as int)
                &&& forall|j: int| 0 <= j < c.values@.len() ==> #[trigger] c.values@[j] == &self.slice_view()[begin_idx + j]
            },
    {
        let len = self.slice.len();
        if chunk_size == 0 {
            return None;
        }
        match begin_idx_in_range(begin_idx, len) {
            Some(b) => Some(self.chunk_at(b, chunk_size)),
            None => None,
        }
    }
}

/// Number of elements in the chunk of at most `chunk_size` elements beginning at `begin_idx` of a source of `len` elements.
pub open spec fn spec_chunk_len(begin_idx: int, chunk_size: int, len: int) -> int {
    crate::iter::progress::spec_chunk_end(begin_idx, chunk_size, len) - begin_idx
}

impl<'a, T> View for ConIterOfSlice<'a, T> {
    /// The elements of the source, in order.
    type V = Seq<T>;

    open spec fn view(&self) -> Seq<T> {
        self.slice_view()
    }
}

impl<'a, T> Clone for ConIterOfSlice<'a, T> {
    /// A concurrent iterator over the same slice, with a counter starting where this one stands.
    fn clone(&self) -> (r: Self)
        ensures
            r.slice_view() == self.slice_view(),
    {
        ConIterOfSlice { slice: self.slice, counter: self.counter.clone() }
    }
}

impl<'a, T> ConcurrentIter for ConIterOfSlice<'a, T> {
    type Item = &'a T;

    type SeqIter = core::slice::Iter<'a, T>;

    open spec fn is_item_at(&self, idx: int, item: &'a T) -> bool {
        0 <= idx < self.slice_view().len() && item == &self.slice_view()[idx]
    }

    open spec fn initial_len_spec(&self) -> Option<nat> {
        Some(self.slice_view().len())
    }

    /// The sequential iterator yields references to the elements after the positions handed out.
    fn into_seq_iter(self) -> (r: Self::SeqIter)
        ensures
            r.remaining().is_suffix_of(self.slice_view().as_ref()),
    {
        let current = self.counter.current();
        self.seq_iter_from(current)
    }

    fn next_id_and_value(&self) -> (r: Option<Next<&'a T>>) {
        let idx = self.counter.fetch_and_add(1);
        match self.get(idx) {
            Some(value) => Some(Next { idx, value }),
            None => None,
        }
    }

    /// A chunk holds `chunk_size` elements unless it reaches the end of the slice.
    fn next_chunk(&self, chunk_size: usize) -> (r: Option<NextChunk<&'a T>>)
        ensures
            r matches Some(c) ==> c.values@.len() == crate::iter::progress::spec_chunk_end(c.begin_idx as int, chunk_size as int, self.slice_view().len() as int) - c.begin_idx,
    {
        if chunk_size == 0 {
            return None;
        }
        let begin_idx = self.counter.fetch_and_add(chunk_size);
        self.chunk_from(begin_idx, chunk_size)
    }

    fn skip_to_end(&self) {
        let _ = self.counter.get_current_max_value(self.slice.len());
    }

    fn try_get_len(&self) -> (r: Option<usize>) {
        let current = self.counter.current();
        Some(remaining_len(current, self.slice.len()))
    }

    fn try_get_initial_len(&self) -> (r: Option<usize>) {
        Some(self.slice.len())
    }
}

} // verus!
