use vstd::prelude::*;
use vstd::std_specs::iter::IteratorSpec;
use crate::iter::atomic_counter::AtomicCounter;
use crate::iter::atomic_iter::{AtomicIter, AtomicIterWithInitialLen};
use crate::iter::con_iter::ConcurrentIter;
use crate::iter::implementors::slice::ConIterOfSlice;
use crate::iter::progress::{begin_idx_in_range, chunk_end, num_taken, remaining_len, spec_chunk_end, spec_num_taken};
use crate::next::{Next, NextChunk};

verus! {

/// A concurrent iterator over a slice yielding clones of the elements.
pub struct ClonedConIterOfSlice<'a, T> {
    slice: &'a [T],
    counter: AtomicCounter,
}

impl<'a, T: Clone> ClonedConIterOfSlice<'a, T> {
    /// The counter of reserved positions that this iterator holds.
    pub closed spec fn counter_view(&self) -> AtomicCounter {
        self.counter
    }

    /// The slice whose elements this iterator clones.
    pub closed spec fn slice_view(&self) -> Seq<T> {
        self.slice@
    }

    /// Creates a concurrent iterator for the given `slice`.
    pub fn new(slice: &'a [T]) -> (r: Self)
        ensures
            r.slice_view() == slice@,
    {
        ClonedConIterOfSlice { slice, counter: AtomicCounter::new() }
    }

    /// Creates a cloning iterator over the slice of `iter`, continuing from where `iter` is.
    pub fn from_con_iter(iter: ConIterOfSlice<'a, T>) -> (r: Self)
        ensures
            r.slice_view() == iter.slice_view(),
    {
        ClonedConIterOfSlice { slice: iter.as_slice(), counter: iter.counter().clone() }
    }

    /// Returns a reference to the underlying slice.
    pub fn as_slice(&self) -> (r: &'a [T])
        ensures
            r@ == self.slice_view(),
    {
        self.slice
    }

    /// Returns a clone of the element at position `item_idx`, if the slice has one.
    pub fn clone_at(&self, item_idx: usize) -> (r: Option<T>)
        ensures
            r is Some <==> item_idx < self.slice_view().len(),
            r matches Some(x) ==> cloned::<T>(self.slice_view()[item_idx as int], x),
    {
        if item_idx < self.slice.len() {
            Some(self.slice[item_idx].clone())
        } else {
            None
        }
    }

    /// Clones of the elements of the chunk of at most `chunk_size` positions that begins at `begin_idx`.
    pub fn clones_at(&self, begin_idx: usize, chunk_size: usize) -> (r: Vec<T>)
        ensures
            self.slice_view().len() <= usize::MAX,
            r@.len() == spec_chunk_end(begin_idx as int, chunk_size as int, self.slice_view().len() as int) - begin_idx,
            forall|j: int| 0 <= j < r@.len() ==> cloned::<T>(self.slice_view()[begin_idx + j], #[trigger] r@[j]),
    {
        let end_idx = chunk_end(begin_idx, chunk_size, self.slice.len());
        let mut values: Vec<T> = Vec::new();
        let mut i = begin_idx;
        while i < end_idx
            invariant
                begin_idx <= i <= end_idx,
                begin_idx < end_idx ==> end_idx <= self.slice@.len(),
                values@.len() == i - begin_idx,
                forall|j: int| 0 <= j < values@.len() ==> cloned::<T>(self.slice@[begin_idx + j], #[trigger] values@[j]),
            decreases end_idx - i,
        {
            values.push(self.slice[i].clone());
            i += 1;
        }
        values
    }

    /// The sequential iterator over clones of the elements that remain once a counter at
    /// `current` has handed out its positions, from the number taken on.
    pub fn seq_iter_from(&self, current: usize) -> (r: std::vec::IntoIter<T>)
        ensures
            r.remaining().len() == self.slice_view().len() - spec_num_taken(current as int, self.slice_view().len() as int),
            forall|j: int| 0 <= j < r.remaining().len() ==> cloned::<T>(
                self.slice_view()[spec_num_taken(current as int, self.slice_view().len() as int) + j],
                #[trigger] r.remaining()[j],
            ),
    {
        let len = self.slice.len();
        let begin = num_taken(current, len);
        let v = self.clones_at(begin, len - begin);
        v.into_iter()
    }

    /// Reserves `n` positions and returns the clones of the elements at those that lie within the
    /// slice; the chunk is empty when none does.
    pub fn fetch_n_with_exact_len(&self, n: usize) -> (r: NextChunk<T>)
        ensures
            self.slice_view().len() <= usize::MAX,
            r.values@.len() == spec_chunk_end(r.begin_idx as int, n as int, self.slice_view().len() as int) - r.begin_idx,
            r.begin_idx + r.values@.len() <= usize::MAX,
            forall|j: int| 0 <= j < r.values@.len() ==> cloned::<T>(self.slice_view()[r.begin_idx + j], #[trigger] r.values@[j]),
    {
        let begin_idx = self.counter.fetch_and_add(n);
        let values = self.clones_at(begin_idx, n);
        NextChunk { begin_idx, values }
    }

    /// Reserves at most `chunk_size` positions and returns the clones of their elements; `None` when none is left.
    pub fn next_exact_chunk(&self, chunk_size: usize) -> (r: Option<NextChunk<T>>)
        ensures
            self.slice_view().len() <= usize::MAX,
            r matches Some(c) ==> {
                &&& 0 < c.values@.len() <= chunk_size
                &&& c.values@.len() == spec_chunk_end(c.begin_idx as int, chunk_size as int, self.slice_view().len() as int) - c.begin_idx
                &&& c.begin_idx + c.values@.len() <= self.slice_view().len()
                &&& forall|j: int| 0 <= j < c.values@.len() ==> cloned::<T>(self.slice_view()[c.begin_idx + j], #[trigger] c.values@[j])
            },
    {
        let next = self.fetch_n_with_exact_len(chunk_size);
        if next.values.len() == 0 {
            None
        } else {
            Some(next)
        }
    }

    /// Number of elements still to be pulled.
    pub fn len(&self) -> (r: usize)
        ensures
            r <= self.slice_view().len(),
    {
        let current = self.counter.current();
        remaining_len(current, self.slice.len())
    }

    /// Reserves the next position and returns a clone of its element.
    pub fn clone_next(&self) -> (r: Option<Next<T>>)
        ensures
            r matches Some(n) ==> n.idx < self.slice_view().len() && cloned::<T>(self.slice_view()[n.idx as int], n.value),
    {
        let idx = self.counter.fetch_and_increment();
        match self.clone_at(idx) {
            Some(value) => Some(Next { idx, value }),
            None => None,
        }
    }
}

impl<'a, T: Clone> View for ClonedConIterOfSlice<'a, T> {
    /// The elements of the slice, in order; the iterator yields clones of them.
    type V = Seq<T>;

    open spec fn view(&self) -> Seq<T> {
        self.slice_view()
    }
}

impl<'a, T: Clone> Clone for ClonedConIterOfSlice<'a, T> {
    /// A cloning iterator over the same slice, with a counter starting where this one stands.
    fn clone(&self) -> (r: Self)
        ensures
            r.slice_view() == self.slice_view(),
    {
        ClonedConIterOfSlice { slice: self.slice, counter: self.counter.clone() }
    }
}

impl<'a, T: Clone> ConcurrentIter for ClonedConIterOfSlice<'a, T> {
    type Item = T;

    type SeqIter = std::vec::IntoIter<T>;

    open spec fn is_item_at(&self, idx: int, item: T) -> bool {
        0 <= idx < self.slice_view().len() && cloned::<T>(self.slice_view()[idx], item)
    }

    open spec fn initial_len_spec(&self) -> Option<nat> {
        Some(self.slice_view().len())
    }

    /// The sequential iterator yields clones of the elements after the positions handed out.
    fn into_seq_iter(self) -> (r: Self::SeqIter)
        ensures
            r.remaining().len() <= self.slice_view().len(),
            forall|j: int| 0 <= j < r.remaining().len() ==> cloned::<T>(
                self.slice_view()[self.slice_view().len() - r.remaining().len() + j],
                #[trigger] r.remaining()[j],
            ),
    {
        let current = self.counter.current();
        self.seq_iter_from(current)
    }

    fn next_id_and_value(&self) -> (r: Option<Next<T>>) {
        self.clone_next()
    }

    fn next_chunk(&self, chunk_size: usize) -> (r: Option<NextChunk<T>>)
        ensures
            r matches Some(c) ==> c.values@.len() == spec_chunk_end(c.begin_idx as int, chunk_size as int, self.slice_view().len() as int) - c.begin_idx,
    {
        self.next_exact_chunk(chunk_size)
    }

    fn skip_to_end(&self) {
        let _ = self.counter.get_current_max_value(self.slice.len());
    }

    fn try_get_len(&self) -> (r: Option<usize>) {
        Some(self.len())
    }

    fn try_get_initial_len(&self) -> (r: Option<usize>) {
        Some(self.slice.len())
    }
}

impl<'a, T: Clone> AtomicIter<T> for ClonedConIterOfSlice<'a, T> {
    open spec fn counter_spec(&self) -> AtomicCounter {
        self.counter_view()
    }

    fn counter(&self) -> (r: &AtomicCounter) {
        assert(self.counter_spec() == self.counter);
        &self.counter
    }

    fn progress_and_get_begin_idx(&self, number_to_fetch: usize) -> (r: Option<usize>) {
        let begin_idx = self.counter.fetch_and_add(number_to_fetch);
        begin_idx_in_range(begin_idx, self.slice.len())
    }

    fn get(&self, item_idx: usize) -> (r: Option<T>)
        ensures
            r is Some <==> item_idx < self.slice_view().len(),
            r matches Some(x) ==> cloned::<T>(self.slice_view()[item_idx as int], x),
    {
        self.clone_at(item_idx)
    }

    fn fetch_n(&self, n: usize) -> (r: Option<NextChunk<T>>)
        ensures
            r matches Some(c) ==> c.values@.len() == spec_chunk_end(c.begin_idx as int, n as int, self.slice_view().len() as int) - c.begin_idx,
    {
        self.next_exact_chunk(n)
    }

    fn early_exit(&self) {
        let _ = self.counter.get_current_max_value(self.slice.len());
    }
}

impl<'a, T: Clone> AtomicIterWithInitialLen<T> for ClonedConIterOfSlice<'a, T> {
    fn initial_len(&self) -> (r: usize) {
        self.slice.len()
    }
}

} // verus!
