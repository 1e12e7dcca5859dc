use vstd::prelude::*;
use crate::iter::atomic_counter::AtomicCounter;
use crate::iter::atomic_iter::AtomicIter;
use crate::iter::con_iter::ConcurrentIter;
use crate::iter::implementors::iter_mut_handle::IterMutHandle;
use crate::iter::implementors::shared_iter::SharedIter;
use crate::next::{Next, NextChunk};

verus! {

/// A regular `Iterator` made a concurrent iterator that also counts the positions reserved
/// by the pulling threads.
///
/// As for `ConIterOfIter`, `is_item_at` states no more than that the position is a position.
#[verifier::reject_recursive_types(T)]
pub struct ConIterOfIterX<T, I: Iterator<Item = T>> {
    shared: SharedIter<I>,
    reserved_counter: AtomicCounter,
}

impl<T, I: Iterator<Item = T>> ConIterOfIterX<T, I> {
    /// The counter of reserved positions that this iterator holds.
    pub closed spec fn counter_view(&self) -> AtomicCounter {
        self.reserved_counter
    }

    /// Exact length of the iterator when it was converted, if its size hint gave one.
    pub closed spec fn initial_len_view(&self) -> Option<usize> {
        self.shared.initial_len_view()
    }

    /// The lock that guards the iterator.
    pub closed spec fn lock_view(&self) -> crate::iter::implementors::iter_mut_handle::IterLock<I> {
        self.shared.lock_view()
    }

    /// The iterator that this concurrent iterator was created from: the one that pulls take
    /// elements from until the first element is pulled or the iterator is completed.
    pub closed spec fn initial_iter(&self) -> I {
        self.shared.initial_iter()
    }

    /// Creates a concurrent iterator for the given `iter`.
    pub fn new(iter: I) -> (r: Self)
        ensures
            r.initial_iter() == iter,
    {
        ConIterOfIterX { shared: SharedIter::new(iter), reserved_counter: AtomicCounter::new() }
    }

    /// Waits for the exclusive right to pull from the iterator; `None` if it is completed.
    pub fn try_get_handle(&self) -> (r: Option<IterMutHandle<'_, I>>)
        ensures
            r matches Some(h) ==> h.wf() && h.handle_lock() == self.lock_view(),
    {
        self.shared.try_get_handle()
    }

    /// Gives the right to pull back, leaving the iterator available.
    pub fn release_handle(&self, handle: IterMutHandle<'_, I>)
        requires
            handle.wf(),
    {
        handle.release()
    }

    /// Gives the right to pull back, marking the iterator as completed.
    pub fn release_handle_complete(&self, handle: IterMutHandle<'_, I>) {
        handle.release_complete()
    }

    /// Reserves `number_to_fetch` positions; returns the first of them unless none is to be
    /// reserved, the iterator is completed, or the position is beyond the known length.
    pub fn reserve(&self, number_to_fetch: usize) -> (r: Option<usize>)
        ensures
            r matches Some(b) ==> (self.initial_len_view() matches Some(n) ==> b < n),
    {
        if number_to_fetch == 0 {
            return None;
        }
        let begin_idx = self.reserved_counter.fetch_and_add(number_to_fetch);
        if self.shared.is_completed() {
            return None;
        }
        match self.shared.initial_len() {
            Some(n) => {
                if begin_idx < n {
                    Some(begin_idx)
                } else {
                    None
                }
            },
            None => Some(begin_idx),
        }
    }
}

impl<T, I: Iterator<Item = T>> ConcurrentIter for ConIterOfIterX<T, I> {
    type Item = T;

    type SeqIter = I;

    open spec fn is_item_at(&self, idx: int, item: T) -> bool {
        0 <= idx
    }

    open spec fn initial_len_spec(&self) -> Option<nat> {
        match self.initial_len_view() {
            Some(n) => Some(n as nat),
            None => None,
        }
    }

    fn into_seq_iter(self) -> I {
        self.shared.into_inner()
    }

    fn next_id_and_value(&self) -> (r: Option<Next<T>>) {
        let _ = self.reserved_counter.fetch_and_increment();
        self.shared.pull_one()
    }

    fn next_chunk(&self, chunk_size: usize) -> (r: Option<NextChunk<T>>) {
        if chunk_size == 0 {
            return None;
        }
        let _ = self.reserved_counter.fetch_and_add(chunk_size);
        self.shared.pull_chunk(chunk_size)
    }

    fn skip_to_end(&self) {
        self.shared.complete()
    }

    fn try_get_len(&self) -> (r: Option<usize>) {
        self.shared.remaining()
    }

    fn try_get_initial_len(&self) -> (r: Option<usize>) {
        self.shared.initial_len()
    }
}

impl<T, I: Iterator<Item = T>> AtomicIter<T> for ConIterOfIterX<T, I> {
    open spec fn counter_spec(&self) -> AtomicCounter {
        self.counter_view()
    }

    fn counter(&self) -> (r: &AtomicCounter) {
        assert(self.counter_spec() == self.reserved_counter);
        &self.reserved_counter
    }

    fn progress_and_get_begin_idx(&self, number_to_fetch: usize) -> (r: Option<usize>) {
        self.reserve(number_to_fetch)
    }

    fn get(&self, item_idx: usize) -> (r: Option<T>) {
        match self.shared.pull_one() {
            Some(n) => Some(n.value),
            None => None,
        }
    }

    fn fetch_n(&self, n: usize) -> (r: Option<NextChunk<T>>) {
        self.next_chunk(n)
    }

    fn early_exit(&self) {
        self.shared.complete()
    }
}

} // verus!
