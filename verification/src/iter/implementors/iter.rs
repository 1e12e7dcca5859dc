use vstd::prelude::*;
use crate::iter::con_iter::ConcurrentIter;
use crate::iter::implementors::iter_mut_handle::IterMutHandle;
use crate::iter::implementors::shared_iter::SharedIter;
use crate::next::{Next, NextChunk};

verus! {

/// A regular `Iterator` made a concurrent iterator: pulls are serialized by a lock, and each
/// pulled element is reported with the number of elements yielded before it.
///
/// The element at a position of a generic iterator is whatever the iterator yields there;
/// this library cannot observe it, so `is_item_at` states no more than that the position is
/// a position.
#[verifier::reject_recursive_types(T)]
pub struct ConIterOfIter<T, I: Iterator<Item = T>> {
    shared: SharedIter<I>,
}

impl<T, I: Iterator<Item = T>> ConIterOfIter<T, I> {
    /// Exact length of the iterator when it was converted, if its size hint gave one.
    pub closed spec fn initial_len_view(&self) -> Option<usize> {
        self.shared.initial_len_view()
    }

    /// The lock that guards the iterator.
    pub closed spec fn lock_view(&self) -> crate::iter::implementors::iter_mut_handle::IterLock<I> {
        self.shared.lock_view()
    }

    /// The iterator that this concurrent iterator was created from: the one that pulls take
    /// elements from until the first element is pulled or the iterator is completed.
    pub closed spec fn initial_iter(&self) -> I {
        self.shared.initial_iter()
    }

    /// Creates a concurrent iterator for the given `iter`.
    pub fn new(iter: I) -> (r: Self)
        ensures
            r.initial_iter() == iter,
    {
        ConIterOfIter { shared: SharedIter::new(iter) }
    }

    /// Waits for the exclusive right to pull from the iterator; `None` if it is completed.
    pub fn try_get_handle(&self) -> (r: Option<IterMutHandle<'_, I>>)
        ensures
            r matches Some(h) ==> h.wf() && h.handle_lock() == self.lock_view(),
    {
        self.shared.try_get_handle()
    }

    /// Gives the right to pull back, leaving the iterator available.
    pub fn release_handle(&self, handle: IterMutHandle<'_, I>)
        requires
            handle.wf(),
    {
        handle.release()
    }

    /// Gives the right to pull back, marking the iterator as completed.
    pub fn release_handle_complete(&self, handle: IterMutHandle<'_, I>) {
        handle.release_complete()
    }

    /// Returns the position of the first of the next `number_to_fetch` elements, waiting for the
    /// exclusive right to pull; `None` when none is asked for or the iterator is completed.
    /// Pulls no element.
    pub fn progress_and_get_begin_idx(&self, number_to_fetch: usize) -> (r: Option<usize>)
        ensures
            number_to_fetch == 0 ==> r is None,
    {
        if number_to_fetch == 0 {
            return None;
        }
        match self.shared.try_get_handle() {
            Some(handle) => {
                let begin_idx = handle.position();
                handle.release();
                Some(begin_idx)
            },
            None => None,
        }
    }

    /// Pulls the next element of the iterator.
    pub fn get(&self) -> (r: Option<T>) {
        match self.shared.pull_one() {
            Some(n) => Some(n.value),
            None => None,
        }
    }
}

impl<T, I: Iterator<Item = T>> ConcurrentIter for ConIterOfIter<T, I> {
    type Item = T;

    type SeqIter = I;

    open spec fn is_item_at(&self, idx: int, item: T) -> bool {
        0 <= idx
    }

    open spec fn initial_len_spec(&self) -> Option<nat> {
        match self.initial_len_view() {
            Some(n) => Some(n as nat),
            None => None,
        }
    }

    fn into_seq_iter(self) -> I {
        self.shared.into_inner()
    }

    fn next_id_and_value(&self) -> (r: Option<Next<T>>) {
        self.shared.pull_one()
    }

    fn next_chunk(&self, chunk_size: usize) -> (r: Option<NextChunk<T>>) {
        self.shared.pull_chunk(chunk_size)
    }

    fn skip_to_end(&self) {
        self.shared.complete()
    }

    fn try_get_len(&self) -> (r: Option<usize>) {
        self.shared.remaining()
    }

    fn try_get_initial_len(&self) -> (r: Option<usize>) {
        self.shared.initial_len()
    }
}

} // verus!
