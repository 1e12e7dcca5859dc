use vstd::prelude::*;
use crate::iter::atomic_counter::AtomicCounter;
use crate::iter::con_iter::ConcurrentIter;
use crate::next::{Next, NextChunk};

verus! {

/// Concurrent iterators which internally use an atomic counter of the positions handed out.
pub trait AtomicIter<T>: ConcurrentIter<Item = T> {
    /// The counter of reserved positions that this iterator holds.
    spec fn counter_spec(&self) -> AtomicCounter;

    /// Returns a reference to the underlying counter of reserved positions.
    fn counter(&self) -> (r: &AtomicCounter)
        ensures
            *r == self.counter_spec(),
    ;

    /// Reserves `number_to_fetch` positions and returns the first of them; returns `None` if
    /// the iterator is terminated and there are no more elements to be fetched.
    fn progress_and_get_begin_idx(&self, number_to_fetch: usize) -> (r: Option<usize>)
        ensures
            r matches Some(b) ==> (self.initial_len_spec() matches Some(n) ==> b < n),
    ;

    /// Returns the element at position `item_idx`; `None` if the iterator has none there.
    fn get(&self, item_idx: usize) -> (r: Option<T>)
        ensures
            r matches Some(x) ==> self.is_item_at(item_idx as int, x),
    ;

    /// Reserves the next position and returns its element together with the position.
    fn fetch_one(&self) -> (r: Option<Next<T>>)
        ensures
            r matches Some(n) ==> self.is_item_at(n.idx as int, n.value),
    {
        let idx = self.counter().fetch_and_increment();
        match self.get(idx) {
            Some(value) => Some(Next { idx, value }),
            None => None,
        }
    }

    /// Reserves at most `n` consecutive positions and returns their elements.
    fn fetch_n(&self, n: usize) -> (r: Option<NextChunk<T>>)
        ensures
            r matches Some(c) ==> {
                &&& 0 < c.values@.len() <= n
                &&& forall|j: int| 0 <= j < c.values@.len() ==> self.is_item_at(c.begin_idx + j, #[trigger] c.values@[j])
            },
    ;

    /// Skips all remaining elements: pulls that follow return `None`.
    fn early_exit(&self);
}

/// An atomic iterator whose number of elements is known when it is created.
pub trait AtomicIterWithInitialLen<T>: AtomicIter<T> {
    /// Returns the initial length of the atomic iterator.
    fn initial_len(&self) -> (r: usize)
        ensures
            self.initial_len_spec() == Some(r as nat),
    ;
}

} // verus!
