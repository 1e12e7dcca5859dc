use vstd::prelude::*;
use vstd::std_specs::iter::IteratorSpec;
use crate::iter::atomic_counter::AtomicCounter;
use crate::iter::atomic_iter::{AtomicIter, AtomicIterWithInitialLen};
use crate::iter::con_iter::ConcurrentIter;
use crate::iter::progress::spec_chunk_end;
use crate::iter::slots::ElementSlots;
use crate::next::{Next, NextChunk};

verus! {

/// `Vec::from` on an array: std documents that it allocates a vector and moves the array's
/// items into it, in order.
#[verifier::external_body]
fn array_into_vec<T, const N: usize>(array: [T; N]) -> (r: Vec<T>)
    ensures
        r@ == array@,
{
    Vec::from(array)
}

/// A concurrent iterator over an array, consuming the array and yielding its elements.
///
/// A pull reserves the next positions and moves their elements out of their slots under one
/// lock; the counter of reserved positions advances by what each pull asked for.
pub struct ConIterOfArray<const N: usize, T> {
    slots: ElementSlots<T>,
    counter: AtomicCounter,
}

impl<const N: usize, T> ConIterOfArray<N, T> {
    /// The counter of reserved positions that this iterator holds.
    pub closed spec fn counter_view(&self) -> AtomicCounter {
        self.counter
    }

    #[verifier::type_invariant]
    spec fn holds_n_slots(&self) -> bool {
        self.slots.source().len() == N
    }

    /// The elements of the array that this iterator was created from.
    pub closed spec fn source(&self) -> Seq<T> {
        self.slots.source()
    }

    /// Consumes and creates a concurrent iterator of the given `array`.
    pub fn new(array: [T; N]) -> (r: Self)
        ensures
            r.source() == array@,
    {
        let vec = array_into_vec(array);
        ConIterOfArray { slots: ElementSlots::new(vec), counter: AtomicCounter::new() }
    }

    /// Consumes the iterator and returns the elements that were not pulled: exactly the
    /// elements of the array after the reserved positions, in order.
    pub fn split_off_right(self) -> (r: Vec<T>)
        ensures
            r@.is_suffix_of(self.source()),
    {
        self.slots.into_rest()
    }

    /// Moves out the element at the reserved position `item_idx`; `None` if it is not reserved
    /// yet, or was already moved out.
    pub fn take_at(&self, item_idx: usize) -> (r: Option<T>)
        ensures
            r matches Some(x) ==> item_idx < N && x == self.source()[item_idx as int],
    {
        proof {
            use_type_invariant(self);
        }
        self.slots.take_reserved(item_idx)
    }

    /// Reserves `number_to_fetch` positions and returns the first of them, if it lies within the array.
    pub fn reserve(&self, number_to_fetch: usize) -> (r: Option<usize>)
        ensures
            number_to_fetch == 0 ==> r is None,
            r matches Some(b) ==> b < N,
    {
        proof {
            use_type_invariant(self);
        }
        let _ = self.counter.fetch_and_add(number_to_fetch);
        self.slots.reserve_positions(number_to_fetch)
    }

    /// Reserves the next position and moves its element out.
    pub fn take_next(&self) -> (r: Option<Next<T>>)
        ensures
            r matches Some(n) ==> n.idx < N && n.value == self.source()[n.idx as int],
    {
        proof {
            use_type_invariant(self);
        }
        let _ = self.counter.fetch_and_increment();
        self.slots.reserve_one()
    }

    /// Reserves at most `n` consecutive positions and moves their elements out: the chunk holds
    /// `n` elements unless it reaches the end of the array, and they are the elements at its positions.
    pub fn take_chunk(&self, n: usize) -> (r: Option<NextChunk<T>>)
        ensures
            n == 0 ==> r is None,
            r matches Some(c) ==> {
                &&& 0 < c.values@.len() <= n
                &&& c.begin_idx + c.values@.len() <= N
                &&& c.values@.len() == spec_chunk_end(c.begin_idx as int, n as int, N as int) - c.begin_idx
                &&& c.values@ == self.source().subrange(c.begin_idx as int, c.begin_idx + c.values@.len())
            },
    {
        proof {
            use_type_invariant(self);
        }
        if n == 0 {
            return None;
        }
        let _ = self.counter.fetch_and_add(n);
        self.slots.reserve_chunk(n)
    }

    /// Reserves every position left and drops the elements that were not pulled.
    pub fn jump_to_end(&self) {
        let _ = self.counter.get_current_max_value(N);
        self.slots.skip_rest()
    }
}

impl<const N: usize, T> View for ConIterOfArray<N, T> {
    /// The elements of the source, in order.
    type V = Seq<T>;

    open spec fn view(&self) -> Seq<T> {
        self.source()
    }
}

impl<const N: usize, T> ConcurrentIter for ConIterOfArray<N, T> {
    type Item = T;

    type SeqIter = std::vec::IntoIter<T>;

    open spec fn is_item_at(&self, idx: int, item: T) -> bool {
        0 <= idx < N && item == self.source()[idx]
    }

    open spec fn initial_len_spec(&self) -> Option<nat> {
        Some(N as nat)
    }

    /// The sequential iterator yields the elements of the array after the positions handed out.
    fn into_seq_iter(self) -> (r: Self::SeqIter)
        ensures
            r.remaining().is_suffix_of(self.source()),
    {
        let v = self.split_off_right();
        v.into_iter()
    }

    fn next_id_and_value(&self) -> (r: Option<Next<T>>) {
        self.take_next()
    }

    /// A chunk holds `chunk_size` elements unless it reaches the end of the array.
    fn next_chunk(&self, chunk_size: usize) -> (r: Option<NextChunk<T>>)
        ensures
            r matches Some(c) ==> c.values@.len() == spec_chunk_end(c.begin_idx as int, chunk_size as int, N as int) - c.begin_idx,
    {
        proof {
            use_type_invariant(self);
        }
        let r = self.take_chunk(chunk_size);
        if let Some(c) = &r {
            assert(forall|j: int| 0 <= j < c.values@.len() ==> #[trigger] c.values@[j] == self.source()[c.begin_idx + j]);
        }
        r
    }

    fn skip_to_end(&self) {
        self.jump_to_end()
    }

    fn try_get_len(&self) -> (r: Option<usize>) {
        proof {
            use_type_invariant(self);
        }
        Some(self.slots.rest_len())
    }

    fn try_get_initial_len(&self) -> (r: Option<usize>) {
        Some(N)
    }
}

impl<const N: usize, T> AtomicIter<T> for ConIterOfArray<N, T> {
    open spec fn counter_spec(&self) -> AtomicCounter {
        self.counter_view()
    }

    fn counter(&self) -> (r: &AtomicCounter) {
        assert(self.counter_spec() == self.counter);
        &self.counter
    }

    fn progress_and_get_begin_idx(&self, number_to_fetch: usize) -> (r: Option<usize>) {
        self.reserve(number_to_fetch)
    }

    fn get(&self, item_idx: usize) -> (r: Option<T>) {
        self.take_at(item_idx)
    }

    /// A chunk holds `n` elements unless it reaches the end of the array.
    fn fetch_n(&self, n: usize) -> (r: Option<NextChunk<T>>)
        ensures
            r matches Some(c) ==> c.values@.len() == spec_chunk_end(c.begin_idx as int, n as int, N as int) - c.begin_idx,
    {
        proof {
            use_type_invariant(self);
        }
        let r = self.take_chunk(n);
        if let Some(c) = &r {
            assert(forall|j: int| 0 <= j < c.values@.len() ==> #[trigger] c.values@[j] == self.source()[c.begin_idx + j]);
        }
        r
    }

    fn early_exit(&self) {
        self.jump_to_end()
    }
}

impl<const N: usize, T> AtomicIterWithInitialLen<T> for ConIterOfArray<N, T> {
    fn initial_len(&self) -> (r: usize) {
        N
    }
}

} // verus!
