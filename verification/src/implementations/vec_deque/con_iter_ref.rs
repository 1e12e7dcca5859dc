use vstd::prelude::*;
use vstd::std_specs::iter::IteratorSpec;
use std::collections::VecDeque;
use crate::iter::atomic_counter::AtomicCounter;
use crate::iter::con_iter::ConcurrentIter;
use crate::iter::progress::{begin_idx_in_range, chunk_end, num_taken, remaining_len, spec_num_taken};
use crate::next::{Next, NextChunk};

verus! {

/// `VecDeque::as_slices`: std documents that it returns a pair of slices which contain, in
/// order, the contents of the deque.
#[verifier::external_body]
fn deque_as_slices<'a, T>(deque: &'a VecDeque<T>) -> (r: (&'a [T], &'a [T]))
    ensures
        r.0@ + r.1@ == deque@,
{
    deque.as_slices()
}

/// Position of an element of a jagged array: the slice it is in and its position in that slice.
pub struct JaggedIndex {
    /// Index of the slice.
    pub f: usize,
    /// Position within the slice.
    pub i: usize,
}

impl JaggedIndex {
    /// Creates the position `i` of slice `f`.
    pub fn new(f: usize, i: usize) -> (r: Self)
        ensures
            r.f == f,
            r.i == i,
    {
        JaggedIndex { f, i }
    }
}

/// Maps a position of a `VecDeque` to the position in one of the two slices it is stored in.
pub struct VecDequeSlicesIndexer;

impl VecDequeSlicesIndexer {
    /// Creates the indexer.
    pub fn pseudo_default() -> (r: Self) {
        VecDequeSlicesIndexer
    }

    /// Jagged position of `flat_index` when the first slice holds `first_len` elements.
    pub open spec fn spec_jagged_index(first_len: int, flat_index: int) -> (int, int) {
        if flat_index < first_len {
            (0, flat_index)
        } else {
            (1, flat_index - first_len)
        }
    }

    /// Position of `flat_index` in the pair of slices `(first, second)` of a deque.
    pub fn jagged_index_unchecked<T>(&self, first: &[T], flat_index: usize) -> (r: JaggedIndex)
        ensures
            (r.f as int, r.i as int) == Self::spec_jagged_index(first@.len() as int, flat_index as int),
    {
        if flat_index < first.len() {
            JaggedIndex::new(0, flat_index)
        } else {
            JaggedIndex::new(1, flat_index - first.len())
        }
    }

    /// Position of `flat_index` in the slices `arrays`, of which the first is `arrays[0]`.
    pub fn jagged_index_unchecked_from_slice<T>(&self, arrays: &[&[T]], flat_index: usize) -> (r: JaggedIndex)
        requires
            arrays@.len() >= 1,
        ensures
            (r.f as int, r.i as int) == Self::spec_jagged_index(arrays@[0]@.len() as int, flat_index as int),
    {
        let first: &[T] = arrays[0];
        if flat_index < first.len() {
            JaggedIndex::new(0, flat_index)
        } else {
            JaggedIndex::new(1, flat_index - first.len())
        }
    }
}

/// Concurrent iterator of a reference to a `VecDeque`, yielding references to its elements.
pub struct ConIterVecDequeRef<'a, T> {
    first: &'a [T],
    second: &'a [T],
    indexer: VecDequeSlicesIndexer,
    counter: AtomicCounter,
}

impl<'a, T> ConIterVecDequeRef<'a, T> {
    #[verifier::type_invariant]
    spec fn fits_usize(&self) -> bool {
        self.first@.len() + self.second@.len() <= usize::MAX
    }

    /// The elements of the deque, in order.
    pub closed spec fn source(&self) -> Seq<T> {
        self.first@ + self.second@
    }

    /// Creates a concurrent iterator over the elements of `vec_deque_ref`.
    pub fn new(vec_deque_ref: &'a VecDeque<T>) -> (r: Self)
        ensures
            r.source() == vec_deque_ref@,
    {
        let len = vec_deque_ref.len();
        let (first, second) = deque_as_slices(vec_deque_ref);
        assert(first@.len() + second@.len() == len);
        ConIterVecDequeRef { first, second, indexer: VecDequeSlicesIndexer, counter: AtomicCounter::new() }
    }

    /// Number of elements of the deque.
    pub fn source_len(&self) -> (r: usize)
        ensures
            r == self.source().len(),
    {
        proof {
            use_type_invariant(self);
        }
        self.first.len() + self.second.len()
    }

    /// Returns a reference to the element at position `item_idx`, if the deque has one.
    pub fn get(&self, item_idx: usize) -> (r: Option<&'a T>)
        ensures
            r == (if item_idx < self.source().len() { Some(&self.source()[item_idx as int]) } else { None::<&T> }),
    {
        if item_idx < self.source_len() {
            let idx = self.indexer.jagged_index_unchecked(self.first, item_idx);
            if idx.f == 0 {
                Some(&self.first[idx.i])
            } else {
                Some(&self.second[idx.i])
            }
        } else {
            None
        }
    }

    /// Reserves `number_to_fetch` positions and returns the first of them, if it lies within the deque.
    pub fn progress_and_get_begin_idx(&self, number_to_fetch: usize) -> (r: Option<usize>)
        ensures
            r matches Some(b) ==> b < self.source().len(),
    {
        let begin_idx = self.counter.fetch_and_add(number_to_fetch);
        begin_idx_in_range(begin_idx, self.source_len())
    }

    /// Returns references to the elements of the chunk of at most `chunk_size` positions beginning at `begin_idx`.
    pub fn chunk_at(&self, begin_idx: usize, chunk_size: usize) -> (r: NextChunk<&'a T>)
        requires
            begin_idx < self.source().len(),
        ensures
            self.source().len() <= usize::MAX,
            r.begin_idx == begin_idx,
            r.values@.len() == crate::iter::progress::spec_chunk_end(begin_idx as int, chunk_size as int, self.source().len() as int) - begin_idx,
            forall|j: int| 0 <= j < r.values@.len() ==> #[trigger] r.values@[j] == &self.source()[begin_idx + j],
    {
        let len = self.source_len();
        let end_idx = chunk_end(begin_idx, chunk_size, len);
        let mut values: Vec<&'a T> = Vec::new();
        let mut i = begin_idx;
        while i < end_idx
            invariant
                begin_idx <= i <= end_idx <= len,
                len == self.source().len(),
                values@.len() == i - begin_idx,
                forall|j: int| 0 <= j < values@.len() ==> #[trigger] values@[j] == &self.source()[begin_idx + j],
            decreases end_idx - i,
        {
            match self.get(i) {
                Some(x) => values.push(x),
                None => {},
            }
            i += 1;
        }
        NextChunk { begin_idx, values }
    }

    /// The sequential iterator over the elements that remain once a counter at `current` has
    /// handed out its positions: references to the elements from the number taken on.
    pub fn seq_iter_from(&self, current: usize) -> (r: std::vec::IntoIter<&'a T>)
        ensures
            r.remaining() == self.source().as_ref().subrange(
                spec_num_taken(current as int, self.source().len() as int),
                self.source().len() as int,
            ),
    {
        let len = self.source_len();
        let begin = num_taken(current, len);
        if begin < len {
            let v = self.chunk_at(begin, len - begin).values;
            let r = v.into_iter();
            assert(r.remaining() =~= self.source().as_ref().subrange(begin as int, len as int));
            r
        } else {
            let v: Vec<&'a T> = Vec::new();
            let r = v.into_iter();
            assert(r.remaining() =~= self.source().as_ref().subrange(len as int, len as int));
            r
        }
    }

    /// The chunk that a reservation of `chunk_size` positions beginning at `begin_idx` hands out:
    /// `None` when nothing is reserved or the reservation begins at or past the end of the deque.
    pub fn chunk_from(&self, begin_idx: usize, chunk_size: usize) -> (r: Option<NextChunk<&'a T>>)
        ensures
            self.source().len() <= usize::MAX,
            r is None <==> (chunk_size == 0 || begin_idx >= self.source().len()),
            r matches Some(c) ==> {
                &&& c.begin_idx == begin_idx
                &&& c.values@.len() == crate::iter::progress::spec_chunk_end(begin_idx as int, chunk_size as int, self.source().len() as int) - begin_idx
                &&& forall|j: int| 0 <= j < c.values@.len() ==> #[trigger] c.values@[j] == &self.source()[begin_idx + j]
            },
    {
        let len = self.source_len();
        if chunk_size == 0 {
            return None;
        }
        match begin_idx_in_range(begin_idx, len) {
            Some(b) => Some(self.chunk_at(b, chunk_size)),
            None => None,
        }
    }
}

impl<'a, T> View for ConIterVecDequeRef<'a, T> {
    /// The elements of the source, in order.
    type V = Seq<T>;

    open spec fn view(&self) -> Seq<T> {
        self.source()
    }
}

impl<'a, T> ConcurrentIter for ConIterVecDequeRef<'a, T> {
    type Item = &'a T;

    type SeqIter = std::vec::IntoIter<&'a T>;

    open spec fn is_item_at(&self, idx: int, item: &'a T) -> bool {
        0 <= idx < self.source().len() && item == &self.source()[idx]
    }

    open spec fn initial_len_spec(&self) -> Option<nat> {
        Some(self.source().len())
    }

    /// The sequential iterator yields references to the elements after the positions handed out.
    fn into_seq_iter(self) -> (r: Self::SeqIter)
        ensures
            r.remaining().is_suffix_of(self.source().as_ref()),
    {
        let current = self.counter.current();
        self.seq_iter_from(current)
    }


    fn next_id_and_value(&self) -> (r: Option<Next<&'a T>>) {
        let idx = self.counter.fetch_and_increment();
        match self.get(idx) {
            Some(value) => Some(Next { idx, value }),
            None => None,
        }
    }

    /// A chunk holds `chunk_size` elements unless it reaches the end of the deque.
    fn next_chunk(&self, chunk_size: usize) -> (r: Option<NextChunk<&'a T>>)
        ensures
            r matches Some(c) ==> c.values@.len() == crate::iter::progress::spec_chunk_end(c.begin_idx as int, chunk_size as int, self.source().len() as int) - c.begin_idx,
    {
        if chunk_size == 0 {
            return None;
        }
        let begin_idx = self.counter.fetch_and_add(chunk_size);
        self.chunk_from(begin_idx, chunk_size)
    }

    fn skip_to_end(&self) {
        let _ = self.counter.get_current_max_value(self.source_len());
    }

    fn try_get_len(&self) -> (r: Option<usize>) {
        let current = self.counter.current();
        Some(remaining_len(current, self.source_len()))
    }

    fn try_get_initial_len(&self) -> (r: Option<usize>) {
        Some(self.source_len())
    }
}

} // verus!
