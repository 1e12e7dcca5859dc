use vstd::prelude::*;
use core::ops::Range;
use crate::iter::atomic_counter::AtomicCounter;
use crate::iter::atomic_iter::{AtomicIter, AtomicIterWithInitialLen};
use crate::iter::con_iter::ConcurrentIter;
use crate::iter::progress::{begin_idx_in_range, chunk_end, num_taken, remaining_len, spec_num_taken, spec_remaining_len};
use crate::next::{Next, NextChunk};

verus! {

/// A concurrent iterator over a range of integers, yielding `start`, `start + 1`, ... below `end`.
///
/// The bounds that the range's index type must meet (`From<usize>` and `Into<usize>` with
/// arithmetic) are met by `usize` alone, so the iterator is written for `usize`.
pub struct ConIterOfRange {
    range: Range<usize>,
    counter: AtomicCounter,
}

/// Number of integers in `start..end`.
pub open spec fn spec_range_len(start: int, end: int) -> int {
    spec_remaining_len(start, end)
}

impl ConIterOfRange {
    /// The counter of reserved positions that this iterator holds.
    pub closed spec fn counter_view(&self) -> AtomicCounter {
        self.counter
    }

    /// First value of the range.
    pub closed spec fn start(&self) -> int {
        self.range.start as int
    }

    /// Exclusive end of the range.
    pub closed spec fn end(&self) -> int {
        self.range.end as int
    }

    /// Creates a concurrent iterator for the given `range`.
    pub fn new(range: Range<usize>) -> (r: Self)
        ensures
            r.start() == range.start,
            r.end() == range.end,
    {
        ConIterOfRange { range, counter: AtomicCounter::new() }
    }

    /// Returns the range that this iterator was created from.
    pub fn range(&self) -> (r: Range<usize>)
        ensures
            r.start == self.start(),
            r.end == self.end(),
    {
        self.range.start..self.range.end
    }

    /// Returns the value at position `item_idx`, that is `start + item_idx`, if it is below `end`.
    pub fn get(&self, item_idx: usize) -> (r: Option<usize>)
        ensures
            r == (if self.start() + item_idx < self.end() { Some((self.start() + item_idx) as usize) } else { None::<usize> }),
    {
        if self.range.start < self.range.end && item_idx < self.range.end - self.range.start {
            Some(self.range.start + item_idx)
        } else {
            None
        }
    }

    /// Reserves `number_to_fetch` positions and returns the first of them, if it lies within the range.
    pub fn reserve(&self, number_to_fetch: usize) -> (r: Option<usize>)
        ensures
            r matches Some(b) ==> b < spec_range_len(self.start(), self.end()),
    {
        let begin_idx = self.counter.fetch_and_add(number_to_fetch);
        begin_idx_in_range(begin_idx, self.len_of_range())
    }

    /// Number of values in the range; zero when `end <= start`.
    pub fn len_of_range(&self) -> (r: usize)
        ensures
            r == spec_range_len(self.start(), self.end()),
    {
        remaining_len(self.range.start, self.range.end)
    }

    /// Returns the values of the chunk of at most `chunk_size` positions that begins at `begin_idx`.
    pub fn values_at(&self, begin_idx: usize, chunk_size: usize) -> (r: NextChunk<usize>)
        requires
            begin_idx < spec_range_len(self.start(), self.end()),
        ensures
            r.begin_idx == begin_idx,
            r.values@.len() == crate::iter::progress::spec_chunk_end(begin_idx as int, chunk_size as int, spec_range_len(self.start(), self.end())) - begin_idx,
            forall|j: int| 0 <= j < r.values@.len() ==> #[trigger] r.values@[j] == self.start() + begin_idx + j,
    {
        let len = self.len_of_range();
        let end_idx = chunk_end(begin_idx, chunk_size, len);
        let mut values: Vec<usize> = Vec::new();
        let mut i = begin_idx;
        while i < end_idx
            invariant
                begin_idx <= i <= end_idx <= len,
                len == spec_range_len(self.range.start as int, self.range.end as int),
                values@.len() == i - begin_idx,
                forall|j: int| 0 <= j < values@.len() ==> #[trigger] values@[j] == self.range.start + begin_idx + j,
            decreases end_idx - i,
        {
            values.push(self.range.start + i);
            i += 1;
        }
        NextChunk { begin_idx, values }
    }

    /// The values that a reservation of `chunk_size` positions beginning at `begin_idx` hands out:
    /// `None` when nothing is reserved or the reservation begins at or past the end of the range.
    pub fn chunk_from(&self, begin_idx: usize, chunk_size: usize) -> (r: Option<NextChunk<usize>>)
        ensures
            r is None <==> (chunk_size == 0 || begin_idx >= spec_range_len(self.start(), self.end())),
            r matches Some(c) ==> {
                &&& c.begin_idx == begin_idx
                &&& c.values@.len() == crate::iter::progress::spec_chunk_end(begin_idx as int, chunk_size as int, spec_range_len(self.start(), self.end())) - begin_idx
                &&& forall|j: int| 0 <= j < c.values@.len() ==> #[trigger] c.values@[j] == self.start() + begin_idx + j
            },
    {
        if chunk_size == 0 {
            return None;
        }
        match begin_idx_in_range(begin_idx, self.len_of_range()) {
            Some(b) => Some(self.values_at(b, chunk_size)),
            None => None,
        }
    }

    /// The values that remain once a counter at `current` has handed out its positions: the
    /// range from `start + current` up to `end`, empty when the counter is past the end (its
    /// start saturates at `usize::MAX`).
    pub fn seq_iter_from(&self, current: usize) -> (r: Range<usize>)
        ensures
            r.start == (if self.start() + current <= usize::MAX { self.start() + current } else { usize::MAX as int }),
            r.end == self.end(),
    {
        let start = match self.range.start.checked_add(current) {
            Some(s) => s,
            None => usize::MAX,
        };
        start..self.range.end
    }

    /// Reserves the next position and returns its value.
    pub fn take_next(&self) -> (r: Option<Next<usize>>)
        ensures
            r matches Some(n) ==> self.start() + n.idx < self.end() && n.value == self.start() + n.idx,
    {
        let idx = self.counter.fetch_and_increment();
        match self.get(idx) {
            Some(value) => Some(Next { idx, value }),
            None => None,
        }
    }

    /// Reserves at most `chunk_size` consecutive positions and returns their values.
    pub fn take_chunk(&self, chunk_size: usize) -> (r: Option<NextChunk<usize>>)
        ensures
            r matches Some(c) ==> {
                &&& 0 < c.values@.len() <= chunk_size
                &&& c.values@.len() == crate::iter::progress::spec_chunk_end(c.begin_idx as int, chunk_size as int, spec_range_len(self.start(), self.end())) - c.begin_idx
                &&& self.start() + c.begin_idx + c.values@.len() <= self.end()
                &&& forall|j: int| 0 <= j < c.values@.len() ==> #[trigger] c.values@[j] == self.start() + c.begin_idx + j
            },
    {
        if chunk_size == 0 {
            return None;
        }
        let begin_idx = self.counter.fetch_and_add(chunk_size);
        self.chunk_from(begin_idx, chunk_size)
    }

    /// Raises the counter to at least `end`, so that pulls that follow return `None`.
    pub fn jump_to_end(&self) {
        let _ = self.counter.get_current_max_value(self.range.end);
    }
}

impl ConcurrentIter for ConIterOfRange {
    type Item = usize;

    type SeqIter = Range<usize>;

    open spec fn is_item_at(&self, idx: int, item: usize) -> bool {
        0 <= idx && self.start() + idx < self.end() && item == self.start() + idx
    }

    open spec fn initial_len_spec(&self) -> Option<nat> {
        Some(spec_range_len(self.start(), self.end()) as nat)
    }

    fn into_seq_iter(self) -> (r: Range<usize>)
        ensures
            r.end == self.end(),
            self.start() <= r.start,
    {
        let current = self.counter.current();
        self.seq_iter_from(current)
    }

    fn next_id_and_value(&self) -> (r: Option<Next<usize>>) {
        self.take_next()
    }

    fn next_chunk(&self, chunk_size: usize) -> (r: Option<NextChunk<usize>>)
        ensures
            r matches Some(c) ==> c.values@.len() == crate::iter::progress::spec_chunk_end(c.begin_idx as int, chunk_size as int, spec_range_len(self.start(), self.end())) - c.begin_idx,
    {
        self.take_chunk(chunk_size)
    }

    fn skip_to_end(&self) {
        self.jump_to_end()
    }

    fn try_get_len(&self) -> (r: Option<usize>) {
        let current = self.counter.current();
        Some(remaining_len(current, self.len_of_range()))
    }

    fn try_get_initial_len(&self) -> (r: Option<usize>) {
        Some(self.len_of_range())
    }
}

impl AtomicIter<usize> for ConIterOfRange {
    open spec fn counter_spec(&self) -> AtomicCounter {
        self.counter_view()
    }

    fn counter(&self) -> (r: &AtomicCounter) {
        assert(self.counter_spec() == self.counter);
        &self.counter
    }

    fn progress_and_get_begin_idx(&self, number_to_fetch: usize) -> (r: Option<usize>) {
        self.reserve(number_to_fetch)
    }

    fn get(&self, item_idx: usize) -> (r: Option<usize>)
        ensures
            r == (if self.start() + item_idx < self.end() { Some((self.start() + item_idx) as usize) } else { None::<usize> }),
    {
        ConIterOfRange::get(self, item_idx)
    }

    fn fetch_n(&self, n: usize) -> (r: Option<NextChunk<usize>>)
        ensures
            r matches Some(c) ==> c.values@.len() == crate::iter::progress::spec_chunk_end(c.begin_idx as int, n as int, spec_range_len(self.start(), self.end())) - c.begin_idx,
    {
        self.take_chunk(n)
    }

    fn early_exit(&self) {
        self.jump_to_end()
    }
}

impl AtomicIterWithInitialLen<usize> for ConIterOfRange {
    fn initial_len(&self) -> (r: usize) {
        self.len_of_range()
    }
}

} // verus!
