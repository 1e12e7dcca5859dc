use vstd::prelude::*;
use vstd::std_specs::iter::IteratorSpec;
use core::marker::PhantomData;
use core::ops::{Range, RangeFull, RangeInclusive};
use crate::iter::con_iter::ConcurrentIter;
use crate::iter::progress::spec_chunk_end;
use crate::iter::slots::ElementSlots;
use crate::next::{Next, NextChunk};

verus! {

#[verifier::external_type_specification]
#[verifier::external_body]
pub struct ExRangeFull(RangeFull);

/// A range of positions of a slice, to be drained.
pub trait DrainRange {
    /// First position and exclusive end of the range within a slice of `len` elements.
    spec fn spec_bounds(&self, len: nat) -> (int, int);

    /// Returns the first position and exclusive end of the range within a slice of `len` elements.
    fn bounds(&self, len: usize) -> (r: (usize, usize))
        requires
            0 <= self.spec_bounds(len as nat).0 <= self.spec_bounds(len as nat).1 <= len,
        ensures
            (r.0 as int, r.1 as int) == self.spec_bounds(len as nat),
    ;
}

/// `RangeInclusive::start`: std documents that it returns the lower bound of the range, and that
/// the value is unspecified once the range has been iterated to exhaustion; nothing is stated then.
pub assume_specification<Idx>[ RangeInclusive::<Idx>::start ](range: &RangeInclusive<Idx>) -> (r: &Idx)
    ensures
        !range@.exhausted ==> *r == range@.start,
;

/// `RangeInclusive::end`: std documents that it returns the upper bound of the range (inclusive),
/// and that the value is unspecified once the range has been iterated to exhaustion; nothing is
/// stated then.
pub assume_specification<Idx>[ RangeInclusive::<Idx>::end ](range: &RangeInclusive<Idx>) -> (r: &Idx)
    ensures
        !range@.exhausted ==> *r == range@.end,
;

/// Holds when `range` lies within a slice of `len` elements: its start is not after its end,
/// which is not after `len`.
pub open spec fn range_is_within<R: DrainRange>(range: R, len: nat) -> bool {
    &&& 0 <= range.spec_bounds(len).0 <= range.spec_bounds(len).1
    &&& range.spec_bounds(len).1 <= len
}

impl DrainRange for RangeFull {
    open spec fn spec_bounds(&self, len: nat) -> (int, int) {
        (0, len as int)
    }

    fn bounds(&self, len: usize) -> (r: (usize, usize)) {
        (0, len)
    }
}

impl DrainRange for Range<usize> {
    open spec fn spec_bounds(&self, len: nat) -> (int, int) {
        (self.start as int, self.end as int)
    }

    fn bounds(&self, len: usize) -> (r: (usize, usize)) {
        (self.start, self.end)
    }
}

/// An inclusive range `start..=end` drains the positions from `start` through `end`. A range
/// that was iterated to exhaustion has unspecified bounds, and is not a range to drain.
impl DrainRange for RangeInclusive<usize> {
    open spec fn spec_bounds(&self, len: nat) -> (int, int) {
        if self@.exhausted {
            (1, 0)
        } else {
            (self@.start as int, self@.end + 1)
        }
    }

    fn bounds(&self, len: usize) -> (r: (usize, usize)) {
        let start = *self.start();
        let end = *self.end();
        (start, end + 1)
    }
}

/// Concurrent draining iterator over a range of positions of a `Vec`.
///
/// The drained elements are moved out of the vector when the iterator is created, and the
/// elements after the range are moved to close the gap, so that the vector holds the elements
/// before and after the range. None, some or all drained elements may be pulled; the ones that
/// are not are dropped together with the iterator. Positions are reported as positions in the
/// vector before draining.
pub struct ConIterVecDrain<'a, T> {
    slots: ElementSlots<T>,
    begin: usize,
    end: usize,
    phantom: PhantomData<&'a mut Vec<T>>,
}

impl<'a, T> ConIterVecDrain<'a, T> {
    #[verifier::type_invariant]
    spec fn range_matches_slots(&self) -> bool {
        &&& self.begin <= self.end
        &&& self.slots.source().len() == self.end - self.begin
    }

    /// The drained elements, in order.
    pub closed spec fn drained(&self) -> Seq<T> {
        self.slots.source()
    }

    /// Position in the vector of the first drained element.
    pub closed spec fn range_start(&self) -> int {
        self.begin as int
    }

    /// Exclusive end position in the vector of the drained elements.
    pub closed spec fn range_end(&self) -> int {
        self.end as int
    }

    /// Creates a concurrent draining iterator over the positions `range` of `vec`.
    pub fn new<R: DrainRange>(vec: &'a mut Vec<T>, range: R) -> (r: Self)
        requires
            range_is_within(range, old(vec)@.len()),
        ensures
            ({
                let (s, e) = range.spec_bounds(old(vec)@.len());
                &&& r.range_start() == s
                &&& r.range_end() == e
                &&& r.drained() == old(vec)@.subrange(s, e)
                &&& final(vec)@ == old(vec)@.subrange(0, s) + old(vec)@.subrange(e, old(vec)@.len() as int)
            }),
    {
        let (start, end) = range.bounds(vec.len());
        let ghost v0 = vec@;
        let mut middle = vec.split_off(start);
        let mut right = middle.split_off(end - start);
        vec.append(&mut right);
        assert(middle@ == v0.subrange(start as int, end as int));
        let slots = ElementSlots::new(middle);
        ConIterVecDrain { slots, begin: start, end, phantom: PhantomData }
    }

    /// Reserves `number_to_fetch` positions and returns the first of them, if it lies within
    /// the drained range; their elements are then moved out with `take_at`.
    pub fn progress_and_get_begin_idx(&self, number_to_fetch: usize) -> (r: Option<usize>)
        ensures
            number_to_fetch == 0 ==> r is None,
            r matches Some(b) ==> self.range_start() <= b < self.range_end(),
    {
        proof {
            use_type_invariant(self);
        }
        match self.slots.reserve_positions(number_to_fetch) {
            Some(b) => Some(self.begin + b),
            None => None,
        }
    }

    /// Moves out the drained element at the reserved vector position `idx`; `None` if it is
    /// outside the range, not reserved yet, or was already moved out.
    pub fn take_at(&self, idx: usize) -> (r: Option<T>)
        ensures
            r matches Some(x) ==> self.range_start() <= idx < self.range_end() && x == self.drained()[idx - self.range_start()],
    {
        proof {
            use_type_invariant(self);
        }
        if self.begin <= idx && idx < self.end {
            self.slots.take_reserved(idx - self.begin)
        } else {
            None
        }
    }

    /// Consumes the iterator and returns the drained elements that were not pulled: exactly the
    /// drained elements after the reserved positions, in order.
    pub fn remaining_into_seq_iter(self) -> (r: Vec<T>)
        ensures
            r@.is_suffix_of(self.drained()),
    {
        self.slots.into_rest()
    }

    /// Number of drained elements that remain to be pulled.
    pub fn len(&self) -> (r: usize)
        ensures
            r <= self.drained().len(),
    {
        self.slots.rest_len()
    }
}

impl<'a, T> View for ConIterVecDrain<'a, T> {
    /// The elements of the source, in order.
    type V = Seq<T>;

    open spec fn view(&self) -> Seq<T> {
        self.drained()
    }
}

impl<'a, T> ConcurrentIter for ConIterVecDrain<'a, T> {
    type Item = T;

    type SeqIter = std::vec::IntoIter<T>;

    open spec fn is_item_at(&self, idx: int, item: T) -> bool {
        self.range_start() <= idx < self.range_end() && item == self.drained()[idx - self.range_start()]
    }

    open spec fn initial_len_spec(&self) -> Option<nat> {
        Some(self.drained().len())
    }

    /// The sequential iterator yields the drained elements after the positions handed out.
    fn into_seq_iter(self) -> (r: Self::SeqIter)
        ensures
            r.remaining().is_suffix_of(self.drained()),
    {
        let v = self.remaining_into_seq_iter();
        v.into_iter()
    }

    fn next_id_and_value(&self) -> (r: Option<Next<T>>) {
        proof {
            use_type_invariant(self);
        }
        match self.slots.reserve_one() {
            Some(n) => Some(Next { idx: self.begin + n.idx, value: n.value }),
            None => None,
        }
    }

    /// A chunk holds `chunk_size` elements unless it reaches the end of the drained range, and
    /// they are the drained elements at its positions.
    fn next_chunk(&self, chunk_size: usize) -> (r: Option<NextChunk<T>>)
        ensures
            r matches Some(c) ==> {
                &&& c.values@.len() == spec_chunk_end(c.begin_idx as int, chunk_size as int, self.range_end()) - c.begin_idx
                &&& c.values@ == self.drained().subrange(c.begin_idx - self.range_start(), c.begin_idx - self.range_start() + c.values@.len())
            },
    {
        proof {
            use_type_invariant(self);
        }
        match self.slots.reserve_chunk(chunk_size) {
            Some(c) => {
                let begin_idx = self.begin + c.begin_idx;
                let values = c.values;
                assert(forall|j: int| 0 <= j < values@.len() ==> #[trigger] values@[j] == self.drained()[begin_idx - self.begin + j]);
                Some(NextChunk { begin_idx, values })
            },
            None => None,
        }
    }

    fn skip_to_end(&self) {
        self.slots.skip_rest()
    }

    fn try_get_len(&self) -> (r: Option<usize>) {
        Some(self.len())
    }

    fn try_get_initial_len(&self) -> (r: Option<usize>) {
        proof {
            use_type_invariant(self);
        }
        Some(self.end - self.begin)
    }
}

} // verus!
