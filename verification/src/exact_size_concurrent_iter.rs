use vstd::prelude::*;
use core::ops::Range;
use crate::implementations::vec_deque::con_iter_ref::ConIterVecDequeRef;
use crate::implementations::vec_drain::con_iter::ConIterVecDrain;
use crate::iter::con_iter::ConcurrentIter;
use crate::iter::implementors::array::ConIterOfArray;
use crate::iter::implementors::cloned::slice::ClonedConIterOfSlice;
use crate::iter::implementors::range::{ConIterOfRange, spec_range_len};
use crate::iter::implementors::slice::ConIterOfSlice;
use crate::iter::implementors::vec::ConIterOfVec;
use crate::iter::progress::remaining_len;

verus! {

/// A concurrent iterator that knows the number of elements it has left.
pub trait ExactSizeConcurrentIter: ConcurrentIter {
    /// Number of elements left to be pulled.
    fn len(&self) -> (r: usize)
        ensures
            self.initial_len_spec() matches Some(n) && r <= n,
    ;
}

impl<'a, T> ExactSizeConcurrentIter for ConIterOfSlice<'a, T> {
    fn len(&self) -> (r: usize) {
        self.try_get_len().unwrap()
    }
}

impl<T> ExactSizeConcurrentIter for ConIterOfVec<T> {
    fn len(&self) -> (r: usize) {
        self.try_get_len().unwrap()
    }
}

impl<const N: usize, T> ExactSizeConcurrentIter for ConIterOfArray<N, T> {
    fn len(&self) -> (r: usize) {
        self.try_get_len().unwrap()
    }
}

impl ExactSizeConcurrentIter for ConIterOfRange {
    fn len(&self) -> (r: usize) {
        self.try_get_len().unwrap()
    }
}

impl<'a, T> ExactSizeConcurrentIter for ConIterVecDequeRef<'a, T> {
    fn len(&self) -> (r: usize) {
        self.try_get_len().unwrap()
    }
}

impl<'a, T> ExactSizeConcurrentIter for ConIterVecDrain<'a, T> {
    fn len(&self) -> (r: usize) {
        ConIterVecDrain::len(self)
    }
}

impl<'a, T: Clone> ExactSizeConcurrentIter for ClonedConIterOfSlice<'a, T> {
    fn len(&self) -> (r: usize) {
        ClonedConIterOfSlice::len(self)
    }
}

/// A source that can be converted into a concurrent iterator of known length.
pub trait IntoExactSizeConcurrentIter: Sized {
    /// Type of the element that the concurrent iterator yields.
    type Item;

    /// Type of the concurrent iterator that this type can be converted into.
    type ConIter: ExactSizeConcurrentIter<Item = Self::Item>;

    /// Number of elements of the source.
    spec fn exact_len_spec(&self) -> nat;

    /// Converts this source into a concurrent iterator of known length.
    fn into_exact_con_iter(self) -> (r: Self::ConIter)
        ensures
            r.initial_len_spec() == Some(self.exact_len_spec()),
    ;

    /// Returns the number of elements of the source.
    fn exact_len(&self) -> (r: usize)
        ensures
            r == self.exact_len_spec(),
    ;
}

impl IntoExactSizeConcurrentIter for Range<usize> {
    type Item = usize;

    type ConIter = ConIterOfRange;

    open spec fn exact_len_spec(&self) -> nat {
        spec_range_len(self.start as int, self.end as int) as nat
    }

    fn into_exact_con_iter(self) -> (r: ConIterOfRange)
        ensures
            r.start() == self.start,
            r.end() == self.end,
    {
        ConIterOfRange::new(self)
    }

    fn exact_len(&self) -> (r: usize) {
        remaining_len(self.start, self.end)
    }
}

} // verus!
