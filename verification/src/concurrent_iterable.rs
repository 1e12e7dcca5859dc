use vstd::prelude::*;
use core::ops::Range;
use std::collections::VecDeque;
use crate::implementations::vec_deque::con_iter_ref::ConIterVecDequeRef;
use crate::iter::con_iter::ConcurrentIter;
use crate::iter::implementors::range::{ConIterOfRange, spec_range_len};
use crate::iter::implementors::slice::ConIterOfSlice;

verus! {

/// A collection whose elements can be iterated concurrently by references living for `'a`,
/// any number of times, with `con_iter`.
pub trait ConcurrentIterable<'a> {
    /// Type of the element that the concurrent iterator yields.
    type Item;

    /// Type of the concurrent iterator that `con_iter` creates.
    type Iter: ConcurrentIter<Item = Self::Item>;

    /// Number of elements of the collection.
    spec fn len_spec(&self) -> nat;

    /// Creates a concurrent iterator over the elements of this collection.
    fn con_iter(&'a self) -> (r: Self::Iter)
        ensures
            r.initial_len_spec() == Some(self.len_spec()),
    ;
}

impl<'a, T: 'a> ConcurrentIterable<'a> for Vec<T> {
    type Item = &'a T;

    type Iter = ConIterOfSlice<'a, T>;

    open spec fn len_spec(&self) -> nat {
        self@.len()
    }

    fn con_iter(&'a self) -> (r: ConIterOfSlice<'a, T>)
        ensures
            r.slice_view() == self@,
    {
        ConIterOfSlice::new(self.as_slice())
    }
}

impl<'a, const N: usize, T: 'a> ConcurrentIterable<'a> for [T; N] {
    type Item = &'a T;

    type Iter = ConIterOfSlice<'a, T>;

    open spec fn len_spec(&self) -> nat {
        N as nat
    }

    fn con_iter(&'a self) -> (r: ConIterOfSlice<'a, T>)
        ensures
            r.slice_view() == self@,
    {
        ConIterOfSlice::new(self.as_slice())
    }
}

impl<'a, T: 'a> ConcurrentIterable<'a> for [T] {
    type Item = &'a T;

    type Iter = ConIterOfSlice<'a, T>;

    open spec fn len_spec(&self) -> nat {
        self@.len()
    }

    fn con_iter(&'a self) -> (r: ConIterOfSlice<'a, T>)
        ensures
            r.slice_view() == self@,
    {
        ConIterOfSlice::new(self)
    }
}

impl<'a> ConcurrentIterable<'a> for Range<usize> {
    type Item = usize;

    type Iter = ConIterOfRange;

    open spec fn len_spec(&self) -> nat {
        spec_range_len(self.start as int, self.end as int) as nat
    }

    fn con_iter(&'a self) -> (r: ConIterOfRange)
        ensures
            r.start() == self.start,
            r.end() == self.end,
    {
        ConIterOfRange::new(self.start..self.end)
    }
}

impl<'a, T: 'a> ConcurrentIterable<'a> for VecDeque<T> {
    type Item = &'a T;

    type Iter = ConIterVecDequeRef<'a, T>;

    open spec fn len_spec(&self) -> nat {
        self@.len()
    }

    fn con_iter(&'a self) -> (r: ConIterVecDequeRef<'a, T>)
        ensures
            r.source() == self@,
    {
        ConIterVecDequeRef::new(self)
    }
}

/// A collection that can be iterated concurrently by reference, both directly with
/// `con_iter` and through the iterable that `as_concurrent_iterable` returns.
pub trait ConcurrentCollection<'a> {
    /// The concurrent iterable over the elements of the collection.
    type Iterable: ConcurrentIterable<'a> + ?Sized;

    /// Number of elements of the collection.
    spec fn collection_len(&self) -> nat;

    /// Returns the concurrent iterable over the elements of the collection.
    fn as_concurrent_iterable(&'a self) -> (r: &'a Self::Iterable)
        ensures
            r.len_spec() == self.collection_len(),
    ;
}

impl<'a, T: 'a> ConcurrentCollection<'a> for VecDeque<T> {
    type Iterable = VecDeque<T>;

    open spec fn collection_len(&self) -> nat {
        self@.len()
    }

    fn as_concurrent_iterable(&'a self) -> (r: &'a VecDeque<T>)
        ensures
            r@ == self@,
    {
        self
    }
}

impl<'a, T: 'a> ConcurrentCollection<'a> for Vec<T> {
    type Iterable = [T];

    open spec fn collection_len(&self) -> nat {
        self@.len()
    }

    fn as_concurrent_iterable(&'a self) -> (r: &'a [T])
        ensures
            r@ == self@,
    {
        self.as_slice()
    }
}

} // verus!
