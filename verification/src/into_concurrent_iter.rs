use vstd::prelude::*;
use core::ops::Range;
use std::collections::VecDeque;
use crate::implementations::vec_deque::con_iter_ref::ConIterVecDequeRef;
use crate::iter::con_iter::ConcurrentIter;
use crate::iter::implementors::array::ConIterOfArray;
use crate::iter::implementors::range::{ConIterOfRange, spec_range_len};
use crate::iter::implementors::slice::ConIterOfSlice;
use crate::iter::implementors::vec::ConIterOfVec;
use crate::iter::progress::remaining_len;

verus! {

/// Moves the elements of `deque` into a vector, in order.
fn deque_into_vec<T>(deque: VecDeque<T>) -> (r: Vec<T>)
    ensures
        r@ == deque@,
{
    let ghost src = deque@;
    let mut deque = deque;
    let mut vec: Vec<T> = Vec::new();
    while deque.len() > 0
        invariant
            vec@ + deque@ == src,
        decreases deque@.len(),
    {
        let ghost before = deque@;
        match deque.pop_front() {
            Some(x) => {
                proof {
                    assert(vec@.push(x) + deque@ =~= vec@ + before);
                }
                vec.push(x);
            },
            None => {},
        }
    }
    assert(deque@.len() == 0);
    assert(vec@ =~= src);
    vec
}

/// A source (collection or generator) that can be converted into a concurrent iterator with
/// `into_con_iter`: the concurrent counterpart of `IntoIterator`.
pub trait IntoConcurrentIter: Sized {
    /// Type of the element that the concurrent iterator yields.
    type Item;

    /// Type of the concurrent iterator that this type can be converted into.
    type IntoIter: ConcurrentIter<Item = Self::Item>;

    /// Number of elements of the source, when it is known.
    spec fn exact_len_spec(&self) -> Option<nat>;

    /// Converts this source into a concurrent iterator over its elements.
    fn into_con_iter(self) -> (r: Self::IntoIter)
        ensures
            r.initial_len_spec() == self.exact_len_spec(),
    ;

    /// Returns the number of elements of the source, when it is known.
    fn try_get_exact_len(&self) -> (r: Option<usize>)
        ensures
            r matches Some(n) ==> self.exact_len_spec() == Some(n as nat),
            r is None ==> self.exact_len_spec() is None,
    ;
}

impl<'a, T> IntoConcurrentIter for &'a [T] {
    type Item = &'a T;

    type IntoIter = ConIterOfSlice<'a, T>;

    open spec fn exact_len_spec(&self) -> Option<nat> {
        Some(self@.len())
    }

    fn into_con_iter(self) -> (r: ConIterOfSlice<'a, T>)
        ensures
            r.slice_view() == self@,
    {
        ConIterOfSlice::new(self)
    }

    fn try_get_exact_len(&self) -> (r: Option<usize>) {
        Some(self.len())
    }
}

impl<T> IntoConcurrentIter for Vec<T> {
    type Item = T;

    type IntoIter = ConIterOfVec<T>;

    open spec fn exact_len_spec(&self) -> Option<nat> {
        Some(self@.len())
    }

    fn into_con_iter(self) -> (r: ConIterOfVec<T>)
        ensures
            r.source() == self@,
    {
        ConIterOfVec::new(self)
    }

    fn try_get_exact_len(&self) -> (r: Option<usize>) {
        Some(self.len())
    }
}

impl<const N: usize, T> IntoConcurrentIter for [T; N] {
    type Item = T;

    type IntoIter = ConIterOfArray<N, T>;

    open spec fn exact_len_spec(&self) -> Option<nat> {
        Some(N as nat)
    }

    fn into_con_iter(self) -> (r: ConIterOfArray<N, T>)
        ensures
            r.source() == self@,
    {
        ConIterOfArray::new(self)
    }

    fn try_get_exact_len(&self) -> (r: Option<usize>) {
        Some(N)
    }
}

impl IntoConcurrentIter for Range<usize> {
    type Item = usize;

    type IntoIter = ConIterOfRange;

    open spec fn exact_len_spec(&self) -> Option<nat> {
        Some(spec_range_len(self.start as int, self.end as int) as nat)
    }

    fn into_con_iter(self) -> (r: ConIterOfRange)
        ensures
            r.start() == self.start,
            r.end() == self.end,
    {
        ConIterOfRange::new(self)
    }

    fn try_get_exact_len(&self) -> (r: Option<usize>) {
        Some(remaining_len(self.start, self.end))
    }
}

impl<'a, T> IntoConcurrentIter for &'a VecDeque<T> {
    type Item = &'a T;

    type IntoIter = ConIterVecDequeRef<'a, T>;

    open spec fn exact_len_spec(&self) -> Option<nat> {
        Some(self@.len())
    }

    fn into_con_iter(self) -> (r: ConIterVecDequeRef<'a, T>)
        ensures
            r.source() == self@,
    {
        ConIterVecDequeRef::new(self)
    }

    fn try_get_exact_len(&self) -> (r: Option<usize>) {
        Some(self.len())
    }
}

impl<T> IntoConcurrentIter for VecDeque<T> {
    type Item = T;

    type IntoIter = ConIterOfVec<T>;

    open spec fn exact_len_spec(&self) -> Option<nat> {
        Some(self@.len())
    }

    fn into_con_iter(self) -> (r: ConIterOfVec<T>)
        ensures
            r.source() == self@,
    {
        ConIterOfVec::new(deque_into_vec(self))
    }

    fn try_get_exact_len(&self) -> (r: Option<usize>) {
        Some(self.len())
    }
}

} // verus!
