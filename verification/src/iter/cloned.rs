use vstd::prelude::*;
use vstd::std_specs::iter::IteratorSpec;
use core::marker::PhantomData;
use crate::iter::con_iter::ConcurrentIter;
use crate::next::{Next, NextChunk};

verus! {

/// A concurrent iterator that clones the elements of an underlying concurrent iterator over references.
///
/// This `struct` is created by the `cloned` method on the concurrent iterator.
pub struct Cloned<'a, T, C> {
    iter: C,
    phantom: PhantomData<&'a T>,
}

/// Sequential iterator cloning the elements of an iterator over references.
pub struct ClonedSeqIter<'a, T, I> {
    iter: I,
    phantom: PhantomData<&'a T>,
}

impl<'a, T: Clone, I: Iterator<Item = &'a T>> ClonedSeqIter<'a, T, I> {
    /// The underlying iterator.
    pub closed spec fn inner(&self) -> I {
        self.iter
    }

    /// Advances the underlying iterator and clones the element it yields.
    pub fn next(&mut self) -> (r: Option<T>)
        ensures
            final(self).inner().obeys_prophetic_iter_laws() == old(self).inner().obeys_prophetic_iter_laws(),
            final(self).inner().obeys_prophetic_iter_laws() ==> ({
                if old(self).inner().remaining().len() > 0 {
                    &&& r is Some
                    &&& cloned::<T>(*old(self).inner().remaining()[0], r->0)
                    &&& final(self).inner().remaining() == old(self).inner().remaining().drop_first()
                } else {
                    &&& r is None
                    &&& final(self).inner().remaining() == old(self).inner().remaining()
                }
            }),
    {
        match self.iter.next() {
            Some(x) => Some(x.clone()),
            None => None,
        }
    }
}

impl<'a, T: Clone + 'a, C: ConcurrentIter<Item = &'a T>> Cloned<'a, T, C> {
    /// The underlying concurrent iterator.
    pub closed spec fn underlying(&self) -> C {
        self.iter
    }

    /// Creates the cloning iterator over `iter`.
    pub fn new(iter: C) -> (r: Self)
        ensures
            r.underlying() == iter,
    {
        Cloned { iter, phantom: PhantomData }
    }

    /// Returns a reference to the underlying concurrent iterator.
    pub fn underlying_iter(&self) -> (r: &C)
        ensures
            *r == self.underlying(),
    {
        &self.iter
    }

    /// Converts into a sequential iterator over clones of the elements that were not pulled.
    pub fn into_seq_cloned(self) -> ClonedSeqIter<'a, T, C::SeqIter> {
        ClonedSeqIter { iter: self.iter.into_seq_iter(), phantom: PhantomData }
    }
}

impl<'a, T: Clone + 'a, C: ConcurrentIter<Item = &'a T>> ConcurrentIter for Cloned<'a, T, C> {
    type Item = T;

    type SeqIter = ClonedSeqIter<'a, T, C::SeqIter>;

    open spec fn is_item_at(&self, idx: int, item: T) -> bool {
        exists|x: &'a T| #[trigger] self.underlying().is_item_at(idx, x) && cloned::<T>(*x, item)
    }

    open spec fn initial_len_spec(&self) -> Option<nat> {
        self.underlying().initial_len_spec()
    }

    fn into_seq_iter(self) -> Self::SeqIter {
        self.into_seq_cloned()
    }

    fn next_id_and_value(&self) -> (r: Option<Next<T>>) {
        match self.iter.next_id_and_value() {
            Some(n) => {
                let ghost x = n.value;
                let c = n.cloned();
                assert(self.underlying().is_item_at(c.idx as int, x));
                Some(c)
            },
            None => None,
        }
    }

    fn next_chunk(&self, chunk_size: usize) -> (r: Option<NextChunk<T>>) {
        match self.iter.next_chunk(chunk_size) {
            Some(chunk) => {
                let ghost refs = chunk.values@;
                let ghost b = chunk.begin_idx as int;
                let c = chunk.cloned();
                assert forall|j: int| 0 <= j < c.values@.len() implies self.is_item_at(c.begin_idx + j, #[trigger] c.values@[j]) by {
                    assert(self.underlying().is_item_at(b + j, refs[j]));
                }
                Some(c)
            },
            None => None,
        }
    }

    fn skip_to_end(&self) {
        self.iter.skip_to_end()
    }

    fn try_get_len(&self) -> (r: Option<usize>) {
        self.iter.try_get_len()
    }

    fn try_get_initial_len(&self) -> (r: Option<usize>) {
        self.iter.try_get_initial_len()
    }
}

/// Converts a concurrent iterator over references into one yielding clones of the elements.
pub trait IntoCloned<'a, T: Clone + 'a>: ConcurrentIter<Item = &'a T> {
    /// Converts this concurrent iterator over references into one yielding clones of the elements.
    fn cloned(self) -> (r: Cloned<'a, T, Self>)
        ensures
            r.underlying() == self,
    {
        Cloned::new(self)
    }
}

impl<'a, T: Clone + 'a, C: ConcurrentIter<Item = &'a T>> IntoCloned<'a, T> for C {}

} // verus!
