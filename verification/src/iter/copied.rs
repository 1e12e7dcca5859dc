use vstd::prelude::*;
use vstd::std_specs::iter::IteratorSpec;
use core::marker::PhantomData;
use crate::iter::con_iter::ConcurrentIter;
use crate::next::{Next, NextChunk};

verus! {

/// A concurrent iterator that copies the elements of an underlying concurrent iterator over references.
///
/// This `struct` is created by the `copied` method on the concurrent iterator.
pub struct Copied<'a, T, C> {
    iter: C,
    phantom: PhantomData<&'a T>,
}

/// Sequential iterator copying the elements of an iterator over references.
pub struct CopiedSeqIter<'a, T, I> {
    iter: I,
    phantom: PhantomData<&'a T>,
}

impl<'a, T: Copy, I: Iterator<Item = &'a T>> CopiedSeqIter<'a, T, I> {
    /// The underlying iterator.
    pub closed spec fn inner(&self) -> I {
        self.iter
    }

    /// Advances the underlying iterator and copies the element it yields.
    pub fn next(&mut self) -> (r: Option<T>)
        ensures
            final(self).inner().obeys_prophetic_iter_laws() == old(self).inner().obeys_prophetic_iter_laws(),
            final(self).inner().obeys_prophetic_iter_laws() ==> ({
                if old(self).inner().remaining().len() > 0 {
                    &&& r is Some
                    &&& r == Some(*old(self).inner().remaining()[0])
                    &&& final(self).inner().remaining() == old(self).inner().remaining().drop_first()
                } else {
                    &&& r is None
                    &&& final(self).inner().remaining() == old(self).inner().remaining()
                }
            }),
    {
        match self.iter.next() {
            Some(x) => Some(*x),
            None => None,
        }
    }
}

impl<'a, T: Copy + 'a, C: ConcurrentIter<Item = &'a T>> Copied<'a, T, C> {
    /// The underlying concurrent iterator.
    pub closed spec fn underlying(&self) -> C {
        self.iter
    }

    /// Creates the copying iterator over `iter`.
    pub fn new(iter: C) -> (r: Self)
        ensures
            r.underlying() == iter,
    {
        Copied { iter, phantom: PhantomData }
    }

    /// Returns a reference to the underlying concurrent iterator.
    pub fn underlying_iter(&self) -> (r: &C)
        ensures
            *r == self.underlying(),
    {
        &self.iter
    }
}

impl<'a, T: Copy + 'a, C: ConcurrentIter<Item = &'a T>> ConcurrentIter for Copied<'a, T, C> {
    type Item = T;

    type SeqIter = CopiedSeqIter<'a, T, C::SeqIter>;

    open spec fn is_item_at(&self, idx: int, item: T) -> bool {
        exists|x: &'a T| #[trigger] self.underlying().is_item_at(idx, x) && *x == item
    }

    open spec fn initial_len_spec(&self) -> Option<nat> {
        self.underlying().initial_len_spec()
    }

    fn into_seq_iter(self) -> Self::SeqIter {
        CopiedSeqIter { iter: self.iter.into_seq_iter(), phantom: PhantomData }
    }

    fn next_id_and_value(&self) -> (r: Option<Next<T>>) {
        match self.iter.next_id_and_value() {
            Some(n) => {
                let ghost x = n.value;
                let c = n.copied();
                assert(self.underlying().is_item_at(c.idx as int, x));
                Some(c)
            },
            None => None,
        }
    }

    fn next_chunk(&self, chunk_size: usize) -> (r: Option<NextChunk<T>>) {
        match self.iter.next_chunk(chunk_size) {
            Some(chunk) => {
                let ghost refs = chunk.values@;
                let ghost b = chunk.begin_idx as int;
                let c = chunk.copied();
                assert forall|j: int| 0 <= j < c.values@.len() implies self.is_item_at(c.begin_idx + j, #[trigger] c.values@[j]) by {
                    assert(self.underlying().is_item_at(b + j, refs[j]));
                }
                Some(c)
            },
            None => None,
        }
    }

    fn skip_to_end(&self) {
        self.iter.skip_to_end()
    }

    fn try_get_len(&self) -> (r: Option<usize>) {
        self.iter.try_get_len()
    }

    fn try_get_initial_len(&self) -> (r: Option<usize>) {
        self.iter.try_get_initial_len()
    }
}

/// Converts a concurrent iterator over references into one yielding copies of the elements.
pub trait IntoCopied<'a, T: Copy + 'a>: ConcurrentIter<Item = &'a T> {
    /// Converts this concurrent iterator over references into one yielding copies of the elements.
    fn copied(self) -> (r: Copied<'a, T, Self>)
        ensures
            r.underlying() == self,
    {
        Copied::new(self)
    }
}

impl<'a, T: Copy + 'a, C: ConcurrentIter<Item = &'a T>> IntoCopied<'a, T> for C {}

} // verus!
