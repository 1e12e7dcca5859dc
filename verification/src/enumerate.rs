use vstd::prelude::*;
use vstd::std_specs::iter::IteratorSpec;
use crate::iter::con_iter::ConcurrentIter;
use crate::next::{Enumerated, Next, NextChunk, NextKind};

verus! {

/// A concurrent iterator that yields the elements of an underlying concurrent iterator
/// together with their positions in the source.
pub struct Enumerate<C> {
    iter: C,
}

/// Sequential iterator numbering the elements of an iterator, counting from zero.
pub struct EnumeratedSeqIter<I> {
    iter: I,
    count: usize,
}

impl<I> EnumeratedSeqIter<I> {
    /// Number of elements yielded so far.
    pub closed spec fn count(&self) -> usize {
        self.count
    }
}

impl<I: Iterator> EnumeratedSeqIter<I> {
    /// The underlying iterator.
    pub closed spec fn inner(&self) -> I {
        self.iter
    }

    /// Advances the underlying iterator and yields its element with its number; `None` once the
    /// number would no longer fit in a `usize`.
    pub fn next(&mut self) -> (r: Option<(usize, I::Item)>)
        ensures
            r matches Some(p) ==> p.0 == old(self).count() && final(self).count() == old(self).count() + 1,
            r is None ==> final(self).count() == old(self).count(),
            old(self).count() == usize::MAX ==> r is None && *final(self) == *old(self),
            final(self).inner().obeys_prophetic_iter_laws() == old(self).inner().obeys_prophetic_iter_laws(),
            old(self).count() < usize::MAX && final(self).inner().obeys_prophetic_iter_laws() ==> ({
                if old(self).inner().remaining().len() > 0 {
                    &&& r == Some((old(self).count(), old(self).inner().remaining()[0]))
                    &&& final(self).inner().remaining() == old(self).inner().remaining().drop_first()
                } else {
                    &&& r is None
                    &&& final(self).inner().remaining() == old(self).inner().remaining()
                }
            }),
    {
        if self.count == usize::MAX {
            return None;
        }
        match self.iter.next() {
            Some(x) => {
                let i = self.count;
                self.count = i + 1;
                Some((i, x))
            },
            None => None,
        }
    }
}

impl<C: ConcurrentIter> Enumerate<C> {
    /// The underlying concurrent iterator.
    pub closed spec fn underlying(&self) -> C {
        self.iter
    }

    /// Creates the enumerating iterator over `iter`.
    pub fn new(iter: C) -> (r: Self)
        ensures
            r.underlying() == iter,
    {
        Enumerate { iter }
    }
}

impl<C: ConcurrentIter> ConcurrentIter for Enumerate<C> {
    type Item = (usize, C::Item);

    type SeqIter = EnumeratedSeqIter<C::SeqIter>;

    open spec fn is_item_at(&self, idx: int, item: (usize, C::Item)) -> bool {
        item.0 == idx && self.underlying().is_item_at(idx, item.1)
    }

    open spec fn initial_len_spec(&self) -> Option<nat> {
        self.underlying().initial_len_spec()
    }

    /// The sequential iterator numbers the remaining elements from zero.
    fn into_seq_iter(self) -> (r: Self::SeqIter)
        ensures
            r.count() == 0,
    {
        EnumeratedSeqIter { iter: self.iter.into_seq_iter(), count: 0 }
    }

    fn next_id_and_value(&self) -> (r: Option<Next<(usize, C::Item)>>) {
        match self.iter.next_id_and_value() {
            Some(n) => {
                let idx = n.idx;
                let value = <Enumerated as NextKind<C::Item>>::new_elem(idx, n.value);
                Some(Next { idx, value })
            },
            None => None,
        }
    }

    fn next_chunk(&self, chunk_size: usize) -> (r: Option<NextChunk<(usize, C::Item)>>) {
        match self.iter.next_chunk(chunk_size) {
            Some(chunk) => {
                let begin_idx = chunk.begin_idx;
                let ghost src = chunk.values@;
                let mut seq = <Enumerated as NextKind<C::Item>>::into_seq_chunk_iter(chunk.values);
                let mut values: Vec<(usize, C::Item)> = Vec::new();
                let n = seq.len();
                let mut j: usize = 0;
                while j < n
                    invariant
                        seq.wf(),
                        n == src.len(),
                        seq.end_position() == n,
                        begin_idx + n <= usize::MAX,
                        j <= n,
                        seq.position() == j,
                        seq.remaining() == src.subrange(j as int, n as int),
                        values@.len() == j,
                        forall|k: int| 0 <= k < j ==> #[trigger] values@[k] == ((begin_idx + k) as usize, src[k]),
                    decreases n - j,
                {
                    let next = <Enumerated as NextKind<C::Item>>::seq_chunk_iter_next(begin_idx, &mut seq);
                    match next {
                        Some(p) => values.push(p),
                        None => {},
                    }
                    assert(src.subrange(j as int, n as int).drop_first() =~= src.subrange(j + 1, n as int));
                    j += 1;
                }
                assert forall|k: int| 0 <= k < values@.len() implies self.is_item_at(begin_idx + k, #[trigger] values@[k]) by {
                    assert(self.underlying().is_item_at(begin_idx + k, src[k]));
                }
                Some(NextChunk { begin_idx, values })
            },
            None => None,
        }
    }

    fn skip_to_end(&self) {
        self.iter.skip_to_end()
    }

    fn try_get_len(&self) -> (r: Option<usize>) {
        self.iter.try_get_len()
    }

    fn try_get_initial_len(&self) -> (r: Option<usize>) {
        self.iter.try_get_initial_len()
    }
}

/// Converts a concurrent iterator into one that yields its elements with their positions.
pub trait IntoEnumerated: ConcurrentIter {
    /// Converts this concurrent iterator into one that yields its elements with their positions.
    fn enumerate(self) -> (r: Enumerate<Self>)
        ensures
            r.underlying() == self,
    {
        Enumerate::new(self)
    }
}

impl<C: ConcurrentIter> IntoEnumerated for C {}

} // verus!
