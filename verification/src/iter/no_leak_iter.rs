use vstd::prelude::*;
use vstd::std_specs::iter::IteratorSpec;

verus! {

/// An iterator that can be run to its end before it is given up, so that every element
/// that it still holds is yielded and dropped rather than leaked.
pub struct NoLeakIter<I: Iterator> {
    iter: I,
}

impl<I: Iterator> NoLeakIter<I> {
    /// The wrapped iterator.
    pub closed spec fn inner(&self) -> I {
        self.iter
    }

    /// Wraps `iter`.
    pub fn from(iter: I) -> (r: Self)
        ensures
            r.inner() == iter,
    {
        NoLeakIter { iter }
    }

    /// Advances the wrapped iterator and returns its next element.
    pub fn next(&mut self) -> (r: Option<I::Item>)
        ensures
            final(self).inner().obeys_prophetic_iter_laws() == old(self).inner().obeys_prophetic_iter_laws(),
            final(self).inner().obeys_prophetic_iter_laws() ==> ({
                if old(self).inner().remaining().len() > 0 {
                    &&& final(self).inner().remaining() == old(self).inner().remaining().drop_first()
                    &&& r == Some(old(self).inner().remaining()[0])
                } else {
                    &&& final(self).inner().remaining() == old(self).inner().remaining()
                    &&& r is None
                }
            }),
    {
        self.iter.next()
    }

    /// Pulls and drops the elements that the wrapped iterator still holds, stopping at its
    /// end (or after `usize::MAX` elements).
    pub fn exhaust(&mut self)
        ensures
            final(self).inner().obeys_prophetic_iter_laws() == old(self).inner().obeys_prophetic_iter_laws(),
            final(self).inner().obeys_prophetic_iter_laws() && old(self).inner().remaining().len() <= usize::MAX
                ==> final(self).inner().remaining().len() == 0,
    {
        let mut count: usize = 0;
        loop
            invariant
                self.iter.obeys_prophetic_iter_laws() == old(self).iter.obeys_prophetic_iter_laws(),
                self.iter.obeys_prophetic_iter_laws() ==> self.iter.remaining().len() + count == old(self).iter.remaining().len(),
            ensures
                self.iter.obeys_prophetic_iter_laws() == old(self).iter.obeys_prophetic_iter_laws(),
                self.iter.obeys_prophetic_iter_laws() && old(self).iter.remaining().len() <= usize::MAX
                    ==> self.iter.remaining().len() == 0,
            decreases usize::MAX - count,
        {
            if count == usize::MAX {
                break;
            }
            match self.iter.next() {
                Some(_) => {
                    count += 1;
                },
                None => {
                    break;
                },
            }
        }
    }
}

} // verus!
