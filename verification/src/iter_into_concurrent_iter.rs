use vstd::prelude::*;
use crate::iter::implementors::iter::ConIterOfIter;

verus! {

/// Any regular iterator can be converted into a concurrent iterator with `iter_into_con_iter`;
/// pulls of its elements are serialized and safely shared among threads.
pub trait IterIntoConcurrentIter: Iterator + Sized {
    /// Converts this iterator into a concurrent iterator.
    fn iter_into_con_iter(self) -> (r: ConIterOfIter<Self::Item, Self>)
        ensures
            r.initial_iter() == self,
    ;
}

impl<I: Iterator> IterIntoConcurrentIter for I {
    fn iter_into_con_iter(self) -> (r: ConIterOfIter<I::Item, I>) {
        ConIterOfIter::new(self)
    }
}

} // verus!
