use vstd::prelude::*;
use crate::implementations::vec_drain::con_iter::{ConIterVecDrain, DrainRange, range_is_within};

verus! {

/// A collection over a slice of which a range of positions can be drained concurrently.
pub trait ConcurrentDrainableOverSlice<T> {
    /// The elements of the collection, in order.
    spec fn drain_source(&self) -> Seq<T>;

    /// Creates a concurrent iterator draining the positions `range` of the collection; the
    /// collection keeps the elements before and after the range.
    fn con_drain<'a, R: DrainRange>(&'a mut self, range: R) -> (r: ConIterVecDrain<'a, T>)
        requires
            range_is_within(range, old(self).drain_source().len()),
        ensures
            ({
                let (s, e) = range.spec_bounds(old(self).drain_source().len());
                &&& r.range_start() == s
                &&& r.range_end() == e
                &&& r.drained() == old(self).drain_source().subrange(s, e)
                &&& final(self).drain_source() == old(self).drain_source().subrange(0, s)
                    + old(self).drain_source().subrange(e, old(self).drain_source().len() as int)
            }),
    ;
}

impl<T> ConcurrentDrainableOverSlice<T> for Vec<T> {
    open spec fn drain_source(&self) -> Seq<T> {
        self@
    }

    fn con_drain<'a, R: DrainRange>(&'a mut self, range: R) -> (r: ConIterVecDrain<'a, T>) {
        ConIterVecDrain::new(self, range)
    }
}

} // verus!
