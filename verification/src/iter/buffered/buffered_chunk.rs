use vstd::prelude::*;
use crate::iter::con_iter::ConcurrentIter;
use crate::next::NextChunk;

verus! {

/// Pulls chunks of elements, without their positions, from a concurrent iterator of type `ConIter`.
pub trait BufferedChunkX<T>: Sized {
    /// The concurrent iterator pulled from.
    type ConIter: ConcurrentIter<Item = T>;

    /// Maximum number of elements in a pulled chunk.
    spec fn chunk_size_spec(&self) -> usize;

    /// Creates the puller of chunks of at most `chunk_size` elements.
    fn new(chunk_size: usize) -> (r: Self)
        ensures
            r.chunk_size_spec() == chunk_size,
    ;

    /// Maximum number of elements in a pulled chunk.
    fn chunk_size(&self) -> (r: usize)
        ensures
            r == self.chunk_size_spec(),
    ;

    /// Pulls the next chunk of consecutive elements of `iter`; never `Some` of an empty chunk.
    fn pull_x(&mut self, iter: &Self::ConIter) -> (r: Option<Vec<T>>)
        ensures
            final(self).chunk_size_spec() == old(self).chunk_size_spec(),
            old(self).chunk_size_spec() == 0 ==> r is None,
            r matches Some(v) ==> {
                &&& 0 < v@.len() <= old(self).chunk_size_spec()
                &&& exists|b: int| #![trigger iter.is_item_at(b, v@[0])]
                        forall|j: int| 0 <= j < v@.len() ==> iter.is_item_at(b + j, #[trigger] v@[j])
            },
    {
        let r = iter.next_chunk_x(self.chunk_size());
        proof {
            if r is Some {
                let v = r->0;
                let b = choose|b: int| #![trigger iter.is_item_at(b, v@[0])]
                    forall|j: int| 0 <= j < v@.len() ==> iter.is_item_at(b + j, #[trigger] v@[j]);
                assert(iter.is_item_at(b, v@[0]));
            }
        }
        r
    }
}

/// Pulls chunks of elements, with the position of their first element, from a concurrent iterator.
pub trait BufferedChunk<T>: BufferedChunkX<T> {
    /// Pulls the next chunk of consecutive elements of `iter`; never `Some` of an empty chunk.
    fn pull(&mut self, iter: &Self::ConIter) -> (r: Option<NextChunk<T>>)
        ensures
            final(self).chunk_size_spec() == old(self).chunk_size_spec(),
            old(self).chunk_size_spec() == 0 ==> r is None,
            r matches Some(c) ==> {
                &&& 0 < c.values@.len() <= old(self).chunk_size_spec()
                &&& forall|j: int| 0 <= j < c.values@.len() ==> iter.is_item_at(c.begin_idx + j, #[trigger] c.values@[j])
            },
    ;
}

} // verus!
