use vstd::prelude::*;
use crate::iter::buffered::buffered_chunk::{BufferedChunk, BufferedChunkX};
use crate::iter::con_iter::ConcurrentIter;
use crate::next::NextChunk;

verus! {

/// A within-thread puller of chunks, linked to a concurrent iterator: each `next` pulls the next
/// chunk of at most `chunk_size` consecutive elements from it.
pub struct BufferedIter<'a, T, B: BufferedChunkX<T>> {
    buffered_iter: B,
    iter: &'a B::ConIter,
}

impl<'a, T, B: BufferedChunkX<T>> BufferedIter<'a, T, B> {
    /// The concurrent iterator that this puller pulls from.
    pub closed spec fn source_iter(&self) -> B::ConIter {
        *self.iter
    }

    /// Maximum number of elements in a pulled chunk.
    pub closed spec fn chunk_size_view(&self) -> usize {
        self.buffered_iter.chunk_size_spec()
    }

    /// Creates the puller of the chunks of `buffered_iter` from `atomic_iter`; the chunk size must be positive.
    pub fn new(buffered_iter: B, atomic_iter: &'a B::ConIter) -> (r: Self)
        requires
            buffered_iter.chunk_size_spec() > 0,
        ensures
            r.source_iter() == *atomic_iter,
            r.chunk_size_view() == buffered_iter.chunk_size_spec(),
    {
        BufferedIter { buffered_iter, iter: atomic_iter }
    }

    /// Pulls the next chunk of consecutive elements, without their positions.
    pub fn next_x(&mut self) -> (r: Option<Vec<T>>)
        ensures
            final(self).source_iter() == old(self).source_iter(),
            final(self).chunk_size_view() == old(self).chunk_size_view(),
            r matches Some(v) ==> {
                &&& 0 < v@.len() <= old(self).chunk_size_view()
                &&& exists|b: int| #![trigger old(self).source_iter().is_item_at(b, v@[0])]
                        forall|j: int| 0 <= j < v@.len() ==> old(self).source_iter().is_item_at(b + j, #[trigger] v@[j])
            },
    {
        let r = self.buffered_iter.pull_x(self.iter);
        proof {
            if r is Some {
                let v = r->0;
                let b = choose|b: int| #![trigger self.iter.is_item_at(b, v@[0])]
                    forall|j: int| 0 <= j < v@.len() ==> self.iter.is_item_at(b + j, #[trigger] v@[j]);
                assert(old(self).source_iter().is_item_at(b, v@[0]));
            }
        }
        r
    }
}

impl<'a, T, B: BufferedChunk<T>> BufferedIter<'a, T, B> {
    /// Pulls the next chunk of consecutive elements, with the position of the first.
    pub fn next(&mut self) -> (r: Option<NextChunk<T>>)
        ensures
            final(self).source_iter() == old(self).source_iter(),
            final(self).chunk_size_view() == old(self).chunk_size_view(),
            r matches Some(c) ==> {
                &&& 0 < c.values@.len() <= old(self).chunk_size_view()
                &&& forall|j: int| 0 <= j < c.values@.len() ==> old(self).source_iter().is_item_at(c.begin_idx + j, #[trigger] c.values@[j])
            },
    {
        self.buffered_iter.pull(self.iter)
    }
}

} // verus!
