use vstd::prelude::*;
use core::marker::PhantomData;
use crate::iter::buffered::buffered_chunk::{BufferedChunk, BufferedChunkX};
use crate::iter::buffered::buffered_iter::BufferedIter;
use crate::iter::cloned::Cloned;
use crate::iter::con_iter::ConcurrentIter;
use crate::next::NextChunk;

verus! {

/// Puller of chunks of clones: pulls chunks of references with the puller `C` of the
/// underlying concurrent iterator and clones their elements.
pub struct ClonedBufferedChunk<'a, T, C> {
    chunk: C,
    phantom: PhantomData<&'a T>,
}

impl<'a, T: Clone + 'a, C: BufferedChunk<&'a T>> BufferedChunkX<T> for ClonedBufferedChunk<'a, T, C> {
    type ConIter = Cloned<'a, T, C::ConIter>;

    closed spec fn chunk_size_spec(&self) -> usize {
        self.chunk.chunk_size_spec()
    }

    fn new(chunk_size: usize) -> (r: Self) {
        ClonedBufferedChunk { chunk: C::new(chunk_size), phantom: PhantomData }
    }

    fn chunk_size(&self) -> (r: usize) {
        self.chunk.chunk_size()
    }
}

impl<'a, T: Clone + 'a, C: BufferedChunk<&'a T>> BufferedChunk<T> for ClonedBufferedChunk<'a, T, C> {
    fn pull(&mut self, iter: &Cloned<'a, T, C::ConIter>) -> (r: Option<NextChunk<T>>) {
        match self.chunk.pull(iter.underlying_iter()) {
            Some(chunk) => {
                let ghost refs = chunk.values@;
                let ghost b = chunk.begin_idx as int;
                let c = chunk.cloned();
                assert forall|j: int| 0 <= j < c.values@.len() implies iter.is_item_at(c.begin_idx + j, #[trigger] c.values@[j]) by {
                    assert(iter.underlying().is_item_at(b + j, refs[j]));
                }
                Some(c)
            },
            None => None,
        }
    }
}

impl<'a, T: Clone + 'a, C: ConcurrentIter<Item = &'a T>> Cloned<'a, T, C> {
    /// Creates a within-thread puller of chunks of at most `chunk_size` clones, pulling the
    /// underlying references with the puller `B`; the chunk size must be positive.
    pub fn buffered_iter<B: BufferedChunk<&'a T, ConIter = C>>(&self, chunk_size: usize) -> (r: BufferedIter<'_, T, ClonedBufferedChunk<'a, T, B>>)
        requires
            chunk_size > 0,
        ensures
            r.source_iter() == *self,
            r.chunk_size_view() == chunk_size,
    {
        BufferedIter::new(ClonedBufferedChunk::<'a, T, B>::new(chunk_size), self)
    }
}

} // verus!
