use vstd::prelude::*;
use core::marker::PhantomData;
use crate::iter::implementors::vec::ConIterOfVec;
use crate::iter::buffered::buffered_chunk::{BufferedChunk, BufferedChunkX};
use crate::iter::buffered::buffered_iter::BufferedIter;
use crate::iter::con_iter::ConcurrentIter;
use crate::next::NextChunk;

verus! {

/// Puller of chunks of elements from a concurrent iterator consuming a vector.
pub struct BufferedVec<T> {
    chunk_size: usize,
    phantom: PhantomData<T>,
}

impl<T> BufferedChunkX<T> for BufferedVec<T> {
    type ConIter = ConIterOfVec<T>;

    closed spec fn chunk_size_spec(&self) -> usize {
        self.chunk_size
    }

    fn new(chunk_size: usize) -> (r: Self) {
        BufferedVec { chunk_size, phantom: PhantomData }
    }

    fn chunk_size(&self) -> (r: usize) {
        self.chunk_size
    }
}

impl<T> BufferedChunk<T> for BufferedVec<T> {
    fn pull(&mut self, iter: &ConIterOfVec<T>) -> (r: Option<NextChunk<T>>) {
        iter.next_chunk(self.chunk_size)
    }
}

impl<T> ConIterOfVec<T> {
    /// Creates a within-thread puller of chunks of at most `chunk_size` consecutive elements;
    /// the chunk size must be positive.
    pub fn buffered_iter(&self, chunk_size: usize) -> (r: BufferedIter<'_, T, BufferedVec<T>>)
        requires
            chunk_size > 0,
        ensures
            r.source_iter() == *self,
            r.chunk_size_view() == chunk_size,
    {
        BufferedIter::new(BufferedVec::new(chunk_size), self)
    }
}

} // verus!
