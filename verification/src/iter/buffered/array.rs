use vstd::prelude::*;
use core::marker::PhantomData;
use crate::iter::implementors::array::ConIterOfArray;
use crate::iter::buffered::buffered_chunk::{BufferedChunk, BufferedChunkX};
use crate::iter::buffered::buffered_iter::BufferedIter;
use crate::iter::con_iter::ConcurrentIter;
use crate::next::NextChunk;

verus! {

/// Puller of chunks of elements from a concurrent iterator consuming an array.
pub struct BufferedArray<const N: usize, T> {
    chunk_size: usize,
    phantom: PhantomData<T>,
}

impl<const N: usize, T> BufferedChunkX<T> for BufferedArray<N, T> {
    type ConIter = ConIterOfArray<N, T>;

    closed spec fn chunk_size_spec(&self) -> usize {
        self.chunk_size
    }

    fn new(chunk_size: usize) -> (r: Self) {
        BufferedArray { chunk_size, phantom: PhantomData }
    }

    fn chunk_size(&self) -> (r: usize) {
        self.chunk_size
    }
}

impl<const N: usize, T> BufferedChunk<T> for BufferedArray<N, T> {
    fn pull(&mut self, iter: &ConIterOfArray<N, T>) -> (r: Option<NextChunk<T>>) {
        iter.next_chunk(self.chunk_size)
    }
}

impl<const N: usize, T> ConIterOfArray<N, T> {
    /// Creates a within-thread puller of chunks of at most `chunk_size` consecutive elements;
    /// the chunk size must be positive.
    pub fn buffered_iter(&self, chunk_size: usize) -> (r: BufferedIter<'_, T, BufferedArray<N, T>>)
        requires
            chunk_size > 0,
        ensures
            r.source_iter() == *self,
            r.chunk_size_view() == chunk_size,
    {
        BufferedIter::new(BufferedArray::new(chunk_size), self)
    }
}

} // verus!
