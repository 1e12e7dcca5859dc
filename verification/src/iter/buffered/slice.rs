use vstd::prelude::*;
use core::marker::PhantomData;
use crate::iter::implementors::slice::ConIterOfSlice;
use crate::iter::buffered::buffered_chunk::{BufferedChunk, BufferedChunkX};
use crate::iter::buffered::buffered_iter::BufferedIter;
use crate::iter::con_iter::ConcurrentIter;
use crate::next::NextChunk;

verus! {

/// Puller of chunks of references from a concurrent iterator over a slice.
pub struct BufferedSlice<T> {
    chunk_size: usize,
    phantom: PhantomData<T>,
}

impl<'a, T> BufferedChunkX<&'a T> for BufferedSlice<T> {
    type ConIter = ConIterOfSlice<'a, T>;

    closed spec fn chunk_size_spec(&self) -> usize {
        self.chunk_size
    }

    fn new(chunk_size: usize) -> (r: Self) {
        BufferedSlice { chunk_size, phantom: PhantomData }
    }

    fn chunk_size(&self) -> (r: usize) {
        self.chunk_size
    }
}

impl<'a, T> BufferedChunk<&'a T> for BufferedSlice<T> {
    fn pull(&mut self, iter: &ConIterOfSlice<'a, T>) -> (r: Option<NextChunk<&'a T>>) {
        iter.next_chunk(self.chunk_size)
    }
}

impl<'a, T> ConIterOfSlice<'a, T> {
    /// Creates a within-thread puller of chunks of at most `chunk_size` consecutive elements;
    /// the chunk size must be positive.
    pub fn buffered_iter(&self, chunk_size: usize) -> (r: BufferedIter<'_, &'a T, BufferedSlice<T>>)
        requires
            chunk_size > 0,
        ensures
            r.source_iter() == *self,
            r.chunk_size_view() == chunk_size,
    {
        BufferedIter::new(BufferedSlice::new(chunk_size), self)
    }
}

} // verus!
