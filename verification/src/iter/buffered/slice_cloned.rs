use vstd::prelude::*;
use core::marker::PhantomData;
use crate::iter::implementors::cloned::slice::ClonedConIterOfSlice;
use crate::iter::buffered::buffered_chunk::{BufferedChunk, BufferedChunkX};
use crate::iter::buffered::buffered_iter::BufferedIter;
use crate::iter::con_iter::ConcurrentIter;
use crate::next::NextChunk;

verus! {

/// Puller of chunks of clones from a concurrent iterator cloning the elements of a slice.
pub struct BufferedSliceCloned<'a> {
    chunk_size: usize,
    phantom: PhantomData<&'a ()>,
}

impl<'a> BufferedSliceCloned<'a> {
    /// Maximum number of elements in a pulled chunk.
    pub closed spec fn size(&self) -> usize {
        self.chunk_size
    }

    /// Creates the puller of chunks of at most `chunk_size` clones.
    pub fn new(chunk_size: usize) -> (r: Self)
        ensures
            r.size() == chunk_size,
    {
        BufferedSliceCloned { chunk_size, phantom: PhantomData }
    }
}

impl<'a, T: Clone + 'a> BufferedChunkX<T> for BufferedSliceCloned<'a> {
    type ConIter = ClonedConIterOfSlice<'a, T>;

    closed spec fn chunk_size_spec(&self) -> usize {
        self.chunk_size
    }

    fn new(chunk_size: usize) -> (r: Self) {
        BufferedSliceCloned::new(chunk_size)
    }

    fn chunk_size(&self) -> (r: usize) {
        self.chunk_size
    }
}

impl<'a, T: Clone + 'a> BufferedChunk<T> for BufferedSliceCloned<'a> {
    fn pull(&mut self, iter: &ClonedConIterOfSlice<'a, T>) -> (r: Option<NextChunk<T>>) {
        iter.next_chunk(self.chunk_size)
    }
}

impl<'a, T: Clone + 'a> ClonedConIterOfSlice<'a, T> {
    /// Creates a within-thread puller of chunks of at most `chunk_size` consecutive elements;
    /// the chunk size must be positive.
    pub fn buffered_iter(&self, chunk_size: usize) -> (r: BufferedIter<'_, T, BufferedSliceCloned<'a>>)
        requires
            chunk_size > 0,
        ensures
            r.source_iter() == *self,
            r.chunk_size_view() == chunk_size,
    {
        BufferedIter::new(BufferedSliceCloned::new(chunk_size), self)
    }
}

} // verus!
