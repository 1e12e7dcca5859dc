use vstd::prelude::*;
use crate::iter::implementors::range::ConIterOfRange;
use crate::iter::buffered::buffered_chunk::{BufferedChunk, BufferedChunkX};
use crate::iter::buffered::buffered_iter::BufferedIter;
use crate::iter::con_iter::ConcurrentIter;
use crate::next::NextChunk;

verus! {

/// Puller of chunks of values from a concurrent iterator over a range.
pub struct BufferedRange {
    chunk_size: usize,
}

impl BufferedChunkX<usize> for BufferedRange {
    type ConIter = ConIterOfRange;

    closed spec fn chunk_size_spec(&self) -> usize {
        self.chunk_size
    }

    fn new(chunk_size: usize) -> (r: Self) {
        BufferedRange { chunk_size }
    }

    fn chunk_size(&self) -> (r: usize) {
        self.chunk_size
    }
}

impl BufferedChunk<usize> for BufferedRange {
    fn pull(&mut self, iter: &ConIterOfRange) -> (r: Option<NextChunk<usize>>) {
        iter.next_chunk(self.chunk_size)
    }
}

impl ConIterOfRange {
    /// Creates a within-thread puller of chunks of at most `chunk_size` consecutive elements;
    /// the chunk size must be positive.
    pub fn buffered_iter(&self, chunk_size: usize) -> (r: BufferedIter<'_, usize, BufferedRange>)
        requires
            chunk_size > 0,
        ensures
            r.source_iter() == *self,
            r.chunk_size_view() == chunk_size,
    {
        BufferedIter::new(BufferedRange::new(chunk_size), self)
    }
}

} // verus!
