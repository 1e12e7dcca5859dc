use vstd::prelude::*;
use core::marker::PhantomData;
use crate::iter::buffered::buffered_chunk::{BufferedChunk, BufferedChunkX};
use crate::iter::buffered::buffered_iter::BufferedIter as ChunkPullIter;
pub use crate::iter::buffered::iter::BufferedIter;
use crate::iter::atomic_iter::AtomicIter;
use crate::iter::con_iter::ConcurrentIter;
use crate::iter::implementors::iter_x::ConIterOfIterX;
use crate::next::NextChunk;

verus! {

/// Puller of chunks from a concurrent iterator made of a regular iterator: it takes the
/// exclusive right to pull, pulls at most `chunk_size` elements, and marks the iterator
/// completed when it ran out before.
pub struct BufferIterX<T, I> {
    chunk_size: usize,
    phantom: PhantomData<(T, I)>,
}

impl<T, I: Iterator<Item = T>> BufferedChunkX<T> for BufferIterX<T, I> {
    type ConIter = ConIterOfIterX<T, I>;

    closed spec fn chunk_size_spec(&self) -> usize {
        self.chunk_size
    }

    fn new(chunk_size: usize) -> (r: Self) {
        BufferIterX { chunk_size, phantom: PhantomData }
    }

    fn chunk_size(&self) -> (r: usize) {
        self.chunk_size
    }
}

impl<T, I: Iterator<Item = T>> BufferedChunk<T> for BufferIterX<T, I> {
    fn pull(&mut self, iter: &ConIterOfIterX<T, I>) -> (r: Option<NextChunk<T>>) {
        if self.chunk_size == 0 {
            return None;
        }
        let _ = iter.counter().fetch_and_add(self.chunk_size);
        match iter.try_get_handle() {
            Some(mut handle) => {
                let (begin_idx, values) = handle.pull(self.chunk_size);
                if values.len() == self.chunk_size {
                    iter.release_handle(handle);
                } else {
                    iter.release_handle_complete(handle);
                }
                if values.len() == 0 {
                    None
                } else {
                    Some(NextChunk { begin_idx, values })
                }
            },
            None => None,
        }
    }
}

impl<T, I: Iterator<Item = T>> ConIterOfIterX<T, I> {
    /// Creates a within-thread puller of chunks of at most `chunk_size` consecutive elements;
    /// the chunk size must be positive.
    pub fn buffered_iter(&self, chunk_size: usize) -> (r: ChunkPullIter<'_, T, BufferIterX<T, I>>)
        requires
            chunk_size > 0,
        ensures
            r.source_iter() == *self,
            r.chunk_size_view() == chunk_size,
    {
        ChunkPullIter::new(BufferIterX::new(chunk_size), self)
    }
}

} // verus!
