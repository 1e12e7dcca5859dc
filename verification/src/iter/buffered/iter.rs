use vstd::prelude::*;
use core::marker::PhantomData;
use crate::iter::buffered::buffered_chunk::{BufferedChunk, BufferedChunkX};
use crate::iter::buffered::buffered_iter::BufferedIter as ChunkPullIter;
use crate::iter::con_iter::ConcurrentIter;
use crate::iter::implementors::iter::ConIterOfIter;
use crate::next::NextChunk;

verus! {

/// A sequential iterator over the elements of a pulled chunk.
///
/// Elements are taken out of the buffer one at a time; the positions from `current_idx` up
/// to `initial_len` hold the elements still to be yielded.
pub struct BufferedIter<T> {
    values: Vec<Option<T>>,
    initial_len: usize,
    current_idx: usize,
}

impl<T> BufferedIter<T> {
    /// The buffer holds an element at every position still to be yielded.
    pub closed spec fn wf(&self) -> bool {
        &&& self.initial_len <= self.values@.len()
        &&& self.current_idx <= self.initial_len
        &&& forall|i: int| self.current_idx <= i < self.initial_len ==> (#[trigger] self.values@[i]) is Some
    }

    /// The elements still to be yielded, in order.
    pub closed spec fn remaining(&self) -> Seq<T> {
        Seq::new((self.initial_len - self.current_idx) as nat, |k: int| self.values@[self.current_idx + k]->0)
    }

    /// Number of elements yielded so far.
    pub closed spec fn position(&self) -> usize {
        self.current_idx
    }

    /// Position after the last element to be yielded.
    pub closed spec fn end_position(&self) -> usize {
        self.initial_len
    }

    /// Creates the iterator over the elements of `chunk`, in order.
    pub fn from_vec(chunk: Vec<T>) -> (r: Self)
        ensures
            r.wf(),
            r.remaining() == chunk@,
            r.position() == 0,
            r.end_position() == chunk@.len(),
    {
        let ghost src = chunk@;
        let n = chunk.len();
        let mut values: Vec<Option<T>> = Vec::new();
        for x in it: chunk.into_iter()
            invariant
                it.seq() == src,
                n == src.len(),
                values@.len() == it.index(),
                forall|i: int| 0 <= i < values@.len() ==> #[trigger] values@[i] == Some(src[i]),
        {
            values.push(Some(x));
        }
        let r = BufferedIter { values, initial_len: n, current_idx: 0 };
        assert(r.remaining() =~= src);
        r
    }

    /// Yields the next element of the chunk.
    pub fn next(&mut self) -> (r: Option<T>)
        requires
            old(self).wf(),
        ensures
            final(self).wf(),
            final(self).end_position() == old(self).end_position(),
            old(self).remaining().len() == old(self).end_position() - old(self).position(),
            if old(self).remaining().len() > 0 {
                &&& r == Some(old(self).remaining()[0])
                &&& final(self).remaining() == old(self).remaining().drop_first()
                &&& final(self).position() == old(self).position() + 1
            } else {
                &&& r is None
                &&& final(self).remaining() == old(self).remaining()
                &&& final(self).position() == old(self).position()
            },
    {
        if self.current_idx < self.initial_len {
            let mut taken: Option<T> = None;
            let i = self.current_idx;
            self.values.set_and_swap(i, &mut taken);
            self.current_idx = i + 1;
            assert(self.remaining() =~= old(self).remaining().drop_first());
            taken
        } else {
            None
        }
    }

    /// Number of elements still to be yielded.
    pub fn len(&self) -> (r: usize)
        requires
            self.wf(),
        ensures
            r == self.remaining().len(),
    {
        self.initial_len - self.current_idx
    }

    /// Number of elements yielded so far.
    pub fn current_position(&self) -> (r: usize)
        ensures
            r == self.position(),
    {
        self.current_idx
    }
}

/// Puller of chunks from a concurrent iterator made of a regular iterator: it takes the
/// exclusive right to pull, pulls at most `chunk_size` elements, and marks the iterator
/// completed when it ran out before.
pub struct BufferIter<T, I> {
    chunk_size: usize,
    phantom: PhantomData<(T, I)>,
}

impl<T, I: Iterator<Item = T>> BufferedChunkX<T> for BufferIter<T, I> {
    type ConIter = ConIterOfIter<T, I>;

    closed spec fn chunk_size_spec(&self) -> usize {
        self.chunk_size
    }

    fn new(chunk_size: usize) -> (r: Self) {
        BufferIter { chunk_size, phantom: PhantomData }
    }

    fn chunk_size(&self) -> (r: usize) {
        self.chunk_size
    }
}

impl<T, I: Iterator<Item = T>> BufferedChunk<T> for BufferIter<T, I> {
    fn pull(&mut self, iter: &ConIterOfIter<T, I>) -> (r: Option<NextChunk<T>>) {
        if self.chunk_size == 0 {
            return None;
        }
        match iter.try_get_handle() {
            Some(mut handle) => {
                let (begin_idx, values) = handle.pull(self.chunk_size);
                if values.len() == self.chunk_size {
                    iter.release_handle(handle);
                } else {
                    iter.release_handle_complete(handle);
                }
                if values.len() == 0 {
                    None
                } else {
                    Some(NextChunk { begin_idx, values })
                }
            },
            None => None,
        }
    }
}

impl<T, I: Iterator<Item = T>> ConIterOfIter<T, I> {
    /// Creates a within-thread puller of chunks of at most `chunk_size` consecutive elements;
    /// the chunk size must be positive.
    pub fn buffered_iter(&self, chunk_size: usize) -> (r: ChunkPullIter<'_, T, BufferIter<T, I>>)
        requires
            chunk_size > 0,
        ensures
            r.source_iter() == *self,
            r.chunk_size_view() == chunk_size,
    {
        ChunkPullIter::new(BufferIter::new(chunk_size), self)
    }
}

} // verus!
