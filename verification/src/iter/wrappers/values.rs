use vstd::prelude::*;
use crate::iter::con_iter::ConcurrentIter;

verus! {

/// An item puller: its `next` method does nothing but pull the next element of the concurrent
/// iterator, so that each thread can go through the elements it pulls one by one.
pub struct ConIterValues<'a, C> {
    con_iter: &'a C,
}

impl<'a, C: ConcurrentIter> ConIterValues<'a, C> {
    /// The concurrent iterator that this puller pulls from.
    pub closed spec fn source_iter(&self) -> C {
        *self.con_iter
    }

    /// Creates a puller of the concurrent iterator `con_iter`.
    pub fn from_con_iter(con_iter: &'a C) -> (r: Self)
        ensures
            r.source_iter() == *con_iter,
    {
        ConIterValues { con_iter }
    }

    /// Pulls the next element of the concurrent iterator.
    pub fn next(&mut self) -> (r: Option<C::Item>)
        ensures
            final(self).source_iter() == old(self).source_iter(),
            r matches Some(x) ==> exists|i: int| #[trigger] old(self).source_iter().is_item_at(i, x),
    {
        let r = self.con_iter.next();
        proof {
            if r is Some {
                let x = r->0;
                let i = choose|i: int| #[trigger] self.con_iter.is_item_at(i, x);
                assert(old(self).source_iter().is_item_at(i, x));
            }
        }
        r
    }
}

/// A puller that pulls elements together with their positions in the source.
pub struct EnumeratedItemPuller<'a, C> {
    con_iter: &'a C,
}

impl<'a, C: ConcurrentIter> EnumeratedItemPuller<'a, C> {
    /// The concurrent iterator that this puller pulls from.
    pub closed spec fn source_iter(&self) -> C {
        *self.con_iter
    }

    /// Creates a puller of the concurrent iterator `con_iter`.
    pub fn from_con_iter(con_iter: &'a C) -> (r: Self)
        ensures
            r.source_iter() == *con_iter,
    {
        EnumeratedItemPuller { con_iter }
    }

    /// Pulls the next element of the concurrent iterator together with its position.
    pub fn next(&mut self) -> (r: Option<(usize, C::Item)>)
        ensures
            final(self).source_iter() == old(self).source_iter(),
            r matches Some(p) ==> old(self).source_iter().is_item_at(p.0 as int, p.1),
    {
        self.con_iter.next_with_idx()
    }
}

/// A puller that pulls chunks of at most `chunk_size` consecutive elements.
pub struct ChunkPuller<'a, C> {
    con_iter: &'a C,
    chunk_size: usize,
}

impl<'a, C: ConcurrentIter> ChunkPuller<'a, C> {
    /// The concurrent iterator that this puller pulls from.
    pub closed spec fn source_iter(&self) -> C {
        *self.con_iter
    }

    /// Maximum number of elements in a pulled chunk.
    pub closed spec fn chunk_size_view(&self) -> usize {
        self.chunk_size
    }

    /// Creates a puller of chunks of at most `chunk_size` elements of `con_iter`.
    pub fn from_con_iter(con_iter: &'a C, chunk_size: usize) -> (r: Self)
        ensures
            r.source_iter() == *con_iter,
            r.chunk_size_view() == chunk_size,
    {
        ChunkPuller { con_iter, chunk_size }
    }

    /// Maximum number of elements in a pulled chunk.
    pub fn chunk_size(&self) -> (r: usize)
        ensures
            r == self.chunk_size_view(),
    {
        self.chunk_size
    }

    /// Pulls the next chunk of consecutive elements; never `Some` of an empty chunk.
    pub fn pull(&mut self) -> (r: Option<Vec<C::Item>>)
        ensures
            final(self).source_iter() == old(self).source_iter(),
            final(self).chunk_size_view() == old(self).chunk_size_view(),
            r matches Some(v) ==> {
                &&& 0 < v@.len() <= old(self).chunk_size_view()
                &&& exists|b: int| #![trigger old(self).source_iter().is_item_at(b, v@[0])]
                        forall|j: int| 0 <= j < v@.len() ==> old(self).source_iter().is_item_at(b + j, #[trigger] v@[j])
            },
    {
        let r = self.con_iter.next_chunk_x(self.chunk_size);
        proof {
            if r is Some {
                let v = r->0;
                let b = choose|b: int| #![trigger self.con_iter.is_item_at(b, v@[0])]
                    forall|j: int| 0 <= j < v@.len() ==> self.con_iter.is_item_at(b + j, #[trigger] v@[j]);
                assert(old(self).source_iter().is_item_at(b, v@[0]));
            }
        }
        r
    }

    /// Pulls the next chunk of consecutive elements together with the position of the first.
    pub fn pull_with_idx(&mut self) -> (r: Option<(usize, Vec<C::Item>)>)
        ensures
            final(self).source_iter() == old(self).source_iter(),
            final(self).chunk_size_view() == old(self).chunk_size_view(),
            r matches Some(p) ==> {
                &&& 0 < p.1@.len() <= old(self).chunk_size_view()
                &&& forall|j: int| 0 <= j < p.1@.len() ==> old(self).source_iter().is_item_at(p.0 + j, #[trigger] p.1@[j])
            },
    {
        match self.con_iter.next_chunk(self.chunk_size) {
            Some(chunk) => Some((chunk.begin_idx, chunk.values)),
            None => None,
        }
    }
}

/// Pullers of a concurrent iterator, to be created within each pulling thread.
pub trait ConIterPullers: ConcurrentIter {
    /// Creates a puller that pulls the elements of this iterator one at a time.
    fn item_puller(&self) -> (r: ConIterValues<'_, Self>)
        ensures
            r.source_iter() == *self,
    {
        ConIterValues::from_con_iter(self)
    }

    /// Creates a puller that pulls the elements of this iterator one at a time.
    fn values(&self) -> (r: ConIterValues<'_, Self>)
        ensures
            r.source_iter() == *self,
    {
        ConIterValues::from_con_iter(self)
    }

    /// Creates a puller that pulls the elements of this iterator together with their positions.
    fn item_puller_with_idx(&self) -> (r: EnumeratedItemPuller<'_, Self>)
        ensures
            r.source_iter() == *self,
    {
        EnumeratedItemPuller::from_con_iter(self)
    }

    /// Creates a puller that pulls chunks of at most `chunk_size` consecutive elements.
    fn chunk_puller(&self, chunk_size: usize) -> (r: ChunkPuller<'_, Self>)
        ensures
            r.source_iter() == *self,
            r.chunk_size_view() == chunk_size,
    {
        ChunkPuller::from_con_iter(self, chunk_size)
    }
}

impl<C: ConcurrentIter> ConIterPullers for C {}

} // verus!
