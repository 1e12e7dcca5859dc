use vstd::prelude::*;
use crate::iter::buffered::iter::BufferedIter;

verus! {

/// An element pulled from a concurrent iterator together with its position in the source.
pub struct Next<T> {
    /// Position of the element in the source of the concurrent iterator.
    pub idx: usize,
    /// The element.
    pub value: T,
}

/// A chunk of consecutive elements pulled from a concurrent iterator.
///
/// `values[j]` is the element at position `begin_idx + j` of the source.
pub struct NextChunk<T> {
    /// Position of the first element of the chunk in the source.
    pub begin_idx: usize,
    /// The consecutive elements of the chunk.
    pub values: Vec<T>,
}

impl<'a, T: Clone> Next<&'a T> {
    /// Clones the referenced element, keeping its position.
    pub fn cloned(self) -> (r: Next<T>)
        ensures
            r.idx == self.idx,
            cloned::<T>(*self.value, r.value),
    {
        Next { idx: self.idx, value: self.value.clone() }
    }
}

impl<'a, T: Copy> Next<&'a T> {
    /// Copies the referenced element, keeping its position.
    pub fn copied(self) -> (r: Next<T>)
        ensures
            r.idx == self.idx,
            r.value == *self.value,
    {
        Next { idx: self.idx, value: *self.value }
    }
}

impl<'a, T: Clone> NextChunk<&'a T> {
    /// Clones every referenced element of the chunk, keeping the beginning position.
    pub fn cloned(self) -> (r: NextChunk<T>)
        ensures
            r.begin_idx == self.begin_idx,
            r.values@.len() == self.values@.len(),
            forall|j: int| 0 <= j < r.values@.len() ==> cloned::<T>(*self.values@[j], #[trigger] r.values@[j]),
    {
        let mut values: Vec<T> = Vec::new();
        let n = self.values.len();
        for j in 0..n
            invariant
                n == self.values@.len(),
                values@.len() == j,
                forall|k: int| 0 <= k < j ==> cloned::<T>(*self.values@[k], #[trigger] values@[k]),
        {
            let x = self.values[j].clone();
            values.push(x);
        }
        NextChunk { begin_idx: self.begin_idx, values }
    }
}

impl<'a, T: Copy> NextChunk<&'a T> {
    /// Copies every referenced element of the chunk, keeping the beginning position.
    pub fn copied(self) -> (r: NextChunk<T>)
        ensures
            r.begin_idx == self.begin_idx,
            r.values@.len() == self.values@.len(),
            forall|j: int| 0 <= j < r.values@.len() ==> #[trigger] r.values@[j] == *self.values@[j],
    {
        let mut values: Vec<T> = Vec::new();
        let n = self.values.len();
        for j in 0..n
            invariant
                n == self.values@.len(),
                values@.len() == j,
                forall|k: int| 0 <= k < j ==> #[trigger] values@[k] == *self.values@[k],
        {
            values.push(*self.values[j]);
        }
        NextChunk { begin_idx: self.begin_idx, values }
    }
}

/// The kind of elements that concurrent pulls yield: the elements alone (`Regular`) or the
/// elements together with their positions (`Enumerated`).
pub trait NextKind<T> {
    /// What a pull of one element yields.
    type Next;

    /// What identifies the beginning of a chunk.
    type BeginIdx;

    /// What a pull of a chunk yields.
    type NextChunk;

    /// What a pull of the element `item` at position `idx` yields.
    spec fn spec_new_elem(idx: usize, item: T) -> Self::Next;

    /// The beginning identifier of a chunk that starts at position `begin_idx`.
    spec fn spec_begin_of(begin_idx: usize) -> Self::BeginIdx;

    /// The beginning identifier of `chunk`.
    spec fn spec_chunk_begin(chunk: Self::NextChunk) -> Self::BeginIdx;

    /// The elements of `chunk`.
    spec fn spec_chunk_values(chunk: Self::NextChunk) -> Seq<T>;

    /// What a pull from a chunk beginning at `begin` yields for its element `item` at offset `pos`.
    spec fn spec_elem_in_chunk(begin: Self::BeginIdx, pos: usize, item: T) -> Self::Next;

    /// Holds when the positions of a chunk beginning at `begin` fit in a `usize` up to offset `end`.
    spec fn spec_positions_fit(begin: Self::BeginIdx, end: usize) -> bool;

    /// Makes what a pull of the element `item` at position `idx` yields.
    fn new_elem(idx: usize, item: T) -> (r: Self::Next)
        ensures
            r == Self::spec_new_elem(idx, item),
    ;

    /// Makes the chunk of the elements `chunk` beginning at position `begin_idx`.
    fn new_chunk(begin_idx: usize, chunk: Vec<T>) -> (r: Self::NextChunk)
        ensures
            Self::spec_chunk_begin(r) == Self::spec_begin_of(begin_idx),
            Self::spec_chunk_values(r) == chunk@,
    ;

    /// Splits a chunk into its beginning identifier and its elements.
    fn destruct_chunk(chunk: Self::NextChunk) -> (r: (Self::BeginIdx, Vec<T>))
        ensures
            r.0 == Self::spec_chunk_begin(chunk),
            r.1@ == Self::spec_chunk_values(chunk),
    ;

    /// Makes the sequential iterator over the elements of a chunk.
    fn into_seq_chunk_iter(chunk: Vec<T>) -> (r: BufferedIter<T>)
        ensures
            r.wf(),
            r.remaining() == chunk@,
            r.position() == 0,
            r.end_position() == chunk@.len(),
    {
        BufferedIter::from_vec(chunk)
    }

    /// Yields the next element of the sequential iterator over a chunk beginning at `begin_idx`.
    fn seq_chunk_iter_next(begin_idx: Self::BeginIdx, seq_iter: &mut BufferedIter<T>) -> (r: Option<Self::Next>)
        requires
            old(seq_iter).wf(),
            Self::spec_positions_fit(begin_idx, old(seq_iter).end_position()),
        ensures
            final(seq_iter).wf(),
            final(seq_iter).end_position() == old(seq_iter).end_position(),
            old(seq_iter).remaining().len() == old(seq_iter).end_position() - old(seq_iter).position(),
            if old(seq_iter).remaining().len() > 0 {
                &&& r == Some(Self::spec_elem_in_chunk(begin_idx, old(seq_iter).position(), old(seq_iter).remaining()[0]))
                &&& final(seq_iter).remaining() == old(seq_iter).remaining().drop_first()
                &&& final(seq_iter).position() == old(seq_iter).position() + 1
            } else {
                &&& r is None
                &&& final(seq_iter).remaining() == old(seq_iter).remaining()
            },
    ;
}

/// Pulls yield the elements alone.
pub struct Regular;

/// Pulls yield the elements together with their positions in the source.
pub struct Enumerated;

impl<T> NextKind<T> for Regular {
    type Next = T;

    type BeginIdx = ();

    type NextChunk = Vec<T>;

    open spec fn spec_new_elem(idx: usize, item: T) -> T {
        item
    }

    open spec fn spec_begin_of(begin_idx: usize) -> () {
        ()
    }

    open spec fn spec_chunk_begin(chunk: Vec<T>) -> () {
        ()
    }

    open spec fn spec_chunk_values(chunk: Vec<T>) -> Seq<T> {
        chunk@
    }

    open spec fn spec_elem_in_chunk(begin: (), pos: usize, item: T) -> T {
        item
    }

    open spec fn spec_positions_fit(begin: (), end: usize) -> bool {
        true
    }

    fn new_elem(idx: usize, item: T) -> (r: T) {
        item
    }

    fn new_chunk(begin_idx: usize, chunk: Vec<T>) -> (r: Vec<T>) {
        chunk
    }

    fn destruct_chunk(chunk: Vec<T>) -> (r: ((), Vec<T>)) {
        ((), chunk)
    }

    fn seq_chunk_iter_next(begin_idx: (), seq_iter: &mut BufferedIter<T>) -> (r: Option<T>) {
        seq_iter.next()
    }
}

impl<T> NextKind<T> for Enumerated {
    type Next = (usize, T);

    type BeginIdx = usize;

    type NextChunk = (usize, Vec<T>);

    open spec fn spec_new_elem(idx: usize, item: T) -> (usize, T) {
        (idx, item)
    }

    open spec fn spec_begin_of(begin_idx: usize) -> usize {
        begin_idx
    }

    open spec fn spec_chunk_begin(chunk: (usize, Vec<T>)) -> usize {
        chunk.0
    }

    open spec fn spec_chunk_values(chunk: (usize, Vec<T>)) -> Seq<T> {
        chunk.1@
    }

    open spec fn spec_elem_in_chunk(begin: usize, pos: usize, item: T) -> (usize, T) {
        ((begin + pos) as usize, item)
    }

    open spec fn spec_positions_fit(begin: usize, end: usize) -> bool {
        begin + end <= usize::MAX
    }

    fn new_elem(idx: usize, item: T) -> (r: (usize, T)) {
        let r = (idx, item);
        assert(r == <Self as NextKind<T>>::spec_new_elem(idx, item));
        r
    }

    fn new_chunk(begin_idx: usize, chunk: Vec<T>) -> (r: (usize, Vec<T>)) {
        (begin_idx, chunk)
    }

    fn destruct_chunk(chunk: (usize, Vec<T>)) -> (r: (usize, Vec<T>)) {
        chunk
    }

    fn seq_chunk_iter_next(begin_idx: usize, seq_iter: &mut BufferedIter<T>) -> (r: Option<(usize, T)>) {
        let pos = seq_iter.current_position();
        match seq_iter.next() {
            Some(x) => Some((begin_idx + pos, x)),
            None => None,
        }
    }
}

} // verus!
