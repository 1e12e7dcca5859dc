use vstd::prelude::*;
use vstd::rwlock::{RwLock, RwLockPredicate};
use crate::iter::progress::{chunk_end, spec_chunk_end};
use crate::next::{Next, NextChunk};

verus! {

/// The owned elements of a source, each in a slot of its own, together with the number of
/// positions reserved so far: the slots at and after `next` still hold their elements.
pub struct SlotsState<T> {
    /// Number of positions reserved so far.
    pub next: usize,
    /// The slots; a slot is emptied when its element is moved out.
    pub items: Vec<Option<T>>,
}

impl<T> SlotsState<T> {
    /// The slots at and after `next` hold an element.
    pub open spec fn wf(&self) -> bool {
        &&& self.next <= self.items@.len()
        &&& forall|i: int| self.next <= i < self.items@.len() ==> (#[trigger] self.items@[i]) is Some
    }

    /// The element that slot `i` holds.
    pub open spec fn held(&self, i: int) -> T {
        self.items@[i]->0
    }

    /// Reserves the positions from `next` up to `n` of them and moves their elements out:
    /// `None` when `n` is zero or no position is left.
    pub fn take_chunk(&mut self, n: usize) -> (r: Option<(usize, Vec<T>)>)
        requires
            old(self).wf(),
        ensures
            final(self).wf(),
            final(self).items@.len() == old(self).items@.len(),
            final(self).next == spec_chunk_end(old(self).next as int, n as int, old(self).items@.len() as int),
            forall|i: int| 0 <= i < old(self).items@.len() && !(old(self).next <= i < final(self).next)
                ==> #[trigger] final(self).items@[i] == old(self).items@[i],
            forall|i: int| old(self).next <= i < final(self).next ==> (#[trigger] final(self).items@[i]) is None,
            r is None <==> (n == 0 || old(self).next == old(self).items@.len()),
            r matches Some(p) ==> {
                &&& p.0 == old(self).next
                &&& p.1@.len() == final(self).next - old(self).next
                &&& forall|j: int| 0 <= j < p.1@.len() ==> #[trigger] p.1@[j] == old(self).held(old(self).next + j)
            },
    {
        let len = self.items.len();
        let begin = self.next;
        let end = chunk_end(begin, n, len);
        if end == begin {
            return None;
        }
        let mut values: Vec<T> = Vec::new();
        let mut i = begin;
        while i < end
            invariant
                begin <= i <= end <= len,
                len == self.items@.len(),
                len == old(self).items@.len(),
                begin == old(self).next,
                self.next == old(self).next,
                values@.len() == i - begin,
                forall|j: int| 0 <= j < values@.len() ==> #[trigger] values@[j] == old(self).held(begin + j),
                forall|k: int| 0 <= k < len && !(begin <= k < i) ==> #[trigger] self.items@[k] == old(self).items@[k],
                forall|k: int| begin <= k < i ==> (#[trigger] self.items@[k]) is None,
                old(self).wf(),
            decreases end - i,
        {
            let mut taken: Option<T> = None;
            self.items.set_and_swap(i, &mut taken);
            assert(taken == old(self).items@[i as int]);
            match taken {
                Some(x) => values.push(x),
                None => {},
            }
            i += 1;
        }
        self.next = end;
        Some((begin, values))
    }

    /// Reserves the positions from `next` up to `n` of them without moving their elements out;
    /// returns the first of them, `None` when `n` is zero or no position is left.
    pub fn advance(&mut self, n: usize) -> (r: Option<usize>)
        requires
            old(self).wf(),
        ensures
            final(self).wf(),
            final(self).items@ == old(self).items@,
            final(self).next == spec_chunk_end(old(self).next as int, n as int, old(self).items@.len() as int),
            r is None <==> (n == 0 || old(self).next == old(self).items@.len()),
            r matches Some(b) ==> b == old(self).next,
    {
        let begin = self.next;
        let end = chunk_end(begin, n, self.items.len());
        self.next = end;
        if end == begin {
            None
        } else {
            Some(begin)
        }
    }

    /// Moves out the element of the reserved slot `idx`, if it still holds one.
    pub fn take_reserved(&mut self, idx: usize) -> (r: Option<T>)
        requires
            old(self).wf(),
        ensures
            final(self).wf(),
            final(self).next == old(self).next,
            final(self).items@.len() == old(self).items@.len(),
            forall|i: int| 0 <= i < old(self).items@.len() && i != idx ==> #[trigger] final(self).items@[i] == old(self).items@[i],
            r is Some <==> (idx < old(self).next && old(self).items@[idx as int] is Some),
            r is None ==> final(self).items@ == old(self).items@,
            r matches Some(x) ==> x == old(self).held(idx as int) && final(self).items@[idx as int] is None,
    {
        if idx < self.next {
            let mut taken: Option<T> = None;
            self.items.set_and_swap(idx, &mut taken);
            proof {
                if taken is None {
                    assert(self.items@ =~= old(self).items@);
                }
            }
            taken
        } else {
            None
        }
    }

    /// Reserves every position left and drops the elements still held there.
    pub fn skip_rest(&mut self)
        requires
            old(self).wf(),
        ensures
            final(self).wf(),
            final(self).items@.len() == old(self).items@.len(),
            final(self).next == old(self).items@.len(),
            forall|i: int| 0 <= i < old(self).next ==> #[trigger] final(self).items@[i] == old(self).items@[i],
            forall|i: int| old(self).next <= i < old(self).items@.len() ==> (#[trigger] final(self).items@[i]) is None,
    {
        let len = self.items.len();
        let mut i = self.next;
        while i < len
            invariant
                old(self).next <= i <= len,
                len == self.items@.len(),
                len == old(self).items@.len(),
                self.next == old(self).next,
                forall|k: int| 0 <= k < len && !(old(self).next <= k < i) ==> #[trigger] self.items@[k] == old(self).items@[k],
                forall|k: int| old(self).next <= k < i ==> (#[trigger] self.items@[k]) is None,
            decreases len - i,
        {
            let mut taken: Option<T> = None;
            self.items.set_and_swap(i, &mut taken);
            i += 1;
        }
        self.next = len;
    }

    /// Number of positions not reserved yet.
    pub fn rest_len(&self) -> (r: usize)
        requires
            self.wf(),
        ensures
            r == self.items@.len() - self.next,
    {
        self.items.len() - self.next
    }

    /// Moves out the elements of the positions not reserved yet, in order.
    pub fn into_rest(self) -> (r: Vec<T>)
        requires
            self.wf(),
        ensures
            r@.len() == self.items@.len() - self.next,
            forall|j: int| 0 <= j < r@.len() ==> #[trigger] r@[j] == self.held(self.next + j),
    {
        let ghost old_items = self.items@;
        let next = self.next;
        let len = self.items.len();
        let mut rest: Vec<T> = Vec::new();
        let mut k: usize = 0;
        for slot in it: self.items.into_iter()
            invariant
                it.seq() == old_items,
                old_items.len() == len,
                next <= len,
                k == it.index(),
                forall|i: int| next <= i < len ==> (#[trigger] old_items[i]) is Some,
                k <= next ==> rest@.len() == 0,
                k > next ==> rest@.len() == k - next,
                forall|j: int| 0 <= j < rest@.len() ==> #[trigger] rest@[j] == old_items[next + j]->0,
        {
            if k >= next {
                assert(slot == old_items[k as int]);
                match slot {
                    Some(x) => rest.push(x),
                    None => {},
                }
            }
            k += 1;
        }
        rest
    }
}

/// What the lock of the slots keeps: every slot holds its element of `source` or nothing, and
/// the slots at and after the reserved positions hold their elements.
pub struct SlotsInv<T> {
    /// The elements the slots were created with, in order.
    pub source: Seq<T>,
}

impl<T> RwLockPredicate<SlotsState<T>> for SlotsInv<T> {
    open spec fn inv(self, s: SlotsState<T>) -> bool {
        &&& s.items@.len() == self.source.len()
        &&& s.next <= s.items@.len()
        &&& forall|i: int| 0 <= i < s.items@.len() ==> (#[trigger] s.items@[i] is None || s.items@[i] == Some(self.source[i]))
        &&& forall|i: int| s.next <= i < s.items@.len() ==> #[trigger] s.items@[i] == Some(self.source[i])
    }
}

/// Owned elements of a source, shared among threads: a pull reserves the next positions and
/// moves their elements out under one lock, so that each element is moved out once, at the
/// position it was reserved at.
pub struct ElementSlots<T> {
    lock: RwLock<SlotsState<T>, SlotsInv<T>>,
    len: usize,
}

impl<T> ElementSlots<T> {
    #[verifier::type_invariant]
    spec fn len_matches_source(&self) -> bool {
        self.lock.pred().source.len() == self.len
    }

    /// The elements the slots were created with, in order.
    pub closed spec fn source(&self) -> Seq<T> {
        self.lock.pred().source
    }

    /// Moves the elements of `vec` into slots of their own, in order; nothing is reserved yet.
    pub fn new(vec: Vec<T>) -> (r: Self)
        ensures
            r.source() == vec@,
    {
        let ghost src = vec@;
        let len = vec.len();
        let mut items: Vec<Option<T>> = Vec::new();
        for x in it: vec.into_iter()
            invariant
                it.seq() == src,
                items@.len() == it.index(),
                forall|j: int| 0 <= j < items@.len() ==> #[trigger] items@[j] == Some(src[j]),
        {
            items.push(Some(x));
        }
        let state = SlotsState { next: 0, items };
        let lock = RwLock::new(state, Ghost(SlotsInv { source: src }));
        ElementSlots { lock, len }
    }

    /// Number of slots.
    pub fn len(&self) -> (r: usize)
        ensures
            r == self.source().len(),
    {
        proof {
            use_type_invariant(self);
        }
        self.len
    }

    /// Reserves the next positions, at most `n` of them, and moves their elements out: the
    /// chunk holds exactly the elements of the source at the reserved positions.
    pub fn reserve_chunk(&self, n: usize) -> (r: Option<NextChunk<T>>)
        ensures
            self.source().len() <= usize::MAX,
            n == 0 ==> r is None,
            r matches Some(c) ==> {
                &&& c.begin_idx < self.source().len()
                &&& c.values@.len() == spec_chunk_end(c.begin_idx as int, n as int, self.source().len() as int) - c.begin_idx
                &&& c.values@ == self.source().subrange(c.begin_idx as int, c.begin_idx + c.values@.len())
            },
    {
        proof {
            use_type_invariant(self);
        }
        let (mut state, handle) = self.lock.acquire_write();
        let ghost src = self.source();
        let ghost before = state;
        assert(state.wf());
        let r = state.take_chunk(n);
        proof {
            assert forall|i: int| 0 <= i < state.items@.len() implies (#[trigger] state.items@[i] is None
                || state.items@[i] == Some(src[i])) by {
                if !(before.next <= i < state.next) {
                    assert(state.items@[i] == before.items@[i]);
                }
            }
            assert forall|i: int| state.next <= i < state.items@.len() implies #[trigger] state.items@[i] == Some(src[i]) by {
                assert(state.items@[i] == before.items@[i]);
            }
        }
        handle.release_write(state);
        match r {
            Some((begin_idx, values)) => {
                proof {
                    assert forall|j: int| 0 <= j < values@.len() implies values@[j] == src[begin_idx + j] by {
                        assert(before.items@[begin_idx + j] == Some(src[begin_idx + j]));
                    }
                    assert(values@ =~= src.subrange(begin_idx as int, begin_idx + values@.len()));
                }
                Some(NextChunk { begin_idx, values })
            },
            None => None,
        }
    }

    /// Reserves the next position and moves its element out.
    pub fn reserve_one(&self) -> (r: Option<Next<T>>)
        ensures
            r matches Some(nx) ==> nx.idx < self.source().len() && nx.value == self.source()[nx.idx as int],
    {
        match self.reserve_chunk(1) {
            Some(chunk) => {
                let idx = chunk.begin_idx;
                let mut values = chunk.values;
                assert(values@.len() == 1);
                let value = values.pop().unwrap();
                Some(Next { idx, value })
            },
            None => None,
        }
    }

    /// Reserves the next positions, at most `n` of them, without moving their elements out;
    /// returns the first of them, `None` when `n` is zero or no position is left.
    pub fn reserve_positions(&self, n: usize) -> (r: Option<usize>)
        ensures
            n == 0 ==> r is None,
            r matches Some(b) ==> b < self.source().len(),
    {
        let (mut state, handle) = self.lock.acquire_write();
        let ghost src = self.source();
        let ghost before = state;
        let r = state.advance(n);
        handle.release_write(state);
        r
    }

    /// Moves out the element at the reserved position `idx`; `None` if `idx` is not reserved yet,
    /// or its element was already moved out.
    pub fn take_reserved(&self, idx: usize) -> (r: Option<T>)
        ensures
            r matches Some(x) ==> idx < self.source().len() && x == self.source()[idx as int],
    {
        let (mut state, handle) = self.lock.acquire_write();
        let ghost src = self.source();
        let ghost before = state;
        let r = state.take_reserved(idx);
        proof {
            assert forall|i: int| 0 <= i < state.items@.len() implies (#[trigger] state.items@[i] is None
                || state.items@[i] == Some(src[i])) by {
                if i != idx {
                    assert(state.items@[i] == before.items@[i]);
                }
            }
            assert forall|i: int| state.next <= i < state.items@.len() implies #[trigger] state.items@[i] == Some(src[i]) by {
                assert(state.items@[i] == before.items@[i]);
            }
        }
        handle.release_write(state);
        r
    }

    /// Reserves every position left and drops the elements still held there.
    pub fn skip_rest(&self) {
        let (mut state, handle) = self.lock.acquire_write();
        let ghost src = self.source();
        let ghost before = state;
        state.skip_rest();
        proof {
            assert forall|i: int| 0 <= i < state.items@.len() implies (#[trigger] state.items@[i] is None
                || state.items@[i] == Some(src[i])) by {
                if i < before.next {
                    assert(state.items@[i] == before.items@[i]);
                }
            }
        }
        handle.release_write(state);
    }

    /// Number of positions reserved so far.
    pub fn taken(&self) -> (r: usize)
        ensures
            r <= self.source().len(),
    {
        let handle = self.lock.acquire_read();
        let r = handle.borrow().next;
        handle.release_read();
        r
    }

    /// Number of positions not reserved yet.
    pub fn rest_len(&self) -> (r: usize)
        ensures
            r <= self.source().len(),
    {
        let handle = self.lock.acquire_read();
        let state = handle.borrow();
        assert(state.wf());
        let r = state.rest_len();
        handle.release_read();
        r
    }

    /// Consumes the slots and moves out the elements of the positions not reserved yet: exactly
    /// the elements of the source after the reserved positions, in order.
    pub fn into_rest(self) -> (r: Vec<T>)
        ensures
            r@.is_suffix_of(self.source()),
    {
        let ghost src = self.source();
        let state = self.lock.into_inner();
        assert(state.wf());
        let ghost next = state.next as int;
        let ghost items = state.items@;
        let r = state.into_rest();
        proof {
            assert forall|j: int| 0 <= j < r@.len() implies r@[j] == src[next + j] by {
                assert(items[next + j] == Some(src[next + j]));
            }
            assert(r@ =~= src.subrange(src.len() - r@.len(), src.len() as int));
        }
        r
    }
}

} // verus!
