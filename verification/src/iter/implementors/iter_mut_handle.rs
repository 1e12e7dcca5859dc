use vstd::prelude::*;
use vstd::rwlock::{RwLock, RwLockPredicate, WriteHandle};
use vstd::std_specs::iter::IteratorSpec;

verus! {

/// State of an iterator shared among threads: the iterator, the number of elements it has
/// yielded so far, and whether it is known to be used up (or was skipped to its end).
pub struct IterState<I> {
    /// The iterator.
    pub iter: I,
    /// Number of elements pulled from the iterator so far.
    pub yielded: usize,
    /// Whether no more elements are to be pulled.
    pub completed: bool,
}

/// What the lock of a shared iterator keeps: until an element is pulled or the iterator is
/// completed, the iterator behind the lock is the one it was shared with, `initial`.
pub struct InitialIter<I> {
    /// The iterator that was shared.
    pub initial: I,
}

impl<I> RwLockPredicate<IterState<I>> for InitialIter<I> {
    open spec fn inv(self, v: IterState<I>) -> bool {
        v.yielded == 0 && !v.completed ==> v.iter == self.initial
    }
}

/// The lock that guards the state of a shared iterator.
pub type IterLock<I> = RwLock<IterState<I>, InitialIter<I>>;

/// Exclusive right to pull elements from a shared iterator, obtained only while the
/// iterator is not completed.
pub struct IterMutHandle<'a, I> {
    state: IterState<I>,
    handle: WriteHandle<'a, IterState<I>, InitialIter<I>>,
}

/// Two pulls through one handle take consecutive elements: pulling `a` elements and then `b`
/// more takes what one pull of `a + b` elements would, and leaves the same elements behind.
pub proof fn law_consecutive_pulls<T>(remaining: Seq<T>, a: int, b: int)
    requires
        0 <= a,
        0 <= b,
        a + b <= remaining.len(),
    ensures
        remaining.take(a) + remaining.skip(a).take(b) == remaining.take(a + b),
        remaining.skip(a).skip(b) == remaining.skip(a + b),
{
    assert(remaining.take(a) + remaining.skip(a).take(b) =~= remaining.take(a + b));
    assert(remaining.skip(a).skip(b) =~= remaining.skip(a + b));
}

impl<'a, I: Iterator> IterMutHandle<'a, I> {
    /// Number of elements pulled from the iterator before this handle was obtained, plus the ones pulled through it.
    pub closed spec fn yielded(&self) -> usize {
        self.state.yielded
    }

    /// Number of elements pulled from the iterator so far: the position of the next element.
    pub fn position(&self) -> (r: usize)
        ensures
            r == self.yielded(),
    {
        self.state.yielded
    }

    /// The state held by this handle may be stored back in its lock.
    pub closed spec fn wf(&self) -> bool {
        self.handle.rwlock().inv(self.state)
    }

    /// Waits for the exclusive right to pull from the iterator behind `state`; returns `None`
    /// if the iterator is completed.
    pub fn spin_get(state: &'a IterLock<I>) -> (r: Option<Self>)
        ensures
            r matches Some(h) ==> h.handle_lock() == *state && h.wf(),
    {
        let (st, handle) = state.acquire_write();
        if st.completed {
            handle.release_write(st);
            None
        } else {
            Some(IterMutHandle { state: st, handle })
        }
    }

    /// The iterator that this handle pulls from.
    pub closed spec fn iter_view(&self) -> I {
        self.state.iter
    }

    /// The lock that this handle was obtained from.
    pub closed spec fn handle_lock(&self) -> IterLock<I> {
        self.handle.rwlock()
    }

    /// Pulls at most `n` elements from the iterator; returns the number of elements pulled
    /// before, and the pulled elements. The iterator is marked completed when it runs out
    /// before `n` elements, or when the number of pulled elements would no longer fit in a `usize`.
    pub fn pull(&mut self, n: usize) -> (r: (usize, Vec<I::Item>))
        requires
            old(self).wf(),
        ensures
            final(self).wf(),
            r.0 == old(self).yielded(),
            r.1@.len() <= n,
            final(self).yielded() == r.0 + r.1@.len(),
            final(self).handle_lock() == old(self).handle_lock(),
            final(self).iter_view().obeys_prophetic_iter_laws() == old(self).iter_view().obeys_prophetic_iter_laws(),
            old(self).iter_view().obeys_prophetic_iter_laws() ==> {
                &&& r.1@.len() <= old(self).iter_view().remaining().len()
                &&& r.1@ == old(self).iter_view().remaining().take(r.1@.len() as int)
                &&& final(self).iter_view().remaining() == old(self).iter_view().remaining().skip(r.1@.len() as int)
                &&& r.1@.len() < n ==> (r.1@.len() == old(self).iter_view().remaining().len() || r.0 + r.1@.len() == usize::MAX)
            },
    {
        let begin = self.state.yielded;
        let mut values: Vec<I::Item> = Vec::new();
        let mut i: usize = 0;
        let mut done = false;
        while i < n && !done
            invariant
                i <= n,
                values@.len() == i,
                self.state.yielded == begin,
                begin + i <= usize::MAX,
                self.handle == old(self).handle,
                self.state.completed == old(self).state.completed,
                i == 0 && !done ==> self.state.iter == old(self).state.iter,
                done ==> i < n,
                self.state.iter.obeys_prophetic_iter_laws() == old(self).state.iter.obeys_prophetic_iter_laws(),
                old(self).state.iter.obeys_prophetic_iter_laws() ==> {
                    &&& i <= old(self).state.iter.remaining().len()
                    &&& values@ == old(self).state.iter.remaining().take(i as int)
                    &&& self.state.iter.remaining() == old(self).state.iter.remaining().skip(i as int)
                    &&& done ==> (i == old(self).state.iter.remaining().len() || begin + i == usize::MAX)
                },
            decreases n - i + (if done { 0int } else { 1int }),
        {
            if begin + i == usize::MAX {
                done = true;
            } else {
                match self.state.iter.next() {
                    Some(x) => {
                        proof {
                            if old(self).state.iter.obeys_prophetic_iter_laws() {
                                let src = old(self).state.iter.remaining();
                                assert(src.skip(i as int).drop_first() =~= src.skip(i + 1));
                                assert(values@.push(x) =~= src.take(i + 1));
                            }
                        }
                        values.push(x);
                        i += 1;
                    },
                    None => {
                        done = true;
                    },
                }
            }
        }
        if i < n {
            self.state.completed = true;
        }
        self.state.yielded = begin + i;
        proof {
            if i == 0 && !self.state.completed {
                assert(self.state == old(self).state);
            }
        }
        (begin, values)
    }

    /// Gives the right to pull back, leaving the iterator available to other threads.
    pub fn release(self)
        requires
            self.wf(),
    {
        self.handle.release_write(self.state);
    }

    /// Gives the right to pull back, marking the iterator as completed.
    pub fn release_complete(self) {
        let IterMutHandle { mut state, handle } = self;
        state.completed = true;
        handle.release_write(state);
    }
}

} // verus!
