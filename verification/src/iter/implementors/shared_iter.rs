use vstd::prelude::*;
use crate::iter::implementors::iter_mut_handle::{InitialIter, IterLock, IterMutHandle, IterState};
use crate::iter::progress::{remaining_len, spec_remaining_len};
use crate::next::{Next, NextChunk};
use vstd::rwlock::RwLock;

verus! {

/// `Iterator::size_hint` of `iter`: what it returns is up to the iterator's own implementation
/// of the trait, so nothing is stated of it.
#[verifier::external_body]
fn iter_size_hint<I: Iterator>(iter: &I) -> (usize, Option<usize>) {
    iter.size_hint()
}

/// The exact length that a size hint `(lower, upper)` gives: `lower` when both bounds agree.
pub fn exact_len_from_size_hint(lower: usize, upper: Option<usize>) -> (r: Option<usize>)
    ensures
        r == (if upper == Some(lower) { Some(lower) } else { None::<usize> }),
{
    match upper {
        Some(u) => {
            if u == lower {
                Some(lower)
            } else {
                None
            }
        },
        None => None,
    }
}

/// Number of elements left of a shared iterator in the state (`completed`, `yielded`) whose
/// exact length, when known, is `initial_len`: none once completed, otherwise the length less
/// the elements yielded.
pub fn remaining_of(completed: bool, yielded: usize, initial_len: Option<usize>) -> (r: Option<usize>)
    ensures
        r == (if completed {
            Some(0usize)
        } else {
            match initial_len {
                Some(n) => Some(spec_remaining_len(yielded as int, n as int) as usize),
                None => None,
            }
        }),
{
    if completed {
        Some(0)
    } else {
        match initial_len {
            Some(n) => Some(remaining_len(yielded, n)),
            None => None,
        }
    }
}

/// An iterator shared among threads: pulls are serialized by a lock and numbered by the
/// number of elements yielded before them.
pub struct SharedIter<I> {
    state: IterLock<I>,
    initial_len: Option<usize>,
}

impl<I: Iterator> SharedIter<I> {
    /// Length of the iterator as reported by an exact size hint when it was shared, if any.
    pub closed spec fn initial_len_view(&self) -> Option<usize> {
        self.initial_len
    }

    /// The lock that guards the shared iterator.
    pub closed spec fn lock_view(&self) -> IterLock<I> {
        self.state
    }

    /// The iterator that was shared: the lock holds it until an element is pulled or the
    /// iterator is completed.
    pub closed spec fn initial_iter(&self) -> I {
        self.state.pred().initial
    }

    /// Shares `iter`, recording its exact length when its size hint gives one.
    pub fn new(iter: I) -> (r: Self)
        ensures
            r.initial_iter() == iter,
    {
        let (lower, upper) = iter_size_hint(&iter);
        let initial_len = exact_len_from_size_hint(lower, upper);
        let ghost initial = iter;
        let state = RwLock::new(IterState { iter, yielded: 0, completed: false }, Ghost(InitialIter { initial }));
        SharedIter { state, initial_len }
    }

    /// Waits for the exclusive right to pull; `None` if the iterator is completed.
    pub fn try_get_handle(&self) -> (r: Option<IterMutHandle<'_, I>>)
        ensures
            r matches Some(h) ==> h.wf() && h.handle_lock() == self.lock_view(),
    {
        IterMutHandle::spin_get(&self.state)
    }

    /// Pulls the next element together with its position.
    pub fn pull_one(&self) -> (r: Option<Next<I::Item>>) {
        match self.try_get_handle() {
            Some(mut handle) => {
                let (begin, mut values) = handle.pull(1);
                handle.release();
                if values.len() == 1 {
                    let value = values.pop().unwrap();
                    Some(Next { idx: begin, value })
                } else {
                    None
                }
            },
            None => None,
        }
    }

    /// Pulls at most `n` consecutive elements together with the position of the first.
    pub fn pull_chunk(&self, n: usize) -> (r: Option<NextChunk<I::Item>>)
        ensures
            r matches Some(c) ==> 0 < c.values@.len() <= n && c.begin_idx + c.values@.len() <= usize::MAX,
    {
        if n == 0 {
            return None;
        }
        match self.try_get_handle() {
            Some(mut handle) => {
                let (begin_idx, values) = handle.pull(n);
                handle.release();
                if values.len() == 0 {
                    None
                } else {
                    Some(NextChunk { begin_idx, values })
                }
            },
            None => None,
        }
    }

    /// Marks the iterator completed, so that pulls that follow return `None`.
    pub fn complete(&self) {
        match self.try_get_handle() {
            Some(handle) => handle.release_complete(),
            None => {},
        }
    }

    /// Whether the iterator is completed.
    pub fn is_completed(&self) -> (r: bool) {
        let handle = self.state.acquire_read();
        let completed = handle.borrow().completed;
        handle.release_read();
        completed
    }

    /// Number of elements left: zero once completed, otherwise the exact length less the
    /// elements yielded, when the exact length is known.
    pub fn remaining(&self) -> (r: Option<usize>)
        ensures
            self.initial_len_view() is Some ==> r is Some,
            r matches Some(l) ==> (self.initial_len_view() matches Some(n) ==> l <= n),
    {
        let handle = self.state.acquire_read();
        let completed = handle.borrow().completed;
        let yielded = handle.borrow().yielded;
        handle.release_read();
        remaining_of(completed, yielded, self.initial_len)
    }

    /// Returns the exact length recorded when the iterator was shared.
    pub fn initial_len(&self) -> (r: Option<usize>)
        ensures
            r == self.initial_len_view(),
    {
        self.initial_len
    }

    /// Consumes the shared iterator and returns its state: the iterator, positioned after the
    /// pulled elements, the number of elements pulled and whether it was completed. Until an
    /// element is pulled or the iterator is completed, the iterator is the one that was shared.
    pub fn into_state(self) -> (r: IterState<I>)
        ensures
            r.yielded == 0 && !r.completed ==> r.iter == self.initial_iter(),
    {
        self.state.into_inner()
    }

    /// Consumes the shared iterator and returns the underlying iterator, positioned after the pulled elements.
    pub fn into_inner(self) -> I {
        self.into_state().iter
    }
}

} // verus!
