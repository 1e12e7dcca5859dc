use vstd::prelude::*;
use crate::iter::atomic_counter::AtomicCounter;

verus! {

/// The fields that the debug representation of a counter-based concurrent iterator shows.
#[derive(Clone, Copy, Debug, PartialEq, Eq, Structural)]
pub struct IterDebugFields {
    /// Number of elements of the source, when it is known.
    pub initial_len: Option<usize>,
    /// Number of elements handed out so far.
    pub taken: usize,
    /// Number of elements left, shown only when the number of elements of the source is known.
    pub remaining: Option<usize>,
}

/// The debug fields of an iterator over `initial_len` elements whose counter stands at `current`:
/// the counter counts the taken elements up to the length of the source.
pub open spec fn spec_debug_fields(initial_len: Option<usize>, current: usize) -> IterDebugFields {
    match initial_len {
        None => IterDebugFields { initial_len, taken: current, remaining: None },
        Some(n) => {
            let taken = if current < n { current } else { n };
            IterDebugFields { initial_len, taken, remaining: Some((n - taken) as usize) }
        },
    }
}

/// Computes the debug fields of an iterator over `initial_len` elements whose counter stands at `current`.
pub fn debug_fields(initial_len: Option<usize>, current: usize) -> (r: IterDebugFields)
    ensures
        r == spec_debug_fields(initial_len, current),
{
    match initial_len {
        None => IterDebugFields { initial_len, taken: current, remaining: None },
        Some(n) => {
            let taken = if current < n { current } else { n };
            IterDebugFields { initial_len, taken, remaining: Some(n - taken) }
        },
    }
}

/// Reads `counter` and returns the debug fields of an iterator over `initial_len` elements.
///
/// The counter is shared among threads, so the value read is not fixed; whatever it is, the
/// taken elements do not exceed the length of the source, and with the remaining ones they make it up.
pub fn fmt_iter(initial_len: Option<usize>, counter: &AtomicCounter) -> (r: IterDebugFields)
    ensures
        r.initial_len == initial_len,
        initial_len is None ==> r.remaining is None,
        initial_len matches Some(n) ==> {
            &&& r.taken <= n
            &&& r.remaining == Some((n - r.taken) as usize)
        },
{
    let current = counter.current();
    debug_fields(initial_len, current)
}

} // verus!
