//! Concurrent iterators: iterators that can be shared among threads by a shared reference,
//! each pull reserving consecutive positions of the source.
//!
//! What is proved of handing out each element once and in order is the arithmetic of
//! reservations (`iter::progress`): for any series of values read from a counter that starts at
//! zero and grows by what each pull asks for, the chunks come in order, never overlap, stay
//! within the source and together cover it. That the counters of the iterators behave so is
//! not proved: for slices, ranges and deques the counter is a std atomic of whose values nothing
//! is proved, and for each counter value `chunk_from`, `get` and `seq_iter_from` state exactly
//! what comes back. The consuming iterators (vector, array, drain) keep their counter and their
//! slots under one lock, and state that a pull moves out exactly the elements at the positions
//! it reserves.

pub mod concurrent_iterable;
pub mod enumerate;
pub mod exact_size_concurrent_iter;
pub mod implementations;
pub mod into_concurrent_iter;
pub mod iter_into_concurrent_iter;
pub mod iter;
pub mod next;

pub use concurrent_iterable::{ConcurrentCollection, ConcurrentIterable};
pub use enumerate::{Enumerate, IntoEnumerated};
pub use exact_size_concurrent_iter::{ExactSizeConcurrentIter, IntoExactSizeConcurrentIter};
pub use implementations::empty::ConIterEmpty;
pub use implementations::vec_deque::con_iter_ref::{ConIterVecDequeRef, VecDequeSlicesIndexer};
pub use implementations::vec_drain::con_iter::ConIterVecDrain;
pub use implementations::vec_drain::drainable::ConcurrentDrainableOverSlice;
pub use into_concurrent_iter::IntoConcurrentIter;
pub use iter::atomic_counter::AtomicCounter;
pub use iter::atomic_iter::{AtomicIter, AtomicIterWithInitialLen};
pub use iter::cloned::{Cloned, IntoCloned};
pub use iter::con_iter::ConcurrentIter;
pub use iter::copied::{Copied, IntoCopied};
pub use iter::implementors::array::ConIterOfArray;
pub use iter::implementors::cloned::slice::ClonedConIterOfSlice;
pub use iter::implementors::iter::ConIterOfIter;
pub use iter::implementors::iter_x::ConIterOfIterX;
pub use iter::implementors::range::ConIterOfRange;
pub use iter::implementors::slice::ConIterOfSlice;
pub use iter::implementors::vec::ConIterOfVec;
pub use iter::no_leak_iter::NoLeakIter;
pub use iter::special_iterators::empty;
pub use iter::wrappers::values::{ChunkPuller, ConIterPullers, ConIterValues, EnumeratedItemPuller};
pub use iter_into_concurrent_iter::IterIntoConcurrentIter;
pub use next::{Enumerated, Next, NextChunk, NextKind, Regular};
