# orx_concurrent_iter

Concurrent iterators: iterators that threads share through a shared reference, each pull
reserving consecutive positions of the source.

What is proved of "each element once and in order" is the arithmetic of reservations
(`iter/progress.rs`): for any series of values read from a counter that starts at zero and
grows by what each pull asks for, chunks come in order, never overlap and cover the source.
That the iterators' counters behave so is not proved. For slices, ranges and deques the counter
is a std atomic; for a given counter value, `chunk_from`, `get` and `seq_iter_from` state
exactly what a pull returns. The vector, array and drain iterators keep their counter and
their slots under one lock, and state that a pull moves out exactly the elements at the
positions it reserves.

The library under `src/` is verified with Verus:

- `iter/con_iter.rs`: the `ConcurrentIter` trait; every element that a pull returns is the
  element at the position it is reported with, and a chunk holds consecutive positions.
- `iter/progress.rs`: the arithmetic of reservations (chunk ends, taken and remaining
  counts) and the laws of a series of reservations: chunks come in order, never overlap,
  stay within the source and, together, cover it.
- `iter/implementors/`: iterators over slices, vectors, arrays, ranges and generic
  iterators; `implementations/`: over `VecDeque` references and draining a range of a `Vec`.
- `iter/buffered/`, `iter/wrappers/`: within-thread pullers of elements and chunks.
- `iter/default_fns/`: folds and for-each loops over the pulled elements.
- `iter/cloned.rs`, `iter/copied.rs`, `enumerate.rs`: transformations of concurrent iterators.

`app/` holds what Verus does not see: the `PseudoDefault` trait of `orx_pseudo_default`
for the deque slices indexer, and `Debug` formatting of counter-based iterators.
