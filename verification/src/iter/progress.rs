use vstd::prelude::*;

verus! {

/// End (exclusive) of the chunk of at most `chunk_size` positions that begins at
/// `begin_idx` of a source with `len` elements; equal to `begin_idx` when nothing is left.
pub open spec fn spec_chunk_end(begin_idx: int, chunk_size: int, len: int) -> int {
    if begin_idx < len {
        if chunk_size < len - begin_idx {
            begin_idx + chunk_size
        } else {
            len
        }
    } else {
        begin_idx
    }
}

/// Number of positions of a source with `len` elements that a counter at `current` has handed out.
pub open spec fn spec_num_taken(current: int, len: int) -> int {
    if current < len {
        current
    } else {
        len
    }
}

/// Number of positions of a source with `len` elements still to be handed out when the counter is at `current`.
pub open spec fn spec_remaining_len(current: int, len: int) -> int {
    if current < len {
        len - current
    } else {
        0
    }
}

/// Beginning position of the `k`-th of a series of reservations of `sizes[0]`, `sizes[1]`, ...
/// positions made one after the other on a counter that starts at zero: the sum of the sizes
/// reserved before it.
pub open spec fn reservation_begin(sizes: Seq<nat>, k: int) -> int
    decreases k,
{
    if k <= 0 {
        0
    } else {
        reservation_begin(sizes, k - 1) + sizes[k - 1]
    }
}

/// Holds when the `k`-th of the reservations `sizes` hands out position `p` of a source of `len` elements.
pub open spec fn reservation_yields(sizes: Seq<nat>, len: int, k: int, p: int) -> bool {
    reservation_begin(sizes, k) <= p < spec_chunk_end(reservation_begin(sizes, k), sizes[k] as int, len)
}

proof fn lemma_reservation_begin_grows(sizes: Seq<nat>, i: int, j: int)
    requires
        0 <= i < j <= sizes.len(),
    ensures
        reservation_begin(sizes, i) + sizes[i] <= reservation_begin(sizes, j),
    decreases j - i,
{
    if j > i + 1 {
        lemma_reservation_begin_grows(sizes, i, j - 1);
    }
}

/// Elements are handed out in order, each at most once: of two reservations, the later one
/// begins at or after the end of the chunk of the earlier one, and no position is handed out by both.
pub proof fn law_reservations_ordered_and_disjoint(sizes: Seq<nat>, len: int, i: int, j: int)
    requires
        0 <= i < j < sizes.len(),
    ensures
        spec_chunk_end(reservation_begin(sizes, i), sizes[i] as int, len) <= reservation_begin(sizes, j),
        forall|p: int| !(#[trigger] reservation_yields(sizes, len, i, p) && reservation_yields(sizes, len, j, p)),
{
    lemma_reservation_begin_grows(sizes, i, j);
}

/// Only positions of the source are handed out.
pub proof fn law_reservation_within_source(sizes: Seq<nat>, len: int, k: int, p: int)
    requires
        0 <= k < sizes.len(),
        reservation_yields(sizes, len, k, p),
    ensures
        0 <= p < len,
{
    lemma_reservation_begin_nonnegative(sizes, k);
}

proof fn lemma_reservation_begin_nonnegative(sizes: Seq<nat>, k: int)
    ensures
        0 <= reservation_begin(sizes, k),
    decreases k,
{
    if k > 0 {
        lemma_reservation_begin_nonnegative(sizes, k - 1);
    }
}

/// No element is skipped: once the reservations add up to at least `p + 1`, the element at each
/// position `p` of the source has been handed out by one of them.
pub proof fn law_reservations_cover(sizes: Seq<nat>, len: int, p: int)
    requires
        0 <= p < len,
        p < reservation_begin(sizes, sizes.len() as int),
    ensures
        exists|k: int| 0 <= k < sizes.len() && #[trigger] reservation_yields(sizes, len, k, p),
    decreases sizes.len(),
{
    let n = sizes.len() as int;
    let last = n - 1;
    let prefix = sizes.subrange(0, last);
    assert forall|k: int| 0 <= k <= last implies reservation_begin(prefix, k) == reservation_begin(sizes, k) by {
        lemma_reservation_begin_prefix(sizes, last, k);
    }
    if p < reservation_begin(sizes, last) {
        law_reservations_cover(prefix, len, p);
        let k = choose|k: int| 0 <= k < prefix.len() && #[trigger] reservation_yields(prefix, len, k, p);
        assert(reservation_yields(sizes, len, k, p));
    } else {
        assert(reservation_yields(sizes, len, last, p));
    }
}

proof fn lemma_reservation_begin_prefix(sizes: Seq<nat>, m: int, k: int)
    requires
        0 <= k <= m <= sizes.len(),
    ensures
        reservation_begin(sizes.subrange(0, m), k) == reservation_begin(sizes, k),
    decreases k,
{
    if k > 0 {
        lemma_reservation_begin_prefix(sizes, m, k - 1);
    }
}

/// Once the counter stands at or past the end of the source (as `skip_to_end` leaves it), every
/// reservation comes back empty.
pub proof fn law_nothing_past_the_end(begin_idx: int, chunk_size: int, len: int)
    requires
        begin_idx >= len,
    ensures
        spec_chunk_end(begin_idx, chunk_size, len) == begin_idx,
{
}

/// The elements taken and the elements remaining make up the source.
pub proof fn law_taken_and_remaining(current: int, len: int)
    requires
        0 <= current,
        0 <= len,
    ensures
        0 <= spec_num_taken(current, len) <= len,
        spec_num_taken(current, len) + spec_remaining_len(current, len) == len,
{
}

/// Pulling a chunk is pulling one element at a time, without other threads in between: a
/// reservation of `chunk_size` positions at `begin_idx` hands out exactly the positions `p`
/// among `begin_idx .. begin_idx + chunk_size` at which a reservation of one position would
/// hand out an element.
pub proof fn law_chunk_is_consecutive_single_pulls(begin_idx: int, chunk_size: int, len: int, p: int)
    requires
        0 <= begin_idx,
        0 <= chunk_size,
    ensures
        (begin_idx <= p < spec_chunk_end(begin_idx, chunk_size, len)) <==> (begin_idx <= p < begin_idx + chunk_size
            && spec_chunk_end(p, 1, len) == p + 1),
{
}

/// Computes the exclusive end of the chunk of at most `chunk_size` positions that begins at
/// `begin_idx` of a source with `len` elements.
pub fn chunk_end(begin_idx: usize, chunk_size: usize, len: usize) -> (r: usize)
    ensures
        r == spec_chunk_end(begin_idx as int, chunk_size as int, len as int),
        begin_idx <= r,
        begin_idx < len ==> r <= len,
{
    if begin_idx < len {
        if chunk_size < len - begin_idx {
            begin_idx + chunk_size
        } else {
            len
        }
    } else {
        begin_idx
    }
}

/// Returns the reserved beginning position when it lies within a source of `len` elements.
pub fn begin_idx_in_range(begin_idx: usize, len: usize) -> (r: Option<usize>)
    ensures
        r == (if begin_idx < len { Some(begin_idx) } else { None::<usize> }),
{
    if begin_idx < len {
        Some(begin_idx)
    } else {
        None
    }
}

/// Number of positions handed out by a counter at `current` over a source of `len` elements.
pub fn num_taken(current: usize, len: usize) -> (r: usize)
    ensures
        r == spec_num_taken(current as int, len as int),
{
    if current < len {
        current
    } else {
        len
    }
}

/// Number of positions still to be handed out by a counter at `current` over a source of `len` elements.
pub fn remaining_len(current: usize, len: usize) -> (r: usize)
    ensures
        r == spec_remaining_len(current as int, len as int),
{
    if current < len {
        len - current
    } else {
        0
    }
}

} // verus!
