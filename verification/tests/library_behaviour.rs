use orx_concurrent_iter::AtomicIter;
use orx_concurrent_iter::iter::default_fns::fold::{fold, fold_x};
use orx_concurrent_iter::iter::default_fns::for_each::{for_each, for_each_with_ids};
use orx_concurrent_iter::iter::implementors::debug_helper::{debug_fields, fmt_iter, IterDebugFields};
use orx_concurrent_iter::iter::implementors::shared_iter::exact_len_from_size_hint;
use orx_concurrent_iter::iter::progress::{begin_idx_in_range, chunk_end, num_taken, remaining_len};
use orx_concurrent_iter::{
    empty, AtomicCounter, ClonedConIterOfSlice, ConIterOfArray, ConIterOfIter, ConIterOfIterX,
    ConIterOfRange, ConIterOfSlice, ConIterOfVec, ConIterPullers, ConIterVecDequeRef,
    ConIterVecDrain, ConcurrentIter, ConcurrentIterable, ExactSizeConcurrentIter,
    IntoConcurrentIter, IntoCopied, IntoExactSizeConcurrentIter, IterIntoConcurrentIter,
    NoLeakIter, VecDequeSlicesIndexer,
};
use std::collections::VecDeque;

fn drain_all<C: ConcurrentIter>(iter: &C) -> Vec<C::Item> {
    let mut out = Vec::new();
    while let Some(x) = iter.next() {
        out.push(x);
    }
    out
}

#[test]
fn chunk_end_values() {
    assert_eq!(chunk_end(0, 3, 8), 3);
    assert_eq!(chunk_end(6, 3, 8), 8);
    assert_eq!(chunk_end(8, 3, 8), 8);
    assert_eq!(chunk_end(10, 3, 8), 10);
}

#[test]
fn begin_idx_in_range_values() {
    assert_eq!(begin_idx_in_range(7, 8), Some(7));
    assert_eq!(begin_idx_in_range(8, 8), None);
}

#[test]
fn taken_and_remaining_make_up_the_source() {
    for current in 0..12 {
        assert_eq!(num_taken(current, 8) + remaining_len(current, 8), 8);
    }
    assert_eq!(num_taken(3, 8), 3);
    assert_eq!(remaining_len(3, 8), 5);
    assert_eq!(num_taken(11, 8), 8);
    assert_eq!(remaining_len(11, 8), 0);
}

#[test]
fn chunks_are_ordered_disjoint_and_cover_the_source() {
    let data: Vec<usize> = (0..8).collect();
    let iter = ConIterOfSlice::new(&data);
    let mut positions = Vec::new();
    let mut prev_end = 0;
    while let Some(chunk) = iter.next_chunk(3) {
        assert_eq!(chunk.begin_idx, prev_end);
        assert!(!chunk.values.is_empty() && chunk.values.len() <= 3);
        for (j, v) in chunk.values.iter().enumerate() {
            assert_eq!(**v, chunk.begin_idx + j);
            positions.push(chunk.begin_idx + j);
        }
        prev_end = chunk.begin_idx + chunk.values.len();
    }
    assert_eq!(positions, data);
    assert!(iter.next().is_none());
}

#[test]
fn skip_to_end_stops_all_pulls() {
    let data: Vec<i32> = (0..10).collect();
    let iter = data.con_iter();
    assert_eq!(iter.next(), Some(&0));
    iter.skip_to_end();
    assert_eq!(iter.next(), None);
    assert!(iter.next_chunk(4).is_none());
    assert_eq!(iter.try_get_len(), Some(0));
}

#[test]
fn try_get_len_counts_down() {
    let data: Vec<i32> = (0..5).collect();
    let iter = ConIterOfVec::new(data);
    assert_eq!(iter.try_get_initial_len(), Some(5));
    assert_eq!(iter.try_get_len(), Some(5));
    assert_eq!(iter.next(), Some(0));
    assert_eq!(iter.len(), 4);
    let chunk = iter.next_chunk(10).unwrap();
    assert_eq!(chunk.begin_idx, 1);
    assert_eq!(chunk.values, vec![1, 2, 3, 4]);
    assert_eq!(iter.try_get_len(), Some(0));
    assert_eq!(iter.next(), None);
}

#[test]
fn vec_into_seq_iter_yields_the_rest() {
    let iter = ConIterOfVec::new((0..6).map(|i| i.to_string()).collect());
    assert_eq!(iter.next(), Some("0".to_string()));
    assert_eq!(iter.next_id_and_value().map(|n| (n.idx, n.value)), Some((1, "1".to_string())));
    let rest: Vec<String> = iter.into_seq_iter().collect();
    assert_eq!(rest, vec!["2", "3", "4", "5"]);
}

#[test]
fn debug_fields_values() {
    assert_eq!(
        debug_fields(Some(10), 3),
        IterDebugFields { initial_len: Some(10), taken: 3, remaining: Some(7) }
    );
    assert_eq!(
        debug_fields(Some(10), 15),
        IterDebugFields { initial_len: Some(10), taken: 10, remaining: Some(0) }
    );
    assert_eq!(debug_fields(None, 5), IterDebugFields { initial_len: None, taken: 5, remaining: None });
}

#[test]
fn fmt_iter_reads_the_counter() {
    let counter = AtomicCounter::new();
    counter.fetch_and_add(4);
    let fields = fmt_iter(Some(3), &counter);
    assert_eq!(fields, IterDebugFields { initial_len: Some(3), taken: 3, remaining: Some(0) });
    let fields = fmt_iter(None, &counter);
    assert_eq!(fields, IterDebugFields { initial_len: None, taken: 4, remaining: None });
}

#[test]
fn atomic_counter_operations() {
    let counter = AtomicCounter::new();
    assert_eq!(counter.fetch_and_increment(), 0);
    assert_eq!(counter.fetch_and_add(5), 1);
    assert_eq!(counter.current(), 6);
    assert_eq!(counter.get_current_max_value(3), 6);
    assert_eq!(counter.get_current_max_value(9), 6);
    assert_eq!(counter.current(), 9);
    let copy = counter.clone();
    counter.store(1);
    assert_eq!(copy.current(), 9);
    assert_eq!(counter.current(), 1);
    assert_eq!(AtomicCounter::default().current(), 0);
}

#[test]
fn empty_yields_nothing() {
    let iter = empty::<String>();
    assert_eq!(iter.next(), None);
    assert!(iter.next_chunk(3).is_none());
    assert_eq!(iter.try_get_len(), Some(0));
    assert_eq!(iter.try_get_initial_len(), Some(0));
    assert_eq!(iter.into_seq_iter().count(), 0);
}

#[test]
fn no_leak_iter_next_and_exhaust() {
    let mut iter = NoLeakIter::from(vec![1, 2, 3].into_iter());
    assert_eq!(iter.next(), Some(1));
    iter.exhaust();
    assert_eq!(iter.next(), None);
}

#[test]
fn range_yields_its_integers() {
    let iter = (3..7).into_con_iter();
    assert_eq!(iter.try_get_initial_len(), Some(4));
    assert_eq!(drain_all(&iter), vec![3, 4, 5, 6]);
    let iter = ConIterOfRange::new(5..2);
    assert_eq!(iter.try_get_initial_len(), Some(0));
    assert_eq!(iter.next(), None);
    assert_eq!((10..15).exact_len(), 5);
    let exact = (10..15).into_exact_con_iter();
    assert_eq!(exact.len(), 5);
}

#[test]
fn range_chunks() {
    let iter = ConIterOfRange::new(10..15);
    let chunk = iter.next_chunk(3).unwrap();
    assert_eq!((chunk.begin_idx, chunk.values), (0, vec![10, 11, 12]));
    let chunk = iter.next_chunk(3).unwrap();
    assert_eq!((chunk.begin_idx, chunk.values), (3, vec![13, 14]));
    assert!(iter.next_chunk(3).is_none());
}

#[test]
fn array_yields_its_elements_in_order() {
    let iter = ConIterOfArray::new([10, 20, 30]);
    assert_eq!(iter.next(), Some(10));
    let chunk = iter.next_chunk(5).unwrap();
    assert_eq!((chunk.begin_idx, chunk.values), (1, vec![20, 30]));
    assert_eq!(iter.next(), None);
    let iter = [7, 8, 9].into_con_iter();
    assert_eq!(iter.next(), Some(7));
    let rest: Vec<i32> = iter.into_seq_iter().collect();
    assert_eq!(rest, vec![8, 9]);
}

#[test]
fn vec_deque_ref_yields_in_deque_order() {
    let mut deque: VecDeque<i32> = VecDeque::with_capacity(4);
    deque.push_back(3);
    deque.push_back(4);
    deque.push_front(2);
    deque.push_front(1);
    let (first, second) = deque.as_slices();
    assert!(!first.is_empty() || !second.is_empty());
    let iter = ConIterVecDequeRef::new(&deque);
    assert_eq!(iter.try_get_initial_len(), Some(4));
    assert_eq!(iter.next(), Some(&1));
    let chunk = iter.next_chunk(2).unwrap();
    assert_eq!(chunk.begin_idx, 1);
    assert_eq!(chunk.values, vec![&2, &3]);
    assert_eq!(iter.next(), Some(&4));
    assert_eq!(iter.next(), None);
    let iter = deque.con_iter();
    let all: Vec<&i32> = drain_all(&iter);
    assert_eq!(all, vec![&1, &2, &3, &4]);
}

#[test]
fn vec_deque_into_con_iter_yields_in_deque_order() {
    let mut deque: VecDeque<i32> = VecDeque::new();
    deque.push_back(5);
    deque.push_front(4);
    deque.push_front(3);
    let iter = deque.into_con_iter();
    assert_eq!(drain_all(&iter), vec![3, 4, 5]);
}

#[test]
fn jagged_index_of_deque_slices() {
    let indexer = VecDequeSlicesIndexer::pseudo_default();
    let first = [1, 2, 3];
    let j = indexer.jagged_index_unchecked(&first, 1);
    assert_eq!((j.f, j.i), (0, 1));
    let j = indexer.jagged_index_unchecked(&first, 4);
    assert_eq!((j.f, j.i), (1, 1));
    let second = [4, 5];
    let arrays: [&[i32]; 2] = [&first, &second];
    let j = indexer.jagged_index_unchecked_from_slice(&arrays, 3);
    assert_eq!((j.f, j.i), (1, 0));
}

#[test]
fn iter_reports_exact_length_from_size_hint() {
    let iter = vec![1, 2, 3].into_iter().iter_into_con_iter();
    assert_eq!(iter.try_get_initial_len(), Some(3));
    let iter = ConIterOfIter::new((0..10).filter(|x| x % 2 == 0));
    assert_eq!(iter.try_get_initial_len(), None);
    assert_eq!(exact_len_from_size_hint(3, Some(3)), Some(3));
    assert_eq!(exact_len_from_size_hint(0, Some(3)), None);
    assert_eq!(exact_len_from_size_hint(3, None), None);
}

#[test]
fn iter_yields_in_order_with_positions() {
    let iter = ConIterOfIter::new((0..10).filter(|x| x % 2 == 0));
    let n = iter.next_id_and_value().unwrap();
    assert_eq!((n.idx, n.value), (0, 0));
    let chunk = iter.next_chunk(3).unwrap();
    assert_eq!((chunk.begin_idx, chunk.values), (1, vec![2, 4, 6]));
    let chunk = iter.next_chunk(3).unwrap();
    assert_eq!((chunk.begin_idx, chunk.values), (4, vec![8]));
    assert!(iter.next_chunk(3).is_none());
    assert_eq!(iter.next(), None);
    assert_eq!(iter.try_get_len(), Some(0));
}

#[test]
fn iter_x_yields_in_order() {
    let iter = ConIterOfIterX::new(vec!['a', 'b', 'c', 'd'].into_iter());
    assert_eq!(iter.next(), Some('a'));
    let chunk = iter.next_chunk(2).unwrap();
    assert_eq!(chunk.values, vec!['b', 'c']);
    assert_eq!(iter.next(), Some('d'));
    assert_eq!(iter.next(), None);
}

#[test]
fn iter_skip_to_end() {
    let iter = ConIterOfIter::new(1..100);
    assert_eq!(iter.next(), Some(1));
    iter.skip_to_end();
    assert_eq!(iter.next(), None);
}

#[test]
fn cloned_slice_clones_in_order() {
    let data = vec!["x".to_string(), "y".to_string(), "z".to_string()];
    let iter = ClonedConIterOfSlice::new(&data);
    assert_eq!(iter.next(), Some("x".to_string()));
    let chunk = iter.next_chunk(5).unwrap();
    assert_eq!((chunk.begin_idx, chunk.values), (1, vec!["y".to_string(), "z".to_string()]));
    assert_eq!(iter.next(), None);
}

#[test]
fn copied_slice_values() {
    let data = vec![4, 5, 6];
    let iter = data.con_iter().copied();
    let mut puller = iter.chunk_puller(2);
    assert_eq!(puller.pull(), Some(vec![4, 5]));
    assert_eq!(puller.pull(), Some(vec![6]));
    assert_eq!(puller.pull(), None);
}

#[test]
fn drain_range_keeps_the_rest() {
    let mut vec: Vec<i32> = (0..6).collect();
    {
        let iter = ConIterVecDrain::new(&mut vec, 1..4);
        assert_eq!(iter.try_get_initial_len(), Some(3));
        let n = iter.next_id_and_value().unwrap();
        assert_eq!((n.idx, n.value), (1, 1));
        assert_eq!(iter.next(), Some(2));
        assert_eq!(iter.len(), 1);
    }
    assert_eq!(vec, vec![0, 4, 5]);
}

#[test]
fn drain_into_seq_iter() {
    let mut vec: Vec<i32> = (0..5).collect();
    let iter = ConIterVecDrain::new(&mut vec, ..);
    assert_eq!(iter.next(), Some(0));
    let rest: Vec<i32> = iter.into_seq_iter().collect();
    assert_eq!(rest, vec![1, 2, 3, 4]);
    assert!(vec.is_empty());
}

#[test]
fn fold_sums_all_elements() {
    let iter = (0..101).into_con_iter();
    assert_eq!(fold(&iter, 1, |a: usize, b: usize| a + b, 0), 5050);
    let iter = (0..101).into_con_iter();
    assert_eq!(fold(&iter, 7, |a: usize, b: usize| a + b, 0), 5050);
    let iter = (0..101).into_con_iter();
    assert_eq!(fold_x(&iter, 16, |a: usize, b: usize| a + b, 0), 5050);
}

#[test]
fn for_each_visits_each_element_once() {
    let data: Vec<usize> = (0..20).collect();
    let iter = data.con_iter();
    let mut seen = Vec::new();
    for_each(&iter, 3, |x: &usize| seen.push(*x));
    assert_eq!(seen, data);

    let iter = data.con_iter();
    let mut pairs = Vec::new();
    for_each_with_ids(&iter, 1, |i: usize, x: &usize| pairs.push((i, *x)));
    assert_eq!(pairs, data.iter().map(|x| (*x, *x)).collect::<Vec<_>>());
}

#[test]
fn buffered_slice_chunks() {
    let data: Vec<i32> = (0..5).collect();
    let iter = ConIterOfSlice::new(&data);
    let mut buffered = iter.buffered_iter(2);
    let c = buffered.next().unwrap();
    assert_eq!((c.begin_idx, c.values), (0, vec![&0, &1]));
    let c = buffered.next().unwrap();
    assert_eq!((c.begin_idx, c.values), (2, vec![&2, &3]));
    let c = buffered.next().unwrap();
    assert_eq!((c.begin_idx, c.values), (4, vec![&4]));
    assert!(buffered.next().is_none());
}

#[test]
fn buffered_iter_chunks() {
    let iter = ConIterOfIter::new(vec![1, 2, 3].into_iter());
    let mut buffered = iter.buffered_iter(2);
    let c = buffered.next().unwrap();
    assert_eq!((c.begin_idx, c.values), (0, vec![1, 2]));
    let c = buffered.next().unwrap();
    assert_eq!((c.begin_idx, c.values), (2, vec![3]));
    assert!(buffered.next().is_none());
}

#[test]
fn slice_like_into_seq_iter_yields_the_suffix() {
    let data = vec![1, 2, 3, 4];
    let iter = ConIterOfSlice::new(&data);
    assert_eq!(iter.next(), Some(&1));
    let rest: Vec<&i32> = iter.into_seq_iter().collect();
    assert_eq!(rest, vec![&2, &3, &4]);

    let iter = ClonedConIterOfSlice::new(&data);
    let _ = iter.next_chunk(3);
    let rest: Vec<i32> = iter.into_seq_iter().collect();
    assert_eq!(rest, vec![4]);

    let deque: VecDeque<i32> = data.iter().copied().collect();
    let iter = ConIterVecDequeRef::new(&deque);
    let _ = iter.next();
    let _ = iter.next();
    let rest: Vec<&i32> = iter.into_seq_iter().collect();
    assert_eq!(rest, vec![&3, &4]);
}

#[test]
fn counter_accessor_reads_the_iterators_counter() {
    let data = vec![1, 2, 3];
    let iter = ConIterOfSlice::new(&data);
    let _ = iter.next_chunk(2);
    assert_eq!(iter.counter().current(), 2);
}

#[test]
fn range_into_seq_iter_starts_after_the_pulled_values() {
    let iter = ConIterOfRange::new(0..1024);
    for _ in 0..42 {
        let _ = iter.next();
    }
    {
        let mut buffered = iter.buffered_iter(32);
        assert!(buffered.next().is_some());
    }
    let s = iter.into_seq_iter();
    assert_eq!(s, 74..1024);
    assert_eq!(ConIterOfRange::new(3..9).seq_iter_from(4), 7..9);
    assert_eq!(ConIterOfRange::new(3..9).seq_iter_from(100), 103..9);
}

#[test]
fn slice_seq_iter_from_a_counter_value() {
    let data = vec![5, 6, 7];
    let iter = ConIterOfSlice::new(&data);
    let rest: Vec<&i32> = iter.seq_iter_from(1).collect();
    assert_eq!(rest, vec![&6, &7]);
    assert_eq!(iter.seq_iter_from(9).count(), 0);
}

#[test]
fn drain_inclusive_range() {
    let mut v = vec![0, 1, 2, 3, 4];
    {
        let c = ConIterVecDrain::new(&mut v, 1..=3);
        assert_eq!(c.len(), 3);
        assert_eq!(c.next(), Some(1));
        assert_eq!(c.next(), Some(2));
        assert_eq!(c.next(), Some(3));
        assert_eq!(c.next(), None);
    }
    assert_eq!(v, vec![0, 4]);
}

#[test]
fn iter_begin_idx_pulls_nothing() {
    let iter = ConIterOfIter::new(vec![1, 2, 3].into_iter());
    assert_eq!(iter.progress_and_get_begin_idx(0), None);
    assert_eq!(iter.progress_and_get_begin_idx(2), Some(0));
    assert_eq!(iter.next(), Some(1));
    assert_eq!(iter.progress_and_get_begin_idx(2), Some(1));
    assert_eq!(iter.next(), Some(2));
}

#[test]
fn fold_values_folds_a_chunk_in_order() {
    let (r, _) = orx_concurrent_iter::iter::default_fns::fold::fold_values(
        |acc: Vec<i32>, x: i32| {
            let mut acc = acc;
            acc.push(x);
            acc
        },
        vec![0],
        vec![1, 2, 3],
    );
    assert_eq!(r, vec![0, 1, 2, 3]);
}


#[test]
fn vec_into_seq_iter_after_nexts_yields_the_rest_in_order() {
    let mut v = Vec::with_capacity(64);
    v.extend((0..42).map(|i: usize| i.to_string()));
    let c = ConIterOfVec::new(v);
    for i in 0..11 {
        assert_eq!(c.next(), Some(i.to_string()));
    }
    let rest: Vec<String> = c.into_seq_iter().collect();
    assert_eq!(rest, (11..42).map(|i: usize| i.to_string()).collect::<Vec<_>>());
}

#[test]
fn vec_reserve_then_get_moves_each_element_once() {
    let c = ConIterOfVec::new(vec![10, 20, 30]);
    assert_eq!(c.progress_and_get_begin_idx(0), None);
    assert_eq!(c.progress_and_get_begin_idx(2), Some(0));
    assert_eq!(c.get(2), None);
    assert_eq!(c.get(1), Some(20));
    assert_eq!(c.get(1), None);
    assert_eq!(c.get(0), Some(10));
    assert_eq!(c.num_taken(), 2);
    assert_eq!(c.next(), Some(30));
    assert_eq!(c.next(), None);
}

#[test]
fn iter_x_pulls_advance_the_reserved_counter() {
    let x = ConIterOfIterX::new(vec![1, 2, 3, 4, 5].into_iter());
    assert_eq!(x.next(), Some(1));
    let chunk = x.next_chunk(3).unwrap();
    assert_eq!(chunk.values, vec![2, 3, 4]);
    assert_eq!(x.counter().current(), 4);
}
