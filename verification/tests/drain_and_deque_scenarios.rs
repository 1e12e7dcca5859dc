use orx_concurrent_iter::{
    ConIterOfVec, ConIterPullers, ConIterVecDrain, ConcurrentCollection,
    ConcurrentDrainableOverSlice, ConcurrentIter, ConcurrentIterable, IntoConcurrentIter,
    IntoCloned, IntoCopied, IntoEnumerated,
};
use std::collections::VecDeque;

fn deque_into_con_iter<T: Send + Sync>(vec: VecDeque<T>) {
    let _con_iter = vec.into_con_iter();
}

fn deque_concurrent_iterable<T: Send + Sync>(vec: VecDeque<T>) {
    let vec_ref = &vec;
    let _con_iter = vec_ref.con_iter();
}

fn deque_concurrent_collection<T: Send + Sync>(vec: VecDeque<T>) {
    let _con_iter = vec.con_iter();
    let _con_iter = vec.as_concurrent_iterable();
}

#[test]
fn vec_con_iter_trait_bounds() {
    deque_into_con_iter(VecDeque::<String>::new());
    deque_concurrent_iterable(VecDeque::<String>::new());
    deque_concurrent_collection(VecDeque::<String>::new());
}

#[test]
fn con_iter_abc() {
    let n = 4;
    let range = ..;

    let mut vec: Vec<_> = (0..n).map(|x| x.to_string()).collect();

    {
        let iter = ConIterVecDrain::new(&mut vec, range);
        let bx = Box::new(iter);
        Box::leak(bx);
    }

    println!("{:?}", &vec);
}

fn con_drain<T: Send + Sync>(mut vec: Vec<T>) {
    let _con_iter = vec.con_drain(..);
}

#[test]
fn vec_drain_con_iter_trait_bounds() {
    con_drain(Vec::<String>::new());
}

#[test]
fn enumerate_item() {
    let mut vec: Vec<_> = (2..6).collect();
    let iter = vec.con_drain(..).enumerate();
    let mut j = 0;
    while let Some((i, x)) = iter.next() {
        assert_eq!((i, x), (j, (j + 2)));
        j += 1;
    }

    let mut vec: Vec<_> = (2..6).collect();
    let iter = vec.con_drain(..).enumerate();
    let mut j = 0;
    while let Some((i2, (i, x))) = iter.next_with_idx() {
        assert_eq!((i, x), (j, (j + 2)));
        assert_eq!(i, i2);
        j += 1;
    }
}

#[test]
fn enumerate_item_puller() {
    let mut vec: Vec<_> = (2..6).collect();
    let iter = vec.con_drain(..).enumerate();
    let mut puller = iter.item_puller();
    let collected: Vec<_> = std::iter::from_fn(|| puller.next()).collect();
    assert_eq!(collected, [0, 1, 2, 3].map(|x| (x, x + 2)));

    let mut vec: Vec<_> = (2..6).collect();
    let iter = vec.con_drain(..).enumerate();
    let mut puller = iter.item_puller_with_idx();
    let collected: Vec<_> = std::iter::from_fn(|| puller.next()).collect();
    assert_eq!(collected, [0, 1, 2, 3].map(|x| (x, (x, x + 2))));
}

#[test]
fn enumerate_chunk_puller() {
    let mut vec: Vec<_> = (2..6).collect();
    let iter = vec.con_drain(..).enumerate();

    let mut j = 0;

    let mut puller = iter.chunk_puller(2);
    while let Some(chunk) = puller.pull() {
        assert_eq!(chunk.len(), 2);
        for (i, x) in chunk {
            assert_eq!((i, x), (j, (j + 2)));
            j += 1;
        }
    }
}

#[test]
fn copied() {
    let source: Vec<_> = (2..6).collect();
    let mut vec: Vec<_> = source.iter().collect();
    let iter = vec.con_drain(..).copied();
    let mut puller = iter.item_puller();
    let values: Vec<_> = std::iter::from_fn(|| puller.next()).collect();
    assert_eq!(values, source);
}

#[test]
fn cloned() {
    let source: Vec<_> = (2..6).collect();
    let mut vec: Vec<_> = source.iter().collect();
    let iter = vec.con_drain(..).cloned();
    let mut puller = iter.item_puller();
    let values: Vec<_> = std::iter::from_fn(|| puller.next()).collect();
    assert_eq!(values, source);
}

fn vec_with_capacity(len: usize, cap: usize) -> Vec<String> {
    let mut vec = Vec::with_capacity(cap);
    vec.extend((0..len).map(|i| i.to_string()));
    vec
}

#[test]
fn drop_without_next() {
    let source = vec_with_capacity(42, 64);
    let _con_iter: ConIterOfVec<String> = source.into_con_iter();
}
