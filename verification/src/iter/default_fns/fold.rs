use vstd::prelude::*;
use crate::iter::con_iter::ConcurrentIter;

verus! {

/// Holds when `accs` are the results of folding `f`, from `neutral`, over `items`, each of
/// which is an element of the source of `iter`.
pub open spec fn is_fold_of<I: ConcurrentIter, B, F: FnMut(B, I::Item) -> B>(
    iter: &I,
    f: F,
    neutral: B,
    items: Seq<I::Item>,
    accs: Seq<B>,
) -> bool {
    &&& accs.len() == items.len() + 1
    &&& accs[0] == neutral
    &&& forall|k: int| 0 <= k < items.len() ==> call_ensures(f, (accs[k], items[k]), #[trigger] accs[k + 1])
    &&& forall|k: int| 0 <= k < items.len() ==> is_item_of(iter, #[trigger] items[k])
}

/// Holds when `item` is the element at some position of the source of `iter`.
pub open spec fn is_item_of<I: ConcurrentIter>(iter: &I, item: I::Item) -> bool {
    exists|i: int| #[trigger] iter.is_item_at(i, item)
}

/// Holds when `accs` are the results of folding `f`, from `init`, over `values`: `accs[0]` is
/// `init` and each next result is what `f` returns for the previous one and the next value.
pub open spec fn is_fold_over<T, B, F: FnMut(B, T) -> B>(f: F, init: B, values: Seq<T>, accs: Seq<B>) -> bool {
    &&& accs.len() == values.len() + 1
    &&& accs[0] == init
    &&& forall|k: int| 0 <= k < values.len() ==> call_ensures(f, (accs[k], values[k]), #[trigger] accs[k + 1])
}

/// Folds `f`, from `init`, over the values of one pulled chunk, in order; gives the closure back.
pub fn fold_values<T, B, F: FnMut(B, T) -> B>(f: F, init: B, values: Vec<T>) -> (r: (B, F))
    requires
        forall|b: B, x: T| call_requires(f, (b, x)),
    ensures
        r.1 == f,
        exists|accs: Seq<B>| #[trigger] is_fold_over(f, init, values@, accs) && accs.last() == r.0,
{
    let mut g = f;
    let mut acc = init;
    let ghost vals = values@;
    let ghost mut accs: Seq<B> = seq![init];
    for value in it: values
        invariant
            it.seq() == vals,
            g == f,
            forall|b: B, x: T| call_requires(g, (b, x)),
            accs.len() == it.index() + 1,
            accs[0] == init,
            accs.last() == acc,
            forall|k: int| 0 <= k < it.index() ==> call_ensures(f, (accs[k], vals[k]), #[trigger] accs[k + 1]),
    {
        assert(value == vals[it.index() as int]);
        acc = g(acc, value);
        proof {
            accs = accs.push(acc);
        }
    }
    assert(is_fold_over(f, init, vals, accs));
    (acc, g)
}

/// Folding one chunk after another is folding their concatenation: if `accs_a` folds `f` from
/// `init` over `a`, and `accs_b` folds `f` from where that ended over `b`, then together they fold
/// `f` from `init` over `a + b`, ending where the second fold ended.
pub proof fn law_fold_over_concatenation<T, B, F: FnMut(B, T) -> B>(
    f: F,
    init: B,
    a: Seq<T>,
    accs_a: Seq<B>,
    b: Seq<T>,
    accs_b: Seq<B>,
)
    requires
        is_fold_over(f, init, a, accs_a),
        is_fold_over(f, accs_a.last(), b, accs_b),
    ensures
        is_fold_over(f, init, a + b, accs_a + accs_b.drop_first()),
        (accs_a + accs_b.drop_first()).last() == accs_b.last(),
{
    let items = a + b;
    let accs = accs_a + accs_b.drop_first();
    let n = a.len() as int;
    assert forall|k: int| 0 <= k < items.len() implies call_ensures(f, (accs[k], items[k]), #[trigger] accs[k + 1]) by {
        if k < n {
            assert(accs[k] == accs_a[k]);
            assert(items[k] == a[k]);
            if k + 1 < accs_a.len() {
                assert(accs[k + 1] == accs_a[k + 1]);
            }
        } else {
            let j = k - n;
            assert(items[k] == b[j]);
            assert(accs[k + 1] == accs_b[j + 1]);
            if j == 0 {
                assert(accs[k] == accs_a.last());
            } else {
                assert(accs[k] == accs_b[j]);
            }
        }
    }
}

proof fn lemma_fold_extend<I: ConcurrentIter, B, F: FnMut(B, I::Item) -> B>(
    iter: &I,
    f: F,
    neutral: B,
    items: Seq<I::Item>,
    accs: Seq<B>,
    vals: Seq<I::Item>,
    chunk_accs: Seq<B>,
)
    requires
        is_fold_of(iter, f, neutral, items, accs),
        is_fold_over(f, accs.last(), vals, chunk_accs),
        forall|j: int| 0 <= j < vals.len() ==> is_item_of(iter, #[trigger] vals[j]),
    ensures
        is_fold_of(iter, f, neutral, items + vals, accs + chunk_accs.drop_first()),
        (accs + chunk_accs.drop_first()).last() == chunk_accs.last(),
{
    let all_items = items + vals;
    let all_accs = accs + chunk_accs.drop_first();
    let n = items.len() as int;
    assert forall|k: int| 0 <= k < all_items.len() implies call_ensures(f, (all_accs[k], all_items[k]), #[trigger] all_accs[k + 1]) by {
        if k < n {
            assert(all_accs[k] == accs[k]);
            assert(all_items[k] == items[k]);
            if k + 1 < accs.len() {
                assert(all_accs[k + 1] == accs[k + 1]);
            }
        } else {
            let j = k - n;
            assert(all_items[k] == vals[j]);
            assert(all_accs[k + 1] == chunk_accs[j + 1]);
            if j == 0 {
                assert(all_accs[k] == accs.last());
            } else {
                assert(all_accs[k] == chunk_accs[j]);
            }
        }
    }
    assert forall|k: int| 0 <= k < all_items.len() implies is_item_of(iter, #[trigger] all_items[k]) by {
        if k < n {
            assert(all_items[k] == items[k]);
        } else {
            assert(all_items[k] == vals[k - n]);
        }
    }
}

/// Folds `fold_fn` over the elements that this thread pulls from `iter`, pulling one element at a
/// time when `chunk_size` is one and chunks of `chunk_size` elements otherwise.
///
/// Gives up after `usize::MAX` pulls, a number of elements no source in memory reaches.
pub fn fold<I: ConcurrentIter, B, F: FnMut(B, I::Item) -> B>(iter: &I, chunk_size: usize, fold_fn: F, neutral: B) -> (r: B)
    requires
        chunk_size > 0,
        forall|b: B, x: I::Item| call_requires(fold_fn, (b, x)),
    ensures
        exists|items: Seq<I::Item>, accs: Seq<B>| is_fold_of(iter, fold_fn, neutral, items, accs) && accs.last() == r,
{
    let mut f = fold_fn;
    let mut result = neutral;
    let ghost mut items: Seq<I::Item> = Seq::empty();
    let ghost mut accs: Seq<B> = seq![neutral];
    let mut budget: usize = usize::MAX;
    if chunk_size == 1 {
        while budget > 0
            invariant
                f == fold_fn,
                forall|b: B, x: I::Item| call_requires(f, (b, x)),
                is_fold_of(iter, fold_fn, neutral, items, accs),
                accs.last() == result,
            decreases budget,
        {
            budget -= 1;
            match iter.next() {
                Some(value) => {
                    let ghost prev = result;
                    result = f(result, value);
                    proof {
                        items = items.push(value);
                        accs = accs.push(result);
                        assert(is_item_of(iter, items[items.len() - 1]));
                    }
                },
                None => {
                    break;
                },
            }
        }
    } else {
        while budget > 0
            invariant
                f == fold_fn,
                forall|b: B, x: I::Item| call_requires(f, (b, x)),
                is_fold_of(iter, fold_fn, neutral, items, accs),
                accs.last() == result,
            decreases budget,
        {
            budget -= 1;
            match iter.next_chunk(chunk_size) {
                Some(chunk) => {
                    let ghost vals = chunk.values@;
                    let ghost b = chunk.begin_idx as int;
                    assert forall|j: int| 0 <= j < vals.len() implies is_item_of(iter, #[trigger] vals[j]) by {
                        assert(iter.is_item_at(b + j, vals[j]));
                    }
                    let ghost prev = result;
                    let (folded, g) = fold_values(f, result, chunk.values);
                    f = g;
                    result = folded;
                    proof {
                        let chunk_accs = choose|ca: Seq<B>| #[trigger] is_fold_over(fold_fn, prev, vals, ca) && ca.last() == result;
                        lemma_fold_extend(iter, fold_fn, neutral, items, accs, vals, chunk_accs);
                        items = items + vals;
                        accs = accs + chunk_accs.drop_first();
                    }
                },
                None => {
                    break;
                },
            }
        }
    }
    result
}

/// Folds `fold_fn` over the elements that this thread pulls from `iter`, pulling one element at a
/// time when `chunk_size` is one and chunks of `chunk_size` elements, without their positions, otherwise.
///
/// Gives up after `usize::MAX` pulls, a number of elements no source in memory reaches.
pub fn fold_x<I: ConcurrentIter, B, F: FnMut(B, I::Item) -> B>(iter: &I, chunk_size: usize, fold_fn: F, neutral: B) -> (r: B)
    requires
        chunk_size > 0,
        forall|b: B, x: I::Item| call_requires(fold_fn, (b, x)),
    ensures
        exists|items: Seq<I::Item>, accs: Seq<B>| is_fold_of(iter, fold_fn, neutral, items, accs) && accs.last() == r,
{
    let mut f = fold_fn;
    let mut result = neutral;
    let ghost mut items: Seq<I::Item> = Seq::empty();
    let ghost mut accs: Seq<B> = seq![neutral];
    let mut budget: usize = usize::MAX;
    if chunk_size == 1 {
        while budget > 0
            invariant
                f == fold_fn,
                forall|b: B, x: I::Item| call_requires(f, (b, x)),
                is_fold_of(iter, fold_fn, neutral, items, accs),
                accs.last() == result,
            decreases budget,
        {
            budget -= 1;
            match iter.next() {
                Some(value) => {
                    let ghost prev = result;
                    result = f(result, value);
                    proof {
                        items = items.push(value);
                        accs = accs.push(result);
                        assert(is_item_of(iter, items[items.len() - 1]));
                    }
                },
                None => {
                    break;
                },
            }
        }
    } else {
        while budget > 0
            invariant
                f == fold_fn,
                forall|b: B, x: I::Item| call_requires(f, (b, x)),
                is_fold_of(iter, fold_fn, neutral, items, accs),
                accs.last() == result,
            decreases budget,
        {
            budget -= 1;
            match iter.next_chunk_x(chunk_size) {
                Some(chunk) => {
                    let ghost vals = chunk@;
                    let ghost b = choose|b: int| #![trigger iter.is_item_at(b, vals[0])]
                        forall|j: int| 0 <= j < vals.len() ==> iter.is_item_at(b + j, #[trigger] vals[j]);
                    assert forall|j: int| 0 <= j < vals.len() implies is_item_of(iter, #[trigger] vals[j]) by {
                        assert(iter.is_item_at(b + j, vals[j]));
                    }
                    let ghost prev = result;
                    let (folded, g) = fold_values(f, result, chunk);
                    f = g;
                    result = folded;
                    proof {
                        let chunk_accs = choose|ca: Seq<B>| #[trigger] is_fold_over(fold_fn, prev, vals, ca) && ca.last() == result;
                        lemma_fold_extend(iter, fold_fn, neutral, items, accs, vals, chunk_accs);
                        items = items + vals;
                        accs = accs + chunk_accs.drop_first();
                    }
                },
                None => {
                    break;
                },
            }
        }
    }
    result
}

} // verus!
