//! Stable ordering of items by an integer key.
use vstd::prelude::*;

verus! {

/// Item `a` comes before item `b`: a smaller key, or the same key and an
/// earlier place in the input.
pub open spec fn key_before(keys: Seq<i64>, a: int, b: int) -> bool {
    keys[a] < keys[b] || (keys[a] == keys[b] && a < b)
}

/// `order` lists each index of `keys` once, by ascending key, keeping the
/// input order among equal keys: what a stable sort by key yields.
pub open spec fn is_stable_order(keys: Seq<i64>, order: Seq<usize>) -> bool {
    &&& order.len() == keys.len()
    &&& forall|i: int| 0 <= i < order.len() ==> (#[trigger] order[i]) < keys.len()
    &&& forall|i: int, j: int|
        0 <= i < j < order.len() ==> key_before(keys, #[trigger] order[i] as int, #[trigger] order[j] as int)
}

/// Where a new item with key `key` goes into `order`: before the first
/// item with a larger key.
pub open spec fn insert_pos(keys: Seq<i64>, order: Seq<usize>, key: i64) -> int
    decreases order.len(),
{
    if order.len() == 0 {
        0
    } else if keys[order[0] as int] > key {
        0
    } else {
        1 + insert_pos(keys, order.skip(1), key)
    }
}

/// The stable ascending order of the indices of `keys`: each item is placed
/// after all earlier items whose keys are not larger.
pub open spec fn stable_sorted(keys: Seq<i64>) -> Seq<usize>
    decreases keys.len(),
{
    if keys.len() == 0 {
        Seq::empty()
    } else {
        let prev = stable_sorted(keys.drop_last());
        let p = insert_pos(keys, prev, keys.last());
        prev.take(p).push((keys.len() - 1) as usize) + prev.skip(p)
    }
}

proof fn lemma_insert_pos(keys: Seq<i64>, order: Seq<usize>, key: i64, p: int)
    requires
        0 <= p <= order.len(),
        forall|i: int| 0 <= i < order.len() ==> (#[trigger] order[i]) < keys.len(),
        forall|i: int| 0 <= i < p ==> keys[#[trigger] order[i] as int] <= key,
        p < order.len() ==> keys[order[p] as int] > key,
    ensures
        insert_pos(keys, order, key) == p,
    decreases order.len(),
{
    if order.len() > 0 && p > 0 {
        assert(keys[order[0] as int] <= key);
        assert forall|i: int| 0 <= i < p - 1 implies keys[#[trigger] order.skip(1)[i] as int] <= key by {
            assert(order.skip(1)[i] == order[i + 1]);
        }
        if p - 1 < order.len() - 1 {
            assert(order.skip(1)[p - 1] == order[p]);
        }
        lemma_insert_pos(keys, order.skip(1), key, p - 1);
    }
}

/// The indices of `keys` in stable ascending order of their keys.
pub fn stable_order(keys: &Vec<i64>) -> (order: Vec<usize>)
    ensures
        order@ == stable_sorted(keys@),
        is_stable_order(keys@, order@),
{
    let mut order: Vec<usize> = Vec::new();
    let mut k: usize = 0;
    assert(keys@.take(0) =~= Seq::<i64>::empty());
    while k < keys.len()
        invariant
            k <= keys@.len(),
            order@ == stable_sorted(keys@.take(k as int)),
            order@.len() == k,
            forall|i: int| 0 <= i < order@.len() ==> (#[trigger] order@[i]) < k,
            forall|i: int, j: int|
                0 <= i < j < order@.len() ==> key_before(keys@, #[trigger] order@[i] as int, #[trigger] order@[j] as int),
        decreases keys@.len() - k,
    {
        let key = keys[k];
        let mut p: usize = 0;
        while p < order.len() && keys[order[p]] <= key
            invariant
                p <= order@.len(),
                k < keys@.len(),
                key == keys@[k as int],
                forall|i: int| 0 <= i < order@.len() ==> (#[trigger] order@[i]) < k,
                forall|i: int| 0 <= i < p ==> keys@[#[trigger] order@[i] as int] <= key,
            decreases order@.len() - p,
        {
            p = p + 1;
        }
        let ghost before = order@;
        proof {
            let kk = keys@.take(k + 1);
            assert(kk.drop_last() =~= keys@.take(k as int));
            assert(kk.last() == key);
            assert forall|i: int| 0 <= i < before.len() implies (#[trigger] before[i]) < kk.len() by {}
            assert forall|i: int| 0 <= i < p implies kk[#[trigger] before[i] as int] <= key by {
                assert(kk[before[i] as int] == keys@[before[i] as int]);
            }
            if p < before.len() {
                assert(kk[before[p as int] as int] == keys@[before[p as int] as int]);
            }
            lemma_insert_pos(kk, before, key, p as int);
            assert forall|j: int| p <= j < before.len() implies keys@[#[trigger] before[j] as int] > key by {
                if p < before.len() && j > p {
                    assert(key_before(keys@, before[p as int] as int, before[j] as int));
                }
            }
        }
        order.insert(p, k);
        proof {
            assert(order@ =~= before.take(p as int).push(k).add(before.skip(p as int)));
            assert forall|i: int| 0 <= i < order@.len() implies (#[trigger] order@[i]) < k + 1 by {
                if i < p {
                    assert(order@[i] == before[i]);
                } else if i > p {
                    assert(order@[i] == before[i - 1]);
                }
            }
            assert forall|i: int, j: int|
                0 <= i < j < order@.len() implies key_before(keys@, #[trigger] order@[i] as int, #[trigger] order@[j] as int) by {
                if j < p {
                    assert(order@[i] == before[i] && order@[j] == before[j]);
                } else if j == p {
                    assert(order@[i] == before[i]);
                } else if i < p {
                    assert(order@[i] == before[i] && order@[j] == before[j - 1]);
                } else if i == p {
                    assert(order@[j] == before[j - 1]);
                } else {
                    assert(order@[i] == before[i - 1] && order@[j] == before[j - 1]);
                }
            }
        }
        k = k + 1;
    }
    assert(keys@.take(keys@.len() as int) =~= keys@);
    order
}

/// Each index of a stable order is distinct.
pub proof fn lemma_stable_order_distinct(keys: Seq<i64>, order: Seq<usize>)
    requires
        is_stable_order(keys, order),
    ensures
        forall|i: int, j: int| 0 <= i < order.len() && 0 <= j < order.len() && i != j ==> order[i] != order[j],
{
    assert forall|i: int, j: int| 0 <= i < order.len() && 0 <= j < order.len() && i != j implies order[i] != order[j] by {
        if i < j {
            assert(key_before(keys, order[i] as int, order[j] as int));
        } else {
            assert(key_before(keys, order[j] as int, order[i] as int));
        }
    }
}


proof fn lemma_insert_pos_bounds(keys: Seq<i64>, order: Seq<usize>, key: i64)
    requires
        forall|i: int| 0 <= i < order.len() ==> (#[trigger] order[i]) < keys.len(),
    ensures
        0 <= insert_pos(keys, order, key) <= order.len(),
        forall|i: int| 0 <= i < insert_pos(keys, order, key) ==> keys[#[trigger] order[i] as int] <= key,
        insert_pos(keys, order, key) < order.len() ==> keys[order[insert_pos(keys, order, key)] as int] > key,
    decreases order.len(),
{
    if order.len() > 0 && keys[order[0] as int] <= key {
        let rest = order.skip(1);
        assert forall|i: int| 0 <= i < rest.len() implies (#[trigger] rest[i]) < keys.len() by {
            assert(rest[i] == order[i + 1]);
        }
        lemma_insert_pos_bounds(keys, rest, key);
        let q = insert_pos(keys, rest, key);
        assert forall|i: int| 0 <= i < q + 1 implies keys[#[trigger] order[i] as int] <= key by {
            if i > 0 {
                assert(order[i] == rest[i - 1]);
            }
        }
        if q < rest.len() {
            assert(order[q + 1] == rest[q]);
        }
    }
}

/// `stable_sorted` is a stable order of the keys that lists every index.
pub proof fn lemma_stable_sorted(keys: Seq<i64>)
    requires
        keys.len() <= usize::MAX,
    ensures
        is_stable_order(keys, stable_sorted(keys)),
        forall|k: usize| k < keys.len() ==> #[trigger] stable_sorted(keys).contains(k),
    decreases keys.len(),
{
    if keys.len() > 0 {
        let n = keys.len() - 1;
        let init = keys.drop_last();
        lemma_stable_sorted(init);
        let before = stable_sorted(init);
        let key = keys.last();
        assert forall|i: int| 0 <= i < before.len() implies (#[trigger] before[i]) < keys.len() by {}
        lemma_insert_pos_bounds(keys, before, key);
        let p = insert_pos(keys, before, key);
        let order = before.take(p).push(n as usize) + before.skip(p);
        assert(stable_sorted(keys) == order);
        assert forall|i: int| 0 <= i < before.len() implies keys[#[trigger] before[i] as int] == init[before[i] as int] by {}
        assert forall|j: int| p <= j < before.len() implies keys[#[trigger] before[j] as int] > key by {
            if j > p {
                assert(key_before(init, before[p] as int, before[j] as int));
            }
        }
        assert forall|i: int| 0 <= i < order.len() implies (#[trigger] order[i]) < keys.len() by {
            if i < p {
                assert(order[i] == before[i]);
            } else if i > p {
                assert(order[i] == before[i - 1]);
            }
        }
        assert forall|i: int, j: int|
            0 <= i < j < order.len() implies key_before(keys, #[trigger] order[i] as int, #[trigger] order[j] as int) by {
            if j < p {
                assert(order[i] == before[i] && order[j] == before[j]);
                assert(key_before(init, before[i] as int, before[j] as int));
            } else if j == p {
                assert(order[i] == before[i]);
                assert(order[j] == n as usize);
                assert(keys[before[i] as int] <= key);
                assert(before[i] < init.len());
                assert(keys[n] == key);
            } else if i < p {
                assert(order[i] == before[i] && order[j] == before[j - 1]);
                assert(key_before(init, before[i] as int, before[j - 1] as int));
            } else if i == p {
                assert(order[i] == n as usize);
                assert(order[j] == before[j - 1]);
                assert(keys[before[j - 1] as int] > key);
                assert(keys[n] == key);
            } else {
                assert(order[i] == before[i - 1] && order[j] == before[j - 1]);
                assert(key_before(init, before[i - 1] as int, before[j - 1] as int));
            }
        }
        assert forall|k: usize| k < keys.len() implies #[trigger] order.contains(k) by {
            if k == n {
                assert(order[p] == n as usize);
            } else {
                assert(before.contains(k));
                let w = choose|w: int| 0 <= w < before.len() && before[w] == k;
                if w < p {
                    assert(order[w] == before[w]);
                } else {
                    assert(order[w + 1] == before[w]);
                }
            }
        }
    }
}

} // verus!
