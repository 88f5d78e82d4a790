//! Ordering a sequence by a key, largest key first, without changing the
//! order of items whose keys are equal.

use vstd::prelude::*;
use vstd::seq_lib::to_multiset_insert;

verus! {

/// Where an item with key `k` goes into a sequence ordered from the
/// largest key down: behind every item whose key is at least `k`.
pub open spec fn insert_position<T>(sorted: Seq<T>, key: spec_fn(T) -> int, k: int) -> int
    decreases sorted.len(),
{
    if sorted.len() == 0 {
        0
    } else if key(sorted.last()) >= k {
        sorted.len() as int
    } else {
        insert_position(sorted.drop_last(), key, k)
    }
}

/// The first `n` items of `items` ordered from the largest key down; items
/// with equal keys keep the order in which they came.
pub open spec fn descending<T>(items: Seq<T>, key: spec_fn(T) -> int, n: nat) -> Seq<T>
    decreases n,
{
    if n == 0 {
        Seq::empty()
    } else {
        let before = descending(items, key, (n - 1) as nat);
        before.insert(insert_position(before, key, key(items[n - 1])), items[n - 1])
    }
}

/// No item comes before one with a larger key.
pub open spec fn is_descending<T>(items: Seq<T>, key: spec_fn(T) -> int) -> bool {
    forall|i: int, j: int| 0 <= i < j < items.len() ==> key(items[i]) >= key(items[j])
}

/// The insert position lies behind all items with a key of at least `k`
/// and before all that follow.
pub proof fn lemma_insert_position<T>(sorted: Seq<T>, key: spec_fn(T) -> int, k: int)
    ensures
        0 <= insert_position(sorted, key, k) <= sorted.len(),
        insert_position(sorted, key, k) > 0 ==> key(sorted[insert_position(sorted, key, k) - 1])
            >= k,
        forall|i: int| insert_position(sorted, key, k) <= i < sorted.len() ==> key(sorted[i]) < k,
    decreases sorted.len(),
{
    if sorted.len() > 0 && key(sorted.last()) < k {
        let rest = sorted.drop_last();
        lemma_insert_position(rest, key, k);
        let pos = insert_position(rest, key, k);
        assert forall|i: int| pos <= i < sorted.len() implies key(sorted[i]) < k by {
            if i < rest.len() {
                assert(sorted[i] == rest[i]);
            }
        }
        if pos > 0 {
            assert(sorted[pos - 1] == rest[pos - 1]);
        }
    }
}

/// A prefix of the sequence, scanned from its end, gives the insert
/// position of the whole once an item with a key of at least `k` is met.
pub proof fn lemma_insert_position_skips<T>(
    sorted: Seq<T>,
    key: spec_fn(T) -> int,
    k: int,
    pos: int,
)
    requires
        0 <= pos <= sorted.len(),
        forall|i: int| pos <= i < sorted.len() ==> key(sorted[i]) < k,
        pos > 0 ==> key(sorted[pos - 1]) >= k,
    ensures
        insert_position(sorted, key, k) == pos,
    decreases sorted.len(),
{
    if sorted.len() > 0 && pos < sorted.len() {
        let rest = sorted.drop_last();
        assert(key(sorted[sorted.len() - 1]) < k);
        assert forall|i: int| pos <= i < rest.len() implies key(rest[i]) < k by {
            assert(rest[i] == sorted[i]);
        }
        if pos > 0 {
            assert(rest[pos - 1] == sorted[pos - 1]);
        }
        lemma_insert_position_skips(rest, key, k, pos);
    }
}

/// Ordering keeps every item, each as often as it came, and leaves no
/// item before one with a larger key.
pub proof fn lemma_descending_sorts<T>(items: Seq<T>, key: spec_fn(T) -> int, n: nat)
    requires
        n <= items.len(),
    ensures
        descending(items, key, n).len() == n,
        descending(items, key, n).to_multiset() == items.take(n as int).to_multiset(),
        is_descending(descending(items, key, n), key),
    decreases n,
{
    if n == 0 {
        assert(items.take(0) =~= Seq::<T>::empty());
    } else {
        lemma_descending_sorts(items, key, (n - 1) as nat);
        let before = descending(items, key, (n - 1) as nat);
        let s = items[n - 1];
        let pos = insert_position(before, key, key(s));
        lemma_insert_position(before, key, key(s));
        let after = before.insert(pos, s);
        to_multiset_insert(before, pos, s);
        assert(items.take(n as int) =~= items.take(n - 1).push(s));
        items.take(n - 1).to_multiset_ensures();
        assert forall|i: int, j: int| 0 <= i < j < after.len() implies key(after[i]) >= key(
            after[j],
        ) by {
            if j < pos {
                assert(after[i] == before[i] && after[j] == before[j]);
            } else if j == pos {
                assert(after[i] == before[i]);
                if i < pos - 1 {
                    assert(key(before[i]) >= key(before[pos - 1]));
                }
            } else if i < pos {
                assert(after[i] == before[i] && after[j] == before[j - 1]);
                assert(key(before[j - 1]) < key(s));
                if i < pos - 1 {
                    assert(key(before[i]) >= key(before[pos - 1]));
                }
            } else if i == pos {
                assert(after[j] == before[j - 1]);
            } else {
                assert(after[i] == before[i - 1] && after[j] == before[j - 1]);
            }
        }
    }
}

} // verus!
