//! Properties of a store across several `set_item` / `get_item` calls.
//!
//! Each is stated over the store's entries before and after, in the terms
//! that the operations' own `ensures` use: for a key type with
//! `lawful_key`, a fresh store holds `Map::empty()`, a `set_item(&k, &v)`
//! that returned `None` turns entries `m` into `m.insert(k, v)`, and a
//! `get_item(&k)` that obtained the lock returns `lookup(m, k)`.
use crate::data_store::{lookup, DataStore};
use crate::errors::Error;
use vstd::prelude::*;

verus! {

/// The entries after the writes in `writes` were applied to `m`, first to
/// last, as the lock serializes them.
pub open spec fn apply_sets<K, V>(m: Map<K, V>, writes: Seq<(K, V)>) -> Map<K, V>
    decreases writes.len(),
{
    if writes.len() == 0 {
        m
    } else {
        apply_sets(m, writes.drop_last()).insert(writes.last().0, writes.last().1)
    }
}

/// After `set_item(&k, &v)` turned `before` into `after`, a read of `k` on
/// `after` gives `v`.
pub proof fn lemma_set_then_get<K, V>(before: DataStore<K, V>, after: DataStore<K, V>, k: K, v: V)
    requires
        after@ == before@.insert(k, v),
    ensures
        lookup(after@, k) == Ok::<V, Error>(v),
{
}

/// On a store made by `new` and then written by `writes`, a key that none of
/// the writes named is not found.
pub proof fn lemma_unset_key_not_found<K, V>(
    fresh: DataStore<K, V>,
    after: DataStore<K, V>,
    writes: Seq<(K, V)>,
    k: K,
)
    requires
        fresh@ == Map::<K, V>::empty(),
        after@ == apply_sets(fresh@, writes),
        forall|i: int| 0 <= i < writes.len() ==> (#[trigger] writes[i]).0 != k,
    ensures
        lookup(after@, k) == Err::<V, Error>(Error::ItemDoesNotExist),
{
    lemma_unwritten_key_absent(fresh@, writes, k);
}

proof fn lemma_unwritten_key_absent<K, V>(m: Map<K, V>, writes: Seq<(K, V)>, k: K)
    requires
        forall|i: int| 0 <= i < writes.len() ==> (#[trigger] writes[i]).0 != k,
    ensures
        apply_sets(m, writes).contains_key(k) == m.contains_key(k),
    decreases writes.len(),
{
    if writes.len() > 0 {
        let rest = writes.drop_last();
        assert forall|i: int| 0 <= i < rest.len() implies (#[trigger] rest[i]).0 != k by {
            assert(rest[i] == writes[i]);
        }
        lemma_unwritten_key_absent(m, rest, k);
        assert(writes.last() == writes[writes.len() - 1]);
    }
}

/// After `set_item(&k, &v1)` and then `set_item(&k, &v2)`, a read of `k`
/// gives `v2`, and so not `v1` where the two differ.
pub proof fn lemma_overwrite<K, V>(
    before: DataStore<K, V>,
    middle: DataStore<K, V>,
    after: DataStore<K, V>,
    k: K,
    v1: V,
    v2: V,
)
    requires
        middle@ == before@.insert(k, v1),
        after@ == middle@.insert(k, v2),
    ensures
        lookup(after@, k) == Ok::<V, Error>(v2),
        v1 != v2 ==> lookup(after@, k) != Ok::<V, Error>(v1),
{
}

/// `set_item(&k1, &v1)` leaves what a read of any other key `k2` gives
/// unchanged.
pub proof fn lemma_independent_keys<K, V>(
    before: DataStore<K, V>,
    after: DataStore<K, V>,
    k1: K,
    v1: V,
    k2: K,
)
    requires
        k1 != k2,
        after@ == before@.insert(k1, v1),
    ensures
        lookup(after@, k2) == lookup(before@, k2),
{
}

/// Writers on pairwise distinct keys, in whatever order the lock lets them
/// in, each read back their own value afterwards.
pub proof fn lemma_distinct_writers<K, V>(
    before: DataStore<K, V>,
    after: DataStore<K, V>,
    writes: Seq<(K, V)>,
    i: int,
)
    requires
        after@ == apply_sets(before@, writes),
        0 <= i < writes.len(),
        forall|a: int, b: int|
            0 <= a < writes.len() && 0 <= b < writes.len() && a != b ==> (#[trigger] writes[a]).0
                != (#[trigger] writes[b]).0,
    ensures
        lookup(after@, writes[i].0) == Ok::<V, Error>(writes[i].1),
{
    lemma_distinct_writes_kept(before@, writes, i);
}

proof fn lemma_distinct_writes_kept<K, V>(m: Map<K, V>, writes: Seq<(K, V)>, i: int)
    requires
        0 <= i < writes.len(),
        forall|a: int, b: int|
            0 <= a < writes.len() && 0 <= b < writes.len() && a != b ==> (#[trigger] writes[a]).0
                != (#[trigger] writes[b]).0,
    ensures
        lookup(apply_sets(m, writes), writes[i].0) == Ok::<V, Error>(writes[i].1),
    decreases writes.len(),
{
    let last = writes.len() - 1;
    assert(writes.last() == writes[last]);
    if i < last {
        let rest = writes.drop_last();
        assert forall|a: int, b: int|
            0 <= a < rest.len() && 0 <= b < rest.len() && a != b implies (#[trigger] rest[a]).0
                != (#[trigger] rest[b]).0 by {
            assert(rest[a] == writes[a] && rest[b] == writes[b]);
        }
        lemma_distinct_writes_kept(m, rest, i);
        assert(rest[i] == writes[i]);
        assert(writes[i].0 != writes[last].0);
    }
}

/// Keys stay unique: a write adds one entry for a new key and none for a key
/// already present.
pub proof fn lemma_size_after_set<K, V>(before: DataStore<K, V>, after: DataStore<K, V>, k: K, v: V)
    requires
        before@.dom().finite(),
        after@ == before@.insert(k, v),
    ensures
        after@.dom().finite(),
        after@.len() == before@.len() + if before@.contains_key(k) {
            0int
        } else {
            1int
        },
{
    if before@.contains_key(k) {
        assert(before@.dom().insert(k) =~= before@.dom());
    }
}

} // verus!
