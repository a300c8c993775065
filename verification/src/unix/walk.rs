//! Facts about a walk of the connection pool that picks some of its connections.

use vstd::prelude::*;

use crate::unix::conn_map::ConnMapKey;

verus! {

/// A sequence without duplicates that holds just the elements of a set has as many elements.
pub proof fn lemma_exhausted(keys: Seq<ConnMapKey>, all: Set<ConnMapKey>)
    requires
        keys.no_duplicates(),
        forall|key: ConnMapKey| keys.contains(key) <==> all.contains(key),
    ensures
        all.finite(),
        all.len() == keys.len(),
{
    keys.unique_seq_to_set();
    assert(keys.to_set() =~= all);
}

/// A sequence without duplicates of elements of a set, but not of all of them, is shorter.
pub proof fn lemma_left_over(keys: Seq<ConnMapKey>, all: Set<ConnMapKey>, missing: ConnMapKey)
    requires
        all.finite(),
        keys.no_duplicates(),
        forall|key: ConnMapKey| keys.contains(key) ==> all.contains(key),
        all.contains(missing),
        !keys.contains(missing),
    ensures
        keys.len() < all.len(),
{
    keys.unique_seq_to_set();
    let some = keys.to_set().insert(missing);
    assert(some.subset_of(all));
    vstd::set_lib::lemma_len_subset(some, all);
}

/// What a sequence holds once `key` was pushed.
pub proof fn lemma_push_contains(keys: Seq<ConnMapKey>, key: ConnMapKey, k: ConnMapKey)
    ensures
        keys.push(key).contains(k) <==> keys.contains(k) || k == key,
{
    let grown = keys.push(key);
    if grown.contains(k) {
        let n = grown.index_of(k);
        if n < keys.len() {
            assert(keys[n] == k);
        }
    }
    if keys.contains(k) {
        let n = keys.index_of(k);
        assert(grown[n] == k);
    }
    if k == key {
        assert(grown[keys.len() as int] == k);
    }
}

/// A walk of `keys` that has picked `added` from the first `i` of them, and now picks the next.
pub proof fn lemma_grown(
    keys: Seq<ConnMapKey>,
    i: int,
    all: Set<ConnMapKey>,
    added: Seq<ConnMapKey>,
)
    requires
        0 <= i < keys.len(),
        keys.no_duplicates(),
        added.no_duplicates(),
        all.contains(keys[i]),
        forall|key: ConnMapKey| #[trigger] added.contains(key) ==> all.contains(key),
        forall|j: int| i <= j < keys.len() ==> !added.contains(#[trigger] keys[j]),
        forall|j: int| 0 <= j < i && all.contains(keys[j]) ==> added.contains(#[trigger] keys[j]),
    ensures
        added.push(keys[i]).no_duplicates(),
        forall|key: ConnMapKey| #[trigger] added.push(keys[i]).contains(key) ==> all.contains(key),
        forall|j: int| i < j < keys.len() ==> !added.push(keys[i]).contains(#[trigger] keys[j]),
        forall|j: int|
            0 <= j <= i && all.contains(keys[j]) ==> added.push(keys[i]).contains(
                #[trigger] keys[j],
            ),
{
    let grown = added.push(keys[i]);
    assert forall|key: ConnMapKey| #[trigger] grown.contains(key) implies all.contains(key) by {
        lemma_push_contains(added, keys[i], key);
    }
    assert forall|j: int| i < j < keys.len() implies !grown.contains(#[trigger] keys[j]) by {
        lemma_push_contains(added, keys[i], keys[j]);
    }
    assert forall|j: int| 0 <= j <= i && all.contains(keys[j]) implies grown.contains(
        #[trigger] keys[j],
    ) by {
        lemma_push_contains(added, keys[i], keys[j]);
    }
    assert(!added.contains(keys[i]));
    assert forall|a: int, b: int| 0 <= a < grown.len() && 0 <= b < grown.len() && a != b implies
        grown[a] != grown[b] by {
        if a < added.len() {
            assert(added.contains(added[a]));
        }
        if b < added.len() {
            assert(added.contains(added[b]));
        }
    }
}

} // verus!
