//! Lists of entries read as maps.
//!
//! The directory and the proposal tables keep their entries in a `Vec`, each
//! key at most once, and speak of them in contracts as a `Map`. This module
//! holds that reading and what the list operations do to the map.

use vstd::prelude::*;

verus! {

/// `i` is a position in `entries` whose key is `k`.
pub open spec fn key_at<E, K>(entries: Seq<E>, key: spec_fn(E) -> K, k: K, i: int) -> bool {
    0 <= i < entries.len() && key(entries[i]) == k
}

/// No key occurs at two positions.
pub open spec fn distinct_keys<E, K>(entries: Seq<E>, key: spec_fn(E) -> K) -> bool {
    forall|i: int, j: int|
        0 <= i < entries.len() && 0 <= j < entries.len() && i != j ==> key(entries[i]) != key(
            entries[j],
        )
}

/// The map that `entries` stands for: from the key of each entry to its value.
pub open spec fn assoc_map<E, K, V>(
    entries: Seq<E>,
    key: spec_fn(E) -> K,
    value: spec_fn(E) -> V,
) -> Map<K, V> {
    Map::new(
        |k: K| exists|i: int| key_at(entries, key, k, i),
        |k: K| value(entries[choose|i: int| key_at(entries, key, k, i)]),
    )
}

/// Each entry is what the map gives for its key.
pub proof fn lemma_entry_in_map<E, K, V>(
    entries: Seq<E>,
    key: spec_fn(E) -> K,
    value: spec_fn(E) -> V,
    i: int,
)
    requires
        distinct_keys(entries, key),
        0 <= i < entries.len(),
    ensures
        assoc_map(entries, key, value).contains_key(key(entries[i])),
        assoc_map(entries, key, value)[key(entries[i])] == value(entries[i]),
{
    let k = key(entries[i]);
    assert(key_at(entries, key, k, i));
    let j = choose|j: int| key_at(entries, key, k, j);
    assert(j == i);
}

/// A key that sits at no position is not in the map.
pub proof fn lemma_absent<E, K, V>(
    entries: Seq<E>,
    key: spec_fn(E) -> K,
    value: spec_fn(E) -> V,
    k: K,
)
    requires
        forall|i: int| 0 <= i < entries.len() ==> key(#[trigger] entries[i]) != k,
    ensures
        !assoc_map(entries, key, value).contains_key(k),
{
    assert forall|i: int| !key_at(entries, key, k, i) by {}
}

/// Appending an entry under a new key inserts it into the map.
pub proof fn lemma_push<E, K, V>(
    entries: Seq<E>,
    key: spec_fn(E) -> K,
    value: spec_fn(E) -> V,
    entry: E,
)
    requires
        distinct_keys(entries, key),
        !assoc_map(entries, key, value).contains_key(key(entry)),
    ensures
        distinct_keys(entries.push(entry), key),
        assoc_map(entries.push(entry), key, value) == assoc_map(entries, key, value).insert(
            key(entry),
            value(entry),
        ),
{
    let after = entries.push(entry);
    let want = assoc_map(entries, key, value).insert(key(entry), value(entry));
    assert forall|i: int, j: int|
        0 <= i < after.len() && 0 <= j < after.len() && i != j implies key(after[i]) != key(
        after[j],
    ) by {
        if i == entries.len() {
            assert(!key_at(entries, key, key(entry), j));
        } else if j == entries.len() {
            assert(!key_at(entries, key, key(entry), i));
        }
    }
    assert forall|k: K| assoc_map(after, key, value).contains_key(k) <==> want.contains_key(
        k,
    ) by {
        if assoc_map(after, key, value).contains_key(k) {
            let i = choose|i: int| key_at(after, key, k, i);
            if i < entries.len() {
                assert(key_at(entries, key, k, i));
            }
        }
        if want.contains_key(k) {
            if k == key(entry) {
                assert(key_at(after, key, k, entries.len() as int));
            } else {
                let i = choose|i: int| key_at(entries, key, k, i);
                assert(key_at(after, key, k, i));
            }
        }
    }
    assert forall|k: K| assoc_map(after, key, value).contains_key(k) implies assoc_map(
        after,
        key,
        value,
    )[k] == want[k] by {
        let i = choose|i: int| key_at(after, key, k, i);
        lemma_entry_in_map(after, key, value, i);
        if i < entries.len() {
            lemma_entry_in_map(entries, key, value, i);
        }
    }
    assert(assoc_map(after, key, value) =~= want);
}

/// Replacing an entry by one with the same key replaces its value in the map.
pub proof fn lemma_update<E, K, V>(
    entries: Seq<E>,
    key: spec_fn(E) -> K,
    value: spec_fn(E) -> V,
    i: int,
    entry: E,
)
    requires
        distinct_keys(entries, key),
        0 <= i < entries.len(),
        key(entry) == key(entries[i]),
    ensures
        distinct_keys(entries.update(i, entry), key),
        assoc_map(entries.update(i, entry), key, value) == assoc_map(entries, key, value).insert(
            key(entry),
            value(entry),
        ),
{
    let after = entries.update(i, entry);
    let want = assoc_map(entries, key, value).insert(key(entry), value(entry));
    assert forall|j: int| 0 <= j < after.len() implies key(#[trigger] after[j]) == key(
        entries[j],
    ) by {}
    assert forall|k: K| assoc_map(after, key, value).contains_key(k) <==> want.contains_key(
        k,
    ) by {
        if assoc_map(after, key, value).contains_key(k) {
            let j = choose|j: int| key_at(after, key, k, j);
            assert(key_at(entries, key, k, j));
        }
        if want.contains_key(k) {
            if k == key(entry) {
                assert(key_at(after, key, k, i));
            } else {
                let j = choose|j: int| key_at(entries, key, k, j);
                assert(key_at(after, key, k, j));
            }
        }
    }
    assert forall|k: K| assoc_map(after, key, value).contains_key(k) implies assoc_map(
        after,
        key,
        value,
    )[k] == want[k] by {
        let j = choose|j: int| key_at(after, key, k, j);
        lemma_entry_in_map(after, key, value, j);
        if j != i {
            lemma_entry_in_map(entries, key, value, j);
        }
    }
    assert(assoc_map(after, key, value) =~= want);
}

/// Taking an entry out removes its key from the map.
pub proof fn lemma_remove<E, K, V>(
    entries: Seq<E>,
    key: spec_fn(E) -> K,
    value: spec_fn(E) -> V,
    i: int,
)
    requires
        distinct_keys(entries, key),
        0 <= i < entries.len(),
    ensures
        distinct_keys(entries.remove(i), key),
        assoc_map(entries.remove(i), key, value) == assoc_map(entries, key, value).remove(
            key(entries[i]),
        ),
{
    let after = entries.remove(i);
    let want = assoc_map(entries, key, value).remove(key(entries[i]));
    assert forall|j: int| 0 <= j < after.len() implies #[trigger] after[j] == entries[if j < i {
        j
    } else {
        j + 1
    }] by {}
    assert forall|k: K| assoc_map(after, key, value).contains_key(k) <==> want.contains_key(
        k,
    ) by {
        if assoc_map(after, key, value).contains_key(k) {
            let j = choose|j: int| key_at(after, key, k, j);
            let h = if j < i {
                j
            } else {
                j + 1
            };
            assert(key_at(entries, key, k, h));
        }
        if want.contains_key(k) {
            let h = choose|h: int| key_at(entries, key, k, h);
            let j = if h < i {
                h
            } else {
                h - 1
            };
            assert(key_at(after, key, k, j));
        }
    }
    assert forall|k: K| assoc_map(after, key, value).contains_key(k) implies assoc_map(
        after,
        key,
        value,
    )[k] == want[k] by {
        let j = choose|j: int| key_at(after, key, k, j);
        let h = if j < i {
            j
        } else {
            j + 1
        };
        lemma_entry_in_map(after, key, value, j);
        lemma_entry_in_map(entries, key, value, h);
    }
    assert(assoc_map(after, key, value) =~= want);
}

/// Two lists that agree in the key and the value of every position stand for
/// the same map, and one has distinct keys exactly if the other has.
pub proof fn lemma_same_map<E, K, V>(
    entries: Seq<E>,
    others: Seq<E>,
    key: spec_fn(E) -> K,
    value: spec_fn(E) -> V,
)
    requires
        entries.len() == others.len(),
        forall|i: int|
            0 <= i < entries.len() ==> key(#[trigger] entries[i]) == key(others[i]) && value(
                entries[i],
            ) == value(others[i]),
        distinct_keys(entries, key),
    ensures
        distinct_keys(others, key),
        assoc_map(others, key, value) == assoc_map(entries, key, value),
{
    assert forall|i: int, j: int|
        0 <= i < others.len() && 0 <= j < others.len() && i != j implies key(others[i]) != key(
        others[j],
    ) by {
        assert(key(entries[i]) == key(others[i]));
        assert(key(entries[j]) == key(others[j]));
    }
    assert forall|k: K|
        assoc_map(others, key, value).contains_key(k) <==> assoc_map(
            entries,
            key,
            value,
        ).contains_key(k) by {
        if assoc_map(others, key, value).contains_key(k) {
            let i = choose|i: int| key_at(others, key, k, i);
            assert(key(entries[i]) == key(others[i]));
            assert(key_at(entries, key, k, i));
        }
        if assoc_map(entries, key, value).contains_key(k) {
            let i = choose|i: int| key_at(entries, key, k, i);
            assert(key(entries[i]) == key(others[i]));
            assert(key_at(others, key, k, i));
        }
    }
    assert forall|k: K| assoc_map(others, key, value).contains_key(k) implies assoc_map(
        others,
        key,
        value,
    )[k] == assoc_map(entries, key, value)[k] by {
        let i = choose|i: int| key_at(others, key, k, i);
        assert(key(entries[i]) == key(others[i]));
        lemma_entry_in_map(others, key, value, i);
        lemma_entry_in_map(entries, key, value, i);
    }
    assert(assoc_map(others, key, value) =~= assoc_map(entries, key, value));
}

/// The map is finite and has one key for each entry.
pub proof fn lemma_size<E, K, V>(entries: Seq<E>, key: spec_fn(E) -> K, value: spec_fn(E) -> V)
    requires
        distinct_keys(entries, key),
    ensures
        assoc_map(entries, key, value).dom().finite(),
        assoc_map(entries, key, value).len() == entries.len(),
    decreases entries.len(),
{
    if entries.len() == 0 {
        assert(assoc_map(entries, key, value) =~= Map::<K, V>::empty());
    } else {
        let front = entries.drop_last();
        let last = entries.last();
        assert(distinct_keys(front, key));
        lemma_size(front, key, value);
        let k = key(last);
        assert(!assoc_map(front, key, value).contains_key(k)) by {
            if assoc_map(front, key, value).contains_key(k) {
                let i = choose|i: int| key_at(front, key, k, i);
                assert(key(entries[i]) == key(entries[entries.len() - 1]));
            }
        }
        lemma_push(front, key, value, last);
        assert(front.push(last) =~= entries);
    }
}

} // verus!
