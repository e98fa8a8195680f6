//! Association lists as finite maps and sets.
//!
//! The launchpad keeps its records in plain vectors of entries. Each such
//! vector, together with a key projection, models a finite map (or set) as
//! long as no two entries share a key. `assoc_map` and `assoc_set` give the
//! modelled collection; the lemmas below relate the vector operations the
//! executable code performs (push, update in place, remove at an index) to
//! `Map` and `Set` operations on the model.

use vstd::prelude::*;

verus! {

/// The map modelled by the entries of `s`, later entries winning on key
/// collisions (irrelevant once `keys_unique` holds).
pub open spec fn assoc_map<T, K, V>(s: Seq<T>, key: spec_fn(T) -> K, val: spec_fn(T) -> V) -> Map<
    K,
    V,
>
    decreases s.len(),
{
    if s.len() == 0 {
        Map::empty()
    } else {
        assoc_map(s.drop_last(), key, val).insert(key(s.last()), val(s.last()))
    }
}

/// The set of keys of the entries of `s`.
pub open spec fn assoc_set<T, K>(s: Seq<T>, key: spec_fn(T) -> K) -> Set<K>
    decreases s.len(),
{
    if s.len() == 0 {
        Set::empty()
    } else {
        assoc_set(s.drop_last(), key).insert(key(s.last()))
    }
}

/// No two entries of `s` project to the same key.
pub open spec fn keys_unique<T, K>(s: Seq<T>, key: spec_fn(T) -> K) -> bool {
    forall|i: int, j: int| 0 <= i < j < s.len() ==> key(s[i]) != key(s[j])
}

pub proof fn lemma_assoc_map_domain<T, K, V>(s: Seq<T>, key: spec_fn(T) -> K, val: spec_fn(T) -> V)
    ensures
        forall|k: K|
            #[trigger] assoc_map(s, key, val).contains_key(k) <==> exists|i: int|
                0 <= i < s.len() && key(s[i]) == k,
    decreases s.len(),
{
    if s.len() > 0 {
        lemma_assoc_map_domain(s.drop_last(), key, val);
        assert forall|k: K| #[trigger]
            assoc_map(s, key, val).contains_key(k) implies exists|i: int|
            0 <= i < s.len() && key(s[i]) == k by {
            if k == key(s.last()) {
                assert(key(s[s.len() - 1]) == k);
            } else {
                assert(assoc_map(s.drop_last(), key, val).contains_key(k));
                let i = choose|i: int| 0 <= i < s.drop_last().len() && key(s.drop_last()[i]) == k;
                assert(s.drop_last()[i] == s[i]);
                assert(key(s[i]) == k);
            }
        }
        assert forall|k: K|
            exists|i: int| 0 <= i < s.len() && key(s[i]) == k implies #[trigger] assoc_map(
            s,
            key,
            val,
        ).contains_key(k) by {
            let i = choose|i: int| 0 <= i < s.len() && key(s[i]) == k;
            if i < s.len() - 1 {
                assert(s.drop_last()[i] == s[i]);
                assert(key(s.drop_last()[i]) == k);
                assert(assoc_map(s.drop_last(), key, val).contains_key(k));
            }
        }
    }
}

pub proof fn lemma_assoc_map_index<T, K, V>(
    s: Seq<T>,
    key: spec_fn(T) -> K,
    val: spec_fn(T) -> V,
    i: int,
)
    requires
        keys_unique(s, key),
        0 <= i < s.len(),
    ensures
        assoc_map(s, key, val).contains_key(key(s[i])),
        assoc_map(s, key, val)[key(s[i])] == val(s[i]),
    decreases s.len(),
{
    if i == s.len() - 1 {
        lemma_assoc_map_domain(s, key, val);
    } else {
        lemma_assoc_map_index(s.drop_last(), key, val, i);
        assert(s.drop_last()[i] == s[i]);
        assert(key(s[i]) != key(s[s.len() - 1]));
    }
}

/// A key that no entry carries is absent from the model.
pub proof fn lemma_assoc_map_absent<T, K, V>(
    s: Seq<T>,
    key: spec_fn(T) -> K,
    val: spec_fn(T) -> V,
    k: K,
)
    requires
        forall|i: int| 0 <= i < s.len() ==> key(s[i]) != k,
    ensures
        !assoc_map(s, key, val).contains_key(k),
{
    lemma_assoc_map_domain(s, key, val);
}

/// Appending a fresh entry inserts its binding.
pub proof fn lemma_assoc_map_push<T, K, V>(
    s: Seq<T>,
    key: spec_fn(T) -> K,
    val: spec_fn(T) -> V,
    e: T,
)
    ensures
        assoc_map(s.push(e), key, val) == assoc_map(s, key, val).insert(key(e), val(e)),
{
    assert(s.push(e).drop_last() =~= s);
    assert(s.push(e).last() == e);
}

/// Updating the entry at `i` with one of the same key re-binds that key.
pub proof fn lemma_assoc_map_update<T, K, V>(
    s: Seq<T>,
    key: spec_fn(T) -> K,
    val: spec_fn(T) -> V,
    i: int,
    e: T,
)
    requires
        keys_unique(s, key),
        0 <= i < s.len(),
        key(e) == key(s[i]),
    ensures
        assoc_map(s.update(i, e), key, val) == assoc_map(s, key, val).insert(key(e), val(e)),
    decreases s.len(),
{
    let s2 = s.update(i, e);
    if i == s.len() - 1 {
        assert(s2.drop_last() =~= s.drop_last());
        assert(s2.last() == e);
    } else {
        assert(s2.drop_last() =~= s.drop_last().update(i, e));
        assert(s.drop_last()[i] == s[i]);
        lemma_assoc_map_update(s.drop_last(), key, val, i, e);
        assert(s2.last() == s.last());
        assert(key(s[i]) != key(s[s.len() - 1]));
        assert(assoc_map(s2, key, val) =~= assoc_map(s, key, val).insert(key(e), val(e)));
    }
}

/// Removing the entry at `i` removes its binding.
pub proof fn lemma_assoc_map_remove<T, K, V>(
    s: Seq<T>,
    key: spec_fn(T) -> K,
    val: spec_fn(T) -> V,
    i: int,
)
    requires
        keys_unique(s, key),
        0 <= i < s.len(),
    ensures
        assoc_map(s.remove(i), key, val) == assoc_map(s, key, val).remove(key(s[i])),
    decreases s.len(),
{
    let s2 = s.remove(i);
    if i == s.len() - 1 {
        assert(s2 =~= s.drop_last());
        lemma_assoc_map_domain(s.drop_last(), key, val);
        assert(forall|j: int|
            0 <= j < s.drop_last().len() ==> key(s.drop_last()[j]) != key(s[i]));
        assert(assoc_map(s2, key, val) =~= assoc_map(s, key, val).remove(key(s[i])));
    } else {
        assert(s2.drop_last() =~= s.drop_last().remove(i));
        assert(s2.last() == s.last());
        assert(s.drop_last()[i] == s[i]);
        lemma_assoc_map_remove(s.drop_last(), key, val, i);
        assert(key(s[i]) != key(s[s.len() - 1]));
        assert(assoc_map(s2, key, val) =~= assoc_map(s, key, val).remove(key(s[i])));
    }
}

/// Key uniqueness survives removing an entry.
pub proof fn lemma_keys_unique_remove<T, K>(s: Seq<T>, key: spec_fn(T) -> K, i: int)
    requires
        keys_unique(s, key),
        0 <= i < s.len(),
    ensures
        keys_unique(s.remove(i), key),
{
    s.remove_ensures(i);
    assert forall|x: int, y: int|
        0 <= x < y < s.remove(i).len() implies key(s.remove(i)[x]) != key(s.remove(i)[y]) by {
        let x2 = if x < i {
            x
        } else {
            x + 1
        };
        let y2 = if y < i {
            y
        } else {
            y + 1
        };
        assert(s.remove(i)[x] == s[x2]);
        assert(s.remove(i)[y] == s[y2]);
        assert(key(s[x2]) != key(s[y2]));
    }
}

/// One more element of `s` taken: the elements seen are those seen before,
/// plus `s[i]`.
pub proof fn lemma_take_step<A>(s: Seq<A>, i: int)
    requires
        0 <= i < s.len(),
    ensures
        forall|a: A| #[trigger]
            s.take(i + 1).contains(a) <==> (s.take(i).contains(a) || a == s[i]),
{
    assert forall|a: A| #[trigger]
        s.take(i + 1).contains(a) implies (s.take(i).contains(a) || a == s[i]) by {
        let j = choose|j: int| 0 <= j < s.take(i + 1).len() && #[trigger] s.take(i + 1)[j] == a;
        if j < i {
            assert(s.take(i)[j] == a);
            assert(s.take(i).contains(a));
        } else {
            assert(a == s[i]);
        }
    }
    assert forall|a: A| (s.take(i).contains(a) || a == s[i]) implies #[trigger] s.take(
        i + 1,
    ).contains(a) by {
        if s.take(i).contains(a) {
            let j = choose|j: int| 0 <= j < s.take(i).len() && #[trigger] s.take(i)[j] == a;
            assert(s.take(i + 1)[j] == a);
        } else {
            assert(s.take(i + 1)[i] == a);
        }
    }
}

pub proof fn lemma_assoc_set_domain<T, K>(s: Seq<T>, key: spec_fn(T) -> K)
    ensures
        forall|k: K|
            #[trigger] assoc_set(s, key).contains(k) <==> exists|i: int|
                0 <= i < s.len() && key(s[i]) == k,
    decreases s.len(),
{
    if s.len() > 0 {
        lemma_assoc_set_domain(s.drop_last(), key);
        assert forall|k: K| #[trigger] assoc_set(s, key).contains(k) implies exists|i: int|
            0 <= i < s.len() && key(s[i]) == k by {
            if k == key(s.last()) {
                assert(key(s[s.len() - 1]) == k);
            } else {
                assert(assoc_set(s.drop_last(), key).contains(k));
                let i = choose|i: int| 0 <= i < s.drop_last().len() && key(s.drop_last()[i]) == k;
                assert(s.drop_last()[i] == s[i]);
                assert(key(s[i]) == k);
            }
        }
        assert forall|k: K|
            exists|i: int| 0 <= i < s.len() && key(s[i]) == k implies #[trigger] assoc_set(
            s,
            key,
        ).contains(k) by {
            let i = choose|i: int| 0 <= i < s.len() && key(s[i]) == k;
            if i < s.len() - 1 {
                assert(s.drop_last()[i] == s[i]);
                assert(key(s.drop_last()[i]) == k);
                assert(assoc_set(s.drop_last(), key).contains(k));
            }
        }
    }
}

/// The key of any entry is in the modelled set.
pub proof fn lemma_assoc_set_contains_at<T, K>(s: Seq<T>, key: spec_fn(T) -> K, i: int)
    requires
        0 <= i < s.len(),
    ensures
        assoc_set(s, key).contains(key(s[i])),
    decreases s.len(),
{
    if i < s.len() - 1 {
        lemma_assoc_set_contains_at(s.drop_last(), key, i);
        assert(s.drop_last()[i] == s[i]);
    }
}

/// A key that no entry carries is absent from the modelled set.
pub proof fn lemma_assoc_set_absent<T, K>(s: Seq<T>, key: spec_fn(T) -> K, k: K)
    requires
        forall|i: int| 0 <= i < s.len() ==> key(s[i]) != k,
    ensures
        !assoc_set(s, key).contains(k),
    decreases s.len(),
{
    if s.len() > 0 {
        assert(forall|i: int| 0 <= i < s.drop_last().len() ==> key(s.drop_last()[i]) != k);
        lemma_assoc_set_absent(s.drop_last(), key, k);
        assert(key(s[s.len() - 1]) != k);
    }
}

pub proof fn lemma_assoc_set_push<T, K>(s: Seq<T>, key: spec_fn(T) -> K, e: T)
    ensures
        assoc_set(s.push(e), key) == assoc_set(s, key).insert(key(e)),
{
    assert(s.push(e).drop_last() =~= s);
    assert(s.push(e).last() == e);
}

pub proof fn lemma_assoc_set_remove<T, K>(s: Seq<T>, key: spec_fn(T) -> K, i: int)
    requires
        keys_unique(s, key),
        0 <= i < s.len(),
    ensures
        assoc_set(s.remove(i), key) == assoc_set(s, key).remove(key(s[i])),
    decreases s.len(),
{
    let s2 = s.remove(i);
    if i == s.len() - 1 {
        assert(s2 =~= s.drop_last());
        lemma_assoc_set_domain(s.drop_last(), key);
        assert(forall|j: int|
            0 <= j < s.drop_last().len() ==> key(s.drop_last()[j]) != key(s[i]));
        assert(assoc_set(s2, key) =~= assoc_set(s, key).remove(key(s[i])));
    } else {
        assert(s2.drop_last() =~= s.drop_last().remove(i));
        assert(s2.last() == s.last());
        assert(s.drop_last()[i] == s[i]);
        lemma_assoc_set_remove(s.drop_last(), key, i);
        assert(key(s[i]) != key(s[s.len() - 1]));
        assert(assoc_set(s2, key) =~= assoc_set(s, key).remove(key(s[i])));
    }
}

} // verus!
