use vstd::prelude::*;

verus! {

/// No two entries of `s` share a key.
pub open spec fn keys_unique<K, V>(s: Seq<V>, key: spec_fn(V) -> K) -> bool {
    forall|i: int, j: int|
        #![trigger key(s[i]), key(s[j])]
        0 <= i < s.len() && 0 <= j < s.len() && key(s[i]) == key(s[j]) ==> i == j
}

/// Some entry of `s` has key `k`.
pub open spec fn has_key<K, V>(s: Seq<V>, key: spec_fn(V) -> K, k: K) -> bool {
    exists|i: int| 0 <= i < s.len() && #[trigger] key(s[i]) == k
}

/// The entries of `s` by their key.
pub open spec fn keyed<K, V>(s: Seq<V>, key: spec_fn(V) -> K) -> Map<K, V> {
    Map::new(|k: K| has_key(s, key, k), |k: K| s[choose|i: int| 0 <= i < s.len() && #[trigger] key(s[i]) == k])
}

pub proof fn lemma_keyed_at<K, V>(s: Seq<V>, key: spec_fn(V) -> K, i: int)
    requires
        keys_unique(s, key),
        0 <= i < s.len(),
    ensures
        keyed(s, key).contains_key(key(s[i])),
        keyed(s, key)[key(s[i])] == s[i],
{
    let k = key(s[i]);
    assert(has_key(s, key, k));
    let j = choose|j: int| 0 <= j < s.len() && #[trigger] key(s[j]) == k;
    assert(key(s[j]) == key(s[i]));
}

pub proof fn lemma_keyed_push<K, V>(s: Seq<V>, key: spec_fn(V) -> K, v: V)
    requires
        keys_unique(s, key),
        !has_key(s, key, key(v)),
    ensures
        keys_unique(s.push(v), key),
        keyed(s.push(v), key) == keyed(s, key).insert(key(v), v),
{
    let t = s.push(v);
    assert forall|i: int, j: int|
        #![trigger key(t[i]), key(t[j])]
        0 <= i < t.len() && 0 <= j < t.len() && key(t[i]) == key(t[j]) implies i == j by {
        if i < s.len() && j == s.len() {
            assert(key(s[i]) == key(v));
        } else if j < s.len() && i == s.len() {
            assert(key(s[j]) == key(v));
        }
    }
    let m = keyed(s, key).insert(key(v), v);
    assert forall|k: K| #[trigger] keyed(t, key).contains_key(k) == m.contains_key(k) by {
        if has_key(s, key, k) {
            let i = choose|i: int| 0 <= i < s.len() && #[trigger] key(s[i]) == k;
            assert(key(t[i]) == k);
        }
        if has_key(t, key, k) {
            let i = choose|i: int| 0 <= i < t.len() && #[trigger] key(t[i]) == k;
            if i < s.len() {
                assert(key(s[i]) == k);
            }
        }
        if k == key(v) {
            assert(key(t[s.len() as int]) == k);
        }
    }
    assert forall|k: K| keyed(t, key).contains_key(k) implies #[trigger] keyed(t, key)[k] == m[k] by {
        let i = choose|i: int| 0 <= i < t.len() && #[trigger] key(t[i]) == k;
        lemma_keyed_at(t, key, i);
        if i < s.len() {
            assert(t[i] == s[i]);
            lemma_keyed_at(s, key, i);
        }
    }
    assert(keyed(t, key) =~= m);
}

pub proof fn lemma_keyed_update<K, V>(s: Seq<V>, key: spec_fn(V) -> K, i: int, v: V)
    requires
        keys_unique(s, key),
        0 <= i < s.len(),
        key(v) == key(s[i]),
    ensures
        keys_unique(s.update(i, v), key),
        keyed(s.update(i, v), key) == keyed(s, key).insert(key(v), v),
{
    let t = s.update(i, v);
    assert forall|a: int, b: int|
        #![trigger key(t[a]), key(t[b])]
        0 <= a < t.len() && 0 <= b < t.len() && key(t[a]) == key(t[b]) implies a == b by {
        assert(key(t[a]) == key(s[a]));
        assert(key(t[b]) == key(s[b]));
    }
    let m = keyed(s, key).insert(key(v), v);
    assert forall|k: K| #[trigger] keyed(t, key).contains_key(k) == m.contains_key(k) by {
        if has_key(s, key, k) {
            let j = choose|j: int| 0 <= j < s.len() && #[trigger] key(s[j]) == k;
            assert(key(t[j]) == k);
        }
        if has_key(t, key, k) {
            let j = choose|j: int| 0 <= j < t.len() && #[trigger] key(t[j]) == k;
            assert(key(s[j]) == k);
        }
        lemma_keyed_at(s, key, i);
    }
    assert forall|k: K| keyed(t, key).contains_key(k) implies #[trigger] keyed(t, key)[k] == m[k] by {
        let j = choose|j: int| 0 <= j < t.len() && #[trigger] key(t[j]) == k;
        lemma_keyed_at(t, key, j);
        if j != i {
            lemma_keyed_at(s, key, j);
        }
    }
    assert(keyed(t, key) =~= m);
}

pub proof fn lemma_keyed_remove<K, V>(s: Seq<V>, key: spec_fn(V) -> K, i: int)
    requires
        keys_unique(s, key),
        0 <= i < s.len(),
    ensures
        keys_unique(s.remove(i), key),
        keyed(s.remove(i), key) == keyed(s, key).remove(key(s[i])),
        forall|k: K| has_key(s.remove(i), key, k) <==> has_key(s, key, k) && k != key(s[i]),
{
    let t = s.remove(i);
    assert forall|a: int, b: int|
        #![trigger key(t[a]), key(t[b])]
        0 <= a < t.len() && 0 <= b < t.len() && key(t[a]) == key(t[b]) implies a == b by {
        let a2 = if a < i { a } else { a + 1 };
        let b2 = if b < i { b } else { b + 1 };
        assert(key(s[a2]) == key(s[b2]));
    }
    assert forall|k: K| has_key(t, key, k) <==> has_key(s, key, k) && k != key(s[i]) by {
        if has_key(t, key, k) {
            let a = choose|a: int| 0 <= a < t.len() && #[trigger] key(t[a]) == k;
            let a2 = if a < i { a } else { a + 1 };
            assert(key(s[a2]) == k);
        }
        if has_key(s, key, k) && k != key(s[i]) {
            let a = choose|a: int| 0 <= a < s.len() && #[trigger] key(s[a]) == k;
            let a2 = if a < i { a } else { a - 1 };
            assert(key(t[a2]) == k);
        }
    }
    let m = keyed(s, key).remove(key(s[i]));
    assert forall|k: K| keyed(t, key).contains_key(k) implies #[trigger] keyed(t, key)[k] == m[k] by {
        let a = choose|a: int| 0 <= a < t.len() && #[trigger] key(t[a]) == k;
        lemma_keyed_at(t, key, a);
        let a2 = if a < i { a } else { a + 1 };
        lemma_keyed_at(s, key, a2);
    }
    assert(keyed(t, key) =~= m);
}

} // verus!
