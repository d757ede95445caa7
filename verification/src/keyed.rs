use vstd::prelude::*;

verus! {

/// No key occurs twice in the sequence of entries.
pub open spec fn keys_distinct<K, X>(s: Seq<(K, X)>) -> bool {
    forall|i: int, j: int| 0 <= i < j < s.len() ==> (#[trigger] s[i]).0 != (#[trigger] s[j]).0
}

/// Some entry has key `k`.
pub open spec fn has_key<K, X>(s: Seq<(K, X)>, k: K) -> bool {
    exists|i: int| 0 <= i < s.len() && (#[trigger] s[i]).0 == k
}

/// The value stored under `k` (meaningful when `has_key(s, k)`).
pub open spec fn value_at<K, X>(s: Seq<(K, X)>, k: K) -> X {
    s[choose|i: int| 0 <= i < s.len() && (#[trigger] s[i]).0 == k].1
}

/// The entries read as a map from key to value.
pub open spec fn as_map<K, X>(s: Seq<(K, X)>) -> Map<K, X> {
    Map::new(|k: K| has_key(s, k), |k: K| value_at(s, k))
}

/// With distinct keys, the value under the key of entry `i` is the value of entry `i`.
pub proof fn lemma_value_at_index<K, X>(s: Seq<(K, X)>, i: int)
    requires
        keys_distinct(s),
        0 <= i < s.len(),
    ensures
        has_key(s, s[i].0),
        value_at(s, s[i].0) == s[i].1,
        as_map(s).contains_key(s[i].0),
        as_map(s)[s[i].0] == s[i].1,
{
    let k = s[i].0;
    assert(has_key(s, k));
    let j = choose|j: int| 0 <= j < s.len() && (#[trigger] s[j]).0 == k;
    if j != i {
        if j < i {
            assert(s[j].0 != s[i].0);
        } else {
            assert(s[i].0 != s[j].0);
        }
    }
}

/// Appending an entry under a new key adds that key to the map.
pub proof fn lemma_push<K, X>(s: Seq<(K, X)>, k: K, x: X)
    requires
        keys_distinct(s),
        !has_key(s, k),
    ensures
        keys_distinct(s.push((k, x))),
        as_map(s.push((k, x))) == as_map(s).insert(k, x),
{
    let t = s.push((k, x));
    assert forall|i: int, j: int| 0 <= i < j < t.len() implies (#[trigger] t[i]).0 != (#[trigger] t[j]).0 by {
        if j < s.len() {
            assert(s[i].0 != s[j].0);
        } else {
            assert(s[i].0 != k);
        }
    }
    assert forall|q: K| #[trigger] has_key(t, q) == (has_key(s, q) || q == k) by {
        if has_key(s, q) {
            let i = choose|i: int| 0 <= i < s.len() && (#[trigger] s[i]).0 == q;
            assert(t[i].0 == q);
        }
        if q == k {
            assert(t[s.len() as int].0 == q);
        }
        if has_key(t, q) {
            let i = choose|i: int| 0 <= i < t.len() && (#[trigger] t[i]).0 == q;
            if i < s.len() {
                assert(s[i].0 == q);
            }
        }
    }
    assert forall|q: K| #[trigger] has_key(t, q) implies value_at(t, q) == as_map(s).insert(k, x)[q] by {
        if q == k {
            lemma_value_at_index(t, s.len() as int);
        } else {
            let i = choose|i: int| 0 <= i < s.len() && (#[trigger] s[i]).0 == q;
            assert(t[i] == s[i]);
            lemma_value_at_index(t, i);
            lemma_value_at_index(s, i);
        }
    }
    assert(as_map(t) =~= as_map(s).insert(k, x));
}

/// Replacing the value of entry `i` replaces the value under its key.
pub proof fn lemma_update<K, X>(s: Seq<(K, X)>, i: int, x: X)
    requires
        keys_distinct(s),
        0 <= i < s.len(),
    ensures
        keys_distinct(s.update(i, (s[i].0, x))),
        as_map(s.update(i, (s[i].0, x))) == as_map(s).insert(s[i].0, x),
{
    let k = s[i].0;
    let t = s.update(i, (k, x));
    assert forall|a: int, b: int| 0 <= a < b < t.len() implies (#[trigger] t[a]).0 != (#[trigger] t[b]).0 by {
        assert(s[a].0 != s[b].0);
    }
    assert forall|q: K| #[trigger] has_key(t, q) == has_key(s, q) by {
        if has_key(s, q) {
            let j = choose|j: int| 0 <= j < s.len() && (#[trigger] s[j]).0 == q;
            assert(t[j].0 == q);
        }
        if has_key(t, q) {
            let j = choose|j: int| 0 <= j < t.len() && (#[trigger] t[j]).0 == q;
            assert(s[j].0 == q);
        }
    }
    assert(has_key(s, k)) by {
        assert(s[i].0 == k);
    }
    assert forall|q: K| #[trigger] has_key(t, q) implies value_at(t, q) == as_map(s).insert(k, x)[q] by {
        let j = choose|j: int| 0 <= j < s.len() && (#[trigger] s[j]).0 == q;
        lemma_value_at_index(t, j);
        lemma_value_at_index(s, j);
        if j != i {
            assert(q != k);
        }
    }
    assert(as_map(t) =~= as_map(s).insert(k, x));
}

/// Removing entry `i` removes its key from the map.
pub proof fn lemma_remove<K, X>(s: Seq<(K, X)>, i: int)
    requires
        keys_distinct(s),
        0 <= i < s.len(),
    ensures
        keys_distinct(s.remove(i)),
        as_map(s.remove(i)) == as_map(s).remove(s[i].0),
{
    let k = s[i].0;
    let t = s.remove(i);
    assert forall|a: int, b: int| 0 <= a < b < t.len() implies (#[trigger] t[a]).0 != (#[trigger] t[b]).0 by {
        let a2 = if a < i { a } else { a + 1 };
        let b2 = if b < i { b } else { b + 1 };
        assert(t[a] == s[a2]);
        assert(t[b] == s[b2]);
        assert(s[a2].0 != s[b2].0);
    }
    assert forall|q: K| #[trigger] has_key(t, q) == (has_key(s, q) && q != k) by {
        if has_key(t, q) {
            let j = choose|j: int| 0 <= j < t.len() && (#[trigger] t[j]).0 == q;
            let j2 = if j < i { j } else { j + 1 };
            assert(t[j] == s[j2]);
            assert(s[j2].0 == q);
            if q == k {
                assert(s[j2].0 == s[i].0);
            }
        }
        if has_key(s, q) && q != k {
            let j = choose|j: int| 0 <= j < s.len() && (#[trigger] s[j]).0 == q;
            assert(j != i);
            let j2 = if j < i { j } else { j - 1 };
            assert(t[j2] == s[j]);
        }
    }
    assert forall|q: K| #[trigger] has_key(t, q) implies value_at(t, q) == as_map(s)[q] by {
        let j = choose|j: int| 0 <= j < t.len() && (#[trigger] t[j]).0 == q;
        let j2 = if j < i { j } else { j + 1 };
        assert(t[j] == s[j2]);
        lemma_value_at_index(t, j);
        lemma_value_at_index(s, j2);
    }
    assert(as_map(t) =~= as_map(s).remove(k));
}

} // verus!
