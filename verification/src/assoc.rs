//! Association lists with distinct keys, read as finite maps.
use vstd::prelude::*;

verus! {

/// No key occurs twice.
pub open spec fn keys_distinct<K, V>(es: Seq<(K, V)>) -> bool {
    forall|i: int, j: int| 0 <= i < es.len() && 0 <= j < es.len() && i != j ==> #[trigger] es[i].0 != #[trigger] es[j].0
}

/// Some entry has key `k`.
pub open spec fn has_key<K, V>(es: Seq<(K, V)>, k: K) -> bool {
    exists|i: int| 0 <= i < es.len() && #[trigger] es[i].0 == k
}

/// The map an association list stands for.
pub open spec fn assoc_map<K, V>(es: Seq<(K, V)>) -> Map<K, V> {
    Map::new(|k: K| has_key(es, k), |k: K| es[choose|i: int| 0 <= i < es.len() && #[trigger] es[i].0 == k].1)
}

pub proof fn lemma_assoc_lookup<K, V>(es: Seq<(K, V)>, i: int)
    requires
        keys_distinct(es),
        0 <= i < es.len(),
    ensures
        assoc_map(es).contains_key(es[i].0),
        assoc_map(es)[es[i].0] == es[i].1,
{
    let k = es[i].0;
    assert(has_key(es, k));
    let j = choose|j: int| 0 <= j < es.len() && #[trigger] es[j].0 == k;
    assert(j == i);
}

pub proof fn lemma_assoc_empty<K, V>()
    ensures
        assoc_map(Seq::<(K, V)>::empty()) == Map::<K, V>::empty(),
        keys_distinct(Seq::<(K, V)>::empty()),
{
    assert(assoc_map(Seq::<(K, V)>::empty()) =~= Map::<K, V>::empty());
}

pub proof fn lemma_assoc_push<K, V>(es: Seq<(K, V)>, k: K, v: V)
    requires
        keys_distinct(es),
        !has_key(es, k),
    ensures
        keys_distinct(es.push((k, v))),
        assoc_map(es.push((k, v))) == assoc_map(es).insert(k, v),
{
    let es2 = es.push((k, v));
    assert forall|i: int, j: int| 0 <= i < es2.len() && 0 <= j < es2.len() && i != j implies #[trigger] es2[i].0 != #[trigger] es2[j].0 by {
        if i < es.len() && j < es.len() {
            assert(es2[i] == es[i] && es2[j] == es[j]);
        } else if i < es.len() {
            assert(es2[i] == es[i]);
        } else {
            assert(es2[j] == es[j]);
        }
    }
    let m = assoc_map(es).insert(k, v);
    assert forall|k2: K| #[trigger] assoc_map(es2).contains_key(k2) == m.contains_key(k2) by {
        if has_key(es2, k2) {
            let i = choose|i: int| 0 <= i < es2.len() && #[trigger] es2[i].0 == k2;
            if i < es.len() {
                assert(es[i].0 == k2);
            }
        }
        if has_key(es, k2) {
            let i = choose|i: int| 0 <= i < es.len() && #[trigger] es[i].0 == k2;
            assert(es2[i].0 == k2);
        }
        if k2 == k {
            assert(es2[es.len() as int].0 == k);
        }
    }
    assert forall|k2: K| #[trigger] assoc_map(es2).contains_key(k2) implies assoc_map(es2)[k2] == m[k2] by {
        let i = choose|i: int| 0 <= i < es2.len() && #[trigger] es2[i].0 == k2;
        lemma_assoc_lookup(es2, i);
        if i < es.len() {
            assert(es2[i] == es[i]);
            lemma_assoc_lookup(es, i);
        }
    }
    assert(assoc_map(es2) =~= m);
}

pub proof fn lemma_assoc_update<K, V>(es: Seq<(K, V)>, i: int, v: V)
    requires
        keys_distinct(es),
        0 <= i < es.len(),
    ensures
        keys_distinct(es.update(i, (es[i].0, v))),
        assoc_map(es.update(i, (es[i].0, v))) == assoc_map(es).insert(es[i].0, v),
{
    let k = es[i].0;
    let es2 = es.update(i, (k, v));
    assert forall|a: int, b: int| 0 <= a < es2.len() && 0 <= b < es2.len() && a != b implies #[trigger] es2[a].0 != #[trigger] es2[b].0 by {
        assert(es2[a].0 == es[a].0 && es2[b].0 == es[b].0);
    }
    let m = assoc_map(es).insert(k, v);
    assert forall|k2: K| #[trigger] assoc_map(es2).contains_key(k2) == m.contains_key(k2) by {
        if has_key(es2, k2) {
            let a = choose|a: int| 0 <= a < es2.len() && #[trigger] es2[a].0 == k2;
            assert(es[a].0 == k2);
        }
        if has_key(es, k2) {
            let a = choose|a: int| 0 <= a < es.len() && #[trigger] es[a].0 == k2;
            assert(es2[a].0 == k2);
        }
        if k2 == k {
            assert(es[i].0 == k);
        }
    }
    assert forall|k2: K| #[trigger] assoc_map(es2).contains_key(k2) implies assoc_map(es2)[k2] == m[k2] by {
        let a = choose|a: int| 0 <= a < es2.len() && #[trigger] es2[a].0 == k2;
        lemma_assoc_lookup(es2, a);
        if a != i {
            assert(es2[a] == es[a]);
            lemma_assoc_lookup(es, a);
        }
    }
    assert(assoc_map(es2) =~= m);
}

pub proof fn lemma_assoc_remove<K, V>(es: Seq<(K, V)>, i: int)
    requires
        keys_distinct(es),
        0 <= i < es.len(),
    ensures
        keys_distinct(es.remove(i)),
        assoc_map(es.remove(i)) == assoc_map(es).remove(es[i].0),
{
    let k = es[i].0;
    let es2 = es.remove(i);
    assert forall|a: int| 0 <= a < es2.len() implies #[trigger] es2[a] == es[if a < i { a } else { a + 1 }] by {}
    assert forall|a: int, b: int| 0 <= a < es2.len() && 0 <= b < es2.len() && a != b implies #[trigger] es2[a].0 != #[trigger] es2[b].0 by {
        let a2 = if a < i { a } else { a + 1 };
        let b2 = if b < i { b } else { b + 1 };
        assert(es2[a] == es[a2] && es2[b] == es[b2]);
    }
    let m = assoc_map(es).remove(k);
    assert forall|k2: K| #[trigger] assoc_map(es2).contains_key(k2) == m.contains_key(k2) by {
        if has_key(es2, k2) {
            let a = choose|a: int| 0 <= a < es2.len() && #[trigger] es2[a].0 == k2;
            let a2 = if a < i { a } else { a + 1 };
            assert(es2[a] == es[a2]);
            assert(es[a2].0 == k2);
            assert(a2 != i);
        }
        if has_key(es, k2) && k2 != k {
            let a = choose|a: int| 0 <= a < es.len() && #[trigger] es[a].0 == k2;
            assert(a != i);
            let a2 = if a < i { a } else { a - 1 };
            assert(es2[a2] == es[a]);
            assert(es2[a2].0 == k2);
        }
    }
    assert forall|k2: K| #[trigger] assoc_map(es2).contains_key(k2) implies assoc_map(es2)[k2] == m[k2] by {
        let a = choose|a: int| 0 <= a < es2.len() && #[trigger] es2[a].0 == k2;
        lemma_assoc_lookup(es2, a);
        let a2 = if a < i { a } else { a + 1 };
        assert(es2[a] == es[a2]);
        lemma_assoc_lookup(es, a2);
    }
    assert(assoc_map(es2) =~= m);
}

/// Without an entry for `k`, the map has no key `k`.
pub proof fn lemma_assoc_absent<K, V>(es: Seq<(K, V)>, k: K)
    requires
        !has_key(es, k),
    ensures
        !assoc_map(es).contains_key(k),
{
}

} // verus!
