//! Association lists keyed by exact match, with the newest entry winning.
use vstd::prelude::*;

verus! {

/// The map obtained by inserting each pair of `s` into `m`, in order; a later
/// pair for the same key replaces an earlier one.
pub open spec fn insert_all<K, V>(m: Map<K, V>, s: Seq<(K, V)>) -> Map<K, V>
    decreases s.len(),
{
    if s.len() == 0 {
        m
    } else {
        insert_all(m, s.drop_last()).insert(s.last().0, s.last().1)
    }
}

/// Whether some pair of `s` has key `k`.
pub open spec fn has_key<K, V>(s: Seq<(K, V)>, k: K) -> bool {
    exists|i: int| 0 <= i < s.len() && #[trigger] s[i].0 == k
}

/// Keys absent from `s` keep what `m` gave them.
pub proof fn lemma_insert_all_absent<K, V>(m: Map<K, V>, s: Seq<(K, V)>, k: K)
    requires
        !has_key(s, k),
    ensures
        insert_all(m, s).contains_key(k) == m.contains_key(k),
        m.contains_key(k) ==> insert_all(m, s)[k] == m[k],
    decreases s.len(),
{
    if s.len() > 0 {
        assert(s.last().0 == s[s.len() - 1].0);
        assert forall|i: int| 0 <= i < s.drop_last().len() implies #[trigger] s.drop_last()[i].0 != k by {
            assert(s.drop_last()[i] == s[i]);
        }
        lemma_insert_all_absent(m, s.drop_last(), k);
    }
}

/// The pair at `i` decides key `k` when no later pair has that key.
pub proof fn lemma_insert_all_last<K, V>(m: Map<K, V>, s: Seq<(K, V)>, i: int, k: K)
    requires
        0 <= i < s.len(),
        s[i].0 == k,
        forall|j: int| i < j < s.len() ==> #[trigger] s[j].0 != k,
    ensures
        insert_all(m, s).contains_key(k),
        insert_all(m, s)[k] == s[i].1,
    decreases s.len(),
{
    if i < s.len() - 1 {
        assert forall|j: int| i < j < s.drop_last().len() implies #[trigger] s.drop_last()[j].0 != k by {
            assert(s.drop_last()[j] == s[j]);
        }
        assert(s.drop_last()[i] == s[i]);
        lemma_insert_all_last(m, s.drop_last(), i, k);
    }
}

/// Every key of `s` ends up with the same value whatever map it is inserted into.
pub proof fn lemma_insert_all_overrides<K, V>(m1: Map<K, V>, m2: Map<K, V>, s: Seq<(K, V)>, k: K)
    requires
        has_key(s, k),
    ensures
        insert_all(m1, s).contains_key(k),
        insert_all(m2, s).contains_key(k),
        insert_all(m1, s)[k] == insert_all(m2, s)[k],
    decreases s.len(),
{
    if s.last().0 != k {
        let i = choose|i: int| 0 <= i < s.len() && #[trigger] s[i].0 == k;
        assert(i < s.len() - 1);
        assert(s.drop_last()[i] == s[i]);
        lemma_insert_all_overrides(m1, m2, s.drop_last(), k);
    }
}

/// Inserting the same pairs a second time changes nothing.
pub proof fn lemma_insert_all_idempotent<K, V>(m: Map<K, V>, s: Seq<(K, V)>)
    ensures
        insert_all(insert_all(m, s), s) == insert_all(m, s),
{
    let once = insert_all(m, s);
    let twice = insert_all(once, s);
    assert forall|k: K| #[trigger] twice.contains_key(k) == once.contains_key(k) && (
    once.contains_key(k) ==> twice[k] == once[k]) by {
        if has_key(s, k) {
            lemma_insert_all_overrides(once, m, s, k);
        } else {
            lemma_insert_all_absent(once, s, k);
        }
    }
    assert(twice =~= once);
}

/// Replacing the value of the last pair with key `k` is one insert into the map.
pub proof fn lemma_insert_all_update<K, V>(m: Map<K, V>, s: Seq<(K, V)>, i: int, v: V)
    requires
        0 <= i < s.len(),
        forall|j: int| i < j < s.len() ==> #[trigger] s[j].0 != s[i].0,
    ensures
        insert_all(m, s.update(i, (s[i].0, v))) == insert_all(m, s).insert(s[i].0, v),
    decreases s.len(),
{
    let k = s[i].0;
    let t = s.update(i, (k, v));
    if i == s.len() - 1 {
        assert(t.drop_last() =~= s.drop_last());
        assert(insert_all(m, t) =~= insert_all(m, s).insert(k, v));
    } else {
        assert(t.drop_last() =~= s.drop_last().update(i, (k, v)));
        assert(s.last().0 == s[s.len() - 1].0);
        assert forall|j: int| i < j < s.drop_last().len() implies #[trigger] s.drop_last()[j].0 != k by {
            assert(s.drop_last()[j] == s[j]);
        }
        lemma_insert_all_update(m, s.drop_last(), i, v);
        assert(insert_all(m, t) =~= insert_all(m, s).insert(k, v));
    }
}

} // verus!
