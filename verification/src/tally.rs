//! Sums over finite maps of amounts, and how they change when one entry does.

use vstd::prelude::*;

verus! {

/// The sum of all the amounts that a finite map holds.
pub open spec fn sum_of<K>(m: Map<K, nat>) -> nat
    decreases m.dom().len(),
    when m.dom().finite()
{
    if m.dom().len() == 0 {
        0
    } else {
        let k = m.dom().choose();
        m[k] + sum_of(m.remove(k))
    }
}

/// The amount recorded under `k`, an absent entry counting as zero.
pub open spec fn amount_at<K>(m: Map<K, nat>, k: K) -> nat {
    if m.contains_key(k) {
        m[k]
    } else {
        0
    }
}

/// The empty map sums to zero.
pub proof fn lemma_sum_empty<K>()
    ensures
        sum_of(Map::<K, nat>::empty()) == 0,
{
}

/// Any one entry can be split off the sum.
pub proof fn lemma_sum_remove<K>(m: Map<K, nat>, k: K)
    requires
        m.dom().finite(),
        m.contains_key(k),
    ensures
        sum_of(m) == m[k] + sum_of(m.remove(k)),
    decreases m.dom().len(),
{
    let c = m.dom().choose();
    if c != k {
        lemma_sum_remove(m.remove(c), k);
        lemma_sum_remove(m.remove(k), c);
        assert(m.remove(c).remove(k) =~= m.remove(k).remove(c));
    }
}

/// Writing `v` under `k` replaces the old amount there, if any, by `v` in the sum.
pub proof fn lemma_sum_insert<K>(m: Map<K, nat>, k: K, v: nat)
    requires
        m.dom().finite(),
    ensures
        sum_of(m.insert(k, v)) + amount_at(m, k) == sum_of(m) + v,
{
    lemma_sum_remove(m.insert(k, v), k);
    if m.contains_key(k) {
        lemma_sum_remove(m, k);
        assert(m.insert(k, v).remove(k) =~= m.remove(k));
    } else {
        assert(m.insert(k, v).remove(k) =~= m);
    }
}

/// No single amount exceeds the sum.
pub proof fn lemma_sum_bounds_entry<K>(m: Map<K, nat>, k: K)
    requires
        m.dom().finite(),
    ensures
        amount_at(m, k) <= sum_of(m),
{
    if m.contains_key(k) {
        lemma_sum_remove(m, k);
    }
}

/// Two different entries together do not exceed the sum.
pub proof fn lemma_sum_bounds_pair<K>(m: Map<K, nat>, a: K, b: K)
    requires
        m.dom().finite(),
        a != b,
    ensures
        amount_at(m, a) + amount_at(m, b) <= sum_of(m),
{
    if m.contains_key(a) {
        lemma_sum_remove(m, a);
        lemma_sum_bounds_entry(m.remove(a), b);
    } else {
        lemma_sum_bounds_entry(m, b);
    }
}

} // verus!
