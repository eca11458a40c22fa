use vstd::prelude::*;

verus! {

/// The amount that a map records for a key, zero where it records none.
pub open spec fn amount_at<K>(m: Map<K, u128>, k: K) -> u128 {
    if m.contains_key(k) {
        m[k]
    } else {
        0
    }
}

/// The sum of all amounts that a finite map records.
pub open spec fn total_of<K>(m: Map<K, u128>) -> int
    decreases m.dom().len(),
{
    if m.dom().finite() && m.dom().len() > 0 {
        let k = m.dom().choose();
        m[k] + total_of(m.remove(k))
    } else {
        0
    }
}

/// The empty map sums to zero.
pub proof fn lemma_total_of_empty<K>()
    ensures
        total_of(Map::<K, u128>::empty()) == 0,
{
    assert(Map::<K, u128>::empty().dom().len() == 0);
}

/// Any one entry can be taken out of the sum.
pub proof fn lemma_total_of_remove<K>(m: Map<K, u128>, k: K)
    requires
        m.dom().finite(),
        m.dom().contains(k),
    ensures
        total_of(m) == m[k] + total_of(m.remove(k)),
    decreases m.dom().len(),
{
    let c = m.dom().choose();
    assert(m.dom().len() > 0);
    if c != k {
        lemma_total_of_remove(m.remove(c), k);
        lemma_total_of_remove(m.remove(k), c);
        assert(m.remove(c).remove(k) =~= m.remove(k).remove(c));
    }
}

/// A sum of amounts is never negative.
pub proof fn lemma_total_of_nonneg<K>(m: Map<K, u128>)
    requires
        m.dom().finite(),
    ensures
        total_of(m) >= 0,
    decreases m.dom().len(),
{
    if m.dom().len() > 0 {
        let k = m.dom().choose();
        lemma_total_of_nonneg(m.remove(k));
    }
}

/// One entry is at most the sum of all entries.
pub proof fn lemma_amount_at_most_total<K>(m: Map<K, u128>, k: K)
    requires
        m.dom().finite(),
    ensures
        amount_at(m, k) <= total_of(m),
{
    lemma_total_of_nonneg(m);
    if m.dom().contains(k) {
        lemma_total_of_remove(m, k);
        lemma_total_of_nonneg(m.remove(k));
    }
}

/// Two entries under different keys are together at most the sum.
pub proof fn lemma_two_amounts_at_most_total<K>(m: Map<K, u128>, a: K, b: K)
    requires
        m.dom().finite(),
        a != b,
    ensures
        amount_at(m, a) + amount_at(m, b) <= total_of(m),
{
    if m.dom().contains(a) {
        lemma_total_of_remove(m, a);
        lemma_amount_at_most_total(m.remove(a), b);
        assert(amount_at(m.remove(a), b) == amount_at(m, b));
    } else {
        lemma_amount_at_most_total(m, b);
    }
}

/// Writing an amount changes the sum by the difference to what was there.
pub proof fn lemma_total_of_insert<K>(m: Map<K, u128>, k: K, v: u128)
    requires
        m.dom().finite(),
    ensures
        m.insert(k, v).dom().finite(),
        total_of(m.insert(k, v)) == total_of(m) - amount_at(m, k) + v,
{
    let n = m.insert(k, v);
    lemma_total_of_remove(n, k);
    if m.dom().contains(k) {
        lemma_total_of_remove(m, k);
        assert(n.remove(k) =~= m.remove(k));
    } else {
        assert(n.remove(k) =~= m);
    }
}

} // verus!
