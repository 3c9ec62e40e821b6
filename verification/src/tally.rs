//! The sum of the numbers in a finite map, and how it follows a change of
//! one entry.

use vstd::prelude::*;

verus! {

/// The sum of all the numbers that `entries` holds.
pub open spec fn total<K>(entries: Map<K, nat>) -> nat
    decreases entries.dom().len(),
    when entries.dom().finite()
{
    if entries.dom().len() == 0 {
        0
    } else {
        let key = entries.dom().choose();
        entries[key] + total(entries.remove(key))
    }
}

/// A map without entries sums to zero.
pub proof fn lemma_total_of_nothing<K>()
    ensures
        total(Map::<K, nat>::empty()) == 0,
{
    assert(Map::<K, nat>::empty().dom() =~= Set::<K>::empty());
}

/// Any one entry can be taken out of the sum first.
pub proof fn lemma_total_without<K>(entries: Map<K, nat>, key: K)
    requires
        entries.dom().finite(),
        entries.dom().contains(key),
    ensures
        total(entries) == entries[key] + total(entries.remove(key)),
    decreases entries.dom().len(),
{
    let first = entries.dom().choose();
    if first != key {
        let rest = entries.remove(first);
        lemma_total_without(rest, key);
        lemma_total_without(entries.remove(key), first);
        assert(rest.remove(key) =~= entries.remove(key).remove(first));
    }
}

/// Writing one entry changes the sum by the difference between what is
/// written and what stood there before.
pub proof fn lemma_total_after_write<K>(entries: Map<K, nat>, key: K, number: nat)
    requires
        entries.dom().finite(),
    ensures
        total(entries.insert(key, number)) + (if entries.dom().contains(key) {
            entries[key]
        } else {
            0
        }) == total(entries) + number,
{
    let written = entries.insert(key, number);
    lemma_total_without(written, key);
    if entries.dom().contains(key) {
        lemma_total_without(entries, key);
        assert(written.remove(key) =~= entries.remove(key));
    } else {
        assert(written.remove(key) =~= entries);
    }
}

} // verus!
