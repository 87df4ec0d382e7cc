//! The ledger store: a map from structured keys to records.
//!
//! Every contract of this crate keeps its state in a `LedgerStore`. The store
//! is an association list whose keys are pairwise distinct. To the outside it
//! is the finite map that `view` gives: from the views of the keys to the
//! views of the records filed under them.

use vstd::prelude::*;

verus! {

/// A key under which a ledger store files a record.
///
/// The view of a key is what identifies the slot: two keys with the same view
/// address the same record.
pub trait StoreKey: View + Sized {
    /// Whether `self` and `other` address the same slot.
    fn same_key(&self, other: &Self) -> (same: bool)
        ensures
            same == (self@ == other@),
    ;
}

/// One slot of a ledger store.
struct Entry<K, V> {
    key: K,
    value: V,
}

/// A map from keys to records. What an absent key stands for is up to the
/// reader of the store.
pub struct LedgerStore<K: StoreKey, V: View> {
    entries: Vec<Entry<K, V>>,
}

/// Whether `at` is a slot of `entries` that is filed under `key`.
spec fn filed_at<K: StoreKey, V>(entries: Seq<Entry<K, V>>, key: K::V, at: int) -> bool {
    0 <= at < entries.len() && entries[at].key@ == key
}

impl<K: StoreKey, V: View> View for LedgerStore<K, V> {
    type V = Map<K::V, V::V>;

    closed spec fn view(&self) -> Map<K::V, V::V> {
        Map::new(
            |key: K::V| exists|at: int| filed_at(self.entries@, key, at),
            |key: K::V| self.entries@[choose|at: int| filed_at(self.entries@, key, at)].value@,
        )
    }
}

impl<K: StoreKey, V: View> LedgerStore<K, V> {
    /// No two slots are filed under the same key.
    #[verifier::type_invariant]
    spec fn keys_distinct(self) -> bool {
        forall|i: int, j: int|
            0 <= i < j < self.entries@.len() ==> self.entries@[i].key@ != self.entries@[j].key@
    }

    /// The store that holds no record.
    pub fn new() -> (store: Self)
        ensures
            store@ == Map::<K::V, V::V>::empty(),
    {
        let store = LedgerStore { entries: Vec::new() };
        assert(store@ =~= Map::<K::V, V::V>::empty());
        store
    }

    /// Whether a record is filed under `key`.
    pub fn has(&self, key: &K) -> (present: bool)
        ensures
            present == self@.contains_key(key@),
    {
        self.get(key).is_some()
    }

    /// The record filed under `key`, if there is one.
    pub fn get(&self, key: &K) -> (found: Option<&V>)
        ensures
            match found {
                Some(value) => self@.contains_key(key@) && value@ == self@[key@],
                None => !self@.contains_key(key@),
            },
    {
        proof {
            use_type_invariant(self);
        }
        match slot_of(&self.entries, key) {
            Some(at) => Some(&self.entries[at].value),
            None => None,
        }
    }

    /// Files `value` under `key`, in place of the record that was there.
    pub fn set(&mut self, key: K, value: V)
        ensures
            final(self)@ == old(self)@.insert(key@, value@),
    {
        proof {
            use_type_invariant(&*self);
        }
        let mut entries: Vec<Entry<K, V>> = Vec::new();
        core::mem::swap(&mut self.entries, &mut entries);
        let ghost before = entries@;
        let ghost slot = before.len() as int;
        match slot_of(&entries, &key) {
            Some(at) => {
                entries.set(at, Entry { key, value });
                proof {
                    slot = at as int;
                }
                assert forall|i: int| 0 <= i < before.len() implies #[trigger] entries@[i].key@
                    == before[i].key@ by {}
            },
            None => {
                entries.push(Entry { key, value });
                assert forall|i: int| 0 <= i < before.len() implies #[trigger] entries@[i].key@
                    != key@ by {
                    assert(!filed_at(before, key@, i));
                }
            },
        }
        let ghost after = entries@;
        self.entries = entries;
        proof {
            assert forall|k: K::V, i: int| filed_at(before, k, i) implies filed_at(after, k, i) by {}
            assert forall|k: K::V, i: int| filed_at(after, k, i) && k != key@ implies filed_at(
                before,
                k,
                i,
            ) by {}
            assert(filed_at(after, key@, slot));
            assert(self@ =~= old(self)@.insert(key@, value@));
        }
    }
}

/// Looks for the slot of `entries` that is filed under `key`.
fn slot_of<K: StoreKey, V>(entries: &Vec<Entry<K, V>>, key: &K) -> (found: Option<usize>)
    ensures
        match found {
            Some(at) => filed_at(entries@, key@, at as int),
            None => forall|at: int| !filed_at(entries@, key@, at),
        },
{
    let mut at: usize = 0;
    while at < entries.len()
        invariant
            at <= entries@.len(),
            forall|j: int| 0 <= j < at ==> !filed_at(entries@, key@, j),
        decreases entries@.len() - at,
    {
        if entries[at].key.same_key(key) {
            return Some(at);
        }
        at += 1;
    }
    None
}

} // verus!
