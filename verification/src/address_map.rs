//! A table of records keyed by identity.

use crate::address::Address;
use vstd::prelude::*;

verus! {

struct Entry<V> {
    key: Address,
    value: V,
}

/// A finite map from identities to records of type `V`, with at most one
/// record per identity.
///
/// Its model is the map from the text of each stored key to the view of its
/// record.
pub struct AddressMap<V: View> {
    entries: Vec<Entry<V>>,
}

spec fn keys_are_distinct<V>(entries: Seq<Entry<V>>) -> bool {
    forall|i: int, j: int|
        0 <= i < j < entries.len() ==> (#[trigger] entries[i]).key@ != (#[trigger] entries[j]).key@
}

spec fn holds_at<V>(entries: Seq<Entry<V>>, id: Seq<char>, i: int) -> bool {
    0 <= i < entries.len() && entries[i].key@ == id
}

spec fn slot_of<V>(entries: Seq<Entry<V>>, id: Seq<char>) -> Option<int> {
    if exists|i: int| holds_at(entries, id, i) {
        Some(choose|i: int| holds_at(entries, id, i))
    } else {
        None
    }
}

spec fn model_of<V: View>(entries: Seq<Entry<V>>) -> Map<Seq<char>, V::V> {
    Map::new(
        |id: Seq<char>| slot_of(entries, id) is Some,
        |id: Seq<char>| entries[slot_of(entries, id).unwrap()].value@,
    )
}

/// With distinct keys, the slot of a key is the one place that holds it.
proof fn lemma_slot_is_unique<V>(entries: Seq<Entry<V>>, id: Seq<char>, i: int)
    requires
        keys_are_distinct(entries),
        holds_at(entries, id, i),
    ensures
        slot_of(entries, id) == Some(i),
{
}

/// A key that no place holds has no slot.
proof fn lemma_absent_has_no_slot<V>(entries: Seq<Entry<V>>, id: Seq<char>)
    requires
        forall|i: int| 0 <= i < entries.len() ==> (#[trigger] entries[i]).key@ != id,
    ensures
        slot_of(entries, id) is None,
{
    assert forall|i: int| !holds_at(entries, id, i) by {}
}

impl<V: View> View for AddressMap<V> {
    type V = Map<Seq<char>, V::V>;

    closed spec fn view(&self) -> Map<Seq<char>, V::V> {
        model_of(self.entries@)
    }
}

impl<V: View> AddressMap<V> {
    #[verifier::type_invariant]
    spec fn well_formed(&self) -> bool {
        keys_are_distinct(self.entries@)
    }

    /// The table without any record.
    pub fn new() -> (table: Self)
        ensures
            table@ == Map::<Seq<char>, V::V>::empty(),
    {
        let table = AddressMap { entries: Vec::new() };
        proof {
            assert forall|id: Seq<char>| slot_of(table.entries@, id) is None by {
                lemma_absent_has_no_slot(table.entries@, id);
            }
        }
        table
    }

    fn find(&self, key: &Address) -> (slot: Option<usize>)
        ensures
            slot_of(self.entries@, key@) == match slot {
                Some(i) => Some(i as int),
                None => None,
            },
            slot matches Some(i) ==> holds_at(self.entries@, key@, i as int),
            slot is None ==> forall|i: int|
                0 <= i < self.entries@.len() ==> (#[trigger] self.entries@[i]).key@ != key@,
    {
        proof {
            use_type_invariant(self);
        }
        let mut i: usize = 0;
        while i < self.entries.len()
            invariant
                i <= self.entries@.len(),
                keys_are_distinct(self.entries@),
                forall|j: int| 0 <= j < i ==> (#[trigger] self.entries@[j]).key@ != key@,
            decreases self.entries@.len() - i,
        {
            if self.entries[i].key.same_as(key) {
                proof {
                    lemma_slot_is_unique(self.entries@, key@, i as int);
                }
                return Some(i);
            }
            i += 1;
        }
        proof {
            lemma_absent_has_no_slot(self.entries@, key@);
        }
        None
    }

    /// Whether a record is stored for `key`.
    pub fn contains_key(&self, key: &Address) -> (present: bool)
        ensures
            present == self@.contains_key(key@),
    {
        self.find(key).is_some()
    }

    /// The record stored for `key`, if there is one.
    pub fn get(&self, key: &Address) -> (found: Option<&V>)
        ensures
            match found {
                Some(value) => self@.contains_key(key@) && self@[key@] == value@,
                None => !self@.contains_key(key@),
            },
    {
        match self.find(key) {
            Some(i) => Some(&self.entries[i].value),
            None => None,
        }
    }

    /// Stores `value` for `key`, in place of the record that was there.
    pub fn insert(&mut self, key: Address, value: V)
        ensures
            final(self)@ == old(self)@.insert(key@, value@),
    {
        proof {
            use_type_invariant(&*self);
        }
        let ghost id = key@;
        let ghost before = self.entries@;
        let slot = self.find(&key);
        let mut entries: Vec<Entry<V>> = Vec::new();
        core::mem::swap(&mut self.entries, &mut entries);
        match slot {
            Some(i) => {
                entries.set(i, Entry { key, value });
            },
            None => {
                entries.push(Entry { key, value });
            },
        }
        proof {
            let after = entries@;
            let place = match slot {
                Some(i) => i as int,
                None => before.len() as int,
            };
            lemma_slot_is_unique(after, id, place);
            assert forall|other: Seq<char>| other != id implies slot_of(after, other) == slot_of(
                before,
                other,
            ) by {
                if exists|j: int| holds_at(before, other, j) {
                    let j = choose|j: int| holds_at(before, other, j);
                    lemma_slot_is_unique(after, other, j);
                } else {
                    assert forall|j: int| !holds_at(after, other, j) by {
                        if holds_at(after, other, j) {
                            assert(holds_at(before, other, j));
                        }
                    }
                }
            }
        }
        self.entries = entries;
    }
}

} // verus!
