//! A store of records keyed by wallet.

use vstd::prelude::*;
use crate::wallet::Wallet;

verus! {

struct Slot<V> {
    key: Wallet,
    value: V,
}

/// Records of one kind, at most one for each wallet.
///
/// The view of a store is the map from the wallets that have a record to what their
/// records say.
pub struct Store<V> {
    slots: Vec<Slot<V>>,
}

impl<V: View> View for Store<V> {
    type V = Map<Seq<char>, V::V>;

    closed spec fn view(&self) -> Map<Seq<char>, V::V> {
        Map::new(|key: Seq<char>| self.holds(key), |key: Seq<char>| self.slots@[self.slot_of(key)].value@)
    }
}

impl<V> Store<V> {
    /// No two slots are for the same wallet.
    #[verifier::type_invariant]
    spec fn distinct(self) -> bool {
        forall|i: int, j: int|
            0 <= i < j < self.slots@.len() ==> self.slots@[i].key@ != self.slots@[j].key@
    }
}

impl<V: View> Store<V> {
    spec fn holds(self, key: Seq<char>) -> bool {
        exists|i: int| 0 <= i < self.slots@.len() && self.slots@[i].key@ == key
    }

    spec fn slot_of(self, key: Seq<char>) -> int {
        choose|i: int| 0 <= i < self.slots@.len() && self.slots@[i].key@ == key
    }

    /// A store without records.
    pub fn new() -> (store: Store<V>)
        ensures
            store@ == Map::<Seq<char>, V::V>::empty(),
    {
        let store = Store { slots: Vec::new() };
        assert(store@ =~= Map::<Seq<char>, V::V>::empty());
        store
    }

    fn position(&self, key: &Wallet) -> (at: Option<usize>)
        ensures
            match at {
                Some(i) => i < self.slots@.len() && self.slots@[i as int].key@ == key@,
                None => forall|i: int| 0 <= i < self.slots@.len() ==> self.slots@[i].key@ != key@,
            },
    {
        let mut i: usize = 0;
        while i < self.slots.len()
            invariant
                i <= self.slots@.len(),
                forall|j: int| 0 <= j < i ==> self.slots@[j].key@ != key@,
            decreases self.slots@.len() - i,
        {
            if self.slots[i].key == *key {
                return Some(i);
            }
            i += 1;
        }
        None
    }

    /// Whether `key` has a record.
    pub fn has(&self, key: &Wallet) -> (found: bool)
        ensures
            found == self@.contains_key(key@),
    {
        self.position(key).is_some()
    }

    /// The record of `key`, if it has one.
    pub fn get(&self, key: &Wallet) -> (found: Option<&V>)
        ensures
            match found {
                Some(value) => self@.contains_key(key@) && value@ == self@[key@],
                None => !self@.contains_key(key@),
            },
    {
        proof {
            use_type_invariant(self);
        }
        match self.position(key) {
            Some(i) => Some(&self.slots[i].value),
            None => None,
        }
    }

    /// Writes `value` as the record of `key`, in place of the one it had, if any.
    pub fn set(&mut self, key: Wallet, value: V)
        ensures
            final(self)@ == old(self)@.insert(key@, value@),
    {
        proof {
            use_type_invariant(&*self);
        }
        let at = self.position(&key);
        let ghost before = *self;
        let mut slots = Vec::new();
        std::mem::swap(&mut slots, &mut self.slots);
        match at {
            Some(i) => {
                slots.set(i, Slot { key, value });
            },
            None => {
                slots.push(Slot { key, value });
            },
        }
        self.slots = slots;
        proof {
            let after = *self;
            assert forall|k: Seq<char>| after.holds(k) == (before.holds(k) || k == key@) by {
                if before.holds(k) {
                    let i = before.slot_of(k);
                    assert(after.slots@[i].key@ == k);
                }
                if k == key@ {
                    match at {
                        Some(i) => assert(after.slots@[i as int].key@ == k),
                        None => assert(after.slots@[before.slots@.len() as int].key@ == k),
                    }
                }
                if after.holds(k) && k != key@ {
                    let i = after.slot_of(k);
                    assert(before.slots@[i].key@ == k);
                }
            }
            assert forall|k: Seq<char>| after.holds(k) implies after@[k] == old(self)@.insert(
                key@,
                value@,
            )[k] by {
                let i = after.slot_of(k);
                if k != key@ {
                    assert(before.slots@[i].key@ == k);
                    assert(before.slot_of(k) == i);
                }
            }
            assert(after@ =~= old(self)@.insert(key@, value@));
        }
    }
}

} // verus!
