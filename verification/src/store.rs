//! The value slot store: at most one owned value per type key.

use crate::key::TypeKey;
use std::collections::HashMap;
use vstd::prelude::*;

verus! {

/// A mapping from type key to one owned value.
///
/// Its view is the mathematical map from keys to the values stored under
/// them. Writing a key replaces what was there; nothing accumulates.
pub struct ValueStore<V> {
    slots: HashMap<u64, V>,
}

impl<V> ValueStore<V> {
    /// The slots as a map from type key to stored value.
    pub closed spec fn view(&self) -> Map<TypeKey, V> {
        Map::new(
            |key: TypeKey| self.slots@.contains_key(key.raw),
            |key: TypeKey| self.slots@[key.raw],
        )
    }

    /// A store with no slot filled.
    pub fn new() -> (store: Self)
        ensures
            store@ == Map::<TypeKey, V>::empty(),
    {
        let store = ValueStore { slots: HashMap::new() };
        assert(store@ =~= Map::<TypeKey, V>::empty());
        store
    }

    /// The value stored under `key`, if there is one.
    pub fn get(&self, key: TypeKey) -> (found: Option<&V>)
        ensures
            found == (if self@.contains_key(key) {
                Some(&self@[key])
            } else {
                None
            }),
    {
        broadcast use vstd::std_specs::hash::group_hash_axioms;

        self.slots.get(&key.raw)
    }

    /// Whether a value is stored under `key`.
    pub fn contains(&self, key: TypeKey) -> (present: bool)
        ensures
            present == self@.contains_key(key),
    {
        broadcast use vstd::std_specs::hash::group_hash_axioms;

        self.slots.contains_key(&key.raw)
    }

    /// Stores `value` under `key`, replacing any value stored there before.
    pub fn set(&mut self, key: TypeKey, value: V)
        ensures
            final(self)@ == old(self)@.insert(key, value),
    {
        broadcast use vstd::std_specs::hash::group_hash_axioms;

        self.slots.insert(key.raw, value);
        assert(self@ =~= old(self)@.insert(key, value));
    }

    /// Empties the slot of `key` and returns what it held.
    pub fn remove(&mut self, key: TypeKey) -> (removed: Option<V>)
        ensures
            final(self)@ == old(self)@.remove(key),
            removed == (if old(self)@.contains_key(key) {
                Some(old(self)@[key])
            } else {
                None
            }),
    {
        broadcast use vstd::std_specs::hash::group_hash_axioms;

        let removed = self.slots.remove(&key.raw);
        assert(self@ =~= old(self)@.remove(key));
        removed
    }
}

} // verus!
