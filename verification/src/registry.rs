//! The resolver registry: at most one construction routine per type key.

use crate::key::TypeKey;
use std::collections::HashMap;
use vstd::prelude::*;

verus! {

/// A resolver together with the policy it was registered under.
///
/// A resolver registered `once` has its first product stored in the scope
/// that ran it, so that later requests are served from the value store.
pub struct Registration<R> {
    pub resolver: R,
    pub once: bool,
}

/// A mapping from type key to the resolver registered for that type.
///
/// The registry only files resolvers. Running one is left to the caller, who
/// is handed a reference to it and calls it with no borrow of the registry
/// still needed for the call.
pub struct ResolverRegistry<R> {
    entries: HashMap<u64, Registration<R>>,
}

impl<R> ResolverRegistry<R> {
    /// The registrations as a map from type key to registration.
    pub closed spec fn view(&self) -> Map<TypeKey, Registration<R>> {
        Map::new(
            |key: TypeKey| self.entries@.contains_key(key.raw),
            |key: TypeKey| self.entries@[key.raw],
        )
    }

    /// A registry with no resolver in it.
    pub fn new() -> (registry: Self)
        ensures
            registry@ == Map::<TypeKey, Registration<R>>::empty(),
    {
        let registry = ResolverRegistry { entries: HashMap::new() };
        assert(registry@ =~= Map::<TypeKey, Registration<R>>::empty());
        registry
    }

    /// Files `registration` under `key`, replacing the one filed before.
    pub fn register(&mut self, key: TypeKey, registration: Registration<R>)
        ensures
            final(self)@ == old(self)@.insert(key, registration),
    {
        broadcast use vstd::std_specs::hash::group_hash_axioms;

        self.entries.insert(key.raw, registration);
        assert(self@ =~= old(self)@.insert(key, registration));
    }

    /// Files `registration` under `key` unless the key has a resolver already.
    ///
    /// The test and the insertion happen under the one exclusive borrow, so
    /// of two soft registrations for a key only the first takes effect.
    pub fn soft_register(&mut self, key: TypeKey, registration: Registration<R>)
        ensures
            final(self)@ == (if old(self)@.contains_key(key) {
                old(self)@
            } else {
                old(self)@.insert(key, registration)
            }),
    {
        if !self.has(key) {
            self.register(key, registration);
        }
    }

    /// Whether a resolver is registered for `key`.
    pub fn has(&self, key: TypeKey) -> (present: bool)
        ensures
            present == self@.contains_key(key),
    {
        broadcast use vstd::std_specs::hash::group_hash_axioms;

        self.entries.contains_key(&key.raw)
    }

    /// The registration filed under `key`, if there is one.
    pub fn lookup(&self, key: TypeKey) -> (found: Option<&Registration<R>>)
        ensures
            found == (if self@.contains_key(key) {
                Some(&self@[key])
            } else {
                None
            }),
    {
        broadcast use vstd::std_specs::hash::group_hash_axioms;

        self.entries.get(&key.raw)
    }

    /// Removes the registration of `key` and hands it to the caller.
    pub fn take(&mut self, key: TypeKey) -> (taken: Option<Registration<R>>)
        ensures
            final(self)@ == old(self)@.remove(key),
            taken == (if old(self)@.contains_key(key) {
                Some(old(self)@[key])
            } else {
                None
            }),
    {
        broadcast use vstd::std_specs::hash::group_hash_axioms;

        let taken = self.entries.remove(&key.raw);
        assert(self@ =~= old(self)@.remove(key));
        taken
    }

    /// Removes the registration of `key`; tells whether there was one.
    pub fn remove(&mut self, key: TypeKey) -> (removed: bool)
        ensures
            final(self)@ == old(self)@.remove(key),
            removed == old(self)@.contains_key(key),
    {
        self.take(key).is_some()
    }
}

} // verus!
