//! A container: one value store and one resolver registry, consulted in that
//! order.

use crate::key::TypeKey;
use crate::registry::Registration;
use crate::registry::ResolverRegistry;
use crate::store::ValueStore;
use vstd::prelude::*;

verus! {

/// What a container holds for one key.
pub enum Lookup<'a, V, R> {
    /// A value is stored under the key.
    Value(&'a V),
    /// No value is stored, but a resolver is registered; the caller runs it.
    Resolver { resolver: &'a R, once: bool },
    /// Neither a value nor a resolver.
    Missing,
}

/// What forgetting a key took out of a container.
pub enum Forgotten<V, R> {
    /// The value that was stored under the key.
    Value(V),
    /// No value was stored; this is the resolver that was registered. Running
    /// it once more yields the value the caller asked to forget.
    Resolver(R),
    /// The container held nothing for the key.
    Missing,
}

/// The mathematical content of a container.
#[verifier::ext_equal]
pub struct ContainerView<V, R> {
    pub values: Map<TypeKey, V>,
    pub resolvers: Map<TypeKey, Registration<R>>,
}

impl<V, R> ContainerView<V, R> {
    /// The container that holds nothing.
    pub open spec fn empty() -> Self {
        ContainerView { values: Map::empty(), resolvers: Map::empty() }
    }

    /// Whether the container has neither value nor resolver for `key`.
    pub open spec fn lacks(self, key: TypeKey) -> bool {
        !self.values.contains_key(key) && !self.resolvers.contains_key(key)
    }

    /// The answer to a request for `key`: the stored value first, else the
    /// registered resolver.
    pub open spec fn lookup<'a>(&'a self, key: TypeKey) -> Lookup<'a, V, R> {
        if self.values.contains_key(key) {
            Lookup::Value(&self.values[key])
        } else if self.resolvers.contains_key(key) {
            Lookup::Resolver {
                resolver: &self.resolvers[key].resolver,
                once: self.resolvers[key].once,
            }
        } else {
            Lookup::Missing
        }
    }

    /// The container after `value` was stored under `key`.
    pub open spec fn with_value(self, key: TypeKey, value: V) -> Self {
        ContainerView { values: self.values.insert(key, value), resolvers: self.resolvers }
    }

    /// The container after `registration` was filed under `key`.
    pub open spec fn with_resolver(self, key: TypeKey, registration: Registration<R>) -> Self {
        ContainerView {
            values: self.values,
            resolvers: self.resolvers.insert(key, registration),
        }
    }

    /// The container after a soft registration: unchanged where `key` had a
    /// resolver already.
    pub open spec fn with_soft_resolver(
        self,
        key: TypeKey,
        registration: Registration<R>,
    ) -> Self {
        if self.resolvers.contains_key(key) {
            self
        } else {
            self.with_resolver(key, registration)
        }
    }

    /// The container after the resolver of `key` was removed.
    pub open spec fn without_resolver(self, key: TypeKey) -> Self {
        ContainerView { values: self.values, resolvers: self.resolvers.remove(key) }
    }

    /// The container after `key` was forgotten: neither value nor resolver.
    pub open spec fn without(self, key: TypeKey) -> Self {
        ContainerView { values: self.values.remove(key), resolvers: self.resolvers.remove(key) }
    }

    /// What forgetting `key` hands back.
    pub open spec fn forgotten(self, key: TypeKey) -> Forgotten<V, R> {
        if self.values.contains_key(key) {
            Forgotten::Value(self.values[key])
        } else if self.resolvers.contains_key(key) {
            Forgotten::Resolver(self.resolvers[key].resolver)
        } else {
            Forgotten::Missing
        }
    }
}

/// A value store and a resolver registry over the same keys.
pub struct Container<V, R> {
    services: ValueStore<V>,
    resolvers: ResolverRegistry<R>,
}

impl<V, R> Container<V, R> {
    /// The content of the container.
    pub closed spec fn view(&self) -> ContainerView<V, R> {
        ContainerView { values: self.services@, resolvers: self.resolvers@ }
    }

    /// A container that holds nothing.
    pub fn new() -> (container: Self)
        ensures
            container@ == ContainerView::<V, R>::empty(),
    {
        Container { services: ValueStore::new(), resolvers: ResolverRegistry::new() }
    }

    /// Looks `key` up: the stored value if there is one, else the registered
    /// resolver for the caller to run. The container is not changed, so a
    /// resolver's product is kept only if the caller stores it.
    pub fn get<'a>(&'a self, key: TypeKey) -> (found: Lookup<'a, V, R>)
        ensures
            found == self@.lookup(key),
    {
        match self.services.get(key) {
            Some(value) => Lookup::Value(value),
            None => match self.resolvers.lookup(key) {
                Some(registration) => Lookup::Resolver {
                    resolver: &registration.resolver,
                    once: registration.once,
                },
                None => Lookup::Missing,
            },
        }
    }

    /// The value stored under `key`, if there is one. Resolvers are not
    /// consulted.
    pub fn stored(&self, key: TypeKey) -> (found: Option<&V>)
        ensures
            found == (if self@.values.contains_key(key) {
                Some(&self@.values[key])
            } else {
                None
            }),
    {
        self.services.get(key)
    }

    /// Stores `value` under `key`, replacing any value stored there before.
    pub fn set(&mut self, key: TypeKey, value: V)
        ensures
            final(self)@ == old(self)@.with_value(key, value),
    {
        self.services.set(key, value);
    }

    /// Forgets `key`: removes its value and its resolver, and hands back the
    /// value, or the resolver where no value was stored.
    pub fn forget(&mut self, key: TypeKey) -> (forgotten: Forgotten<V, R>)
        ensures
            final(self)@ == old(self)@.without(key),
            forgotten == old(self)@.forgotten(key),
    {
        let value = self.services.remove(key);
        let registration = self.resolvers.take(key);
        match value {
            Some(value) => Forgotten::Value(value),
            None => match registration {
                Some(registration) => Forgotten::Resolver(registration.resolver),
                None => Forgotten::Missing,
            },
        }
    }

    /// Removes the resolver of `key`; tells whether there was one.
    pub fn remove_resolver(&mut self, key: TypeKey) -> (removed: bool)
        ensures
            final(self)@ == old(self)@.without_resolver(key),
            removed == old(self)@.resolvers.contains_key(key),
    {
        self.resolvers.remove(key)
    }

    /// Registers a resolver for `key`, replacing the one registered before.
    pub fn resolver(&mut self, key: TypeKey, registration: Registration<R>)
        ensures
            final(self)@ == old(self)@.with_resolver(key, registration),
    {
        self.resolvers.register(key, registration);
    }

    /// Registers a resolver for `key` unless the key has one already.
    pub fn soft_resolver(&mut self, key: TypeKey, registration: Registration<R>)
        ensures
            final(self)@ == old(self)@.with_soft_resolver(key, registration),
    {
        self.resolvers.soft_register(key, registration);
    }

    /// Whether a resolver is registered for `key`.
    pub fn has_resolver(&self, key: TypeKey) -> (present: bool)
        ensures
            present == self@.resolvers.contains_key(key),
    {
        self.resolvers.has(key)
    }
}

} // verus!
