//! Building a scope step by step, before it is put to use.

use crate::key::TypeKey;
use crate::registry::Registration;
use crate::scope::ScopeView;
use crate::scope::ServiceContainer;
use vstd::prelude::*;

verus! {

/// Fills a scope by chained calls and hands it over with `build`.
pub struct ServiceContainerBuilder<V, R> {
    service_container: ServiceContainer<V, R>,
}

impl<V, R> ServiceContainerBuilder<V, R> {
    /// The content of the scope being built.
    pub closed spec fn view(&self) -> ScopeView<V, R> {
        self.service_container@
    }

    /// Starts from the global scope, holding nothing.
    pub fn new() -> (builder: Self)
        ensures
            builder@ == ScopeView::<V, R>::fresh_global(),
    {
        ServiceContainerBuilder { service_container: ServiceContainer::new() }
    }

    /// Starts from a proxy scope under a freshly drawn identifier, holding
    /// nothing.
    pub fn new_proxy() -> (builder: Self)
        ensures
            builder@ == ScopeView::<V, R>::fresh_proxy(builder@.kind.id()),
    {
        ServiceContainerBuilder { service_container: ServiceContainer::proxy() }
    }

    /// Stores `ext` under `key`, replacing any value stored there before.
    pub fn register(self, key: TypeKey, ext: V) -> (builder: Self)
        ensures
            builder@ == self@.with_value(key, ext),
    {
        let mut builder = self;
        builder.service_container.set_type(key, ext);
        builder
    }

    /// Registers `callback` to run every time `key` is requested and no
    /// value is stored, replacing the resolver registered before.
    pub fn resolver(self, key: TypeKey, callback: R) -> (builder: Self)
        ensures
            builder@ == self@.with_resolver(key, Registration { resolver: callback, once: false }),
    {
        let mut builder = self;
        builder.service_container.resolver(key, callback);
        builder
    }

    /// Registers `callback` to run the first time `key` is requested; its
    /// product is then stored. Replaces the resolver registered before.
    pub fn resolver_once(self, key: TypeKey, callback: R) -> (builder: Self)
        ensures
            builder@ == self@.with_resolver(key, Registration { resolver: callback, once: true }),
    {
        let mut builder = self;
        builder.service_container.resolver_once(key, callback);
        builder
    }

    /// Registers `callback` as `resolver` does, unless `key` has a resolver
    /// already.
    pub fn soft_resolver(self, key: TypeKey, callback: R) -> (builder: Self)
        ensures
            builder@ == self@.with_soft_resolver(
                key,
                Registration { resolver: callback, once: false },
            ),
    {
        let mut builder = self;
        builder.service_container.soft_resolver(key, callback);
        builder
    }

    /// Registers `callback` as `resolver_once` does, unless `key` has a
    /// resolver already.
    pub fn soft_resolver_once(self, key: TypeKey, callback: R) -> (builder: Self)
        ensures
            builder@ == self@.with_soft_resolver(
                key,
                Registration { resolver: callback, once: true },
            ),
    {
        let mut builder = self;
        builder.service_container.soft_resolver_once(key, callback);
        builder
    }

    /// Hands over the scope that was built.
    pub fn build(self) -> (scope: ServiceContainer<V, R>)
        ensures
            scope@ == self@,
    {
        self.service_container
    }
}

impl<V, R> Default for ServiceContainerBuilder<V, R> {
    /// Starts from the global scope, holding nothing.
    fn default() -> (builder: Self)
        ensures
            builder@ == ScopeView::<V, R>::fresh_global(),
    {
        Self::new()
    }
}

} // verus!
