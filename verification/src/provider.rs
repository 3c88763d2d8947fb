//! Direct access to what a scope stores, for callers that know it is there.

use crate::key::TypeKey;
use crate::scope::ServiceContainer;
use vstd::prelude::*;

verus! {

/// Hands out the values stored in a scope.
pub struct ServiceProvider;

impl ServiceProvider {
    /// The value that `container` stores under `key`. The caller has made
    /// sure that there is one.
    pub fn service<'a, V, R>(container: &'a ServiceContainer<V, R>, key: TypeKey) -> (value: &'a V)
        requires
            container@.container.values.contains_key(key),
        ensures
            *value == container@.container.values[key],
    {
        service(container, key)
    }
}

/// The value that `container` stores under `key`. The caller has made sure
/// that there is one.
pub fn service<'a, V, R>(container: &'a ServiceContainer<V, R>, key: TypeKey) -> (value: &'a V)
    requires
        container@.container.values.contains_key(key),
    ensures
        *value == container@.container.values[key],
{
    container.service(key).unwrap()
}

} // verus!
