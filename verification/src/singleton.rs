//! The one instance that a scope keeps under a key, made on first demand.

use crate::key::TypeKey;
use crate::scope::ServiceContainer;
use vstd::prelude::*;

verus! {

/// The instance that a scope stores under a key: the one that was there, or
/// one that was made and stored because none was there.
pub struct Singleton<'a, V> {
    instance: &'a V,
}

impl<'a, V> Singleton<'a, V> {
    /// The instance.
    pub closed spec fn view(&self) -> V {
        *self.instance
    }

    /// The instance that `container` stores under `key`. Where it stores
    /// none, `make` is called with the container as it is, and what it
    /// makes is stored under `key` and becomes the instance. Where an
    /// instance is stored already, `make` is not called and the container
    /// is left as it is.
    pub fn inject<R, F>(
        container: &'a mut ServiceContainer<V, R>,
        key: TypeKey,
        make: F,
    ) -> (singleton: Self) where F: FnOnce(&ServiceContainer<V, R>) -> V
        requires
            !old(container)@.container.values.contains_key(key) ==> make.requires(
                (&*old(container),),
            ),
        ensures
            old(container)@.container.values.contains_key(key) ==> {
                &&& singleton@ == old(container)@.container.values[key]
                &&& final(container)@ == old(container)@
            },
            !old(container)@.container.values.contains_key(key) ==> {
                &&& make.ensures((&*old(container),), singleton@)
                &&& final(container)@ == old(container)@.with_value(key, singleton@)
            },
    {
        if container.service(key).is_none() {
            let made = make(&*container);
            container.set_type(key, made);
        }
        Singleton { instance: container.service(key).unwrap() }
    }

    /// The instance, for as long as this handle is borrowed.
    pub fn get_ref(&self) -> (instance: &V)
        ensures
            *instance == self@,
    {
        self.instance
    }

    /// The instance, for as long as the scope is borrowed.
    pub fn into_inner(self) -> (instance: &'a V)
        ensures
            *instance == self@,
    {
        self.instance
    }
}

} // verus!
