//! The value store, the resolver registry and the container on their own.

use busybody::container::Container;
use busybody::registry::ResolverRegistry;
use busybody::store::ValueStore;
use busybody::Forgotten;
use busybody::Lookup;
use busybody::Registration;
use busybody::TypeKey;

const A: TypeKey = TypeKey { raw: 1 };
const B: TypeKey = TypeKey { raw: 2 };

fn plain(resolver: &'static str) -> Registration<&'static str> {
    Registration { resolver, once: false }
}

fn once(resolver: &'static str) -> Registration<&'static str> {
    Registration { resolver, once: true }
}

#[test]
fn key_is_its_raw_number() {
    assert_eq!(TypeKey::new(7).raw(), 7);
    assert_eq!(TypeKey::new(7), TypeKey { raw: 7 });
    assert_ne!(TypeKey::new(7), TypeKey::new(8));
    assert!(TypeKey::new(7) < TypeKey::new(8));
}

#[test]
fn store_starts_empty() {
    let store: ValueStore<i32> = ValueStore::new();
    assert_eq!(store.get(A), None);
    assert!(!store.contains(A));
}

#[test]
fn store_set_overwrites() {
    let mut store: ValueStore<i32> = ValueStore::new();
    store.set(A, 400);
    assert_eq!(store.get(A), Some(&400));
    assert!(store.contains(A));
    store.set(A, 300);
    assert_eq!(store.get(A), Some(&300));
    assert_eq!(store.get(B), None);
}

#[test]
fn store_remove_returns_prior_value() {
    let mut store: ValueStore<String> = ValueStore::new();
    store.set(A, "a".to_string());
    store.set(B, "b".to_string());
    assert_eq!(store.remove(A), Some("a".to_string()));
    assert_eq!(store.remove(A), None);
    assert_eq!(store.get(B), Some(&"b".to_string()));
}

#[test]
fn registry_register_replaces() {
    let mut registry: ResolverRegistry<&'static str> = ResolverRegistry::new();
    assert!(!registry.has(A));
    assert!(registry.lookup(A).is_none());
    registry.register(A, plain("first"));
    registry.register(A, once("second"));
    let found = registry.lookup(A).unwrap();
    assert_eq!(found.resolver, "second");
    assert_eq!(found.once, true);
    assert!(registry.has(A));
    assert!(!registry.has(B));
}

#[test]
fn registry_soft_register_keeps_the_first() {
    let mut registry: ResolverRegistry<&'static str> = ResolverRegistry::new();
    registry.soft_register(A, plain("first"));
    registry.soft_register(A, once("second"));
    let found = registry.lookup(A).unwrap();
    assert_eq!(found.resolver, "first");
    assert_eq!(found.once, false);
}

#[test]
fn registry_remove_tells_whether_there_was_one() {
    let mut registry: ResolverRegistry<&'static str> = ResolverRegistry::new();
    registry.register(A, plain("first"));
    assert_eq!(registry.remove(B), false);
    assert_eq!(registry.remove(A), true);
    assert_eq!(registry.remove(A), false);
    assert!(!registry.has(A));
}

#[test]
fn registry_take_hands_the_registration_over() {
    let mut registry: ResolverRegistry<&'static str> = ResolverRegistry::new();
    registry.register(A, once("first"));
    let taken = registry.take(A).unwrap();
    assert_eq!(taken.resolver, "first");
    assert_eq!(taken.once, true);
    assert!(registry.take(A).is_none());
}

#[test]
fn container_prefers_the_stored_value() {
    let mut container: Container<i32, &'static str> = Container::new();
    assert!(matches!(container.get(A), Lookup::Missing));
    container.resolver(A, plain("make"));
    assert!(matches!(container.get(A), Lookup::Resolver { resolver: &"make", once: false }));
    container.set(A, 5);
    assert!(matches!(container.get(A), Lookup::Value(&5)));
    assert_eq!(container.stored(A), Some(&5));
    assert_eq!(container.stored(B), None);
    assert!(container.has_resolver(A));
}

#[test]
fn container_get_does_not_keep_anything() {
    let mut container: Container<i32, &'static str> = Container::new();
    container.resolver(A, once("make"));
    assert!(matches!(container.get(A), Lookup::Resolver { resolver: &"make", once: true }));
    assert!(matches!(container.get(A), Lookup::Resolver { resolver: &"make", once: true }));
    assert_eq!(container.stored(A), None);
}

#[test]
fn container_forget_takes_value_and_resolver() {
    let mut container: Container<i32, &'static str> = Container::new();
    container.set(A, 5);
    container.resolver(A, plain("make"));
    assert!(matches!(container.forget(A), Forgotten::Value(5)));
    assert!(matches!(container.get(A), Lookup::Missing));
    assert!(!container.has_resolver(A));
    assert!(matches!(container.forget(A), Forgotten::Missing));
}

#[test]
fn container_forget_hands_back_a_lone_resolver() {
    let mut container: Container<i32, &'static str> = Container::new();
    container.resolver(A, once("make"));
    container.set(B, 9);
    assert!(matches!(container.forget(A), Forgotten::Resolver("make")));
    assert!(matches!(container.get(A), Lookup::Missing));
    assert!(matches!(container.get(B), Lookup::Value(&9)));
}

#[test]
fn container_remove_resolver_leaves_the_value() {
    let mut container: Container<i32, &'static str> = Container::new();
    container.set(A, 5);
    assert_eq!(container.remove_resolver(A), false);
    container.resolver(A, plain("make"));
    assert_eq!(container.remove_resolver(A), true);
    assert!(matches!(container.get(A), Lookup::Value(&5)));
}

#[test]
fn container_soft_resolver_yields_to_an_earlier_one() {
    let mut container: Container<i32, &'static str> = Container::new();
    container.soft_resolver(A, plain("first"));
    container.soft_resolver(A, once("second"));
    assert!(matches!(container.get(A), Lookup::Resolver { resolver: &"first", once: false }));
}
