//! Singletons: made on first demand, kept ever after.

use busybody::ServiceContainer;
use busybody::Singleton;
use busybody::TypeKey;
use std::cell::Cell;

type Scope = ServiceContainer<String, &'static str>;

const NAME: TypeKey = TypeKey { raw: 31 };
const OTHER: TypeKey = TypeKey { raw: 32 };

#[test]
fn singleton_is_made_once() {
    let made = Cell::new(0);
    let mut scope: Scope = ServiceContainer::proxy();
    {
        let first = Singleton::inject(&mut scope, NAME, |_| {
            made.set(made.get() + 1);
            "foobar".to_string()
        });
        assert_eq!(first.get_ref(), "foobar");
    }
    {
        let second = Singleton::inject(&mut scope, NAME, |_| {
            made.set(made.get() + 1);
            "other".to_string()
        });
        assert_eq!(second.get_ref(), "foobar");
        assert_eq!(second.into_inner(), "foobar");
    }
    assert_eq!(made.get(), 1);
    assert_eq!(scope.service(NAME), Some(&"foobar".to_string()));
}

#[test]
fn singleton_takes_the_stored_instance() {
    let mut scope: Scope = ServiceContainer::new();
    scope.set_type(NAME, "stored".to_string());
    let found = Singleton::inject(&mut scope, NAME, |_| "made".to_string());
    assert_eq!(found.into_inner(), "stored");
}

#[test]
fn singleton_is_made_from_what_the_scope_holds() {
    let mut scope: Scope = ServiceContainer::proxy();
    scope.set_type(OTHER, "foo".to_string());
    let made = Singleton::inject(&mut scope, NAME, |scope| {
        let mut name = scope.service(OTHER).cloned().unwrap_or_default();
        name.push_str("bar");
        name
    });
    assert_eq!(made.get_ref(), "foobar");
    assert_eq!(scope.service(OTHER), Some(&"foo".to_string()));
    assert_eq!(scope.service(NAME), Some(&"foobar".to_string()));
}
