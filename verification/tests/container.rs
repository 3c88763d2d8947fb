//! The container driven the way a caller drives it: values of many types
//! behind one erased value type, resolvers that are run by the caller.

use busybody::Forgotten;
use busybody::Resolution;
use busybody::ServiceContainer;
use busybody::ServiceContainerBuilder;
use busybody::TaskTable;
use busybody::TypeKey;
use busybody::TypeKeys;
use std::any::Any;
use std::any::TypeId;
use std::rc::Rc;
use std::sync::Mutex;

type Value = Rc<dyn Any>;

type Scope = ServiceContainer<Value, Callback>;

#[derive(Clone)]
struct Callback(Rc<dyn Fn(&mut Scope, &World) -> Value>);

struct World {
    global: Scope,
    tasks: TaskTable<Value, Callback>,
}

impl World {
    fn new() -> Self {
        World { global: ServiceContainer::new(), tasks: TaskTable::new() }
    }
}

static KEYS: Mutex<Option<TypeKeys>> = Mutex::new(None);

fn key<T: 'static>() -> TypeKey {
    KEYS.lock().unwrap().get_or_insert_with(TypeKeys::new).key_of(TypeId::of::<T>())
}

fn callback<T: 'static>(make: impl Fn(&mut Scope, &World) -> T + 'static) -> Callback {
    Callback(Rc::new(move |scope: &mut Scope, world: &World| Rc::new(make(scope, world)) as Value))
}

fn get_type<T: Clone + 'static>(scope: &mut Scope, world: &World) -> Option<T> {
    let (run, once) = match scope.get_type(key::<T>(), &world.tasks, &world.global) {
        Resolution::Value { value, .. } => return value.downcast_ref::<T>().cloned(),
        Resolution::Resolver { resolver, once, .. } => (resolver.clone(), once),
        Resolution::Absent => return None,
    };
    let product = (run.0)(scope, world);
    scope.resolved(key::<T>(), product.clone(), once);
    product.downcast_ref::<T>().cloned()
}

fn get<T: 'static>(scope: &mut Scope, world: &World) -> Option<Rc<T>> {
    get_type::<Rc<T>>(scope, world)
}

fn set_type<T: 'static>(scope: &mut Scope, value: T) {
    scope.set_type(key::<T>(), Rc::new(value));
}

fn set<T: 'static>(scope: &mut Scope, value: T) {
    set_type(scope, Rc::new(value));
}

fn forget_type<T: 'static>(scope: &mut Scope, world: &World) -> Option<Rc<T>> {
    match scope.forget_type(key::<T>()) {
        Forgotten::Value(value) => value.downcast::<T>().ok(),
        Forgotten::Resolver(run) => (run.0)(scope, world).downcast::<T>().ok(),
        Forgotten::Missing => None,
    }
}

fn forget<T: 'static>(scope: &mut Scope, world: &World) -> Option<Rc<Rc<T>>> {
    forget_type::<Rc<T>>(scope, world)
}

trait Resolve: Sized {
    fn resolve(scope: &mut Scope, world: &World) -> Self;
}

fn resolvable<T: Resolve + 'static>(scope: &mut Scope) {
    scope.resolver(key::<T>(), callback(|scope, world| T::resolve(scope, world)));
}

fn resolvable_once<T: Resolve + 'static>(scope: &mut Scope) {
    scope.resolver_once(key::<T>(), callback(|scope, world| T::resolve(scope, world)));
}

fn resolve_all<T: Resolve + Clone + 'static>(scope: &mut Scope, world: &World) -> T {
    if let Some(found) = get_type::<T>(scope, world) {
        return found;
    }
    T::resolve(scope, world)
}

#[derive(Debug, Clone)]
struct Counter {
    start_point: usize,
}

impl Resolve for Counter {
    fn resolve(scope: &mut Scope, world: &World) -> Self {
        set_type(scope, Counter { start_point: 44 });
        get_type(scope, world).unwrap()
    }
}

#[derive(Debug, Clone)]
struct User {
    id: i32,
}

impl Resolve for User {
    fn resolve(_: &mut Scope, _: &World) -> Self {
        Self { id: 1000 }
    }
}

#[derive(Debug, Clone, PartialEq)]
struct Special(String);

#[derive(Debug, Clone, PartialEq)]
struct SoftCounter(i32);

#[derive(Clone, Debug)]
struct Foo;

#[test]
fn test_builder() {
    let world = World::new();
    let mut container: Scope = ServiceContainerBuilder::new_proxy()
        .register(key::<Rc<usize>>(), Rc::new(Rc::new(5usize)) as Value)
        .register(key::<bool>(), Rc::new(true) as Value)
        .build();

    assert_eq!(*get::<usize>(&mut container, &world).unwrap(), 5usize);
    assert_eq!(get_type::<bool>(&mut container, &world), Some(true));
}

#[test]
fn test_empty_container() {
    let world = World::new();
    let mut container: Scope = ServiceContainer::proxy();

    assert_eq!(get::<i32>(&mut container, &world).is_none(), true);
    assert_eq!(get_type::<i32>(&mut container, &world), None);
}

#[test]
fn test_getting_raw_type() {
    let world = World::new();
    let mut container: Scope = ServiceContainer::proxy();
    set_type(&mut container, 400);
    set_type(&mut container, 300f32);
    set_type(&mut container, true);

    assert_eq!(get_type::<i32>(&mut container, &world), Some(400));
    assert_eq!(get_type::<f32>(&mut container, &world), Some(300f32));
    assert_eq!(get_type::<bool>(&mut container, &world), Some(true));
}

#[test]
fn test_getting_service_type() {
    let world = World::new();
    let mut container: Scope = ServiceContainer::proxy();
    set(&mut container, 400);
    set(&mut container, 300f32);
    set(&mut container, true);

    assert_eq!(*get::<i32>(&mut container, &world).unwrap(), 400);
    assert_eq!(*get::<f32>(&mut container, &world).unwrap(), 300f32);
    assert_eq!(*get::<bool>(&mut container, &world).unwrap(), true);
}

#[test]
fn test_proxy_service() {
    let mut world = World::new();
    set_type(&mut world.global, true);
    let mut container: Scope = ServiceContainer::proxy();

    let is_true: Option<bool> = get_type(&mut container, &world);
    let an_i32: Option<i32> = get_type(&mut container, &world);

    assert_eq!(is_true, Some(true));
    assert_eq!(an_i32, None);

    set_type(&mut container, 30000);
    let rate_per_hour: Option<i32> = get_type(&mut container, &world);
    assert_eq!(rate_per_hour, Some(30000));
}

#[test]
fn test_injecting() {
    let world = World::new();
    let mut container: Scope = ServiceContainer::proxy();
    let counter = resolve_all::<Counter>(&mut container, &world);

    assert_eq!(counter.start_point, 44usize);
}

#[test]
fn test_injecting_stored_instance() {
    let world = World::new();
    let mut container: Scope = ServiceContainer::proxy();
    set_type(&mut container, Counter { start_point: 6000 });

    let counter = resolve_all::<Counter>(&mut container, &world);
    assert_eq!(counter.start_point, 6000usize);
}

#[test]
fn test_inject_and_call() {
    let world = World::new();
    let mut container: Scope = ServiceContainer::proxy();
    resolvable::<User>(&mut container);
    resolvable::<Counter>(&mut container);

    let user: User = get_type(&mut container, &world).expect("could not resolve: User");
    let counter: Counter = get_type(&mut container, &world).expect("could not resolve: Counter");
    let result = (|user: User, counter: Counter| {
        assert_eq!(user.id, 1000);
        assert_eq!(counter.start_point, 44);
        (1, 2, 3)
    })(user, counter);

    assert_eq!(result, (1, 2, 3));
}

#[test]
fn test_get_or_inject_raw_type() {
    let world = World::new();
    let mut container: Scope = ServiceContainer::proxy();

    assert_eq!(get_type::<User>(&mut container, &world).is_none(), true);

    container.resolver(key::<User>(), callback(|scope, world| User::resolve(scope, world)));

    let a_user = get_type::<User>(&mut container, &world).expect("instance of User was expected");
    let a_user2 = get_type::<User>(&mut container, &world);

    assert_eq!(a_user.id, 1000);
    assert_eq!(a_user2.is_some(), true);
    assert_eq!(a_user2.unwrap().id, a_user.id);
}

#[test]
fn test_get_or_inject_service_type() {
    let world = World::new();
    let mut container: Scope = ServiceContainer::proxy();

    assert_eq!(get::<User>(&mut container, &world).is_none(), true);

    resolvable_once::<User>(&mut container);

    let a_user = resolve_all::<User>(&mut container, &world);
    let a_user2 = get_type::<User>(&mut container, &world);

    assert_eq!(a_user.id, 1000);
    assert_eq!(a_user2.is_some(), true);
    assert_eq!(a_user2.unwrap().id, a_user.id);
}

#[test]
fn test_forgetting_a_type() {
    let world = World::new();
    let mut container: Scope = ServiceContainer::proxy();

    assert_eq!(get_type::<usize>(&mut container, &world), None);

    set_type(&mut container, 300_usize);
    assert_eq!(get_type::<usize>(&mut container, &world), Some(300_usize));

    let value = forget_type::<usize>(&mut container, &world);
    assert_eq!(value.is_some(), true);

    assert_eq!(get_type::<usize>(&mut container, &world), None);
}

#[test]
fn test_forgetting_service_a_type() {
    let world = World::new();
    let mut container: Scope = ServiceContainer::proxy();

    assert_eq!(get::<usize>(&mut container, &world).is_none(), true);

    set(&mut container, 300_usize);
    assert_eq!(*get::<usize>(&mut container, &world).unwrap(), 300_usize);

    let value = forget::<usize>(&mut container, &world);
    assert_eq!(value.is_some(), true);

    assert_eq!(get::<usize>(&mut container, &world).is_none(), true);
}

#[test]
fn test_service_without_clone_type() {
    struct UserName(String);

    let world = World::new();
    let mut container: Scope = ServiceContainer::proxy();
    set(&mut container, UserName("foobar".to_string()));

    let result: Option<Rc<_>> = get::<UserName>(&mut container, &world);

    assert_eq!(true, result.is_some());
    assert_eq!("foobar", result.unwrap().as_ref().0);
}

#[test]
fn test_resolver() {
    let world = World::new();
    let mut container: Scope = ServiceContainer::proxy();

    container.resolver(key::<String>(), callback(|_, _| "foo".to_string()));

    assert_eq!(get_type::<String>(&mut container, &world), Some("foo".to_string()));
}

#[test]
fn test_resolving_once() {
    let world = World::new();
    let mut container: Scope = ServiceContainer::proxy();

    container.resolver_once(
        key::<Special>(),
        callback(|scope, world| {
            let counter: i32 = get_type(scope, world).unwrap_or_default();
            set_type(scope, counter + 1);
            Special(format!("id:{counter}"))
        }),
    );

    assert_eq!(get_type::<Special>(&mut container, &world), Some(Special("id:0".to_string())));
    assert_eq!(
        get_type::<Special>(&mut container, &world),
        Some(Special("id:0".to_string())),
        "ID should have been zero (0)"
    );
}

#[test]
fn test_soft_resolving() {
    let world = World::new();
    let mut container: Scope = ServiceContainer::proxy();

    container.resolver(key::<SoftCounter>(), callback(|_, _| SoftCounter(1)));
    container.soft_resolver(key::<SoftCounter>(), callback(|_, _| SoftCounter(100)));

    let counter: SoftCounter = get_type(&mut container, &world).unwrap();
    assert_eq!(counter.0, 1);

    let counter: SoftCounter = get_type(&mut container, &world).unwrap();
    assert_ne!(counter.0, 100);
}

#[test]
fn test_soft_resolving2() {
    let world = World::new();
    let mut container: Scope = ServiceContainer::proxy();

    container.soft_resolver(key::<SoftCounter>(), callback(|_, _| SoftCounter(100)));

    let counter: SoftCounter = get_type(&mut container, &world).unwrap();
    assert_eq!(counter.0, 100);
}

#[test]
fn test_forgetting_resolver() {
    let world = World::new();
    let mut container: Scope = ServiceContainer::proxy();
    container.resolver(key::<i32>(), callback(|_, _| 100));

    let number = get_type::<i32>(&mut container, &world);
    assert_eq!(number.is_some(), true);

    container.forget_resolver(key::<i32>());
    let number2 = get_type::<i32>(&mut container, &world);
    assert_eq!(number2.is_none(), true);
}

#[test]
fn test_getting_option() {
    let world = World::new();
    let mut container: Scope = ServiceContainer::proxy();

    set_type(&mut container, Some(Foo));

    let foo: Option<Option<Foo>> = get_type(&mut container, &world);

    assert_eq!(foo.is_some(), true, "An instance of Option<Option<Foo>> exist");
    assert_eq!(foo.is_some(), true, "foo should have been wrapped in a Option<Foo>");
}

#[test]
fn test_getting_result() {
    let world = World::new();
    let mut container: Scope = ServiceContainer::proxy();

    set_type(&mut container, Ok::<Foo, ()>(Foo));

    let foo: Option<Result<Foo, ()>> = get_type(&mut container, &world);

    assert_eq!(foo.is_some(), true, "An instance of Option<Result<Foo, ()>> exist");

    assert_eq!(foo.unwrap().is_ok(), true, "foo should have been wrapped in a Result<Foo, ()>");

    let an_int: Option<Result<i32, ()>> = get_type(&mut container, &world);
    assert_eq!(an_int.is_some(), false, "Option<Result<i32, ()>> instance does not exist");
}
