//! Scopes: a container with an identity and a fallback policy.

use crate::container::Container;
use crate::container::ContainerView;
use crate::container::Forgotten;
use crate::container::Lookup;
use crate::identity::current_task;
use crate::identity::fresh_id;
use crate::key::TypeKey;
use crate::registry::Registration;
use crate::task::entered;
use crate::task::joined;
use crate::task::no_active_task;
use crate::task::scope_of;
use crate::task::TaskTable;
use vstd::prelude::*;

verus! {

/// The identifier of the global scope.
pub const GLOBAL_INSTANCE_ID: u64 = 0;

/// What kind of scope a scope is, with the identifier it goes by. The kind
/// is decided when the scope is made and never changes.
#[derive(Clone, Copy, Debug, PartialEq, Eq, Structural)]
pub enum ScopeKind {
    /// The global scope: the end of every fallback chain.
    Global,
    /// A detached scope that falls back to the global scope.
    Proxy { id: u64 },
    /// The scope of one task, which falls back to the global scope.
    TaskLocal { id: u64 },
}

impl ScopeKind {
    /// The identifier of a scope of this kind; the global scope goes by a
    /// fixed one.
    pub open spec fn spec_id(self) -> u64 {
        match self {
            ScopeKind::Global => GLOBAL_INSTANCE_ID,
            ScopeKind::Proxy { id } => id,
            ScopeKind::TaskLocal { id } => id,
        }
    }

    /// The identifier of a scope of this kind; the global scope goes by a
    /// fixed one.
    #[verifier::when_used_as_spec(spec_id)]
    pub fn id(self) -> (id: u64)
        ensures
            id == self.spec_id(),
    {
        match self {
            ScopeKind::Global => GLOBAL_INSTANCE_ID,
            ScopeKind::Proxy { id } => id,
            ScopeKind::TaskLocal { id } => id,
        }
    }

    /// Whether a scope of this kind falls back to the global scope.
    pub open spec fn spec_is_proxy(self) -> bool {
        !(self is Global)
    }

    /// Whether a scope of this kind falls back to the global scope.
    #[verifier::when_used_as_spec(spec_is_proxy)]
    pub fn is_proxy(self) -> (proxy: bool)
        ensures
            proxy == self.spec_is_proxy(),
    {
        match self {
            ScopeKind::Global => false,
            ScopeKind::Proxy { .. } => true,
            ScopeKind::TaskLocal { .. } => true,
        }
    }

    /// Whether a scope of this kind belongs to a task.
    pub open spec fn spec_is_task_local(self) -> bool {
        self is TaskLocal
    }

    /// Whether a scope of this kind belongs to a task.
    #[verifier::when_used_as_spec(spec_is_task_local)]
    pub fn is_task_local(self) -> (task: bool)
        ensures
            task == self.spec_is_task_local(),
    {
        match self {
            ScopeKind::Global => false,
            ScopeKind::Proxy { .. } => false,
            ScopeKind::TaskLocal { .. } => true,
        }
    }
}

/// The container in which a request was answered.
#[derive(Clone, Copy, Debug, PartialEq, Eq, Structural)]
pub enum Source {
    /// The requesting scope's own container.
    Own,
    /// The container of the running task's scope.
    Task,
    /// The global container.
    Global,
}

/// The scope on whose behalf a resolver runs: the scope that is handed to
/// the resolver, and that keeps the product of a resolver registered once.
#[derive(Clone, Copy, Debug, PartialEq, Eq, Structural)]
pub enum Performer {
    /// The scope that was asked.
    Requester,
    /// The scope of the running task, through which the request passed.
    Task,
}

/// The answer of a scope to a request for one key.
pub enum Resolution<'a, V, R> {
    /// A stored value, and where it was found.
    Value { value: &'a V, source: Source },
    /// A resolver for the caller to run, where it was found, and for whom it
    /// runs.
    Resolver { resolver: &'a R, once: bool, source: Source, performer: Performer },
    /// Nothing along the whole fallback chain.
    Absent,
}

/// The answer that is the stored value `value`, found in `source`.
pub open spec fn answer_value<'a, V, R>(value: &'a V, source: Source) -> Resolution<'a, V, R> {
    Resolution::Value { value, source }
}

/// The answer that hands out `resolver`, found in `source`, to run for
/// `performer`.
pub open spec fn answer_resolver<'a, V, R>(
    resolver: &'a R,
    once: bool,
    source: Source,
    performer: Performer,
) -> Resolution<'a, V, R> {
    Resolution::Resolver { resolver, once, source, performer }
}

/// The mathematical content of a scope.
#[verifier::ext_equal]
pub struct ScopeView<V, R> {
    pub kind: ScopeKind,
    pub container: ContainerView<V, R>,
}

impl<V, R> ScopeView<V, R> {
    /// The global scope as it is created.
    pub open spec fn fresh_global() -> Self {
        ScopeView { kind: ScopeKind::Global, container: ContainerView::empty() }
    }

    /// A proxy scope as it is created.
    pub open spec fn fresh_proxy(id: u64) -> Self {
        ScopeView { kind: ScopeKind::Proxy { id }, container: ContainerView::empty() }
    }

    /// A task-local scope as it is created.
    pub open spec fn fresh_task(id: u64) -> Self {
        ScopeView { kind: ScopeKind::TaskLocal { id }, container: ContainerView::empty() }
    }

    /// This scope with its container replaced.
    pub open spec fn with_container(self, container: ContainerView<V, R>) -> Self {
        ScopeView { kind: self.kind, container }
    }

    /// This scope after `value` was stored under `key`.
    pub open spec fn with_value(self, key: TypeKey, value: V) -> Self {
        self.with_container(self.container.with_value(key, value))
    }

    /// This scope after `registration` was filed under `key`.
    pub open spec fn with_resolver(self, key: TypeKey, registration: Registration<R>) -> Self {
        self.with_container(self.container.with_resolver(key, registration))
    }

    /// This scope after a soft registration: unchanged where `key` had a
    /// resolver already.
    pub open spec fn with_soft_resolver(
        self,
        key: TypeKey,
        registration: Registration<R>,
    ) -> Self {
        self.with_container(self.container.with_soft_resolver(key, registration))
    }

    /// This scope after it took in the product `value` of a resolver for
    /// `key`: the product is stored where the resolver was registered once,
    /// and dropped where it was not.
    pub open spec fn after_resolved(self, key: TypeKey, value: V, once: bool) -> Self {
        if once {
            self.with_value(key, value)
        } else {
            self
        }
    }

    /// This scope after the resolver of `key` was removed.
    pub open spec fn without_resolver(self, key: TypeKey) -> Self {
        self.with_container(self.container.without_resolver(key))
    }

    /// This scope after `key` was forgotten.
    pub open spec fn without(self, key: TypeKey) -> Self {
        self.with_container(self.container.without(key))
    }

    /// Whether a request to this scope passes through the running task's
    /// scope: only a proxy that is not itself task-local looks there.
    pub open spec fn consults_task(self, task: Option<&ScopeView<V, R>>) -> bool {
        self.kind is Proxy && task is Some
    }

    /// What a container along the chain contributes to the answer.
    pub open spec fn located<'a>(
        found: Lookup<'a, V, R>,
        source: Source,
        performer: Performer,
    ) -> Resolution<'a, V, R> {
        match found {
            Lookup::Value(value) => Resolution::Value { value, source },
            Lookup::Resolver { resolver, once } => Resolution::Resolver {
                resolver,
                once,
                source,
                performer,
            },
            Lookup::Missing => Resolution::Absent,
        }
    }

    /// The answer of this scope to a request for `key`, given the scope of
    /// the running task (if there is one) and the global scope.
    ///
    /// The own container is asked first. A scope that is not a proxy stops
    /// there. A proxy that is not task-local asks the running task's scope
    /// next. Every proxy asks the global container last. A resolver runs for
    /// the scope that was asked, except that one found in or behind the
    /// running task's scope runs for that task's scope.
    pub open spec fn resolve<'a>(
        &'a self,
        key: TypeKey,
        task: Option<&'a ScopeView<V, R>>,
        global: &'a ScopeView<V, R>,
    ) -> Resolution<'a, V, R> {
        if !self.container.lacks(key) {
            Self::located(self.container.lookup(key), Source::Own, Performer::Requester)
        } else if self.kind is Global {
            Resolution::Absent
        } else if self.consults_task(task) {
            if !task.unwrap().container.lacks(key) {
                Self::located(task.unwrap().container.lookup(key), Source::Task, Performer::Task)
            } else {
                Self::located(global.container.lookup(key), Source::Global, Performer::Task)
            }
        } else {
            Self::located(global.container.lookup(key), Source::Global, Performer::Requester)
        }
    }
}

/// A scope: a container of its own, an identifier, and its kind.
///
/// The kind is fixed when the scope is made. The global scope answers from
/// its own container only. A proxy scope falls back to the global scope. A
/// task-local scope is a proxy that belongs to one task.
pub struct ServiceContainer<V, R> {
    kind: ScopeKind,
    container: Container<V, R>,
}

impl<V, R> ServiceContainer<V, R> {
    /// The content of the scope.
    pub closed spec fn view(&self) -> ScopeView<V, R> {
        ScopeView { kind: self.kind, container: self.container@ }
    }

    /// The view of an optional scope.
    pub open spec fn view_of<'a>(scope: Option<&'a Self>) -> Option<&'a ScopeView<V, R>> {
        match scope {
            Some(scope) => Some(&scope@),
            None => None,
        }
    }

    /// The kind of this scope.
    pub fn kind(&self) -> (kind: ScopeKind)
        ensures
            kind == self@.kind,
    {
        self.kind
    }

    /// The identifier of this scope.
    pub fn id(&self) -> (id: u64)
        ensures
            id == self@.kind.id(),
    {
        self.kind.id()
    }

    /// The global scope, holding nothing.
    pub fn new() -> (scope: Self)
        ensures
            scope@ == ScopeView::<V, R>::fresh_global(),
    {
        ServiceContainer { kind: ScopeKind::Global, container: Container::new() }
    }

    /// A proxy scope under a freshly drawn identifier, holding nothing.
    pub fn proxy() -> (scope: Self)
        ensures
            scope@ == ScopeView::<V, R>::fresh_proxy(scope@.kind.id()),
    {
        Self::proxy_with_id(fresh_id())
    }

    /// A proxy scope under the given identifier, holding nothing.
    pub fn proxy_with_id(id: u64) -> (scope: Self)
        ensures
            scope@ == ScopeView::<V, R>::fresh_proxy(id),
    {
        ServiceContainer { kind: ScopeKind::Proxy { id }, container: Container::new() }
    }

    /// A task-local scope for the task with the given identifier, holding
    /// nothing.
    pub(crate) fn task_with_id(id: u64) -> (scope: Self)
        ensures
            scope@ == ScopeView::<V, R>::fresh_task(id),
    {
        ServiceContainer { kind: ScopeKind::TaskLocal { id }, container: Container::new() }
    }

    /// Whether this scope belongs to a task.
    pub fn is_task_proxy(&self) -> (task: bool)
        ensures
            task == self@.kind.is_task_local(),
    {
        self.kind.is_task_local()
    }

    /// Whether this scope falls back to the global scope.
    pub fn is_proxy(&self) -> (proxy: bool)
        ensures
            proxy == self@.kind.is_proxy(),
    {
        self.kind.is_proxy()
    }

    /// The value that this scope itself stores under `key`, if there is one.
    /// Neither resolvers nor other scopes are consulted.
    pub fn service(&self, key: TypeKey) -> (found: Option<&V>)
        ensures
            found == (if self@.container.values.contains_key(key) {
                Some(&self@.container.values[key])
            } else {
                None
            }),
    {
        self.container.stored(key)
    }

    /// The answer of this scope's own container, with no fallback.
    pub fn instance<'a>(&'a self, key: TypeKey) -> (found: Lookup<'a, V, R>)
        ensures
            found == self@.container.lookup(key),
    {
        self.container.get(key)
    }

    /// The answer of this scope to a request for `key`, given the scope of
    /// the running task and the global scope.
    pub fn resolve<'a>(
        &'a self,
        key: TypeKey,
        task: Option<&'a Self>,
        global: &'a Self,
    ) -> (answer: Resolution<'a, V, R>)
        ensures
            answer == self@.resolve(key, Self::view_of(task), &global@),
    {
        match self.container.get(key) {
            Lookup::Value(value) => {
                return Resolution::Value { value, source: Source::Own };
            },
            Lookup::Resolver { resolver, once } => {
                return Resolution::Resolver {
                    resolver,
                    once,
                    source: Source::Own,
                    performer: Performer::Requester,
                };
            },
            Lookup::Missing => {},
        }
        if !self.kind.is_proxy() {
            return Resolution::Absent;
        }
        let mut performer = Performer::Requester;
        if !self.kind.is_task_local() {
            if let Some(scope) = task {
                match scope.container.get(key) {
                    Lookup::Value(value) => {
                        return Resolution::Value { value, source: Source::Task };
                    },
                    Lookup::Resolver { resolver, once } => {
                        return Resolution::Resolver {
                            resolver,
                            once,
                            source: Source::Task,
                            performer: Performer::Task,
                        };
                    },
                    Lookup::Missing => {},
                }
                performer = Performer::Task;
            }
        }
        match global.container.get(key) {
            Lookup::Value(value) => Resolution::Value { value, source: Source::Global },
            Lookup::Resolver { resolver, once } => Resolution::Resolver {
                resolver,
                once,
                source: Source::Global,
                performer,
            },
            Lookup::Missing => Resolution::Absent,
        }
    }

    /// The answer of this scope to a request for `key`.
    ///
    /// A proxy that is not task-local asks which task is running and passes
    /// through that task's scope in `tasks`; whichever task that turns out
    /// to be, the answer is that of `resolve` with its scope.
    pub fn get_type<'a>(
        &'a self,
        key: TypeKey,
        tasks: &'a TaskTable<V, R>,
        global: &'a Self,
    ) -> (answer: Resolution<'a, V, R>)
        ensures
            exists|current: Option<u64>|
                answer == self@.resolve(key, #[trigger] scope_of(&tasks@, current), &global@),
            !(self@.kind is Proxy) ==> answer == self@.resolve(key, None, &global@),
    {
        if self.kind.is_proxy() && !self.kind.is_task_local() {
            let current = current_task();
            let answer = self.resolve(key, tasks.current_scope(current), global);
            assert(answer == self@.resolve(key, scope_of(&tasks@, current), &global@));
            answer
        } else {
            let answer = self.resolve(key, None, global);
            assert(answer == self@.resolve(key, scope_of(&tasks@, None), &global@));
            answer
        }
    }

    /// The answer of `get_type` where this scope is a proxy; a scope that is
    /// not a proxy answers `Absent`.
    pub fn proxy_value<'a>(
        &'a self,
        key: TypeKey,
        tasks: &'a TaskTable<V, R>,
        global: &'a Self,
    ) -> (answer: Resolution<'a, V, R>)
        ensures
            self@.kind is Proxy ==> exists|current: Option<u64>|
                answer == self@.resolve(key, #[trigger] scope_of(&tasks@, current), &global@),
            self@.kind is TaskLocal ==> answer == self@.resolve(key, None, &global@),
            self@.kind is Global ==> answer is Absent,
    {
        if self.kind.is_proxy() {
            self.get_type(key, tasks, global)
        } else {
            Resolution::Absent
        }
    }

    /// Takes out a handle to the scope of the running task, if a task is
    /// running and has a scope in `tasks`; returns the task's identifier
    /// where it did, and leaves `tasks` as it is where it did not.
    pub fn get_task_instance(tasks: &mut TaskTable<V, R>) -> (joined_as: Option<u64>)
        ensures
            match joined_as {
                Some(id) => old(tasks)@.contains_key(id) && final(tasks)@ == joined(
                    old(tasks)@,
                    id,
                ),
                None => final(tasks)@ == old(tasks)@,
            },
    {
        tasks.join_current(current_task())
    }

    /// Takes out a handle to the task-local scope of the running task,
    /// making the scope on the first request inside the task. Returns the
    /// task's identifier, under which `tasks` holds the scope. Outside of
    /// any task it fails and leaves `tasks` as it is.
    pub fn make_task_proxy(tasks: &mut TaskTable<V, R>) -> (entered_as: Result<u64, String>)
        ensures
            match entered_as {
                Ok(id) => final(tasks)@ == entered(old(tasks)@, id),
                Err(message) => message@ == no_active_task() && final(tasks)@ == old(tasks)@,
            },
    {
        tasks.enter_current(current_task())
    }

    /// Stores `value` under `key` in this scope's own container, replacing
    /// any value stored there before. No other scope is written.
    pub fn set_type(&mut self, key: TypeKey, value: V)
        ensures
            final(self)@ == old(self)@.with_value(key, value),
    {
        self.container.set(key, value);
    }

    /// Takes in the product of a resolver that ran for this scope: stores it
    /// under `key` where the resolver was registered once, and hands it back
    /// untouched where it was not.
    pub fn resolved(&mut self, key: TypeKey, value: V, once: bool) -> (back: Option<V>)
        ensures
            final(self)@ == old(self)@.after_resolved(key, value, once),
            back == (if once {
                None
            } else {
                Some(value)
            }),
    {
        if once {
            self.container.set(key, value);
            None
        } else {
            Some(value)
        }
    }

    /// Forgets `key` in this scope: removes its value and its resolver, and
    /// hands back the value, or the resolver where no value was stored.
    pub fn forget_type(&mut self, key: TypeKey) -> (forgotten: Forgotten<V, R>)
        ensures
            final(self)@ == old(self)@.without(key),
            forgotten == old(self)@.container.forgotten(key),
    {
        self.container.forget(key)
    }

    /// Removes the resolver of `key` from this scope; tells whether there
    /// was one.
    pub fn forget_resolver(&mut self, key: TypeKey) -> (removed: bool)
        ensures
            final(self)@ == old(self)@.without_resolver(key),
            removed == old(self)@.container.resolvers.contains_key(key),
    {
        self.container.remove_resolver(key)
    }

    /// Registers `callback` to run every time `key` is requested and no
    /// value is stored, replacing the resolver registered before.
    pub fn resolver(&mut self, key: TypeKey, callback: R)
        ensures
            final(self)@ == old(self)@.with_resolver(
                key,
                Registration { resolver: callback, once: false },
            ),
    {
        self.container.resolver(key, Registration { resolver: callback, once: false });
    }

    /// Registers `callback` as `resolver` does, unless `key` has a resolver
    /// already.
    pub fn soft_resolver(&mut self, key: TypeKey, callback: R)
        ensures
            final(self)@ == old(self)@.with_soft_resolver(
                key,
                Registration { resolver: callback, once: false },
            ),
    {
        self.container.soft_resolver(key, Registration { resolver: callback, once: false });
    }

    /// Registers `callback` to run the first time `key` is requested; its
    /// product is then stored. Replaces the resolver registered before.
    pub fn resolver_once(&mut self, key: TypeKey, callback: R)
        ensures
            final(self)@ == old(self)@.with_resolver(
                key,
                Registration { resolver: callback, once: true },
            ),
    {
        self.container.resolver(key, Registration { resolver: callback, once: true });
    }

    /// Registers `callback` as `resolver_once` does, unless `key` has a
    /// resolver already.
    pub fn soft_resolver_once(&mut self, key: TypeKey, callback: R)
        ensures
            final(self)@ == old(self)@.with_soft_resolver(
                key,
                Registration { resolver: callback, once: true },
            ),
    {
        if !self.container.has_resolver(key) {
            self.resolver_once(key, callback);
        }
    }
}

impl<V, R> Default for ServiceContainer<V, R> {
    /// The global scope, holding nothing.
    fn default() -> (scope: Self)
        ensures
            scope@ == ScopeView::<V, R>::fresh_global(),
    {
        Self::new()
    }
}

} // verus!
