//! What holds of type keys, of scopes and of the task table across several
//! operations.
//!
//! Each law is stated over the views that the contracts of the operations
//! speak of, so it holds of every sequence of calls whose contracts produce
//! those views.

use crate::container::ContainerView;
use crate::container::Forgotten;
use crate::container::Lookup;
use crate::key::key_in;
use crate::key::with_type;
use crate::key::TypeKey;
use crate::registry::Registration;
use crate::scope::answer_resolver;
use crate::scope::answer_value;
use crate::scope::Performer;
use crate::scope::ScopeView;
use crate::scope::Source;
use crate::task::entered;
use crate::task::joined;
use crate::task::one_more;
use crate::task::released;
use crate::task::well_formed;
use crate::task::with_scope;
use crate::task::TaskSlotView;
use std::any::TypeId;
use vstd::prelude::*;

verus! {

/// In a list without repeats, a type's place is where the type stands.
proof fn lemma_place_of_listed_type(known: Seq<TypeId>, place: int)
    requires
        known.no_duplicates(),
        0 <= place < known.len(),
    ensures
        known.index_of(known[place]) == place,
{
    let found = choose|i: int| 0 <= i < known.len() && known[i] == known[place];
    assert(known.index_of(known[place]) == found);
}

/// Asking for a type's key keeps the list free of repeats and moves no type
/// that was listed; the type asked for is listed afterwards.
proof fn lemma_with_type_extends(known: Seq<TypeId>, type_id: TypeId)
    requires
        known.no_duplicates(),
    ensures
        with_type(known, type_id).no_duplicates(),
        with_type(known, type_id).contains(type_id),
        known.len() <= with_type(known, type_id).len() <= known.len() + 1,
        forall|place: int|
            0 <= place < known.len() ==> #[trigger] with_type(known, type_id)[place]
                == known[place],
{
    let after = with_type(known, type_id);
    if known.contains(type_id) {
    } else {
        assert(after[known.len() as int] == type_id);
        assert forall|i: int, j: int|
            0 <= i < after.len() && 0 <= j < after.len() && i != j implies after[i]
            != after[j] by {
            if i < known.len() && j < known.len() {
                assert(known[i] != known[j]);
            } else if i < known.len() {
                assert(known.contains(known[i]));
            } else {
                assert(known.contains(known[j]));
            }
        }
    }
}

/// Type keys tell types apart: two types have the same key exactly when
/// they are the same type. A key that was handed out never changes when
/// further types are asked for.
pub proof fn law_keys_tell_types_apart(known: Seq<TypeId>, first: TypeId, second: TypeId)
    requires
        known.no_duplicates(),
        known.len() + 2 <= u64::MAX,
    ensures
        ({
            let one = with_type(known, first);
            let both = with_type(one, second);
            &&& both.no_duplicates()
            &&& key_in(both, first) == key_in(one, first)
            &&& key_in(both, first) == key_in(both, second) <==> first == second
            &&& forall|listed: TypeId| #[trigger]
                known.contains(listed) ==> key_in(both, listed) == key_in(known, listed)
        }),
{
    let one = with_type(known, first);
    let both = with_type(one, second);
    lemma_with_type_extends(known, first);
    lemma_with_type_extends(one, second);
    let first_in_one = choose|i: int| 0 <= i < one.len() && one[i] == first;
    assert(both[first_in_one] == one[first_in_one]);
    lemma_place_of_listed_type(one, first_in_one);
    lemma_place_of_listed_type(both, first_in_one);
    let second_in_both = choose|i: int| 0 <= i < both.len() && both[i] == second;
    lemma_place_of_listed_type(both, second_in_both);
    assert forall|listed: TypeId| #[trigger] known.contains(listed) implies key_in(both, listed)
        == key_in(known, listed) by {
        let place = choose|i: int| 0 <= i < known.len() && known[i] == listed;
        assert(one[place] == known[place]);
        assert(both[place] == one[place]);
        lemma_place_of_listed_type(known, place);
        lemma_place_of_listed_type(both, place);
    }
}

/// Whether nothing behind `scope` in the fallback chain has a value or a
/// resolver for `key`.
pub open spec fn fallback_lacks<V, R>(
    scope: ScopeView<V, R>,
    key: TypeKey,
    task: Option<&ScopeView<V, R>>,
    global: &ScopeView<V, R>,
) -> bool {
    scope.kind.is_proxy() ==> {
        &&& global.container.lacks(key)
        &&& scope.consults_task(task) ==> task.unwrap().container.lacks(key)
    }
}

/// A scope that holds nothing answers `Absent` for every key that nothing
/// behind it in the fallback chain provides. Its own container misses every
/// key in any case.
pub proof fn law_fresh_scope_is_absent<V, R>(
    scope: ScopeView<V, R>,
    key: TypeKey,
    task: Option<&ScopeView<V, R>>,
    global: &ScopeView<V, R>,
)
    requires
        scope.container == ContainerView::<V, R>::empty(),
        fallback_lacks(scope, key, task, global),
    ensures
        scope.container.lookup(key) is Missing,
        scope.resolve(key, task, global) is Absent,
{
}

/// A value that was set is what a request returns, from the scope's own
/// container, whatever resolvers are registered and whatever the fallback
/// chain holds. Setting a second value for the same key replaces the first:
/// the scope is then as if only the second had been set.
pub proof fn law_set_then_get<V, R>(
    scope: ScopeView<V, R>,
    key: TypeKey,
    first: V,
    second: V,
    task: Option<&ScopeView<V, R>>,
    global: &ScopeView<V, R>,
)
    ensures
        scope.with_value(key, first).resolve(key, task, global) == answer_value::<V, R>(&first, Source::Own),
        scope.with_value(key, first).with_value(key, second).resolve(key, task, global) == answer_value::<V, R>(&second, Source::Own),
        scope.with_value(key, first).with_value(key, second) == scope.with_value(key, second),
{
    assert(scope.with_value(key, first).with_value(key, second).container.values
        =~= scope.with_value(key, second).container.values);
}

/// Setting a value for one key changes the answer for no other key.
pub proof fn law_set_is_local_to_key<V, R>(
    scope: ScopeView<V, R>,
    key: TypeKey,
    other: TypeKey,
    value: V,
    task: Option<&ScopeView<V, R>>,
    global: &ScopeView<V, R>,
)
    requires
        other != key,
    ensures
        scope.with_value(key, value).resolve(other, task, global) == scope.resolve(
            other,
            task,
            global,
        ),
{
}

/// A resolver registered once runs at most once per scope: until its product
/// is taken in, a request hands the resolver out; once the product is taken
/// in, every request returns that product from the value store and the
/// resolver is not handed out again. A request by itself changes nothing, so
/// this holds of any number of requests.
pub proof fn law_resolver_once_is_kept<V, R>(
    scope: ScopeView<V, R>,
    key: TypeKey,
    callback: R,
    product: V,
    task: Option<&ScopeView<V, R>>,
    global: &ScopeView<V, R>,
)
    requires
        !scope.container.values.contains_key(key),
    ensures
        ({
            let registered = scope.with_resolver(
                key,
                Registration { resolver: callback, once: true },
            );
            &&& registered.resolve(key, task, global) == answer_resolver::<V, R>(&callback, true, Source::Own, Performer::Requester)
            &&& registered.after_resolved(key, product, true).resolve(key, task, global) == answer_value::<V, R>(&product, Source::Own)
        }),
{
}

/// A resolver registered plainly runs on every request: taking in its
/// product leaves the scope as it was, so the next request hands the
/// resolver out again.
pub proof fn law_plain_resolver_runs_again<V, R>(
    scope: ScopeView<V, R>,
    key: TypeKey,
    callback: R,
    product: V,
    task: Option<&ScopeView<V, R>>,
    global: &ScopeView<V, R>,
)
    requires
        !scope.container.values.contains_key(key),
    ensures
        ({
            let registered = scope.with_resolver(
                key,
                Registration { resolver: callback, once: false },
            );
            &&& registered.after_resolved(key, product, false) == registered
            &&& registered.resolve(key, task, global) == answer_resolver::<V, R>(&callback, false, Source::Own, Performer::Requester)
        }),
{
}

/// A proxy with nothing of its own for a key answers with what the global
/// scope holds. A value set in the proxy then takes precedence there, and
/// the global scope, which the write did not touch, answers as before.
pub proof fn law_proxy_falls_back_and_writes_locally<V, R>(
    proxy: ScopeView<V, R>,
    global: ScopeView<V, R>,
    key: TypeKey,
    local: V,
    task: Option<&ScopeView<V, R>>,
)
    requires
        proxy.kind.is_proxy(),
        proxy.container.lacks(key),
        proxy.consults_task(task) ==> task.unwrap().container.lacks(key),
        global.container.values.contains_key(key),
    ensures
        proxy.resolve(key, task, &global) == answer_value::<V, R>(&global.container.values[key], Source::Global),
        proxy.with_value(key, local).resolve(key, task, &global) == answer_value::<V, R>(&local, Source::Own),
        global.resolve(key, None, &global) == answer_value::<V, R>(&global.container.values[key], Source::Own),
{
}

/// All handles taken out inside one task share one scope: a second handle
/// adds no scope and leaves the first one's scope as it is, and a value set
/// through the task's scope is what a request to that scope returns. The
/// scope of another task is a different one: it is what it would have been
/// without that write, and a key it lacks is answered from the global
/// container.
pub proof fn law_task_scopes_are_shared_per_task<V, R>(
    table: Map<u64, TaskSlotView<V, R>>,
    first: u64,
    second: u64,
    key: TypeKey,
    value: V,
    global: &ScopeView<V, R>,
)
    requires
        first != second,
    ensures
        ({
            let once = entered(table, first);
            let twice = entered(once, first);
            let written = with_scope(twice, first, twice[first].scope.with_value(key, value));
            let both = entered(written, second);
            &&& twice.dom() == once.dom()
            &&& twice[first].scope == once[first].scope
            &&& twice[first].handles == one_more(once[first].handles)
            &&& written[first].scope.resolve(key, None, global) == answer_value::<V, R>(
                &value,
                Source::Own,
            )
            &&& both[first] == written[first]
            &&& both[second].scope == entered(table, second)[second].scope
            &&& !table.contains_key(second) ==> both[second].scope == ScopeView::<
                V,
                R,
            >::fresh_task(second)
            &&& both[second].scope.kind.is_proxy() && both[second].scope.container.lacks(key)
                ==> both[second].scope.resolve(key, None, global) == ScopeView::located(
                global.container.lookup(key),
                Source::Global,
                Performer::Requester,
            )
        }),
{
    let once = entered(table, first);
    assert(entered(once, first).dom() =~= once.dom());
}

/// No operation changes what kind of scope a scope is, nor its identifier.
pub proof fn law_kind_is_fixed<V, R>(
    scope: ScopeView<V, R>,
    key: TypeKey,
    value: V,
    registration: Registration<R>,
    once: bool,
)
    ensures
        scope.with_value(key, value).kind == scope.kind,
        scope.with_resolver(key, registration).kind == scope.kind,
        scope.with_soft_resolver(key, registration).kind == scope.kind,
        scope.after_resolved(key, value, once).kind == scope.kind,
        scope.without_resolver(key).kind == scope.kind,
        scope.without(key).kind == scope.kind,
{
}

/// The table of task-local scopes starts well formed and stays so under
/// every operation of its own, and under every write to a scope in it that
/// keeps the scope's kind, as all operations of a scope do.
pub proof fn law_task_table_stays_well_formed<V, R>(
    table: Map<u64, TaskSlotView<V, R>>,
    id: u64,
    scope: ScopeView<V, R>,
)
    requires
        well_formed(table),
    ensures
        well_formed(Map::<u64, TaskSlotView<V, R>>::empty()),
        well_formed(entered(table, id)),
        well_formed(joined(table, id)),
        well_formed(released(table, id)),
        table.contains_key(id) && scope.kind == table[id].scope.kind ==> well_formed(
            with_scope(table, id, scope),
        ),
{
}

/// In a well-formed table the scope of a task is a proxy of its own: a key
/// it lacks is answered from the global container, whatever the scopes of
/// other tasks hold.
pub proof fn law_task_scope_falls_back_to_global<V, R>(
    table: Map<u64, TaskSlotView<V, R>>,
    id: u64,
    key: TypeKey,
    task: Option<&ScopeView<V, R>>,
    global: &ScopeView<V, R>,
)
    requires
        well_formed(table),
        table.contains_key(id),
        table[id].scope.container.lacks(key),
    ensures
        table[id].scope.resolve(key, task, global) == ScopeView::located(
            global.container.lookup(key),
            Source::Global,
            Performer::Requester,
        ),
{
}

/// A task-local scope lives exactly as long as handles to it are out: while
/// more than one is out, giving one back keeps the scope and what it holds;
/// giving back the last removes it from the table. Taking a handle out and
/// giving it back leaves the table as it was.
pub proof fn law_task_scope_ends_with_last_handle<V, R>(
    table: Map<u64, TaskSlotView<V, R>>,
    id: u64,
)
    requires
        table.contains_key(id),
    ensures
        table[id].handles > 1 ==> released(table, id).contains_key(id) && released(
            table,
            id,
        )[id].scope == table[id].scope && released(table, id)[id].handles == table[id].handles
            - 1,
        table[id].handles <= 1 ==> !released(table, id).contains_key(id),
        1 <= table[id].handles < usize::MAX ==> released(entered(table, id), id) == table,
{
    if 1 <= table[id].handles < usize::MAX {
        assert(released(entered(table, id), id) =~= table);
    }
}

/// Forgetting a key that has only a resolver hands that resolver back, for
/// one last run, and clears it: the scope's own container then misses the
/// key, and a request is `Absent` unless the fallback chain provides it.
pub proof fn law_forget_clears_resolver<V, R>(
    scope: ScopeView<V, R>,
    key: TypeKey,
    task: Option<&ScopeView<V, R>>,
    global: &ScopeView<V, R>,
)
    requires
        !scope.container.values.contains_key(key),
        scope.container.resolvers.contains_key(key),
    ensures
        scope.container.forgotten(key) == Forgotten::<V, R>::Resolver(
            scope.container.resolvers[key].resolver,
        ),
        scope.without(key).container.lacks(key),
        scope.without(key).container.lookup(key) is Missing,
        fallback_lacks(scope, key, task, global) ==> scope.without(key).resolve(
            key,
            task,
            global,
        ) is Absent,
{
}

/// Forgetting a key with a stored value hands the value back and clears the
/// key's resolver with it, so that nothing brings the value back.
pub proof fn law_forget_clears_value_and_resolver<V, R>(scope: ScopeView<V, R>, key: TypeKey)
    requires
        scope.container.values.contains_key(key),
    ensures
        scope.container.forgotten(key) == Forgotten::<V, R>::Value(scope.container.values[key]),
        scope.without(key).container.lacks(key),
{
}

/// A soft registration never overrides: after a resolver was registered for
/// a key, a soft registration for the same key leaves the scope as it was,
/// and a request hands out the first resolver.
pub proof fn law_soft_resolver_does_not_override<V, R>(
    scope: ScopeView<V, R>,
    key: TypeKey,
    first: Registration<R>,
    second: Registration<R>,
    task: Option<&ScopeView<V, R>>,
    global: &ScopeView<V, R>,
)
    ensures
        scope.with_resolver(key, first).with_soft_resolver(key, second) == scope.with_resolver(
            key,
            first,
        ),
        !scope.container.values.contains_key(key) ==> scope.with_resolver(
            key,
            first,
        ).with_soft_resolver(key, second).resolve(key, task, global) == answer_resolver::<V, R>(&first.resolver, first.once, Source::Own, Performer::Requester),
{
}

/// A soft registration for a key without a resolver is a registration.
pub proof fn law_soft_resolver_registers_when_free<V, R>(
    scope: ScopeView<V, R>,
    key: TypeKey,
    registration: Registration<R>,
)
    requires
        !scope.container.resolvers.contains_key(key),
    ensures
        scope.with_soft_resolver(key, registration) == scope.with_resolver(key, registration),
{
}

/// What a run of requests came to.
pub struct Served<V, R> {
    /// The scope after the last request.
    pub scope: ScopeView<V, R>,
    /// The value that each request returned, in order.
    pub answers: Seq<V>,
    /// How many times a resolver ran.
    pub runs: nat,
}

/// `count` requests in a row for `key`, answered by the scope's own
/// container. A stored value is returned as it is. A resolver that is
/// handed out is run, its product is the next of `products`, and the scope
/// takes the product in as `resolved` does. A key that the container
/// misses ends the run.
pub open spec fn serve<V, R>(
    scope: ScopeView<V, R>,
    key: TypeKey,
    products: Seq<V>,
    count: nat,
) -> Served<V, R>
    decreases count,
{
    if count == 0 {
        Served { scope, answers: Seq::empty(), runs: 0 }
    } else {
        match scope.container.lookup(key) {
            Lookup::Value(value) => {
                let rest = serve(scope, key, products, (count - 1) as nat);
                Served { scope: rest.scope, answers: seq![*value] + rest.answers, runs: rest.runs }
            },
            Lookup::Resolver { resolver, once } => {
                let rest = serve(
                    scope.after_resolved(key, products[0], once),
                    key,
                    products.drop_first(),
                    (count - 1) as nat,
                );
                Served {
                    scope: rest.scope,
                    answers: seq![products[0]] + rest.answers,
                    runs: rest.runs + 1,
                }
            },
            Lookup::Missing => Served { scope, answers: Seq::empty(), runs: 0 },
        }
    }
}

/// Requests for a key with a stored value all return that value, run no
/// resolver and leave the scope as it is.
pub proof fn law_stored_value_is_served_unchanged<V, R>(
    scope: ScopeView<V, R>,
    key: TypeKey,
    products: Seq<V>,
    count: nat,
)
    requires
        scope.container.values.contains_key(key),
    ensures
        serve(scope, key, products, count).answers == Seq::new(
            count,
            |i: int| scope.container.values[key],
        ),
        serve(scope, key, products, count).runs == 0,
        serve(scope, key, products, count).scope == scope,
    decreases count,
{
    if count > 0 {
        law_stored_value_is_served_unchanged(scope, key, products, (count - 1) as nat);
        assert(serve(scope, key, products, count).answers =~= Seq::new(
            count,
            |i: int| scope.container.values[key],
        ));
    } else {
        assert(serve(scope, key, products, count).answers =~= Seq::new(
            count,
            |i: int| scope.container.values[key],
        ));
    }
}

/// Any number of requests for a key whose resolver was registered once run
/// the resolver exactly once, and every request returns the product of
/// that one run.
pub proof fn law_resolver_once_runs_once<V, R>(
    scope: ScopeView<V, R>,
    key: TypeKey,
    callback: R,
    products: Seq<V>,
    count: nat,
)
    requires
        !scope.container.values.contains_key(key),
        count >= 1,
        products.len() >= 1,
    ensures
        ({
            let registered = scope.with_resolver(
                key,
                Registration { resolver: callback, once: true },
            );
            &&& serve(registered, key, products, count).answers == Seq::new(
                count,
                |i: int| products[0],
            )
            &&& serve(registered, key, products, count).runs == 1
        }),
{
    let registered = scope.with_resolver(key, Registration { resolver: callback, once: true });
    let kept = registered.after_resolved(key, products[0], true);
    law_stored_value_is_served_unchanged(kept, key, products.drop_first(), (count - 1) as nat);
    assert(serve(registered, key, products, count).answers =~= Seq::new(
        count,
        |i: int| products[0],
    ));
}

/// Requests for a key whose resolver was registered plainly run the
/// resolver every time: the n-th request returns the product of the n-th
/// run.
pub proof fn law_plain_resolver_runs_every_time<V, R>(
    scope: ScopeView<V, R>,
    key: TypeKey,
    products: Seq<V>,
    count: nat,
)
    requires
        !scope.container.values.contains_key(key),
        scope.container.resolvers.contains_key(key),
        !scope.container.resolvers[key].once,
        products.len() >= count,
    ensures
        serve(scope, key, products, count).answers == products.take(count as int),
        serve(scope, key, products, count).runs == count,
        serve(scope, key, products, count).scope == scope,
    decreases count,
{
    if count > 0 {
        law_plain_resolver_runs_every_time(
            scope,
            key,
            products.drop_first(),
            (count - 1) as nat,
        );
        assert(serve(scope, key, products, count).answers =~= products.take(count as int));
    } else {
        assert(serve(scope, key, products, count).answers =~= products.take(count as int));
    }
}

} // verus!
