//! The table of task-local scopes: one scope per running task, shared by
//! every handle taken out inside that task and discarded with the last.

use crate::scope::ScopeKind;
use crate::scope::ScopeView;
use crate::scope::ServiceContainer;
use std::collections::hash_map::Entry;
use std::collections::HashMap;
use vstd::prelude::*;

verus! {

/// The content of one slot of the table.
#[verifier::ext_equal]
pub struct TaskSlotView<V, R> {
    /// How many handles to the scope are out.
    pub handles: usize,
    /// The scope of the task.
    pub scope: ScopeView<V, R>,
}

/// The handle count after one more handle is taken out. The count wraps
/// round at the largest `usize`.
pub open spec fn one_more(handles: usize) -> usize {
    if handles == usize::MAX {
        0
    } else {
        (handles + 1) as usize
    }
}

/// The table after a handle to the scope of task `id` was taken out: the
/// count of an existing slot goes up by one, and a task without a slot gets
/// a fresh task-local scope with one handle.
pub open spec fn entered<V, R>(
    table: Map<u64, TaskSlotView<V, R>>,
    id: u64,
) -> Map<u64, TaskSlotView<V, R>> {
    if table.contains_key(id) {
        table.insert(
            id,
            TaskSlotView { handles: one_more(table[id].handles), scope: table[id].scope },
        )
    } else {
        table.insert(id, TaskSlotView { handles: 1, scope: ScopeView::fresh_task(id) })
    }
}

/// The table after a handle to the scope of task `id` was taken out, where
/// that is done only if the task has a scope already.
pub open spec fn joined<V, R>(
    table: Map<u64, TaskSlotView<V, R>>,
    id: u64,
) -> Map<u64, TaskSlotView<V, R>> {
    if table.contains_key(id) {
        entered(table, id)
    } else {
        table
    }
}

/// The table after a handle to the scope of task `id` was given back: the
/// slot goes with the last handle, and everything stored in it.
pub open spec fn released<V, R>(
    table: Map<u64, TaskSlotView<V, R>>,
    id: u64,
) -> Map<u64, TaskSlotView<V, R>> {
    if !table.contains_key(id) {
        table
    } else if table[id].handles <= 1 {
        table.remove(id)
    } else {
        table.insert(
            id,
            TaskSlotView { handles: (table[id].handles - 1) as usize, scope: table[id].scope },
        )
    }
}

/// The table with the scope of task `id` replaced, the count kept.
pub open spec fn with_scope<V, R>(
    table: Map<u64, TaskSlotView<V, R>>,
    id: u64,
    scope: ScopeView<V, R>,
) -> Map<u64, TaskSlotView<V, R>> {
    table.insert(id, TaskSlotView { handles: table[id].handles, scope })
}

/// The scope of task `current` in the table, if there is a running task and
/// it has a scope.
pub open spec fn scope_of<'a, V, R>(
    table: &'a Map<u64, TaskSlotView<V, R>>,
    current: Option<u64>,
) -> Option<&'a ScopeView<V, R>> {
    match current {
        Some(id) => if table.contains_key(id) {
            Some(&table[id].scope)
        } else {
            None
        },
        None => None,
    }
}

/// Whether every scope in the table is the task-local scope of the task it
/// is filed under. A table is made so and stays so as long as no caller
/// swaps a scope for one of another kind.
pub open spec fn well_formed<V, R>(table: Map<u64, TaskSlotView<V, R>>) -> bool {
    forall|id: u64| #[trigger]
        table.contains_key(id) ==> table[id].scope.kind == (ScopeKind::TaskLocal { id })
}

/// What a caller outside of any task is told when it asks for a task-local
/// scope.
pub open spec fn no_active_task() -> Seq<char> {
    "Task proxy requires a async task process"@
}

struct TaskSlot<V, R> {
    handles: usize,
    scope: ServiceContainer<V, R>,
}

impl<V, R> TaskSlot<V, R> {
    spec fn view(&self) -> TaskSlotView<V, R> {
        TaskSlotView { handles: self.handles, scope: self.scope@ }
    }
}

/// The task-local scopes, by task identifier, each with the number of
/// handles that are out.
pub struct TaskTable<V, R> {
    slots: HashMap<u64, TaskSlot<V, R>>,
}

impl<V, R> TaskTable<V, R> {
    /// The slots as a map from task identifier to slot content.
    pub closed spec fn view(&self) -> Map<u64, TaskSlotView<V, R>> {
        self.slots@.map_values(|slot: TaskSlot<V, R>| slot@)
    }

    /// A table without any scope.
    pub fn new() -> (table: Self)
        ensures
            table@ == Map::<u64, TaskSlotView<V, R>>::empty(),
    {
        let table = TaskTable { slots: HashMap::new() };
        assert(table@ =~= Map::<u64, TaskSlotView<V, R>>::empty());
        table
    }

    /// The scope of task `id`, if the task has one.
    pub fn scope(&self, id: u64) -> (scope: Option<&ServiceContainer<V, R>>)
        ensures
            ServiceContainer::view_of(scope) == (if self@.contains_key(id) {
                Some(&self@[id].scope)
            } else {
                None
            }),
    {
        broadcast use vstd::std_specs::hash::group_hash_axioms;

        match self.slots.get(&id) {
            Some(slot) => Some(&slot.scope),
            None => None,
        }
    }

    /// The scope of task `id` for writing, if the task has one. What the
    /// caller leaves in it is what the table holds afterwards; the handle
    /// count is not touched.
    pub fn scope_mut(&mut self, id: u64) -> (scope: Option<&mut ServiceContainer<V, R>>)
        ensures
            match scope {
                Some(scope) => {
                    &&& old(self)@.contains_key(id)
                    &&& scope@ == old(self)@[id].scope
                    &&& final(self)@ == with_scope(old(self)@, id, final(scope)@)
                },
                None => !old(self)@.contains_key(id) && final(self)@ == old(self)@,
            },
    {
        broadcast use vstd::std_specs::hash::group_hash_axioms;

        match self.slots.entry(id) {
            Entry::Occupied(entry) => {
                let slot = entry.into_mut();
                Some(&mut slot.scope)
            },
            Entry::Vacant(_) => None,
        }
    }

    /// How many handles to the scope of task `id` are out; `None` where the
    /// task has no scope.
    pub fn handles(&self, id: u64) -> (count: Option<usize>)
        ensures
            count == (if self@.contains_key(id) {
                Some(self@[id].handles)
            } else {
                None
            }),
    {
        broadcast use vstd::std_specs::hash::group_hash_axioms;

        match self.slots.get(&id) {
            Some(slot) => Some(slot.handles),
            None => None,
        }
    }

    /// Takes out one more handle to the scope of task `id`, if the task has
    /// a scope; tells whether it has.
    pub fn join(&mut self, id: u64) -> (found: bool)
        ensures
            found == old(self)@.contains_key(id),
            final(self)@ == joined(old(self)@, id),
    {
        broadcast use vstd::std_specs::hash::group_hash_axioms;

        match self.slots.remove(&id) {
            Some(slot) => {
                let handles: usize = if slot.handles == usize::MAX {
                    0
                } else {
                    slot.handles + 1
                };
                self.slots.insert(id, TaskSlot { handles, scope: slot.scope });
                assert(self@ =~= joined(old(self)@, id));
                true
            },
            None => {
                assert(self@ =~= old(self)@);
                false
            },
        }
    }

    /// Takes out a handle to the scope of task `id`, making the scope where
    /// the task has none yet.
    pub fn enter(&mut self, id: u64)
        ensures
            final(self)@ == entered(old(self)@, id),
    {
        broadcast use vstd::std_specs::hash::group_hash_axioms;

        if !self.join(id) {
            self.slots.insert(id, TaskSlot { handles: 1, scope: ServiceContainer::task_with_id(id) });
            assert(self@ =~= entered(old(self)@, id));
        }
    }

    /// The scope of the running task, if there is a running task and it has
    /// a scope.
    pub fn current_scope(&self, current: Option<u64>) -> (scope: Option<&ServiceContainer<V, R>>)
        ensures
            ServiceContainer::view_of(scope) == scope_of(&self@, current),
    {
        match current {
            Some(id) => self.scope(id),
            None => None,
        }
    }

    /// Takes out a handle to the scope of the running task, if there is a
    /// running task and it has a scope already; returns the task's
    /// identifier where it did.
    pub fn join_current(&mut self, current: Option<u64>) -> (joined_as: Option<u64>)
        ensures
            joined_as == (match current {
                Some(id) => if old(self)@.contains_key(id) {
                    Some(id)
                } else {
                    None
                },
                None => None,
            }),
            final(self)@ == (match current {
                Some(id) => joined(old(self)@, id),
                None => old(self)@,
            }),
    {
        match current {
            Some(id) => if self.join(id) {
                Some(id)
            } else {
                None
            },
            None => None,
        }
    }

    /// Takes out a handle to the scope of the running task, making the scope
    /// where the task has none yet, and returns the task's identifier.
    /// Outside of any task it fails, and the table is left as it is.
    pub fn enter_current(&mut self, current: Option<u64>) -> (entered_as: Result<u64, String>)
        ensures
            match current {
                Some(id) => entered_as == Ok::<u64, String>(id) && final(self)@ == entered(
                    old(self)@,
                    id,
                ),
                None => {
                    &&& entered_as matches Err(message)
                    &&& message@ == no_active_task()
                    &&& final(self)@ == old(self)@
                },
            },
    {
        match current {
            Some(id) => {
                self.enter(id);
                Ok(id)
            },
            None => Err("Task proxy requires a async task process".to_string()),
        }
    }

    /// Gives back one handle to the scope of task `id`. With the last handle
    /// the scope is removed from the table and dropped with all it holds. A
    /// task without a scope is left as it is.
    pub fn release(&mut self, id: u64)
        ensures
            final(self)@ == released(old(self)@, id),
    {
        broadcast use vstd::std_specs::hash::group_hash_axioms;

        match self.slots.remove(&id) {
            Some(slot) => {
                if slot.handles > 1 {
                    self.slots.insert(id, TaskSlot { handles: slot.handles - 1, scope: slot.scope });
                }
                assert(self@ =~= released(old(self)@, id));
            },
            None => {
                assert(self@ =~= old(self)@);
            },
        }
    }
}

} // verus!
