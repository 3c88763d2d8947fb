//! A service container: values and resolvers filed by type key, in scopes
//! that fall back to one another.
//!
//! A scope answers a request for a key from its own value store, else by
//! handing out the resolver registered for the key, else by asking the
//! scopes behind it: the scope of the running task, then the global scope.
//! The library never runs a resolver. It decides which one runs, for which
//! scope, and whether its product is kept; the caller runs it and hands
//! the product in.
//!
//! Nothing here is shared or locked. A caller that shares a scope among
//! threads or tasks puts it behind a lock and holds the lock for the length
//! of one call, never while a resolver runs.
//!
//! - `key`: type keys and the table that hands them out
//! - `store`, `registry`, `container`: what one scope holds
//! - `scope`: scopes, their kinds and the fallback chain
//! - `task`: the table of task-local scopes and their handle counts
//! - `identity`: the running task's identifier and freshly drawn ones
//! - `builder`, `provider`, `singleton`: filling a scope, reading from it
//! - `laws`: what holds across several operations

pub mod builder;
pub mod container;
pub mod identity;
pub mod key;
pub mod laws;
pub mod provider;
pub mod registry;
pub mod scope;
pub mod singleton;
pub mod store;
pub mod task;

pub use builder::ServiceContainerBuilder;
pub use container::Forgotten;
pub use container::Lookup;
pub use key::TypeKey;
pub use key::TypeKeys;
pub use provider::service;
pub use provider::ServiceProvider;
pub use registry::Registration;
pub use scope::Performer;
pub use scope::Resolution;
pub use scope::ScopeKind;
pub use scope::ServiceContainer;
pub use scope::Source;
pub use singleton::Singleton;
pub use task::TaskTable;
