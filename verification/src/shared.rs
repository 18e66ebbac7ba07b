//! The todo store behind a lock, for handlers that run at the same time.
//!
//! The critical section of an append is "append the item, copy the
//! sequence" and nothing more. The lock cannot be poisoned: the code that
//! runs while it is held is verified not to panic.

use crate::store::{TodoListView, TodoStore};
use vstd::prelude::*;
use vstd::rwlock::{RwLock, RwLockPredicate};

verus! {

/// The lock's condition on the store it guards: there is none, every
/// sequence of items is a store.
pub struct AnyStore;

impl RwLockPredicate<TodoStore> for AnyStore {
    open spec fn inv(self, store: TodoStore) -> bool {
        true
    }
}

/// One todo store, shared by reference between concurrent handlers.
pub struct SharedTodoStore {
    lock: RwLock<TodoStore, AnyStore>,
}

impl SharedTodoStore {
    /// A shared store that holds no items yet.
    ///
    /// What the lock guards changes under a shared reference, so it is no
    /// function of the value returned here, and no clause can speak of it.
    /// That the store starts empty shows in the first snapshot that
    /// [`append`](Self::append) returns.
    pub fn new() -> (shared: Self) {
        SharedTodoStore { lock: RwLock::new(TodoStore::new(), Ghost(AnyStore)) }
    }

    /// Appends `item` under the lock and returns the snapshot taken before
    /// the lock is released. Other appends may have run before this one, so
    /// all that is known of the snapshot is that it ends with `item`: a
    /// caller always reads its own write.
    pub fn append(&self, item: String) -> (view: TodoListView)
        ensures
            view@.len() > 0,
            view@.last() == item@,
    {
        let (mut store, handle) = self.lock.acquire_write();
        let view = store.append(item);
        handle.release_write(store);
        view
    }
}

} // verus!
