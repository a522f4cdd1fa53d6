//! In-memory backends: one for a single owner, one shared behind a
//! reader-writer lock.
use vstd::prelude::*;
use vstd::rwlock::RwLock;

use std::sync::Arc;

use super::inner;
use super::{KvError, KvResult, Storage};

verus! {

/// A store owned by one handle; every operation succeeds or reports
/// `KeyNotFound`.
pub struct InMemoryStorage {
    inner: inner::Storage,
}

impl InMemoryStorage {
    /// An empty store.
    pub fn new() -> (s: Self)
        ensures
            s.is_exclusive(),
            s.infallible(),
            s.contents() == Map::<Seq<char>, Seq<char>>::empty(),
    {
        InMemoryStorage { inner: inner::Storage::new() }
    }
}

impl Storage for InMemoryStorage {
    closed spec fn contents(&self) -> Map<Seq<char>, Seq<char>> {
        self.inner@
    }

    open spec fn is_exclusive(&self) -> bool {
        true
    }

    open spec fn infallible(&self) -> bool {
        true
    }

    fn set(&mut self, key: String, value: String) -> (r: KvResult<()>) {
        self.inner.set(key, value);
        Ok(())
    }

    fn get(&self, key: &str) -> (r: KvResult<String>) {
        self.inner.get(key)
    }

    fn delete(&mut self, key: &str) -> (r: KvResult<()>) {
        self.inner.delete(key)
    }
}

/// A handle to a store that all its clones share. Writers (`set`, `delete`)
/// take the lock exclusively; readers (`get`) share it.
pub struct SharedInMemoryStorage {
    inner: Arc<RwLock<inner::Storage, spec_fn(inner::Storage) -> bool>>,
}

impl SharedInMemoryStorage {
    /// The lock admits every map.
    #[verifier::type_invariant]
    spec fn inv(&self) -> bool {
        forall|s: inner::Storage| #[trigger] self.inner.inv(s)
    }

    /// A handle to a new, empty store.
    pub fn new() -> (s: Self)
        ensures
            !s.is_exclusive(),
            s.infallible(),
    {
        let lock = RwLock::new(inner::Storage::new(), Ghost(|s: inner::Storage| true));
        SharedInMemoryStorage { inner: Arc::new(lock) }
    }
}

impl Clone for SharedInMemoryStorage {
    /// Another handle to the same entries.
    fn clone(&self) -> (r: Self)
        ensures
            r == *self,
    {
        proof {
            use_type_invariant(self);
        }
        SharedInMemoryStorage { inner: Arc::clone(&self.inner) }
    }
}

impl Storage for SharedInMemoryStorage {
    /// Other handles may change the entries at any time, so this handle
    /// determines none of them.
    open spec fn contents(&self) -> Map<Seq<char>, Seq<char>> {
        Map::empty()
    }

    open spec fn is_exclusive(&self) -> bool {
        false
    }

    /// The lock cannot be poisoned, so no call fails but for an absent key.
    open spec fn infallible(&self) -> bool {
        true
    }

    fn set(&mut self, key: String, value: String) -> (r: KvResult<()>) {
        proof {
            use_type_invariant(&*self);
        }
        let (mut store, handle) = self.inner.acquire_write();
        store.set(key, value);
        handle.release_write(store);
        Ok(())
    }

    fn get(&self, key: &str) -> (r: KvResult<String>) {
        let handle = self.inner.acquire_read();
        let r = handle.borrow().get(key);
        handle.release_read();
        r
    }

    fn delete(&mut self, key: &str) -> (r: KvResult<()>) {
        proof {
            use_type_invariant(&*self);
        }
        let (mut store, handle) = self.inner.acquire_write();
        let r = store.delete(key);
        handle.release_write(store);
        r
    }
}

} // verus!
