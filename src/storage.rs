//! The storage contract and its in-memory backends.
use vstd::prelude::*;

pub mod error;
pub mod inner;
pub mod mem;

pub use error::KvError;
pub use mem::{InMemoryStorage, SharedInMemoryStorage};

verus! {

/// The result of a storage operation.
pub type KvResult<T> = Result<T, KvError>;

/// A key-value backend.
///
/// A handle is exclusive when its entries change only through the handle
/// itself; then every call is described exactly over `contents`. A handle
/// that shares its entries with other handles (other connections may write
/// between two calls) promises only the kind of each error. A handle is
/// infallible when no call of it reports a backend failure.
pub trait Storage {
    /// The entries, as far as this handle determines them.
    spec fn contents(&self) -> Map<Seq<char>, Seq<char>>;

    /// Whether the entries change only through this handle.
    spec fn is_exclusive(&self) -> bool;

    /// Whether no call reports a backend failure: `set` always succeeds, and
    /// `get` and `delete` fail only with `KeyNotFound`.
    spec fn infallible(&self) -> bool;

    /// Inserts or overwrites `key`. Fails only on a backend failure, and
    /// then changes nothing.
    fn set(&mut self, key: String, value: String) -> (r: KvResult<()>)
        ensures
            final(self).is_exclusive() == old(self).is_exclusive(),
            final(self).infallible() == old(self).infallible(),
            old(self).infallible() ==> r is Ok,
            r is Err ==> !(r->Err_0 is KeyNotFound),
            old(self).is_exclusive() && r is Ok ==> final(self).contents() == old(
                self,
            ).contents().insert(key@, value@),
            old(self).is_exclusive() && r is Err ==> final(self).contents() == old(
                self,
            ).contents(),
    ;

    /// The current value of `key`; `KeyNotFound` when it is absent.
    fn get(&self, key: &str) -> (r: KvResult<String>)
        ensures
            self.infallible() && r is Err ==> r->Err_0 is KeyNotFound,
            self.is_exclusive() && r is Ok ==> self.contents().contains_key(key@)
                && r->Ok_0@ == self.contents()[key@],
            self.is_exclusive() ==> (r matches Err(KvError::KeyNotFound)
                <==> !self.contents().contains_key(key@)),
    ;

    /// Removes `key`; `KeyNotFound` when it is absent, so that a second
    /// delete of one key fails.
    fn delete(&mut self, key: &str) -> (r: KvResult<()>)
        ensures
            final(self).is_exclusive() == old(self).is_exclusive(),
            final(self).infallible() == old(self).infallible(),
            old(self).infallible() && r is Err ==> r->Err_0 is KeyNotFound,
            old(self).is_exclusive() && r is Ok ==> old(self).contents().contains_key(key@)
                && final(self).contents() == old(self).contents().remove(key@),
            old(self).is_exclusive() && r is Err ==> final(self).contents() == old(
                self,
            ).contents(),
            old(self).is_exclusive() ==> (r matches Err(KvError::KeyNotFound)
                <==> !old(self).contents().contains_key(key@)),
    ;
}

/// A backend that connections on several threads can hold at once.
pub trait SharedStorage: Storage + Send + Sync {}

impl<T: Storage + Send + Sync> SharedStorage for T {}

} // verus!
