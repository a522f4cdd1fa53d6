//! Errors of the storage engine.
use vstd::prelude::*;
use vstd::string::StringExecFns;

verus! {

/// What can go wrong with a single storage operation.
#[derive(Debug)]
pub enum KvError {
    /// The key is absent.
    KeyNotFound,
    /// A backend reported a failure; the detail is passed through.
    StorageError(String),
    /// The backend's infrastructure (its lock) failed; the detail is passed through.
    Internal(String),
}

/// The human-readable text of an error.
pub open spec fn message_of(e: KvError) -> Seq<char> {
    match e {
        KvError::KeyNotFound => "Key not found"@,
        KvError::StorageError(msg) => "Storage error: "@ + msg@,
        KvError::Internal(msg) => "Internal error: "@ + msg@,
    }
}

impl KvError {
    /// The human-readable text of this error.
    pub fn message(&self) -> (r: String)
        ensures
            r@ == message_of(*self),
    {
        match self {
            KvError::KeyNotFound => "Key not found".to_owned(),
            KvError::StorageError(msg) => {
                let mut s = "Storage error: ".to_owned();
                s.append(msg.as_str());
                s
            },
            KvError::Internal(msg) => {
                let mut s = "Internal error: ".to_owned();
                s.append(msg.as_str());
                s
            },
        }
    }
}

} // verus!
