//! Commands, their execution against a backend, and responses.
use vstd::prelude::*;

use crate::storage::{KvError, KvResult, Storage};
use crate::storage::error::message_of;

verus! {

/// A client request.
#[derive(Debug)]
pub enum Command {
    SetValue { key: String, value: String },
    Get { key: String },
    Del { key: String },
}

/// A server answer to one command.
#[derive(Debug)]
pub enum Response {
    Success { value: String },
    Error { message: String },
}

impl Clone for Command {
    fn clone(&self) -> (r: Self)
        ensures
            r == *self,
    {
        match self {
            Command::SetValue { key, value } => Command::SetValue { key: key.clone(), value: value.clone() },
            Command::Get { key } => Command::Get { key: key.clone() },
            Command::Del { key } => Command::Del { key: key.clone() },
        }
    }
}

impl Command {
    /// The entries after the command runs on `m` without a backend failure.
    pub open spec fn post(self, m: Map<Seq<char>, Seq<char>>) -> Map<Seq<char>, Seq<char>> {
        match self {
            Command::SetValue { key, value } => m.insert(key@, value@),
            Command::Get { key } => m,
            Command::Del { key } => if m.contains_key(key@) {
                m.remove(key@)
            } else {
                m
            },
        }
    }

    /// The value the command answers with on entries `m`; `None` where it
    /// fails with `KeyNotFound`.
    pub open spec fn reply(self, m: Map<Seq<char>, Seq<char>>) -> Option<Seq<char>> {
        match self {
            Command::SetValue { key, value } => Some("OK"@),
            Command::Get { key } => if m.contains_key(key@) {
                Some(m[key@])
            } else {
                None
            },
            Command::Del { key } => if m.contains_key(key@) {
                Some("Deleted"@)
            } else {
                None
            },
        }
    }

    /// `r` is an outcome of the command on entries `before`, leaving
    /// `after`: its reply and effect, `KeyNotFound` exactly where the reply
    /// is missing, or a backend failure that changed nothing.
    pub open spec fn executes(
        self,
        before: Map<Seq<char>, Seq<char>>,
        after: Map<Seq<char>, Seq<char>>,
        r: KvResult<String>,
    ) -> bool {
        match r {
            Ok(v) => self.reply(before) == Some(v@) && after == self.post(before),
            Err(KvError::KeyNotFound) => self.reply(before) is None && after == before,
            Err(_) => self.reply(before) is Some && after == before,
        }
    }

    /// Runs the command on `store`: `"OK"` for a set, the stored value for a
    /// get, `"Deleted"` for a delete.
    pub fn execute<T: Storage>(&self, store: &mut T) -> (r: KvResult<String>)
        ensures
            final(store).is_exclusive() == old(store).is_exclusive(),
            final(store).infallible() == old(store).infallible(),
            old(store).infallible() && r is Err ==> r->Err_0 is KeyNotFound,
            old(store).is_exclusive() ==> self.executes(
                old(store).contents(),
                final(store).contents(),
                r,
            ),
            self is SetValue && r is Err ==> !(r->Err_0 is KeyNotFound),
    {
        match self {
            Command::SetValue { key, value } => {
                match store.set(key.clone(), value.clone()) {
                    Ok(()) => Ok("OK".to_owned()),
                    Err(e) => Err(e),
                }
            },
            Command::Get { key } => store.get(key.as_str()),
            Command::Del { key } => {
                match store.delete(key.as_str()) {
                    Ok(()) => Ok("Deleted".to_owned()),
                    Err(e) => Err(e),
                }
            },
        }
    }
}

/// A set followed by a get of the same key answers exactly the value set.
pub proof fn lemma_set_then_get(m: Map<Seq<char>, Seq<char>>, key: String, value: String)
    ensures
        (Command::Get { key }).reply((Command::SetValue { key, value }).post(m)) == Some(
            value@,
        ),
{
}

/// A delete of an absent key fails with `KeyNotFound` and changes nothing; a
/// delete of a present key succeeds, and a get of the key afterwards fails
/// with `KeyNotFound`.
pub proof fn lemma_delete(m: Map<Seq<char>, Seq<char>>, key: String)
    ensures
        !m.contains_key(key@) ==> (Command::Del { key }).reply(m) is None
            && (Command::Del { key }).post(m) == m,
        m.contains_key(key@) ==> (Command::Del { key }).reply(m) == Some("Deleted"@)
            && (Command::Get { key }).reply((Command::Del { key }).post(m)) is None,
{
}

/// Of two sets of one key, the later value is the one a get answers.
pub proof fn lemma_overwrite(
    m: Map<Seq<char>, Seq<char>>,
    key: String,
    first: String,
    second: String,
)
    ensures
        (Command::Get { key }).reply(
            (Command::SetValue { key, value: second }).post(
                (Command::SetValue { key, value: first }).post(m),
            ),
        ) == Some(second@),
{
}

impl Response {
    /// `resp` carries the value of a success or the text of an error.
    pub open spec fn describes(r: KvResult<String>, resp: Response) -> bool {
        match r {
            Ok(v) => resp matches Response::Success { value } && value@ == v@,
            Err(e) => resp matches Response::Error { message } && message@ == message_of(e),
        }
    }

    /// The response that reports `r`.
    pub fn from_result(r: &KvResult<String>) -> (resp: Response)
        ensures
            Response::describes(*r, resp),
    {
        match r {
            Ok(v) => Response::Success { value: v.clone() },
            Err(e) => Response::Error { message: e.message() },
        }
    }
}

} // verus!
