//! The request-handler chain: a uniform contract from command to result,
//! met by the core executor and by every layer that wraps it.
use vstd::prelude::*;

use std::time::{Duration, Instant};

use crate::command::{Command, Response};
use crate::storage::{KvResult, Storage};

verus! {

/// `std::time::Instant`, held opaque: a clock reading taken when a call
/// starts and compared when it ends.
#[verifier::external_type_specification]
#[verifier::external_body]
pub struct ExInstant(Instant);

/// Relies on `Instant::now`: a reading of the monotonic clock, of which
/// nothing is assumed.
pub assume_specification[ Instant::now ]() -> Instant;

/// Relies on `Instant::elapsed`: the time since the reading, of which
/// nothing is assumed.
pub assume_specification[ Instant::elapsed ](this: &Instant) -> Duration;

/// Something that answers commands, one at a time.
pub trait RequestHandler: Sized {
    /// `r` is a possible answer of this handler to `cmd`, and `after` the
    /// handler once it has answered. A handler that does not say promises
    /// nothing of its answers.
    open spec fn answers(&self, cmd: Command, after: Self, r: KvResult<String>) -> bool {
        true
    }

    /// Whether a new command is accepted now.
    fn poll_ready(&mut self) -> (ready: bool)
        ensures
            ready,
            *final(self) == *old(self),
    ;

    /// Answers one command.
    fn call(&mut self, cmd: Command) -> (r: KvResult<String>)
        ensures
            old(self).answers(cmd, *final(self), r),
    ;
}

/// The core executor: runs each command on its backend.
pub struct CommandService<S> {
    pub store: S,
}

impl<S: Storage> CommandService<S> {
    /// An executor over `store`.
    pub fn new(store: S) -> (r: Self)
        ensures
            r.store == store,
    {
        CommandService { store }
    }
}

impl<S: Storage + Clone> Clone for CommandService<S> {
    fn clone(&self) -> (r: Self) {
        CommandService { store: self.store.clone() }
    }
}

impl<S: Storage> RequestHandler for CommandService<S> {
    open spec fn answers(&self, cmd: Command, after: Self, r: KvResult<String>) -> bool {
        &&& after.store.is_exclusive() == self.store.is_exclusive()
        &&& after.store.infallible() == self.store.infallible()
        &&& self.store.infallible() && r is Err ==> r->Err_0 is KeyNotFound
        &&& self.store.is_exclusive() ==> cmd.executes(
            self.store.contents(),
            after.store.contents(),
            r,
        )
        &&& cmd is SetValue && r is Err ==> !(r->Err_0 is KeyNotFound)
    }

    fn poll_ready(&mut self) -> (ready: bool) {
        true
    }

    fn call(&mut self, cmd: Command) -> (r: KvResult<String>) {
        cmd.execute(&mut self.store)
    }
}

/// What the logging layer records of one call.
#[derive(Debug)]
pub struct LogEvent {
    /// The command handled.
    pub command: Command,
    /// The value, or the text of the error.
    pub response: Response,
    /// How long the inner handler took.
    pub took: Duration,
}

/// Builds logging layers around handlers.
#[derive(Clone, Copy, Debug)]
pub struct LoggingLayer;

impl LoggingLayer {
    /// Wraps `inner` in a logging layer that has recorded nothing yet.
    pub fn layer<H: RequestHandler>(&self, inner: H) -> (r: LoggingMiddleware<H>)
        ensures
            r.wrapped() == inner,
            r.last_event() is None,
    {
        LoggingMiddleware { inner, last: None }
    }
}

/// A handler that times each call of its inner handler and records the
/// outcome, answering exactly as the inner handler does.
pub struct LoggingMiddleware<H> {
    inner: H,
    last: Option<LogEvent>,
}

impl<H> LoggingMiddleware<H> {
    /// The handler inside this layer.
    pub closed spec fn wrapped(&self) -> H {
        self.inner
    }

    /// The record of the latest call not yet taken.
    pub closed spec fn last_event(&self) -> Option<LogEvent> {
        self.last
    }

    /// Hands out the record of the latest call, leaving none.
    pub fn take_event(&mut self) -> (ev: Option<LogEvent>)
        ensures
            ev == old(self).last_event(),
            final(self).last_event() is None,
            final(self).wrapped() == old(self).wrapped(),
    {
        self.last.take()
    }
}

impl<H: RequestHandler + Clone> Clone for LoggingMiddleware<H> {
    /// A layer around a clone of the inner handler, with nothing recorded.
    fn clone(&self) -> (r: Self) {
        LoggingMiddleware { inner: self.inner.clone(), last: None }
    }
}

/// The handler that answers the `i`-th of a run of commands: `h` for the
/// first, and the handler left by the previous answer for the others.
pub open spec fn handler_before<H>(h: H, after: Seq<H>, i: int) -> H {
    if i == 0 {
        h
    } else {
        after[i - 1]
    }
}

/// `rs` are possible answers of `h` to `cmds` in turn, `after[i]` being the
/// handler once it has answered `cmds[i]`.
pub open spec fn answers_in_turn<H: RequestHandler>(
    h: H,
    cmds: Seq<Command>,
    after: Seq<H>,
    rs: Seq<KvResult<String>>,
) -> bool {
    &&& after.len() == cmds.len()
    &&& rs.len() == cmds.len()
    &&& forall|i: int|
        0 <= i < cmds.len() ==> #[trigger] handler_before(h, after, i).answers(
            cmds[i],
            after[i],
            rs[i],
        )
}

/// Wrapping a handler in the logging layer changes no answer: over a whole
/// run of commands, the layer gives exactly the answers that the handler
/// inside gives.
pub proof fn lemma_logging_transparent_in_turn<H: RequestHandler>(
    layered: LoggingMiddleware<H>,
    cmds: Seq<Command>,
    after: Seq<LoggingMiddleware<H>>,
    rs: Seq<KvResult<String>>,
)
    ensures
        answers_in_turn(layered, cmds, after, rs) <==> answers_in_turn(
            layered.wrapped(),
            cmds,
            after.map_values(|l: LoggingMiddleware<H>| l.wrapped()),
            rs,
        ),
{
    let inner_after = after.map_values(|l: LoggingMiddleware<H>| l.wrapped());
    assert forall|i: int| 0 <= i < cmds.len() && after.len() == cmds.len() implies handler_before(
        layered,
        after,
        i,
    ).answers(cmds[i], after[i], rs[i]) <==> handler_before(
        layered.wrapped(),
        inner_after,
        i,
    ).answers(cmds[i], inner_after[i], rs[i]) by {
        if i > 0 {
            assert(inner_after[i - 1] == after[i - 1].wrapped());
        }
        assert(inner_after[i] == after[i].wrapped());
    }
    if answers_in_turn(layered, cmds, after, rs) {
        assert forall|i: int| 0 <= i < cmds.len() implies #[trigger] handler_before(
            layered.wrapped(),
            inner_after,
            i,
        ).answers(cmds[i], inner_after[i], rs[i]) by {
            assert(handler_before(layered, after, i).answers(cmds[i], after[i], rs[i]));
        }
    }
    if answers_in_turn(layered.wrapped(), cmds, inner_after, rs) {
        assert forall|i: int| 0 <= i < cmds.len() implies #[trigger] handler_before(
            layered,
            after,
            i,
        ).answers(cmds[i], after[i], rs[i]) by {
            assert(handler_before(layered.wrapped(), inner_after, i).answers(
                cmds[i],
                inner_after[i],
                rs[i],
            ));
        }
    }
}

impl<H: RequestHandler> RequestHandler for LoggingMiddleware<H> {
    open spec fn answers(&self, cmd: Command, after: Self, r: KvResult<String>) -> bool {
        self.wrapped().answers(cmd, after.wrapped(), r)
    }

    fn poll_ready(&mut self) -> (ready: bool) {
        self.inner.poll_ready()
    }

    fn call(&mut self, cmd: Command) -> (r: KvResult<String>)
        ensures
            final(self).last_event() matches Some(ev) && ev.command == cmd
                && Response::describes(r, ev.response),
    {
        let start = Instant::now();
        let command = cmd.clone();
        let r = self.inner.call(cmd);
        let took = start.elapsed();
        let response = Response::from_result(&r);
        self.last = Some(LogEvent { command, response, took });
        r
    }
}

} // verus!
