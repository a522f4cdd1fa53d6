//! The per-connection protocol: read a line, dispatch the command it holds,
//! write the response, and again, until the peer goes away.
//!
//! The host performs each action (reading, calling the handler chain,
//! writing) and reports back what came of it as an event.
use vstd::prelude::*;

use crate::command::{Command, Response};
use crate::storage::KvResult;

verus! {

/// Where a connection stands.
#[derive(PartialEq, Eq, Structural, Clone, Copy, Debug)]
pub enum ConnState {
    /// Waiting for the next line.
    Reading,
    /// A command is with the handler chain.
    Dispatching,
    /// A response is being written.
    Writing,
    /// The connection is over.
    Closed,
}

/// What the host reports.
#[derive(Debug)]
pub enum ConnEvent {
    /// A line arrived; `None` when it does not hold a well-formed command.
    LineRead(Option<Command>),
    /// The handler chain answered the dispatched command.
    Answered(KvResult<String>),
    /// The response line was written and flushed.
    Written,
    /// The peer closed the stream, or reading or writing failed.
    Ended,
}

/// What the host is to do next.
#[derive(Debug)]
pub enum ConnAction {
    /// Read the next line.
    ReadLine,
    /// Hand the command to the handler chain.
    Dispatch(Command),
    /// Write the response as one line.
    Write(Response),
    /// Close the connection.
    Close,
}

/// The state after `s` receives `e`.
pub open spec fn next_state(s: ConnState, e: ConnEvent) -> ConnState {
    match (s, e) {
        (ConnState::Reading, ConnEvent::LineRead(None)) => ConnState::Reading,
        (ConnState::Reading, ConnEvent::LineRead(Some(_))) => ConnState::Dispatching,
        (ConnState::Dispatching, ConnEvent::Answered(_)) => ConnState::Writing,
        (ConnState::Writing, ConnEvent::Written) => ConnState::Reading,
        _ => ConnState::Closed,
    }
}

/// `a` is the action for `s` receiving `e`: a malformed line is skipped,
/// a command is dispatched, its answer written, and the next line read; the
/// end of the stream, or an event that does not fit the state, closes.
pub open spec fn is_action(s: ConnState, e: ConnEvent, a: ConnAction) -> bool {
    match (s, e) {
        (ConnState::Reading, ConnEvent::LineRead(None)) => a is ReadLine,
        (ConnState::Reading, ConnEvent::LineRead(Some(c))) => a == ConnAction::Dispatch(c),
        (ConnState::Dispatching, ConnEvent::Answered(r)) => a matches ConnAction::Write(resp)
            && Response::describes(r, resp),
        (ConnState::Writing, ConnEvent::Written) => a is ReadLine,
        _ => a is Close,
    }
}

/// A malformed line is skipped: the connection stays open and reading, no
/// response is written for it, and the well-formed line that follows is
/// dispatched and answered with exactly one response.
pub proof fn lemma_malformed_line_skipped(c: Command, r: KvResult<String>)
    ensures
        next_state(ConnState::Reading, ConnEvent::LineRead(None)) == ConnState::Reading,
        forall|a: ConnAction|
            #[trigger] is_action(ConnState::Reading, ConnEvent::LineRead(None), a) ==> a is ReadLine,
        next_state(ConnState::Reading, ConnEvent::LineRead(Some(c))) == ConnState::Dispatching,
        forall|a: ConnAction|
            #[trigger] is_action(ConnState::Reading, ConnEvent::LineRead(Some(c)), a) ==> a
                == ConnAction::Dispatch(c),
        next_state(ConnState::Dispatching, ConnEvent::Answered(r)) == ConnState::Writing,
        forall|a: ConnAction|
            #[trigger] is_action(ConnState::Dispatching, ConnEvent::Answered(r), a) ==> (a matches ConnAction::Write(resp) && Response::describes(r, resp)),
        next_state(ConnState::Writing, ConnEvent::Written) == ConnState::Reading,
{
}

impl ConnState {
    /// A connection just accepted.
    pub fn new() -> (s: Self)
        ensures
            s == ConnState::Reading,
    {
        ConnState::Reading
    }

    /// Moves on by `e` and says what to do next.
    pub fn step(&mut self, e: ConnEvent) -> (a: ConnAction)
        ensures
            *final(self) == next_state(*old(self), e),
            is_action(*old(self), e, a),
    {
        match (*self, e) {
            (ConnState::Reading, ConnEvent::LineRead(None)) => ConnAction::ReadLine,
            (ConnState::Reading, ConnEvent::LineRead(Some(c))) => {
                *self = ConnState::Dispatching;
                ConnAction::Dispatch(c)
            },
            (ConnState::Dispatching, ConnEvent::Answered(r)) => {
                *self = ConnState::Writing;
                ConnAction::Write(Response::from_result(&r))
            },
            (ConnState::Writing, ConnEvent::Written) => {
                *self = ConnState::Reading;
                ConnAction::ReadLine
            },
            _ => {
                *self = ConnState::Closed;
                ConnAction::Close
            },
        }
    }
}

} // verus!
