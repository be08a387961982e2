//! Occupying a client that joins while the server is not online: the join methods in turn.
use vstd::prelude::*;

use crate::config::Method;
use crate::server::{Server, State};

verus! {

/// The outcome of one join method.
#[derive(Debug, Clone, Copy, PartialEq, Eq, Structural)]
pub enum MethodResult {
    /// Client is consumed.
    Consumed,
    /// Method is done, continue with the next.
    Continue,
}

/// What to do next with a joining client.
#[derive(Debug, Clone, Copy, PartialEq, Eq, Structural)]
pub enum OccupyStep {
    /// Try this join method.
    Invoke(Method),
    /// A method took the client; nothing is left to do.
    Done,
    /// No method is left: close the connection.
    Close,
}

/// The next step after `tried` join methods were tried, the last of them with `last`.
pub open spec fn spec_occupy_step(methods: Seq<Method>, tried: int, last: Option<MethodResult>) -> OccupyStep {
    if last == Some(MethodResult::Consumed) {
        OccupyStep::Done
    } else if 0 <= tried < methods.len() {
        OccupyStep::Invoke(methods[tried])
    } else {
        OccupyStep::Close
    }
}

/// Decide the next step in occupying a joining client: the configured join methods are
/// tried in order until one consumes the client; when all continued, the connection closes.
///
/// `tried` is how many methods were tried, `last` what the last one gave (`None` before
/// the first).
pub fn occupy_step(methods: &Vec<Method>, tried: usize, last: Option<MethodResult>) -> (res: OccupyStep)
    ensures
        res == spec_occupy_step(methods@, tried as int, last),
{
    if last == Some(MethodResult::Consumed) {
        OccupyStep::Done
    } else if tried < methods.len() {
        OccupyStep::Invoke(methods[tried])
    } else {
        OccupyStep::Close
    }
}

/// What a held client waits for.
#[derive(Debug, Clone, Copy, PartialEq, Eq, Structural)]
pub enum HoldStep {
    /// The server still starts: keep holding.
    Wait,
    /// The server is online: relay the client to it.
    Relay,
    /// The server stops or stopped: stop holding.
    Release,
}

/// Whether the hold method takes a joining client: only while the server starts.
pub fn hold_applies(server: &Server) -> (res: bool)
    ensures
        res == (server.state == State::Starting),
{
    server.state() == State::Starting
}

/// What a held client does when the server state changes to `state`.
pub open spec fn spec_hold_step(state: State) -> HoldStep {
    match state {
        State::Starting => HoldStep::Wait,
        State::Started => HoldStep::Relay,
        State::Stopping | State::Stopped => HoldStep::Release,
    }
}

/// Decide what a held client does when the server state changes: wait while the server
/// starts, relay it once the server is online, release it if the server stops.
pub fn hold_step(state: State) -> (res: HoldStep)
    ensures
        res == spec_hold_step(state),
{
    match state {
        State::Starting => HoldStep::Wait,
        State::Started => HoldStep::Relay,
        State::Stopping | State::Stopped => HoldStep::Release,
    }
}

} // verus!
