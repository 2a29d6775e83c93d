//! The decisions of a client connection: each request read from the
//! connection is forwarded for handling, skipped, or ends the connection.
use crate::api::request::Command;
use crate::api::Request;
use vstd::prelude::*;

verus! {

/// What the connection produced next.
pub enum ConnectionEvent {
    /// The peer closed the connection.
    Closed,
    /// A request arrived.
    Request(Request),
}

/// What to do about it.
pub enum ConnectionAction {
    /// End the connection without error.
    Stop,
    /// Ignore a request that carries no command, and read the next one.
    Skip,
    /// Hand the command to the request queue, under the request's id, and
    /// send back the response that comes of it.
    Forward(u32, Command),
}

/// The next action of a connection after `event`.
pub fn connection_step(event: ConnectionEvent) -> (a: ConnectionAction)
    ensures
        event is Closed ==> a is Stop,
        event matches ConnectionEvent::Request(r) ==> (r.command is None ==> a is Skip),
        event matches ConnectionEvent::Request(r) ==> (r.command matches Some(c) ==> a
            == ConnectionAction::Forward(r.request_id, c)),
{
    match event {
        ConnectionEvent::Closed => ConnectionAction::Stop,
        ConnectionEvent::Request(r) => match r.command {
            Some(c) => ConnectionAction::Forward(r.request_id, c),
            None => ConnectionAction::Skip,
        },
    }
}

} // verus!
