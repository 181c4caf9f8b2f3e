//! Backend-agnostic client/server transport state for a replicated-state
//! system: a connection-status state machine plus per-channel message queues.
//!
//! Both transports are pure in-memory state holders. A messaging backend
//! drains outbound messages and inserts inbound ones once per tick, while
//! application logic calls the symmetric `send`/`receive` operations.

use vstd::prelude::*;

mod channels;
pub mod client;
mod payload;
pub mod server;

verus! {

/// Identifier of a connected peer, assigned by the messaging backend and
/// stable for the lifetime of the connection.
#[derive(Clone, Copy, Debug, PartialEq, Eq, Hash, Structural)]
pub struct ClientId(u64);

impl View for ClientId {
    type V = u64;

    closed spec fn view(&self) -> u64 {
        self.0
    }
}

impl ClientId {
    /// Creates a new ID from the backend-provided value.
    pub fn new(value: u64) -> (result: Self)
        ensures
            result@ == value,
    {
        ClientId(value)
    }

    /// Gets the underlying value.
    pub fn get(&self) -> (result: u64)
        ensures
            result == self@,
    {
        self.0
    }
}

} // verus!
