//! Client-side connection-lifecycle manager for a persistent bidirectional
//! message channel: a message codec, a bounded reconnect policy, a liveness
//! scheduler and a session controller that composes them.
//!
//! The byte-level transport engine is an external collaborator: connection
//! attempts go through the [`reconnection::Connectable`] capability, and
//! frames cross the boundary as plain [`connection::Frame`] values.

pub mod connection;
pub mod controller;
pub mod keep_alive;
pub mod messages;
pub mod reconnection;

use vstd::prelude::*;
use crate::reconnection::{Connectable, ConnectError};

verus! {

/// A connector on which every connection attempt fails, as when the endpoint
/// is unreachable. Useful for driving the reconnect path into exhaustion.
pub struct MockWebSocketClient {
    attempts_made: u64,
    waited_secs: u64,
}

impl MockWebSocketClient {
    /// Creates a fresh always-failing connector.
    pub fn new() -> (r: Self)
        ensures
            r.attempts() == 0,
            r.waited() == 0,
            forall|k: nat| !(#[trigger] r.succeeds_at(k)),
    {
        MockWebSocketClient { attempts_made: 0, waited_secs: 0 }
    }

    /// How many attempts this connector has performed.
    pub fn get_attempts(&self) -> (r: u64)
        ensures
            r == self.attempts(),
    {
        self.attempts_made
    }

    /// How many seconds of backoff delay have been requested of it.
    pub fn get_waited(&self) -> (r: u64)
        ensures
            r == self.waited(),
    {
        self.waited_secs
    }
}

impl Connectable for MockWebSocketClient {
    closed spec fn attempts(&self) -> nat {
        self.attempts_made as nat
    }

    closed spec fn waited(&self) -> nat {
        self.waited_secs as nat
    }

    closed spec fn succeeds_at(&self, k: nat) -> bool {
        false
    }

    fn connect(&mut self) -> (r: Result<(), ConnectError>) {
        self.attempts_made = self.attempts_made + 1;
        Err(ConnectError::ConnectionClosed)
    }

    fn wait(&mut self, delay_secs: u64) {
        self.waited_secs = self.waited_secs + delay_secs;
    }
}

} // verus!
