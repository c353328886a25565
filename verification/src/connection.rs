//! Transport-facing client: the frame model of the bidirectional channel and
//! the `WebSocketClient` that opens, uses and releases one session at a time.
//!
//! The byte-level transport engine (handshake, TLS, framing) is an external
//! collaborator and stays outside this crate; connection attempts go through
//! the [`Connectable`] capability, and frames cross the boundary as plain
//! [`Frame`] values.

use vstd::prelude::*;
use crate::messages::{MessageHandler, MessageFormat, json_bytes_of, json_text_of};
use crate::reconnection::{
    Connectable, ConnectError, ReconnectStrategy, all_fail_in, first_success_within,
    spec_exhausted_delay, spec_total_delay,
};

verus! {

/// One discrete unit of transport-level data.
#[derive(Clone, Debug, PartialEq, Eq)]
pub enum Frame {
    /// A binary payload.
    Binary(Vec<u8>),
    /// A text payload, as its UTF-8 bytes.
    Text(Vec<u8>),
    /// A liveness probe.
    Ping(Vec<u8>),
    /// The reply to a liveness probe.
    Pong(Vec<u8>),
    /// The peer ended the session.
    Close,
}

/// A client for one remote endpoint, holding the endpoint address and the
/// retry budget applied when a session is (re)opened.
pub struct WebSocketClient {
    /// The URL of the remote endpoint.
    pub url: String,
    retries: u32,
}

impl WebSocketClient {
    /// The retry budget of this client.
    pub closed spec fn spec_retries(&self) -> u32 {
        self.retries
    }

    /// The endpoint address of this client.
    pub closed spec fn spec_url(&self) -> Seq<char> {
        self.url@
    }

    /// Creates a new client with the given endpoint address and retry budget.
    pub fn new(url: &str, retries: u32) -> (r: Self)
        ensures
            r.spec_url() == url@,
            r.spec_retries() == retries,
    {
        WebSocketClient { url: url.to_owned(), retries }
    }

    /// Retrieves the retry budget.
    pub fn get_retries(&self) -> (r: u32)
        ensures
            r == self.spec_retries(),
    {
        self.retries
    }

    /// Performs a single connection attempt through the given transport
    /// capability.
    pub fn connect<C: Connectable>(&self, client: &mut C) -> (r: Result<(), ConnectError>)
        requires
            old(client).attempts() < u64::MAX,
        ensures
            final(client).attempts() == old(client).attempts() + 1,
            final(client).waited() == old(client).waited(),
            r is Ok <==> old(client).succeeds_at(old(client).attempts()),
            forall|k: nat| final(client).succeeds_at(k) == old(client).succeeds_at(k),
    {
        client.connect()
    }

    /// Classifies one received frame: data frames yield their payload bytes,
    /// everything else (control frames, a close, or no frame at all) yields
    /// `None`.
    pub fn receive_message(&self, frame: Option<Frame>) -> (r: Option<Vec<u8>>)
        ensures
            frame matches Some(Frame::Binary(d)) ==> r == Some(d),
            frame matches Some(Frame::Text(t)) ==> r == Some(t),
            (match frame {
                Some(Frame::Binary(_)) | Some(Frame::Text(_)) => false,
                _ => true,
            }) ==> r is None,
    {
        match frame {
            Some(Frame::Binary(d)) => Some(d),
            Some(Frame::Text(t)) => Some(t),
            _ => None,
        }
    }

    /// Encodes a text message as JSON and wraps it in a binary frame, ready
    /// to be written to the transport. Encoding text cannot fail, and
    /// decoding the frame's payload gives the message back.
    pub fn send_message(&self, message: &str) -> (r: Result<Frame, String>)
        ensures
            r matches Ok(f) && f matches Frame::Binary(b)
                && b@ == json_bytes_of(message@)
                && json_text_of(b@) == Some(message@),
    {
        match MessageHandler::serialize(message, MessageFormat::Json) {
            Ok(bytes) => Ok(Frame::Binary(bytes)),
            Err(e) => Err(e),
        }
    }

    /// Releases the session. The client itself keeps no transport state, so
    /// this only marks the handle as returned; the adapter that owns the
    /// byte-level stream performs the actual close.
    pub fn disconnect(&self) {
        self.private_disconnect();
    }

    /// Internal hook for the graceful-disconnection path.
    fn private_disconnect(&self) {
    }

    /// Attempts to reconnect through the given transport capability, with
    /// this client's retry budget and a one-second base delay under the
    /// policy's linear backoff law.
    ///
    /// Returns `Ok` exactly when one of the next `spec_retries()` attempts
    /// succeeds (stopping at the first success), and `Err(Exhausted)` exactly
    /// when they all fail.
    pub fn reconnect<C: Connectable>(&self, client: &mut C) -> (r: Result<(), ConnectError>)
        requires
            old(client).attempts() + self.spec_retries() < u64::MAX,
            old(client).waited() + spec_total_delay(1, self.spec_retries()) <= u64::MAX,
        ensures
            forall|k: nat| final(client).succeeds_at(k) == old(client).succeeds_at(k),
            r is Ok <==> first_success_within(
                old(client),
                old(client).attempts(),
                self.spec_retries() as nat,
            ),
            r is Err ==> r == Err::<(), ConnectError>(ConnectError::Exhausted(self.spec_retries()))
                && all_fail_in(
                    old(client),
                    old(client).attempts(),
                    (old(client).attempts() + self.spec_retries()) as nat,
                )
                && final(client).attempts() == old(client).attempts() + self.spec_retries()
                && final(client).waited() == old(client).waited() + spec_exhausted_delay(
                    1,
                    self.spec_retries(),
                ),
    {
        let strategy = ReconnectStrategy::new(self.retries, 1);
        match strategy.reconnect(client) {
            Some(()) => Ok(()),
            None => Err(ConnectError::Exhausted(self.retries)),
        }
    }
}

} // verus!
