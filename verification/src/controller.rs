//! Session controller: composes the codec, the reconnect policy and the
//! liveness scheduler, owns the session's lifecycle state, and decides every
//! transition of the state machine
//! `Disconnected -> Connecting -> Connected -> Reconnecting -> Terminated`.
//!
//! The controller is the sole owner of the session state: a transport handle
//! is live exactly while the state is `Connected`, and the attempt count in
//! `Reconnecting` never exceeds the retry budget. `Terminated` is absorbing
//! until the caller constructs a fresh controller.

use vstd::prelude::*;
use crate::connection::{Frame, WebSocketClient};
use crate::keep_alive::{KeepAlive, all_probes_ok};
use crate::reconnection::{
    Connectable, ConnectError, ReconnectStrategy, all_fail_in, first_success_within,
    spec_exhausted_delay, spec_next_delay, spec_total_delay,
};

verus! {

/// The lifecycle state of the session, owned solely by the controller.
/// `Connected` means the one live transport handle is held; `Reconnecting`
/// carries the current attempt count.
#[derive(Clone, Copy, Debug, PartialEq, Eq, Structural)]
pub enum SessionState {
    /// No session and no handle.
    Disconnected,
    /// A connection attempt is in flight.
    Connecting,
    /// The single live transport handle is held.
    Connected,
    /// The session was lost; the payload is the current attempt count.
    Reconnecting(u32),
    /// The retry budget is consumed; absorbing until an external reset.
    Terminated,
}

/// Errors of the send path.
#[derive(Clone, Copy, Debug, PartialEq, Eq, Structural)]
pub enum SendError {
    /// No transport handle is connected.
    NotConnected,
    /// The write on the established handle failed.
    WriteFailed,
}

/// Errors of the receive path.
#[derive(Clone, Copy, Debug, PartialEq, Eq, Structural)]
pub enum ReceiveError {
    /// The peer closed the session.
    ConnectionClosed,
    /// The transport yielded no frame.
    NoFrame,
}

/// What the session loop does with one incoming frame.
#[derive(Clone, Debug, PartialEq, Eq)]
pub enum FrameDisposition {
    /// Write this frame back to the peer.
    Reply(Frame),
    /// Consume the frame silently.
    Ignore,
    /// End the session loop.
    Shutdown,
}

/// The controller's instruction to the driver of a stepwise connect loop.
#[derive(Clone, Copy, Debug, PartialEq, Eq, Structural)]
pub enum RetryStep {
    /// The session is established; stop attempting.
    Established,
    /// Wait this many seconds, then perform one connection attempt and
    /// report its outcome.
    RetryAfter(u64),
    /// The retry budget is consumed; the session is terminated.
    GiveUp,
}

/// States from which `reconnect_if_needed` starts a fresh round of attempts:
/// every state except the two it leaves untouched, `Connected` (nothing to
/// repair) and `Terminated` (absorbing).
pub open spec fn awaiting_connection(s: SessionState) -> bool {
    match s {
        SessionState::Connected => false,
        SessionState::Terminated => false,
        _ => true,
    }
}

/// The session controller. It owns the lifecycle state and composes the
/// codec, the reconnect policy and the liveness scheduler.
pub struct WebSocketController {
    client: WebSocketClient,
    reconnect_strategy: ReconnectStrategy,
    ping_interval_secs: u64,
    retries: u32,
    state: SessionState,
}

impl WebSocketController {
    /// The current lifecycle state.
    pub closed spec fn spec_state(&self) -> SessionState {
        self.state
    }

    /// The retry budget applied when the session is (re)opened.
    pub closed spec fn spec_retries(&self) -> u32 {
        self.retries
    }

    /// The base delay, in seconds, of the backoff law.
    pub closed spec fn spec_backoff_base_secs(&self) -> u64 {
        self.reconnect_strategy.spec_base_delay_secs()
    }

    /// The liveness probe cadence, in seconds.
    pub closed spec fn spec_ping_interval_secs(&self) -> u64 {
        self.ping_interval_secs
    }

    /// The endpoint address.
    pub closed spec fn spec_url(&self) -> Seq<char> {
        self.client.spec_url()
    }

    /// Well-formedness: the retry budget is shared consistently with the
    /// policy and the client, the probe cadence is positive, and the attempt
    /// count in `Reconnecting` is between 1 and the budget.
    pub closed spec fn wf(&self) -> bool {
        &&& self.reconnect_strategy.spec_retries() == self.retries
        &&& self.client.spec_retries() == self.retries
        &&& self.ping_interval_secs > 0
        &&& match self.state {
            SessionState::Reconnecting(k) => 1 <= k <= self.retries,
            _ => true,
        }
    }

    /// The state-machine invariant: while the session is `Reconnecting(k)`,
    /// the attempt count `k` is at least 1 and never exceeds the retry
    /// budget. Every constructor establishes `wf` and every method keeps it,
    /// so this holds in every reachable state.
    pub proof fn lemma_reconnecting_within_budget(&self)
        requires
            self.wf(),
        ensures
            self.spec_state() matches SessionState::Reconnecting(k) ==> 1 <= k
                <= self.spec_retries(),
    {
    }

    /// The two controllers share endpoint and configuration; only the
    /// lifecycle state may differ.
    pub open spec fn same_config(&self, other: &Self) -> bool {
        &&& self.spec_retries() == other.spec_retries()
        &&& self.spec_backoff_base_secs() == other.spec_backoff_base_secs()
        &&& self.spec_ping_interval_secs() == other.spec_ping_interval_secs()
        &&& self.spec_url() == other.spec_url()
    }

    /// Creates a new controller for the given endpoint, starting
    /// `Disconnected`, with a two-second backoff base and the given probe
    /// cadence (five seconds when none is given; an explicit zero is
    /// invalid).
    pub fn new(url: &str, retries: u32, ping_interval: Option<u64>) -> (r: Self)
        requires
            ping_interval matches Some(i) ==> i > 0,
        ensures
            r.wf(),
            r.spec_state() is Disconnected,
            r.spec_retries() == retries,
            r.spec_backoff_base_secs() == 2,
            r.spec_ping_interval_secs() == (match ping_interval {
                Some(i) => i,
                None => 5,
            }),
            r.spec_url() == url@,
    {
        let ping_interval_secs = match ping_interval {
            Some(i) => i,
            None => 5,
        };
        WebSocketController {
            client: WebSocketClient::new(url, retries),
            reconnect_strategy: ReconnectStrategy::new(retries, 2),
            ping_interval_secs,
            retries,
            state: SessionState::Disconnected,
        }
    }

    /// The current lifecycle state.
    pub fn get_state(&self) -> (r: SessionState)
        ensures
            r == self.spec_state(),
    {
        self.state
    }

    /// Opens the session: `Disconnected -> Connecting`, then one connection
    /// attempt per unit of the retry budget through the given transport
    /// capability, under the reconnect policy's delays.
    ///
    /// Returns `Ok` exactly when one of the budgeted attempts succeeds, and
    /// then the state is `Connected`. When they all fail, the budget is
    /// consumed: the state is `Terminated` and the error reports the number
    /// of attempts performed.
    pub fn connect<C: Connectable>(&mut self, transport: &mut C) -> (r: Result<(), ConnectError>)
        requires
            old(self).wf(),
            old(self).spec_state() is Disconnected,
            old(transport).attempts() + old(self).spec_retries() < u64::MAX,
            old(transport).waited() + spec_total_delay(
                old(self).spec_backoff_base_secs(),
                old(self).spec_retries(),
            ) <= u64::MAX,
        ensures
            final(self).wf(),
            final(self).same_config(old(self)),
            forall|k: nat| final(transport).succeeds_at(k) == old(transport).succeeds_at(k),
            r is Ok <==> first_success_within(
                old(transport),
                old(transport).attempts(),
                old(self).spec_retries() as nat,
            ),
            r is Ok ==> final(self).spec_state() is Connected,
            r is Err ==> final(self).spec_state() is Terminated
                && r == Err::<(), ConnectError>(ConnectError::Exhausted(old(self).spec_retries()))
                && all_fail_in(
                    old(transport),
                    old(transport).attempts(),
                    (old(transport).attempts() + old(self).spec_retries()) as nat,
                )
                && final(transport).attempts() == old(transport).attempts()
                    + old(self).spec_retries()
                && final(transport).waited() == old(transport).waited() + spec_exhausted_delay(
                    old(self).spec_backoff_base_secs(),
                    old(self).spec_retries(),
                ),
    {
        self.state = SessionState::Connecting;
        match self.reconnect_strategy.reconnect(transport) {
            Some(()) => {
                self.state = SessionState::Connected;
                Ok(())
            },
            None => {
                self.state = SessionState::Terminated;
                Err(ConnectError::Exhausted(self.retries))
            },
        }
    }

    /// Opens the session as `connect` does, then encodes the message into
    /// the one frame to be written to the new handle.
    pub fn connect_and_send_message<C: Connectable>(
        &mut self,
        transport: &mut C,
        message: &[u8],
    ) -> (r: Result<Frame, ConnectError>)
        requires
            old(self).wf(),
            old(self).spec_state() is Disconnected,
            old(transport).attempts() + old(self).spec_retries() < u64::MAX,
            old(transport).waited() + spec_total_delay(
                old(self).spec_backoff_base_secs(),
                old(self).spec_retries(),
            ) <= u64::MAX,
        ensures
            final(self).wf(),
            final(self).same_config(old(self)),
            forall|k: nat| final(transport).succeeds_at(k) == old(transport).succeeds_at(k),
            r is Ok <==> first_success_within(
                old(transport),
                old(transport).attempts(),
                old(self).spec_retries() as nat,
            ),
            r matches Ok(f) ==> (f matches Frame::Binary(b) && b@ == message@
                && final(self).spec_state() is Connected),
            r is Err ==> final(self).spec_state() is Terminated
                && r == Err::<Frame, ConnectError>(ConnectError::Exhausted(old(self).spec_retries()))
                && final(transport).attempts() == old(transport).attempts()
                    + old(self).spec_retries()
                && final(transport).waited() == old(transport).waited() + spec_exhausted_delay(
                    old(self).spec_backoff_base_secs(),
                    old(self).spec_retries(),
                ),
    {
        match self.connect(transport) {
            Ok(()) => match self.send_message(message) {
                Ok(f) => Ok(f),
                Err(_) => Err(ConnectError::HandshakeFailed),
            },
            Err(e) => Err(e),
        }
    }

    /// Releases the session: closes the handle if one is held and returns to
    /// `Disconnected`, unconditionally, even from `Terminated`.
    pub fn disconnect(&mut self)
        requires
            old(self).wf(),
        ensures
            final(self).wf(),
            final(self).same_config(old(self)),
            final(self).spec_state() is Disconnected,
    {
        self.client.disconnect();
        self.state = SessionState::Disconnected;
    }

    /// Classifies one received frame: data frames yield their payload,
    /// control frames are consumed and yield `None`, a close frame reports
    /// `ConnectionClosed`, and the absence of a frame reports `NoFrame`.
    /// The lifecycle state is not touched: after `ConnectionClosed` the
    /// caller decides whether to re-enter the reconnect path.
    pub fn receive_message(&self, frame: Option<Frame>) -> (r: Result<Option<Vec<u8>>, ReceiveError>)
        ensures
            frame is None ==> r == Err::<Option<Vec<u8>>, ReceiveError>(ReceiveError::NoFrame),
            frame matches Some(Frame::Binary(d)) ==> r == Ok::<Option<Vec<u8>>, ReceiveError>(
                Some(d),
            ),
            frame matches Some(Frame::Text(t)) ==> r == Ok::<Option<Vec<u8>>, ReceiveError>(
                Some(t),
            ),
            (frame matches Some(Frame::Ping(_)) || frame matches Some(Frame::Pong(_))) ==> r
                == Ok::<Option<Vec<u8>>, ReceiveError>(None),
            frame matches Some(Frame::Close) ==> r == Err::<Option<Vec<u8>>, ReceiveError>(
                ReceiveError::ConnectionClosed,
            ),
    {
        match frame {
            None => Err(ReceiveError::NoFrame),
            Some(Frame::Binary(d)) => Ok(Some(d)),
            Some(Frame::Text(t)) => Ok(Some(t)),
            Some(Frame::Ping(_)) => Ok(None),
            Some(Frame::Pong(_)) => Ok(None),
            Some(Frame::Close) => Err(ReceiveError::ConnectionClosed),
        }
    }

    /// Wraps an encoded message in the one binary frame to be written to the
    /// current handle. Fails with `NotConnected` exactly when no handle is
    /// held; the write failure itself, if any, is the transport adapter's
    /// report and does not by itself trigger reconnection.
    pub fn send_message(&self, message: &[u8]) -> (r: Result<Frame, SendError>)
        ensures
            self.spec_state() is Connected ==> (r matches Ok(f) && f matches Frame::Binary(b)
                && b@ == message@),
            !(self.spec_state() is Connected) ==> r == Err::<Frame, SendError>(
                SendError::NotConnected,
            ),
    {
        match self.state {
            SessionState::Connected => Ok(Frame::Binary(vstd::slice::slice_to_vec(message))),
            _ => Err(SendError::NotConnected),
        }
    }

    /// Builds the liveness probe frame for the current handle. Fails with
    /// `NotConnected` exactly when no handle is held.
    pub fn send_ping(&self) -> (r: Result<Frame, SendError>)
        ensures
            self.spec_state() is Connected ==> (r matches Ok(f) && f matches Frame::Ping(p)
                && p@ == Seq::<u8>::empty()),
            !(self.spec_state() is Connected) ==> r == Err::<Frame, SendError>(
                SendError::NotConnected,
            ),
    {
        match self.state {
            SessionState::Connected => Ok(Frame::Ping(Vec::new())),
            _ => Err(SendError::NotConnected),
        }
    }

    /// Runs the liveness scheduler against the current handle over the given
    /// per-tick probe delivery outcomes.
    ///
    /// While every probe is delivered the session stays `Connected` and the
    /// number of probes sent is returned. On the first failed probe write
    /// the run stops within that tick: the controller closes the stale
    /// handle and enters `Reconnecting(1)` (or `Terminated` when the retry
    /// budget is zero), deferring the repair itself to the reconnect path.
    pub fn maintain_connection(&mut self, probe_outcomes: &Vec<bool>) -> (r: Result<
        usize,
        SendError,
    >)
        requires
            old(self).wf(),
            old(self).spec_state() is Connected,
        ensures
            final(self).wf(),
            final(self).same_config(old(self)),
            all_probes_ok(probe_outcomes@, probe_outcomes@.len() as int) ==> r == Ok::<
                usize,
                SendError,
            >(probe_outcomes.len()) && final(self).spec_state() is Connected,
            !all_probes_ok(probe_outcomes@, probe_outcomes@.len() as int) ==> r == Err::<
                usize,
                SendError,
            >(SendError::WriteFailed)
                && (old(self).spec_retries() >= 1 ==> final(self).spec_state()
                    == SessionState::Reconnecting(1))
                && (old(self).spec_retries() == 0 ==> final(self).spec_state() is Terminated),
    {
        let keep_alive = KeepAlive::new(self.ping_interval_secs);
        let report = keep_alive.start(probe_outcomes);
        if report.failed {
            if self.retries >= 1 {
                self.state = SessionState::Reconnecting(1);
            } else {
                self.state = SessionState::Terminated;
            }
            Err(SendError::WriteFailed)
        } else {
            Ok(report.probes_sent)
        }
    }

    /// Re-enters the connect path where the session needs it: from
    /// `Connected` it is a no-op, from `Terminated` the budget stands
    /// consumed and nothing is attempted, and from every other state it runs
    /// one round of budgeted attempts as `connect` does, resetting the
    /// session to `Connected` on success.
    pub fn reconnect_if_needed<C: Connectable>(&mut self, transport: &mut C) -> (r: Result<
        (),
        ConnectError,
    >)
        requires
            old(self).wf(),
            old(transport).attempts() + old(self).spec_retries() < u64::MAX,
            old(transport).waited() + spec_total_delay(
                old(self).spec_backoff_base_secs(),
                old(self).spec_retries(),
            ) <= u64::MAX,
        ensures
            final(self).wf(),
            final(self).same_config(old(self)),
            forall|k: nat| final(transport).succeeds_at(k) == old(transport).succeeds_at(k),
            old(self).spec_state() is Connected ==> r == Ok::<(), ConnectError>(())
                && final(self).spec_state() is Connected
                && final(transport).attempts() == old(transport).attempts()
                && final(transport).waited() == old(transport).waited(),
            old(self).spec_state() is Terminated ==> r == Err::<(), ConnectError>(
                ConnectError::Exhausted(0),
            )
                && final(self).spec_state() is Terminated
                && final(transport).attempts() == old(transport).attempts()
                && final(transport).waited() == old(transport).waited(),
            awaiting_connection(old(self).spec_state()) ==> {
                &&& r is Ok <==> first_success_within(
                    old(transport),
                    old(transport).attempts(),
                    old(self).spec_retries() as nat,
                )
                &&& r is Ok ==> final(self).spec_state() is Connected
                &&& r is Err ==> final(self).spec_state() is Terminated
                    && r == Err::<(), ConnectError>(ConnectError::Exhausted(
                    old(self).spec_retries(),
                ))
                    && final(transport).attempts() == old(transport).attempts()
                        + old(self).spec_retries()
                    && final(transport).waited() == old(transport).waited()
                        + spec_exhausted_delay(
                        old(self).spec_backoff_base_secs(),
                        old(self).spec_retries(),
                    )
            },
    {
        match self.state {
            SessionState::Connected => Ok(()),
            SessionState::Terminated => Err(ConnectError::Exhausted(0)),
            _ => {
                match self.reconnect_strategy.reconnect(transport) {
                    Some(()) => {
                        self.state = SessionState::Connected;
                        Ok(())
                    },
                    None => {
                        self.state = SessionState::Terminated;
                        Err(ConnectError::Exhausted(self.retries))
                    },
                }
            },
        }
    }

    /// Starts a stepwise connect loop for a driver that performs the actual
    /// attempts (an adapter that awaits a handshake, say, which no call from
    /// here could do). The controller keeps every decision: it enters
    /// `Reconnecting(1)` and asks for an immediate first attempt, or
    /// terminates at once when the budget is zero.
    ///
    /// The driver obeys each [`RetryStep`]: on `RetryAfter(d)` it waits `d`
    /// seconds, performs one attempt and reports the outcome to
    /// `on_connect_attempt`; on `Established` or `GiveUp` it stops.
    pub fn begin_connect(&mut self) -> (r: RetryStep)
        requires
            old(self).wf(),
            awaiting_connection(old(self).spec_state()),
        ensures
            final(self).wf(),
            final(self).same_config(old(self)),
            old(self).spec_retries() == 0 ==> r == RetryStep::GiveUp
                && final(self).spec_state() is Terminated,
            old(self).spec_retries() >= 1 ==> r == RetryStep::RetryAfter(0)
                && final(self).spec_state() == SessionState::Reconnecting(1),
    {
        if self.retries == 0 {
            self.state = SessionState::Terminated;
            RetryStep::GiveUp
        } else {
            self.state = SessionState::Reconnecting(1);
            RetryStep::RetryAfter(0)
        }
    }

    /// Advances the stepwise connect loop by the outcome of the attempt the
    /// controller asked for. On success the session is `Connected`. On
    /// failure with budget left, the attempt count advances and the driver
    /// is told the backoff delay before the next attempt, under the policy's
    /// law; on failure of the last budgeted attempt the session terminates.
    pub fn on_connect_attempt(&mut self, succeeded: bool) -> (r: RetryStep)
        requires
            old(self).wf(),
            old(self).spec_state() matches SessionState::Reconnecting(_),
        ensures
            final(self).wf(),
            final(self).same_config(old(self)),
            succeeded ==> r == RetryStep::Established
                && final(self).spec_state() is Connected,
            (match old(self).spec_state() {
                SessionState::Reconnecting(k) => !succeeded ==> {
                    &&& k < old(self).spec_retries() ==> r == RetryStep::RetryAfter(
                        spec_next_delay(old(self).spec_backoff_base_secs(), k),
                    )
                        && final(self).spec_state() == SessionState::Reconnecting(
                        (k + 1) as u32,
                    )
                    &&& k >= old(self).spec_retries() ==> r == RetryStep::GiveUp
                        && final(self).spec_state() is Terminated
                },
                _ => true,
            }),
    {
        let k = match self.state {
            SessionState::Reconnecting(attempt) => attempt,
            _ => 1,
        };
        if succeeded {
            self.state = SessionState::Connected;
            RetryStep::Established
        } else if k < self.retries {
            let delay = self.reconnect_strategy.next_delay(k);
            self.state = SessionState::Reconnecting(k + 1);
            RetryStep::RetryAfter(delay)
        } else {
            self.state = SessionState::Terminated;
            RetryStep::GiveUp
        }
    }

    /// The session loop's decision for one incoming frame: a data frame is
    /// acknowledged with the given reply payload in a binary frame, control
    /// frames are consumed silently, and a close frame or the end of the
    /// stream shuts the loop down.
    pub fn handle_frame(&self, frame: Option<Frame>, ack_payload: &[u8]) -> (r: FrameDisposition)
        ensures
            (frame matches Some(Frame::Binary(_)) || frame matches Some(Frame::Text(_))) ==> (r
                matches FrameDisposition::Reply(f) && f matches Frame::Binary(b)
                && b@ == ack_payload@),
            (frame matches Some(Frame::Ping(_)) || frame matches Some(Frame::Pong(_))) ==> r
                == FrameDisposition::Ignore,
            (frame is None || frame matches Some(Frame::Close)) ==> r
                == FrameDisposition::Shutdown,
    {
        match frame {
            Some(Frame::Binary(_)) | Some(Frame::Text(_)) => FrameDisposition::Reply(
                Frame::Binary(vstd::slice::slice_to_vec(ack_payload)),
            ),
            Some(Frame::Ping(_)) | Some(Frame::Pong(_)) => FrameDisposition::Ignore,
            _ => FrameDisposition::Shutdown,
        }
    }
}

} // verus!
