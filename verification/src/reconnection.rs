//! Reconnect policy: a bounded sequence of retry delays, the capability
//! interface for connection attempts, and the loop that sequences attempts
//! and delays until one attempt succeeds or the budget is consumed.

use vstd::prelude::*;

verus! {

/// Errors of the connection path.
#[derive(Clone, Copy, Debug, PartialEq, Eq, Structural)]
pub enum ConnectError {
    /// The peer closed or refused the connection.
    ConnectionClosed,
    /// The transport handshake failed.
    HandshakeFailed,
    /// The retry budget was consumed; the payload is the number of attempts
    /// this call performed.
    Exhausted(u32),
}

/// The capability interface for connecting to the remote endpoint.
///
/// A connector is modelled by the number of attempts it has performed, the
/// backoff delay that has been requested of it, and a predetermined outcome
/// for each attempt index. Implementations decide the outcomes; callers of
/// `connect` learn the result only through that model.
pub trait Connectable {
    /// How many connection attempts this connector has performed.
    spec fn attempts(&self) -> nat;

    /// How many seconds of backoff delay have been requested of it.
    spec fn waited(&self) -> nat;

    /// Whether the connector's attempt number `k` (counted from its
    /// construction, starting at 0) succeeds.
    spec fn succeeds_at(&self, k: nat) -> bool;

    /// Performs one connection attempt.
    fn connect(&mut self) -> (r: Result<(), ConnectError>)
        requires
            old(self).attempts() < u64::MAX,
        ensures
            final(self).attempts() == old(self).attempts() + 1,
            final(self).waited() == old(self).waited(),
            r is Ok <==> old(self).succeeds_at(old(self).attempts()),
            forall|k: nat| final(self).succeeds_at(k) == old(self).succeeds_at(k),
    ;

    /// Waits for the given backoff delay before the next attempt.
    fn wait(&mut self, delay_secs: u64)
        requires
            old(self).waited() + delay_secs <= u64::MAX,
        ensures
            final(self).attempts() == old(self).attempts(),
            final(self).waited() == old(self).waited() + delay_secs,
            forall|k: nat| final(self).succeeds_at(k) == old(self).succeeds_at(k),
    ;
}

/// Every attempt of `c` with a number in `from..upto` fails.
pub open spec fn all_fail_in<C: Connectable>(c: &C, from: nat, upto: nat) -> bool {
    forall|j: nat| from <= j < upto ==> !(#[trigger] c.succeeds_at(j))
}

/// Some attempt of `c` numbered in `from..from + n` succeeds, and every
/// attempt before it (from `from` on) fails.
pub open spec fn first_success_within<C: Connectable>(c: &C, from: nat, n: nat) -> bool {
    exists|j: nat|
        from <= j < from + n && #[trigger] c.succeeds_at(j) && all_fail_in(c, from, j)
}

/// The backoff delay before the attempt after attempt number `attempt`
/// (1-based): the linear law `base_delay_secs * attempt`, saturating at the
/// largest representable delay.
pub open spec fn spec_next_delay(base_delay_secs: u64, attempt: u32) -> u64 {
    let d = (base_delay_secs as int) * (attempt as int);
    if d > u64::MAX as int {
        u64::MAX
    } else {
        d as u64
    }
}

/// The cumulative delay of `n` failed attempts: the sum of
/// `spec_next_delay(base_delay_secs, k)` for `k` from 1 to `n`.
pub open spec fn spec_total_delay(base_delay_secs: u64, n: u32) -> int
    decreases n,
{
    if n == 0 {
        0
    } else {
        spec_total_delay(base_delay_secs, (n - 1) as u32) + spec_next_delay(base_delay_secs, n)
    }
}

/// The delay a fully exhausted run of `n` attempts sleeps: the backoff sum
/// over the failed attempts that still had retries remaining, which is every
/// one but the last.
pub open spec fn spec_exhausted_delay(base_delay_secs: u64, n: u32) -> int {
    if n == 0 {
        0
    } else {
        spec_total_delay(base_delay_secs, (n - 1) as u32)
    }
}

/// The delay sequence is non-decreasing: a later attempt never waits less
/// than an earlier one.
pub proof fn lemma_next_delay_monotonic(base_delay_secs: u64, a: u32, b: u32)
    requires
        a <= b,
    ensures
        spec_next_delay(base_delay_secs, a) <= spec_next_delay(base_delay_secs, b),
{
    assert((base_delay_secs as int) * (a as int) <= (base_delay_secs as int) * (b as int))
        by (nonlinear_arith)
        requires a <= b;
}

/// The cumulative delay is never negative.
proof fn lemma_total_delay_nonneg(base_delay_secs: u64, n: u32)
    ensures
        spec_total_delay(base_delay_secs, n) >= 0,
    decreases n,
{
    if n > 0 {
        lemma_total_delay_nonneg(base_delay_secs, (n - 1) as u32);
    }
}

/// The cumulative delay grows with the number of attempts.
proof fn lemma_total_delay_monotonic(base_delay_secs: u64, m: u32, n: u32)
    requires
        m <= n,
    ensures
        spec_total_delay(base_delay_secs, m) <= spec_total_delay(base_delay_secs, n),
    decreases n - m,
{
    if m < n {
        lemma_total_delay_monotonic(base_delay_secs, m, (n - 1) as u32);
    }
}

/// A strategy for reconnecting with a bounded number of retries and a
/// linearly growing backoff delay.
pub struct ReconnectStrategy {
    retries: u32,
    base_delay_secs: u64,
}

impl ReconnectStrategy {
    /// The maximum number of connection attempts this strategy performs.
    pub closed spec fn spec_retries(&self) -> u32 {
        self.retries
    }

    /// The base delay, in seconds, that the backoff law grows from.
    pub closed spec fn spec_base_delay_secs(&self) -> u64 {
        self.base_delay_secs
    }

    /// Creates a new strategy with the given attempt budget and base delay.
    pub fn new(retries: u32, base_delay_secs: u64) -> (r: Self)
        ensures
            r.spec_retries() == retries,
            r.spec_base_delay_secs() == base_delay_secs,
    {
        ReconnectStrategy { retries, base_delay_secs }
    }

    /// Retrieves the attempt budget of the strategy.
    pub fn get_retries(&self) -> (r: u32)
        ensures
            r == self.spec_retries(),
    {
        self.retries
    }

    /// The backoff delay before the attempt that follows attempt number
    /// `attempt` (1-based).
    pub fn next_delay(&self, attempt: u32) -> (r: u64)
        ensures
            r == spec_next_delay(self.spec_base_delay_secs(), attempt),
    {
        match self.base_delay_secs.checked_mul(attempt as u64) {
            Some(d) => d,
            None => u64::MAX,
        }
    }

    /// Is the attempt budget consumed after `attempt` attempts?
    pub fn is_exhausted(&self, attempt: u32) -> (r: bool)
        ensures
            r == (attempt > self.spec_retries()),
    {
        attempt > self.retries
    }

    /// Attempts to reconnect: after a failed attempt, while attempts remain,
    /// it sleeps `next_delay(attempt)` and retries; once the budget of
    /// `spec_retries()` attempts is consumed it returns a terminal failure
    /// without a further sleep.
    ///
    /// Returns `Some(())` exactly when one of the next `spec_retries()`
    /// attempts of the connector succeeds; the loop stops at the first
    /// success. Returns `None` exactly when they all fail, and then the
    /// connector has performed exactly `spec_retries()` further attempts and
    /// waited the backoff sum of the retried attempts.
    pub fn reconnect<C: Connectable>(&self, client: &mut C) -> (r: Option<()>)
        requires
            old(client).attempts() + self.spec_retries() < u64::MAX,
            old(client).waited() + spec_total_delay(
                self.spec_base_delay_secs(),
                self.spec_retries(),
            ) <= u64::MAX,
        ensures
            forall|k: nat| final(client).succeeds_at(k) == old(client).succeeds_at(k),
            r is Some <==> first_success_within(
                old(client),
                old(client).attempts(),
                self.spec_retries() as nat,
            ),
            r is Some ==> exists|j: nat|
                old(client).attempts() <= j < old(client).attempts() + self.spec_retries()
                && #[trigger] old(client).succeeds_at(j)
                && all_fail_in(old(client), old(client).attempts(), j)
                && final(client).attempts() == j + 1
                && final(client).waited() == old(client).waited() + spec_total_delay(
                    self.spec_base_delay_secs(),
                    (j - old(client).attempts()) as u32,
                ),
            r is None ==> all_fail_in(
                old(client),
                old(client).attempts(),
                (old(client).attempts() + self.spec_retries()) as nat,
            )
                && final(client).attempts() == old(client).attempts() + self.spec_retries()
                && final(client).waited() == old(client).waited() + spec_exhausted_delay(
                    self.spec_base_delay_secs(),
                    self.spec_retries(),
                ),
    {
        let ghost a0 = old(client).attempts();
        let ghost w0 = old(client).waited();
        let n = self.retries;
        let mut i: u64 = 0;
        while i < n as u64
            invariant
                i <= n,
                a0 == old(client).attempts(),
                w0 == old(client).waited(),
                client.attempts() == a0 + i,
                client.waited() == w0 + spec_exhausted_delay(self.base_delay_secs, i as u32),
                all_fail_in(old(client), a0, (a0 + i) as nat),
                forall|k: nat| client.succeeds_at(k) == old(client).succeeds_at(k),
                a0 + n < u64::MAX,
                w0 + spec_total_delay(self.base_delay_secs, n) <= u64::MAX,
                self.retries == n,
            decreases n as u64 - i,
        {
            if i > 0 {
                let delay = self.next_delay(i as u32);
                proof {
                    lemma_total_delay_monotonic(self.base_delay_secs, i as u32, n);
                    lemma_total_delay_nonneg(self.base_delay_secs, (i - 1) as u32);
                }
                client.wait(delay);
            }
            match client.connect() {
                Ok(()) => {
                    proof {
                        let j = (a0 + i) as nat;
                        assert(old(client).succeeds_at(j));
                        assert((j - a0) as u32 == i as u32);
                    }
                    return Some(());
                },
                Err(_) => {},
            }
            i = i + 1;
        }
        proof {
            assert(!first_success_within(old(client), a0, n as nat)) by {
                if first_success_within(old(client), a0, n as nat) {
                    let j = choose|j: nat|
                        a0 <= j < a0 + n as nat && #[trigger] old(client).succeeds_at(j)
                        && all_fail_in(old(client), a0, j);
                    assert(!old(client).succeeds_at(j));
                }
            }
        }
        None
    }
}

/// A connector whose attempt outcomes follow a fixed script: attempt number
/// `k` succeeds exactly when entry `k` of the script is true; attempts past
/// the end of the script fail. Useful for driving the reconnect loop through
/// a chosen sequence of failures and successes.
pub struct ScriptedConnector {
    script: Vec<bool>,
    attempts_made: u64,
    waited_secs: u64,
}

impl ScriptedConnector {
    /// Creates a connector that follows `script`.
    pub fn new(script: Vec<bool>) -> (r: Self)
        ensures
            r.attempts() == 0,
            r.waited() == 0,
            forall|k: nat|
                r.succeeds_at(k) == (k < script@.len() && script@[k as int]),
    {
        ScriptedConnector { script, attempts_made: 0, waited_secs: 0 }
    }

    /// How many attempts this connector has performed.
    pub fn get_attempts(&self) -> (r: u64)
        ensures
            r == self.attempts(),
    {
        self.attempts_made
    }

    /// How many seconds of backoff delay have been requested of it.
    pub fn get_waited(&self) -> (r: u64)
        ensures
            r == self.waited(),
    {
        self.waited_secs
    }
}

impl Connectable for ScriptedConnector {
    closed spec fn attempts(&self) -> nat {
        self.attempts_made as nat
    }

    closed spec fn waited(&self) -> nat {
        self.waited_secs as nat
    }

    closed spec fn succeeds_at(&self, k: nat) -> bool {
        k < self.script@.len() && self.script@[k as int]
    }

    fn connect(&mut self) -> (r: Result<(), ConnectError>) {
        let idx = self.attempts_made;
        self.attempts_made = self.attempts_made + 1;
        if idx < self.script.len() as u64 && self.script[idx as usize] {
            Ok(())
        } else {
            Err(ConnectError::ConnectionClosed)
        }
    }

    fn wait(&mut self, delay_secs: u64) {
        self.waited_secs = self.waited_secs + delay_secs;
    }
}

} // verus!
