//! Liveness scheduler: on a fixed tick cadence it emits one probe per tick on
//! the current transport handle, reports the first delivery failure at once,
//! and never attempts a repair itself.
//!
//! The ticking itself (timers, the shared handle, cancellation) belongs to
//! the adapter that runs the schedule; this module fixes what the schedule
//! decides: how many probes go out and when the run reports failure. A run
//! is driven by the delivery outcome of each tick's probe write, in order.

use vstd::prelude::*;

verus! {

/// Every outcome in `s` before position `k` is a successful delivery.
pub open spec fn all_probes_ok(s: Seq<bool>, k: int) -> bool {
    forall|j: int| 0 <= j < k ==> s[j]
}

/// What a scheduler run did: how many probes it sent, and whether it ended
/// because a probe write failed.
#[derive(Clone, Copy, Debug, PartialEq, Eq, Structural)]
pub struct ProbeReport {
    /// The number of probe frames handed to the transport, the failing one
    /// included.
    pub probes_sent: usize,
    /// Whether the run ended on a failed probe write.
    pub failed: bool,
}

/// The liveness scheduler's configuration: the cadence, in seconds, at which
/// probes are emitted. An interval of zero is invalid, as it would mean
/// probing without pause.
pub struct KeepAlive {
    ping_interval_secs: u64,
}

impl KeepAlive {
    /// The probe cadence, in seconds.
    pub closed spec fn spec_ping_interval_secs(&self) -> u64 {
        self.ping_interval_secs
    }

    /// Creates a new scheduler configuration with the given probe cadence.
    pub fn new(ping_interval_secs: u64) -> (r: Self)
        requires
            ping_interval_secs > 0,
        ensures
            r.spec_ping_interval_secs() == ping_interval_secs,
    {
        KeepAlive { ping_interval_secs }
    }

    /// Retrieves the probe cadence, in seconds.
    pub fn get_ping_interval(&self) -> (r: u64)
        ensures
            r == self.spec_ping_interval_secs(),
    {
        self.ping_interval_secs
    }

    /// Runs the probe schedule over the given per-tick delivery outcomes:
    /// one probe per tick, stopping at the first failed write (failure is
    /// reported immediately, within that same tick) or when the run is
    /// cancelled from outside, which is when the outcomes end.
    ///
    /// On a run with no failed write, exactly one probe per tick was sent.
    /// On a failed write, the failing probe is the last one sent and every
    /// probe before it was delivered.
    pub fn start(&self, probe_outcomes: &Vec<bool>) -> (r: ProbeReport)
        ensures
            r.failed <==> !all_probes_ok(probe_outcomes@, probe_outcomes@.len() as int),
            !r.failed ==> r.probes_sent == probe_outcomes@.len(),
            r.failed ==> 1 <= r.probes_sent <= probe_outcomes@.len()
                && !probe_outcomes@[r.probes_sent - 1]
                && all_probes_ok(probe_outcomes@, r.probes_sent - 1),
    {
        let n = probe_outcomes.len();
        let mut i: usize = 0;
        while i < n
            invariant
                i <= n,
                n == probe_outcomes@.len(),
                all_probes_ok(probe_outcomes@, i as int),
            decreases n - i,
        {
            let delivered = probe_outcomes[i];
            if !delivered {
                return ProbeReport { probes_sent: i + 1, failed: true };
            }
            i = i + 1;
        }
        ProbeReport { probes_sent: n, failed: false }
    }
}

} // verus!
