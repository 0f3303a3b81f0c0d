//! Readiness Prober: a sleeping poll against host:port. The host performs
//! the connect attempts and the sleeps; this module decides, after each
//! attempt, whether the probe is done, and models a whole poll run over a
//! schedule of connect outcomes.

use vstd::prelude::*;
use crate::config::POLL_INTERVAL_MS;

verus! {

/// What the poll loop does next, decided after one connect attempt.
#[derive(Clone, Copy, Debug, PartialEq, Eq, Structural)]
pub enum ProbeStep {
    /// A connect succeeded before the deadline: the sidecar is ready.
    Ready,
    /// The deadline elapsed with no success: give up.
    TimedOut,
    /// Not ready yet: sleep this many milliseconds and try again.
    RetryAfterMs { sleep_ms: u64 },
}

/// One decision of the poll loop. `elapsed_ms` is measured from probe
/// start; `connected` is the outcome of the connect attempt just made (any
/// failure counts uniformly as not-yet-ready). The deadline is checked
/// first, so a success observed at or after the deadline no longer counts.
pub fn probe_step(elapsed_ms: u64, timeout_ms: u64, connected: bool) -> (r: ProbeStep)
    ensures
        r is Ready <==> elapsed_ms < timeout_ms && connected,
        r is TimedOut <==> elapsed_ms >= timeout_ms,
        r matches ProbeStep::RetryAfterMs { sleep_ms } ==> sleep_ms == POLL_INTERVAL_MS,
        r is RetryAfterMs <==> elapsed_ms < timeout_ms && !connected,
{
    if elapsed_ms >= timeout_ms {
        ProbeStep::TimedOut
    } else if connected {
        ProbeStep::Ready
    } else {
        ProbeStep::RetryAfterMs { sleep_ms: POLL_INTERVAL_MS }
    }
}

/// How a whole poll run ended: how many connect attempts were made and the
/// modeled elapsed time at the end.
#[derive(Clone, Copy, Debug, PartialEq, Eq, Structural)]
pub enum ProbeOutcome {
    Ready { attempts: u64, elapsed_ms: u64 },
    TimedOut { attempts: u64, elapsed_ms: u64 },
}

/// Attempt `k` of the schedule succeeds. Attempts past the end of the
/// schedule fail.
pub open spec fn connect_at(connects: Seq<bool>, k: int) -> bool {
    0 <= k < connects.len() && connects[k]
}

/// A poll run over this schedule reaches ready: the first successful
/// attempt falls before the deadline.
pub open spec fn spec_probe_reaches_ready(
    connects: Seq<bool>,
    timeout_ms: u64,
    interval_ms: u64,
) -> bool {
    exists|k: int|
        {
            &&& connect_at(connects, k)
            &&& k * interval_ms < timeout_ms
            &&& forall|j: int| 0 <= j < k ==> !connect_at(connects, j)
        }
}

/// Run the poll loop over a schedule of connect outcomes: `connects[k]`
/// tells whether the `k`-th connect attempt would succeed, and attempt `k`
/// is modeled at `k * interval_ms` from probe start (connect attempts and
/// the success path take no modeled time). Returns ready at the first
/// success before the deadline; otherwise gives up at the first poll tick
/// at or past the deadline — within one interval of it.
pub fn probe_outcome(connects: &Vec<bool>, timeout_ms: u64, interval_ms: u64) -> (r: ProbeOutcome)
    requires
        interval_ms >= 1,
        timeout_ms + interval_ms <= u64::MAX,
    ensures
        r matches ProbeOutcome::Ready { attempts, elapsed_ms } ==> {
            &&& attempts >= 1
            &&& connect_at(connects@, attempts - 1)
            &&& forall|j: int| 0 <= j < attempts - 1 ==> !connect_at(connects@, j)
            &&& elapsed_ms == (attempts - 1) * interval_ms
            &&& elapsed_ms < timeout_ms
        },
        r matches ProbeOutcome::TimedOut { attempts, elapsed_ms } ==> {
            &&& forall|k: int| 0 <= k && k * interval_ms < timeout_ms ==> !connect_at(connects@, k)
            &&& elapsed_ms == attempts * interval_ms
            &&& timeout_ms <= elapsed_ms < timeout_ms + interval_ms
        },
        r is Ready <==> spec_probe_reaches_ready(connects@, timeout_ms, interval_ms),
        connects@.len() >= 1 && connects@[0] && timeout_ms >= 1 ==> r == (ProbeOutcome::Ready {
            attempts: 1,
            elapsed_ms: 0,
        }),
{
    let mut k: u64 = 0;
    let mut elapsed: u64 = 0;
    while elapsed < timeout_ms
        invariant
            interval_ms >= 1,
            timeout_ms + interval_ms <= u64::MAX,
            elapsed == k * interval_ms,
            k <= elapsed || k == 0,
            elapsed < timeout_ms + interval_ms,
            forall|j: int| 0 <= j < k ==> !connect_at(connects@, j),
        decreases timeout_ms + interval_ms - elapsed,
    {
        let connected = if k < (connects.len() as u64) {
            connects[k as usize]
        } else {
            false
        };
        assert(connected == connect_at(connects@, k as int));
        if connected {
            let r = ProbeOutcome::Ready { attempts: k + 1, elapsed_ms: elapsed };
            proof {
                assert(spec_probe_reaches_ready(connects@, timeout_ms, interval_ms)) by {
                    assert(connect_at(connects@, k as int) && (k as int) * interval_ms
                        < timeout_ms && (forall|j: int|
                        0 <= j < k as int ==> !connect_at(connects@, j)));
                }
                if connects@.len() >= 1 && connects@[0] {
                    assert(connect_at(connects@, 0));
                    assert(k == 0);
                }
            }
            return r;
        }
        proof {
            assert((k + 1) * interval_ms == k * interval_ms + interval_ms) by (nonlinear_arith);
        }
        elapsed = elapsed + interval_ms;
        k = k + 1;
    }
    proof {
        assert forall|j: int| 0 <= j && j * interval_ms < timeout_ms
            implies !connect_at(connects@, j) by {
            if j >= k {
                assert(j * interval_ms >= (k as int) * interval_ms) by (nonlinear_arith)
                    requires
                        j >= k as int,
                        interval_ms >= 1,
                ;
            }
        }
        assert(!spec_probe_reaches_ready(connects@, timeout_ms, interval_ms)) by {
            if spec_probe_reaches_ready(connects@, timeout_ms, interval_ms) {
                let w = choose|w: int|
                    connect_at(connects@, w) && w * interval_ms < timeout_ms && (forall|j: int|
                        0 <= j < w ==> !connect_at(connects@, j));
                assert(!connect_at(connects@, w));
            }
        }
        if timeout_ms >= 1 {
            assert((0int) * interval_ms < timeout_ms);
            assert(!connect_at(connects@, 0));
        }
    }
    ProbeOutcome::TimedOut { attempts: k, elapsed_ms: elapsed }
}

} // verus!
