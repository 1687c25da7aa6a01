//! Bounded retry with exponential backoff and jitter.
//!
//! A failed call is retried at most `takes` times. Before retry `k` (counting from zero) the
//! caller waits a random part of the nominal delay `interval_ms * factor^k`, which saturates
//! at `MAX_DELAY_MS`.

use vstd::prelude::*;

verus! {

/// The first nominal delay, in milliseconds.
pub const RETRY_INTERVAL_MS: u64 = 100;
/// How much each nominal delay grows over the one before.
pub const RETRY_FACTOR: u64 = 2;
/// How many times a failed call is retried.
pub const RETRY_TAKES: usize = 3;
/// The longest nominal delay, in milliseconds: 2^53.
pub const MAX_DELAY_MS: u64 = 9_007_199_254_740_992;

/// How calls are retried.
pub struct RetryPolicy {
    pub interval_ms: u64,
    pub factor: u64,
    pub takes: usize,
}

/// The nominal delay before retry `k`.
pub open spec fn backoff(interval_ms: nat, factor: nat, k: nat) -> nat
    decreases k,
{
    let d = if k == 0 {
        interval_ms
    } else {
        backoff(interval_ms, factor, (k - 1) as nat) * factor
    };
    if d > MAX_DELAY_MS {
        MAX_DELAY_MS as nat
    } else {
        d
    }
}

/// Relies on `retry::delay::jitter`: a delay drawn at random between zero and the given one.
/// Below 2^53 ms the seconds of the delay are exact as an `f64`, so the drawn delay never
/// exceeds it.
#[verifier::external_body]
fn jittered(ms: u64) -> (r: u64)
    requires
        ms <= MAX_DELAY_MS,
    ensures
        r <= ms,
{
    retry::delay::jitter(std::time::Duration::from_millis(ms)).as_millis() as u64
}

impl RetryPolicy {
    /// The policy of every call to the telemetry API: 100 ms, doubling, three retries.
    pub fn standard() -> (r: RetryPolicy)
        ensures
            r.interval_ms == RETRY_INTERVAL_MS,
            r.factor == RETRY_FACTOR,
            r.takes == RETRY_TAKES,
    {
        RetryPolicy { interval_ms: RETRY_INTERVAL_MS, factor: RETRY_FACTOR, takes: RETRY_TAKES }
    }

    /// The nominal delay before retry `k`, or `None` where the retries are used up.
    pub fn nominal_delay(&self, k: usize) -> (r: Option<u64>)
        ensures
            k < self.takes ==> r == Some(
                backoff(self.interval_ms as nat, self.factor as nat, k as nat) as u64,
            ),
            k >= self.takes ==> r is None,
    {
        if k >= self.takes {
            return None;
        }
        let mut d: u64 = if self.interval_ms > MAX_DELAY_MS { MAX_DELAY_MS } else { self.interval_ms };
        let mut i: usize = 0;
        while i < k
            invariant
                i <= k,
                d as nat == backoff(self.interval_ms as nat, self.factor as nat, i as nat),
                d <= MAX_DELAY_MS,
            decreases k - i,
        {
            d = match d.checked_mul(self.factor) {
                Some(v) => if v > MAX_DELAY_MS { MAX_DELAY_MS } else { v },
                None => MAX_DELAY_MS,
            };
            i = i + 1;
        }
        Some(d)
    }

    /// How long to wait before retry `k`: a random part of its nominal delay, or `None`
    /// where the retries are used up and the last error stands.
    pub fn delay_before_retry(&self, k: usize) -> (r: Option<u64>)
        ensures
            k < self.takes ==> (r matches Some(d) && d <= backoff(
                self.interval_ms as nat,
                self.factor as nat,
                k as nat,
            )),
            k >= self.takes ==> r is None,
    {
        match self.nominal_delay(k) {
            Some(d) => {
                proof {
                    lemma_backoff_bounded(self.interval_ms as nat, self.factor as nat, k as nat);
                }
                Some(jittered(d))
            },
            None => None,
        }
    }
}

proof fn lemma_backoff_bounded(interval_ms: nat, factor: nat, k: nat)
    ensures
        backoff(interval_ms, factor, k) <= MAX_DELAY_MS,
    decreases k,
{
}

} // verus!
