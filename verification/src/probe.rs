//! Readiness probing: deciding, after each connection attempt, whether the
//! backend is ready, whether to retry after a fixed backoff, or whether the
//! deadline has passed and polling must give up.
//!
//! The driver owns the clock, the TCP connect and the sleep; every decision
//! it acts on is taken here, so the probe's behaviour is a pure function of
//! the observed time and connection outcome, and its termination is a
//! theorem rather than a hope.

use vstd::prelude::*;
use vstd::arithmetic::div_mod::lemma_fundamental_div_mod;
use vstd::arithmetic::div_mod::lemma_mod_division_less_than_divisor;

verus! {

/// How long one launch waits for the backend to accept a connection.
pub const READINESS_TIMEOUT_MS: u64 = 20000;

/// The fixed pause between two connection attempts.
pub const READINESS_BACKOFF_MS: u64 = 200;

/// What the probe does next after one observation.
#[derive(Clone, Copy, PartialEq, Eq, Structural, Debug)]
pub enum ProbeDecision {
    /// A connection was accepted before the deadline: the backend is ready;
    /// the probe connection is closed and polling stops.
    Ready,
    /// No connection yet and time remains: sleep one backoff interval, retry.
    RetryAfterBackoff,
    /// The deadline has passed: report "not ready" and stop.
    GiveUp,
}

/// The probe checks the clock before each attempt, so a passed deadline ends
/// polling whatever the last connection attempt returned.
pub open spec fn probe_decision(now_ms: u64, deadline_ms: u64, connected: bool) -> ProbeDecision {
    if now_ms >= deadline_ms {
        ProbeDecision::GiveUp
    } else if connected {
        ProbeDecision::Ready
    } else {
        ProbeDecision::RetryAfterBackoff
    }
}

/// The instant at which polling must give up.
pub fn probe_deadline(start_ms: u64, timeout_ms: u64) -> (d: u64)
    requires
        start_ms + timeout_ms <= u64::MAX,
    ensures
        d == start_ms + timeout_ms,
{
    start_ms + timeout_ms
}

/// One step of the polling loop: `now_ms` is the clock reading taken before
/// the attempt, `connected` whether the attempt succeeded.
pub fn probe_step(now_ms: u64, deadline_ms: u64, connected: bool) -> (d: ProbeDecision)
    ensures
        d == probe_decision(now_ms, deadline_ms, connected),
{
    if now_ms >= deadline_ms {
        ProbeDecision::GiveUp
    } else if connected {
        ProbeDecision::Ready
    } else {
        ProbeDecision::RetryAfterBackoff
    }
}

/// A connection accepted before the deadline is always reported as ready,
/// never retried past.
pub proof fn lemma_probe_ready(now_ms: u64, deadline_ms: u64)
    requires
        now_ms < deadline_ms,
    ensures
        probe_decision(now_ms, deadline_ms, true) == ProbeDecision::Ready,
{
}

/// Once the deadline has passed, the decision is to give up, for every
/// connection outcome: polling can never run beyond its deadline.
pub proof fn lemma_probe_gives_up(now_ms: u64, deadline_ms: u64, connected: bool)
    requires
        now_ms >= deadline_ms,
    ensures
        probe_decision(now_ms, deadline_ms, connected) == ProbeDecision::GiveUp,
{
}

/// Polling terminates: each retry moves the clock forward by at least one
/// backoff interval, so by the time `attempts` intervals have passed with
/// `attempts * backoff_ms >= timeout_ms`, the decision is to give up. With
/// the attempt itself taking nonnegative time, the loop ends within the
/// timeout plus one backoff interval of wall-clock time.
pub proof fn lemma_polling_terminates(
    start_ms: u64,
    timeout_ms: u64,
    backoff_ms: u64,
    attempts: nat,
    now_ms: u64,
    connected: bool,
)
    requires
        start_ms + timeout_ms <= u64::MAX,
        attempts * backoff_ms >= timeout_ms,
        now_ms >= start_ms + attempts * backoff_ms,
    ensures
        probe_decision(now_ms, (start_ms + timeout_ms) as u64, connected) == ProbeDecision::GiveUp,
{
}

/// Ceiling division supplies enough intervals: `ceil(timeout / backoff)`
/// backoff intervals cover the whole timeout, so the attempt count needed by
/// `lemma_polling_terminates` is reached after finitely many retries.
pub proof fn lemma_attempts_cover_timeout(timeout_ms: int, backoff_ms: int)
    requires
        timeout_ms >= 0,
        backoff_ms >= 1,
    ensures
        ((timeout_ms + backoff_ms - 1) / backoff_ms) * backoff_ms >= timeout_ms,
{
    let x = timeout_ms + backoff_ms - 1;
    let b = backoff_ms;
    lemma_fundamental_div_mod(x, b);
    lemma_mod_division_less_than_divisor(x, b);
    assert(b * (x / b) == x - (x % b));
    assert((x / b) * b >= timeout_ms);
}

} // verus!
