//! The retry policy of the content fetcher: a bounded number of attempts,
//! spaced by exponentially growing, randomly shortened delays.

use std::time::Duration;
use tokio_retry::strategy::{jitter, ExponentialBackoff};
use vstd::prelude::*;

verus! {

/// Number of attempts that a download gets in all.
pub const MAX_ATTEMPTS: u32 = 3;

/// The first delay, in milliseconds, and the factor by which delays grow.
pub const BASE_DELAY_MS: u64 = 10;

/// The longest delay, in milliseconds, that is handed to the jitter.
pub const MAX_JITTER_INPUT_MS: u64 = 1_000_000_000;

/// Declares `tokio_retry::strategy::ExponentialBackoff`, the strategy that
/// yields the delays. Nothing inside it is looked at: what is known of a
/// strategy is what the functions below say.
#[verifier::external_type_specification]
#[verifier::external_body]
pub struct ExExponentialBackoff(ExponentialBackoff);

/// Whether a back-off strategy is as `from_millis` makes it: its delays are
/// not scaled by a factor, and no maximum delay is set.
pub uninterp spec fn is_plain(strategy: ExponentialBackoff) -> bool;

/// The delay, in milliseconds, that a back-off strategy yields next.
pub uninterp spec fn pending_delay(strategy: ExponentialBackoff) -> nat;

/// The number by which a back-off strategy multiplies its delay after each
/// one it has yielded.
pub uninterp spec fn growth(strategy: ExponentialBackoff) -> nat;

/// The product of `a` and `b`, held at the largest 64-bit value.
pub open spec fn saturating_product(a: nat, b: nat) -> nat {
    if a * b > u64::MAX {
        u64::MAX as nat
    } else {
        a * b
    }
}

/// Calls `ExponentialBackoff::from_millis`. Trusted: the strategy made is
/// plain, starts at `base` milliseconds and grows by the factor `base`.
#[verifier::external_body]
fn backoff_from_millis(base: u64) -> (strategy: ExponentialBackoff)
    ensures
        is_plain(strategy),
        pending_delay(strategy) == base,
        growth(strategy) == base,
{
    ExponentialBackoff::from_millis(base)
}

/// Calls `Iterator::next` of `ExponentialBackoff`. Trusted: a plain strategy
/// always yields a delay, namely the pending one, and stays plain; the delay
/// pending afterwards is the saturating product of the delay yielded and the
/// growth, which stays as it was.
#[verifier::external_body]
fn backoff_next(strategy: &mut ExponentialBackoff) -> (delay: Option<u64>)
    requires
        is_plain(*old(strategy)),
    ensures
        delay matches Some(d) && d == pending_delay(*old(strategy)),
        is_plain(*final(strategy)),
        growth(*final(strategy)) == growth(*old(strategy)),
        pending_delay(*final(strategy)) == saturating_product(
            pending_delay(*old(strategy)),
            growth(*old(strategy)),
        ),
{
    match strategy.next() {
        Some(d) => Some(d.as_millis() as u64),
        None => None,
    }
}

/// Calls `tokio_retry::strategy::jitter`, which multiplies a duration by a
/// random factor of at least zero and below one. Trusted: the result is not
/// longer than the delay handed in; nothing else is known of it. The bound on
/// the input keeps the multiplication, which is done in floating point, exact
/// to the millisecond.
#[verifier::external_body]
fn jittered(delay_ms: u64) -> (shortened: u64)
    requires
        delay_ms <= MAX_JITTER_INPUT_MS,
    ensures
        shortened <= delay_ms,
{
    jitter(Duration::from_millis(delay_ms)).as_millis() as u64
}

/// What to do after a failed attempt.
#[derive(Debug, Clone, Copy, PartialEq, Eq)]
pub enum RetryDecision {
    /// Wait this many milliseconds, then try again.
    RetryAfter(u64),
    /// Report the failure.
    GiveUp,
}

/// The delay, in milliseconds, before jitter, that follows the failure
/// number `failures` (counted from one): ten to that power.
pub open spec fn nominal_delay(failures: nat) -> nat
    decreases failures,
{
    if failures == 0 {
        1
    } else {
        nominal_delay((failures - 1) as nat) * BASE_DELAY_MS as nat
    }
}

/// The decision after `failures` failed attempts in all, given the delay
/// that would precede another attempt.
pub open spec fn decision_of(failures: nat, delay_ms: u64) -> RetryDecision {
    if failures >= MAX_ATTEMPTS {
        RetryDecision::GiveUp
    } else {
        RetryDecision::RetryAfter(delay_ms)
    }
}

/// Decides what follows `failures` failed attempts in all: another attempt
/// after `delay_ms` milliseconds while attempts are left, else giving up.
pub fn decide(failures: u32, delay_ms: u64) -> (decision: RetryDecision)
    ensures
        decision == decision_of(failures as nat, delay_ms),
{
    if failures >= MAX_ATTEMPTS {
        RetryDecision::GiveUp
    } else {
        RetryDecision::RetryAfter(delay_ms)
    }
}

/// The attempts that one download has used up, and the delays still to come.
pub struct DownloadRetry {
    strategy: ExponentialBackoff,
    failures: u32,
}

impl DownloadRetry {
    /// Number of attempts that have failed so far.
    pub closed spec fn failures(&self) -> nat {
        self.failures as nat
    }

    /// No more attempts have failed than a download gets, and while one is
    /// left the strategy's pending delay is the nominal one for the next
    /// failure.
    pub closed spec fn wf(&self) -> bool {
        &&& self.failures <= MAX_ATTEMPTS
        &&& is_plain(self.strategy)
        &&& growth(self.strategy) == BASE_DELAY_MS
        &&& self.failures + 1 < MAX_ATTEMPTS ==> pending_delay(self.strategy) == nominal_delay(
            self.failures as nat + 1,
        )
    }

    /// A download before its first attempt.
    pub fn new() -> (retry: DownloadRetry)
        ensures
            retry.wf(),
            retry.failures() == 0,
    {
        let strategy = backoff_from_millis(BASE_DELAY_MS);
        assert(nominal_delay(1) == BASE_DELAY_MS) by {
            reveal_with_fuel(nominal_delay, 2);
        }
        DownloadRetry { strategy, failures: 0 }
    }

    /// Number of attempts that have failed so far.
    pub fn failed_attempts(&self) -> (n: u32)
        ensures
            n == self.failures(),
    {
        self.failures
    }

    /// Records that an attempt has failed and decides what follows. While
    /// fewer than `MAX_ATTEMPTS` attempts have failed, another one follows
    /// after a delay that is at most the nominal one for this failure; the
    /// failure that uses up the last attempt, and any after it, ends the
    /// download.
    pub fn on_failure(&mut self) -> (decision: RetryDecision)
        requires
            old(self).wf(),
        ensures
            final(self).wf(),
            final(self).failures() == if old(self).failures() < MAX_ATTEMPTS {
                old(self).failures() + 1
            } else {
                old(self).failures()
            },
            old(self).failures() + 1 >= MAX_ATTEMPTS ==> decision == RetryDecision::GiveUp,
            old(self).failures() + 1 < MAX_ATTEMPTS ==> (decision matches RetryDecision::RetryAfter(
                delay,
            ) && delay <= nominal_delay(old(self).failures() + 1)),
    {
        if self.failures >= MAX_ATTEMPTS {
            return RetryDecision::GiveUp;
        }
        self.failures = self.failures + 1;
        if self.failures >= MAX_ATTEMPTS {
            return decide(self.failures, 0);
        }
        proof {
            reveal_with_fuel(nominal_delay, 4);
        }
        let nominal = match backoff_next(&mut self.strategy) {
            Some(delay) => delay,
            None => 0,
        };
        let delay = jittered(nominal);
        decide(self.failures, delay)
    }
}

} // verus!
