//! Retry with exponential backoff around a fallible operation.
//!
//! The operation and the wait between attempts are supplied by the
//! caller through [`RetryOperation`]; the driver records the outcome of
//! every attempt in a ghost sequence, so its contract pins the attempt
//! count and the backoff schedule for any operation behavior.
use vstd::prelude::*;

verus! {

use crate::constants::MAX_RETRY_DELAY_MS;

/// A fallible operation that the driver may attempt repeatedly, and the
/// wait it performs between attempts. Implemented by callers; the driver
/// assumes nothing about either method.
pub trait RetryOperation {
    type Output;

    type Error;

    /// One attempt of the underlying operation.
    fn attempt(&mut self) -> Result<Self::Output, Self::Error>;

    /// Waits for the given backoff delay before the next attempt.
    fn pause(&mut self, delay_ms: u64);
}

/// The delay before the `i+1`-th retry: the initial delay doubled `i`
/// times, capped at the maximum delay.
pub open spec fn spec_backoff_delay(initial_ms: u64, i: int) -> int
    decreases i,
{
    if i <= 0 {
        initial_ms as int
    } else {
        let d = spec_backoff_delay(initial_ms, i - 1);
        if 2 * d > MAX_RETRY_DELAY_MS {
            MAX_RETRY_DELAY_MS as int
        } else {
            2 * d
        }
    }
}

/// What one run of the driver did: the final result, how many attempts
/// were made, and (as ghost data) the outcome of each attempt and the
/// delay before each retry.
pub struct RetryOutcome<T, E> {
    pub result: Result<T, E>,
    pub attempts: u32,
    pub outcomes: Ghost<Seq<bool>>,
    pub delays: Ghost<Seq<u64>>,
}

/// Law (shape of a retried run): the attempts recorded by
/// `retry_with_backoff` are failures up to the last one; the run ends
/// either at the first success or after exactly `max_attempts` failures.
/// For an operation that fails `k` times and then succeeds
/// (`k < max_attempts`), the only consistent run makes exactly `k + 1`
/// attempts and returns the success.
pub proof fn lemma_retry_attempt_count(outcomes: Seq<bool>, k: int, max_attempts: int)
    requires
        1 <= outcomes.len() <= max_attempts,
        forall|i: int| 0 <= i < outcomes.len() - 1 ==> !(#[trigger] outcomes[i]),
        !outcomes.last() ==> outcomes.len() == max_attempts,
        0 <= k < max_attempts,
        forall|i: int| 0 <= i < outcomes.len() ==> ((#[trigger] outcomes[i]) <==> i == k),
    ensures
        outcomes.len() == k + 1,
        outcomes.last(),
{
    if outcomes.len() <= k {
        assert(!outcomes.last());
        assert(outcomes.len() == max_attempts);
        assert(max_attempts <= k);
        assert(false);
    }
    if outcomes.len() > k + 1 {
        assert(outcomes[k]);
        assert(false);
    }
    assert(outcomes.len() == k + 1);
    assert(outcomes.last() == outcomes[k]);
}

/// Law: for an operation that fails on every attempt, the driver makes
/// exactly `max_attempts` attempts and ends with the failure.
pub proof fn lemma_retry_exhausted(outcomes: Seq<bool>, max_attempts: int)
    requires
        1 <= outcomes.len() <= max_attempts,
        !outcomes.last() ==> outcomes.len() == max_attempts,
        forall|i: int| 0 <= i < outcomes.len() ==> !(#[trigger] outcomes[i]),
    ensures
        outcomes.len() == max_attempts,
        !outcomes.last(),
{
}

/// Runs the operation up to `max_attempts` times, waiting between
/// attempts with a doubling, capped delay. Returns at the first success,
/// or with the last error once the attempt budget is spent.
pub fn retry_with_backoff<O: RetryOperation>(op: &mut O, max_attempts: u32, initial_delay_ms: u64)
    -> (r: RetryOutcome<O::Output, O::Error>)
    requires
        max_attempts >= 1,
    ensures
        1 <= r.attempts <= max_attempts,
        r.outcomes@.len() == r.attempts,
        r.result is Ok <==> r.outcomes@.last(),
        forall|i: int| 0 <= i < r.outcomes@.len() - 1 ==> !(#[trigger] r.outcomes@[i]),
        !r.outcomes@.last() ==> r.attempts == max_attempts,
        r.delays@.len() == r.attempts - 1,
        forall|i: int|
            0 <= i < r.delays@.len() ==> (#[trigger] r.delays@[i]) == spec_backoff_delay(
                initial_delay_ms,
                i,
            ),
{
    let mut attempts: u32 = 0;
    let mut delay: u64 = initial_delay_ms;
    let ghost mut outcomes: Seq<bool> = Seq::empty();
    let ghost mut delays: Seq<u64> = Seq::empty();
    loop
        invariant
            max_attempts >= 1,
            attempts < max_attempts,
            outcomes.len() == attempts,
            delays.len() == attempts,
            forall|i: int| 0 <= i < outcomes.len() ==> !(#[trigger] outcomes[i]),
            delay == spec_backoff_delay(initial_delay_ms, attempts as int),
            forall|i: int|
                0 <= i < delays.len() ==> (#[trigger] delays[i]) == spec_backoff_delay(
                    initial_delay_ms,
                    i,
                ),
        decreases max_attempts - attempts,
    {
        let res = op.attempt();
        attempts = attempts + 1;
        match res {
            Result::Ok(v) => {
                proof {
                    outcomes = outcomes.push(true);
                }
                return RetryOutcome {
                    result: Result::Ok(v),
                    attempts,
                    outcomes: Ghost(outcomes),
                    delays: Ghost(delays),
                };
            },
            Result::Err(e) => {
                proof {
                    outcomes = outcomes.push(false);
                }
                if attempts >= max_attempts {
                    return RetryOutcome {
                        result: Result::Err(e),
                        attempts,
                        outcomes: Ghost(outcomes),
                        delays: Ghost(delays),
                    };
                }
                op.pause(delay);
                proof {
                    delays = delays.push(delay);
                }
                delay = if delay > MAX_RETRY_DELAY_MS / 2 {
                    MAX_RETRY_DELAY_MS
                } else {
                    delay * 2
                };
            },
        }
    }
}

} // verus!
