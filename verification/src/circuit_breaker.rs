//! Failure-isolation state machine guarding calls to a flaky backend.
//!
//! Time is passed in explicitly as a millisecond timestamp so that the
//! whole state machine is a pure function of its inputs.
use vstd::prelude::*;

verus! {

/// The three phases of the breaker: healthy, tripped, and probing.
#[derive(Debug, Clone, Copy, PartialEq, Eq, Structural)]
pub enum CircuitBreakerState {
    Closed,
    Open,
    HalfOpen,
}

/// Counts consecutive failures and trips open once `threshold` is reached;
/// after `timeout_ms` of cool-down a single trial call is allowed.
#[derive(Debug, Clone)]
pub struct CircuitBreaker {
    pub state: CircuitBreakerState,
    pub failure_count: u32,
    pub last_failure_time: Option<u64>,
    pub threshold: u32,
    pub timeout_ms: u64,
}

impl CircuitBreaker {
    /// The cool-down has elapsed at `now_ms` (vacuously, if no failure was recorded).
    pub open spec fn spec_timeout_elapsed(self, now_ms: u64) -> bool {
        match self.last_failure_time {
            Option::None => true,
            Option::Some(t) => now_ms >= t + self.timeout_ms,
        }
    }

    /// Whether a call may be attempted at `now_ms`.
    pub open spec fn spec_can_execute(self, now_ms: u64) -> bool {
        match self.state {
            CircuitBreakerState::Closed => true,
            CircuitBreakerState::HalfOpen => true,
            CircuitBreakerState::Open => self.spec_timeout_elapsed(now_ms),
        }
    }

    /// The breaker after recording a success.
    pub open spec fn spec_on_success(self) -> CircuitBreaker {
        CircuitBreaker {
            state: CircuitBreakerState::Closed,
            failure_count: 0,
            last_failure_time: Option::None,
            ..self
        }
    }

    /// The breaker after recording a failure at `now_ms`; the counter
    /// saturates rather than wrapping.
    pub open spec fn spec_on_failure(self, now_ms: u64) -> CircuitBreaker {
        let bumped = if self.failure_count < u32::MAX {
            (self.failure_count + 1) as u32
        } else {
            self.failure_count
        };
        CircuitBreaker {
            state: if bumped >= self.threshold {
                CircuitBreakerState::Open
            } else if self.state is HalfOpen {
                CircuitBreakerState::Open
            } else {
                self.state
            },
            failure_count: bumped,
            last_failure_time: Option::Some(now_ms),
            ..self
        }
    }

    /// The breaker after a half-open probe opportunity at `now_ms`.
    pub open spec fn spec_try_half_open(self, now_ms: u64) -> CircuitBreaker {
        if self.state is Open && self.last_failure_time is Some && self.spec_timeout_elapsed(
            now_ms,
        ) {
            CircuitBreaker { state: CircuitBreakerState::HalfOpen, ..self }
        } else {
            self
        }
    }

    pub fn new(threshold: u32, timeout_ms: u64) -> (r: Self)
        ensures
            r.state == CircuitBreakerState::Closed,
            r.failure_count == 0,
            r.last_failure_time is None,
            r.threshold == threshold,
            r.timeout_ms == timeout_ms,
    {
        Self {
            state: CircuitBreakerState::Closed,
            failure_count: 0,
            last_failure_time: Option::None,
            threshold,
            timeout_ms,
        }
    }

    pub fn can_execute(&self, now_ms: u64) -> (r: bool)
        ensures
            r == self.spec_can_execute(now_ms),
    {
        match self.state {
            CircuitBreakerState::Closed => true,
            CircuitBreakerState::HalfOpen => true,
            CircuitBreakerState::Open => self.timeout_elapsed(now_ms),
        }
    }

    fn timeout_elapsed(&self, now_ms: u64) -> (r: bool)
        ensures
            r == self.spec_timeout_elapsed(now_ms),
    {
        match self.last_failure_time {
            Option::None => true,
            Option::Some(t) => now_ms >= t && now_ms - t >= self.timeout_ms,
        }
    }

    pub fn on_success(&mut self)
        ensures
            *final(self) == old(self).spec_on_success(),
            final(self).state == CircuitBreakerState::Closed,
            final(self).failure_count == 0,
    {
        self.failure_count = 0;
        self.state = CircuitBreakerState::Closed;
        self.last_failure_time = Option::None;
    }

    pub fn on_failure(&mut self, now_ms: u64)
        ensures
            *final(self) == old(self).spec_on_failure(now_ms),
            old(self).failure_count < u32::MAX ==> final(self).failure_count == old(
                self,
            ).failure_count + 1,
            final(self).last_failure_time == Option::Some(now_ms),
            old(self).failure_count < u32::MAX ==> (final(self).state == CircuitBreakerState::Open
                <==> (old(self).failure_count + 1 >= old(self).threshold || old(self).state
                    is HalfOpen || old(self).state is Open)),
            final(self).failure_count >= old(self).threshold ==> final(self).state
                == CircuitBreakerState::Open,
            old(self).state is HalfOpen ==> final(self).state == CircuitBreakerState::Open,
            !(old(self).state is HalfOpen) && !(old(self).state is Open) && old(self).failure_count
                + 1 < old(self).threshold ==> final(self).state == old(self).state,
    {
        if self.failure_count < u32::MAX {
            self.failure_count = self.failure_count + 1;
        }
        self.last_failure_time = Option::Some(now_ms);
        if self.failure_count >= self.threshold {
            self.state = CircuitBreakerState::Open;
        } else if self.state == CircuitBreakerState::HalfOpen {
            self.state = CircuitBreakerState::Open;
        }
    }

    pub fn try_half_open(&mut self, now_ms: u64)
        ensures
            *final(self) == old(self).spec_try_half_open(now_ms),
    {
        if self.state == CircuitBreakerState::Open {
            if self.last_failure_time.is_some() {
                if self.timeout_elapsed(now_ms) {
                    self.state = CircuitBreakerState::HalfOpen;
                }
            }
        }
    }
}

impl Default for CircuitBreaker {
    /// A fresh breaker with the default threshold and cool-down.
    fn default() -> (r: Self)
        ensures
            r.state == CircuitBreakerState::Closed,
            r.failure_count == 0,
            r.last_failure_time is None,
            r.threshold == crate::constants::CIRCUIT_BREAKER_FAILURE_THRESHOLD,
            r.timeout_ms == crate::constants::CIRCUIT_BREAKER_TIMEOUT_MS,
    {
        CircuitBreaker::new(
            crate::constants::CIRCUIT_BREAKER_FAILURE_THRESHOLD,
            crate::constants::CIRCUIT_BREAKER_TIMEOUT_MS,
        )
    }
}

/// A breaker in its freshly constructed, healthy phase.
pub open spec fn breaker_fresh(cb: CircuitBreaker) -> bool {
    &&& cb.state == CircuitBreakerState::Closed
    &&& cb.failure_count == 0
    &&& cb.last_failure_time is None
}

/// The breaker after `times` consecutive recorded failures.
pub open spec fn apply_failures(cb: CircuitBreaker, times: Seq<u64>) -> CircuitBreaker
    decreases times.len(),
{
    if times.len() == 0 {
        cb
    } else {
        apply_failures(cb.spec_on_failure(times[0]), times.subrange(1, times.len() as int))
    }
}

/// Law: starting from a fresh breaker, fewer consecutive failures than the
/// threshold leave the breaker closed and callable, while exactly
/// `threshold` consecutive failures open it; the open breaker refuses
/// calls until the cool-down has elapsed from the last failure.
pub proof fn lemma_breaker_opens_at_threshold(cb: CircuitBreaker, times: Seq<u64>, now_ms: u64)
    requires
        breaker_fresh(cb),
        cb.threshold > 0,
        times.len() <= cb.threshold < u32::MAX,
    ensures
        apply_failures(cb, times).failure_count == times.len(),
        times.len() < cb.threshold ==> apply_failures(cb, times).state
            == CircuitBreakerState::Closed,
        times.len() < cb.threshold ==> apply_failures(cb, times).spec_can_execute(now_ms),
        times.len() == cb.threshold ==> apply_failures(cb, times).state
            == CircuitBreakerState::Open,
        times.len() > 0 ==> apply_failures(cb, times).last_failure_time == Option::Some(
            times.last(),
        ),
        times.len() == cb.threshold && now_ms < times.last() + cb.timeout_ms ==> !apply_failures(
            cb,
            times,
        ).spec_can_execute(now_ms),
        apply_failures(cb, times).threshold == cb.threshold,
        apply_failures(cb, times).timeout_ms == cb.timeout_ms,
    decreases times.len(),
{
    if times.len() > 0 {
        let cb1 = cb.spec_on_failure(times[0]);
        if times.len() == 1 {
            assert(apply_failures(cb1, times.subrange(1, times.len() as int)) == cb1);
        } else {
            let rest = times.subrange(1, times.len() as int);
            lemma_failures_from_closed(cb1, rest, now_ms);
            assert(rest.last() == times.last());
        }
    }
}

/// Helper law: from a closed breaker with some failures already counted,
/// further consecutive failures keep incrementing the counter and open the
/// breaker exactly when the counter reaches the threshold.
pub proof fn lemma_failures_from_closed(cb: CircuitBreaker, times: Seq<u64>, now_ms: u64)
    requires
        cb.state == CircuitBreakerState::Closed || cb.state == CircuitBreakerState::Open,
        cb.state == CircuitBreakerState::Closed ==> cb.failure_count < cb.threshold,
        cb.state == CircuitBreakerState::Open ==> cb.failure_count >= cb.threshold,
        cb.failure_count + times.len() <= cb.threshold || cb.state == CircuitBreakerState::Open,
        cb.failure_count + times.len() < u32::MAX,
        cb.threshold < u32::MAX,
        cb.threshold > 0,
    ensures
        apply_failures(cb, times).failure_count == cb.failure_count + times.len(),
        cb.failure_count + times.len() < cb.threshold ==> apply_failures(cb, times).state
            == cb.state,
        cb.failure_count + times.len() >= cb.threshold ==> apply_failures(cb, times).state
            == CircuitBreakerState::Open,
        times.len() > 0 ==> apply_failures(cb, times).last_failure_time == Option::Some(
            times.last(),
        ),
        times.len() == 0 ==> apply_failures(cb, times).last_failure_time == cb.last_failure_time,
        apply_failures(cb, times).threshold == cb.threshold,
        apply_failures(cb, times).timeout_ms == cb.timeout_ms,
    decreases times.len(),
{
    if times.len() > 0 {
        let cb1 = cb.spec_on_failure(times[0]);
        let rest = times.subrange(1, times.len() as int);
        lemma_failures_from_closed(cb1, rest, now_ms);
        if rest.len() > 0 {
            assert(rest.last() == times.last());
        }
    }
}

/// Law: once the cool-down of an open breaker has elapsed, a half-open
/// probe is granted; a failure during the probe reopens the breaker at
/// once, while a success closes it and resets the failure counter.
pub proof fn lemma_half_open_trial(cb: CircuitBreaker, now_ms: u64, fail_ms: u64)
    requires
        cb.state == CircuitBreakerState::Open,
        cb.last_failure_time is Some,
        cb.spec_timeout_elapsed(now_ms),
        cb.failure_count < u32::MAX,
    ensures
        cb.spec_try_half_open(now_ms).state == CircuitBreakerState::HalfOpen,
        cb.spec_try_half_open(now_ms).spec_can_execute(now_ms),
        cb.spec_try_half_open(now_ms).spec_on_failure(fail_ms).state == CircuitBreakerState::Open,
        cb.spec_try_half_open(now_ms).spec_on_success().state == CircuitBreakerState::Closed,
        cb.spec_try_half_open(now_ms).spec_on_success().failure_count == 0,
{
}

} // verus!
