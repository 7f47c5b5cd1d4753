use ncb_tts_r2::circuit_breaker::CircuitBreaker;
use ncb_tts_r2::circuit_breaker::CircuitBreakerState;
use ncb_tts_r2::constants::CIRCUIT_BREAKER_FAILURE_THRESHOLD;
use ncb_tts_r2::retry::retry_with_backoff;
use ncb_tts_r2::retry::RetryOperation;

#[test]
fn test_circuit_breaker_default() {
    let cb = CircuitBreaker::default();
    assert_eq!(cb.state, CircuitBreakerState::Closed);
    assert_eq!(cb.failure_count, 0);
    assert!(cb.can_execute(0));
}

#[test]
fn test_circuit_breaker_new() {
    let cb = CircuitBreaker::new(3, 10_000);
    assert_eq!(cb.state, CircuitBreakerState::Closed);
    assert_eq!(cb.threshold, 3);
    assert_eq!(cb.timeout_ms, 10_000);
}

#[test]
fn test_circuit_breaker_failure_threshold() {
    let mut cb = CircuitBreaker::default();

    for i in 0..CIRCUIT_BREAKER_FAILURE_THRESHOLD {
        assert_eq!(cb.state, CircuitBreakerState::Closed);
        assert!(cb.can_execute(0));
        cb.on_failure(0);
        assert_eq!(cb.failure_count, i + 1);
    }

    assert_eq!(cb.state, CircuitBreakerState::Open);
    assert!(!cb.can_execute(0));
}

#[test]
fn test_circuit_breaker_success_resets() {
    let mut cb = CircuitBreaker::default();

    cb.on_failure(0);
    cb.on_failure(0);
    assert_eq!(cb.failure_count, 2);

    cb.on_success();
    assert_eq!(cb.failure_count, 0);
    assert_eq!(cb.state, CircuitBreakerState::Closed);
}

#[test]
fn test_circuit_breaker_half_open() {
    let mut cb = CircuitBreaker::new(1, 100);

    cb.on_failure(0);
    assert_eq!(cb.state, CircuitBreakerState::Open);
    assert!(!cb.can_execute(0));

    cb.try_half_open(150);
    assert_eq!(cb.state, CircuitBreakerState::HalfOpen);
    assert!(cb.can_execute(150));

    cb.on_success();
    assert_eq!(cb.state, CircuitBreakerState::Closed);
}

#[test]
fn test_circuit_breaker_half_open_failure() {
    let mut cb = CircuitBreaker::new(1, 100);

    cb.on_failure(0);
    cb.try_half_open(150);
    assert_eq!(cb.state, CircuitBreakerState::HalfOpen);

    cb.on_failure(160);
    assert_eq!(cb.state, CircuitBreakerState::Open);
    assert!(!cb.can_execute(170));
}

#[test]
fn test_circuit_breaker_state_transitions() {
    let mut cb = CircuitBreaker::new(2, 100);

    assert_eq!(cb.state, CircuitBreakerState::Closed);
    assert!(cb.can_execute(0));

    cb.on_failure(0);
    assert_eq!(cb.state, CircuitBreakerState::Closed);
    assert_eq!(cb.failure_count, 1);

    cb.on_failure(0);
    assert_eq!(cb.state, CircuitBreakerState::Open);
    assert!(!cb.can_execute(0));

    cb.try_half_open(150);
    assert_eq!(cb.state, CircuitBreakerState::HalfOpen);
    assert!(cb.can_execute(150));

    cb.on_success();
    assert_eq!(cb.state, CircuitBreakerState::Closed);
    assert_eq!(cb.failure_count, 0);
}

#[test]
fn test_circuit_breaker_open_refuses_before_timeout() {
    let mut cb = CircuitBreaker::new(1, 60_000);
    cb.on_failure(1_000);
    assert!(!cb.can_execute(1_000));
    assert!(!cb.can_execute(60_999));
    assert!(cb.can_execute(61_000));
    cb.try_half_open(30_000);
    assert_eq!(cb.state, CircuitBreakerState::Open);
    cb.try_half_open(61_000);
    assert_eq!(cb.state, CircuitBreakerState::HalfOpen);
}

struct ScriptedOp {
    calls: u32,
    fail_first: u32,
    pauses: Vec<u64>,
}

impl RetryOperation for ScriptedOp {
    type Output = i32;
    type Error = &'static str;

    fn attempt(&mut self) -> Result<i32, &'static str> {
        self.calls += 1;
        if self.calls <= self.fail_first {
            Err("temporary error")
        } else {
            Ok(42)
        }
    }

    fn pause(&mut self, delay_ms: u64) {
        self.pauses.push(delay_ms);
    }
}

struct AlwaysFails {
    calls: u32,
}

impl RetryOperation for AlwaysFails {
    type Output = i32;
    type Error = &'static str;

    fn attempt(&mut self) -> Result<i32, &'static str> {
        self.calls += 1;
        Err("persistent error")
    }

    fn pause(&mut self, _delay_ms: u64) {}
}

#[test]
fn test_retry_with_backoff_success_first_try() {
    let mut op = ScriptedOp { calls: 0, fail_first: 0, pauses: Vec::new() };
    let outcome = retry_with_backoff(&mut op, 3, 100);
    assert_eq!(outcome.result.unwrap(), 42);
    assert_eq!(op.calls, 1);
}

#[test]
fn test_retry_with_backoff_success_after_retries() {
    let mut op = ScriptedOp { calls: 0, fail_first: 2, pauses: Vec::new() };
    let outcome = retry_with_backoff(&mut op, 5, 10);
    assert_eq!(outcome.result.unwrap(), 42);
    assert_eq!(op.calls, 3);
    assert_eq!(op.pauses, vec![10, 20]);
}

#[test]
fn test_retry_with_backoff_max_attempts() {
    let mut op = AlwaysFails { calls: 0 };
    let outcome = retry_with_backoff(&mut op, 3, 10);
    assert!(outcome.result.is_err());
    assert_eq!(outcome.result.unwrap_err(), "persistent error");
    assert_eq!(op.calls, 3);
}

#[test]
fn test_retry_backoff_delay_is_capped() {
    let mut op = ScriptedOp { calls: 0, fail_first: 4, pauses: Vec::new() };
    let outcome = retry_with_backoff(&mut op, 5, 20_000);
    assert_eq!(outcome.result.unwrap(), 42);
    assert_eq!(op.pauses, vec![20_000, 30_000, 30_000, 30_000]);
}
