//! Fixed limits and tuning parameters shared across the library.
use vstd::prelude::*;

verus! {

// Persistence constants.
pub const REDIS_CONNECTION_TIMEOUT_SECS: u64 = 5;
pub const REDIS_MAX_CONNECTIONS: u32 = 10;
pub const REDIS_MIN_IDLE_CONNECTIONS: u32 = 1;

// Cache constants.
pub const DEFAULT_CACHE_SIZE: usize = 1000;
pub const CACHE_TTL_SECS: u64 = 86400;

// Text-to-speech constants.
pub const MAX_TTS_TEXT_LENGTH: usize = 500;
pub const MAX_SSML_LENGTH: usize = 1000;

// Validation constants.
pub const MAX_REGEX_PATTERN_LENGTH: usize = 100;
pub const MAX_RULE_NAME_LENGTH: usize = 50;

// Circuit breaker constants.
pub const CIRCUIT_BREAKER_FAILURE_THRESHOLD: u32 = 5;
pub const CIRCUIT_BREAKER_TIMEOUT_MS: u64 = 60000;

// Retry constants.
pub const DEFAULT_MAX_RETRY_ATTEMPTS: u32 = 3;
pub const DEFAULT_RETRY_DELAY_MS: u64 = 500;
pub const MAX_RETRY_DELAY_MS: u64 = 30000;

// Connection monitoring constants.
pub const CONNECTION_CHECK_INTERVAL_SECS: u64 = 5;
pub const MAX_RECONNECTION_ATTEMPTS: u32 = 3;
pub const RECONNECTION_BACKOFF_MS: u64 = 2000;

// Default speaker for the community backend.
pub const DEFAULT_VOICEVOX_SPEAKER: i64 = 1;

} // verus!
