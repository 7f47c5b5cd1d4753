//! Core of a guild-scoped text-to-speech reader: per-guild session state,
//! a session registry paired with a durable active-set model, a synthesis
//! cache and backend router guarded by a circuit breaker and retry policy,
//! a dictionary-based text normalizer, and the decision logic of the
//! connection monitor.

pub mod circuit_breaker;
pub mod commands;
pub mod config;
pub mod constants;
pub mod database;
pub mod dictionary;
pub mod errors;
pub mod gcp;
pub mod instance;
pub mod metrics;
pub mod monitor;
pub mod regex_cache;
pub mod registry;
pub mod retry;
pub mod server_config;
pub mod text;
pub mod tts;
pub mod tts_type;
pub mod user_config;
pub mod validation;
pub mod voice_state;
pub mod voicevox;
