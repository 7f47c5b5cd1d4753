use std::collections::HashMap;

use ncb_tts_r2::errors::NCBError;
use ncb_tts_r2::gcp::SynthesisInput;
use ncb_tts_r2::gcp::VoiceSelectionParams;
use ncb_tts_r2::metrics::PerformanceMetrics;
use ncb_tts_r2::tts::CacheEntry;
use ncb_tts_r2::tts::CacheKey;
use ncb_tts_r2::tts::SynthesisBackend;
use ncb_tts_r2::tts::TTS;
use ncb_tts_r2::voicevox::VOICEVOX;

#[test]
fn test_cache_key_equality() {
    let input = SynthesisInput {
        text: None,
        ssml: Some("Hello".to_string()),
    };
    let voice = VoiceSelectionParams {
        languageCode: "en-US".to_string(),
        name: "en-US-Wavenet-A".to_string(),
        ssmlGender: "female".to_string(),
    };

    let key1 = CacheKey::GCP(input.clone(), voice.clone());
    let key2 = CacheKey::GCP(input.clone(), voice.clone());
    let key3 = CacheKey::Voicevox("Hello".to_string(), 1);
    let key4 = CacheKey::Voicevox("Hello".to_string(), 1);
    let key5 = CacheKey::Voicevox("Hello".to_string(), 2);

    assert_eq!(key1, key2);
    assert_eq!(key3, key4);
    assert_ne!(key3, key5);
}

#[test]
fn test_cache_key_hash() {
    let input = SynthesisInput {
        text: Some("Test".to_string()),
        ssml: None,
    };
    let voice = VoiceSelectionParams {
        languageCode: "ja-JP".to_string(),
        name: "ja-JP-Wavenet-B".to_string(),
        ssmlGender: "neutral".to_string(),
    };

    let mut map = HashMap::new();
    let key = CacheKey::GCP(input, voice);
    map.insert(key.clone(), "test_value");

    assert_eq!(map.get(&key), Some(&"test_value"));
}

#[test]
fn test_cache_entry_creation() {
    let data = vec![1, 2, 3, 4, 5];
    let now = 1_700_000_000_000u64;

    let entry = CacheEntry {
        key: CacheKey::Voicevox("test".to_string(), 1),
        data: data.clone(),
        created_at: now,
        access_count: 0,
    };

    assert_eq!(entry.key, CacheKey::Voicevox("test".to_string(), 1));
    assert_eq!(entry.created_at, now);
    assert_eq!(entry.data, data);
    assert_eq!(entry.access_count, 0);
}

#[test]
fn test_performance_metrics_increment() {
    let mut metrics = PerformanceMetrics::default();

    assert_eq!(metrics.tts_requests, 0);

    metrics.increment_tts_requests();
    metrics.increment_tts_requests();

    assert_eq!(metrics.tts_requests, 2);

    metrics.increment_tts_cache_hits();
    assert_eq!(metrics.tts_cache_hits, 1);

    metrics.increment_tts_cache_misses();
    assert_eq!(metrics.tts_cache_misses, 1);
}

#[test]
fn test_performance_metrics_get_stats() {
    let mut metrics = PerformanceMetrics::default();

    metrics.increment_tts_requests();
    metrics.increment_tts_requests();
    metrics.increment_tts_cache_hits();
    metrics.increment_database_operations();

    let stats = metrics.get_stats();

    assert_eq!(stats.tts_requests, 2);
    assert_eq!(stats.tts_cache_hits, 1);
    assert_eq!(stats.tts_cache_misses, 0);
    assert_eq!(stats.database_operations, 1);
}

struct CountingBackend {
    calls: usize,
    audio: Vec<u8>,
    fail: bool,
    last_request: Option<CacheKey>,
}

impl CountingBackend {
    fn ok(audio: Vec<u8>) -> Self {
        CountingBackend { calls: 0, audio, fail: false, last_request: None }
    }
}

impl SynthesisBackend for CountingBackend {
    fn synthesize_raw(&mut self, request: &CacheKey) -> Result<Vec<u8>, NCBError> {
        self.calls += 1;
        self.last_request = Some(request.clone());
        if self.fail {
            Err(NCBError::tts_synthesis("backend down"))
        } else {
            Ok(self.audio.clone())
        }
    }

    fn pause(&mut self, _delay_ms: u64) {}
}

#[test]
fn test_synthesize_cache_hit_skips_backend() {
    let mut tts = TTS::new(VOICEVOX::new(None, None));
    let mut backend = CountingBackend::ok(vec![9, 8, 7]);

    let first = tts.synthesize_voicevox(&mut backend, "hello", 1, 0);
    assert_eq!(first.result.unwrap(), vec![9, 8, 7]);
    assert_eq!(backend.calls, 1);

    // The identical request is served from the cache: the backend is not
    // invoked a second time.
    let second = tts.synthesize_voicevox(&mut backend, "hello", 1, 5);
    assert_eq!(second.result.unwrap(), vec![9, 8, 7]);
    assert_eq!(backend.calls, 1);

    // A different speaker is a different key.
    let third = tts.synthesize_voicevox(&mut backend, "hello", 2, 10);
    assert_eq!(third.result.unwrap(), vec![9, 8, 7]);
    assert_eq!(backend.calls, 2);

    let stats = tts.get_metrics();
    assert_eq!(stats.tts_requests, 3);
    assert_eq!(stats.tts_cache_hits, 1);
    assert_eq!(stats.tts_cache_misses, 2);
}

#[test]
fn test_synthesize_gcp_cache_hit() {
    let mut tts = TTS::new(VOICEVOX::new(None, None));
    let mut backend = CountingBackend::ok(vec![1]);
    let input = SynthesisInput { text: None, ssml: Some("<speak>hi</speak>".to_string()) };
    let voice = VoiceSelectionParams {
        languageCode: "ja-JP".to_string(),
        name: "ja-JP-Wavenet-B".to_string(),
        ssmlGender: "neutral".to_string(),
    };

    let first = tts.synthesize_gcp(&mut backend, input.clone(), voice.clone(), 0);
    assert!(first.result.is_ok());
    assert_eq!(backend.calls, 1);

    let second = tts.synthesize_gcp(&mut backend, input, voice, 0);
    assert_eq!(second.result.unwrap(), vec![1]);
    assert_eq!(backend.calls, 1);
}

#[test]
fn test_synthesize_retries_and_opens_breaker() {
    let mut tts = TTS::new(VOICEVOX::new(None, None));
    let mut backend = CountingBackend::ok(vec![0]);
    backend.fail = true;

    // Each failed synthesis burns the full retry budget of three
    // attempts, every one recorded in the breaker.
    let first = tts.synthesize_voicevox(&mut backend, "a", 1, 0);
    assert!(first.result.is_err());
    assert_eq!(backend.calls, 3);

    let second = tts.synthesize_voicevox(&mut backend, "b", 1, 0);
    assert!(second.result.is_err());
    assert_eq!(backend.calls, 6);

    // Six consecutive failures passed the threshold of five: the breaker
    // is open and the next request fails fast without any backend call.
    let third = tts.synthesize_voicevox(&mut backend, "c", 1, 1_000);
    assert!(third.result.is_err());
    assert_eq!(backend.calls, 6);

    // Once the cool-down has elapsed a half-open probe is allowed again.
    backend.fail = false;
    let fourth = tts.synthesize_voicevox(&mut backend, "c", 1, 100_000);
    assert_eq!(fourth.result.unwrap(), vec![0]);
    assert_eq!(backend.calls, 7);
}

#[test]
fn test_clear_cache_and_stats() {
    let mut tts = TTS::new(VOICEVOX::new(None, None));
    let mut backend = CountingBackend::ok(vec![5]);

    let _ = tts.synthesize_voicevox(&mut backend, "x", 1, 0);
    let (len, cap) = tts.get_cache_stats();
    assert_eq!(len, 1);
    assert_eq!(cap, ncb_tts_r2::constants::DEFAULT_CACHE_SIZE);

    tts.clear_cache();
    let (len, _) = tts.get_cache_stats();
    assert_eq!(len, 0);

    // After clearing, the same request reaches the backend again.
    let _ = tts.synthesize_voicevox(&mut backend, "x", 1, 0);
    assert_eq!(backend.calls, 2);
}

#[test]
fn test_canonical_keys_distinguish_requests() {
    let k1 = CacheKey::Voicevox("ab".to_string(), 1).canonical();
    let k2 = CacheKey::Voicevox("ab".to_string(), 2).canonical();
    let k3 = CacheKey::Voicevox("ab".to_string(), 1).canonical();
    assert_ne!(k1, k2);
    assert_eq!(k1, k3);

    let gcp = CacheKey::GCP(
        SynthesisInput { text: None, ssml: Some("ab".to_string()) },
        VoiceSelectionParams {
            languageCode: "ja-JP".to_string(),
            name: "ja-JP-Wavenet-B".to_string(),
            ssmlGender: "neutral".to_string(),
        },
    )
    .canonical();
    let gcp_text = CacheKey::GCP(
        SynthesisInput { text: Some("ab".to_string()), ssml: None },
        VoiceSelectionParams {
            languageCode: "ja-JP".to_string(),
            name: "ja-JP-Wavenet-B".to_string(),
            ssmlGender: "neutral".to_string(),
        },
    )
    .canonical();
    assert_ne!(gcp, gcp_text);
    assert_ne!(gcp, k1);
}
