//! Synthesis cache and backend router: deduplicates identical requests
//! through an LRU audio cache, guards each backend with a circuit
//! breaker, and retries failed network calls with exponential backoff.
use std::num::NonZeroUsize;

use vstd::prelude::*;

verus! {

use crate::circuit_breaker::CircuitBreaker;
use crate::constants::DEFAULT_CACHE_SIZE;
use crate::constants::DEFAULT_MAX_RETRY_ATTEMPTS;
use crate::constants::DEFAULT_RETRY_DELAY_MS;
use crate::errors::NCBError;
use crate::gcp::SynthesisInput;
use crate::gcp::VoiceSelectionParams;
use crate::metrics::MetricsSnapshot;
use crate::metrics::PerformanceMetrics;
use crate::text::spec_u64_dec;
use crate::text::u64_to_string;
use crate::voicevox::VOICEVOX;

/// What identifies a synthesis request: the backend, the exact text or
/// SSML, and the voice parameters.
#[derive(Debug, Clone, PartialEq, Eq, Hash)]
pub enum CacheKey {
    Voicevox(String, i64),
    GCP(SynthesisInput, VoiceSelectionParams),
}

/// A cache entry as held by an on-disk snapshot of the audio cache.
#[derive(Debug, Clone)]
pub struct CacheEntry {
    pub key: CacheKey,
    pub data: Vec<u8>,
    pub created_at: u64,
    pub access_count: u64,
}

/// A length-prefixed field of a canonical key: "len:text".
pub open spec fn spec_field(s: Seq<char>) -> Seq<char> {
    spec_u64_dec(s.len() as int) + ":"@ + s
}

/// A length-prefixed optional field: "n" for absent, "s" plus the field
/// for present.
pub open spec fn spec_opt_field(s: Option<Seq<char>>) -> Seq<char> {
    match s {
        Option::None => "n"@,
        Option::Some(t) => "s"@ + spec_field(t),
    }
}

/// The canonical cache key of a community-backend request.
pub open spec fn spec_vv_key(text: Seq<char>, speaker: i64) -> Seq<char> {
    "v:"@ + spec_u64_dec(speaker as u64 as int) + ":"@ + text
}

/// The canonical cache key of a cloud-backend request over plain views:
/// the backend tag, both input fields and all three voice fields, each
/// length-prefixed so that distinct requests render distinct keys.
pub open spec fn spec_gcp_key_v(
    text: Option<Seq<char>>,
    ssml: Option<Seq<char>>,
    lang: Seq<char>,
    voice_name: Seq<char>,
    gender: Seq<char>,
) -> Seq<char> {
    "g:"@ + spec_opt_field(text) + spec_opt_field(ssml) + spec_field(lang) + spec_field(voice_name)
        + spec_field(gender)
}

/// The canonical cache key of a cloud-backend request.
pub open spec fn spec_gcp_key(input: SynthesisInput, voice: VoiceSelectionParams) -> Seq<char> {
    spec_gcp_key_v(
        match input.text {
            Option::Some(t) => Option::Some(t@),
            Option::None => Option::None,
        },
        match input.ssml {
            Option::Some(t) => Option::Some(t@),
            Option::None => Option::None,
        },
        voice.languageCode@,
        voice.name@,
        voice.ssmlGender@,
    )
}

/// The canonical string of a cache key.
pub open spec fn spec_canonical(k: CacheKey) -> Seq<char> {
    match k {
        CacheKey::Voicevox(text, speaker) => spec_vv_key(text@, speaker),
        CacheKey::GCP(input, voice) => spec_gcp_key(input, voice),
    }
}

fn push_field(out: &mut String, s: &str)
    ensures
        final(out)@ == old(out)@ + spec_field(s@),
{
    let chars = crate::text::str_to_chars(s);
    let n = u64_to_string(chars.len() as u64);
    out.append(n.as_str());
    out.append(":");
    out.append(s);
    proof {
        assert(final(out)@ =~= old(out)@ + spec_field(s@));
    }
}

fn push_opt_field(out: &mut String, s: &Option<String>)
    ensures
        final(out)@ == old(out)@ + spec_opt_field(
            match *s {
                Option::Some(t) => Option::Some(t@),
                Option::None => Option::None,
            },
        ),
{
    match s {
        Option::None => {
            out.append("n");
        },
        Option::Some(t) => {
            out.append("s");
            push_field(out, t.as_str());
            proof {
                assert(final(out)@ =~= old(out)@ + ("s"@ + spec_field(t@)));
            }
        },
    }
}

impl CacheKey {
    /// Renders the canonical string this request is cached under.
    pub fn canonical(&self) -> (r: String)
        ensures
            r@ == spec_canonical(*self),
    {
        match self {
            CacheKey::Voicevox(text, speaker) => {
                let mut out = "v:".to_owned();
                let n = u64_to_string(*speaker as u64);
                out.append(n.as_str());
                out.append(":");
                out.append(text.as_str());
                proof {
                    assert(out@ =~= spec_vv_key(text@, *speaker));
                }
                out
            },
            CacheKey::GCP(input, voice) => {
                let mut out = "g:".to_owned();
                push_opt_field(&mut out, &input.text);
                push_opt_field(&mut out, &input.ssml);
                push_field(&mut out, voice.languageCode.as_str());
                push_field(&mut out, voice.name.as_str());
                push_field(&mut out, voice.ssmlGender.as_str());
                proof {
                    assert(out@ =~= spec_gcp_key(*input, *voice));
                }
                out
            },
        }
    }
}

/// A network synthesis capability: one of the two vendor integrations,
/// or a stand-in for tests. The router assumes nothing about either
/// method.
pub trait SynthesisBackend {
    /// One network call: the request to raw audio bytes.
    fn synthesize_raw(&mut self, request: &CacheKey) -> Result<Vec<u8>, NCBError>;

    /// Waits for the given backoff delay before the next attempt.
    fn pause(&mut self, delay_ms: u64);
}

/// What the audio cache holds, by canonical key.
pub uninterp spec fn lru_audio_contents(
    c: lru::LruCache<String, Vec<u8>, std::collections::hash_map::RandomState>,
) -> Map<Seq<char>, Seq<u8>>;

/// How many entries the audio cache holds.
pub uninterp spec fn lru_audio_len(
    c: lru::LruCache<String, Vec<u8>, std::collections::hash_map::RandomState>,
) -> nat;

/// The fixed capacity the audio cache was created with.
pub uninterp spec fn lru_audio_cap(
    c: lru::LruCache<String, Vec<u8>, std::collections::hash_map::RandomState>,
) -> nat;

/// Relies on lru::LruCache::with_hasher: the new cache is empty and
/// keeps the requested capacity.
#[verifier::external_body]
fn lru_audio_new(cap: usize) -> (r: lru::LruCache<
    String,
    Vec<u8>,
    std::collections::hash_map::RandomState,
>)
    requires
        cap >= 1,
    ensures
        (lru_audio_contents(r) == Map::<Seq<char>, Seq<u8>>::empty()),
        lru_audio_len(r) == 0,
        lru_audio_cap(r) == cap,
{
    lru::LruCache::with_hasher(
        NonZeroUsize::new(cap).unwrap(),
        std::collections::hash_map::RandomState::new(),
    )
}

/// Relies on lru::LruCache::get: returns the entry stored under the key,
/// if any, promoting it to most recently used; neither the mapping, the
/// entry count nor the capacity changes. The value is handed out as a
/// clone.
#[verifier::external_body]
fn lru_audio_get(
    c: &mut lru::LruCache<String, Vec<u8>, std::collections::hash_map::RandomState>,
    k: &str,
) -> (r: Option<Vec<u8>>)
    ensures
        (lru_audio_contents(*final(c)) == lru_audio_contents(*old(c))),
        lru_audio_len(*final(c)) == lru_audio_len(*old(c)),
        lru_audio_cap(*final(c)) == lru_audio_cap(*old(c)),
        r is Some <==> lru_audio_contents(*old(c)).contains_key(k@),
        r matches Some(v) ==> v@ == lru_audio_contents(*old(c))[k@],
{
    c.get(k).cloned()
}

/// Relies on lru::LruCache::put: stores the pair under the key; at
/// capacity the least-recently-used other entry is dropped, so every
/// surviving key maps to the value it had before, and the entry count
/// stays within the capacity.
#[verifier::external_body]
fn lru_audio_put(
    c: &mut lru::LruCache<String, Vec<u8>, std::collections::hash_map::RandomState>,
    k: &str,
    v: Vec<u8>,
)
    ensures
        lru_audio_contents(*final(c)).contains_pair(k@, v@),
        forall|k2: Seq<char>|
            k2 != k@ && lru_audio_contents(*final(c)).contains_key(k2) ==> lru_audio_contents(
                *old(c),
            ).contains_pair(k2, lru_audio_contents(*final(c))[k2]),
        1 <= lru_audio_len(*final(c)) <= lru_audio_cap(*old(c)),
        lru_audio_cap(*final(c)) == lru_audio_cap(*old(c)),
{
    c.put(k.to_owned(), v);
}

/// Relies on lru::LruCache::len: the current number of entries.
#[verifier::external_body]
fn lru_audio_exec_len(
    c: &lru::LruCache<String, Vec<u8>, std::collections::hash_map::RandomState>,
) -> (r: usize)
    ensures
        r == lru_audio_len(*c),
{
    c.len()
}

/// Relies on lru::LruCache::cap: the capacity the cache was created with.
#[verifier::external_body]
fn lru_audio_exec_cap(
    c: &lru::LruCache<String, Vec<u8>, std::collections::hash_map::RandomState>,
) -> (r: usize)
    ensures
        r == lru_audio_cap(*c),
{
    c.cap().get()
}

/// Relies on lru::LruCache::clear: afterwards the cache holds nothing.
#[verifier::external_body]
fn lru_audio_clear(c: &mut lru::LruCache<String, Vec<u8>, std::collections::hash_map::RandomState>)
    ensures
        (lru_audio_contents(*final(c)) == Map::<Seq<char>, Seq<u8>>::empty()),
        lru_audio_len(*final(c)) == 0,
        lru_audio_cap(*final(c)) == lru_audio_cap(*old(c)),
{
    c.clear();
}

/// The breaker after recording one outcome: success closes and resets
/// it, failure counts towards opening it.
pub open spec fn spec_record_outcome(cb: CircuitBreaker, ok: bool, now_ms: u64) -> CircuitBreaker {
    if ok {
        cb.spec_on_success()
    } else {
        cb.spec_on_failure(now_ms)
    }
}

/// The breaker after recording each outcome in order.
pub open spec fn spec_record_outcomes(
    cb: CircuitBreaker,
    outcomes: Seq<bool>,
    now_ms: u64,
) -> CircuitBreaker
    decreases outcomes.len(),
{
    if outcomes.len() == 0 {
        cb
    } else {
        spec_record_outcomes(spec_record_outcome(cb, outcomes[0], now_ms), outcomes.skip(1), now_ms)
    }
}

/// The router: the audio cache shared by all guilds, one circuit breaker
/// per backend, and the pipeline counters.
pub struct TTS {
    pub voicevox_client: VOICEVOX,
    pub cache: lru::LruCache<String, Vec<u8>, std::collections::hash_map::RandomState>,
    pub voicevox_circuit_breaker: CircuitBreaker,
    pub gcp_circuit_breaker: CircuitBreaker,
    pub metrics: PerformanceMetrics,
    pub cache_persistence_path: Option<String>,
}

/// How one synthesis call went, for the contract: the audio or the
/// error, and (as ghost data) the outcome of every backend attempt.
pub struct SynthOutcome {
    pub result: Result<Vec<u8>, NCBError>,
    pub attempts: Ghost<Seq<bool>>,
}

impl TTS {
    pub open spec fn spec_cache(self) -> Map<Seq<char>, Seq<u8>> {
        lru_audio_contents(self.cache)
    }

    pub open spec fn spec_voicevox_breaker(self) -> CircuitBreaker {
        self.voicevox_circuit_breaker
    }

    pub open spec fn spec_gcp_breaker(self) -> CircuitBreaker {
        self.gcp_circuit_breaker
    }

    pub open spec fn spec_metrics(self) -> PerformanceMetrics {
        self.metrics
    }

    /// A fresh router: empty cache at the default capacity, fresh
    /// breakers at the default threshold, zeroed counters.
    pub fn new(voicevox_client: VOICEVOX) -> (r: Self)
        ensures
            (r.spec_cache() == Map::<Seq<char>, Seq<u8>>::empty()),
            crate::circuit_breaker::breaker_fresh(r.spec_voicevox_breaker()),
            crate::circuit_breaker::breaker_fresh(r.spec_gcp_breaker()),
            r.spec_metrics().tts_requests == 0,
            r.spec_metrics().tts_cache_hits == 0,
            r.spec_metrics().tts_cache_misses == 0,
            r.voicevox_client == voicevox_client,
    {
        TTS {
            voicevox_client,
            cache: lru_audio_new(DEFAULT_CACHE_SIZE),
            voicevox_circuit_breaker: CircuitBreaker::default(),
            gcp_circuit_breaker: CircuitBreaker::default(),
            metrics: PerformanceMetrics::new(),
            cache_persistence_path: Option::Some("./tts_cache.bin".to_owned()),
        }
    }

    /// Replaces the path an on-disk cache snapshot would use.
    pub fn with_cache_path(self, path: Option<String>) -> (r: Self)
        ensures
            r.spec_cache() == self.spec_cache(),
            r.spec_voicevox_breaker() == self.spec_voicevox_breaker(),
            r.spec_gcp_breaker() == self.spec_gcp_breaker(),
    {
        TTS { cache_persistence_path: path, ..self }
    }

    /// Synthesizes through the community backend: identical requests are
    /// served from the cache without any backend call; otherwise the
    /// breaker is consulted and the backend tried with retries, every
    /// attempt recorded in the breaker, and fresh audio is cached.
    pub fn synthesize_voicevox<B: SynthesisBackend>(
        &mut self,
        backend: &mut B,
        text: &str,
        speaker: i64,
        now_ms: u64,
    ) -> (r: SynthOutcome)
        ensures
            spec_synth_ok(
                *old(self),
                *final(self),
                spec_vv_key(text@, speaker),
                r,
                now_ms,
                true,
            ),
    {
        let key = CacheKey::Voicevox(text.to_owned(), speaker);
        let canon = key.canonical();
        synth_core(
            &mut self.cache,
            &mut self.voicevox_circuit_breaker,
            &mut self.metrics,
            backend,
            &key,
            canon.as_str(),
            now_ms,
        )
    }

    /// Synthesizes through the cloud backend, with the same caching,
    /// breaker and retry behavior as the community path.
    pub fn synthesize_gcp<B: SynthesisBackend>(
        &mut self,
        backend: &mut B,
        input: SynthesisInput,
        voice: VoiceSelectionParams,
        now_ms: u64,
    ) -> (r: SynthOutcome)
        ensures
            spec_synth_ok(
                *old(self),
                *final(self),
                spec_gcp_key(input, voice),
                r,
                now_ms,
                false,
            ),
    {
        let key = CacheKey::GCP(input, voice);
        let canon = key.canonical();
        synth_core(
            &mut self.cache,
            &mut self.gcp_circuit_breaker,
            &mut self.metrics,
            backend,
            &key,
            canon.as_str(),
            now_ms,
        )
    }

    /// The pipeline counters as they stand.
    pub fn get_metrics(&self) -> (r: MetricsSnapshot)
        ensures
            r.tts_requests == self.spec_metrics().tts_requests,
            r.tts_cache_hits == self.spec_metrics().tts_cache_hits,
            r.tts_cache_misses == self.spec_metrics().tts_cache_misses,
    {
        self.metrics.get_stats()
    }

    /// Empties the audio cache; the capacity, the breakers and the
    /// counters are untouched.
    pub fn clear_cache(&mut self)
        ensures
            (final(self).spec_cache() == Map::<Seq<char>, Seq<u8>>::empty()),
            lru_audio_len(final(self).cache) == 0,
            lru_audio_cap(final(self).cache) == lru_audio_cap(old(self).cache),
            final(self).spec_voicevox_breaker() == old(self).spec_voicevox_breaker(),
            final(self).spec_gcp_breaker() == old(self).spec_gcp_breaker(),
            final(self).spec_metrics() == old(self).spec_metrics(),
    {
        lru_audio_clear(&mut self.cache);
    }

    /// The audio cache's entry count and capacity.
    pub fn get_cache_stats(&self) -> (r: (usize, usize))
        ensures
            r.0 == lru_audio_len(self.cache),
            r.1 == lru_audio_cap(self.cache),
    {
        (lru_audio_exec_len(&self.cache), lru_audio_exec_cap(&self.cache))
    }
}

/// The contract both synthesis paths meet, over the canonical key:
/// a cached request is answered without touching the backend; an open
/// breaker fails fast; otherwise up to the retry budget of attempts is
/// made, each recorded in the breaker, and fresh audio is cached under
/// the key.
pub open spec fn spec_synth_ok(
    pre: TTS,
    post: TTS,
    key: Seq<char>,
    r: SynthOutcome,
    now_ms: u64,
    vv: bool,
) -> bool {
    let cb0 = if vv {
        pre.spec_voicevox_breaker()
    } else {
        pre.spec_gcp_breaker()
    };
    let hit = pre.spec_cache().contains_key(key);
    let gated = !cb0.spec_try_half_open(now_ms).spec_can_execute(now_ms);
    &&& spec_synth_contract(
        pre,
        post,
        key,
        match r.result {
            Result::Ok(v) => Option::Some(v@),
            Result::Err(_) => Option::None,
        },
        r.attempts@,
        now_ms,
        vv,
    )
    &&& !hit && gated ==> {
        &&& (vv ==> r.result matches Err(NCBError::VOICEVOX(_)))
        &&& (!vv ==> r.result matches Err(NCBError::TTSSynthesis(_)))
    }
}

/// The same contract, over the produced audio (if any) and the attempt
/// outcomes, so that callers of the router can restate it.
pub open spec fn spec_synth_contract(
    pre: TTS,
    post: TTS,
    key: Seq<char>,
    produced: Option<Seq<u8>>,
    attempts: Seq<bool>,
    now_ms: u64,
    vv: bool,
) -> bool {
    let cb0 = if vv {
        pre.spec_voicevox_breaker()
    } else {
        pre.spec_gcp_breaker()
    };
    let cb1 = if vv {
        post.spec_voicevox_breaker()
    } else {
        post.spec_gcp_breaker()
    };
    let other0 = if vv {
        pre.spec_gcp_breaker()
    } else {
        pre.spec_voicevox_breaker()
    };
    let other1 = if vv {
        post.spec_gcp_breaker()
    } else {
        post.spec_voicevox_breaker()
    };
    let probed = cb0.spec_try_half_open(now_ms);
    let hit = pre.spec_cache().contains_key(key);
    let gated = !probed.spec_can_execute(now_ms);
    let m0 = pre.spec_metrics();
    &&& other1 == other0
    &&& hit ==> (post.spec_metrics() == (PerformanceMetrics {
        tts_requests: crate::metrics::spec_bump(m0.tts_requests),
        tts_cache_hits: crate::metrics::spec_bump(m0.tts_cache_hits),
        ..m0
    }))
    &&& !hit ==> (post.spec_metrics() == (PerformanceMetrics {
        tts_requests: crate::metrics::spec_bump(m0.tts_requests),
        tts_cache_misses: crate::metrics::spec_bump(m0.tts_cache_misses),
        ..m0
    }))
    &&& hit ==> {
        &&& produced == Option::Some(pre.spec_cache()[key])
        &&& attempts.len() == 0
        &&& post.spec_cache() == pre.spec_cache()
        &&& cb1 == cb0
    }
    &&& !hit && gated ==> {
        &&& produced is None
        &&& attempts.len() == 0
        &&& post.spec_cache() == pre.spec_cache()
        &&& cb1 == probed
    }
    &&& !hit && !gated ==> {
        &&& 1 <= attempts.len() <= DEFAULT_MAX_RETRY_ATTEMPTS
        &&& (produced is Some <==> attempts.last())
        &&& (forall|i: int| 0 <= i < attempts.len() - 1 ==> !(#[trigger] attempts[i]))
        &&& (!attempts.last() ==> attempts.len() == DEFAULT_MAX_RETRY_ATTEMPTS)
        &&& cb1 == spec_record_outcomes(probed, attempts, now_ms)
        &&& (produced matches Some(v) ==> post.spec_cache().contains_pair(key, v))
        &&& (produced is Some ==> forall|k2: Seq<char>|
            k2 != key && post.spec_cache().contains_key(k2) ==> pre.spec_cache().contains_pair(
                k2,
                post.spec_cache()[k2],
            ))
        &&& (produced is None ==> post.spec_cache() == pre.spec_cache())
    }
}

/// A fresh vector holding the same bytes.
#[verifier::loop_isolation(false)]
fn copy_bytes(v: &Vec<u8>) -> (r: Vec<u8>)
    ensures
        r@ == v@,
{
    let mut out: Vec<u8> = Vec::new();
    let mut i: usize = 0;
    while i < v.len()
        invariant
            i <= v@.len(),
            out@ == v@.subrange(0, i as int),
        decreases v@.len() - i,
    {
        out.push(v[i]);
        i = i + 1;
        proof {
            assert(out@ =~= v@.subrange(0, i as int));
        }
    }
    proof {
        assert(out@ =~= v@);
    }
    out
}

/// The shared body of the two synthesis paths.
#[verifier::loop_isolation(false)]
fn synth_core<B: SynthesisBackend>(
    cache: &mut lru::LruCache<String, Vec<u8>, std::collections::hash_map::RandomState>,
    breaker: &mut CircuitBreaker,
    metrics: &mut PerformanceMetrics,
    backend: &mut B,
    key: &CacheKey,
    canon: &str,
    now_ms: u64,
) -> (r: SynthOutcome)
    requires
        canon@ == spec_canonical(*key),
    ensures
        ({
            let k = spec_canonical(*key);
            let probed = old(breaker).spec_try_half_open(now_ms);
            let hit = lru_audio_contents(*old(cache)).contains_key(k);
            let gated = !probed.spec_can_execute(now_ms);
            &&& hit ==> (*final(metrics) == (PerformanceMetrics {
                tts_requests: crate::metrics::spec_bump(old(metrics).tts_requests),
                tts_cache_hits: crate::metrics::spec_bump(old(metrics).tts_cache_hits),
                ..*old(metrics)
            }))
            &&& !hit ==> (*final(metrics) == (PerformanceMetrics {
                tts_requests: crate::metrics::spec_bump(old(metrics).tts_requests),
                tts_cache_misses: crate::metrics::spec_bump(old(metrics).tts_cache_misses),
                ..*old(metrics)
            }))
            &&& hit ==> {
                &&& r.result matches Ok(v) && v@ == lru_audio_contents(*old(cache))[k]
                &&& r.attempts@.len() == 0
                &&& (lru_audio_contents(*final(cache)) == lru_audio_contents(*old(cache)))
                &&& *final(breaker) == *old(breaker)
            }
            &&& !hit && gated ==> {
                &&& r.result is Err
                &&& (key matches CacheKey::Voicevox(_, _) ==> r.result matches Err(
                    NCBError::VOICEVOX(_),
                ))
                &&& (key matches CacheKey::GCP(_, _) ==> r.result matches Err(
                    NCBError::TTSSynthesis(_),
                ))
                &&& r.attempts@.len() == 0
                &&& (lru_audio_contents(*final(cache)) == lru_audio_contents(*old(cache)))
                &&& *final(breaker) == probed
            }
            &&& !hit && !gated ==> {
                &&& 1 <= r.attempts@.len() <= DEFAULT_MAX_RETRY_ATTEMPTS
                &&& (r.result is Ok <==> r.attempts@.last())
                &&& (forall|i: int| 0 <= i < r.attempts@.len() - 1 ==> !(#[trigger] r.attempts@[i]))
                &&& (!r.attempts@.last() ==> r.attempts@.len() == DEFAULT_MAX_RETRY_ATTEMPTS)
                &&& *final(breaker) == spec_record_outcomes(probed, r.attempts@, now_ms)
                &&& (r.result matches Ok(v) ==> lru_audio_contents(*final(cache)).contains_pair(
                    k,
                    v@,
                ))
                &&& (r.result matches Ok(v) ==> forall|k2: Seq<char>|
                    k2 != k && lru_audio_contents(*final(cache)).contains_key(k2)
                        ==> lru_audio_contents(*old(cache)).contains_pair(
                        k2,
                        lru_audio_contents(*final(cache))[k2],
                    ))
                &&& (r.result is Err ==> (lru_audio_contents(*final(cache)) == lru_audio_contents(
                    *old(cache),
                )))
            }
        }),
{
    metrics.increment_tts_requests();
    let cached = lru_audio_get(cache, canon);
    match cached {
        Option::Some(v) => {
            metrics.increment_tts_cache_hits();
            return SynthOutcome { result: Result::Ok(v), attempts: Ghost(Seq::empty()) };
        },
        Option::None => {},
    }
    metrics.increment_tts_cache_misses();
    breaker.try_half_open(now_ms);
    if !breaker.can_execute(now_ms) {
        let err = match key {
            CacheKey::Voicevox(_, _) => NCBError::voicevox("Circuit breaker is open"),
            CacheKey::GCP(_, _) => NCBError::tts_synthesis("GCP TTS circuit breaker is open"),
        };
        return SynthOutcome { result: Result::Err(err), attempts: Ghost(Seq::empty()) };
    }
    let ghost probed = *breaker;
    let mut attempts: u32 = 0;
    let mut delay: u64 = DEFAULT_RETRY_DELAY_MS;
    let ghost mut outcomes: Seq<bool> = Seq::empty();
    loop
        invariant
            attempts < DEFAULT_MAX_RETRY_ATTEMPTS,
            outcomes.len() == attempts,
            forall|i: int| 0 <= i < outcomes.len() ==> !(#[trigger] outcomes[i]),
            *breaker == spec_record_outcomes(probed, outcomes, now_ms),
            (lru_audio_contents(*cache) == lru_audio_contents(*old(cache))),
        decreases DEFAULT_MAX_RETRY_ATTEMPTS - attempts,
    {
        let res = backend.synthesize_raw(key);
        attempts = attempts + 1;
        match res {
            Result::Ok(v) => {
                breaker.on_success();
                proof {
                    lemma_record_snoc(probed, outcomes, true, now_ms);
                    outcomes = outcomes.push(true);
                }
                let copy = copy_bytes(&v);
                lru_audio_put(cache, canon, copy);
                return SynthOutcome { result: Result::Ok(v), attempts: Ghost(outcomes) };
            },
            Result::Err(e) => {
                breaker.on_failure(now_ms);
                proof {
                    lemma_record_snoc(probed, outcomes, false, now_ms);
                    outcomes = outcomes.push(false);
                }
                if attempts >= DEFAULT_MAX_RETRY_ATTEMPTS {
                    return SynthOutcome { result: Result::Err(e), attempts: Ghost(outcomes) };
                }
                backend.pause(delay);
                delay = if delay > crate::constants::MAX_RETRY_DELAY_MS / 2 {
                    crate::constants::MAX_RETRY_DELAY_MS
                } else {
                    delay * 2
                };
            },
        }
    }
}

/// Recording one more outcome extends the fold by one step.
proof fn lemma_record_snoc(cb: CircuitBreaker, outcomes: Seq<bool>, last: bool, now_ms: u64)
    ensures
        spec_record_outcomes(cb, outcomes.push(last), now_ms) == spec_record_outcome(
            spec_record_outcomes(cb, outcomes, now_ms),
            last,
            now_ms,
        ),
    decreases outcomes.len(),
{
    if outcomes.len() == 0 {
        assert(outcomes.push(last).skip(1) =~= Seq::<bool>::empty());
        assert(outcomes.push(last)[0] == last);
        assert(spec_record_outcomes(spec_record_outcome(cb, last, now_ms), Seq::empty(), now_ms)
            == spec_record_outcome(cb, last, now_ms));
        assert(spec_record_outcomes(cb, Seq::empty(), now_ms) == cb);
    } else {
        assert(outcomes.push(last)[0] == outcomes[0]);
        assert(outcomes.push(last).skip(1) =~= outcomes.skip(1).push(last));
        lemma_record_snoc(spec_record_outcome(cb, outcomes[0], now_ms), outcomes.skip(1), last, now_ms);
        assert(spec_record_outcomes(cb, outcomes.push(last), now_ms) == spec_record_outcomes(
            spec_record_outcome(cb, outcomes[0], now_ms),
            outcomes.skip(1).push(last),
            now_ms,
        ));
        assert(spec_record_outcomes(cb, outcomes, now_ms) == spec_record_outcomes(
            spec_record_outcome(cb, outcomes[0], now_ms),
            outcomes.skip(1),
            now_ms,
        ));
    }
}


/// Equal streams that both start with a length-prefixed field carry the
/// same field and the same remainder.
proof fn lemma_field_unique(s1: Seq<char>, r1: Seq<char>, s2: Seq<char>, r2: Seq<char>)
    requires
        spec_field(s1) + r1 == spec_field(s2) + r2,
    ensures
        s1 == s2,
        r1 == r2,
{
    reveal_strlit(":");
    assert(":"@ =~= seq![':']);
    crate::text::lemma_dec_shape(s1.len() as int);
    crate::text::lemma_dec_shape(s2.len() as int);
    let d1 = spec_u64_dec(s1.len() as int);
    let d2 = spec_u64_dec(s2.len() as int);
    assert(spec_field(s1) + r1 =~= d1 + seq![':'] + (s1 + r1));
    assert(spec_field(s2) + r2 =~= d2 + seq![':'] + (s2 + r2));
    assert forall|i: int| 0 <= i < d1.len() implies d1[i] != ':' by {
        assert(crate::text::is_digit_char(d1[i]));
    }
    assert forall|i: int| 0 <= i < d2.len() implies d2[i] != ':' by {
        assert(crate::text::is_digit_char(d2[i]));
    }
    crate::text::lemma_delimited_unique(d1, s1 + r1, d2, s2 + r2, ':');
    crate::text::lemma_dec_injective(s1.len() as int, s2.len() as int);
    assert(s1 =~= (s1 + r1).subrange(0, s1.len() as int));
    assert(s2 =~= (s2 + r2).subrange(0, s2.len() as int));
    assert(r1 =~= (s1 + r1).subrange(s1.len() as int, (s1 + r1).len() as int));
    assert(r2 =~= (s2 + r2).subrange(s2.len() as int, (s2 + r2).len() as int));
}

/// Equal streams that both start with an optional field carry the same
/// option and the same remainder.
proof fn lemma_opt_field_unique(
    o1: Option<Seq<char>>,
    r1: Seq<char>,
    o2: Option<Seq<char>>,
    r2: Seq<char>,
)
    requires
        spec_opt_field(o1) + r1 == spec_opt_field(o2) + r2,
    ensures
        o1 == o2,
        r1 == r2,
{
    reveal_strlit("n");
    reveal_strlit("s");
    match (o1, o2) {
        (Option::None, Option::None) => {
            assert(r1 =~= r2) by {
                assert forall|i: int| 0 <= i < r1.len() implies r1[i] == r2[i] by {
                    assert(("n"@ + r1)[1 + i] == r1[i]);
                    assert(("n"@ + r2)[1 + i] == r2[i]);
                }
                assert(("n"@ + r1).len() == ("n"@ + r2).len());
            }
        },
        (Option::None, Option::Some(t2)) => {
            assert(("n"@ + r1)[0] == 'n');
            assert((("s"@ + spec_field(t2)) + r2)[0] == 's');
            assert(false);
        },
        (Option::Some(t1), Option::None) => {
            assert((("s"@ + spec_field(t1)) + r1)[0] == 's');
            assert(("n"@ + r2)[0] == 'n');
            assert(false);
        },
        (Option::Some(t1), Option::Some(t2)) => {
            assert((("s"@ + spec_field(t1)) + r1).skip(1) =~= spec_field(t1) + r1);
            assert((("s"@ + spec_field(t2)) + r2).skip(1) =~= spec_field(t2) + r2);
            assert(spec_field(t1) + r1 == spec_field(t2) + r2);
            lemma_field_unique(t1, r1, t2, r2);
        },
    }
}

/// Law (no collisions): two synthesis requests render the same canonical
/// cache key only when they name the same backend, the same text or
/// SSML, and the same voice parameters — semantically different requests
/// never share a cache entry.
#[verifier::rlimit(60)]
pub proof fn lemma_canonical_injective(k1: CacheKey, k2: CacheKey)
    requires
        spec_canonical(k1) == spec_canonical(k2),
    ensures
        match (k1, k2) {
            (CacheKey::Voicevox(t1, s1), CacheKey::Voicevox(t2, s2)) => t1@ == t2@ && s1 == s2,
            (CacheKey::GCP(i1, v1), CacheKey::GCP(i2, v2)) => {
                &&& (match i1.text {
                    Option::Some(t) => Option::Some(t@),
                    Option::None => Option::<Seq<char>>::None,
                }) == (match i2.text {
                    Option::Some(t) => Option::Some(t@),
                    Option::None => Option::<Seq<char>>::None,
                })
                &&& (match i1.ssml {
                    Option::Some(t) => Option::Some(t@),
                    Option::None => Option::<Seq<char>>::None,
                }) == (match i2.ssml {
                    Option::Some(t) => Option::Some(t@),
                    Option::None => Option::<Seq<char>>::None,
                })
                &&& v1.languageCode@ == v2.languageCode@
                &&& v1.name@ == v2.name@
                &&& v1.ssmlGender@ == v2.ssmlGender@
            },
            _ => false,
        },
{
    reveal_strlit("v:");
    reveal_strlit("g:");
    reveal_strlit(":");
    assert(":"@ =~= seq![':']);
    match (k1, k2) {
        (CacheKey::Voicevox(t1, s1), CacheKey::Voicevox(t2, s2)) => {
            lemma_vv_key_parts(t1@, s1, t2@, s2);
        },
        (CacheKey::Voicevox(t1, s1), CacheKey::GCP(i2, v2)) => {
            assert(spec_canonical(k1)[0] == 'v');
            assert(spec_canonical(k2)[0] == 'g');
            assert(false);
        },
        (CacheKey::GCP(i1, v1), CacheKey::Voicevox(t2, s2)) => {
            assert(spec_canonical(k1)[0] == 'g');
            assert(spec_canonical(k2)[0] == 'v');
            assert(false);
        },
        (CacheKey::GCP(i1, v1), CacheKey::GCP(i2, v2)) => {
            lemma_gcp_key_parts(
                match i1.text {
                    Option::Some(t) => Option::Some(t@),
                    Option::None => Option::<Seq<char>>::None,
                },
                match i1.ssml {
                    Option::Some(t) => Option::Some(t@),
                    Option::None => Option::<Seq<char>>::None,
                },
                v1.languageCode@,
                v1.name@,
                v1.ssmlGender@,
                match i2.text {
                    Option::Some(t) => Option::Some(t@),
                    Option::None => Option::<Seq<char>>::None,
                },
                match i2.ssml {
                    Option::Some(t) => Option::Some(t@),
                    Option::None => Option::<Seq<char>>::None,
                },
                v2.languageCode@,
                v2.name@,
                v2.ssmlGender@,
            );
        },
    }
}

/// The five pieces of a cloud-backend key are recoverable from it.
#[verifier::rlimit(100)]
proof fn lemma_gcp_key_parts(
    o1t: Option<Seq<char>>,
    o1s: Option<Seq<char>>,
    l1: Seq<char>,
    n1: Seq<char>,
    g1: Seq<char>,
    o2t: Option<Seq<char>>,
    o2s: Option<Seq<char>>,
    l2: Seq<char>,
    n2: Seq<char>,
    g2: Seq<char>,
)
    requires
        spec_gcp_key_v(o1t, o1s, l1, n1, g1) == spec_gcp_key_v(o2t, o2s, l2, n2, g2),
    ensures
        o1t == o2t,
        o1s == o2s,
        l1 == l2,
        n1 == n2,
        g1 == g2,
{
    reveal_strlit("g:");
    let tail1 = spec_opt_field(o1s) + (spec_field(l1) + (spec_field(n1) + spec_field(g1)));
    let tail2 = spec_opt_field(o2s) + (spec_field(l2) + (spec_field(n2) + spec_field(g2)));
    assert(spec_gcp_key_v(o1t, o1s, l1, n1, g1).skip(2) =~= spec_opt_field(o1t) + tail1);
    assert(spec_gcp_key_v(o2t, o2s, l2, n2, g2).skip(2) =~= spec_opt_field(o2t) + tail2);
    lemma_opt_field_unique(o1t, tail1, o2t, tail2);
    lemma_opt_field_unique(
        o1s,
        spec_field(l1) + (spec_field(n1) + spec_field(g1)),
        o2s,
        spec_field(l2) + (spec_field(n2) + spec_field(g2)),
    );
    lemma_field_unique(l1, spec_field(n1) + spec_field(g1), l2, spec_field(n2) + spec_field(g2));
    lemma_field_unique(n1, spec_field(g1), n2, spec_field(g2));
    lemma_field_unique(g1, Seq::empty(), g2, Seq::empty());
}

/// The two pieces of a community-backend key are recoverable from it.
proof fn lemma_vv_key_parts(t1: Seq<char>, s1: i64, t2: Seq<char>, s2: i64)
    requires
        spec_vv_key(t1, s1) == spec_vv_key(t2, s2),
    ensures
        t1 == t2,
        s1 == s2,
{
    reveal_strlit("v:");
    reveal_strlit(":");
    assert(":"@ =~= seq![':']);
    crate::text::lemma_dec_shape(s1 as u64 as int);
    crate::text::lemma_dec_shape(s2 as u64 as int);
    let d1 = spec_u64_dec(s1 as u64 as int);
    let d2 = spec_u64_dec(s2 as u64 as int);
    assert(spec_vv_key(t1, s1).skip(2) =~= d1 + seq![':'] + t1);
    assert(spec_vv_key(t2, s2).skip(2) =~= d2 + seq![':'] + t2);
    assert forall|i: int| 0 <= i < d1.len() implies d1[i] != ':' by {
        assert(crate::text::is_digit_char(d1[i]));
    }
    assert forall|i: int| 0 <= i < d2.len() implies d2[i] != ':' by {
        assert(crate::text::is_digit_char(d2[i]));
    }
    crate::text::lemma_delimited_unique(d1, t1, d2, t2, ':');
    crate::text::lemma_dec_injective(s1 as u64 as int, s2 as u64 as int);
    assert(s1 == s2) by (bit_vector)
        requires
            s1 as u64 == s2 as u64,
    ;
}

} // verus!
