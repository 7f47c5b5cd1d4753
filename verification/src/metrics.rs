//! Counters for cache, synthesis, persistence and voice activity.
use vstd::prelude::*;

verus! {

/// A counter after one increment: saturating at the machine limit.
pub open spec fn spec_bump(x: u64) -> u64 {
    if x < u64::MAX {
        (x + 1) as u64
    } else {
        x
    }
}

/// Running totals, incremented as the pipeline works.
#[derive(Debug, Clone)]
pub struct PerformanceMetrics {
    pub tts_requests: u64,
    pub tts_cache_hits: u64,
    pub tts_cache_misses: u64,
    pub regex_cache_hits: u64,
    pub regex_cache_misses: u64,
    pub database_operations: u64,
    pub voice_connections: u64,
}

/// A point-in-time copy of the counters.
#[derive(Debug, Clone)]
pub struct MetricsSnapshot {
    pub tts_requests: u64,
    pub tts_cache_hits: u64,
    pub tts_cache_misses: u64,
    pub regex_cache_hits: u64,
    pub regex_cache_misses: u64,
    pub database_operations: u64,
    pub voice_connections: u64,
}

impl PerformanceMetrics {
    pub fn new() -> (r: Self)
        ensures
            r.tts_requests == 0,
            r.tts_cache_hits == 0,
            r.tts_cache_misses == 0,
            r.regex_cache_hits == 0,
            r.regex_cache_misses == 0,
            r.database_operations == 0,
            r.voice_connections == 0,
    {
        PerformanceMetrics {
            tts_requests: 0,
            tts_cache_hits: 0,
            tts_cache_misses: 0,
            regex_cache_hits: 0,
            regex_cache_misses: 0,
            database_operations: 0,
            voice_connections: 0,
        }
    }

    pub fn increment_tts_requests(&mut self)
        ensures
            *final(self) == (PerformanceMetrics {
                tts_requests: spec_bump(old(self).tts_requests),
                ..*old(self)
            }),
    {
        if self.tts_requests < u64::MAX {
            self.tts_requests = self.tts_requests + 1;
        }
    }

    pub fn increment_tts_cache_hits(&mut self)
        ensures
            *final(self) == (PerformanceMetrics {
                tts_cache_hits: spec_bump(old(self).tts_cache_hits),
                ..*old(self)
            }),
    {
        if self.tts_cache_hits < u64::MAX {
            self.tts_cache_hits = self.tts_cache_hits + 1;
        }
    }

    pub fn increment_tts_cache_misses(&mut self)
        ensures
            *final(self) == (PerformanceMetrics {
                tts_cache_misses: spec_bump(old(self).tts_cache_misses),
                ..*old(self)
            }),
    {
        if self.tts_cache_misses < u64::MAX {
            self.tts_cache_misses = self.tts_cache_misses + 1;
        }
    }

    pub fn increment_regex_cache_hits(&mut self)
        ensures
            *final(self) == (PerformanceMetrics {
                regex_cache_hits: spec_bump(old(self).regex_cache_hits),
                ..*old(self)
            }),
    {
        if self.regex_cache_hits < u64::MAX {
            self.regex_cache_hits = self.regex_cache_hits + 1;
        }
    }

    pub fn increment_regex_cache_misses(&mut self)
        ensures
            *final(self) == (PerformanceMetrics {
                regex_cache_misses: spec_bump(old(self).regex_cache_misses),
                ..*old(self)
            }),
    {
        if self.regex_cache_misses < u64::MAX {
            self.regex_cache_misses = self.regex_cache_misses + 1;
        }
    }

    pub fn increment_database_operations(&mut self)
        ensures
            *final(self) == (PerformanceMetrics {
                database_operations: spec_bump(old(self).database_operations),
                ..*old(self)
            }),
    {
        if self.database_operations < u64::MAX {
            self.database_operations = self.database_operations + 1;
        }
    }

    pub fn increment_voice_connections(&mut self)
        ensures
            *final(self) == (PerformanceMetrics {
                voice_connections: spec_bump(old(self).voice_connections),
                ..*old(self)
            }),
    {
        if self.voice_connections < u64::MAX {
            self.voice_connections = self.voice_connections + 1;
        }
    }

    /// Copies every counter into a snapshot.
    pub fn get_stats(&self) -> (r: MetricsSnapshot)
        ensures
            r.tts_requests == self.tts_requests,
            r.tts_cache_hits == self.tts_cache_hits,
            r.tts_cache_misses == self.tts_cache_misses,
            r.regex_cache_hits == self.regex_cache_hits,
            r.regex_cache_misses == self.regex_cache_misses,
            r.database_operations == self.database_operations,
            r.voice_connections == self.voice_connections,
    {
        MetricsSnapshot {
            tts_requests: self.tts_requests,
            tts_cache_hits: self.tts_cache_hits,
            tts_cache_misses: self.tts_cache_misses,
            regex_cache_hits: self.regex_cache_hits,
            regex_cache_misses: self.regex_cache_misses,
            database_operations: self.database_operations,
            voice_connections: self.voice_connections,
        }
    }
}

impl Default for PerformanceMetrics {
    /// Fresh counters, all zero.
    fn default() -> (r: Self)
        ensures
            r.tts_requests == 0,
            r.tts_cache_hits == 0,
            r.tts_cache_misses == 0,
            r.regex_cache_hits == 0,
            r.regex_cache_misses == 0,
            r.database_operations == 0,
            r.voice_connections == 0,
    {
        PerformanceMetrics::new()
    }
}

} // verus!
