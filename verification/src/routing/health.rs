//! Cached health state for the local Ollama model server.
//!
//! The probe itself (`GET {base_url}/api/tags` with a short timeout) is
//! network I/O performed by the caller; this module owns the probe URL and
//! the time-to-live cache that decides whether a fresh probe is needed.
//! Times are milliseconds on a monotonic clock supplied by the caller.

use vstd::prelude::*;
use crate::text::{owned, push_str};

verus! {

/// Default TTL for cached health results (30 s).
pub const DEFAULT_TTL_MS: u64 = 30_000;

/// Timeout for the Ollama health probe (3 s).
pub const PROBE_TIMEOUT_MS: u64 = 3_000;

/// Outcome of the last probe.
#[derive(Debug, Clone, Copy, PartialEq, Eq, Structural)]
pub enum CachedStatus {
    Healthy,
    Unavailable,
}

/// The last probe's result, when it was taken, and how long it stays fresh.
#[derive(Debug, Clone, Copy)]
pub struct HealthCache {
    pub last_result: CachedStatus,
    pub checked_at_ms: u64,
    pub ttl_ms: u64,
}

/// Caching health checker for the local Ollama server.
pub struct LocalHealthChecker {
    probe_url: String,
    cache: Option<HealthCache>,
    ttl_ms: u64,
}

/// Time elapsed since `then`, saturating at zero like `Instant::elapsed`.
pub open spec fn elapsed(now_ms: u64, then_ms: u64) -> int {
    if now_ms >= then_ms {
        now_ms - then_ms
    } else {
        0
    }
}

/// The cached answer at time `now_ms`, if the cache is present and fresh.
pub open spec fn fresh_answer(cache: Option<HealthCache>, now_ms: u64) -> Option<bool> {
    match cache {
        Some(c) => if elapsed(now_ms, c.checked_at_ms) < c.ttl_ms {
            Some(c.last_result == CachedStatus::Healthy)
        } else {
            None
        },
        None => None,
    }
}

impl LocalHealthChecker {
    /// The probe URL.
    pub closed spec fn spec_probe_url(&self) -> Seq<char> {
        self.probe_url@
    }

    /// The cache contents.
    pub closed spec fn spec_cache(&self) -> Option<HealthCache> {
        self.cache
    }

    /// The TTL new cache entries get.
    pub closed spec fn spec_ttl_ms(&self) -> u64 {
        self.ttl_ms
    }

    /// Create a checker targeting the given Ollama base URL; health is probed
    /// at `{base_url}/api/tags` and cached for 30 s.
    pub fn new(base_url: &str) -> (r: Self)
        ensures
            r.spec_probe_url() == base_url@ + "/api/tags"@,
            r.spec_cache() is None,
            r.spec_ttl_ms() == DEFAULT_TTL_MS,
    {
        Self::with_ttl(base_url, DEFAULT_TTL_MS)
    }

    /// Create a checker with a custom cache TTL.
    pub fn with_ttl(base_url: &str, ttl_ms: u64) -> (r: Self)
        ensures
            r.spec_probe_url() == base_url@ + "/api/tags"@,
            r.spec_cache() is None,
            r.spec_ttl_ms() == ttl_ms,
    {
        let mut url = owned(base_url);
        push_str(&mut url, "/api/tags");
        LocalHealthChecker { probe_url: url, cache: None, ttl_ms }
    }

    /// The URL the caller probes.
    pub fn probe_url(&self) -> (s: &str)
        ensures
            s@ == self.spec_probe_url(),
    {
        self.probe_url.as_str()
    }

    /// The cached health answer at `now_ms`, or `None` when a fresh probe is
    /// needed (no cache, or the cached result is at least `ttl` old).
    pub fn cached(&self, now_ms: u64) -> (r: Option<bool>)
        ensures
            r == fresh_answer(self.spec_cache(), now_ms),
    {
        match &self.cache {
            Some(c) => {
                let el = if now_ms >= c.checked_at_ms {
                    now_ms - c.checked_at_ms
                } else {
                    0
                };
                if el < c.ttl_ms {
                    Some(match c.last_result {
                        CachedStatus::Healthy => true,
                        CachedStatus::Unavailable => false,
                    })
                } else {
                    None
                }
            },
            None => None,
        }
    }

    /// Store the result of a probe taken at `now_ms`; returns it unchanged.
    pub fn record(&mut self, healthy: bool, now_ms: u64) -> (r: bool)
        ensures
            r == healthy,
            final(self).spec_probe_url() == old(self).spec_probe_url(),
            final(self).spec_ttl_ms() == old(self).spec_ttl_ms(),
            final(self).spec_cache() == Some(
                HealthCache {
                    last_result: if healthy {
                        CachedStatus::Healthy
                    } else {
                        CachedStatus::Unavailable
                    },
                    checked_at_ms: now_ms,
                    ttl_ms: old(self).spec_ttl_ms(),
                },
            ),
    {
        let status = if healthy {
            CachedStatus::Healthy
        } else {
            CachedStatus::Unavailable
        };
        self.cache = Some(HealthCache { last_result: status, checked_at_ms: now_ms, ttl_ms: self.ttl_ms });
        healthy
    }

    /// Invalidate the cached health result, forcing a fresh probe on the next call.
    pub fn invalidate(&mut self)
        ensures
            final(self).spec_cache() is None,
            final(self).spec_probe_url() == old(self).spec_probe_url(),
            final(self).spec_ttl_ms() == old(self).spec_ttl_ms(),
    {
        self.cache = None;
    }
}

/// A recorded result is served from the cache for every later time strictly
/// less than `ttl` after the probe, and never once `ttl` has elapsed; with a
/// zero TTL every call probes.
pub proof fn law_cache_window(healthy: bool, checked_at_ms: u64, ttl_ms: u64, now_ms: u64)
    ensures
        ({
            let c = Some(HealthCache {
                last_result: if healthy { CachedStatus::Healthy } else { CachedStatus::Unavailable },
                checked_at_ms,
                ttl_ms,
            });
            &&& (now_ms >= checked_at_ms && now_ms - checked_at_ms < ttl_ms ==> fresh_answer(c, now_ms) == Some(healthy))
            &&& (now_ms >= checked_at_ms && now_ms - checked_at_ms >= ttl_ms ==> fresh_answer(c, now_ms) is None)
            &&& (ttl_ms == 0 ==> fresh_answer(c, now_ms) is None)
        }),
{
}

} // verus!
