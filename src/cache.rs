//! The response cache: the single most recent successful lookup, with the
//! time it was retrieved, served again while it is fresh.

use crate::response::LookupResponse;
use vstd::prelude::*;

verus! {

/// How long, in seconds, a cached lookup is served without asking a provider.
pub const DEFAULT_TTL_SECS: u64 = 300;

/// A stored lookup and the time (seconds since the Unix epoch) it was retrieved.
#[derive(Debug, Clone, PartialEq)]
pub struct CacheEntry {
    pub response: LookupResponse,
    pub retrieved_at: u64,
}

/// An entry is fresh at `now` when less than `ttl` seconds have passed since
/// it was retrieved (an entry from the future counts as fresh).
pub open spec fn fresh(entry: CacheEntry, now: u64, ttl: u64) -> bool {
    (now as int) - (entry.retrieved_at as int) < (ttl as int)
}

/// Whether the entry may still be served at `now` (see [`fresh`]).
pub fn is_fresh(entry: &CacheEntry, now: u64, ttl: u64) -> (r: bool)
    ensures
        r == fresh(*entry, now, ttl),
{
    if now < entry.retrieved_at {
        true
    } else {
        now - entry.retrieved_at < ttl
    }
}

/// The cache: at most one entry, the most recent successful lookup.
#[derive(Debug, Clone, PartialEq)]
pub struct ResponseCache {
    pub entry: Option<CacheEntry>,
}

impl ResponseCache {
    /// What a read at `now` serves: the stored record if there is one and it is fresh.
    pub open spec fn spec_read(self, now: u64, ttl: u64) -> Option<LookupResponse> {
        match self.entry {
            Some(e) => if fresh(e, now, ttl) {
                Some(e.response)
            } else {
                None
            },
            None => None,
        }
    }

    /// The cache after storing `response`, retrieved at `at`: the previous entry is replaced.
    pub open spec fn spec_write(self, response: LookupResponse, at: u64) -> ResponseCache {
        ResponseCache { entry: Some(CacheEntry { response, retrieved_at: at }) }
    }

    /// A cache that holds nothing.
    pub fn empty() -> (r: ResponseCache)
        ensures
            r.entry is None,
    {
        ResponseCache { entry: None }
    }

    /// The stored record if there is one and it is fresh at `now`.
    pub fn read_fresh(&self, now: u64, ttl: u64) -> (r: Option<LookupResponse>)
        ensures
            r == self.spec_read(now, ttl),
    {
        match &self.entry {
            Some(e) => if is_fresh(e, now, ttl) {
                Some(e.response.duplicate())
            } else {
                None
            },
            None => None,
        }
    }

    /// Stores `response`, retrieved at `retrieved_at`, in place of any previous entry.
    pub fn write(&mut self, response: LookupResponse, retrieved_at: u64)
        ensures
            *final(self) == old(self).spec_write(response, retrieved_at),
    {
        self.entry = Some(CacheEntry { response, retrieved_at });
    }
}

/// Cache round trip: a record written at `written_at` is read back unchanged at
/// any time before `ttl` seconds have passed, however often it is read; once
/// `ttl` seconds have passed, a read finds nothing.
pub proof fn lemma_cache_round_trip(
    cache: ResponseCache,
    response: LookupResponse,
    written_at: u64,
    now: u64,
    ttl: u64,
)
    ensures
        written_at <= now && now - written_at < ttl ==> cache.spec_write(response, written_at).spec_read(now, ttl)
            == Some(response),
        written_at <= now && now - written_at >= ttl ==> cache.spec_write(response, written_at).spec_read(now, ttl)
            is None,
{
}

} // verus!
