//! The catalog listing cache and its freshness rule.

use vstd::prelude::*;
use crate::catalog::PlexMovie;
use crate::pipeline::Outcome;

verus! {

/// How long a catalog listing stays fresh, in seconds.
pub const CACHE_TTL_SECS: u64 = 300;

/// The last catalog listing fetched, and when. Instants are seconds on a monotonic clock.
pub struct LibraryCache {
    pub movies: Vec<PlexMovie>,
    pub last_update: Option<u64>,
    pub cache_duration: u64,
}

impl LibraryCache {
    /// The listing is fresh at `now`: it was stored less than the duration before.
    /// An instant before the store counts as no time elapsed.
    pub open spec fn valid_at(&self, now: u64) -> bool {
        match self.last_update {
            Some(t) => (if now >= t { now - t } else { 0 }) < self.cache_duration,
            None => false,
        }
    }

    /// An empty cache, never valid until a listing is stored.
    pub fn new() -> (r: LibraryCache)
        ensures
            r.movies@.len() == 0,
            r.last_update is None,
            r.cache_duration == CACHE_TTL_SECS,
    {
        LibraryCache { movies: Vec::new(), last_update: None, cache_duration: CACHE_TTL_SECS }
    }

    pub fn is_valid(&self, now: u64) -> (r: bool)
        ensures
            r == self.valid_at(now),
    {
        match self.last_update {
            Some(t) => (if now >= t { now - t } else { 0 }) < self.cache_duration,
            None => false,
        }
    }

    /// Stores a fresh listing fetched at `now`.
    pub fn update(&mut self, movies: Vec<PlexMovie>, now: u64)
        ensures
            final(self).movies@ == movies@,
            final(self).last_update == Some(now),
            final(self).cache_duration == old(self).cache_duration,
    {
        self.movies = movies;
        self.last_update = Some(now);
    }

    /// The stored listing while it is fresh; `None` tells the caller to fetch anew.
    pub fn get(&self, now: u64) -> (r: Option<&Vec<PlexMovie>>)
        ensures
            r is Some == self.valid_at(now),
            r matches Some(v) ==> v@ == self.movies@,
    {
        if self.is_valid(now) {
            Some(&self.movies)
        } else {
            None
        }
    }

    /// Forgets when the listing was fetched, so the next read fetches anew.
    pub fn invalidate(&mut self)
        ensures
            final(self).last_update is None,
            final(self).movies == old(self).movies,
            final(self).cache_duration == old(self).cache_duration,
    {
        self.last_update = None;
    }

    /// The cache after a run that ended with `outcome`: a published poster clears the
    /// instant of the last fetch; anything else leaves the cache as it is.
    pub open spec fn noted(self, outcome: Outcome) -> LibraryCache {
        if outcome.is_success_spec() {
            LibraryCache { last_update: None, ..self }
        } else {
            self
        }
    }

    /// Records how a pipeline run ended: a published poster makes the listing stale.
    pub fn note_outcome(&mut self, outcome: Outcome)
        ensures
            *final(self) == old(self).noted(outcome),
    {
        if outcome.is_success() {
            self.last_update = None;
        }
    }
}

/// After a run that published a poster, the next read of the listing misses the cache
/// and fetches anew, whenever it comes; other outcomes leave freshness as it was.
pub proof fn lemma_refetch_after_success(c: LibraryCache, o: Outcome, now: u64)
    ensures
        o.is_success_spec() ==> !c.noted(o).valid_at(now),
        !o.is_success_spec() ==> c.noted(o).valid_at(now) == c.valid_at(now),
{
}

/// A listing stored at `now` stays fresh for exactly the cache duration: a read at `t`
/// serves it while less than the duration has elapsed, and fetches anew after.
pub proof fn lemma_fresh_for_duration(c: LibraryCache, now: u64, t: u64)
    requires
        c.last_update == Some(now),
    ensures
        t >= now ==> (c.valid_at(t) <==> t - now < c.cache_duration),
        c.cache_duration > 0 ==> c.valid_at(now),
        c.cache_duration == CACHE_TTL_SECS && now <= t && t - now < CACHE_TTL_SECS ==> c.valid_at(t),
{
}

} // verus!
