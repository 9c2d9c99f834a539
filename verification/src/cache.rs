//! The key-set cache and refresh engine.
//!
//! The cache holds at most one generation of keys plus its fetch instant and
//! the TTL fixed at construction, and decides, per access, whether to serve
//! the cached set, to join a fetch already in flight, or to make the caller
//! the sole initiator of a new fetch. The fetch itself is a capability of the
//! surrounding program: it reports its outcome back through
//! [`Cache::on_fetch_complete`], so every decision the engine makes is a pure
//! function of the cache state, the current instant, and that outcome.

use vstd::prelude::*;

use crate::errors::FetchError;
use crate::keys::KeySet;

verus! {

/// One cache generation: a key set bound to the instant it was fetched.
/// Replaced wholesale by the next successful fetch, never mutated in place.
pub struct CacheEntry {
    pub key_set: KeySet,
    pub fetched_at: u64,
}

/// What a caller that consulted the cache must do next.
#[derive(Clone, Copy, Debug, PartialEq, Eq, Structural)]
pub enum Action {
    /// A valid entry exists: read it with [`Cache::current`]. This path
    /// touches neither the source nor the refresh state.
    Serve,
    /// A fetch is already in flight: wait for its result instead of starting
    /// a second one.
    Wait,
    /// The caller became the sole initiator: perform one source fetch and
    /// report its outcome through [`Cache::on_fetch_complete`].
    Fetch,
}

/// The cache state: the current entry (if any), whether a refresh is in
/// flight, and the TTL fixed at construction. Instants are counted on a
/// monotonic clock in the unit of the caller's choosing; the TTL is in the
/// same unit.
pub struct Cache {
    pub entry: Option<CacheEntry>,
    pub fetching: bool,
    pub ttl: u64,
}

impl Cache {
    /// An entry is valid at `now` iff `now - fetched_at < ttl`. An entry
    /// stamped after `now` (which a monotonic clock never produces) counts
    /// as invalid rather than fresh.
    pub open spec fn entry_valid(self, now: u64) -> bool {
        match self.entry {
            Some(e) => e.fetched_at <= now && now - e.fetched_at < self.ttl,
            None => false,
        }
    }

    /// What a lookup at `now` is told to do.
    pub open spec fn lookup_action(self, now: u64) -> Action {
        if self.entry_valid(now) {
            Action::Serve
        } else if self.fetching {
            Action::Wait
        } else {
            Action::Fetch
        }
    }

    /// The state after a lookup at `now`: unchanged, unless the caller
    /// became the fetch initiator, which flips only the refresh flag.
    pub open spec fn lookup_next(self, now: u64) -> Cache {
        if self.lookup_action(now) is Fetch {
            Cache { fetching: true, ..self }
        } else {
            self
        }
    }

    /// The state after the in-flight fetch resolves at `now`: success
    /// installs the fetched set wholesale, stamped `now`; failure leaves the
    /// entry exactly as it was. Either way the refresh state returns to idle.
    pub open spec fn complete_next(self, now: u64, result: Result<KeySet, FetchError>) -> Cache {
        match result {
            Ok(ks) => Cache {
                entry: Some(CacheEntry { key_set: ks, fetched_at: now }),
                fetching: false,
                ttl: self.ttl,
            },
            Err(_) => Cache { fetching: false, ..self },
        }
    }

    /// An empty, idle cache with the given TTL.
    pub fn new(ttl: u64) -> (c: Cache)
        ensures
            c.entry is None,
            !c.fetching,
            c.ttl == ttl,
    {
        Cache { entry: None, fetching: false, ttl }
    }

    /// The fast existence/validity check: whether the entry can be served at
    /// `now` without touching the source.
    pub fn has_valid_entry(&self, now: u64) -> (r: bool)
        ensures
            r == self.entry_valid(now),
    {
        match &self.entry {
            Some(e) => e.fetched_at <= now && now - e.fetched_at < self.ttl,
            None => false,
        }
    }

    /// One access at `now`. A valid entry is served as is; at a miss, the
    /// first caller out of idle becomes the sole fetcher and every later
    /// caller in that window is told to wait.
    pub fn on_lookup(&mut self, now: u64) -> (a: Action)
        ensures
            a == old(self).lookup_action(now),
            *final(self) == old(self).lookup_next(now),
    {
        if self.has_valid_entry(now) {
            Action::Serve
        } else if self.fetching {
            Action::Wait
        } else {
            self.fetching = true;
            Action::Fetch
        }
    }

    /// The key set of the current entry, exactly as one fetch installed it.
    pub fn current(&self) -> (r: &KeySet)
        requires
            self.entry is Some,
        ensures
            *r == self.entry->Some_0.key_set,
    {
        match &self.entry {
            Some(e) => &e.key_set,
            None => vstd::pervasive::unreached(),
        }
    }

    /// Resolves the in-flight fetch at `now`. On success the fetched set
    /// replaces the entry wholesale; on failure the entry — present or not —
    /// is left untouched and no error is cached. The returned value carries
    /// the fetch error unchanged, for every waiter of this fetch cycle.
    pub fn on_fetch_complete(&mut self, now: u64, result: Result<KeySet, FetchError>) -> (out:
        Result<(), FetchError>)
        requires
            old(self).fetching,
        ensures
            *final(self) == old(self).complete_next(now, result),
            !final(self).fetching,
            match result {
                Ok(ks) => out is Ok && final(self).entry == Some(
                    CacheEntry { key_set: ks, fetched_at: now },
                ),
                Err(e) => out == Err::<(), FetchError>(e) && final(self).entry == old(self).entry,
            },
    {
        self.fetching = false;
        match result {
            Ok(ks) => {
                self.entry = Some(CacheEntry { key_set: ks, fetched_at: now });
                Ok(())
            },
            Err(e) => Err(e),
        }
    }
}

/// How many of the lookups at the given instants, played in order against
/// `c`, make their caller a fetch initiator.
pub open spec fn fetches_started(c: Cache, times: Seq<u64>) -> nat
    decreases times.len(),
{
    if times.len() == 0 {
        0
    } else {
        (if c.lookup_action(times[0]) is Fetch {
            1nat
        } else {
            0nat
        }) + fetches_started(c.lookup_next(times[0]), times.skip(1))
    }
}

/// While a fetch is in flight, lookups change nothing and start nothing:
/// however many arrive and whatever instants they observe, none becomes a
/// second fetcher.
pub proof fn lemma_no_fetch_while_fetching(c: Cache, times: Seq<u64>)
    requires
        c.fetching,
    ensures
        fetches_started(c, times) == 0,
    decreases times.len(),
{
    if times.len() > 0 {
        assert(c.lookup_next(times[0]) == c);
        lemma_no_fetch_while_fetching(c, times.skip(1));
    }
}

/// Single-flight: of any number of lookups that arrive during one cache-miss
/// window — the initiating one at `first` and arbitrarily many later ones,
/// at any instants, before the fetch resolves — the source is fetched
/// exactly once.
pub proof fn lemma_single_flight(c: Cache, first: u64, later: Seq<u64>)
    requires
        c.lookup_action(first) is Fetch,
    ensures
        fetches_started(c, seq![first] + later) == 1,
{
    let all = seq![first] + later;
    assert(all[0] == first);
    assert(all.skip(1) =~= later);
    assert(c.lookup_next(first).fetching);
    lemma_no_fetch_while_fetching(c.lookup_next(first), later);
}

/// TTL respect, fresh side: a lookup before the TTL has elapsed after a
/// successful fetch serves the cached set and triggers zero fetches.
pub proof fn lemma_fresh_entry_serves(c: Cache, now: u64)
    requires
        c.entry matches Some(e) && e.fetched_at <= now && now - e.fetched_at < c.ttl,
    ensures
        c.lookup_action(now) is Serve,
        c.lookup_next(now) == c,
{
}

/// TTL respect, stale side: a lookup after the TTL has elapsed (or with no
/// entry at all), with the cache idle, triggers exactly one new fetch.
pub proof fn lemma_expired_entry_fetches(c: Cache, now: u64)
    requires
        !c.fetching,
        c.entry matches Some(e) ==> e.fetched_at <= now && now - e.fetched_at >= c.ttl,
    ensures
        c.lookup_action(now) is Fetch,
        c.lookup_next(now).fetching,
        c.lookup_next(now).entry == c.entry,
{
}

/// A lookup never mutates the stored entry or the TTL: serving is read-only,
/// and becoming the fetcher flips only the refresh flag.
pub proof fn lemma_lookup_preserves_entry(c: Cache, now: u64)
    ensures
        c.lookup_next(now).entry == c.entry,
        c.lookup_next(now).ttl == c.ttl,
{
}

/// Failure non-poisoning: a failed fetch leaves the entry — present or not —
/// untouched, returns the refresh state to idle rather than sticking in
/// `Fetching`, and the next access at a miss retries with a fresh fetch; a
/// later successful completion then installs its set normally.
pub proof fn lemma_failure_non_poisoning(c: Cache, now: u64, e: FetchError, later: u64)
    requires
        c.fetching,
    ensures
        ({
            let c2 = c.complete_next(now, Err(e));
            &&& c2.entry == c.entry
            &&& !c2.fetching
            &&& !c2.entry_valid(later) ==> c2.lookup_action(later) is Fetch
        }),
{
}

/// One full refresh cycle is consistent with its single fetch: after a miss
/// makes a caller the fetcher and that fetch resolves successfully, the
/// entry is exactly the fetched set, and every lookup that finds it valid —
/// the initiator, the waiters it resolves, and any later reader — is served
/// that set and no other.
pub proof fn lemma_cycle_serves_fetched_set(c: Cache, first: u64, done: u64, ks: KeySet, later: u64)
    requires
        c.lookup_action(first) is Fetch,
    ensures
        ({
            let c2 = c.lookup_next(first).complete_next(done, Ok(ks));
            &&& c2.entry == Some(CacheEntry { key_set: ks, fetched_at: done })
            &&& !c2.fetching
            &&& c2.entry_valid(later) ==> c2.lookup_action(later) is Serve
                && c2.lookup_next(later).entry == c2.entry
        }),
{
}

/// Atomic replacement: a successful fetch installs exactly the fetched key
/// set, wholesale, stamped with the completion instant. Combined with
/// [`lemma_lookup_preserves_entry`] and the exactness of [`Cache::current`],
/// a reader is always served the unmixed key set of a single fetch
/// generation.
pub proof fn lemma_atomic_replacement(c: Cache, now: u64, ks: KeySet)
    ensures
        c.complete_next(now, Ok(ks)).entry == Some(CacheEntry { key_set: ks, fetched_at: now }),
        !c.complete_next(now, Ok(ks)).fetching,
        c.complete_next(now, Ok(ks)).ttl == c.ttl,
{
}

} // verus!
