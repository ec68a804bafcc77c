//! The cache of revocation lists: a bounded, concurrent map from a name to
//! its entry, kept by `moka`, which asks the expiry policy for the life of
//! each entry that it takes in.

use crate::clock::{duration_nanos, elapsed_since, since_epoch, to_duration, Span};
use crate::entry::CrlCacheEntry;
use crate::expiry::{lemma_ttl_bounds, CrlExpPolicy};
use moka::policy::EvictionPolicy;
use moka::sync::Cache;
use moka::Expiry;
use std::time::{Duration, Instant};
use vstd::prelude::*;

verus! {

/// `moka::sync::Cache`, held as it is: nothing is known of what it holds,
/// only of what it was built with.
#[verifier::external_type_specification]
#[verifier::external_body]
#[verifier::reject_recursive_types(K)]
#[verifier::reject_recursive_types(V)]
#[verifier::reject_recursive_types(S)]
pub struct ExCache<K, V, S>(Cache<K, V, S>);

/// The most entries that a cache was built to hold: what
/// `Cache::policy().max_capacity()` gives.
pub uninterp spec fn cache_max_capacity(cache: Cache<String, CrlCacheEntry>) -> Option<u64>;

/// The longest life, in seconds, that the expiry policy grants with which a
/// cache was built.
pub uninterp spec fn cache_max_ttl_sec(cache: Cache<String, CrlCacheEntry>) -> u32;

/// Whether a cache was built to make room by evicting the entry that was
/// used least recently.
pub uninterp spec fn cache_evicts_lru(cache: Cache<String, CrlCacheEntry>) -> bool;

impl CrlExpPolicy {
    /// Whether `life` is the life that the policy gives to an entry whose
    /// list names `next_update`: there is one, and it lasts for the time to
    /// live of the entry at some reading of the two clocks.
    pub open spec fn spec_grants(self, next_update: Option<u64>, life: Option<Duration>) -> bool {
        life matches Some(duration) && exists|elapsed: nat, now: nat|
            duration_nanos(duration) == #[trigger] self.spec_time_to_live(
                next_update,
                elapsed,
                now,
            )
    }

    /// The life of an entry whose list names `next_update`, at given
    /// readings of the two clocks: there always is one, and it lasts for the
    /// time to live of the entry at those readings.
    pub fn life_of_entry_at(&self, next_update: Option<u64>, elapsed: &Span, now: &Span) -> (life:
        Option<Duration>)
        ensures
            life matches Some(duration) && duration_nanos(duration) == self.spec_time_to_live(
                next_update,
                elapsed@,
                now@,
            ),
    {
        let ttl = self.time_to_live_at(next_update, elapsed, now);
        Some(to_duration(&ttl))
    }

    /// The life of an entry whose list names `next_update` and which was
    /// created or replaced at `since`: [`Self::life_of_entry_at`] of what the
    /// two clocks read.
    pub fn life_of_entry(&self, next_update: Option<u64>, since: Instant) -> (life: Option<Duration>)
        ensures
            self.spec_grants(next_update, life),
            life matches Some(duration) && duration_nanos(duration) <= self.spec_max_ttl(),
            next_update is None ==> (life matches Some(duration) && duration_nanos(duration)
                == self.spec_max_ttl()),
    {
        let now = since_epoch();
        let elapsed = elapsed_since(since);
        let life = self.life_of_entry_at(next_update, &elapsed, &now);
        proof {
            let _ = self.spec_time_to_live(next_update, elapsed@, now@);
            lemma_ttl_bounds(*self, next_update, elapsed@, now@);
        }
        life
    }
}

impl Expiry<String, CrlCacheEntry> for CrlExpPolicy {
    /// The life of an entry that enters the cache under a new name: the time
    /// to live that the policy gives it, counted from its creation. There
    /// always is one: no entry stays for ever, nor longer than the maximum.
    fn expire_after_create(&self, _key: &String, value: &CrlCacheEntry, created_at: Instant) -> (life:
        Option<Duration>)
        ensures
            self.spec_grants(value@.next_update, life),
            life matches Some(duration) && duration_nanos(duration) <= self.spec_max_ttl(),
            value@.next_update is None ==> (life matches Some(duration) && duration_nanos(
                duration,
            ) == self.spec_max_ttl()),
    {
        self.life_of_entry(value.crl().next_update(), created_at)
    }

    /// The life of an entry that replaces another under its name: that of a
    /// new entry, counted from the replacement, whatever was left of the
    /// life of the entry that it replaces.
    fn expire_after_update(
        &self,
        _key: &String,
        value: &CrlCacheEntry,
        updated_at: Instant,
        _duration_until_expiry: Option<Duration>,
    ) -> (life: Option<Duration>)
        ensures
            self.spec_grants(value@.next_update, life),
            life matches Some(duration) && duration_nanos(duration) <= self.spec_max_ttl(),
            value@.next_update is None ==> (life matches Some(duration) && duration_nanos(
                duration,
            ) == self.spec_max_ttl()),
    {
        self.life_of_entry(value.crl().next_update(), updated_at)
    }
}

/// Builds a cache with `moka`'s `CacheBuilder`, set up with `capacity` as
/// the most entries to hold, with the eviction of the least recently used
/// entry, and with `policy` to tell the life of each entry. The cache that
/// comes back was built with that capacity, which the builder keeps as it is
/// given, with that way of eviction and with that policy; nothing is claimed
/// of what it holds.
#[verifier::external_body]
fn build_cache(capacity: u64, policy: CrlExpPolicy) -> (cache: Cache<String, CrlCacheEntry>)
    ensures
        cache_max_capacity(cache) == Some(capacity),
        cache_max_ttl_sec(cache) == policy.max_ttl_sec,
        cache_evicts_lru(cache),
{
    Cache::builder()
        .max_capacity(capacity)
        .eviction_policy(EvictionPolicy::lru())
        .expire_after(policy)
        .build()
}

/// Reads the most entries that a cache was built to hold with
/// `Cache::policy` and `Policy::max_capacity`.
#[verifier::external_body]
fn cache_capacity(cache: &Cache<String, CrlCacheEntry>) -> (capacity: Option<u64>)
    ensures
        capacity == cache_max_capacity(*cache),
{
    cache.policy().max_capacity()
}

/// Looks a name up with `Cache::get`, which hands out a copy of the entry
/// that the cache holds under it, if it holds one that has not expired.
/// Nothing is claimed of the result.
#[verifier::external_body]
fn cache_get(cache: &Cache<String, CrlCacheEntry>, key: &str) -> (entry: Option<CrlCacheEntry>) {
    cache.get(key)
}

/// Puts an entry under a name with `Cache::insert`, in place of any entry
/// that the cache holds under it.
#[verifier::external_body]
fn cache_insert(cache: &Cache<String, CrlCacheEntry>, key: String, entry: CrlCacheEntry) {
    cache.insert(key, entry)
}

/// The cache of revocation lists by name.
///
/// The cache is shared by all who hold a reference to it and needs no lock
/// around it. What it holds at a given moment is up to `moka`: nothing is
/// stated here of the entries that a lookup finds but that each of them is
/// an entry, built as every entry is.
pub struct CrlCache {
    cache: Cache<String, CrlCacheEntry>,
}

impl CrlCache {
    /// The most names that the cache was built to hold, where it is bounded.
    pub closed spec fn spec_capacity(&self) -> Option<u64> {
        cache_max_capacity(self.cache)
    }

    /// The expiry policy that the cache was built with.
    pub closed spec fn spec_policy(&self) -> CrlExpPolicy {
        CrlExpPolicy { max_ttl_sec: cache_max_ttl_sec(self.cache) }
    }

    /// Whether the cache was built to make room by evicting the entry that
    /// was used least recently.
    pub closed spec fn spec_evicts_lru(&self) -> bool {
        cache_evicts_lru(self.cache)
    }

    /// A cache for at most `capacity` names whose entries live for at most
    /// `max_ttl_sec` seconds.
    pub fn new(capacity: u64, max_ttl_sec: u32) -> (cache: Self)
        ensures
            cache.spec_capacity() == Some(capacity),
            cache.spec_policy().max_ttl_sec == max_ttl_sec,
            cache.spec_evicts_lru(),
    {
        let cache = build_cache(capacity, CrlExpPolicy::new(max_ttl_sec));
        Self { cache }
    }

    /// The most names that the cache was built to hold.
    pub fn capacity(&self) -> (capacity: Option<u64>)
        ensures
            capacity == self.spec_capacity(),
    {
        cache_capacity(&self.cache)
    }

    /// The entry under `key`, if the cache holds one that has not expired.
    pub fn get(&self, key: &str) -> (entry: Option<CrlCacheEntry>)
        ensures
            entry matches Some(e) ==> e@.wf(),
    {
        let entry = cache_get(&self.cache, key);
        match &entry {
            Some(e) => e.well_formed(),
            None => {},
        }
        entry
    }

    /// Puts `crl_entry` under `key`, in place of any entry under that name.
    pub fn insert(&self, key: &str, crl_entry: CrlCacheEntry) {
        cache_insert(&self.cache, key.to_owned(), crl_entry);
    }
}

} // verus!
