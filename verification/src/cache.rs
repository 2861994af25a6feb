//! The response cache: a bounded store from a request's fingerprint to the
//! raw response, whose entries expire.
//!
//! The store is a `moka::sync::Cache`. What it holds at a given moment
//! depends on the clock and on its eviction policy, so nothing here
//! promises a hit. What is promised is that a hit hands back the payload
//! that was last stored under the key.

use vstd::prelude::*;
use crate::json::{Json, JsonTree};

verus! {

/// The most entries that the cache holds.
pub const CACHE_CAPACITY: u64 = 1000;

/// The seconds after which an entry is no longer handed out.
pub const CACHE_TTL_SECS: u64 = 300;

#[verifier::external_type_specification]
#[verifier::external_body]
#[verifier::reject_recursive_types(K)]
#[verifier::reject_recursive_types(V)]
#[verifier::reject_recursive_types(S)]
pub struct ExMokaCache<K, V, S>(moka::sync::Cache<K, V, S>);

/// For each key, the payload that was last stored under it, whether or
/// not the cache still hands it out.
pub uninterp spec fn cache_stored(cache: moka::sync::Cache<String, Json>) -> Map<
    Seq<char>,
    JsonTree,
>;

/// The limits that the cache was built with: the number of entries that
/// it holds at most, and the seconds that it keeps an entry for.
pub uninterp spec fn cache_limits(cache: moka::sync::Cache<String, Json>) -> (u64, u64);

/// A store in which nothing was stored yet.
pub open spec fn nothing_stored() -> Map<Seq<char>, JsonTree> {
    Map::empty()
}

/// `moka::sync::CacheBuilder::build`, after `max_capacity` and
/// `time_to_live`. Building panics on a time to live of more than 1000
/// years, which `requires` leaves out. Nothing is stored in a new cache,
/// and the cache has the limits that the builder was given.
#[verifier::external_body]
fn moka_build(max_capacity: u64, ttl_secs: u64) -> (cache: moka::sync::Cache<String, Json>)
    requires
        ttl_secs <= 31_536_000_000,
    ensures
        cache_stored(cache) == nothing_stored(),
        cache_limits(cache) == (max_capacity, ttl_secs),
{
    moka::sync::Cache::builder().max_capacity(max_capacity).time_to_live(
        std::time::Duration::from_secs(ttl_secs),
    ).build()
}

/// `moka::sync::Cache::get`. It may find nothing at any time; what it
/// finds is a clone of the payload last stored under the key, and a clone
/// of a payload is the same tree.
#[verifier::external_body]
fn moka_get(cache: &moka::sync::Cache<String, Json>, key: &str) -> (r: Option<Json>)
    ensures
        r matches Some(v) ==> cache_stored(*cache).contains_key(key@) && cache_stored(*cache)[key@]
            == v@,
{
    cache.get(key)
}

/// `moka::sync::Cache::insert`. It stores the payload under the key, in
/// place of what was stored under it before, and leaves the limits of the
/// cache as they are.
#[verifier::external_body]
fn moka_insert(cache: &mut moka::sync::Cache<String, Json>, key: String, value: Json)
    ensures
        cache_stored(*final(cache)) == cache_stored(*old(cache)).insert(key@, value@),
        cache_limits(*final(cache)) == cache_limits(*old(cache)),
{
    cache.insert(key, value)
}

/// The cache of one client.
pub struct ResponseCache {
    inner: moka::sync::Cache<String, Json>,
}

impl ResponseCache {
    /// For each fingerprint, the payload last stored under it.
    pub closed spec fn stored(&self) -> Map<Seq<char>, JsonTree> {
        cache_stored(self.inner)
    }

    /// The number of entries that the cache holds at most.
    pub closed spec fn capacity(&self) -> u64 {
        cache_limits(self.inner).0
    }

    /// The seconds after which an entry is no longer handed out.
    pub closed spec fn time_to_live(&self) -> u64 {
        cache_limits(self.inner).1
    }

    /// An empty cache of `CACHE_CAPACITY` entries that live for
    /// `CACHE_TTL_SECS` seconds.
    pub fn new() -> (cache: ResponseCache)
        ensures
            cache.stored() == nothing_stored(),
            cache.capacity() == CACHE_CAPACITY,
            cache.time_to_live() == CACHE_TTL_SECS,
    {
        ResponseCache { inner: moka_build(CACHE_CAPACITY, CACHE_TTL_SECS) }
    }

    /// An empty cache of `capacity` entries that live for `ttl_secs`
    /// seconds, which are at most a thousand years.
    pub fn with_limits(capacity: u64, ttl_secs: u64) -> (cache: ResponseCache)
        requires
            ttl_secs <= 31_536_000_000,
        ensures
            cache.stored() == nothing_stored(),
            cache.capacity() == capacity,
            cache.time_to_live() == ttl_secs,
    {
        ResponseCache { inner: moka_build(capacity, ttl_secs) }
    }

    /// Looks a fingerprint up. A miss starts nothing: to fetch is the
    /// caller's business.
    pub fn get(&self, key: &str) -> (r: Option<Json>)
        ensures
            r matches Some(v) ==> self.stored().contains_key(key@) && self.stored()[key@] == v@,
    {
        moka_get(&self.inner, key)
    }

    /// Stores a payload under a fingerprint.
    pub fn put(&mut self, key: String, value: Json)
        ensures
            final(self).stored() == old(self).stored().insert(key@, value@),
            final(self).capacity() == old(self).capacity(),
            final(self).time_to_live() == old(self).time_to_live(),
    {
        moka_insert(&mut self.inner, key, value)
    }
}

} // verus!
