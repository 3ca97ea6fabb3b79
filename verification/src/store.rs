//! The session store: a capacity- and time-bounded cache from key to
//! serialized payload, kept by `moka`.

use crate::settings::MokaSettings;
use vstd::prelude::*;
use vstd::string::StringExecFns;

verus! {

/// The longest time-to-live, in seconds, that the cache accepts: 1000 years
/// of 365 days.
pub const MAX_TIME_TO_LIVE_SECS: u64 = 31_536_000_000;

/// `moka::sync::Cache`, the concurrent cache that bounds its entries in
/// number and in age. Nothing inside it is known here.
#[verifier::external_type_specification]
#[verifier::external_body]
#[verifier::reject_recursive_types(K)]
#[verifier::reject_recursive_types(V)]
#[verifier::reject_recursive_types(S)]
pub struct ExMokaCache<K, V, S>(moka::sync::Cache<K, V, S>);

/// The entries that a cache still held when it was last used: what a
/// lookup of each key gave, or would have given, at that moment. Between two
/// uses the cache may drop entries; the next use then shows it.
pub uninterp spec fn cache_entries(cache: moka::sync::Cache<String, String>) -> Map<Seq<char>, Seq<char>>;

/// The most entries that a cache was built to hold.
pub uninterp spec fn cache_capacity(cache: moka::sync::Cache<String, String>) -> u64;

/// The seconds after which a cache was built to drop an entry.
pub uninterp spec fn cache_time_to_live(cache: moka::sync::Cache<String, String>) -> u64;

/// Every entry of `after` is an entry of `before`, with the value it had:
/// since `before`, entries were dropped at most.
pub open spec fn kept_from(
    after: Map<Seq<char>, Seq<char>>,
    before: Map<Seq<char>, Seq<char>>,
) -> bool {
    forall|k: Seq<char>| #[trigger]
        after.contains_key(k) ==> before.contains_key(k) && after[k] == before[k]
}

/// The entries of a cache that holds nothing.
pub open spec fn no_entries() -> Map<Seq<char>, Seq<char>> {
    Map::empty()
}

/// `moka::sync::Cache::builder().max_capacity(..).time_to_live(..).build()`:
/// a new cache with the given limits, which holds nothing. `build` panics on
/// a time-to-live above 1000 years, which `requires` leaves out.
#[verifier::external_body]
fn cache_build(max_capacity: u64, time_to_live_secs: u64) -> (cache: moka::sync::Cache<String, String>)
    requires
        time_to_live_secs <= MAX_TIME_TO_LIVE_SECS,
    ensures
        cache_entries(cache) == no_entries(),
        cache_capacity(cache) == max_capacity,
        cache_time_to_live(cache) == time_to_live_secs,
{
    moka::sync::Cache::builder()
        .max_capacity(max_capacity)
        .time_to_live(std::time::Duration::from_secs(time_to_live_secs))
        .build()
}

/// `moka::sync::Cache::insert`: the entry under `key` becomes `value`. The
/// cache may at any call drop entries (by age, or for room), the new one
/// included; it never makes or changes another. Its limits stay as built.
#[verifier::external_body]
fn cache_insert(cache: &mut moka::sync::Cache<String, String>, key: String, value: String)
    ensures
        kept_from(
            cache_entries(*final(cache)),
            cache_entries(*old(cache)).insert(key@, value@),
        ),
        cache_capacity(*final(cache)) == cache_capacity(*old(cache)),
        cache_time_to_live(*final(cache)) == cache_time_to_live(*old(cache)),
{
    cache.insert(key, value)
}

/// `moka::sync::Cache::get`: a copy of the value that the cache holds under
/// `key`, or `None` where it holds none (never put there, removed, or
/// dropped by age or for room).
#[verifier::external_body]
fn cache_get(cache: &mut moka::sync::Cache<String, String>, key: &str) -> (value: Option<String>)
    ensures
        kept_from(cache_entries(*final(cache)), cache_entries(*old(cache))),
        cache_capacity(*final(cache)) == cache_capacity(*old(cache)),
        cache_time_to_live(*final(cache)) == cache_time_to_live(*old(cache)),
        match value {
            Some(v) => cache_entries(*final(cache)).contains_key(key@) && cache_entries(
                *final(cache),
            )[key@] == v@,
            None => !cache_entries(*final(cache)).contains_key(key@),
        },
{
    cache.get(key)
}

/// `moka::sync::Cache::remove`: afterwards the cache holds nothing under
/// `key`; the value that it held is discarded here.
#[verifier::external_body]
fn cache_remove(cache: &mut moka::sync::Cache<String, String>, key: &str)
    ensures
        kept_from(
            cache_entries(*final(cache)),
            cache_entries(*old(cache)).remove(key@),
        ),
        cache_capacity(*final(cache)) == cache_capacity(*old(cache)),
        cache_time_to_live(*final(cache)) == cache_time_to_live(*old(cache)),
{
    cache.remove(key);
}

/// A cache key from a string-like value. Equal texts give equal keys, and
/// different texts different keys: the key is the text itself.
pub fn make_key(s: &str) -> (key: String)
    ensures
        key@ == s@,
{
    String::from_str(s)
}

/// The session store. Its entries are dropped by age, once the time-to-live
/// it was built with has passed, and for room, so that it holds no more than
/// its capacity; nothing but `insert` adds or changes one.
///
/// Every method takes `&mut self`: its contract relates the entries before
/// the call to those after it, which holds for one caller at a time. Callers
/// that share a store keep it behind a lock.
pub struct SessionStore {
    cache: moka::sync::Cache<String, String>,
}

impl SessionStore {
    /// The entries that the store holds, by key.
    pub closed spec fn entries(&self) -> Map<Seq<char>, Seq<char>> {
        cache_entries(self.cache)
    }

    /// The most entries that the store was built to hold.
    pub closed spec fn capacity(&self) -> u64 {
        cache_capacity(self.cache)
    }

    /// The seconds after which the store was built to drop an entry.
    pub closed spec fn time_to_live(&self) -> u64 {
        cache_time_to_live(self.cache)
    }

    /// Whether the store has the limits of `before`.
    pub open spec fn same_limits(&self, before: &SessionStore) -> bool {
        &&& self.capacity() == before.capacity()
        &&& self.time_to_live() == before.time_to_live()
    }

    /// An empty store with the capacity and the time-to-live of `settings`.
    pub fn new(settings: &MokaSettings) -> (store: SessionStore)
        requires
            settings.expiration_time <= MAX_TIME_TO_LIVE_SECS,
        ensures
            store.entries() == no_entries(),
            store.capacity() == settings.cache_size,
            store.time_to_live() == settings.expiration_time,
    {
        SessionStore { cache: cache_build(settings.cache_size, settings.expiration_time) }
    }

    /// Puts `value` under `key`, in place of what was there. The store may
    /// drop entries while it does so; it gains none but this one.
    pub fn insert(&mut self, key: String, value: String)
        ensures
            kept_from(final(self).entries(), old(self).entries().insert(key@, value@)),
            final(self).same_limits(old(self)),
    {
        cache_insert(&mut self.cache, key, value)
    }

    /// The value under `key`, or `None` where the store holds none: never
    /// inserted, removed, or dropped since.
    pub fn get(&mut self, key: &str) -> (value: Option<String>)
        ensures
            kept_from(final(self).entries(), old(self).entries()),
            final(self).same_limits(old(self)),
            value.is_some() == final(self).entries().contains_key(key@),
            value matches Some(v) ==> final(self).entries()[key@] == v@,
    {
        cache_get(&mut self.cache, key)
    }

    /// Removes the entry under `key`, if there is one.
    pub fn remove(&mut self, key: &str)
        ensures
            kept_from(final(self).entries(), old(self).entries().remove(key@)),
            !final(self).entries().contains_key(key@),
            final(self).same_limits(old(self)),
    {
        cache_remove(&mut self.cache, key);
    }
}

} // verus!
