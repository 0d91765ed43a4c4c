//! The cache-aside read path: consult the cache, serve a hit immediately
//! (cached negatives included), fall through to the source of truth on a
//! miss or on any cache failure, and write the fetched value back without
//! making the caller wait for it.

use crate::kv::{live_value, TtlKv, TTL_SECS};
use vstd::prelude::*;

verus! {

/// What a cache read produces: a cache entry is either there (`Hit`, whose
/// payload may itself be a cached negative) or not there at all (`Miss`).
/// The two must not collapse: a cached negative is served as-is, while a
/// genuine miss goes to the source.
pub enum Output<V> {
    Hit(V),
    Miss,
}

/// The observed outcome of asking a cache backend, with backend failure
/// (connection or deserialization) kept apart from a clean miss.
pub enum Lookup<V> {
    Hit(V),
    Miss,
    /// The backend call failed; the failure is counted and logged, never
    /// surfaced: the read degrades to a source fetch.
    Unavailable,
}

/// A source wrapped by a cache, held together for their common lifetime.
pub struct Cached<R, C> {
    pub inner: R,
    pub cache: C,
}

/// Wraps any source with a cache.
pub trait CachedExt: Sized {
    fn cached<C>(self, cache: C) -> (r: Cached<Self, C>)
        ensures
            r.inner == self,
            r.cache == cache,
    {
        Cached { inner: self, cache }
    }
}

impl<T> CachedExt for T {

}

/// What the read path does next, once the cache has been consulted.
pub enum ReadPlan<V> {
    /// Serve this value now; the source is not consulted.
    Serve(V),
    /// Fetch from the source of truth.
    FetchSource,
}

/// The decision after a cache lookup: a hit of any payload is served as-is;
/// a miss and a backend failure alike fall through to the source.
pub open spec fn read_plan_of<V>(lookup: Lookup<V>) -> ReadPlan<V> {
    match lookup {
        Lookup::Hit(v) => ReadPlan::Serve(v),
        Lookup::Miss => ReadPlan::FetchSource,
        Lookup::Unavailable => ReadPlan::FetchSource,
    }
}

/// Decides the read path from the cache lookup's outcome.
pub fn plan_read<V>(lookup: Lookup<V>) -> (plan: ReadPlan<V>)
    ensures
        plan == read_plan_of(lookup),
        lookup is Unavailable ==> plan is FetchSource,
{
    match lookup {
        Lookup::Hit(v) => ReadPlan::Serve(v),
        Lookup::Miss => ReadPlan::FetchSource,
        Lookup::Unavailable => ReadPlan::FetchSource,
    }
}

/// Whether a source outcome is written back to the cache: every fetched
/// value is, absent ones included (they become cached negatives); a source
/// error is not cached.
pub fn should_write_back<V, E>(fetched: &Result<V, E>) -> (r: bool)
    ensures
        r == (fetched is Ok),
{
    fetched.is_ok()
}

/// Reads the cache at `now`, keeping a present entry apart from an absent
/// one.
pub fn cache_lookup<'a, T: DeepView>(cache: &'a TtlKv<T>, key: &str, now: u64) -> (r: Output<
    &'a T,
>)
    ensures
        r matches Output::Hit(v) ==> live_value(cache@, key@, now) == Some(v.deep_view()),
        r is Miss ==> live_value(cache@, key@, now) is None,
{
    match cache.get(key, now) {
        Some(v) => Output::Hit(v),
        None => Output::Miss,
    }
}

/// Stores a fetched value (a negative included) under the fixed expiry.
/// This is the write-back of the cache-aside read path; it stands apart
/// from serving the value, so a driver can run it after the response is
/// already on its way.
pub fn write_back<T: DeepView>(cache: &mut TtlKv<T>, key: &str, value: T, now: u64)
    requires
        now + TTL_SECS <= u64::MAX,
    ensures
        final(cache)@ == old(cache)@.insert(key@, (value.deep_view(), (now + TTL_SECS) as u64)),
{
    cache.set_ex(key, value, TTL_SECS, now);
}

/// Cache-negative correctness: once a source answer of "absent" has been
/// written back under key `k`, any read of `k` before the entry expires
/// observes that cached negative, and the read plan for it serves the
/// negative instead of fetching from the source again.
pub proof fn cache_negative_correctness<V>(
    m: Map<Seq<char>, (Option<V>, u64)>,
    k: Seq<char>,
    t: u64,
    now: u64,
)
    requires
        t + TTL_SECS <= u64::MAX,
        now < t + TTL_SECS,
    ensures
        live_value(m.insert(k, (None, (t + TTL_SECS) as u64)), k, now) == Some(None::<V>),
        read_plan_of(Lookup::Hit(Option::<V>::None)) == ReadPlan::Serve(Option::<V>::None),
{
}

/// A write-back touches only its own key: every other key observes the
/// same value before and after, at any time. The served response never
/// depends on whether its own write-back has happened yet.
pub proof fn write_back_is_local<X>(
    m: Map<Seq<char>, (X, u64)>,
    k: Seq<char>,
    entry: (X, u64),
    other: Seq<char>,
    now: u64,
)
    requires
        other != k,
    ensures
        live_value(m.insert(k, entry), other, now) == live_value(m, other, now),
{
}

} // verus!
