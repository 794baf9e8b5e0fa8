//! Duplicate-registration cache: a bounded, shared existence cache that
//! short-circuits registration of a recently claimed login identifier
//! before the database round trip.
//!
//! The store itself is `moka`'s synchronous cache; its contents are named
//! by `cache_keys` and its construction bound by `cache_bound`. Entries are
//! a hint only: the authoritative uniqueness check stays at the data store,
//! and under eviction pressure a marked key may be dropped again.

use vstd::prelude::*;

verus! {

#[verifier::external_type_specification]
#[verifier::external_body]
#[verifier::reject_recursive_types(K)]
#[verifier::reject_recursive_types(V)]
#[verifier::reject_recursive_types(S)]
pub struct ExMokaCache<K, V, S>(moka::sync::Cache<K, V, S>);

/// The set of keys the cache currently holds, as plain character
/// sequences.
pub uninterp spec fn cache_keys(c: moka::sync::Cache<String, bool>) -> Set<Seq<char>>;

/// The capacity bound the cache was constructed with.
pub uninterp spec fn cache_bound(c: moka::sync::Cache<String, bool>) -> u64;

/// Relies on `moka::sync::Cache::new`: a fresh cache is empty and stores
/// up to `cap` entries.
#[verifier::external_body]
fn moka_new(cap: u64) -> (c: moka::sync::Cache<String, bool>)
    ensures
        cache_keys(c) == Set::<Seq<char>>::empty(),
        cache_bound(c) == cap,
{
    moka::sync::Cache::new(cap)
}

/// Relies on `moka::sync::Cache::insert`: the pair is inserted, and the
/// cache evicts entries only when it grows beyond its capacity bound — so
/// below the bound the new key is simply added, while at the bound the
/// eviction policy may drop the new key or an old one, but never invents
/// any other key.
#[verifier::external_body]
fn moka_insert(c: &mut moka::sync::Cache<String, bool>, k: &str)
    ensures
        cache_bound(*final(c)) == cache_bound(*old(c)),
        cache_keys(*final(c)).subset_of(cache_keys(*old(c)).insert(k@)),
        cache_keys(*old(c)).len() < cache_bound(*old(c)) ==> cache_keys(*final(c))
            == cache_keys(*old(c)).insert(k@),
{
    c.insert(k.to_string(), true);
}

/// Relies on `moka::sync::Cache::get`: returns a value exactly when the
/// cache holds the key. A read may run the cache's pending maintenance,
/// which can only evict — it never adds a key, and evicts nothing while
/// the cache is within its capacity bound — so the answer is about the
/// contents after that maintenance.
#[verifier::external_body]
fn moka_probe(c: &mut moka::sync::Cache<String, bool>, k: &str) -> (r: bool)
    ensures
        cache_bound(*final(c)) == cache_bound(*old(c)),
        cache_keys(*final(c)).subset_of(cache_keys(*old(c))),
        cache_keys(*old(c)).len() <= cache_bound(*old(c)) ==> cache_keys(*final(c)) == cache_keys(
            *old(c),
        ),
        r == cache_keys(*final(c)).contains(k@),
{
    c.get(k).is_some()
}

/// A bounded existence cache for login identifiers. A positive probe means
/// the identifier was recently marked; a negative probe means nothing and
/// must always be followed by the authoritative store-level check.
pub struct ExistenceCache {
    store: moka::sync::Cache<String, bool>,
}

impl ExistenceCache {
    /// The identifiers the cache currently holds.
    pub closed spec fn keys(&self) -> Set<Seq<char>> {
        cache_keys(self.store)
    }

    /// The capacity the cache was constructed with.
    pub closed spec fn bound(&self) -> u64 {
        cache_bound(self.store)
    }

    /// A fresh cache holds nothing and stores up to `capacity` entries.
    pub fn new(capacity: u64) -> (c: ExistenceCache)
        ensures
            c.keys() == Set::<Seq<char>>::empty(),
            c.bound() == capacity,
    {
        ExistenceCache { store: moka_new(capacity) }
    }

    /// Whether `key` was recently marked as existing. A `false` answer is
    /// only a hint: it must never be used to skip the authoritative
    /// uniqueness check at the data store. Probing may run the cache's
    /// own maintenance, which can only evict, and evicts nothing while
    /// the cache is within its bound.
    pub fn probably_exists(&mut self, key: &str) -> (r: bool)
        ensures
            final(self).bound() == old(self).bound(),
            final(self).keys().subset_of(old(self).keys()),
            old(self).keys().len() <= old(self).bound() ==> final(self).keys() == old(self).keys(),
            r == final(self).keys().contains(key@),
    {
        moka_probe(&mut self.store, key)
    }

    /// Records that `key` exists. Below the capacity bound the key is then
    /// held by the cache; at the bound, eviction may drop it or another
    /// entry, but no key not marked before can appear.
    pub fn mark_exists(&mut self, key: &str)
        ensures
            final(self).bound() == old(self).bound(),
            final(self).keys().subset_of(old(self).keys().insert(key@)),
            old(self).keys().len() < old(self).bound() ==> final(self).keys() == old(
                self,
            ).keys().insert(key@),
    {
        moka_insert(&mut self.store, key);
    }
}

/// Marking an identifier in a cache that is below its capacity bound makes
/// it probably-exist: after `mark_exists(k)` on such a cache, a probe for
/// `k` answers `true`. The three states are one cache before the mark,
/// after the mark, and after the probe; the premises are exactly what the
/// two calls' contracts give below the bound. At the bound the entry is
/// only a hint and eviction may drop it, which is why the first premise
/// is needed.
pub proof fn lemma_mark_then_probe(
    pre: ExistenceCache,
    marked: ExistenceCache,
    probed: ExistenceCache,
    key: Seq<char>,
    r: bool,
)
    requires
        pre.keys().len() < pre.bound(),
        marked.keys() == pre.keys().insert(key),
        probed.keys() == marked.keys(),
        r == probed.keys().contains(key),
    ensures
        r,
{
}

/// Marking never conjures up other identifiers: every key held after a
/// mark was either held before or is the key just marked. A probe for an
/// unrelated key therefore cannot turn `true` by marking `key`.
pub proof fn lemma_mark_no_leak(pre: ExistenceCache, post: ExistenceCache, key: Seq<char>, other: Seq<char>)
    requires
        post.keys().subset_of(pre.keys().insert(key)),
        other != key,
        !pre.keys().contains(other),
    ensures
        !post.keys().contains(other),
{
}

} // verus!
