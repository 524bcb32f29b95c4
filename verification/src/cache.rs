use vstd::prelude::*;
use lru::LruCache;

verus! {

/// A cache of names kept in least-recently-used order, held in a private
/// `lru::LruCache<String, ()>`. What it holds is described by
/// `cached_keys` and `cache_capacity`, and it changes only through the
/// functions below.
#[verifier::external_body]
pub struct NameCache {
    inner: LruCache<String, ()>,
}

/// The keys held by a cache of names, the most recently used first.
pub uninterp spec fn cached_keys(cache: NameCache) -> Seq<Seq<char>>;

/// The number of keys a cache of names holds at most.
pub uninterp spec fn cache_capacity(cache: NameCache) -> nat;

/// A cache whose keys are distinct and no more than its capacity.
pub open spec fn cache_wf(cache: NameCache) -> bool {
    &&& cached_keys(cache).no_duplicates()
    &&& cached_keys(cache).len() <= cache_capacity(cache)
    &&& cache_capacity(cache) > 0
}

/// The keys after `key` is put into a cache holding `keys` with room for
/// `cap`: `key` comes first; if it was held it leaves its old place,
/// otherwise, when the cache was full, the least recently used key leaves.
pub open spec fn keys_after_put(keys: Seq<Seq<char>>, cap: nat, key: Seq<char>) -> Seq<Seq<char>> {
    if keys.contains(key) {
        seq![key] + keys.remove(keys.index_of(key))
    } else if keys.len() == cap {
        seq![key] + keys.drop_last()
    } else {
        seq![key] + keys
    }
}

/// An empty cache made by `lru::LruCache::new`, holding at most `cap` keys.
/// `cap` must not be zero, since `NonZeroUsize::new` is unwrapped.
#[verifier::external_body]
pub fn new_name_cache(cap: usize) -> (res: NameCache)
    requires
        cap > 0,
    ensures
        cached_keys(res) == Seq::<Seq<char>>::empty(),
        cache_capacity(res) == cap,
{
    NameCache { inner: LruCache::new(std::num::NonZeroUsize::new(cap).unwrap()) }
}

/// Whether `key` is held, by `lru::LruCache::contains`, which does not
/// change the order of use.
#[verifier::external_body]
pub fn cache_contains(cache: &NameCache, key: &str) -> (res: bool)
    ensures
        res == cached_keys(*cache).contains(key@),
{
    cache.inner.contains(key)
}

/// Puts `key` into the cache with `lru::LruCache::put`: the key becomes the
/// most recently used; a key already held leaves its old place, and when the
/// cache was full without it, the least recently used key is evicted.
#[verifier::external_body]
pub fn cache_put(cache: &mut NameCache, key: String)
    ensures
        cache_capacity(*final(cache)) == cache_capacity(*old(cache)),
        cached_keys(*final(cache)) == keys_after_put(cached_keys(*old(cache)), cache_capacity(*old(cache)), key@),
{
    cache.inner.put(key, ());
}

/// Putting a key keeps the keys distinct and within the capacity, and the
/// key put is then the most recently used one.
pub proof fn lemma_put_keeps_wf(keys: Seq<Seq<char>>, cap: nat, key: Seq<char>)
    requires
        keys.no_duplicates(),
        keys.len() <= cap,
        cap > 0,
    ensures
        keys_after_put(keys, cap, key).no_duplicates(),
        keys_after_put(keys, cap, key).len() <= cap,
        keys_after_put(keys, cap, key).len() > 0,
        keys_after_put(keys, cap, key)[0] == key,
        keys_after_put(keys, cap, key).contains(key),
{
    let after = keys_after_put(keys, cap, key);
    if keys.contains(key) {
        let i = keys.index_of(key);
        let rest = keys.remove(i);
        assert(rest.len() == keys.len() - 1);
        assert forall|a: int| 0 <= a < rest.len() implies rest[a] == keys[if a < i { a } else { a + 1 }] by {}
        assert forall|a: int, b: int| 0 <= a < after.len() && 0 <= b < after.len() && a != b implies after[a] != after[b] by {
            if a > 0 && b > 0 {
                let ka = if a - 1 < i { a - 1 } else { a };
                let kb = if b - 1 < i { b - 1 } else { b };
                assert(after[a] == keys[ka]);
                assert(after[b] == keys[kb]);
            } else if a == 0 {
                let kb = if b - 1 < i { b - 1 } else { b };
                assert(after[b] == keys[kb]);
            } else {
                let ka = if a - 1 < i { a - 1 } else { a };
                assert(after[a] == keys[ka]);
            }
        }
    } else {
        let rest = if keys.len() == cap { keys.drop_last() } else { keys };
        assert(after == seq![key] + rest);
        assert forall|a: int, b: int| 0 <= a < after.len() && 0 <= b < after.len() && a != b implies after[a] != after[b] by {
            if a > 0 && b > 0 {
                assert(after[a] == keys[a - 1]);
                assert(after[b] == keys[b - 1]);
            } else if a == 0 {
                assert(after[b] == keys[b - 1]);
            } else {
                assert(after[a] == keys[a - 1]);
            }
        }
    }
    assert(after[0] == key);
}

} // verus!
