//! A bounded cache of directory sizes that forgets the least recently used.
//!
//! The cache is the `LruCache` of the `lru` crate. What it holds is named
//! here as a sequence of entries, most recently used first, and the
//! methods that the library calls are given contracts over that sequence.

use crate::ratio::Ratio;
use lru::LruCache;
use vstd::prelude::*;

verus! {

/// What is remembered of a directory.
#[derive(Debug, Clone)]
pub struct CachedDirectoryInfo {
    pub path: String,
    pub file_count: usize,
    pub total_size: u64,
    /// When the entry was made, in seconds on the clock of the caller.
    pub last_modified: u64,
    pub is_large_folder: bool,
}

/// What is remembered of a directory, as a mathematical value.
pub struct CachedEntry {
    pub path: Seq<char>,
    pub file_count: usize,
    pub total_size: u64,
    pub last_modified: u64,
    pub is_large_folder: bool,
}

impl View for CachedDirectoryInfo {
    type V = CachedEntry;

    open spec fn view(&self) -> CachedEntry {
        CachedEntry {
            path: self.path@,
            file_count: self.file_count,
            total_size: self.total_size,
            last_modified: self.last_modified,
            is_large_folder: self.is_large_folder,
        }
    }
}

/// `lru::DefaultHasher`, the hasher of a cache that is made with
/// `LruCache::new`. Nothing is seen of a value of it.
#[verifier::external_type_specification]
#[verifier::external_body]
pub struct ExDefaultHasher(lru::DefaultHasher);

/// `lru::LruCache`. Nothing is seen of a value of it but through
/// `cache_entries` and `cache_limit`.
#[verifier::external_type_specification]
#[verifier::external_body]
#[verifier::reject_recursive_types(K)]
#[verifier::reject_recursive_types(V)]
#[verifier::reject_recursive_types(S)]
pub struct ExLruCache<K, V, S>(LruCache<K, V, S>);

/// The entries of a cache with their keys, most recently used first.
pub uninterp spec fn cache_entries(c: LruCache<String, CachedDirectoryInfo>) -> Seq<(Seq<char>, CachedEntry)>;

/// The number of entries that a cache holds at most.
pub uninterp spec fn cache_limit(c: LruCache<String, CachedDirectoryInfo>) -> nat;

/// The index of the entry with the key among the first `n` entries.
pub open spec fn position_of(entries: Seq<(Seq<char>, CachedEntry)>, key: Seq<char>, n: nat) -> Option<int>
    decreases n,
{
    if n == 0 || n > entries.len() {
        None
    } else {
        match position_of(entries, key, (n - 1) as nat) {
            Some(i) => Some(i),
            None => if entries[n - 1].0 == key {
                Some(n - 1)
            } else {
                None
            },
        }
    }
}

/// The entries with entry `i` moved to the front.
pub open spec fn promoted(entries: Seq<(Seq<char>, CachedEntry)>, i: int) -> Seq<(Seq<char>, CachedEntry)> {
    seq![entries[i]] + entries.remove(i)
}

/// The entries after `key` is put with `value`: an entry with the key is
/// replaced and moved to the front; else the new entry comes to the front,
/// and the last one leaves where the cache is full.
pub open spec fn after_put(
    entries: Seq<(Seq<char>, CachedEntry)>,
    limit: nat,
    key: Seq<char>,
    value: CachedEntry,
) -> Seq<(Seq<char>, CachedEntry)> {
    match position_of(entries, key, entries.len()) {
        Some(i) => seq![(key, value)] + entries.remove(i),
        None => if entries.len() == limit {
            seq![(key, value)] + entries.drop_last()
        } else {
            seq![(key, value)] + entries
        },
    }
}

/// `LruCache::new`: an empty cache that holds at most `capacity` entries.
/// A capacity of zero is left out: the cache cannot be made with it.
#[verifier::external_body]
fn lru_new(capacity: usize) -> (c: LruCache<String, CachedDirectoryInfo>)
    requires
        capacity > 0,
    ensures
        cache_entries(c).len() == 0,
        cache_limit(c) == capacity,
{
    LruCache::new(std::num::NonZeroUsize::new(capacity).unwrap())
}

/// `LruCache::get`: the value under the key, which moves to the front;
/// nothing changes where the key is not held.
#[verifier::external_body]
fn lru_get(c: &mut LruCache<String, CachedDirectoryInfo>, key: &str) -> (r: Option<CachedDirectoryInfo>)
    ensures
        cache_limit(*final(c)) == cache_limit(*old(c)),
        match position_of(cache_entries(*old(c)), key@, cache_entries(*old(c)).len()) {
            Some(i) => r matches Some(v) && v@ == cache_entries(*old(c))[i].1 && cache_entries(
                *final(c),
            ) == promoted(cache_entries(*old(c)), i),
            None => r is None && cache_entries(*final(c)) == cache_entries(*old(c)),
        },
{
    c.get(key).cloned()
}

/// `LruCache::put`: see `after_put`. The value that the key held before is handed back.
#[verifier::external_body]
fn lru_put(c: &mut LruCache<String, CachedDirectoryInfo>, key: String, value: CachedDirectoryInfo) -> (r:
    Option<CachedDirectoryInfo>)
    ensures
        cache_limit(*final(c)) == cache_limit(*old(c)),
        cache_entries(*final(c)) == after_put(
            cache_entries(*old(c)),
            cache_limit(*old(c)),
            key@,
            value@,
        ),
        match position_of(cache_entries(*old(c)), key@, cache_entries(*old(c)).len()) {
            Some(i) => r matches Some(v) && v@ == cache_entries(*old(c))[i].1,
            None => r is None,
        },
{
    c.put(key, value)
}

/// `LruCache::clear`: the cache holds nothing afterwards.
#[verifier::external_body]
fn lru_clear(c: &mut LruCache<String, CachedDirectoryInfo>)
    ensures
        cache_limit(*final(c)) == cache_limit(*old(c)),
        cache_entries(*final(c)).len() == 0,
{
    c.clear()
}

/// `LruCache::len`: the number of entries.
#[verifier::external_body]
fn lru_len(c: &LruCache<String, CachedDirectoryInfo>) -> (n: usize)
    ensures
        n == cache_entries(*c).len(),
{
    c.len()
}

/// How long an entry of the cache may be used, in seconds.
pub const ENTRY_SECONDS: u64 = 300;

/// The entry may still be used at `now`.
pub open spec fn entry_fresh(e: CachedEntry, now: u64) -> bool {
    now < e.last_modified || now - e.last_modified < ENTRY_SECONDS
}

/// Counts of the use of a cache.
#[derive(Debug, Clone, Copy, PartialEq, Eq, Structural)]
pub struct CacheStats {
    pub hit_count: usize,
    pub miss_count: usize,
    /// The share of the lookups that were hits.
    pub hit_rate: Ratio,
    pub size: usize,
}

/// The cache of directory sizes, with its counts of hits and misses.
pub struct DirectoryCache {
    cache: LruCache<String, CachedDirectoryInfo>,
    hit_count: usize,
    miss_count: usize,
}

impl DirectoryCache {
    /// The entries with their keys, most recently used first.
    pub closed spec fn entries(&self) -> Seq<(Seq<char>, CachedEntry)> {
        cache_entries(self.cache)
    }

    /// The number of entries that the cache holds at most.
    pub closed spec fn limit(&self) -> nat {
        cache_limit(self.cache)
    }

    /// The lookups that found a fresh entry.
    pub closed spec fn hits(&self) -> usize {
        self.hit_count
    }

    /// The lookups that found none.
    pub closed spec fn misses(&self) -> usize {
        self.miss_count
    }

    /// An empty cache that holds at most `capacity` entries.
    pub fn new(capacity: usize) -> (c: DirectoryCache)
        requires
            capacity > 0,
        ensures
            c.entries().len() == 0,
            c.limit() == capacity,
            c.hits() == 0,
            c.misses() == 0,
    {
        DirectoryCache { cache: lru_new(capacity), hit_count: 0, miss_count: 0 }
    }

    /// An empty cache that holds at most `capacity` entries; `None` for a capacity of zero.
    pub fn with_capacity(capacity: usize) -> (c: Option<DirectoryCache>)
        ensures
            capacity == 0 <==> c is None,
            c matches Some(d) ==> d.entries().len() == 0 && d.limit() == capacity && d.hits() == 0
                && d.misses() == 0,
    {
        if capacity == 0 {
            None
        } else {
            Some(Self::new(capacity))
        }
    }

    /// Looks a directory up at the moment `now`. An entry that is found
    /// moves to the front, fresh or not; only a fresh one is a hit.
    pub fn get(&mut self, path: &str, now: u64) -> (r: Option<CachedDirectoryInfo>)
        ensures
            final(self).limit() == old(self).limit(),
            match position_of(old(self).entries(), path@, old(self).entries().len()) {
                Some(i) => final(self).entries() == promoted(old(self).entries(), i) && (
                if entry_fresh(old(self).entries()[i].1, now) {
                    r matches Some(v) && v@ == old(self).entries()[i].1
                } else {
                    r is None
                }),
                None => final(self).entries() == old(self).entries() && r is None,
            },
            r is Some ==> final(self).hits() == (if old(self).hits() == usize::MAX {
                usize::MAX
            } else {
                (old(self).hits() + 1) as usize
            }) && final(self).misses() == old(self).misses(),
            r is None ==> final(self).misses() == (if old(self).misses() == usize::MAX {
                usize::MAX
            } else {
                (old(self).misses() + 1) as usize
            }) && final(self).hits() == old(self).hits(),
    {
        let found = lru_get(&mut self.cache, path);
        if let Some(info) = found {
            if now < info.last_modified || now - info.last_modified < ENTRY_SECONDS {
                if self.hit_count < usize::MAX {
                    self.hit_count = self.hit_count + 1;
                }
                return Some(info);
            }
        }
        if self.miss_count < usize::MAX {
            self.miss_count = self.miss_count + 1;
        }
        None
    }

    /// Remembers a directory; see `after_put`.
    pub fn insert(&mut self, path: String, info: CachedDirectoryInfo)
        ensures
            final(self).limit() == old(self).limit(),
            final(self).entries() == after_put(old(self).entries(), old(self).limit(), path@, info@),
            final(self).hits() == old(self).hits(),
            final(self).misses() == old(self).misses(),
    {
        let _ = lru_put(&mut self.cache, path, info);
    }

    /// Forgets everything. The counts stay.
    pub fn clear(&mut self)
        ensures
            final(self).limit() == old(self).limit(),
            final(self).entries().len() == 0,
            final(self).hits() == old(self).hits(),
            final(self).misses() == old(self).misses(),
    {
        lru_clear(&mut self.cache);
    }

    /// The counts of the use of the cache.
    pub fn get_stats(&self) -> (stats: CacheStats)
        ensures
            stats.hit_count == self.hits(),
            stats.miss_count == self.misses(),
            stats.size == self.entries().len(),
            stats.hit_rate == (Ratio {
                part: self.hits() as u64,
                whole: crate::ratio::saturated(self.hits() + self.misses()),
            }),
    {
        CacheStats {
            hit_count: self.hit_count,
            miss_count: self.miss_count,
            hit_rate: Ratio::new(
                self.hit_count as u64,
                crate::ratio::add_saturating(self.hit_count as u64, self.miss_count as u64),
            ),
            size: lru_len(&self.cache),
        }
    }
}

} // verus!
