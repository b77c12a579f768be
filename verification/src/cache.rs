use vstd::prelude::*;
use crate::hashing::{digest_hex_of, hash_bytes_hex};
use crate::strutil::str_eq;

verus! {

/// One memoized hash: the digest of a file's bytes, keyed by the file's
/// path and stamped with the modification time it was computed at.
pub struct CacheEntry {
    pub path: String,
    pub mtime: u64,
    pub hash: String,
}

/// What an association list answers for a key, later entries shadowing
/// earlier ones.
pub open spec fn spec_assoc(s: Seq<CacheEntry>, key: Seq<char>) -> Option<(u64, Seq<char>)>
    decreases s.len(),
{
    if s.len() == 0 {
        None
    } else if s.last().path@ == key {
        Some((s.last().mtime, s.last().hash@))
    } else {
        spec_assoc(s.drop_last(), key)
    }
}

/// What a cached record answers for a lookup that observed the given
/// modification time: the stored hash while the record is not older than
/// the observation, nothing once the file is strictly newer.
pub open spec fn spec_serves(entry: Option<(u64, Seq<char>)>, observed: u64) -> Option<
    Seq<char>,
> {
    match entry {
        Some(e) => if e.0 >= observed {
            Some(e.1)
        } else {
            None
        },
        None => None,
    }
}

/// Memoizes a strong content hash per file path, keyed by last-modified
/// time. Entries are overwritten when stale, never removed; growth for
/// files that have disappeared is accepted.
pub struct HashCache {
    entries: Vec<CacheEntry>,
}

proof fn lemma_assoc_remove(s: Seq<CacheEntry>, i: int, key: Seq<char>)
    requires
        0 <= i < s.len(),
        s[i].path@ != key,
    ensures
        spec_assoc(s.remove(i), key) == spec_assoc(s, key),
    decreases s.len(),
{
    if i == s.len() - 1 {
        assert(s.remove(i) =~= s.drop_last());
    } else {
        assert(s.remove(i).last() == s.last());
        assert(s.remove(i).drop_last() =~= s.drop_last().remove(i));
        if s.last().path@ != key {
            lemma_assoc_remove(s.drop_last(), i, key);
        }
    }
}

impl HashCache {
    /// The record this cache holds for a path: its stamped modification
    /// time and digest, or nothing if the path was never hashed.
    pub closed spec fn spec_get(&self, key: Seq<char>) -> Option<(u64, Seq<char>)> {
        spec_assoc(self.entries@, key)
    }

    /// An empty cache, holding no record for any path.
    pub fn new() -> (c: HashCache)
        ensures
            forall|k: Seq<char>| #[trigger] c.spec_get(k) is None,
    {
        HashCache { entries: Vec::new() }
    }

    fn find_match(&self, path: &str) -> (r: Option<usize>)
        ensures
            match r {
                Some(i) => i < self.entries@.len() && self.entries@[i as int].path@ == path@,
                None => true,
            },
    {
        let n = self.entries.len();
        let mut j: usize = 0;
        while j < n
            invariant
                j <= n,
                n == self.entries@.len(),
            decreases n - j,
        {
            if str_eq(self.entries[j].path.as_str(), path) {
                return Some(j);
            }
            j += 1;
        }
        None
    }

    /// What the cache answers for a path whose current modification time
    /// was just observed: the memoized hash if the record is not older
    /// than the observation, or nothing, in which case the caller must
    /// read the file and record a fresh hash.
    pub fn lookup(&self, path: &str, observed_mtime: u64) -> (r: Option<String>)
        ensures
            match r {
                Some(h) => spec_serves(self.spec_get(path@), observed_mtime) == Some(h@),
                None => spec_serves(self.spec_get(path@), observed_mtime) is None,
            },
    {
        let n = self.entries.len();
        proof {
            assert(self.entries@.take(n as int) =~= self.entries@);
        }
        let mut j = n;
        while j > 0
            invariant
                j <= n,
                n == self.entries@.len(),
                spec_assoc(self.entries@, path@) == spec_assoc(
                    self.entries@.take(j as int),
                    path@,
                ),
            decreases j,
        {
            let entry = &self.entries[j - 1];
            proof {
                assert(self.entries@.take(j as int).last() == self.entries@[j - 1]);
                assert(self.entries@.take(j as int).drop_last() =~= self.entries@.take(j - 1));
            }
            if str_eq(entry.path.as_str(), path) {
                if entry.mtime >= observed_mtime {
                    return Some(entry.hash.clone());
                } else {
                    return None;
                }
            }
            j -= 1;
        }
        None
    }

    /// Stores the hash computed for a path at the given modification
    /// time, overwriting any earlier record for that path and leaving
    /// every other path's record as it was.
    pub fn record(&mut self, path: &String, mtime: u64, hash: String)
        ensures
            forall|k: Seq<char>|
                #[trigger] final(self).spec_get(k) == (if k == path@ {
                    Some((mtime, hash@))
                } else {
                    old(self).spec_get(k)
                }),
    {
        let ghost before = self.entries@;
        let ghost i_removed: int;
        match self.find_match(path.as_str()) {
            Some(i) => {
                self.entries.remove(i);
                proof {
                    i_removed = i as int;
                }
            },
            None => {
                proof {
                    i_removed = -1;
                }
            },
        }
        let ghost mid = self.entries@;
        let entry = CacheEntry { path: path.clone(), mtime, hash };
        self.entries.push(entry);
        proof {
            assert(self.entries@.drop_last() =~= mid);
            assert forall|k: Seq<char>|
                #[trigger] self.spec_get(k) == (if k == path@ {
                    Some((mtime, entry.hash@))
                } else {
                    spec_assoc(before, k)
                }) by {
                if k != path@ {
                    if i_removed >= 0 {
                        lemma_assoc_remove(before, i_removed, k);
                    }
                }
            }
        }
    }

    /// Hashes the bytes just read for a path and memoizes the result at
    /// the observed modification time; the digest is returned so the
    /// caller can serve it at once.
    pub fn hash_and_record(&mut self, path: &String, mtime: u64, contents: &[u8]) -> (r:
        String)
        ensures
            r@ == digest_hex_of(contents@),
            forall|k: Seq<char>|
                #[trigger] final(self).spec_get(k) == (if k == path@ {
                    Some((mtime, digest_hex_of(contents@)))
                } else {
                    old(self).spec_get(k)
                }),
    {
        let h = hash_bytes_hex(contents);
        self.record(path, mtime, h.clone());
        h
    }
}

/// Law: a digest recorded for a path is served back unchanged by every
/// later lookup whose observed modification time is not newer than the
/// recorded one; the file's bytes need not be read a second time, and the
/// answer is the very digest that was stored — even if the contents
/// changed without the modification time advancing, which is the
/// documented staleness window.
pub proof fn law_cache_hit_when_not_newer(
    c: HashCache,
    path: Seq<char>,
    recorded: u64,
    hash: Seq<char>,
    observed: u64,
)
    requires
        c.spec_get(path) == Some((recorded, hash)),
        observed <= recorded,
    ensures
        spec_serves(c.spec_get(path), observed) == Some(hash),
{
}

/// Law: a lookup that observes a modification time strictly newer than
/// the recorded one is never served from the cache: the caller is forced
/// to re-read the file and record a fresh digest.
pub proof fn law_cache_refuses_stale(
    c: HashCache,
    path: Seq<char>,
    recorded: u64,
    hash: Seq<char>,
    observed: u64,
)
    requires
        c.spec_get(path) == Some((recorded, hash)),
        observed > recorded,
    ensures
        spec_serves(c.spec_get(path), observed) is None,
{
}

} // verus!
