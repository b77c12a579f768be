use drakermore::cache::HashCache;
use drakermore::hashing::{hash_bytes_hex, hash_str_hex};
use sha2::Digest;

fn sha512_hex(data: &[u8]) -> String {
    hex::encode(sha2::Sha512::digest(data))
}

#[test]
fn hashing_is_deterministic() {
    let a = hash_bytes_hex(b"same bytes");
    let b = hash_bytes_hex(b"same bytes");
    assert_eq!(a, b);
    assert_ne!(hash_bytes_hex(b"other bytes"), a);
}

#[test]
fn hashing_matches_reference_digest() {
    assert_eq!(hash_bytes_hex(b""), sha512_hex(b""));
    assert_eq!(hash_bytes_hex(b"hello"), sha512_hex(b"hello"));
    assert_eq!(hash_str_hex("hello"), sha512_hex("hello".as_bytes()));
    // A digest is never the input handed back: 128 lowercase hex digits.
    let h = hash_bytes_hex(b"hello");
    assert_eq!(h.len(), 128);
    assert!(h.chars().all(|c| c.is_ascii_hexdigit() && !c.is_ascii_uppercase()));
    assert_ne!(h.as_bytes(), b"hello");
}

#[test]
fn lookup_on_empty_cache_misses() {
    let cache = HashCache::new();
    assert_eq!(cache.lookup("mods/a.jar", 0), None);
}

#[test]
fn second_lookup_is_served_from_cache() {
    let mut cache = HashCache::new();
    let path = "mods/a.jar".to_string();
    let first = cache.hash_and_record(&path, 10, b"contents");
    // Unchanged modification time: served from cache, identical digest.
    let second = cache.lookup(&path, 10).unwrap();
    assert_eq!(first, second);
    assert_eq!(second, sha512_hex(b"contents"));
}

#[test]
fn older_observation_is_served_even_if_contents_differ() {
    let mut cache = HashCache::new();
    let path = "mods/a.jar".to_string();
    let recorded = cache.hash_and_record(&path, 10, b"old contents");
    // The documented staleness window: an observation at or below the
    // recorded time returns the stored digest without a re-read.
    assert_eq!(cache.lookup(&path, 5).unwrap(), recorded);
    assert_eq!(cache.lookup(&path, 10).unwrap(), recorded);
}

#[test]
fn newer_observation_forces_recompute() {
    let mut cache = HashCache::new();
    let path = "mods/a.jar".to_string();
    let old_hash = cache.hash_and_record(&path, 10, b"old contents");
    // A strictly newer modification time invalidates the record.
    assert_eq!(cache.lookup(&path, 11), None);
    let new_hash = cache.hash_and_record(&path, 11, b"new contents");
    assert_ne!(old_hash, new_hash);
    assert_eq!(cache.lookup(&path, 11).unwrap(), new_hash);
}

#[test]
fn record_overwrites_only_its_own_path() {
    let mut cache = HashCache::new();
    let a = "mods/a.jar".to_string();
    let b = "mods/b.jar".to_string();
    let hash_a = cache.hash_and_record(&a, 1, b"aaa");
    let hash_b = cache.hash_and_record(&b, 2, b"bbb");
    let hash_a2 = cache.hash_and_record(&a, 3, b"aaa v2");
    assert_eq!(cache.lookup(&a, 3).unwrap(), hash_a2);
    assert_ne!(hash_a, hash_a2);
    assert_eq!(cache.lookup(&b, 2).unwrap(), hash_b);
}
