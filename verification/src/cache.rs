//! Cache bookkeeping for repeated API calls: entries with an expiry, the
//! keys that identify uploads and OCR requests, and the content hash used
//! to key a file by its bytes.
//!
//! Time is handed in as a millisecond reading so that expiry is a pure
//! function of the entry and the clock.

use std::hash::{Hash, Hasher};

use vstd::prelude::*;

use crate::text::{hex_chars, u64_to_hex_string};

verus! {

/// A cache entry with an expiration time, both times as millisecond
/// readings of one clock.
#[derive(Debug)]
pub struct CacheEntry<T> {
    pub data: T,
    pub created_at_ms: u64,
    pub expires_at_ms: u64,
}

impl<T> CacheEntry<T> {
    /// Create a new cache entry at the given clock reading, expiring after
    /// the given time to live.
    pub fn new(data: T, ttl_ms: u64, now_ms: u64) -> (r: CacheEntry<T>)
        ensures
            r.data == data,
            r.created_at_ms == now_ms,
            r.expires_at_ms == if now_ms + ttl_ms <= u64::MAX {
                now_ms + ttl_ms
            } else {
                u64::MAX as int
            },
    {
        let expires_at_ms = if now_ms > u64::MAX - ttl_ms {
            u64::MAX
        } else {
            now_ms + ttl_ms
        };
        CacheEntry { data, created_at_ms: now_ms, expires_at_ms }
    }

    /// Whether the entry is expired at the given clock reading.
    pub fn is_expired(&self, now_ms: u64) -> (r: bool)
        ensures
            r == (now_ms > self.expires_at_ms),
    {
        now_ms > self.expires_at_ms
    }

    /// How long the entry still has to live at the given clock reading.
    pub fn remaining_ttl(&self, now_ms: u64) -> (r: u64)
        ensures
            now_ms > self.expires_at_ms ==> r == 0,
            now_ms <= self.expires_at_ms ==> r == self.expires_at_ms - now_ms,
    {
        if now_ms > self.expires_at_ms {
            0
        } else {
            self.expires_at_ms - now_ms
        }
    }
}

/// Cache key for file uploads, based on the file's content hash.
#[derive(Clone, Debug, PartialEq, Eq, Hash)]
pub struct FileCacheKey {
    pub file_hash: String,
    pub purpose: String,
}

/// Cache key for OCR requests, based on the file ID and the model.
#[derive(Clone, Debug, PartialEq, Eq, Hash)]
pub struct OCRCacheKey {
    pub file_id: String,
    pub model: String,
}

/// Cache statistics.
#[derive(Clone, Debug)]
pub struct CacheStats {
    pub total_entries: usize,
    pub expired_entries: usize,
    pub active_entries: usize,
    pub max_entries: usize,
    pub estimated_size_bytes: usize,
}

/// Combined statistics of the upload and OCR caches.
#[derive(Clone, Debug)]
pub struct CombinedCacheStats {
    pub file_upload_cache: CacheStats,
    pub ocr_result_cache: CacheStats,
    pub total_active_entries: usize,
    pub total_estimated_size_bytes: usize,
}

/// The digest of a byte sequence under the standard library's default
/// hasher, which always starts from the same keys: a function of the bytes
/// alone.
pub uninterp spec fn content_hash_of(data: Seq<u8>) -> u64;

/// Relies on `std::collections::hash_map::DefaultHasher`: created through
/// `new` it always starts from the same keys, so the digest depends on the
/// bytes alone.
#[verifier::external_body]
fn content_hash(data: &[u8]) -> (r: u64)
    ensures
        r == content_hash_of(data@),
{
    let mut hasher = std::collections::hash_map::DefaultHasher::new();
    data.hash(&mut hasher);
    hasher.finish()
}

/// The cache key text for a file's bytes: the content digest in hex.
pub fn generate_file_hash(file_data: &[u8]) -> (r: String)
    ensures
        r@ == hex_chars(content_hash_of(file_data@) as nat),
{
    u64_to_hex_string(content_hash(file_data))
}

} // verus!
