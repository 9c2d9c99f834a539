//! Construction-time configuration of the source and the cache.

use vstd::prelude::*;

verus! {

/// The required configuration fields. None has an implicit default: callers
/// must decide both timeouts, the TTL, and the URL.
pub struct Config {
    /// The well-known JWKS URL the source fetches from.
    pub source_url: String,
    /// Whole-request timeout of one fetch, in milliseconds.
    pub request_timeout_ms: u64,
    /// Connect timeout of one fetch, in milliseconds.
    pub connect_timeout_ms: u64,
    /// How long a fetched key set stays fresh, in the time unit the cache is
    /// driven with.
    pub ttl: u64,
}

impl Config {
    /// A configuration with exactly the given fields.
    pub fn new(source_url: String, request_timeout_ms: u64, connect_timeout_ms: u64, ttl: u64) -> (c:
        Config)
        ensures
            c.source_url == source_url,
            c.request_timeout_ms == request_timeout_ms,
            c.connect_timeout_ms == connect_timeout_ms,
            c.ttl == ttl,
    {
        Config { source_url, request_timeout_ms, connect_timeout_ms, ttl }
    }
}

} // verus!
