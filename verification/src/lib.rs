//! A verified key-set cache for JSON Web Token verification.
//!
//! The library fetches a JSON Web Key Set (JWKS) through a pluggable source,
//! caches it for a configurable time-to-live, and serves lookups by key
//! identifier. The cache core guarantees that concurrent callers observing a
//! miss collapse into exactly one outbound fetch (single-flight), that a
//! failed fetch never poisons the cache, and that key sets are replaced
//! wholesale, never mixed between fetch generations.

mod cache;
mod client;
mod config;
mod errors;
mod keys;
mod parse;

pub use cache::{
    fetches_started, lemma_atomic_replacement, lemma_cycle_serves_fetched_set,
    lemma_expired_entry_fetches,
    lemma_failure_non_poisoning, lemma_fresh_entry_serves, lemma_lookup_preserves_entry,
    lemma_no_fetch_while_fetching, lemma_single_flight, Action, Cache, CacheEntry,
};
pub use client::{get_in, get_opt_in, GetError};
pub use config::Config;
pub use errors::{check_status, FetchError};
pub use keys::{has_kid, is_first_match, JsonWebKey, JwkModel, KeyParam, KeySet};
pub use parse::{
    extract_key, jwks_shape_of, material_field, optional_field, parse_key_set, raw_key_well_formed,
    required_field, spec_key_of, spec_material, spec_parse_key_set, MemberText, RawKey, RawKeyModel,
};
