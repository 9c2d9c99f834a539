//! The lookup facade: resolving a key identifier against the outcome of a
//! cache access.
//!
//! The cache access itself is [`crate::cache::Cache::on_lookup`] plus the
//! surrounding program's fetch; these functions take its outcome — the
//! current key set, or the fetch error every waiter received — and finish the
//! lookup. Lookups never mutate cache state.

use vstd::prelude::*;

use crate::errors::FetchError;
use crate::keys::{has_kid, is_first_match, JsonWebKey, KeySet};

verus! {

/// The outcome of a required-result lookup.
#[derive(Clone, Copy, Debug, PartialEq, Eq, Structural)]
pub enum GetError {
    /// The key set was fetched successfully but carries no key with the
    /// requested identifier. A normal lookup outcome, not a fetch failure.
    NotFound,
    /// The key set itself could not be obtained; the fetch error is carried
    /// unchanged.
    Fetch(FetchError),
}

/// Optional-result lookup: the first key whose identifier equals `kid`, out
/// of the key set a cache access produced. A missing identifier is an empty
/// result, not an error, when the set itself was fetched successfully; a
/// fetch error propagates unchanged.
pub fn get_opt_in<'a>(fetched: Result<&'a KeySet, FetchError>, kid: &str) -> (r: Result<
    Option<&'a JsonWebKey>,
    FetchError,
>)
    ensures
        match fetched {
            Ok(ks) => match r {
                Ok(Some(k)) => is_first_match(ks.keys@, kid@, *k),
                Ok(None) => !has_kid(ks.keys@, kid@),
                Err(_) => false,
            },
            Err(e) => r == Err::<Option<&'a JsonWebKey>, FetchError>(e),
        },
{
    match fetched {
        Ok(ks) => Ok(ks.find(kid)),
        Err(e) => Err(e),
    }
}

/// Required-result lookup: as [`get_opt_in`], but a missing identifier is
/// reported as [`GetError::NotFound`].
pub fn get_in<'a>(fetched: Result<&'a KeySet, FetchError>, kid: &str) -> (r: Result<
    &'a JsonWebKey,
    GetError,
>)
    ensures
        match fetched {
            Ok(ks) => match r {
                Ok(k) => is_first_match(ks.keys@, kid@, *k),
                Err(GetError::NotFound) => !has_kid(ks.keys@, kid@),
                Err(GetError::Fetch(_)) => false,
            },
            Err(e) => r == Err::<&'a JsonWebKey, GetError>(GetError::Fetch(e)),
        },
{
    match fetched {
        Ok(ks) => match ks.find(kid) {
            Some(k) => Ok(k),
            None => Err(GetError::NotFound),
        },
        Err(e) => Err(GetError::Fetch(e)),
    }
}

} // verus!
