use jwks_cache::{Action, Cache, FetchError, JsonWebKey, KeySet};

fn key_with_kid(kid: &str) -> JsonWebKey {
    JsonWebKey {
        kid: kid.to_owned(),
        kty: "RSA".to_owned(),
        key_use: Some("sig".to_owned()),
        alg: Some("RS256".to_owned()),
        params: Vec::new(),
    }
}

fn set_with_kid(kid: &str) -> KeySet {
    KeySet { keys: vec![key_with_kid(kid)] }
}

/// An in-memory source double: serves a scripted response and counts fetches.
struct FakeSource {
    response: Result<KeySet, FetchError>,
    fetches: usize,
}

impl FakeSource {
    fn new(response: Result<KeySet, FetchError>) -> FakeSource {
        FakeSource { response, fetches: 0 }
    }

    fn fetch(&mut self) -> Result<KeySet, FetchError> {
        self.fetches += 1;
        self.response.clone()
    }
}

/// One synchronous lookup cycle: consult the cache, fetch if told to, and
/// resolve the key id against the served set.
fn get_opt(
    cache: &mut Cache,
    source: &mut FakeSource,
    now: u64,
    kid: &str,
) -> Result<Option<JsonWebKey>, FetchError> {
    match cache.on_lookup(now) {
        Action::Serve => {}
        Action::Fetch => {
            let result = source.fetch();
            cache.on_fetch_complete(now, result)?;
        }
        Action::Wait => panic!("single-threaded driver never leaves a fetch in flight"),
    }
    Ok(cache.current().find(kid).cloned())
}

#[test]
fn single_flight_under_concurrent_misses() {
    let mut cache = Cache::new(10);
    // Five callers observe the miss at nearly the same instants. Only the
    // first is made the fetcher; each later one is told to wait.
    assert_eq!(cache.on_lookup(0), Action::Fetch);
    assert_eq!(cache.on_lookup(0), Action::Wait);
    assert_eq!(cache.on_lookup(1), Action::Wait);
    assert_eq!(cache.on_lookup(2), Action::Wait);
    assert_eq!(cache.on_lookup(2), Action::Wait);
    // The one fetch resolves; every waiter receives the same installed set.
    let out = cache.on_fetch_complete(3, Ok(set_with_kid("abc123")));
    assert_eq!(out, Ok(()));
    assert_eq!(cache.on_lookup(3), Action::Serve);
    assert!(cache.current().find("abc123").is_some());
}

#[test]
fn second_fetch_cycle_not_started_while_one_in_flight() {
    let mut cache = Cache::new(10);
    assert_eq!(cache.on_lookup(0), Action::Fetch);
    cache.on_fetch_complete(0, Ok(set_with_kid("abc123"))).unwrap();
    // A fetch starts just before expiry-driven reads arrive: the reads that
    // observe expiry join the in-flight cycle instead of starting another.
    assert_eq!(cache.on_lookup(10), Action::Fetch);
    assert_eq!(cache.on_lookup(11), Action::Wait);
    assert_eq!(cache.on_lookup(12), Action::Wait);
    cache.on_fetch_complete(12, Ok(set_with_kid("abc123"))).unwrap();
    assert_eq!(cache.on_lookup(12), Action::Serve);
}

#[test]
fn ttl_respected() {
    let mut cache = Cache::new(10);
    let mut source = FakeSource::new(Ok(set_with_kid("abc123")));
    get_opt(&mut cache, &mut source, 0, "abc123").unwrap();
    assert_eq!(source.fetches, 1);
    // Before the TTL elapses: zero additional fetches.
    for now in [1, 5, 9] {
        get_opt(&mut cache, &mut source, now, "abc123").unwrap();
        assert_eq!(source.fetches, 1);
    }
    // After the TTL elapses: exactly one new fetch.
    get_opt(&mut cache, &mut source, 10, "abc123").unwrap();
    assert_eq!(source.fetches, 2);
}

#[test]
fn failure_non_poisoning() {
    let mut cache = Cache::new(10);
    // Simulated connection refusal: no status was ever received.
    let mut source = FakeSource::new(Err(FetchError::Transport { status: 0 }));
    let r = get_opt(&mut cache, &mut source, 0, "abc123");
    assert_eq!(r, Err(FetchError::Transport { status: 0 }));
    assert_eq!(source.fetches, 1);
    // No error was cached and no fetching state is stuck: the next access
    // retries, and once the fault clears it succeeds normally.
    source.response = Ok(set_with_kid("abc123"));
    let r = get_opt(&mut cache, &mut source, 1, "abc123");
    assert_eq!(r, Ok(Some(key_with_kid("abc123"))));
    assert_eq!(source.fetches, 2);
}

#[test]
fn failed_refresh_keeps_no_stale_error_after_expiry() {
    let mut cache = Cache::new(10);
    let mut source = FakeSource::new(Ok(set_with_kid("abc123")));
    get_opt(&mut cache, &mut source, 0, "abc123").unwrap();
    // The entry expires and the refresh fails: the error propagates ...
    source.response = Err(FetchError::Timeout);
    assert_eq!(get_opt(&mut cache, &mut source, 10, "abc123"), Err(FetchError::Timeout));
    // ... and is not served from the cache afterwards.
    source.response = Ok(set_with_kid("xyz789"));
    let r = get_opt(&mut cache, &mut source, 11, "xyz789");
    assert_eq!(r, Ok(Some(key_with_kid("xyz789"))));
    assert_eq!(source.fetches, 3);
}

#[test]
fn atomic_replacement_never_mixes_generations() {
    let mut cache = Cache::new(10);
    let first = KeySet { keys: vec![key_with_kid("gen1-a"), key_with_kid("gen1-b")] };
    let second = KeySet { keys: vec![key_with_kid("gen2-a")] };
    assert_eq!(cache.on_lookup(0), Action::Fetch);
    cache.on_fetch_complete(0, Ok(first.clone())).unwrap();
    assert_eq!(*cache.current(), first);
    assert_eq!(cache.on_lookup(10), Action::Fetch);
    cache.on_fetch_complete(10, Ok(second.clone())).unwrap();
    // The served set is exactly the second generation, wholesale: no key of
    // the first generation survives alongside it.
    assert_eq!(*cache.current(), second);
    assert!(cache.current().find("gen1-a").is_none());
    assert!(cache.current().find("gen1-b").is_none());
    assert!(cache.current().find("gen2-a").is_some());
}

#[test]
fn scenario_ttl_ten() {
    let mut cache = Cache::new(10);
    let mut source = FakeSource::new(Ok(set_with_kid("abc123")));
    let at_zero = get_opt(&mut cache, &mut source, 0, "abc123").unwrap();
    assert_eq!(at_zero, Some(key_with_kid("abc123")));
    assert_eq!(source.fetches, 1);
    let at_five = get_opt(&mut cache, &mut source, 5, "abc123").unwrap();
    assert_eq!(at_five, Some(key_with_kid("abc123")));
    assert_eq!(source.fetches, 1);
    // At t=11 the source serves a different generation.
    source.response = Ok(set_with_kid("xyz789"));
    let stale_kid = get_opt(&mut cache, &mut source, 11, "abc123").unwrap();
    assert_eq!(stale_kid, None);
    let fresh_kid = get_opt(&mut cache, &mut source, 11, "xyz789").unwrap();
    assert_eq!(fresh_kid, Some(key_with_kid("xyz789")));
    assert_eq!(source.fetches, 2);
}

#[test]
fn malformed_fetch_leaves_cache_empty_then_recovers() {
    let mut cache = Cache::new(10);
    // Three concurrent callers hit the empty cache; the fetch parses nothing.
    assert_eq!(cache.on_lookup(0), Action::Fetch);
    assert_eq!(cache.on_lookup(0), Action::Wait);
    assert_eq!(cache.on_lookup(0), Action::Wait);
    let parsed = jwks_cache::parse_key_set("this is not a key set");
    assert_eq!(parsed, Err(FetchError::Malformed));
    // Every waiter of the cycle receives the same error, unchanged.
    let broadcast = cache.on_fetch_complete(0, parsed);
    assert_eq!(broadcast, Err(FetchError::Malformed));
    // The cache stayed empty: the next access starts a fresh fetch, and a
    // well-formed response then succeeds.
    assert_eq!(cache.on_lookup(1), Action::Fetch);
    let body = "{\"keys\":[{\"kid\":\"abc123\",\"kty\":\"RSA\"}]}";
    let good = jwks_cache::parse_key_set(body);
    assert!(good.is_ok());
    cache.on_fetch_complete(1, good).unwrap();
    assert_eq!(cache.on_lookup(1), Action::Serve);
    assert!(cache.current().find("abc123").is_some());
}
