use gachitore_api::api::middleware::auth::{Jwk, Jwks, JwksCache, KeyRequest, Algorithm, JWKS_TTL};

fn entry(kid: Option<&str>, kty: &str) -> Jwk {
    Jwk {
        kid: kid.map(|k| k.to_string()),
        kty: kty.to_string(),
        alg: None,
        crv: None,
        x: None,
        y: None,
        n: None,
        e: None,
    }
}

fn set_of(kids: &[&str]) -> Jwks {
    Jwks { keys: kids.iter().map(|k| entry(Some(k), "EC")).collect() }
}

#[test]
fn time_to_live_is_five_minutes() {
    assert_eq!(JWKS_TTL, 300);
}

#[test]
fn new_cache_is_empty_and_never_fresh() {
    let cache = JwksCache::new(JWKS_TTL);
    assert!(cache.snapshot.is_none());
    assert_eq!(cache.ttl, 300);
    assert!(!cache.is_fresh(0));
    assert!(cache.get(0, false).is_none());
    assert!(cache.get(u64::MAX, false).is_none());
}

#[test]
fn snapshot_is_fresh_strictly_below_the_time_to_live() {
    let mut cache = JwksCache::new(300);
    cache.store(set_of(&["k1"]), 1000);
    assert!(cache.is_fresh(1000));
    assert!(cache.is_fresh(1299));
    assert!(!cache.is_fresh(1300));
    assert!(!cache.is_fresh(5000));
    assert_eq!(cache.get(1299, false).unwrap().keys.len(), 1);
    assert!(cache.get(1300, false).is_none());
    // staleness keeps the snapshot: only the fast path stops handing it out
    assert!(cache.snapshot.is_some());
}

#[test]
fn clock_that_stepped_back_counts_as_no_time_elapsed() {
    let mut cache = JwksCache::new(300);
    cache.store(set_of(&["k1"]), 1000);
    assert!(cache.is_fresh(0));
    assert!(cache.get(999, false).is_some());
}

#[test]
fn forced_lookup_never_uses_the_snapshot() {
    let mut cache = JwksCache::new(300);
    cache.store(set_of(&["k1"]), 1000);
    assert!(cache.get(1000, true).is_none());
    assert!(cache.get(1000, false).is_some());
}

#[test]
fn zero_time_to_live_is_never_fresh() {
    let mut cache = JwksCache::new(0);
    cache.store(set_of(&["k1"]), 1000);
    assert!(!cache.is_fresh(1000));
    assert!(cache.get(1000, false).is_none());
}

#[test]
fn store_replaces_the_snapshot_as_a_whole() {
    let mut cache = JwksCache::new(300);
    cache.store(set_of(&["k1", "k2"]), 1000);
    cache.store(set_of(&["k3"]), 2000);
    let snapshot = cache.snapshot.as_ref().unwrap();
    assert_eq!(snapshot.fetched_at, 2000);
    assert_eq!(snapshot.jwks.keys.len(), 1);
    assert_eq!(snapshot.jwks.keys[0].kid.as_deref(), Some("k3"));
    assert_eq!(cache.ttl, 300);
}

#[test]
fn invalidate_clears_the_snapshot() {
    let mut cache = JwksCache::new(300);
    cache.store(set_of(&["k1"]), 1000);
    cache.invalidate();
    assert!(cache.snapshot.is_none());
    assert!(cache.get(1000, false).is_none());
    assert_eq!(cache.ttl, 300);
    cache.invalidate();
    assert!(cache.snapshot.is_none());
}

#[test]
fn begin_fetch_invalidates_only_when_forced() {
    let mut cache = JwksCache::new(300);
    cache.store(set_of(&["k1"]), 1000);
    let plain = KeyRequest { algorithm: Algorithm::ES256, kid: "k2".to_string(), forced: false };
    cache.begin_fetch(&plain);
    assert!(cache.snapshot.is_some());
    let forced = KeyRequest { algorithm: Algorithm::ES256, kid: "k2".to_string(), forced: true };
    cache.begin_fetch(&forced);
    assert!(cache.snapshot.is_none());
}

#[test]
fn end_fetch_stores_what_came_back_and_keeps_the_rest() {
    let mut cache = JwksCache::new(300);
    cache.store(set_of(&["k1"]), 1000);
    cache.end_fetch(None, 2000);
    assert_eq!(cache.snapshot.as_ref().unwrap().fetched_at, 1000);
    cache.end_fetch(Some(set_of(&["k1", "k2"])), 2000);
    assert_eq!(cache.snapshot.as_ref().unwrap().fetched_at, 2000);
    assert_eq!(cache.snapshot.as_ref().unwrap().jwks.keys.len(), 2);
}

#[test]
fn find_returns_the_first_entry_with_the_key_id() {
    let mut first = entry(Some("k1"), "EC");
    first.x = Some("first".to_string());
    let mut second = entry(Some("k1"), "RSA");
    second.x = Some("second".to_string());
    let set = Jwks { keys: vec![entry(None, "EC"), entry(Some("k0"), "EC"), first, second] };
    let found = set.find("k1").unwrap();
    assert_eq!(found.x.as_deref(), Some("first"));
    assert_eq!(found.kty, "EC");
    assert_eq!(set.find("k0").unwrap().kid.as_deref(), Some("k0"));
    assert!(set.find("k2").is_none());
    assert!(set.find("").is_none());
    assert!(set.find("K1").is_none());
    assert!(Jwks { keys: vec![] }.find("k1").is_none());
}
