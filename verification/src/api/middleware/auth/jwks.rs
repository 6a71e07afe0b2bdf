//! The published key set and its time-boxed cache.

use vstd::prelude::*;
use crate::text::str_eq;

verus! {

/// Time-to-live of a cached key set, in seconds.
pub const JWKS_TTL: u64 = 300;

/// One entry of a published key set. The components are kept as published:
/// base64url text.
#[derive(Debug, Clone)]
pub struct Jwk {
    pub kid: Option<String>,
    pub kty: String,
    pub alg: Option<String>,
    pub crv: Option<String>,
    /// Elliptic-curve coordinates.
    pub x: Option<String>,
    pub y: Option<String>,
    /// RSA modulus and exponent.
    pub n: Option<String>,
    pub e: Option<String>,
}

/// The mathematical value of a `Jwk`.
pub struct JwkView {
    pub kid: Option<Seq<char>>,
    pub kty: Seq<char>,
    pub alg: Option<Seq<char>>,
    pub crv: Option<Seq<char>>,
    pub x: Option<Seq<char>>,
    pub y: Option<Seq<char>>,
    pub n: Option<Seq<char>>,
    pub e: Option<Seq<char>>,
}

impl View for Jwk {
    type V = JwkView;

    open spec fn view(&self) -> JwkView {
        JwkView {
            kid: self.kid.deep_view(),
            kty: self.kty@,
            alg: self.alg.deep_view(),
            crv: self.crv.deep_view(),
            x: self.x.deep_view(),
            y: self.y.deep_view(),
            n: self.n.deep_view(),
            e: self.e.deep_view(),
        }
    }
}

/// A key set: the entries in the order in which they were published.
#[derive(Debug, Clone)]
pub struct Jwks {
    pub keys: Vec<Jwk>,
}

impl View for Jwks {
    type V = Seq<JwkView>;

    open spec fn view(&self) -> Seq<JwkView> {
        self.keys@.map_values(|k: Jwk| k@)
    }
}

/// The first entry of `keys` that carries the key id `kid`.
pub open spec fn find_key(keys: Seq<JwkView>, kid: Seq<char>) -> Option<JwkView>
    decreases keys.len(),
{
    if keys.len() == 0 {
        None
    } else if keys[0].kid == Some(kid) {
        Some(keys[0])
    } else {
        find_key(keys.drop_first(), kid)
    }
}

/// `find_key` returns an entry with the key id asked for, the one that
/// stands before every other such entry; it returns nothing exactly when no
/// entry carries the key id.
pub proof fn lemma_find_key_is_first(keys: Seq<JwkView>, kid: Seq<char>)
    ensures
        match find_key(keys, kid) {
            Some(k) => exists|i: int|
                0 <= i < keys.len() && keys[i] == k && k.kid == Some(kid) && forall|j: int|
                    0 <= j < i ==> keys[j].kid != Some(kid),
            None => forall|i: int| 0 <= i < keys.len() ==> keys[i].kid != Some(kid),
        },
    decreases keys.len(),
{
    if keys.len() > 0 && keys[0].kid != Some(kid) {
        let rest = keys.drop_first();
        lemma_find_key_is_first(rest, kid);
        match find_key(rest, kid) {
            Some(k) => {
                let i = choose|i: int|
                    0 <= i < rest.len() && rest[i] == k && k.kid == Some(kid) && forall|j: int|
                        0 <= j < i ==> rest[j].kid != Some(kid);
                assert forall|j: int| 0 <= j < i + 1 implies keys[j].kid != Some(kid) by {
                    if j > 0 {
                        assert(keys[j] == rest[j - 1]);
                    }
                }
            },
            None => {
                assert forall|i: int| 0 <= i < keys.len() implies keys[i].kid != Some(kid) by {
                    if i > 0 {
                        assert(keys[i] == rest[i - 1]);
                    }
                }
            },
        }
    }
}

impl Jwks {
    /// Looks up the entry for a key id.
    pub fn find(&self, kid: &str) -> (r: Option<&Jwk>)
        ensures
            match r {
                Some(k) => find_key(self@, kid@) == Some(k@),
                None => find_key(self@, kid@) is None,
            },
    {
        let n = self.keys.len();
        let mut i: usize = 0;
        assert(self@.skip(0) =~= self@);
        while i < n
            invariant
                i <= n,
                n == self.keys@.len(),
                find_key(self@, kid@) == find_key(self@.skip(i as int), kid@),
            decreases n - i,
        {
            let key = &self.keys[i];
            let here = match &key.kid {
                Some(k) => str_eq(k.as_str(), kid),
                None => false,
            };
            proof {
                let rest = self@.skip(i as int);
                assert(rest.drop_first() =~= self@.skip(i + 1));
            }
            if here {
                return Some(key);
            }
            i += 1;
        }
        None
    }
}

/// A key set together with the instant, in seconds, at which it was fetched.
#[derive(Debug, Clone)]
pub struct CachedJwks {
    pub jwks: Jwks,
    pub fetched_at: u64,
}

/// The shared cache of the remote key set: at most one snapshot, replaced
/// as a whole and never changed in place.
#[derive(Debug)]
pub struct JwksCache {
    pub snapshot: Option<CachedJwks>,
    pub ttl: u64,
}

/// The mathematical value of a `JwksCache`.
pub struct JwksCacheView {
    pub snapshot: Option<(Seq<JwkView>, u64)>,
    pub ttl: u64,
}

impl View for JwksCache {
    type V = JwksCacheView;

    open spec fn view(&self) -> JwksCacheView {
        JwksCacheView {
            snapshot: match self.snapshot {
                Some(c) => Some((c.jwks@, c.fetched_at)),
                None => None,
            },
            ttl: self.ttl,
        }
    }
}

/// Seconds elapsed at `now` since `fetched_at`; a clock that stepped back
/// counts as no time elapsed.
pub open spec fn age(fetched_at: u64, now: u64) -> int {
    if now >= fetched_at {
        now - fetched_at
    } else {
        0
    }
}

impl JwksCacheView {
    /// A snapshot is fresh while its age is below the time-to-live.
    pub open spec fn is_fresh(self, now: u64) -> bool {
        match self.snapshot {
            Some((_, fetched_at)) => age(fetched_at, now) < self.ttl,
            None => false,
        }
    }

    /// What the fast path hands out: the cached set if it is fresh and no
    /// refresh is forced.
    pub open spec fn get(self, now: u64, force_refresh: bool) -> Option<Seq<JwkView>> {
        if !force_refresh && self.is_fresh(now) {
            Some(self.snapshot.unwrap().0)
        } else {
            None
        }
    }

    /// The cache after a successful fetch at `now`.
    pub open spec fn store(self, keys: Seq<JwkView>, now: u64) -> JwksCacheView {
        JwksCacheView { snapshot: Some((keys, now)), ttl: self.ttl }
    }

    /// The cache without its snapshot.
    pub open spec fn invalidate(self) -> JwksCacheView {
        JwksCacheView { snapshot: None, ttl: self.ttl }
    }
}

impl JwksCache {
    /// An empty cache with the given time-to-live in seconds.
    pub fn new(ttl: u64) -> (c: JwksCache)
        ensures
            c@ == (JwksCacheView { snapshot: None, ttl }),
    {
        JwksCache { snapshot: None, ttl }
    }

    /// Whether a snapshot is held whose age is below the time-to-live.
    pub fn is_fresh(&self, now: u64) -> (r: bool)
        ensures
            r == self@.is_fresh(now),
    {
        match &self.snapshot {
            Some(c) => {
                let elapsed: u64 = if now >= c.fetched_at {
                    now - c.fetched_at
                } else {
                    0
                };
                elapsed < self.ttl
            },
            None => false,
        }
    }

    /// The fast path: the cached key set, if it is fresh and no refresh is
    /// forced. `None` tells the caller to fetch.
    pub fn get(&self, now: u64, force_refresh: bool) -> (r: Option<&Jwks>)
        ensures
            match r {
                Some(keys) => self@.get(now, force_refresh) == Some(keys@),
                None => self@.get(now, force_refresh) is None,
            },
    {
        if !force_refresh && self.is_fresh(now) {
            match &self.snapshot {
                Some(c) => Some(&c.jwks),
                None => None,
            }
        } else {
            None
        }
    }

    /// Replaces the snapshot by a key set fetched at `now`.
    pub fn store(&mut self, jwks: Jwks, now: u64)
        ensures
            final(self)@ == old(self)@.store(jwks@, now),
    {
        self.snapshot = Some(CachedJwks { jwks, fetched_at: now });
    }

    /// Drops the snapshot, so that the next lookup fetches.
    pub fn invalidate(&mut self)
        ensures
            final(self)@ == old(self)@.invalidate(),
    {
        self.snapshot = None;
    }
}

/// A key set stored at `then` is handed out by the fast path at every
/// `now` less than the time-to-live later, and by no forced lookup.
pub proof fn lemma_store_then_get(cache: JwksCacheView, keys: Seq<JwkView>, then: u64, now: u64)
    ensures
        age(then, now) < cache.ttl ==> cache.store(keys, then).get(now, false) == Some(keys),
        age(then, now) >= cache.ttl ==> cache.store(keys, then).get(now, false) is None,
        cache.store(keys, then).get(now, true) is None,
        cache.invalidate().get(now, false) is None,
{
}

} // verus!
