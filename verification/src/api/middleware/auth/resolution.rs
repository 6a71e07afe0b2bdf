//! Key resolution: from a token to a verdict, with the key-set fetches that
//! lie between.
//!
//! The handling of a token is a small state machine. It starts by parsing
//! the header and takes the symmetric or the asymmetric path. The symmetric
//! path verifies under the shared secret and is done. The asymmetric path
//! resolves the key: it looks the key id up in the fresh cached set, and
//! where that fails it asks for the key set. Fetching is the caller's
//! part, because only the caller can wait for the network: `validate_jwt`
//! either concludes (`Step::Done`) or asks (`Step::Fetch`); the caller
//! prepares the cache (`JwksCache::begin_fetch`), fetches, hands the
//! outcome to `resume_validation` and stores it (`JwksCache::end_fetch`).
//!
//! A lookup that misses in a fresh set asks for one forced refresh, before
//! which the cache is invalidated. A set fetched because none was fresh is
//! looked at first, and only if it lacks the key id a forced refresh
//! follows. Nothing is asked for after a forced refresh: the token is
//! verified under the key that the refreshed set holds, or rejected because
//! no key matches. So a key rotation costs one extra fetch, and only those
//! requests pay it whose key id the cache did not know.
//!
//! The steps only read the cache. It is written in `begin_fetch` and
//! `end_fetch`, each a swap of the snapshot, so that a lock around the
//! cache is held for writing during the swaps and never during a fetch.

use vstd::prelude::*;
use vstd::string::*;
use vstd::utf8::encode_utf8;
use crate::config::{issuer_of, Config, EXPECTED_AUDIENCE};
use super::algorithm::{jwt_header, resolve_algorithm, Algorithm, AlgorithmFamily};
use super::claims::{Claims, ClaimsView};
use super::error::{AuthError, VerificationError};
use super::jwks::{find_key, Jwk, JwkView, Jwks, JwksCache, JwksCacheView};
use super::key::{decoding_key_from_jwk, key_for, KeyMaterial, KeyMaterialView};
use super::verification::{verify, verify_result};

verus! {

/// A request for the key set, made on behalf of one token.
#[derive(Debug)]
pub struct KeyRequest {
    pub algorithm: Algorithm,
    pub kid: String,
    /// Whether the cache is to be invalidated before the fetch.
    pub forced: bool,
}

/// The mathematical value of a `KeyRequest`.
pub struct KeyRequestView {
    pub algorithm: Algorithm,
    pub kid: Seq<char>,
    pub forced: bool,
}

impl View for KeyRequest {
    type V = KeyRequestView;

    open spec fn view(&self) -> KeyRequestView {
        KeyRequestView { algorithm: self.algorithm, kid: self.kid@, forced: self.forced }
    }
}

/// What the gateway does next for a token.
#[derive(Debug)]
pub enum Step {
    /// The key set is needed: fetch it and resume.
    Fetch(KeyRequest),
    /// The verdict is reached.
    Done(Result<Claims, AuthError>),
}

/// The mathematical value of a `Step`.
pub enum StepView {
    Fetch(KeyRequestView),
    Done(Result<ClaimsView, AuthError>),
}

impl View for Step {
    type V = StepView;

    open spec fn view(&self) -> StepView {
        match self {
            Step::Fetch(request) => StepView::Fetch(request@),
            Step::Done(Ok(claims)) => StepView::Done(Ok(claims@)),
            Step::Done(Err(e)) => StepView::Done(Err(*e)),
        }
    }
}

/// A failed verification, as the gateway reports it.
pub open spec fn as_rejection(r: Result<ClaimsView, VerificationError>) -> Result<
    ClaimsView,
    AuthError,
> {
    match r {
        Ok(claims) => Ok(claims),
        Err(e) => Err(AuthError::InvalidToken(e)),
    }
}

/// The verdict on a token under a key-set entry: the key is built for the
/// algorithm, then the token is verified under it.
pub open spec fn verdict_with_jwk(
    token: Seq<char>,
    jwk: JwkView,
    algorithm: Algorithm,
    issuer: Seq<char>,
    now: u64,
) -> Result<ClaimsView, AuthError> {
    match key_for(jwk, algorithm) {
        Err(e) => Err(AuthError::InvalidToken(e)),
        Ok(key) => as_rejection(
            verify_result(token, key, algorithm, EXPECTED_AUDIENCE@, issuer, now),
        ),
    }
}

/// The first step for a token: a header that cannot be read, an
/// unsupported algorithm, a missing secret or a missing key id conclude at
/// once; a shared-secret token is verified under the secret; a token of an
/// asymmetric family is verified under its entry of the fresh cached set,
/// and where there is no fresh set, or none with the key id, the key set is
/// asked for.
pub open spec fn start_spec(
    token: Seq<char>,
    secret: Seq<char>,
    issuer: Seq<char>,
    cache: JwksCacheView,
    now: u64,
) -> StepView {
    match jwt_header(token) {
        None => StepView::Done(Err(AuthError::InvalidToken(VerificationError::MalformedToken))),
        Some(header) => match header.alg.family_spec() {
            AlgorithmFamily::SharedSecret => if secret.len() == 0 {
                StepView::Done(Err(AuthError::InvalidToken(VerificationError::MissingSecret)))
            } else {
                StepView::Done(
                    as_rejection(
                        verify_result(
                            token,
                            KeyMaterialView::Secret(encode_utf8(secret)),
                            header.alg,
                            EXPECTED_AUDIENCE@,
                            issuer,
                            now,
                        ),
                    ),
                )
            },
            AlgorithmFamily::Unsupported => StepView::Done(
                Err(AuthError::InvalidToken(VerificationError::UnsupportedAlgorithm)),
            ),
            _ => match header.kid {
                None => StepView::Done(
                    Err(AuthError::InvalidToken(VerificationError::MissingKeyId)),
                ),
                Some(kid) => match cache.get(now, false) {
                    None => StepView::Fetch(
                        KeyRequestView { algorithm: header.alg, kid, forced: false },
                    ),
                    Some(keys) => match find_key(keys, kid) {
                        Some(jwk) => StepView::Done(
                            verdict_with_jwk(token, jwk, header.alg, issuer, now),
                        ),
                        None => StepView::Fetch(
                            KeyRequestView { algorithm: header.alg, kid, forced: true },
                        ),
                    },
                },
            },
        },
    }
}

/// The step after a fetch: a failed fetch concludes, and is not tried
/// again; a set with the key id leads to the verdict; a set without it
/// leads to one forced refresh, and after a forced refresh to the verdict
/// that no key matches.
pub open spec fn resume_spec(
    token: Seq<char>,
    issuer: Seq<char>,
    request: KeyRequestView,
    fetched: Option<Seq<JwkView>>,
    now: u64,
) -> StepView {
    match fetched {
        None => StepView::Done(Err(AuthError::UpstreamKeyFetchError)),
        Some(keys) => match find_key(keys, request.kid) {
            Some(jwk) => StepView::Done(
                verdict_with_jwk(token, jwk, request.algorithm, issuer, now),
            ),
            None => if request.forced {
                StepView::Done(Err(AuthError::NoMatchingKey))
            } else {
                StepView::Fetch(
                    KeyRequestView { algorithm: request.algorithm, kid: request.kid, forced: true },
                )
            },
        },
    }
}

/// Turns a failed verification into the gateway's rejection.
fn reject(r: Result<Claims, VerificationError>) -> (out: Result<Claims, AuthError>)
    ensures
        match out {
            Ok(c) => r == Ok::<Claims, VerificationError>(c),
            Err(e) => r is Err && e == AuthError::InvalidToken(r->Err_0),
        },
{
    match r {
        Ok(claims) => Ok(claims),
        Err(e) => Err(AuthError::InvalidToken(e)),
    }
}

/// Builds the key from an entry and verifies the token under it.
fn verify_with_jwk(token: &str, jwk: &Jwk, algorithm: Algorithm, issuer: &str, now: u64) -> (r:
    Result<Claims, AuthError>)
    ensures
        match r {
            Ok(c) => verdict_with_jwk(token@, jwk@, algorithm, issuer@, now) == Ok::<
                ClaimsView,
                AuthError,
            >(c@),
            Err(e) => verdict_with_jwk(token@, jwk@, algorithm, issuer@, now) == Err::<
                ClaimsView,
                AuthError,
            >(e),
        },
{
    match decoding_key_from_jwk(jwk, algorithm) {
        Err(e) => Err(AuthError::InvalidToken(e)),
        Ok(key) => reject(verify(token, &key, algorithm, EXPECTED_AUDIENCE, issuer, now)),
    }
}

/// Takes the first step for a token: reads its header, picks the path of
/// its algorithm family and either reaches the verdict or asks for the key
/// set. The cache is only read.
pub fn validate_jwt(token: &str, config: &Config, cache: &JwksCache, now: u64) -> (step: Step)
    ensures
        step@ == start_spec(
            token@,
            config.supabase_jwt_secret@,
            issuer_of(config.supabase_url@),
            cache@,
            now,
        ),
{
    let header = match resolve_algorithm(token) {
        Ok(header) => header,
        Err(e) => { return Step::Done(Err(AuthError::InvalidToken(e))); },
    };
    let algorithm = header.alg;
    match header.family() {
        AlgorithmFamily::SharedSecret => {
            let secret = config.supabase_jwt_secret.as_str();
            if secret.is_empty() {
                return Step::Done(Err(AuthError::InvalidToken(VerificationError::MissingSecret)));
            }
            let key = KeyMaterial::from_secret(secret);
            let issuer = config.issuer();
            Step::Done(
                reject(verify(token, &key, algorithm, EXPECTED_AUDIENCE, issuer.as_str(), now)),
            )
        },
        AlgorithmFamily::Unsupported => Step::Done(
            Err(AuthError::InvalidToken(VerificationError::UnsupportedAlgorithm)),
        ),
        _ => {
            let kid = match header.kid {
                Some(kid) => kid,
                None => {
                    return Step::Done(
                        Err(AuthError::InvalidToken(VerificationError::MissingKeyId)),
                    );
                },
            };
            match cache.get(now, false) {
                None => Step::Fetch(KeyRequest { algorithm, kid, forced: false }),
                Some(jwks) => match jwks.find(kid.as_str()) {
                    Some(jwk) => {
                        let issuer = config.issuer();
                        Step::Done(verify_with_jwk(token, jwk, algorithm, issuer.as_str(), now))
                    },
                    None => Step::Fetch(KeyRequest { algorithm, kid, forced: true }),
                },
            }
        },
    }
}

/// Takes the step after a fetch made for `request`; `fetched` is the key
/// set that came back, or `None` where the fetch or its parsing failed.
pub fn resume_validation(
    token: &str,
    config: &Config,
    request: KeyRequest,
    fetched: Option<&Jwks>,
    now: u64,
) -> (step: Step)
    ensures
        step@ == resume_spec(
            token@,
            issuer_of(config.supabase_url@),
            request@,
            match fetched {
                Some(keys) => Some(keys@),
                None => None,
            },
            now,
        ),
{
    match fetched {
        None => Step::Done(Err(AuthError::UpstreamKeyFetchError)),
        Some(jwks) => match jwks.find(request.kid.as_str()) {
            Some(jwk) => {
                let issuer = config.issuer();
                Step::Done(verify_with_jwk(token, jwk, request.algorithm, issuer.as_str(), now))
            },
            None => if request.forced {
                Step::Done(Err(AuthError::NoMatchingKey))
            } else {
                Step::Fetch(
                    KeyRequest { algorithm: request.algorithm, kid: request.kid, forced: true },
                )
            },
        },
    }
}

/// The cache as a fetch made for `request` finds it: emptied where the
/// refresh is forced.
pub open spec fn cache_before_fetch(cache: JwksCacheView, request: KeyRequestView) -> JwksCacheView {
    if request.forced {
        cache.invalidate()
    } else {
        cache
    }
}

/// The cache after a fetch at `now`: it holds the set that came back, and
/// is left as it was where the fetch failed.
pub open spec fn cache_after_fetch(
    cache: JwksCacheView,
    fetched: Option<Seq<JwkView>>,
    now: u64,
) -> JwksCacheView {
    match fetched {
        Some(keys) => cache.store(keys, now),
        None => cache,
    }
}

impl JwksCache {
    /// Prepares the cache for the fetch that `request` asks for: a forced
    /// refresh drops the snapshot first.
    pub fn begin_fetch(&mut self, request: &KeyRequest)
        ensures
            final(self)@ == cache_before_fetch(old(self)@, request@),
    {
        if request.forced {
            self.invalidate();
        }
    }

    /// Records the outcome of a fetch at `now`: a key set that came back
    /// replaces the snapshot.
    pub fn end_fetch(&mut self, fetched: Option<Jwks>, now: u64)
        ensures
            final(self)@ == cache_after_fetch(
                old(self)@,
                match fetched {
                    Some(keys) => Some(keys@),
                    None => None,
                },
                now,
            ),
    {
        match fetched {
            Some(jwks) => self.store(jwks, now),
            None => {},
        }
    }
}

/// How the handling of one token went.
pub struct Run {
    pub verdict: Result<ClaimsView, AuthError>,
    /// Fetches of the key set that were made.
    pub fetches: nat,
    /// Those among them that were forced refreshes.
    pub forced_refreshes: nat,
    /// The cache as the run leaves it.
    pub cache: JwksCacheView,
}

/// One for a forced request, nothing for another.
pub open spec fn forced_count(request: KeyRequestView) -> nat {
    if request.forced {
        1
    } else {
        0
    }
}

/// The handling of one token at `now`, from the first step to the verdict.
/// `first` is what the first fetch brings if one is made, `second` what the
/// second brings; `None` is a fetch that fails.
pub open spec fn run(
    token: Seq<char>,
    secret: Seq<char>,
    issuer: Seq<char>,
    cache: JwksCacheView,
    now: u64,
    first: Option<Seq<JwkView>>,
    second: Option<Seq<JwkView>>,
) -> Run {
    match start_spec(token, secret, issuer, cache, now) {
        StepView::Done(verdict) => Run { verdict, fetches: 0, forced_refreshes: 0, cache },
        StepView::Fetch(r1) => {
            let c1 = cache_after_fetch(cache_before_fetch(cache, r1), first, now);
            match resume_spec(token, issuer, r1, first, now) {
                StepView::Done(verdict) => Run {
                    verdict,
                    fetches: 1,
                    forced_refreshes: forced_count(r1),
                    cache: c1,
                },
                StepView::Fetch(r2) => {
                    let c2 = cache_after_fetch(cache_before_fetch(c1, r2), second, now);
                    Run {
                        verdict: match resume_spec(token, issuer, r2, second, now) {
                            StepView::Done(verdict) => verdict,
                            StepView::Fetch(_) => Err(AuthError::NoMatchingKey),
                        },
                        fetches: 2,
                        forced_refreshes: forced_count(r1) + forced_count(r2),
                        cache: c2,
                    }
                },
            }
        },
    }
}

/// Nothing is asked for after a forced refresh, and what is asked for after
/// another fetch is a forced refresh for the same key id: so a token costs
/// two fetches at most, one of them forced at most.
pub proof fn lemma_forced_refresh_concludes(
    token: Seq<char>,
    issuer: Seq<char>,
    request: KeyRequestView,
    fetched: Option<Seq<JwkView>>,
    now: u64,
)
    ensures
        request.forced ==> resume_spec(token, issuer, request, fetched, now) is Done,
        resume_spec(token, issuer, request, fetched, now) matches StepView::Fetch(next)
            ==> next.forced && next.kid == request.kid && next.algorithm == request.algorithm,
{
}

/// A run never makes more than two fetches, never more than one forced
/// refresh, and concludes that no key matches only after exactly one forced
/// refresh, whose key set lacks the key id. A failed fetch is not tried
/// again.
pub proof fn lemma_one_forced_refresh_before_no_matching_key(
    token: Seq<char>,
    secret: Seq<char>,
    issuer: Seq<char>,
    cache: JwksCacheView,
    now: u64,
    first: Option<Seq<JwkView>>,
    second: Option<Seq<JwkView>>,
)
    ensures
        run(token, secret, issuer, cache, now, first, second).fetches <= 2,
        run(token, secret, issuer, cache, now, first, second).forced_refreshes <= 1,
        run(token, secret, issuer, cache, now, first, second).verdict == Err::<
            ClaimsView,
            AuthError,
        >(AuthError::NoMatchingKey) ==> run(
            token,
            secret,
            issuer,
            cache,
            now,
            first,
            second,
        ).forced_refreshes == 1,
        run(token, secret, issuer, cache, now, first, second).fetches >= 1 && first is None ==> run(
            token,
            secret,
            issuer,
            cache,
            now,
            first,
            second,
        ).fetches == 1 && run(token, secret, issuer, cache, now, first, second).verdict == Err::<
            ClaimsView,
            AuthError,
        >(AuthError::UpstreamKeyFetchError),
{
    match start_spec(token, secret, issuer, cache, now) {
        StepView::Done(verdict) => {},
        StepView::Fetch(r1) => {
            lemma_forced_refresh_concludes(token, issuer, r1, first, now);
            match resume_spec(token, issuer, r1, first, now) {
                StepView::Done(verdict) => {},
                StepView::Fetch(r2) => {
                    lemma_forced_refresh_concludes(token, issuer, r2, second, now);
                },
            }
        },
    }
}

/// A token of an asymmetric family whose key id is absent from the cached
/// key set, fresh or stale: `run` makes exactly one forced refresh; the
/// verdict is that of the entry with the key id if the refreshed set has
/// one, and that no key matches if it has none. Where the cached set was
/// fresh, the forced refresh is the only fetch and the cache is emptied
/// before it; where it was stale, a plain fetch comes first and `first`
/// lacks the key id too.
pub proof fn lemma_rotation_is_absorbed(
    token: Seq<char>,
    secret: Seq<char>,
    issuer: Seq<char>,
    cache: JwksCacheView,
    now: u64,
    first: Option<Seq<JwkView>>,
    second: Option<Seq<JwkView>>,
)
    requires
        jwt_header(token) matches Some(header) && header.kid is Some && (header.alg.family_spec()
            == AlgorithmFamily::EllipticCurve || header.alg.family_spec() == AlgorithmFamily::Rsa),
        cache.snapshot matches Some(cached) && find_key(
            cached.0,
            jwt_header(token).unwrap().kid.unwrap(),
        ) is None,
        !cache.is_fresh(now) ==> (first matches Some(keys) && find_key(
            keys,
            jwt_header(token).unwrap().kid.unwrap(),
        ) is None),
    ensures
        ({
            let header = jwt_header(token).unwrap();
            let kid = header.kid.unwrap();
            let refreshed = if cache.is_fresh(now) {
                first
            } else {
                second
            };
            let r = run(token, secret, issuer, cache, now, first, second);
            &&& r.forced_refreshes == 1
            &&& r.fetches == if cache.is_fresh(now) {
                1nat
            } else {
                2nat
            }
            &&& r.verdict == match refreshed {
                None => Err::<ClaimsView, AuthError>(AuthError::UpstreamKeyFetchError),
                Some(keys) => match find_key(keys, kid) {
                    Some(jwk) => verdict_with_jwk(token, jwk, header.alg, issuer, now),
                    None => Err(AuthError::NoMatchingKey),
                },
            }
            &&& r.cache == cache_after_fetch(cache.invalidate(), refreshed, now)
        }),
{
}

/// With no key set cached, a token of an asymmetric family whose key id is
/// in the set that the fetch brings costs exactly one fetch, none of them
/// forced, and gets the verdict of its entry; the set is cached, and a
/// token with the same key id that comes less than the time-to-live later
/// costs no fetch.
pub proof fn lemma_first_fetch_serves_later_calls(
    token: Seq<char>,
    later_token: Seq<char>,
    secret: Seq<char>,
    issuer: Seq<char>,
    cache: JwksCacheView,
    now: u64,
    later: u64,
    keys: Seq<JwkView>,
    second: Option<Seq<JwkView>>,
)
    requires
        cache.snapshot is None,
        jwt_header(token) matches Some(header) && header.kid is Some && (header.alg.family_spec()
            == AlgorithmFamily::EllipticCurve || header.alg.family_spec() == AlgorithmFamily::Rsa),
        jwt_header(later_token) matches Some(header) && header.kid == jwt_header(
            token,
        ).unwrap().kid && (header.alg.family_spec() == AlgorithmFamily::EllipticCurve
            || header.alg.family_spec() == AlgorithmFamily::Rsa),
        find_key(keys, jwt_header(token).unwrap().kid.unwrap()) is Some,
        later >= now,
        later - now < cache.ttl,
    ensures
        ({
            let header = jwt_header(token).unwrap();
            let jwk = find_key(keys, header.kid.unwrap()).unwrap();
            let r = run(token, secret, issuer, cache, now, Some(keys), second);
            &&& r.fetches == 1
            &&& r.forced_refreshes == 0
            &&& r.verdict == verdict_with_jwk(token, jwk, header.alg, issuer, now)
            &&& r.cache.get(later, false) == Some(keys)
            &&& run(later_token, secret, issuer, r.cache, later, None, None).fetches == 0
            &&& run(later_token, secret, issuer, r.cache, later, None, None).verdict
                == verdict_with_jwk(
                later_token,
                jwk,
                jwt_header(later_token).unwrap().alg,
                issuer,
                later,
            )
        }),
{
}

} // verus!
