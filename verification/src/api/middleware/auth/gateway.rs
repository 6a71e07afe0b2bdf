//! The gateway as a request meets it: header in, identity or rejection out.

use vstd::prelude::*;
use vstd::string::*;
use vstd::utf8::encode_utf8;
use crate::api::validation::canonical_uuid;
use crate::config::{issuer_of, Config, EXPECTED_AUDIENCE};
use super::algorithm::{jwt_header, AlgorithmFamily};
use super::claims::{claims_of, member_at, JsonMemberView};
use super::error::AuthError;
use super::identity::{bearer_of, bearer_token, identity_of, AuthUser, AuthUserView};
use super::jwks::{find_key, Jwks, JwksCache, JwksCacheView};
use super::key::{key_for, KeyMaterialView};
use super::resolution::{
    resume_spec, resume_validation, start_spec, validate_jwt, KeyRequest, KeyRequestView, Step,
    StepView,
};
use super::verification::{signed_payload, Decoded, EXPIRY_LEEWAY};

verus! {

/// What the gateway does next for a request.
#[derive(Debug)]
pub enum Authentication {
    /// The key set is needed: fetch it and resume.
    Fetch(KeyRequest),
    /// The request proceeds with this identity.
    Accepted(AuthUser),
    /// The request is answered with the rejection status.
    Rejected(AuthError),
}

/// The mathematical value of an `Authentication`.
pub enum AuthenticationView {
    Fetch(KeyRequestView),
    Accepted(AuthUserView),
    Rejected(AuthError),
}

impl View for Authentication {
    type V = AuthenticationView;

    open spec fn view(&self) -> AuthenticationView {
        match self {
            Authentication::Fetch(request) => AuthenticationView::Fetch(request@),
            Authentication::Accepted(user) => AuthenticationView::Accepted(user@),
            Authentication::Rejected(e) => AuthenticationView::Rejected(*e),
        }
    }
}

/// What a step on the token means for the request that carried it.
pub open spec fn outcome_of(step: StepView, token: Seq<char>) -> AuthenticationView {
    match step {
        StepView::Fetch(request) => AuthenticationView::Fetch(request),
        StepView::Done(Ok(claims)) => AuthenticationView::Accepted(identity_of(claims, token)),
        StepView::Done(Err(e)) => AuthenticationView::Rejected(e),
    }
}

/// The first step for a request: without a bearer token it is
/// unauthorized, with one the token's first step decides.
pub open spec fn authenticate_spec(
    authorization: Option<Seq<char>>,
    secret: Seq<char>,
    issuer: Seq<char>,
    cache: JwksCacheView,
    now: u64,
) -> AuthenticationView {
    match bearer_of(authorization) {
        None => AuthenticationView::Rejected(AuthError::Unauthorized),
        Some(token) => outcome_of(start_spec(token, secret, issuer, cache, now), token),
    }
}

/// Turns a step on the token into the request's outcome.
fn conclude(step: Step, token: &str) -> (r: Authentication)
    ensures
        r@ == outcome_of(step@, token@),
{
    match step {
        Step::Fetch(request) => Authentication::Fetch(request),
        Step::Done(Ok(claims)) => Authentication::Accepted(AuthUser::from_claims(claims, token)),
        Step::Done(Err(e)) => Authentication::Rejected(e),
    }
}

/// Authenticates a request by its authorization header, as far as that
/// goes without fetching: the identity, a rejection, or a request for the
/// key set.
pub fn auth_middleware(
    authorization: Option<&str>,
    config: &Config,
    cache: &JwksCache,
    now: u64,
) -> (r: Authentication)
    ensures
        r@ == authenticate_spec(
            authorization.deep_view(),
            config.supabase_jwt_secret@,
            issuer_of(config.supabase_url@),
            cache@,
            now,
        ),
{
    match bearer_token(authorization) {
        Err(e) => Authentication::Rejected(e),
        Ok(token) => conclude(validate_jwt(token, config, cache, now), token),
    }
}

/// Goes on with a request after the fetch made for `request`; `fetched` is
/// the key set that came back, or `None` where the fetch failed.
pub fn resume_auth_middleware(
    token: &str,
    config: &Config,
    request: KeyRequest,
    fetched: Option<&Jwks>,
    now: u64,
) -> (r: Authentication)
    ensures
        r@ == outcome_of(
            resume_spec(
                token@,
                issuer_of(config.supabase_url@),
                request@,
                match fetched {
                    Some(keys) => Some(keys@),
                    None => None,
                },
                now,
            ),
            token@,
        ),
{
    conclude(resume_validation(token, config, request, fetched, now), token)
}

/// An identity is all or nothing: a request is accepted only on a verdict
/// that accepted its token, and the identity is then the one that the
/// verified claims give; every other verdict rejects it.
pub proof fn lemma_identity_is_all_or_nothing(step: StepView, token: Seq<char>)
    ensures
        outcome_of(step, token) matches AuthenticationView::Accepted(user) ==> step
            matches StepView::Done(Ok(claims)) && user == identity_of(claims, token) && user.user_id
            == claims.sub,
        step matches StepView::Done(Err(e)) ==> outcome_of(step, token)
            == AuthenticationView::Rejected(e),
{
}

/// A request is accepted where its bearer token is signed with the
/// configured shared secret, its claim set is well formed, its expiry lies
/// after `now`, its audience is the expected one and its issuer that of
/// the provider. The caller id is then the subject that the token carries,
/// in canonical form. No key set is asked for.
pub proof fn lemma_signed_request_is_accepted(
    authorization: Option<Seq<char>>,
    secret: Seq<char>,
    issuer: Seq<char>,
    cache: JwksCacheView,
    now: u64,
    payload: Map<Seq<char>, JsonMemberView>,
)
    requires
        bearer_of(authorization) is Some,
        jwt_header(bearer_of(authorization).unwrap()) matches Some(header)
            && header.alg.family_spec() == AlgorithmFamily::SharedSecret && signed_payload(
            bearer_of(authorization).unwrap(),
            KeyMaterialView::Secret(encode_utf8(secret)),
            header.alg.name_spec(),
        ) == Decoded::Payload(payload),
        secret.len() > 0,
        claims_of(payload) is Some,
        claims_of(payload).unwrap().exp + EXPIRY_LEEWAY > now,
        claims_of(payload).unwrap().aud == EXPECTED_AUDIENCE@,
        claims_of(payload).unwrap().iss == issuer,
    ensures
        authenticate_spec(authorization, secret, issuer, cache, now)
            == AuthenticationView::Accepted(
            identity_of(claims_of(payload).unwrap(), bearer_of(authorization).unwrap()),
        ),
        identity_of(claims_of(payload).unwrap(), bearer_of(authorization).unwrap()).user_id
            == canonical_uuid(member_at(payload, "sub"@)->Text_0).unwrap(),
{
}

/// A request is accepted where its bearer token names a key id of the
/// fresh cached key set, is signed by the key that the entry yields for its
/// algorithm, and carries well-formed claims with an expiry after `now`,
/// the expected audience and the provider's issuer. The caller id is then
/// the subject that the token carries. No key set is asked for.
pub proof fn lemma_request_under_cached_key_is_accepted(
    authorization: Option<Seq<char>>,
    secret: Seq<char>,
    issuer: Seq<char>,
    cache: JwksCacheView,
    now: u64,
    payload: Map<Seq<char>, JsonMemberView>,
)
    requires
        bearer_of(authorization) is Some,
        cache.is_fresh(now),
        ({
            let token = bearer_of(authorization).unwrap();
            let header = jwt_header(token).unwrap();
            let jwk = find_key(cache.snapshot.unwrap().0, header.kid.unwrap()).unwrap();
            &&& jwt_header(token) is Some
            &&& header.alg.family_spec() == AlgorithmFamily::EllipticCurve
                || header.alg.family_spec() == AlgorithmFamily::Rsa
            &&& header.kid is Some
            &&& find_key(cache.snapshot.unwrap().0, header.kid.unwrap()) is Some
            &&& key_for(jwk, header.alg) is Ok
            &&& signed_payload(token, key_for(jwk, header.alg)->Ok_0, header.alg.name_spec())
                == Decoded::Payload(payload)
        }),
        claims_of(payload) is Some,
        claims_of(payload).unwrap().exp + EXPIRY_LEEWAY > now,
        claims_of(payload).unwrap().aud == EXPECTED_AUDIENCE@,
        claims_of(payload).unwrap().iss == issuer,
    ensures
        authenticate_spec(authorization, secret, issuer, cache, now)
            == AuthenticationView::Accepted(
            identity_of(claims_of(payload).unwrap(), bearer_of(authorization).unwrap()),
        ),
        identity_of(claims_of(payload).unwrap(), bearer_of(authorization).unwrap()).user_id
            == canonical_uuid(member_at(payload, "sub"@)->Text_0).unwrap(),
{
    let token = bearer_of(authorization).unwrap();
    let header = jwt_header(token).unwrap();
    let jwk = find_key(cache.snapshot.unwrap().0, header.kid.unwrap()).unwrap();
    super::key::lemma_key_type_is_cross_checked(jwk, header.alg);
}

} // verus!
