//! Verification: the signature first, then expiry, audience and issuer.

use vstd::prelude::*;
use jsonwebtoken::{DecodingKey, Validation};
use crate::text::str_eq;
use super::algorithm::{Algorithm, AlgorithmFamily};
use super::claims::{claims_of, members, Claims, ClaimsView, JsonMemberView};
use super::error::VerificationError;
use super::key::{KeyMaterial, KeyMaterialView};

verus! {

/// Seconds by which a token may be past its expiry and still be taken.
/// None: an expiry must lie strictly after the present instant.
pub const EXPIRY_LEEWAY: u64 = 0;

/// Why the token crate turned a token down.
#[derive(Clone, Copy, Debug, PartialEq, Eq, Structural)]
enum DecodeFailure {
    /// The key's components are no base64url text.
    Key,
    /// The token is malformed, is not of the algorithm asked for, or is not
    /// signed by the key.
    Token,
}

/// The three outcomes of decoding a token under a key.
pub enum Decoded {
    KeyRejected,
    TokenRejected,
    /// The signature holds; these are the members of the payload.
    Payload(Map<Seq<char>, JsonMemberView>),
}

/// What `jsonwebtoken::decode` makes of a token under a key and for the
/// algorithm of a given name, with no claim checked: the key is built from
/// its components, the token is taken apart and its signature verified.
pub uninterp spec fn signed_payload(
    token: Seq<char>,
    key: KeyMaterialView,
    algorithm: Seq<char>,
) -> Decoded;

/// Calls `jsonwebtoken::decode` for a JSON value. The algorithm is read
/// from its name by `Algorithm::from_str`; the key is made by
/// `DecodingKey::from_secret`, `from_ec_components` or
/// `from_rsa_components`; the validation is that of `Validation::new` with
/// the checks of expiry and audience switched off and no claim required, so
/// that no clock is read. The contract claims that the outcome is a
/// function of the three arguments, and that a value handed back holds the
/// payload named by `signed_payload`.
#[verifier::external_body]
fn decode_signed(token: &str, key: &KeyMaterial, algorithm: &str) -> (r: Result<
    serde_json::Value,
    DecodeFailure,
>)
    ensures
        match r {
            Ok(payload) => signed_payload(token@, key@, algorithm@) == Decoded::Payload(
                members(payload),
            ),
            Err(DecodeFailure::Key) => signed_payload(token@, key@, algorithm@)
                == Decoded::KeyRejected,
            Err(DecodeFailure::Token) => signed_payload(token@, key@, algorithm@)
                == Decoded::TokenRejected,
        },
{
    let Ok(alg) = algorithm.parse::<jsonwebtoken::Algorithm>() else { return Err(DecodeFailure::Token) };
    let Ok(key) = (match key {
        KeyMaterial::Secret(secret) => Ok(DecodingKey::from_secret(secret)),
        KeyMaterial::EllipticCurve { x, y } => DecodingKey::from_ec_components(x, y),
        KeyMaterial::Rsa { n, e } => DecodingKey::from_rsa_components(n, e),
    }) else { return Err(DecodeFailure::Key) };
    let mut validation = Validation::new(alg);
    validation.validate_exp = false;
    validation.validate_aud = false;
    validation.required_spec_claims.clear();
    match jsonwebtoken::decode::<serde_json::Value>(token, &key, &validation) {
        Ok(data) => Ok(data.claims),
        Err(_) => Err(DecodeFailure::Token),
    }
}

/// The checks on a claim set whose signature holds, in the order in which a
/// failure is reported: expiry, audience, issuer.
pub open spec fn claims_verdict(
    claims: ClaimsView,
    expected_audience: Seq<char>,
    expected_issuer: Seq<char>,
    now: u64,
) -> Result<(), VerificationError> {
    if claims.exp + EXPIRY_LEEWAY <= now {
        Err(VerificationError::Expired)
    } else if claims.aud != expected_audience {
        Err(VerificationError::AudienceMismatch)
    } else if claims.iss != expected_issuer {
        Err(VerificationError::IssuerMismatch)
    } else {
        Ok(())
    }
}

/// Checks expiry, audience and issuer of a claim set, and hands the claim
/// set back if all three hold.
pub fn check_claims(claims: Claims, expected_audience: &str, expected_issuer: &str, now: u64) -> (r:
    Result<Claims, VerificationError>)
    ensures
        match r {
            Ok(c) => c == claims && claims_verdict(claims@, expected_audience@, expected_issuer@, now)
                is Ok,
            Err(e) => claims_verdict(claims@, expected_audience@, expected_issuer@, now) == Err::<
                (),
                VerificationError,
            >(e),
        },
{
    let deadline: i128 = claims.exp as i128 + EXPIRY_LEEWAY as i128;
    if deadline <= now as i128 {
        Err(VerificationError::Expired)
    } else if !str_eq(claims.aud.as_str(), expected_audience) {
        Err(VerificationError::AudienceMismatch)
    } else if !str_eq(claims.iss.as_str(), expected_issuer) {
        Err(VerificationError::IssuerMismatch)
    } else {
        Ok(claims)
    }
}

/// The result of a verification, given what decoding made of the token:
/// an algorithm outside the supported families is refused, then a key of
/// another family than the algorithm's; then the signature decides, then
/// the shape of the claims, then expiry, audience and issuer.
pub open spec fn verify_spec(
    decoded: Decoded,
    key: KeyMaterialView,
    algorithm: Algorithm,
    expected_audience: Seq<char>,
    expected_issuer: Seq<char>,
    now: u64,
) -> Result<ClaimsView, VerificationError> {
    if algorithm.family_spec() == AlgorithmFamily::Unsupported {
        Err(VerificationError::UnsupportedAlgorithm)
    } else if key.family() != algorithm.family_spec() {
        Err(VerificationError::InvalidKey)
    } else {
        match decoded {
            Decoded::KeyRejected => Err(VerificationError::InvalidKey),
            Decoded::TokenRejected => Err(VerificationError::InvalidSignature),
            Decoded::Payload(m) => match claims_of(m) {
                None => Err(VerificationError::MalformedClaims),
                Some(claims) => match claims_verdict(
                    claims,
                    expected_audience,
                    expected_issuer,
                    now,
                ) {
                    Ok(_) => Ok(claims),
                    Err(e) => Err(e),
                },
            },
        }
    }
}

/// What `verify` returns for a token: `verify_spec` of what decoding makes
/// of it.
pub open spec fn verify_result(
    token: Seq<char>,
    key: KeyMaterialView,
    algorithm: Algorithm,
    expected_audience: Seq<char>,
    expected_issuer: Seq<char>,
    now: u64,
) -> Result<ClaimsView, VerificationError> {
    verify_spec(
        signed_payload(token, key, algorithm.name_spec()),
        key,
        algorithm,
        expected_audience,
        expected_issuer,
        now,
    )
}

/// Verifies a token under a key: the claims if the signature holds for
/// `algorithm`, the claim set is well formed, the expiry lies after `now`
/// and audience and issuer are the expected ones; else the first check
/// that failed.
pub fn verify(
    token: &str,
    key: &KeyMaterial,
    algorithm: Algorithm,
    expected_audience: &str,
    expected_issuer: &str,
    now: u64,
) -> (r: Result<Claims, VerificationError>)
    ensures
        match r {
            Ok(c) => verify_result(token@, key@, algorithm, expected_audience@, expected_issuer@, now)
                == Ok::<ClaimsView, VerificationError>(c@),
            Err(e) => verify_result(token@, key@, algorithm, expected_audience@, expected_issuer@, now)
                == Err::<ClaimsView, VerificationError>(e),
        },
{
    let family = algorithm.family();
    if family == AlgorithmFamily::Unsupported {
        return Err(VerificationError::UnsupportedAlgorithm);
    }
    if key.family() != family {
        return Err(VerificationError::InvalidKey);
    }
    match decode_signed(token, key, algorithm.name()) {
        Err(DecodeFailure::Key) => Err(VerificationError::InvalidKey),
        Err(DecodeFailure::Token) => Err(VerificationError::InvalidSignature),
        Ok(payload) => {
            let claims = Claims::from_payload(&payload)?;
            check_claims(claims, expected_audience, expected_issuer, now)
        },
    }
}

/// A token that is signed by a key of its algorithm's family, whose claim
/// set is well formed, whose expiry lies after `now` and whose audience and
/// issuer are the expected ones is accepted, and its claims are handed out
/// as they stand in the payload.
pub proof fn lemma_valid_token_is_accepted(
    payload: Map<Seq<char>, JsonMemberView>,
    key: KeyMaterialView,
    algorithm: Algorithm,
    expected_audience: Seq<char>,
    expected_issuer: Seq<char>,
    now: u64,
)
    requires
        algorithm.family_spec() != AlgorithmFamily::Unsupported,
        key.family() == algorithm.family_spec(),
        claims_of(payload) is Some,
        claims_of(payload).unwrap().exp + EXPIRY_LEEWAY > now,
        claims_of(payload).unwrap().aud == expected_audience,
        claims_of(payload).unwrap().iss == expected_issuer,
    ensures
        verify_spec(
            Decoded::Payload(payload),
            key,
            algorithm,
            expected_audience,
            expected_issuer,
            now,
        ) == Ok::<ClaimsView, VerificationError>(claims_of(payload).unwrap()),
{
}

/// A token whose expiry does not lie after `now` is never accepted,
/// whatever its signature; where the signature holds and the claim set is
/// well formed it fails as expired, whatever its audience and issuer.
pub proof fn lemma_expired_token_is_rejected(
    decoded: Decoded,
    key: KeyMaterialView,
    algorithm: Algorithm,
    expected_audience: Seq<char>,
    expected_issuer: Seq<char>,
    now: u64,
)
    requires
        decoded matches Decoded::Payload(payload) ==> claims_of(payload) matches Some(claims)
            ==> claims.exp + EXPIRY_LEEWAY <= now,
    ensures
        verify_spec(decoded, key, algorithm, expected_audience, expected_issuer, now) is Err,
        algorithm.family_spec() != AlgorithmFamily::Unsupported && key.family()
            == algorithm.family_spec() && decoded is Payload && claims_of(decoded->Payload_0)
            is Some ==> verify_spec(
            decoded,
            key,
            algorithm,
            expected_audience,
            expected_issuer,
            now,
        ) == Err::<ClaimsView, VerificationError>(VerificationError::Expired),
{
}

/// A token whose audience is not the expected one is never accepted, not
/// even with a signature that holds; where the signature holds, the claim
/// set is well formed and the expiry lies after `now`, it fails on the
/// audience.
pub proof fn lemma_wrong_audience_is_rejected(
    decoded: Decoded,
    key: KeyMaterialView,
    algorithm: Algorithm,
    expected_audience: Seq<char>,
    expected_issuer: Seq<char>,
    now: u64,
)
    requires
        decoded matches Decoded::Payload(payload) ==> claims_of(payload) matches Some(claims)
            ==> claims.aud != expected_audience,
    ensures
        verify_spec(decoded, key, algorithm, expected_audience, expected_issuer, now) is Err,
        algorithm.family_spec() != AlgorithmFamily::Unsupported && key.family()
            == algorithm.family_spec() && decoded is Payload && claims_of(decoded->Payload_0)
            is Some && claims_of(decoded->Payload_0).unwrap().exp + EXPIRY_LEEWAY > now
            ==> verify_spec(
            decoded,
            key,
            algorithm,
            expected_audience,
            expected_issuer,
            now,
        ) == Err::<ClaimsView, VerificationError>(VerificationError::AudienceMismatch),
{
}

/// A token whose issuer is not the expected one is never accepted.
pub proof fn lemma_wrong_issuer_is_rejected(
    decoded: Decoded,
    key: KeyMaterialView,
    algorithm: Algorithm,
    expected_audience: Seq<char>,
    expected_issuer: Seq<char>,
    now: u64,
)
    requires
        decoded matches Decoded::Payload(payload) ==> claims_of(payload) matches Some(claims)
            ==> claims.iss != expected_issuer,
    ensures
        verify_spec(decoded, key, algorithm, expected_audience, expected_issuer, now) is Err,
{
}

/// No token is accepted for an algorithm outside the supported families,
/// nor under a key of another family than its algorithm's, nor without a
/// signature that holds.
pub proof fn lemma_no_unverified_path(
    decoded: Decoded,
    key: KeyMaterialView,
    algorithm: Algorithm,
    expected_audience: Seq<char>,
    expected_issuer: Seq<char>,
    now: u64,
)
    requires
        verify_spec(decoded, key, algorithm, expected_audience, expected_issuer, now) is Ok,
    ensures
        algorithm.family_spec() != AlgorithmFamily::Unsupported,
        key.family() == algorithm.family_spec(),
        decoded is Payload,
        claims_of(decoded->Payload_0) == Some(
            verify_spec(decoded, key, algorithm, expected_audience, expected_issuer, now)->Ok_0,
        ),
{
}

} // verus!
