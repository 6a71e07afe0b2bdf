//! Why a token or a request was turned down.

use vstd::prelude::*;

verus! {

/// The precise reason for which a token failed. It is kept for the server's
/// log and never shown to the caller.
#[derive(Clone, Copy, Debug, PartialEq, Eq, Structural)]
pub enum VerificationError {
    /// The token header cannot be decoded.
    MalformedToken,
    /// The header names an algorithm outside the three supported families.
    UnsupportedAlgorithm,
    /// A shared-secret token arrived and no secret is configured.
    MissingSecret,
    /// A token of an asymmetric family carries no key id.
    MissingKeyId,
    /// The key entry does not fit the algorithm family, or lacks components.
    InvalidKey,
    /// The token is not signed by the key.
    InvalidSignature,
    /// A claim is missing or has the wrong type.
    MalformedClaims,
    /// The expiry is not after the present instant.
    Expired,
    /// The audience is not the expected one.
    AudienceMismatch,
    /// The issuer is not the expected one.
    IssuerMismatch,
}

/// The outcome classes of the gateway.
#[derive(Clone, Copy, Debug, PartialEq, Eq, Structural)]
pub enum AuthError {
    /// The authorization header is absent or is no bearer credential.
    Unauthorized,
    /// The token was read and turned down.
    InvalidToken(VerificationError),
    /// The key set could not be fetched or parsed.
    UpstreamKeyFetchError,
    /// The key id is in no key set, not even after a forced refresh.
    NoMatchingKey,
}

/// The status with which every rejection is answered.
pub const REJECTION_STATUS: u16 = 401;

impl AuthError {
    /// The HTTP status of the rejection: the same for every reason.
    pub fn status_code(&self) -> (status: u16)
        ensures
            status == REJECTION_STATUS,
    {
        REJECTION_STATUS
    }

    /// The name under which the rejection is logged on the server.
    pub fn log_label(&self) -> (label: &'static str)
        ensures
            label@ == self.log_label_spec(),
    {
        match self {
            AuthError::Unauthorized => "unauthorized",
            AuthError::InvalidToken(reason) => match reason {
                VerificationError::MalformedToken => "malformed_token",
                VerificationError::UnsupportedAlgorithm => "unsupported_algorithm",
                VerificationError::MissingSecret => "missing_secret",
                VerificationError::MissingKeyId => "missing_key_id",
                VerificationError::InvalidKey => "invalid_key",
                VerificationError::InvalidSignature => "invalid_signature",
                VerificationError::MalformedClaims => "malformed_claims",
                VerificationError::Expired => "expired",
                VerificationError::AudienceMismatch => "audience_mismatch",
                VerificationError::IssuerMismatch => "issuer_mismatch",
            },
            AuthError::UpstreamKeyFetchError => "upstream_key_fetch_error",
            AuthError::NoMatchingKey => "no_matching_key",
        }
    }

    /// The label of each rejection.
    pub open spec fn log_label_spec(&self) -> Seq<char> {
        match self {
            AuthError::Unauthorized => "unauthorized"@,
            AuthError::InvalidToken(reason) => match reason {
                VerificationError::MalformedToken => "malformed_token"@,
                VerificationError::UnsupportedAlgorithm => "unsupported_algorithm"@,
                VerificationError::MissingSecret => "missing_secret"@,
                VerificationError::MissingKeyId => "missing_key_id"@,
                VerificationError::InvalidKey => "invalid_key"@,
                VerificationError::InvalidSignature => "invalid_signature"@,
                VerificationError::MalformedClaims => "malformed_claims"@,
                VerificationError::Expired => "expired"@,
                VerificationError::AudienceMismatch => "audience_mismatch"@,
                VerificationError::IssuerMismatch => "issuer_mismatch"@,
            },
            AuthError::UpstreamKeyFetchError => "upstream_key_fetch_error"@,
            AuthError::NoMatchingKey => "no_matching_key"@,
        }
    }
}

} // verus!
