//! Algorithm resolver: reads the token header without trusting it.

use vstd::prelude::*;
use super::error::VerificationError;

verus! {

/// A signing algorithm that a token header can name.
#[derive(Clone, Copy, Debug, PartialEq, Eq, Structural)]
pub enum Algorithm {
    HS256,
    HS384,
    HS512,
    ES256,
    ES384,
    RS256,
    RS384,
    RS512,
    PS256,
    PS384,
    PS512,
    EdDSA,
}

/// The verification path that an algorithm belongs to.
#[derive(Clone, Copy, Debug, PartialEq, Eq, Structural)]
pub enum AlgorithmFamily {
    /// HMAC with the configured shared secret.
    SharedSecret,
    /// ECDSA with a published elliptic-curve key.
    EllipticCurve,
    /// RSASSA-PKCS1-v1_5 with a published RSA key.
    Rsa,
    /// Anything else; such a token is always rejected.
    Unsupported,
}

impl Algorithm {
    /// The family of each algorithm.
    pub open spec fn family_spec(self) -> AlgorithmFamily {
        match self {
            Algorithm::HS256 | Algorithm::HS384 | Algorithm::HS512 => AlgorithmFamily::SharedSecret,
            Algorithm::ES256 | Algorithm::ES384 => AlgorithmFamily::EllipticCurve,
            Algorithm::RS256 | Algorithm::RS384 | Algorithm::RS512 => AlgorithmFamily::Rsa,
            _ => AlgorithmFamily::Unsupported,
        }
    }

    /// The name under which the algorithm is registered for token headers.
    pub open spec fn name_spec(self) -> Seq<char> {
        match self {
            Algorithm::HS256 => "HS256"@,
            Algorithm::HS384 => "HS384"@,
            Algorithm::HS512 => "HS512"@,
            Algorithm::ES256 => "ES256"@,
            Algorithm::ES384 => "ES384"@,
            Algorithm::RS256 => "RS256"@,
            Algorithm::RS384 => "RS384"@,
            Algorithm::RS512 => "RS512"@,
            Algorithm::PS256 => "PS256"@,
            Algorithm::PS384 => "PS384"@,
            Algorithm::PS512 => "PS512"@,
            Algorithm::EdDSA => "EdDSA"@,
        }
    }

    /// The name under which the algorithm is registered for token headers.
    pub fn name(self) -> (n: &'static str)
        ensures
            n@ == self.name_spec(),
    {
        match self {
            Algorithm::HS256 => "HS256",
            Algorithm::HS384 => "HS384",
            Algorithm::HS512 => "HS512",
            Algorithm::ES256 => "ES256",
            Algorithm::ES384 => "ES384",
            Algorithm::RS256 => "RS256",
            Algorithm::RS384 => "RS384",
            Algorithm::RS512 => "RS512",
            Algorithm::PS256 => "PS256",
            Algorithm::PS384 => "PS384",
            Algorithm::PS512 => "PS512",
            Algorithm::EdDSA => "EdDSA",
        }
    }

    /// Classifies the algorithm into exactly one family.
    #[verifier::when_used_as_spec(family_spec)]
    pub fn family(self) -> (f: AlgorithmFamily)
        ensures
            f == self.family_spec(),
    {
        match self {
            Algorithm::HS256 | Algorithm::HS384 | Algorithm::HS512 => AlgorithmFamily::SharedSecret,
            Algorithm::ES256 | Algorithm::ES384 => AlgorithmFamily::EllipticCurve,
            Algorithm::RS256 | Algorithm::RS384 | Algorithm::RS512 => AlgorithmFamily::Rsa,
            Algorithm::PS256 | Algorithm::PS384 | Algorithm::PS512 | Algorithm::EdDSA => {
                AlgorithmFamily::Unsupported
            },
        }
    }
}

/// What a token header says: an untrusted hint until the token is verified.
#[derive(Debug)]
pub struct TokenHeader {
    pub alg: Algorithm,
    pub kid: Option<String>,
}

/// The mathematical value of a `TokenHeader`.
pub struct TokenHeaderView {
    pub alg: Algorithm,
    pub kid: Option<Seq<char>>,
}

impl View for TokenHeader {
    type V = TokenHeaderView;

    open spec fn view(&self) -> TokenHeaderView {
        TokenHeaderView {
            alg: self.alg,
            kid: match self.kid {
                Some(k) => Some(k@),
                None => None,
            },
        }
    }
}

impl TokenHeader {
    /// The verification path that the header points to.
    pub fn family(&self) -> (f: AlgorithmFamily)
        ensures
            f == self@.alg.family_spec(),
    {
        self.alg.family()
    }
}

/// The header that `jsonwebtoken::decode_header` reads from a token, or
/// `None` where it reports an error.
pub uninterp spec fn jwt_header(token: Seq<char>) -> Option<TokenHeaderView>;

/// Calls `jsonwebtoken::decode_header`. The contract claims only that the
/// result is a function of the token's text; the algorithm is carried over
/// variant by variant and the key id as it stands.
#[verifier::external_body]
fn decode_header(token: &str) -> (r: Option<TokenHeader>)
    ensures
        match r {
            Some(h) => jwt_header(token@) == Some(h@),
            None => jwt_header(token@) is None,
        },
{
    let header = jsonwebtoken::decode_header(token).ok()?;
    Some(TokenHeader { kid: header.kid, alg: match header.alg {
        jsonwebtoken::Algorithm::HS256 => Algorithm::HS256,
        jsonwebtoken::Algorithm::HS384 => Algorithm::HS384,
        jsonwebtoken::Algorithm::HS512 => Algorithm::HS512,
        jsonwebtoken::Algorithm::ES256 => Algorithm::ES256,
        jsonwebtoken::Algorithm::ES384 => Algorithm::ES384,
        jsonwebtoken::Algorithm::RS256 => Algorithm::RS256,
        jsonwebtoken::Algorithm::RS384 => Algorithm::RS384,
        jsonwebtoken::Algorithm::RS512 => Algorithm::RS512,
        jsonwebtoken::Algorithm::PS256 => Algorithm::PS256,
        jsonwebtoken::Algorithm::PS384 => Algorithm::PS384,
        jsonwebtoken::Algorithm::PS512 => Algorithm::PS512,
        jsonwebtoken::Algorithm::EdDSA => Algorithm::EdDSA,
    } })
}

/// Reads the algorithm and the key id from a token's header. The signature
/// is not looked at, so the result is a hint and nothing more. A header
/// that cannot be decoded, or that names no known algorithm ("none" among
/// them), is a malformed token.
pub fn resolve_algorithm(token: &str) -> (r: Result<TokenHeader, VerificationError>)
    ensures
        match r {
            Ok(h) => jwt_header(token@) == Some(h@),
            Err(e) => e == VerificationError::MalformedToken && jwt_header(token@) is None,
        },
{
    match decode_header(token) {
        Some(h) => Ok(h),
        None => Err(VerificationError::MalformedToken),
    }
}

} // verus!
