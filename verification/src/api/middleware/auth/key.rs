//! Key material builder: turns a key-set entry into a verification key for
//! one algorithm family, and refuses every other pairing.

use vstd::prelude::*;
use vstd::string::*;
use crate::text::str_eq;
use super::algorithm::{Algorithm, AlgorithmFamily};
use super::error::VerificationError;
use super::jwks::{Jwk, JwkView};

verus! {

/// A verification key, tagged by the family that it serves. The components
/// of the published keys are base64url text, as in the key set.
#[derive(Debug)]
pub enum KeyMaterial {
    Secret(Vec<u8>),
    EllipticCurve { x: String, y: String },
    Rsa { n: String, e: String },
}

/// The mathematical value of a `KeyMaterial`.
pub enum KeyMaterialView {
    Secret(Seq<u8>),
    EllipticCurve { x: Seq<char>, y: Seq<char> },
    Rsa { n: Seq<char>, e: Seq<char> },
}

impl View for KeyMaterial {
    type V = KeyMaterialView;

    open spec fn view(&self) -> KeyMaterialView {
        match self {
            KeyMaterial::Secret(bytes) => KeyMaterialView::Secret(bytes@),
            KeyMaterial::EllipticCurve { x, y } => KeyMaterialView::EllipticCurve { x: x@, y: y@ },
            KeyMaterial::Rsa { n, e } => KeyMaterialView::Rsa { n: n@, e: e@ },
        }
    }
}

impl KeyMaterialView {
    /// The one family that a key may verify.
    pub open spec fn family(self) -> AlgorithmFamily {
        match self {
            KeyMaterialView::Secret(_) => AlgorithmFamily::SharedSecret,
            KeyMaterialView::EllipticCurve { .. } => AlgorithmFamily::EllipticCurve,
            KeyMaterialView::Rsa { .. } => AlgorithmFamily::Rsa,
        }
    }
}

impl KeyMaterial {
    /// The one family that this key may verify.
    pub fn family(&self) -> (f: AlgorithmFamily)
        ensures
            f == self@.family(),
    {
        match self {
            KeyMaterial::Secret(_) => AlgorithmFamily::SharedSecret,
            KeyMaterial::EllipticCurve { .. } => AlgorithmFamily::EllipticCurve,
            KeyMaterial::Rsa { .. } => AlgorithmFamily::Rsa,
        }
    }

    /// The key of the shared-secret family: the secret's bytes.
    pub fn from_secret(secret: &str) -> (key: KeyMaterial)
        ensures
            key@ == KeyMaterialView::Secret(secret.spec_bytes()),
    {
        KeyMaterial::Secret(secret.as_bytes_vec())
    }
}

/// The key that an entry yields for an algorithm: an elliptic-curve
/// algorithm takes an entry of type "EC" with both coordinates, an RSA
/// algorithm one of type "RSA" with modulus and exponent. An entry of
/// another type, or without its components, is an invalid key; an algorithm
/// of another family is unsupported here.
pub open spec fn key_for(jwk: JwkView, algorithm: Algorithm) -> Result<
    KeyMaterialView,
    VerificationError,
> {
    match algorithm.family_spec() {
        AlgorithmFamily::EllipticCurve => if jwk.kty == "EC"@ && jwk.x is Some && jwk.y is Some {
            Ok(KeyMaterialView::EllipticCurve { x: jwk.x.unwrap(), y: jwk.y.unwrap() })
        } else {
            Err(VerificationError::InvalidKey)
        },
        AlgorithmFamily::Rsa => if jwk.kty == "RSA"@ && jwk.n is Some && jwk.e is Some {
            Ok(KeyMaterialView::Rsa { n: jwk.n.unwrap(), e: jwk.e.unwrap() })
        } else {
            Err(VerificationError::InvalidKey)
        },
        _ => Err(VerificationError::UnsupportedAlgorithm),
    }
}

/// Builds the verification key for `algorithm` from one key-set entry.
/// This is the one place where key type and algorithm family are held
/// against each other.
pub fn decoding_key_from_jwk(jwk: &Jwk, algorithm: Algorithm) -> (r: Result<
    KeyMaterial,
    VerificationError,
>)
    ensures
        match r {
            Ok(key) => key_for(jwk@, algorithm) == Ok::<KeyMaterialView, VerificationError>(key@),
            Err(e) => key_for(jwk@, algorithm) == Err::<KeyMaterialView, VerificationError>(e),
        },
{
    match algorithm.family() {
        AlgorithmFamily::EllipticCurve => {
            if !str_eq(jwk.kty.as_str(), "EC") {
                return Err(VerificationError::InvalidKey);
            }
            match (&jwk.x, &jwk.y) {
                (Some(x), Some(y)) => Ok(KeyMaterial::EllipticCurve { x: x.clone(), y: y.clone() }),
                _ => Err(VerificationError::InvalidKey),
            }
        },
        AlgorithmFamily::Rsa => {
            if !str_eq(jwk.kty.as_str(), "RSA") {
                return Err(VerificationError::InvalidKey);
            }
            match (&jwk.n, &jwk.e) {
                (Some(n), Some(e)) => Ok(KeyMaterial::Rsa { n: n.clone(), e: e.clone() }),
                _ => Err(VerificationError::InvalidKey),
            }
        },
        _ => Err(VerificationError::UnsupportedAlgorithm),
    }
}

/// A key entry serves only the family of its own type: an entry that is not
/// of type "EC" never yields a key for an elliptic-curve algorithm, one that
/// is not of type "RSA" never yields a key for an RSA algorithm, and each
/// such pairing fails as an invalid key. In particular an RSA entry fed to
/// an elliptic-curve algorithm fails so, and an elliptic-curve entry fed to
/// an RSA algorithm. A key that is built belongs to the algorithm's family.
pub proof fn lemma_key_type_is_cross_checked(jwk: JwkView, algorithm: Algorithm)
    ensures
        algorithm.family_spec() == AlgorithmFamily::EllipticCurve && jwk.kty != "EC"@ ==> key_for(
            jwk,
            algorithm,
        ) == Err::<KeyMaterialView, VerificationError>(VerificationError::InvalidKey),
        algorithm.family_spec() == AlgorithmFamily::Rsa && jwk.kty != "RSA"@ ==> key_for(
            jwk,
            algorithm,
        ) == Err::<KeyMaterialView, VerificationError>(VerificationError::InvalidKey),
        algorithm.family_spec() == AlgorithmFamily::EllipticCurve && jwk.kty == "RSA"@ ==> key_for(
            jwk,
            algorithm,
        ) == Err::<KeyMaterialView, VerificationError>(VerificationError::InvalidKey),
        algorithm.family_spec() == AlgorithmFamily::Rsa && jwk.kty == "EC"@ ==> key_for(
            jwk,
            algorithm,
        ) == Err::<KeyMaterialView, VerificationError>(VerificationError::InvalidKey),
        key_for(jwk, algorithm) matches Ok(key) ==> key.family() == algorithm.family_spec(),
{
    reveal_strlit("EC");
    reveal_strlit("RSA");
    assert("EC"@.len() != "RSA"@.len());
}

} // verus!
