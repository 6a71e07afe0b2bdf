//! Bearer-token authentication.
//!
//! A request is authenticated in five steps, each in a module of its own:
//! the token header is read as an untrusted hint (`algorithm`), a key is
//! taken from the shared secret or from the cached key set (`jwks`) and
//! cross-checked against the algorithm family (`key`), the signature and
//! the claims are checked (`claims`, `verification`), and the caller's
//! identity is built (`identity`). `resolution` ties the steps together and
//! says when the key set has to be fetched; `gateway` is the whole as a
//! request meets it.

pub mod algorithm;
pub mod claims;
pub mod error;
pub mod gateway;
pub mod identity;
pub mod jwks;
pub mod key;
pub mod resolution;
pub mod verification;

pub use algorithm::{resolve_algorithm, Algorithm, AlgorithmFamily, TokenHeader};
pub use claims::{Claims, JsonMember};
pub use error::{AuthError, VerificationError};
pub use gateway::{auth_middleware, resume_auth_middleware, Authentication};
pub use identity::{bearer_token, AuthUser, OptionalAuthUser};
pub use jwks::{CachedJwks, Jwk, Jwks, JwksCache, JWKS_TTL};
pub use key::{decoding_key_from_jwk, KeyMaterial};
pub use resolution::{resume_validation, validate_jwt, KeyRequest, Step};
pub use verification::{check_claims, verify};
