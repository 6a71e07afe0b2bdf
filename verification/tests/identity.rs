use gachitore_api::api::middleware::auth::{
    auth_middleware, bearer_token, AuthError, AuthUser, Authentication, Claims, JwksCache,
    OptionalAuthUser, VerificationError,
};
use gachitore_api::config::{default_jwks_url, expected_issuer, Config, EXPECTED_AUDIENCE};
use gachitore_api::error::AppError;

const NOW: u64 = 1_700_000_000;

fn config(secret: &str) -> Config {
    Config {
        host: "0.0.0.0".to_string(),
        port: 8080,
        allowed_origins: vec![],
        supabase_url: "https://proj.example.com".to_string(),
        supabase_anon_key: "anon".to_string(),
        supabase_jwt_secret: secret.to_string(),
        supabase_jwks_url: default_jwks_url("https://proj.example.com"),
        gemini_api_key: "key".to_string(),
        gemini_model: "gemini-1.5-flash".to_string(),
    }
}

fn claims(email: Option<&str>, role: Option<&str>) -> Claims {
    Claims {
        sub: "11111111-1111-1111-1111-111111111111".to_string(),
        aud: "authenticated".to_string(),
        iss: "https://proj.example.com/auth/v1".to_string(),
        exp: NOW as i64 + 3600,
        iat: Some(NOW as i64),
        email: email.map(|e| e.to_string()),
        role: role.map(|r| r.to_string()),
    }
}

fn token_for(secret: &str, exp: i64) -> String {
    let mut m = serde_json::Map::new();
    m.insert("sub".to_string(), serde_json::Value::from("11111111-1111-1111-1111-111111111111"));
    m.insert("aud".to_string(), serde_json::Value::from("authenticated"));
    m.insert("iss".to_string(), serde_json::Value::from("https://proj.example.com/auth/v1"));
    m.insert("exp".to_string(), serde_json::Value::from(exp));
    m.insert("email".to_string(), serde_json::Value::from("a@example.com"));
    m.insert("role".to_string(), serde_json::Value::from("authenticated"));
    jsonwebtoken::encode(
        &jsonwebtoken::Header::new(jsonwebtoken::Algorithm::HS256),
        &m,
        &jsonwebtoken::EncodingKey::from_secret(secret.as_bytes()),
    )
    .unwrap()
}

#[test]
fn bearer_token_is_what_follows_the_prefix() {
    assert_eq!(bearer_token(Some("Bearer abc.def.ghi")), Ok("abc.def.ghi"));
    assert_eq!(bearer_token(Some("Bearer ")), Ok(""));
    assert_eq!(bearer_token(Some("Bearer  x")), Ok(" x"));
    assert_eq!(bearer_token(Some("Bearer Bearer x")), Ok("Bearer x"));
}

#[test]
fn header_without_bearer_prefix_is_unauthorized() {
    for header in ["", "Bearer", "bearer abc", "BEARER abc", "Basic abc", " Bearer abc", "Bearerabc"] {
        assert_eq!(bearer_token(Some(header)), Err(AuthError::Unauthorized));
    }
}

#[test]
fn missing_header_is_unauthorized() {
    assert_eq!(bearer_token(None), Err(AuthError::Unauthorized));
}

#[test]
fn identity_is_built_from_the_claims() {
    let user = AuthUser::from_claims(claims(Some("a@example.com"), Some("admin")), "the.token");
    assert_eq!(user.user_id, "11111111-1111-1111-1111-111111111111");
    assert_eq!(user.email, "a@example.com");
    assert_eq!(user.role.as_deref(), Some("admin"));
    assert_eq!(user.token, "the.token");
}

#[test]
fn identity_without_email_has_an_empty_email() {
    let user = AuthUser::from_claims(claims(None, None), "t");
    assert_eq!(user.email, "");
    assert_eq!(user.role, None);
}

#[test]
fn identity_follows_the_verdict() {
    let user = AuthUser::from_verdict(Ok(claims(None, None)), "t").unwrap();
    assert_eq!(user.user_id, "11111111-1111-1111-1111-111111111111");
    for e in [
        AuthError::Unauthorized,
        AuthError::NoMatchingKey,
        AuthError::UpstreamKeyFetchError,
        AuthError::InvalidToken(VerificationError::Expired),
    ] {
        assert_eq!(AuthUser::from_verdict(Err(e), "t").unwrap_err(), e);
    }
}

#[test]
fn optional_identity_swallows_the_rejection() {
    let user = AuthUser::from_claims(claims(None, None), "t");
    assert_eq!(OptionalAuthUser::from_outcome(Ok(user)).0.unwrap().token, "t");
    assert!(OptionalAuthUser::from_outcome(Err(AuthError::Unauthorized)).0.is_none());
    assert!(OptionalAuthUser::from_outcome(Err(AuthError::NoMatchingKey)).0.is_none());
}

#[test]
fn request_with_a_valid_token_is_accepted() {
    let token = token_for("test-secret", NOW as i64 + 3600);
    let header = format!("Bearer {}", token);
    let cache = JwksCache::new(300);
    match auth_middleware(Some(&header), &config("test-secret"), &cache, NOW) {
        Authentication::Accepted(user) => {
            assert_eq!(user.user_id, "11111111-1111-1111-1111-111111111111");
            assert_eq!(user.email, "a@example.com");
            assert_eq!(user.role.as_deref(), Some("authenticated"));
            assert_eq!(user.token, token);
        }
        other => panic!("unexpected outcome: {:?}", other),
    }
}

#[test]
fn request_without_bearer_token_is_rejected_as_unauthorized() {
    let cache = JwksCache::new(300);
    for header in [None, Some("Basic abc"), Some("")] {
        match auth_middleware(header, &config("test-secret"), &cache, NOW) {
            Authentication::Rejected(e) => assert_eq!(e, AuthError::Unauthorized),
            other => panic!("unexpected outcome: {:?}", other),
        }
    }
}

#[test]
fn request_with_an_expired_token_is_rejected() {
    let header = format!("Bearer {}", token_for("test-secret", NOW as i64 - 10));
    let cache = JwksCache::new(300);
    match auth_middleware(Some(&header), &config("test-secret"), &cache, NOW) {
        Authentication::Rejected(e) => assert_eq!(e, AuthError::InvalidToken(VerificationError::Expired)),
        other => panic!("unexpected outcome: {:?}", other),
    }
}

#[test]
fn every_rejection_has_the_same_status() {
    for e in [
        AuthError::Unauthorized,
        AuthError::NoMatchingKey,
        AuthError::UpstreamKeyFetchError,
        AuthError::InvalidToken(VerificationError::MalformedToken),
        AuthError::InvalidToken(VerificationError::UnsupportedAlgorithm),
        AuthError::InvalidToken(VerificationError::MissingSecret),
        AuthError::InvalidToken(VerificationError::MissingKeyId),
        AuthError::InvalidToken(VerificationError::InvalidKey),
        AuthError::InvalidToken(VerificationError::InvalidSignature),
        AuthError::InvalidToken(VerificationError::MalformedClaims),
        AuthError::InvalidToken(VerificationError::Expired),
        AuthError::InvalidToken(VerificationError::AudienceMismatch),
        AuthError::InvalidToken(VerificationError::IssuerMismatch),
    ] {
        assert_eq!(e.status_code(), 401);
        let (status, body) = AppError::from_auth_error(e).into_response();
        assert_eq!(status, 401);
        assert_eq!(body.error, "unauthorized");
        assert_eq!(body.message, "Authentication required");
    }
}

#[test]
fn rejections_are_logged_under_their_own_label() {
    assert_eq!(AuthError::Unauthorized.log_label(), "unauthorized");
    assert_eq!(AuthError::NoMatchingKey.log_label(), "no_matching_key");
    assert_eq!(AuthError::UpstreamKeyFetchError.log_label(), "upstream_key_fetch_error");
    assert_eq!(AuthError::InvalidToken(VerificationError::Expired).log_label(), "expired");
    assert_eq!(AuthError::InvalidToken(VerificationError::InvalidKey).log_label(), "invalid_key");
}

#[test]
fn issuer_is_the_base_address_plus_auth_path() {
    assert_eq!(expected_issuer("https://proj.example.com"), "https://proj.example.com/auth/v1");
    assert_eq!(expected_issuer("https://proj.example.com/"), "https://proj.example.com/auth/v1");
    assert_eq!(expected_issuer("https://proj.example.com///"), "https://proj.example.com/auth/v1");
    assert_eq!(expected_issuer("https://a/b/"), "https://a/b/auth/v1");
    assert_eq!(expected_issuer(""), "/auth/v1");
    assert_eq!(expected_issuer("///"), "/auth/v1");
    assert_eq!(config("s").issuer(), "https://proj.example.com/auth/v1");
}

#[test]
fn key_set_address_is_derived_from_the_base_address() {
    assert_eq!(
        default_jwks_url("https://proj.example.com/"),
        "https://proj.example.com/auth/v1/.well-known/jwks.json"
    );
    assert_eq!(
        default_jwks_url("https://proj.example.com"),
        "https://proj.example.com/auth/v1/.well-known/jwks.json"
    );
}

#[test]
fn expected_audience_is_fixed() {
    assert_eq!(EXPECTED_AUDIENCE, "authenticated");
}
