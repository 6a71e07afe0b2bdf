use gachitore_api::api::middleware::auth::{
    check_claims, resolve_algorithm, Algorithm, AlgorithmFamily, Claims, JsonMember,
    VerificationError,
};

const SUBJECT: &str = "11111111-1111-1111-1111-111111111111";

fn object(members: Vec<(&str, serde_json::Value)>) -> serde_json::Value {
    let mut m = serde_json::Map::new();
    for (name, value) in members {
        m.insert(name.to_string(), value);
    }
    serde_json::Value::Object(m)
}

fn full() -> Vec<(&'static str, serde_json::Value)> {
    vec![
        ("sub", serde_json::Value::from(SUBJECT)),
        ("aud", serde_json::Value::from("authenticated")),
        ("iss", serde_json::Value::from("https://proj.example.com/auth/v1")),
        ("exp", serde_json::Value::from(2000i64)),
        ("iat", serde_json::Value::from(1000i64)),
        ("email", serde_json::Value::from("a@example.com")),
        ("role", serde_json::Value::from("admin")),
    ]
}

fn without(name: &str) -> serde_json::Value {
    object(full().into_iter().filter(|(n, _)| *n != name).collect())
}

fn with(name: &str, value: serde_json::Value) -> serde_json::Value {
    object(full().into_iter().map(|(n, v)| if n == name { (n, value.clone()) } else { (n, v) }).collect())
}

/// The character of a six-bit value in the URL-safe base64 alphabet.
fn b64_char(value: u32) -> char {
    let v = (value & 63) as u8;
    match v {
        0..=25 => (b'A' + v) as char,
        26..=51 => (b'a' + (v - 26)) as char,
        52..=61 => (b'0' + (v - 52)) as char,
        62 => '-',
        _ => '_',
    }
}

/// Base64 in the URL-safe alphabet, without padding.
fn b64(bytes: &[u8]) -> String {
    let mut out = String::new();
    for chunk in bytes.chunks(3) {
        let b = [chunk[0], *chunk.get(1).unwrap_or(&0), *chunk.get(2).unwrap_or(&0)];
        let n = ((b[0] as u32) << 16) | ((b[1] as u32) << 8) | b[2] as u32;
        out.push(b64_char(n >> 18));
        out.push(b64_char(n >> 12));
        if chunk.len() > 1 {
            out.push(b64_char(n >> 6));
        }
        if chunk.len() > 2 {
            out.push(b64_char(n));
        }
    }
    out
}

/// A token with the given header, an empty payload and a signature that
/// nobody checks.
fn header_token(header_json: &str) -> String {
    let mut out = b64(header_json.as_bytes());
    out.push_str(".e30.c2ln");
    out
}

#[test]
fn payload_with_all_members_gives_all_claims() {
    let claims = Claims::from_payload(&object(full())).unwrap();
    assert_eq!(claims.sub, SUBJECT);
    assert_eq!(claims.aud, "authenticated");
    assert_eq!(claims.iss, "https://proj.example.com/auth/v1");
    assert_eq!(claims.exp, 2000);
    assert_eq!(claims.iat, Some(1000));
    assert_eq!(claims.email.as_deref(), Some("a@example.com"));
    assert_eq!(claims.role.as_deref(), Some("admin"));
}

#[test]
fn optional_claims_may_be_absent_or_null() {
    for name in ["iat", "email", "role"] {
        assert!(Claims::from_payload(&without(name)).is_ok());
        assert!(Claims::from_payload(&with(name, serde_json::Value::Null)).is_ok());
    }
    let claims = Claims::from_payload(&without("email")).unwrap();
    assert_eq!(claims.email, None);
    let claims = Claims::from_payload(&with("role", serde_json::Value::Null)).unwrap();
    assert_eq!(claims.role, None);
    let claims = Claims::from_payload(&without("iat")).unwrap();
    assert_eq!(claims.iat, None);
}

#[test]
fn required_claims_must_be_present() {
    for name in ["sub", "aud", "iss", "exp"] {
        assert_eq!(
            Claims::from_payload(&without(name)).unwrap_err(),
            VerificationError::MalformedClaims
        );
        assert_eq!(
            Claims::from_payload(&with(name, serde_json::Value::Null)).unwrap_err(),
            VerificationError::MalformedClaims
        );
    }
}

#[test]
fn claims_of_the_wrong_type_are_malformed() {
    let cases = vec![
        with("sub", serde_json::Value::from(5)),
        with("aud", serde_json::Value::from(vec!["authenticated"])),
        with("iss", serde_json::Value::from(true)),
        with("exp", serde_json::Value::from("2000")),
        with("exp", serde_json::Value::from(2000.5)),
        with("exp", serde_json::Value::from(u64::MAX)),
        with("iat", serde_json::Value::from("1000")),
        with("email", serde_json::Value::from(5)),
        with("role", serde_json::Value::from(vec!["admin"])),
    ];
    for payload in cases {
        assert_eq!(Claims::from_payload(&payload).unwrap_err(), VerificationError::MalformedClaims);
    }
}

#[test]
fn payload_that_is_no_object_is_malformed() {
    for payload in [
        serde_json::Value::Null,
        serde_json::Value::from("text"),
        serde_json::Value::from(5),
        serde_json::Value::from(vec![SUBJECT]),
    ] {
        assert_eq!(Claims::from_payload(&payload).unwrap_err(), VerificationError::MalformedClaims);
    }
}

#[test]
fn subject_must_be_a_uuid_and_is_kept_in_canonical_form() {
    assert_eq!(
        Claims::from_payload(&with("sub", serde_json::Value::from("not-a-uuid"))).unwrap_err(),
        VerificationError::MalformedClaims
    );
    let upper = Claims::from_payload(&with(
        "sub",
        serde_json::Value::from("ABCDEF01-2345-6789-ABCD-EF0123456789"),
    ))
    .unwrap();
    assert_eq!(upper.sub, "abcdef01-2345-6789-abcd-ef0123456789");
    let simple = Claims::from_payload(&with(
        "sub",
        serde_json::Value::from("abcdef0123456789abcdef0123456789"),
    ))
    .unwrap();
    assert_eq!(simple.sub, "abcdef01-2345-6789-abcd-ef0123456789");
}

#[test]
fn negative_and_extreme_times_are_read_as_they_are() {
    let claims = Claims::from_payload(&with("exp", serde_json::Value::from(-1i64))).unwrap();
    assert_eq!(claims.exp, -1);
    let claims = Claims::from_payload(&with("exp", serde_json::Value::from(i64::MAX))).unwrap();
    assert_eq!(claims.exp, i64::MAX);
    let claims = Claims::from_payload(&with("exp", serde_json::Value::from(i64::MIN))).unwrap();
    assert_eq!(claims.exp, i64::MIN);
}

#[test]
fn claims_are_built_from_plain_members() {
    let claims = Claims::from_members(
        JsonMember::Text(SUBJECT.to_string()),
        JsonMember::Text("authenticated".to_string()),
        JsonMember::Text("issuer".to_string()),
        JsonMember::Integer(7),
        JsonMember::Absent,
        JsonMember::Null,
        JsonMember::Text("admin".to_string()),
    )
    .unwrap();
    assert_eq!(claims.sub, SUBJECT);
    assert_eq!(claims.exp, 7);
    assert_eq!(claims.iat, None);
    assert_eq!(claims.email, None);
    assert_eq!(claims.role.as_deref(), Some("admin"));
    let r = Claims::from_members(
        JsonMember::Text(SUBJECT.to_string()),
        JsonMember::Text("authenticated".to_string()),
        JsonMember::Text("issuer".to_string()),
        JsonMember::Other,
        JsonMember::Absent,
        JsonMember::Absent,
        JsonMember::Absent,
    );
    assert_eq!(r.unwrap_err(), VerificationError::MalformedClaims);
}

fn plain_claims(aud: &str, iss: &str, exp: i64) -> Claims {
    Claims {
        sub: SUBJECT.to_string(),
        aud: aud.to_string(),
        iss: iss.to_string(),
        exp,
        iat: None,
        email: None,
        role: None,
    }
}

#[test]
fn checks_are_reported_in_order() {
    assert_eq!(check_claims(plain_claims("x", "y", 10), "aud", "iss", 10).unwrap_err(), VerificationError::Expired);
    assert_eq!(check_claims(plain_claims("x", "y", 11), "aud", "iss", 10).unwrap_err(), VerificationError::AudienceMismatch);
    assert_eq!(check_claims(plain_claims("aud", "y", 11), "aud", "iss", 10).unwrap_err(), VerificationError::IssuerMismatch);
    let ok = check_claims(plain_claims("aud", "iss", 11), "aud", "iss", 10).unwrap();
    assert_eq!(ok.sub, SUBJECT);
    assert_eq!(ok.exp, 11);
}

#[test]
fn audience_and_issuer_must_match_exactly() {
    for aud in ["", "Aud", "aud ", "au", "audience"] {
        assert_eq!(
            check_claims(plain_claims(aud, "iss", 11), "aud", "iss", 10).unwrap_err(),
            VerificationError::AudienceMismatch
        );
    }
    for iss in ["", "ISS", "iss/", "is"] {
        assert_eq!(
            check_claims(plain_claims("aud", iss, 11), "aud", "iss", 10).unwrap_err(),
            VerificationError::IssuerMismatch
        );
    }
}

#[test]
fn expiry_is_checked_against_the_whole_range_of_instants() {
    assert!(check_claims(plain_claims("a", "i", i64::MAX), "a", "i", 0).is_ok());
    assert!(check_claims(plain_claims("a", "i", i64::MAX), "a", "i", i64::MAX as u64 - 1).is_ok());
    assert_eq!(
        check_claims(plain_claims("a", "i", i64::MAX), "a", "i", i64::MAX as u64).unwrap_err(),
        VerificationError::Expired
    );
    assert_eq!(
        check_claims(plain_claims("a", "i", i64::MAX), "a", "i", u64::MAX).unwrap_err(),
        VerificationError::Expired
    );
    assert_eq!(
        check_claims(plain_claims("a", "i", 0), "a", "i", 0).unwrap_err(),
        VerificationError::Expired
    );
    assert_eq!(
        check_claims(plain_claims("a", "i", i64::MIN), "a", "i", 0).unwrap_err(),
        VerificationError::Expired
    );
    assert!(check_claims(plain_claims("a", "i", 1), "a", "i", 0).is_ok());
}

#[test]
fn header_names_each_algorithm_and_the_key_id() {
    let cases = [
        ("HS256", Algorithm::HS256),
        ("HS384", Algorithm::HS384),
        ("HS512", Algorithm::HS512),
        ("ES256", Algorithm::ES256),
        ("ES384", Algorithm::ES384),
        ("RS256", Algorithm::RS256),
        ("RS384", Algorithm::RS384),
        ("RS512", Algorithm::RS512),
        ("PS256", Algorithm::PS256),
        ("PS384", Algorithm::PS384),
        ("PS512", Algorithm::PS512),
        ("EdDSA", Algorithm::EdDSA),
    ];
    for (name, algorithm) in cases {
        let token = header_token(&format!("{{\"alg\":\"{}\",\"kid\":\"key-7\"}}", name));
        let header = resolve_algorithm(&token).unwrap();
        assert_eq!(header.alg, algorithm);
        assert_eq!(header.family(), algorithm.family());
        assert_eq!(header.kid.as_deref(), Some("key-7"));
        assert_eq!(algorithm.name(), name);
        let token = header_token(&format!("{{\"alg\":\"{}\"}}", name));
        let header = resolve_algorithm(&token).unwrap();
        assert_eq!(header.alg, algorithm);
        assert_eq!(header.kid, None);
    }
}

#[test]
fn header_that_cannot_be_read_is_a_malformed_token() {
    for token in [
        String::new(),
        "not.a".to_string(),
        "a.b.c".to_string(),
        header_token("{\"alg\":\"none\"}"),
        header_token("{\"alg\":\"hs256\"}"),
        header_token("{\"kid\":\"k\"}"),
        header_token("[]"),
        format!("{}.x", header_token("{\"alg\":\"HS256\"}")),
    ] {
        assert_eq!(resolve_algorithm(&token).unwrap_err(), VerificationError::MalformedToken);
    }
}

#[test]
fn each_algorithm_has_exactly_one_family() {
    for a in [Algorithm::HS256, Algorithm::HS384, Algorithm::HS512] {
        assert_eq!(a.family(), AlgorithmFamily::SharedSecret);
    }
    for a in [Algorithm::ES256, Algorithm::ES384] {
        assert_eq!(a.family(), AlgorithmFamily::EllipticCurve);
    }
    for a in [Algorithm::RS256, Algorithm::RS384, Algorithm::RS512] {
        assert_eq!(a.family(), AlgorithmFamily::Rsa);
    }
    for a in [Algorithm::PS256, Algorithm::PS384, Algorithm::PS512, Algorithm::EdDSA] {
        assert_eq!(a.family(), AlgorithmFamily::Unsupported);
    }
}
