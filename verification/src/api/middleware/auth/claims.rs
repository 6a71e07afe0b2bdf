//! The claim set of a token, read from its decoded payload.

use vstd::prelude::*;
use crate::api::validation::{canonical_uuid, parse_uuid};
use super::error::VerificationError;

verus! {

/// A decoded token payload: a JSON value of `serde_json`, opaque here. What
/// it holds is read through `member`.
#[verifier::external_type_specification]
#[verifier::external_body]
pub struct ExJsonValue(serde_json::Value);

/// One member of a JSON object, as far as a claim set needs it.
#[derive(Debug)]
pub enum JsonMember {
    /// The object has no member of that name.
    Absent,
    /// The member is `null`.
    Null,
    /// The member is a string.
    Text(String),
    /// The member is a whole number within `i64`.
    Integer(i64),
    /// The member is anything else.
    Other,
}

/// The mathematical value of a `JsonMember`.
pub enum JsonMemberView {
    Absent,
    Null,
    Text(Seq<char>),
    Integer(i64),
    Other,
}

impl View for JsonMember {
    type V = JsonMemberView;

    open spec fn view(&self) -> JsonMemberView {
        match self {
            JsonMember::Absent => JsonMemberView::Absent,
            JsonMember::Null => JsonMemberView::Null,
            JsonMember::Text(s) => JsonMemberView::Text(s@),
            JsonMember::Integer(i) => JsonMemberView::Integer(*i),
            JsonMember::Other => JsonMemberView::Other,
        }
    }
}

/// The members of a JSON object by name; the empty map for a value that is
/// no object.
pub uninterp spec fn members(value: serde_json::Value) -> Map<Seq<char>, JsonMemberView>;

/// The member of that name, `Absent` where there is none.
pub open spec fn member_at(m: Map<Seq<char>, JsonMemberView>, name: Seq<char>) -> JsonMemberView {
    if m.contains_key(name) {
        m[name]
    } else {
        JsonMemberView::Absent
    }
}

/// Calls `serde_json::Value::get` with a name, and `Number::as_i64` on a
/// number. The contract claims that the result is the member of that name
/// among the value's members: absent, null, a string, a whole number that
/// fits `i64`, or something else (a number that does not fit counts as
/// something else).
#[verifier::external_body]
pub(crate) fn member(value: &serde_json::Value, name: &str) -> (r: JsonMember)
    ensures
        r@ == member_at(members(*value), name@),
{
    match value.get(name) {
        None => JsonMember::Absent,
        Some(serde_json::Value::Null) => JsonMember::Null,
        Some(serde_json::Value::String(s)) => JsonMember::Text(s.clone()),
        Some(serde_json::Value::Number(n)) => match n.as_i64() {
            Some(i) => JsonMember::Integer(i),
            None => JsonMember::Other,
        },
        Some(_) => JsonMember::Other,
    }
}

/// The claims of an access token. A value of this type is handed out only
/// by a verification that succeeded.
#[derive(Debug)]
pub struct Claims {
    /// Subject: the caller's id, a UUID in hyphenated lower-case form.
    pub sub: String,
    /// Audience.
    pub aud: String,
    /// Issuer.
    pub iss: String,
    /// Expiry, in seconds since the epoch.
    pub exp: i64,
    /// Issued at, in seconds since the epoch, where the token says so.
    pub iat: Option<i64>,
    pub email: Option<String>,
    pub role: Option<String>,
}

/// The mathematical value of a `Claims`.
pub struct ClaimsView {
    pub sub: Seq<char>,
    pub aud: Seq<char>,
    pub iss: Seq<char>,
    pub exp: i64,
    pub iat: Option<i64>,
    pub email: Option<Seq<char>>,
    pub role: Option<Seq<char>>,
}

impl View for Claims {
    type V = ClaimsView;

    open spec fn view(&self) -> ClaimsView {
        ClaimsView {
            sub: self.sub@,
            aud: self.aud@,
            iss: self.iss@,
            exp: self.exp,
            iat: self.iat,
            email: self.email.deep_view(),
            role: self.role.deep_view(),
        }
    }
}

/// An optional text claim: absent or `null` is no value, a string is a
/// value, and anything else is malformed (the outer `None`).
pub open spec fn optional_text(m: JsonMemberView) -> Option<Option<Seq<char>>> {
    match m {
        JsonMemberView::Absent | JsonMemberView::Null => Some(None),
        JsonMemberView::Text(s) => Some(Some(s)),
        _ => None,
    }
}

/// An optional whole-number claim: absent or `null` is no value, a whole
/// number is a value, and anything else is malformed (the outer `None`).
pub open spec fn optional_integer(m: JsonMemberView) -> Option<Option<i64>> {
    match m {
        JsonMemberView::Absent | JsonMemberView::Null => Some(None),
        JsonMemberView::Integer(i) => Some(Some(i)),
        _ => None,
    }
}

/// The claim set made of seven members: subject, audience and issuer must
/// be strings, the subject a UUID (kept in its canonical form), the expiry
/// a whole number; issued-at is an optional whole number, e-mail and role
/// are optional texts. `None` where any of this fails.
pub open spec fn claims_from(
    sub: JsonMemberView,
    aud: JsonMemberView,
    iss: JsonMemberView,
    exp: JsonMemberView,
    iat: JsonMemberView,
    email: JsonMemberView,
    role: JsonMemberView,
) -> Option<ClaimsView> {
    if sub is Text && canonical_uuid(sub->Text_0) is Some && aud is Text && iss is Text
        && exp is Integer && optional_integer(iat) is Some && optional_text(email) is Some
        && optional_text(role) is Some {
        Some(
            ClaimsView {
                sub: canonical_uuid(sub->Text_0).unwrap(),
                aud: aud->Text_0,
                iss: iss->Text_0,
                exp: exp->Integer_0,
                iat: optional_integer(iat).unwrap(),
                email: optional_text(email).unwrap(),
                role: optional_text(role).unwrap(),
            },
        )
    } else {
        None
    }
}

/// The claim set that a payload's members hold.
pub open spec fn claims_of(m: Map<Seq<char>, JsonMemberView>) -> Option<ClaimsView> {
    claims_from(
        member_at(m, "sub"@),
        member_at(m, "aud"@),
        member_at(m, "iss"@),
        member_at(m, "exp"@),
        member_at(m, "iat"@),
        member_at(m, "email"@),
        member_at(m, "role"@),
    )
}

/// Reads an optional text claim.
fn read_optional_text(m: JsonMember) -> (r: Option<Option<String>>)
    ensures
        r.deep_view() == optional_text(m@),
{
    match m {
        JsonMember::Absent => Some(None),
        JsonMember::Null => Some(None),
        JsonMember::Text(s) => Some(Some(s)),
        _ => None,
    }
}

impl Claims {
    /// Builds the claim set from its seven members, or reports malformed
    /// claims.
    pub fn from_members(
        sub: JsonMember,
        aud: JsonMember,
        iss: JsonMember,
        exp: JsonMember,
        iat: JsonMember,
        email: JsonMember,
        role: JsonMember,
    ) -> (r: Result<Claims, VerificationError>)
        ensures
            match r {
                Ok(c) => claims_from(sub@, aud@, iss@, exp@, iat@, email@, role@) == Some(c@),
                Err(e) => e == VerificationError::MalformedClaims && claims_from(
                    sub@,
                    aud@,
                    iss@,
                    exp@,
                    iat@,
                    email@,
                    role@,
                ) is None,
            },
    {
        let sub = match sub {
            JsonMember::Text(s) => match parse_uuid(s.as_str()) {
                Some(id) => id,
                None => { return Err(VerificationError::MalformedClaims); },
            },
            _ => { return Err(VerificationError::MalformedClaims); },
        };
        let aud = match aud {
            JsonMember::Text(s) => s,
            _ => { return Err(VerificationError::MalformedClaims); },
        };
        let iss = match iss {
            JsonMember::Text(s) => s,
            _ => { return Err(VerificationError::MalformedClaims); },
        };
        let exp = match exp {
            JsonMember::Integer(i) => i,
            _ => { return Err(VerificationError::MalformedClaims); },
        };
        let iat = match iat {
            JsonMember::Absent => None,
            JsonMember::Null => None,
            JsonMember::Integer(i) => Some(i),
            _ => { return Err(VerificationError::MalformedClaims); },
        };
        let email = match read_optional_text(email) {
            Some(e) => e,
            None => { return Err(VerificationError::MalformedClaims); },
        };
        let role = match read_optional_text(role) {
            Some(r) => r,
            None => { return Err(VerificationError::MalformedClaims); },
        };
        Ok(Claims { sub, aud, iss, exp, iat, email, role })
    }

    /// Reads the claim set from a decoded payload.
    pub fn from_payload(payload: &serde_json::Value) -> (r: Result<Claims, VerificationError>)
        ensures
            match r {
                Ok(c) => claims_of(members(*payload)) == Some(c@),
                Err(e) => e == VerificationError::MalformedClaims && claims_of(members(*payload))
                    is None,
            },
    {
        Claims::from_members(
            member(payload, "sub"),
            member(payload, "aud"),
            member(payload, "iss"),
            member(payload, "exp"),
            member(payload, "iat"),
            member(payload, "email"),
            member(payload, "role"),
        )
    }
}

} // verus!
