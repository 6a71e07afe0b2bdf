//! Identity extraction: from the authorization header to the token, and
//! from verified claims to the caller's identity.

use vstd::prelude::*;
use vstd::string::*;
use crate::text::{strip_prefix, stripped};
use super::claims::{Claims, ClaimsView};
use super::error::AuthError;

verus! {

/// The authenticated caller, handed to the request's handlers.
#[derive(Debug, Clone)]
pub struct AuthUser {
    pub user_id: String,
    /// Empty where the token carries no e-mail address.
    pub email: String,
    pub role: Option<String>,
    /// The access token as it was presented, for calls made on the
    /// caller's behalf.
    pub token: String,
}

/// The mathematical value of an `AuthUser`.
pub struct AuthUserView {
    pub user_id: Seq<char>,
    pub email: Seq<char>,
    pub role: Option<Seq<char>>,
    pub token: Seq<char>,
}

impl View for AuthUser {
    type V = AuthUserView;

    open spec fn view(&self) -> AuthUserView {
        AuthUserView {
            user_id: self.user_id@,
            email: self.email@,
            role: self.role.deep_view(),
            token: self.token@,
        }
    }
}

/// The caller of a request that may go unauthenticated.
#[derive(Debug, Clone)]
pub struct OptionalAuthUser(pub Option<AuthUser>);

/// The token of an authorization header: what follows `Bearer `.
pub open spec fn bearer_of(authorization: Option<Seq<char>>) -> Option<Seq<char>> {
    match authorization {
        Some(value) => stripped(value, "Bearer "@),
        None => None,
    }
}

/// Takes the bearer token out of the authorization header. A request
/// without the header, or with one that is no bearer credential, is
/// unauthorized.
pub fn bearer_token<'a>(authorization: Option<&'a str>) -> (r: Result<&'a str, AuthError>)
    ensures
        match r {
            Ok(token) => bearer_of(authorization.deep_view()) == Some(token@),
            Err(e) => e == AuthError::Unauthorized && bearer_of(authorization.deep_view()) is None,
        },
{
    match authorization {
        None => Err(AuthError::Unauthorized),
        Some(value) => match strip_prefix(value, "Bearer ") {
            Some(token) => Ok(token),
            None => Err(AuthError::Unauthorized),
        },
    }
}

/// The identity that verified claims give to the bearer of `token`.
pub open spec fn identity_of(claims: ClaimsView, token: Seq<char>) -> AuthUserView {
    AuthUserView {
        user_id: claims.sub,
        email: match claims.email {
            Some(email) => email,
            None => Seq::empty(),
        },
        role: claims.role,
        token,
    }
}

impl AuthUser {
    /// Builds the caller's identity from verified claims and the token
    /// that carried them.
    pub fn from_claims(claims: Claims, token: &str) -> (user: AuthUser)
        ensures
            user@ == identity_of(claims@, token@),
    {
        AuthUser {
            user_id: claims.sub,
            email: match claims.email {
                Some(email) => email,
                None => String::new(),
            },
            role: claims.role,
            token: token.to_owned(),
        }
    }

    /// The identity that follows from a verdict on the token. It is built
    /// whole where the token was accepted and not at all where it was not.
    pub fn from_verdict(verdict: Result<Claims, AuthError>, token: &str) -> (r: Result<
        AuthUser,
        AuthError,
    >)
        ensures
            match verdict {
                Ok(claims) => r is Ok && r->Ok_0@ == identity_of(claims@, token@),
                Err(e) => r == Err::<AuthUser, AuthError>(e),
            },
    {
        match verdict {
            Ok(claims) => Ok(AuthUser::from_claims(claims, token)),
            Err(e) => Err(e),
        }
    }
}

/// The caller id of an identity is the subject of the claims it was built
/// from, and the token is the one presented.
pub proof fn lemma_identity_carries_subject(claims: ClaimsView, token: Seq<char>)
    ensures
        identity_of(claims, token).user_id == claims.sub,
        identity_of(claims, token).token == token,
        identity_of(claims, token).role == claims.role,
{
}

impl OptionalAuthUser {
    /// The caller if the request was authenticated, nobody if it was not:
    /// a failed authentication is no failure here.
    pub fn from_outcome(outcome: Result<AuthUser, AuthError>) -> (r: OptionalAuthUser)
        ensures
            match outcome {
                Ok(user) => r.0 == Some(user),
                Err(_) => r.0 is None,
            },
    {
        match outcome {
            Ok(user) => OptionalAuthUser(Some(user)),
            Err(_) => OptionalAuthUser(None),
        }
    }
}

} // verus!
