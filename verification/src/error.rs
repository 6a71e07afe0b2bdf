//! Application errors and what a caller gets to see of them.

use vstd::prelude::*;
use vstd::string::*;
use crate::api::middleware::auth::error::AuthError;

verus! {

/// An error of the application.
#[derive(Debug)]
pub enum AppError {
    Unauthorized,
    InvalidToken(String),
    Forbidden(String),
    AuthError(String),
    UpstreamAuth(String),
    NotFound(String),
    BadRequest(String),
    Validation(String),
    SupabaseError(String),
    GeminiApi(String),
    /// A failed call to an outside service, with its description.
    ExternalApi(String),
    Internal(String),
    SafetyGuard(String),
}

/// The body of an error response.
#[derive(Debug)]
pub struct ErrorResponse {
    pub error: String,
    pub message: String,
}

impl AppError {
    /// The HTTP status that answers the error.
    pub open spec fn status_spec(&self) -> u16 {
        match self {
            AppError::Unauthorized | AppError::InvalidToken(_) | AppError::AuthError(_) => 401,
            AppError::Forbidden(_) => 403,
            AppError::NotFound(_) => 404,
            AppError::BadRequest(_) | AppError::SafetyGuard(_) => 400,
            AppError::Validation(_) => 422,
            AppError::UpstreamAuth(_) | AppError::SupabaseError(_) | AppError::GeminiApi(_)
            | AppError::ExternalApi(_) => 502,
            AppError::Internal(_) => 500,
        }
    }

    /// The machine-readable kind of the error.
    pub open spec fn kind_spec(&self) -> Seq<char> {
        match self {
            AppError::Unauthorized => "unauthorized"@,
            AppError::InvalidToken(_) => "invalid_token"@,
            AppError::Forbidden(_) => "forbidden"@,
            AppError::AuthError(_) => "auth_error"@,
            AppError::UpstreamAuth(_) => "upstream_auth_error"@,
            AppError::NotFound(_) => "not_found"@,
            AppError::BadRequest(_) => "bad_request"@,
            AppError::Validation(_) => "validation_error"@,
            AppError::SupabaseError(_) => "supabase_error"@,
            AppError::GeminiApi(_) => "gemini_error"@,
            AppError::ExternalApi(_) => "external_api_error"@,
            AppError::Internal(_) => "internal_error"@,
            AppError::SafetyGuard(_) => "safety_guard"@,
        }
    }

    /// The message shown to the caller. Errors of the services behind the
    /// application, internal errors and rejected tokens show a fixed text:
    /// their detail is for the server's log alone.
    pub open spec fn message_spec(&self) -> Seq<char> {
        match self {
            AppError::Unauthorized => "Authentication required"@,
            AppError::InvalidToken(_) => "Invalid token"@,
            AppError::Forbidden(msg) => msg@,
            AppError::AuthError(msg) => msg@,
            AppError::UpstreamAuth(_) => "認証サービスでエラーが発生しました。しばらく待ってから再試行してください"@,
            AppError::NotFound(msg) => msg@,
            AppError::BadRequest(msg) => msg@,
            AppError::Validation(msg) => msg@,
            AppError::SupabaseError(_) => "Database operation failed"@,
            AppError::GeminiApi(_) => "AI service temporarily unavailable"@,
            AppError::ExternalApi(_) => "External service error"@,
            AppError::Internal(_) => "Internal server error"@,
            AppError::SafetyGuard(msg) => "Safety check failed: "@ + msg@,
        }
    }

    /// The HTTP status that answers the error.
    pub fn status_code(&self) -> (status: u16)
        ensures
            status == self.status_spec(),
    {
        match self {
            AppError::Unauthorized => 401,
            AppError::InvalidToken(_) => 401,
            AppError::Forbidden(_) => 403,
            AppError::AuthError(_) => 401,
            AppError::UpstreamAuth(_) => 502,
            AppError::NotFound(_) => 404,
            AppError::BadRequest(_) => 400,
            AppError::Validation(_) => 422,
            AppError::SupabaseError(_) => 502,
            AppError::GeminiApi(_) => 502,
            AppError::ExternalApi(_) => 502,
            AppError::Internal(_) => 500,
            AppError::SafetyGuard(_) => 400,
        }
    }

    /// The machine-readable kind of the error.
    pub fn error_type(&self) -> (kind: &'static str)
        ensures
            kind@ == self.kind_spec(),
    {
        match self {
            AppError::Unauthorized => "unauthorized",
            AppError::InvalidToken(_) => "invalid_token",
            AppError::Forbidden(_) => "forbidden",
            AppError::AuthError(_) => "auth_error",
            AppError::UpstreamAuth(_) => "upstream_auth_error",
            AppError::NotFound(_) => "not_found",
            AppError::BadRequest(_) => "bad_request",
            AppError::Validation(_) => "validation_error",
            AppError::SupabaseError(_) => "supabase_error",
            AppError::GeminiApi(_) => "gemini_error",
            AppError::ExternalApi(_) => "external_api_error",
            AppError::Internal(_) => "internal_error",
            AppError::SafetyGuard(_) => "safety_guard",
        }
    }

    /// The message shown to the caller.
    pub fn message(&self) -> (text: String)
        ensures
            text@ == self.message_spec(),
    {
        match self {
            AppError::Unauthorized => "Authentication required".to_owned(),
            AppError::InvalidToken(_) => "Invalid token".to_owned(),
            AppError::Forbidden(msg) => msg.clone(),
            AppError::AuthError(msg) => msg.clone(),
            AppError::UpstreamAuth(_) => "認証サービスでエラーが発生しました。しばらく待ってから再試行してください".to_owned(),
            AppError::NotFound(msg) => msg.clone(),
            AppError::BadRequest(msg) => msg.clone(),
            AppError::Validation(msg) => msg.clone(),
            AppError::SupabaseError(_) => "Database operation failed".to_owned(),
            AppError::GeminiApi(_) => "AI service temporarily unavailable".to_owned(),
            AppError::ExternalApi(_) => "External service error".to_owned(),
            AppError::Internal(_) => "Internal server error".to_owned(),
            AppError::SafetyGuard(msg) => "Safety check failed: ".to_owned().concat(msg.as_str()),
        }
    }

    /// The status and the body with which the error is answered.
    pub fn into_response(self) -> (r: (u16, ErrorResponse))
        ensures
            r.0 == self.status_spec(),
            r.1.error@ == self.kind_spec(),
            r.1.message@ == self.message_spec(),
    {
        let status = self.status_code();
        let error = self.error_type().to_owned();
        let message = self.message();
        (status, ErrorResponse { error, message })
    }

    /// The application error that stands for a rejection by the gateway:
    /// the same for every reason.
    pub fn from_auth_error(e: AuthError) -> (r: AppError)
        ensures
            r == AppError::Unauthorized,
    {
        AppError::Unauthorized
    }
}

/// What `regex::Regex::replace_all` makes of a text for a pattern and a
/// replacement, or `None` where `regex::Regex::new` refuses the pattern.
pub uninterp spec fn regex_replaced(
    pattern: Seq<char>,
    text: Seq<char>,
    replacement: Seq<char>,
) -> Option<Seq<char>>;

/// Calls `regex::Regex::new` and `regex::Regex::replace_all`. The contract
/// claims only that the result is a function of the three texts.
#[verifier::external_body]
fn replace_all(pattern: &str, text: &str, replacement: &str) -> (r: Option<String>)
    ensures
        r.deep_view() == regex_replaced(pattern@, text@, replacement@),
{
    let re = regex::Regex::new(pattern).ok()?;
    Some(re.replace_all(text, replacement).into_owned())
}

/// A text with every match of a pattern replaced; the text as it is where
/// the pattern is refused.
pub open spec fn masked_by(text: Seq<char>, pattern: Seq<char>, replacement: Seq<char>) -> Seq<
    char,
> {
    match regex_replaced(pattern, text, replacement) {
        Some(t) => t,
        None => text,
    }
}

/// A message as it may be logged: signed tokens, bearer credentials, the
/// tokens of signed addresses and API keys are masked, in this order.
pub open spec fn masked(msg: Seq<char>) -> Seq<char> {
    let a = masked_by(msg, r"eyJ[A-Za-z0-9_-]+\.[A-Za-z0-9_-]+\.[A-Za-z0-9_-]+"@, "[MASKED_TOKEN]"@);
    let b = masked_by(a, r"Bearer\s+[A-Za-z0-9_.-]+"@, "Bearer [MASKED]"@);
    let c = masked_by(b, r"token=[A-Za-z0-9%_.-]+"@, "token=[MASKED]"@);
    masked_by(c, r"(apikey|api_key|key)=[\w-]+"@, "$1=[MASKED]"@)
}

/// Replaces every match of a pattern in a text.
fn mask_by(text: String, pattern: &str, replacement: &str) -> (r: String)
    ensures
        r@ == masked_by(text@, pattern@, replacement@),
{
    match replace_all(pattern, text.as_str(), replacement) {
        Some(t) => t,
        None => text,
    }
}

/// Masks what must not reach a log: tokens, credentials and keys.
pub fn mask_sensitive_data(msg: &str) -> (r: String)
    ensures
        r@ == masked(msg@),
{
    let a = mask_by(msg.to_owned(), r"eyJ[A-Za-z0-9_-]+\.[A-Za-z0-9_-]+\.[A-Za-z0-9_-]+", "[MASKED_TOKEN]");
    let b = mask_by(a, r"Bearer\s+[A-Za-z0-9_.-]+", "Bearer [MASKED]");
    let c = mask_by(b, r"token=[A-Za-z0-9%_.-]+", "token=[MASKED]");
    mask_by(c, r"(apikey|api_key|key)=[\w-]+", "$1=[MASKED]")
}

} // verus!
