//! Checks on identifiers and dates that go into queries of the data backend.

use vstd::prelude::*;
use vstd::string::*;
use crate::error::AppError;

verus! {

/// The hyphenated lower-case form of the UUID that `uuid::Uuid::parse_str`
/// reads from a text, or `None` where it reports an error.
pub uninterp spec fn canonical_uuid(text: Seq<char>) -> Option<Seq<char>>;

/// Calls `uuid::Uuid::parse_str` and writes the UUID out again. The
/// contract claims only that the result is a function of the text.
#[verifier::external_body]
pub(crate) fn parse_uuid(text: &str) -> (r: Option<String>)
    ensures
        r.deep_view() == canonical_uuid(text@),
{
    match uuid::Uuid::parse_str(text) {
        Ok(id) => Some(id.to_string()),
        Err(_) => None,
    }
}

/// The form `YYYY-MM-DD` of the date that `chrono::NaiveDate::parse_from_str`
/// reads from a text under that format, or `None` where it reports an error.
pub uninterp spec fn canonical_date(text: Seq<char>) -> Option<Seq<char>>;

/// Calls `chrono::NaiveDate::parse_from_str` with the format `%Y-%m-%d`
/// and writes the date out again under the same format. The contract claims
/// only that the result is a function of the text.
#[verifier::external_body]
fn parse_date_ymd(text: &str) -> (r: Option<String>)
    ensures
        r.deep_view() == canonical_date(text@),
{
    match chrono::NaiveDate::parse_from_str(text, "%Y-%m-%d") {
        Ok(date) => Some(date.format("%Y-%m-%d").to_string()),
        Err(_) => None,
    }
}

/// Accepts a text that is a date, and gives the date in the form
/// `YYYY-MM-DD`: only that form goes into a query.
pub fn validate_date_ymd(date_str: &str) -> (r: Result<String, AppError>)
    ensures
        match r {
            Ok(date) => canonical_date(date_str@) == Some(date@),
            Err(e) => canonical_date(date_str@) is None && (e matches AppError::Validation(m) && m@
                == "Invalid date format. Expected YYYY-MM-DD"@),
        },
{
    match parse_date_ymd(date_str) {
        Some(date) => Ok(date),
        None => Err(AppError::Validation("Invalid date format. Expected YYYY-MM-DD".to_owned())),
    }
}

/// Accepts a text that is a UUID, and gives the UUID in its canonical form.
pub fn validate_uuid(id: &str) -> (r: Result<String, AppError>)
    ensures
        match r {
            Ok(uuid) => canonical_uuid(id@) == Some(uuid@),
            Err(e) => canonical_uuid(id@) is None && (e matches AppError::Validation(m) && m@
                == "Invalid ID format"@),
        },
{
    match parse_uuid(id) {
        Some(uuid) => Ok(uuid),
        None => Err(AppError::Validation("Invalid ID format".to_owned())),
    }
}

} // verus!
