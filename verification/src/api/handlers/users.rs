//! Shapes of the profile endpoints, and the rules on what a profile may hold.

use vstd::prelude::*;
use vstd::string::*;
use crate::error::AppError;
use crate::text::{lowercase, str_eq, to_lowercase};

verus! {

/// Whether a user has finished onboarding.
#[derive(Debug)]
pub struct OnboardingStatusResponse {
    pub completed: bool,
}

/// A plain confirmation.
#[derive(Debug)]
pub struct MessageResponse {
    pub message: String,
}


/// The training goals that a profile may name.
pub open spec fn is_goal(name: Seq<char>) -> bool {
    name == "hypertrophy"@ || name == "cut"@ || name == "health"@ || name == "strength"@
}

/// The training levels that a profile may name.
pub open spec fn is_level(name: Seq<char>) -> bool {
    name == "beginner"@ || name == "intermediate"@ || name == "advanced"@
}

/// The values that a profile may give for the sex.
pub open spec fn is_sex(name: Seq<char>) -> bool {
    name == "male"@ || name == "female"@ || name == "other"@
}

/// Accepts a goal that is, in lower case, one of the goals allowed.
pub fn validate_goal(goal: &str) -> (r: Result<(), AppError>)
    ensures
        r is Ok <==> is_goal(lowercase(goal@)),
        r matches Err(e) ==> e matches AppError::Validation(m) && m@
            == "Invalid goal. Allowed: [\"hypertrophy\", \"cut\", \"health\", \"strength\"]"@,
{
    let lower = to_lowercase(goal);
    let name = lower.as_str();
    if str_eq(name, "hypertrophy") || str_eq(name, "cut") || str_eq(name, "health") || str_eq(
        name,
        "strength",
    ) {
        Ok(())
    } else {
        Err(
            AppError::Validation(
                "Invalid goal. Allowed: [\"hypertrophy\", \"cut\", \"health\", \"strength\"]".to_owned(),
            ),
        )
    }
}

/// Accepts a training level that is, in lower case, one of the levels
/// allowed.
pub fn validate_level(level: &str) -> (r: Result<(), AppError>)
    ensures
        r is Ok <==> is_level(lowercase(level@)),
        r matches Err(e) ==> e matches AppError::Validation(m) && m@
            == "Invalid level. Allowed: [\"beginner\", \"intermediate\", \"advanced\"]"@,
{
    let lower = to_lowercase(level);
    let name = lower.as_str();
    if str_eq(name, "beginner") || str_eq(name, "intermediate") || str_eq(name, "advanced") {
        Ok(())
    } else {
        Err(
            AppError::Validation(
                "Invalid level. Allowed: [\"beginner\", \"intermediate\", \"advanced\"]".to_owned(),
            ),
        )
    }
}

/// Accepts a sex that is, in lower case, one of the values allowed.
pub fn validate_sex(sex: &str) -> (r: Result<(), AppError>)
    ensures
        r is Ok <==> is_sex(lowercase(sex@)),
        r matches Err(e) ==> e matches AppError::Validation(m) && m@
            == "Invalid sex. Allowed: [\"male\", \"female\", \"other\"]"@,
{
    let lower = to_lowercase(sex);
    let name = lower.as_str();
    if str_eq(name, "male") || str_eq(name, "female") || str_eq(name, "other") {
        Ok(())
    } else {
        Err(AppError::Validation("Invalid sex. Allowed: [\"male\", \"female\", \"other\"]".to_owned()))
    }
}

/// The message for a value outside its range, as `format!` writes it.
pub uninterp spec fn range_message(field: Seq<char>, min: i32, max: i32) -> Seq<char>;

/// Writes the message for a value outside its range with `format!`. The
/// contract claims only that the text is a function of the three values.
#[verifier::external_body]
fn write_range_message(field: &str, min: i32, max: i32) -> (text: String)
    ensures
        text@ == range_message(field@, min, max),
{
    format!("{} must be between {} and {}", field, min, max)
}

/// Accepts a value that lies within `min` and `max`, both included.
pub fn validate_range(value: i32, min: i32, max: i32, field: &str) -> (r: Result<(), AppError>)
    ensures
        r is Ok <==> min <= value <= max,
        r matches Err(e) ==> e matches AppError::Validation(m) && m@ == range_message(
            field@,
            min,
            max,
        ),
{
    if value < min || value > max {
        Err(AppError::Validation(write_range_message(field, min, max)))
    } else {
        Ok(())
    }
}

} // verus!
