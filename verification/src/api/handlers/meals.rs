//! Shapes of the meal endpoints, and the rule on meal types.

use vstd::prelude::*;
use vstd::string::*;
use crate::error::AppError;
use crate::text::{lowercase, str_eq, to_lowercase};

verus! {

/// The day that meals are asked for.
#[derive(Debug)]
pub struct DateQuery {
    pub date: String, // YYYY-MM-DD
}

/// How many recent meals are asked for.
#[derive(Debug)]
pub struct RecentMealsQuery {
    pub limit: Option<i64>,
}

/// The confirmation of a logged meal.
#[derive(Debug)]
pub struct LogMealResponse {
    pub meal_id: String,
    pub message: String,
}

/// A day's intake held against its goals.
#[derive(Debug)]
pub struct NutritionSummary {
    pub calories: i32,
    pub calories_goal: i32,
    pub protein: i32,
    pub protein_goal: i32,
    pub fat: i32,
    pub fat_goal: i32,
    pub carbs: i32,
    pub carbs_goal: i32,
}

/// A plain confirmation.
#[derive(Debug)]
pub struct MessageResponse {
    pub message: String,
}


/// The meal types that a meal may be logged under.
pub open spec fn is_meal_type(name: Seq<char>) -> bool {
    name == "breakfast"@ || name == "lunch"@ || name == "dinner"@ || name == "snack"@ || name
        == "pre_workout"@ || name == "post_workout"@ || name == "other"@
}

/// Accepts a meal type that is, in lower case, one of the types allowed.
pub fn validate_meal_type(meal_type: &str) -> (r: Result<(), AppError>)
    ensures
        r is Ok <==> is_meal_type(lowercase(meal_type@)),
        r matches Err(e) ==> e matches AppError::Validation(m) && m@
            == "Invalid meal_type. Allowed: [\"breakfast\", \"lunch\", \"dinner\", \"snack\", \"pre_workout\", \"post_workout\", \"other\"]"@,
{
    let lower = to_lowercase(meal_type);
    let name = lower.as_str();
    if str_eq(name, "breakfast") || str_eq(name, "lunch") || str_eq(name, "dinner") || str_eq(
        name,
        "snack",
    ) || str_eq(name, "pre_workout") || str_eq(name, "post_workout") || str_eq(name, "other") {
        Ok(())
    } else {
        Err(
            AppError::Validation(
                "Invalid meal_type. Allowed: [\"breakfast\", \"lunch\", \"dinner\", \"snack\", \"pre_workout\", \"post_workout\", \"other\"]".to_owned(),
            ),
        )
    }
}

} // verus!
